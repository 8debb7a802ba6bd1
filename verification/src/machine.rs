//! The state that instructions are fetched from: memory, registers, the
//! program counter and the stack pointer.
use vstd::prelude::*;
use vstd::slice::slice_subrange;
use crate::decode::{decode, spec_decode, word_of_bytes};
use crate::instruction::{DecodeFailure, Instruction};
use crate::operand::Address;

verus! {

/// Number of bytes of memory.
pub const MEMORY_SIZE: usize = 4096;

/// Where a program is loaded, and where execution starts.
pub const PROGRAM_START: usize = 0x200;

/// Number of general-purpose registers.
pub const REGISTER_COUNT: usize = 16;

/// Memory as it is after loading `program` into `before`: the bytes of the
/// program stand from `PROGRAM_START` on, as far as memory has room for
/// them, and every other byte is as it was.
pub open spec fn loaded_image(before: Seq<u8>, program: Seq<u8>) -> Seq<u8> {
    Seq::new(
        MEMORY_SIZE as nat,
        |i: int|
            if PROGRAM_START <= i < PROGRAM_START + program.len() {
                program[i - PROGRAM_START]
            } else {
                before[i]
            },
    )
}

/// How many bytes of `program` are loaded: all of them, or as many as
/// memory has room for from `PROGRAM_START` on.
pub open spec fn loaded_len(program: Seq<u8>) -> nat {
    if program.len() <= MEMORY_SIZE - PROGRAM_START {
        program.len()
    } else {
        (MEMORY_SIZE - PROGRAM_START) as nat
    }
}

/// The memory of the machine: 4096 bytes.
pub struct Memory {
    pub data: [u8; 4096],
}

impl View for Memory {
    type V = Seq<u8>;

    open spec fn view(&self) -> Seq<u8> {
        self.data@
    }
}

impl Memory {
    /// The byte that stands `offset` bytes from the start of memory.
    pub open spec fn byte_at(&self, offset: nat) -> u8 {
        self@[offset as int]
    }

    /// Memory with every byte zero.
    pub fn new() -> (m: Memory)
        ensures
            m@.len() == MEMORY_SIZE,
            forall|i: int| 0 <= i < MEMORY_SIZE ==> m@[i] == 0,
    {
        Memory { data: [0; 4096] }
    }

    /// Copies `program` into memory from `PROGRAM_START` on and returns the
    /// number of bytes copied. A program longer than the room that memory
    /// has from there is cut off at the end of memory.
    pub fn load_program(&mut self, program: &[u8]) -> (loaded: usize)
        ensures
            final(self)@ == loaded_image(old(self)@, program@),
            loaded == loaded_len(program@),
    {
        let room: usize = MEMORY_SIZE - PROGRAM_START;
        let count: usize = if program.len() <= room {
            program.len()
        } else {
            room
        };
        let mut copied: usize = 0;
        while copied < count
            invariant
                copied <= count,
                count <= program@.len(),
                count <= MEMORY_SIZE - PROGRAM_START,
                self@ == loaded_image(old(self)@, program@.take(copied as int)),
            decreases count - copied,
        {
            self.data[PROGRAM_START + copied] = program[copied];
            copied = copied + 1;
        }
        copied
    }

    /// Fetches and decodes the instruction whose two bytes stand at
    /// `address` and at the byte after it.
    pub fn fetch_opcode(&self, address: Address) -> (r: Result<Instruction, DecodeFailure>)
        requires
            address@ + 1 < MEMORY_SIZE,
        ensures
            r == spec_decode(self.byte_at(address@), self.byte_at(address@ + 1)),
            r matches Ok(i) ==> i.is_read_from(
                word_of_bytes(self.byte_at(address@), self.byte_at(address@ + 1)),
            ),
    {
        let idx: usize = address.offset();
        let opcode: &[u8] = slice_subrange(self.data.as_slice(), idx, idx + 2);
        decode(opcode)
    }
}

/// The whole state of the machine.
pub struct SystemState {
    pub memory: Memory,
    pub registers: [u8; 16],
    pub pc: usize,
    pub sp: usize,
}

impl SystemState {
    /// The state at power-on: memory and registers zeroed, the program
    /// counter at `PROGRAM_START`, the stack empty.
    pub fn new() -> (s: SystemState)
        ensures
            forall|i: int| 0 <= i < MEMORY_SIZE ==> s.memory@[i] == 0,
            forall|i: int| 0 <= i < REGISTER_COUNT ==> s.registers@[i] == 0,
            s.pc == PROGRAM_START,
            s.sp == 0,
    {
        SystemState { memory: Memory::new(), registers: [0; 16], pc: PROGRAM_START, sp: 0 }
    }
}

} // verus!
