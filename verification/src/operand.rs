//! Operand values carried by instructions: register indices, constants and
//! addresses, each no wider than the bits its encoding has room for.
//!
//! Every operand type keeps its raw value private, is built only from
//! nibbles (or, for an address, from an offset in range), and has the number
//! it stands for as its view.
use vstd::prelude::*;

verus! {

/// Largest value of a nibble.
pub const NIBBLE_MAX: u8 = 0xF;

/// Largest value of an 8-bit constant.
pub const CONST8_MAX: u8 = 0xFF;

/// Largest address: memory has 4096 bytes.
pub const ADDRESS_MAX: u16 = 0xFFF;

/// A nibble is a 4-bit value, held in the low half of a byte.
pub open spec fn is_nibble(n: u8) -> bool {
    n <= NIBBLE_MAX
}

/// The number whose base-16 digits, most significant first, are `n1 n2 n3`.
pub open spec fn join3(n1: u8, n2: u8, n3: u8) -> nat {
    (n1 * 0x100 + n2 * 0x10 + n3) as nat
}

/// The number whose base-16 digits, most significant first, are `n2 n3`.
pub open spec fn join2(n2: u8, n3: u8) -> nat {
    (n2 * 0x10 + n3) as nat
}

/// Index of one of the sixteen general-purpose registers.
#[derive(Clone, Copy, Debug, PartialEq, Eq, Structural)]
pub struct Var {
    index: u8,
}

impl View for Var {
    type V = nat;

    closed spec fn view(&self) -> nat {
        self.index as nat
    }
}

impl Var {
    /// A register index is well formed when it names one of the sixteen
    /// registers.
    #[verifier::type_invariant]
    pub open spec fn wf(&self) -> bool {
        self@ <= NIBBLE_MAX
    }

    /// The register index that nibble `n` stands for.
    pub closed spec fn spec_from_nibble(n: u8) -> Var {
        Var { index: n }
    }

    /// The register named by nibble `n`.
    #[verifier::when_used_as_spec(spec_from_nibble)]
    pub fn from_nibble(n: u8) -> (v: Var)
        requires
            is_nibble(n),
        ensures
            v == Var::spec_from_nibble(n),
            v.wf(),
            v@ == n,
    {
        Var { index: n }
    }

    /// The index of the register, between 0 and 15.
    pub fn index(&self) -> (n: u8)
        ensures
            n == self@,
            is_nibble(n),
    {
        proof {
            use_type_invariant(self);
        }
        self.index
    }

    /// Building a register index from a nibble keeps the nibble: the index
    /// built from `n` is well formed and stands for `n`.
    pub proof fn lemma_from_nibble(n: u8)
        requires
            is_nibble(n),
        ensures
            Var::spec_from_nibble(n).wf(),
            Var::spec_from_nibble(n)@ == n,
    {
    }

    /// Two register indices that stand for the same number are equal.
    pub proof fn lemma_view_injective(a: Var, b: Var)
        ensures
            a@ == b@ <==> a == b,
    {
    }
}

/// A 4-bit constant.
#[derive(Clone, Copy, Debug, PartialEq, Eq, Structural)]
pub struct Const4 {
    value: u8,
}

impl View for Const4 {
    type V = nat;

    closed spec fn view(&self) -> nat {
        self.value as nat
    }
}

impl Const4 {
    /// A 4-bit constant is well formed when it fits in four bits.
    #[verifier::type_invariant]
    pub open spec fn wf(&self) -> bool {
        self@ <= NIBBLE_MAX
    }

    /// The 4-bit constant that nibble `n` stands for.
    pub closed spec fn spec_from_nibble(n: u8) -> Const4 {
        Const4 { value: n }
    }

    /// The constant held by nibble `n`.
    #[verifier::when_used_as_spec(spec_from_nibble)]
    pub fn from_nibble(n: u8) -> (c: Const4)
        requires
            is_nibble(n),
        ensures
            c == Const4::spec_from_nibble(n),
            c.wf(),
            c@ == n,
    {
        Const4 { value: n }
    }

    /// The value of the constant, between 0 and 15.
    pub fn value(&self) -> (n: u8)
        ensures
            n == self@,
            is_nibble(n),
    {
        proof {
            use_type_invariant(self);
        }
        self.value
    }

    /// Building a 4-bit constant from a nibble keeps the nibble: the
    /// constant built from `n` is well formed and stands for `n`.
    pub proof fn lemma_from_nibble(n: u8)
        requires
            is_nibble(n),
        ensures
            Const4::spec_from_nibble(n).wf(),
            Const4::spec_from_nibble(n)@ == n,
    {
    }

    /// Two 4-bit constants that stand for the same number are equal.
    pub proof fn lemma_view_injective(a: Const4, b: Const4)
        ensures
            a@ == b@ <==> a == b,
    {
    }
}

/// An 8-bit constant.
#[derive(Clone, Copy, Debug, PartialEq, Eq, Structural)]
pub struct Const8 {
    value: u8,
}

impl View for Const8 {
    type V = nat;

    closed spec fn view(&self) -> nat {
        self.value as nat
    }
}

impl Const8 {
    /// An 8-bit constant is well formed when it fits in a byte.
    #[verifier::type_invariant]
    pub open spec fn wf(&self) -> bool {
        self@ <= CONST8_MAX
    }

    /// The 8-bit constant whose high nibble is `n2` and whose low nibble is
    /// `n3`.
    pub closed spec fn spec_from_nibbles(n2: u8, n3: u8) -> Const8 {
        Const8 { value: join2(n2, n3) as u8 }
    }

    /// The constant with high nibble `n2` and low nibble `n3`.
    #[verifier::when_used_as_spec(spec_from_nibbles)]
    pub fn from_nibbles(n2: u8, n3: u8) -> (c: Const8)
        requires
            is_nibble(n2),
            is_nibble(n3),
        ensures
            c == Const8::spec_from_nibbles(n2, n3),
            c.wf(),
            c@ == join2(n2, n3),
    {
        let value: u8 = (n2 << 4) | n3;
        assert(value == n2 * 0x10 + n3) by (bit_vector)
            requires
                value == (n2 << 4) | n3,
                n2 <= 0xF,
                n3 <= 0xF,
        ;
        Const8 { value }
    }

    /// The value of the constant.
    pub fn value(&self) -> (n: u8)
        ensures
            n == self@,
    {
        self.value
    }

    /// Building an 8-bit constant from two nibbles keeps both: the constant
    /// built from `n2 n3` is well formed and stands for `16 * n2 + n3`.
    pub proof fn lemma_from_nibbles(n2: u8, n3: u8)
        requires
            is_nibble(n2),
            is_nibble(n3),
        ensures
            Const8::spec_from_nibbles(n2, n3).wf(),
            Const8::spec_from_nibbles(n2, n3)@ == join2(n2, n3),
    {
    }

    /// Splitting a byte into its two nibbles and building a constant from
    /// them gives the constant that stands for the byte.
    pub proof fn lemma_nibbles_round_trip(value: nat)
        requires
            value <= CONST8_MAX,
        ensures
            is_nibble((value / 0x10) as u8),
            is_nibble((value % 0x10) as u8),
            Const8::spec_from_nibbles((value / 0x10) as u8, (value % 0x10) as u8)@ == value,
    {
    }

    /// Two 8-bit constants that stand for the same number are equal.
    pub proof fn lemma_view_injective(a: Const8, b: Const8)
        ensures
            a@ == b@ <==> a == b,
    {
    }
}

/// Why an address could not be built.
#[derive(Clone, Copy, Debug, PartialEq, Eq, Structural)]
pub enum ConstructionRangeError {
    /// The offset, carried here, lies beyond the last byte of memory.
    OutOfRange(usize),
}

/// A 12-bit address into memory.
#[derive(Clone, Copy, Debug, PartialEq, Eq, Structural)]
pub struct Address {
    value: u16,
}

impl View for Address {
    type V = nat;

    closed spec fn view(&self) -> nat {
        self.value as nat
    }
}

impl Address {
    /// An address is well formed when it fits in twelve bits.
    #[verifier::type_invariant]
    pub open spec fn wf(&self) -> bool {
        self@ <= ADDRESS_MAX
    }

    /// The address whose three nibbles, most significant first, are
    /// `n1 n2 n3`.
    pub closed spec fn spec_from_nibbles(n1: u8, n2: u8, n3: u8) -> Address {
        Address { value: join3(n1, n2, n3) as u16 }
    }

    /// The address with nibbles `n1 n2 n3`, most significant first.
    #[verifier::when_used_as_spec(spec_from_nibbles)]
    pub fn from_nibbles(n1: u8, n2: u8, n3: u8) -> (a: Address)
        requires
            is_nibble(n1),
            is_nibble(n2),
            is_nibble(n3),
        ensures
            a == Address::spec_from_nibbles(n1, n2, n3),
            a.wf(),
            a@ == join3(n1, n2, n3),
    {
        let value: u16 = ((n1 as u16) << 8) | ((n2 as u16) << 4) | (n3 as u16);
        assert(value == n1 * 0x100 + n2 * 0x10 + n3) by (bit_vector)
            requires
                value == ((n1 as u16) << 8) | ((n2 as u16) << 4) | (n3 as u16),
                n1 <= 0xF,
                n2 <= 0xF,
                n3 <= 0xF,
        ;
        Address { value }
    }

    /// The address at `offset` bytes from the start of memory.
    pub fn from_offset(offset: usize) -> (a: Address)
        requires
            offset <= ADDRESS_MAX,
        ensures
            a.wf(),
            a@ == offset,
    {
        Address { value: offset as u16 }
    }

    /// The address at `offset` bytes from the start of memory, or
    /// `OutOfRange` when memory has no such byte.
    pub fn checked_from_offset(offset: usize) -> (r: Result<Address, ConstructionRangeError>)
        ensures
            (match r {
                Ok(a) => offset <= ADDRESS_MAX && a.wf() && a@ == offset,
                Err(e) => offset > ADDRESS_MAX && e == ConstructionRangeError::OutOfRange(offset),
            }),
    {
        if offset <= ADDRESS_MAX as usize {
            Ok(Address::from_offset(offset))
        } else {
            Err(ConstructionRangeError::OutOfRange(offset))
        }
    }

    /// The number of bytes from the start of memory to this address.
    pub fn offset(&self) -> (n: usize)
        ensures
            n == self@,
            n <= ADDRESS_MAX,
    {
        proof {
            use_type_invariant(self);
        }
        self.value as usize
    }

    /// Building an address from three nibbles keeps all three: the address
    /// built from `n1 n2 n3` is well formed and stands for
    /// `256 * n1 + 16 * n2 + n3`.
    pub proof fn lemma_from_nibbles(n1: u8, n2: u8, n3: u8)
        requires
            is_nibble(n1),
            is_nibble(n2),
            is_nibble(n3),
        ensures
            Address::spec_from_nibbles(n1, n2, n3).wf(),
            Address::spec_from_nibbles(n1, n2, n3)@ == join3(n1, n2, n3),
    {
    }

    /// Splitting a 12-bit value into its three nibbles and building an
    /// address from them gives the address that stands for the value.
    pub proof fn lemma_nibbles_round_trip(value: nat)
        requires
            value <= ADDRESS_MAX,
        ensures
            is_nibble((value / 0x100) as u8),
            is_nibble((value / 0x10 % 0x10) as u8),
            is_nibble((value % 0x10) as u8),
            Address::spec_from_nibbles(
                (value / 0x100) as u8,
                (value / 0x10 % 0x10) as u8,
                (value % 0x10) as u8,
            )@ == value,
    {
    }

    /// Two addresses that stand for the same number are equal.
    pub proof fn lemma_view_injective(a: Address, b: Address)
        ensures
            a@ == b@ <==> a == b,
    {
    }
}

impl From<Address> for usize {
    /// The number of bytes from the start of memory to `address`.
    fn from(address: Address) -> (n: usize) {
        address.offset()
    }
}

impl vstd::std_specs::convert::FromSpecImpl<Address> for usize {
    open spec fn obeys_from_spec() -> bool {
        true
    }

    open spec fn from_spec(address: Address) -> usize {
        address@ as usize
    }
}

} // verus!
