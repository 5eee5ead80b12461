//! Block numbers as the node's API takes them: a plain number, or a
//! 256-bit value that travels as a hex string.
use vstd::prelude::*;

verus! {

/// A 256-bit unsigned integer, held as four 64-bit words, least
/// significant word first.
#[derive(Clone, Copy, Debug, PartialEq, Eq)]
pub struct U256(pub [u64; 4]);

impl U256 {
    /// The integer that the four words denote.
    pub open spec fn value(self) -> nat {
        (self.0[0] as nat) + (self.0[1] as nat) * 0x1_0000_0000_0000_0000nat + (self.0[2] as nat)
            * 0x1_0000_0000_0000_0000_0000_0000_0000_0000nat + (self.0[3] as nat)
            * 0x1_0000_0000_0000_0000_0000_0000_0000_0000_0000_0000_0000_0000nat
    }
}

/// A number type that can be serialized both as a number or a string
/// that encodes a number in a string.
///
/// Either the number is given directly, or as a 256-bit value that is
/// written in hex. The second form keeps big integers safe from overflow in
/// JavaScript clients.
#[derive(Clone, Copy, Debug, PartialEq, Eq)]
pub enum NumberOrHex {
    /// The number represented directly.
    Number(u64),
    /// Hex representation of the number.
    Hex(U256),
}

impl NumberOrHex {
    /// The number that either form denotes.
    pub open spec fn value(self) -> nat {
        match self {
            NumberOrHex::Number(n) => n as nat,
            NumberOrHex::Hex(h) => h.value(),
        }
    }
}

/// A block number as `chain_getBlockHash` takes it.
pub struct BlockNumber(NumberOrHex);

impl BlockNumber {
    /// The number that this block number carries.
    pub closed spec fn number(self) -> NumberOrHex {
        self.0
    }

    /// The carried number, taken out.
    pub fn into_inner(self) -> (n: NumberOrHex)
        ensures
            n == self.number(),
    {
        self.0
    }
}

impl From<NumberOrHex> for BlockNumber {
    fn from(x: NumberOrHex) -> (r: Self)
        ensures
            r.number() == x,
    {
        BlockNumber(x)
    }
}

impl From<u32> for BlockNumber {
    fn from(x: u32) -> (r: Self)
        ensures
            r.number() == NumberOrHex::Number(x as u64),
            r.number().value() == x,
    {
        NumberOrHex::Number(x.into()).into()
    }
}

impl vstd::std_specs::convert::FromSpecImpl<u32> for BlockNumber {
    open spec fn obeys_from_spec() -> bool {
        true
    }

    closed spec fn from_spec(v: u32) -> Self {
        BlockNumber(NumberOrHex::Number(v as u64))
    }
}

impl vstd::std_specs::convert::FromSpecImpl<NumberOrHex> for BlockNumber {
    open spec fn obeys_from_spec() -> bool {
        true
    }

    closed spec fn from_spec(v: NumberOrHex) -> Self {
        BlockNumber(v)
    }
}

} // verus!
