//! The operator, cast and byte-order tags of the source language.

use vstd::prelude::*;

verus! {

/// How a cast changes the width of its operand.
#[derive(Debug, PartialEq, Eq, Hash, Clone, Copy, Structural)]
pub enum CastType {
    /// Widen by zero extension.
    UNSIGNED,
    /// Widen by sign extension.
    SIGNED,
    /// Keep the most significant bits.
    HIGH,
    /// Keep the least significant bits.
    LOW,
}

/// The binary operators of the source language.
#[derive(Debug, PartialEq, Eq, Hash, Clone, Copy, Structural)]
pub enum BinOpType {
    PLUS,
    MINUS,
    TIMES,
    DIVIDE,
    SDIVIDE,
    MOD,
    SMOD,
    LSHIFT,
    RSHIFT,
    ARSHIFT,
    AND,
    OR,
    XOR,
    EQ,
    NEQ,
    LT,
    LE,
    SLT,
    SLE,
}

/// The unary operators of the source language.
#[derive(Debug, PartialEq, Eq, Hash, Clone, Copy, Structural)]
pub enum UnOpType {
    NEG,
    NOT,
}

/// The byte order of a memory access.
#[derive(Debug, PartialEq, Eq, Hash, Clone, Copy, Structural)]
pub enum Endianness {
    LittleEndian,
    BigEndian,
}

impl BinOpType {
    /// Whether the operator compares its operands. The result of a comparison
    /// is a single bit, whatever the width of the operands.
    pub open spec fn spec_is_comparison(self) -> bool {
        self == BinOpType::EQ || self == BinOpType::NEQ || self == BinOpType::LT || self
            == BinOpType::LE || self == BinOpType::SLT || self == BinOpType::SLE
    }

    /// Whether the operator compares its operands.
    #[verifier::when_used_as_spec(spec_is_comparison)]
    pub fn is_comparison(self) -> (b: bool)
        ensures
            b == self.spec_is_comparison(),
    {
        match self {
            BinOpType::EQ
            | BinOpType::NEQ
            | BinOpType::LT
            | BinOpType::LE
            | BinOpType::SLT
            | BinOpType::SLE => true,
            _ => false,
        }
    }
}

} // verus!
