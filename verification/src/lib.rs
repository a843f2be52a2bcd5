//! Bit-precise expressions of a lifted machine-code language, the elimination
//! of their local bindings, the inference of their bit widths, and their
//! lowering into the smaller expression language of the analysis.

pub mod bitsize;
pub mod bitvector;
pub mod expression;
pub mod intermediate_representation;
pub mod let_binding;
pub mod lowering;
pub mod operators;
pub mod variable;

pub use bitvector::Bitvector;
pub use expression::Expression;
pub use intermediate_representation::{
    ByteSize, IrBinOpType, IrCastOpType, IrExpression, IrUnOpType, IrVariable,
};
pub use operators::{BinOpType, CastType, Endianness, UnOpType};
pub use variable::{BitSize, Type, Variable};
