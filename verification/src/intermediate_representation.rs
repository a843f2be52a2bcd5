//! The expression language of the analysis, into which source expressions are
//! lowered. Its sizes and offsets are counted in bytes.

use crate::bitvector::{bitvector_view, Bitvector, SpecBitvector};
use crate::operators::{BinOpType, UnOpType};
use crate::variable::{BitSize, SpecVariable, Type, Variable};
use vstd::pervasive::unreached;
use vstd::prelude::*;
use vstd::std_specs::cmp::PartialEqSpecImpl;
use vstd::std_specs::convert::FromSpecImpl;

verus! {

/// A size or an offset in bytes.
#[derive(Debug, PartialEq, Eq, Hash, Clone, Copy, Structural)]
pub struct ByteSize(pub u64);

impl ByteSize {
    /// The number of whole bytes that hold `bits` bits: the eighth part of
    /// `bits`, rounded up.
    pub open spec fn of_bits(bits: BitSize) -> ByteSize {
        ByteSize(((bits + 7) / 8) as u64)
    }
}

impl From<u64> for ByteSize {
    fn from(bytes: u64) -> (size: ByteSize) {
        ByteSize(bytes)
    }
}

impl FromSpecImpl<u64> for ByteSize {
    open spec fn obeys_from_spec() -> bool {
        true
    }

    open spec fn from_spec(bytes: u64) -> ByteSize {
        ByteSize(bytes)
    }
}

impl From<BitSize> for ByteSize {
    /// Converts a width in bits to a size in bytes, always rounding up to the
    /// next full byte.
    fn from(bitsize: BitSize) -> (size: ByteSize) {
        ByteSize((bitsize as u64 + 7) / 8)
    }
}

impl FromSpecImpl<BitSize> for ByteSize {
    open spec fn obeys_from_spec() -> bool {
        true
    }

    open spec fn from_spec(bitsize: BitSize) -> ByteSize {
        ByteSize::of_bits(bitsize)
    }
}

/// The binary operators of the analysis language.
#[derive(Debug, PartialEq, Eq, Hash, Clone, Copy, Structural)]
pub enum IrBinOpType {
    /// Concatenation of the bits of two values, the left operand first.
    Piece,
    IntEqual,
    IntNotEqual,
    IntLess,
    IntSLess,
    IntLessEqual,
    IntSLessEqual,
    IntAdd,
    IntSub,
    IntXOr,
    IntAnd,
    IntOr,
    IntLeft,
    IntRight,
    IntSRight,
    IntMult,
    IntDiv,
    IntRem,
    IntSDiv,
    IntSRem,
}

/// The unary operators of the analysis language.
#[derive(Debug, PartialEq, Eq, Hash, Clone, Copy, Structural)]
pub enum IrUnOpType {
    /// Complement of every bit.
    IntNegate,
    /// Negation in two's complement.
    Int2Comp,
}

/// The widening casts of the analysis language.
#[derive(Debug, PartialEq, Eq, Hash, Clone, Copy, Structural)]
pub enum IrCastOpType {
    /// Extension by zeros.
    IntZExt,
    /// Extension by copies of the sign bit.
    IntSExt,
}

impl From<BinOpType> for IrBinOpType {
    fn from(op: BinOpType) -> (ir: IrBinOpType) {
        match op {
            BinOpType::PLUS => IrBinOpType::IntAdd,
            BinOpType::MINUS => IrBinOpType::IntSub,
            BinOpType::TIMES => IrBinOpType::IntMult,
            BinOpType::DIVIDE => IrBinOpType::IntDiv,
            BinOpType::SDIVIDE => IrBinOpType::IntSDiv,
            BinOpType::MOD => IrBinOpType::IntRem,
            BinOpType::SMOD => IrBinOpType::IntSRem,
            BinOpType::LSHIFT => IrBinOpType::IntLeft,
            BinOpType::RSHIFT => IrBinOpType::IntRight,
            BinOpType::ARSHIFT => IrBinOpType::IntSRight,
            BinOpType::AND => IrBinOpType::IntAnd,
            BinOpType::OR => IrBinOpType::IntOr,
            BinOpType::XOR => IrBinOpType::IntXOr,
            BinOpType::EQ => IrBinOpType::IntEqual,
            BinOpType::NEQ => IrBinOpType::IntNotEqual,
            BinOpType::LT => IrBinOpType::IntLess,
            BinOpType::LE => IrBinOpType::IntLessEqual,
            BinOpType::SLT => IrBinOpType::IntSLess,
            BinOpType::SLE => IrBinOpType::IntSLessEqual,
        }
    }
}

impl FromSpecImpl<BinOpType> for IrBinOpType {
    open spec fn obeys_from_spec() -> bool {
        true
    }

    /// The operator table: every source operator has exactly one counterpart.
    open spec fn from_spec(op: BinOpType) -> IrBinOpType {
        match op {
            BinOpType::PLUS => IrBinOpType::IntAdd,
            BinOpType::MINUS => IrBinOpType::IntSub,
            BinOpType::TIMES => IrBinOpType::IntMult,
            BinOpType::DIVIDE => IrBinOpType::IntDiv,
            BinOpType::SDIVIDE => IrBinOpType::IntSDiv,
            BinOpType::MOD => IrBinOpType::IntRem,
            BinOpType::SMOD => IrBinOpType::IntSRem,
            BinOpType::LSHIFT => IrBinOpType::IntLeft,
            BinOpType::RSHIFT => IrBinOpType::IntRight,
            BinOpType::ARSHIFT => IrBinOpType::IntSRight,
            BinOpType::AND => IrBinOpType::IntAnd,
            BinOpType::OR => IrBinOpType::IntOr,
            BinOpType::XOR => IrBinOpType::IntXOr,
            BinOpType::EQ => IrBinOpType::IntEqual,
            BinOpType::NEQ => IrBinOpType::IntNotEqual,
            BinOpType::LT => IrBinOpType::IntLess,
            BinOpType::LE => IrBinOpType::IntLessEqual,
            BinOpType::SLT => IrBinOpType::IntSLess,
            BinOpType::SLE => IrBinOpType::IntSLessEqual,
        }
    }
}

impl From<UnOpType> for IrUnOpType {
    fn from(op: UnOpType) -> (ir: IrUnOpType) {
        match op {
            UnOpType::NEG => IrUnOpType::Int2Comp,
            UnOpType::NOT => IrUnOpType::IntNegate,
        }
    }
}

impl FromSpecImpl<UnOpType> for IrUnOpType {
    open spec fn obeys_from_spec() -> bool {
        true
    }

    /// `NEG` is negation in two's complement, `NOT` the complement of every
    /// bit.
    open spec fn from_spec(op: UnOpType) -> IrUnOpType {
        match op {
            UnOpType::NEG => IrUnOpType::Int2Comp,
            UnOpType::NOT => IrUnOpType::IntNegate,
        }
    }
}

/// A variable of the analysis language: a name and a size in bytes.
#[derive(Debug, Eq, Hash)]
pub struct IrVariable {
    pub name: String,
    pub size: ByteSize,
    pub is_temp: bool,
}

/// The mathematical value of a variable of the analysis language.
pub struct SpecIrVariable {
    pub name: Seq<char>,
    pub size: ByteSize,
    pub is_temp: bool,
}

impl View for IrVariable {
    type V = SpecIrVariable;

    open spec fn view(&self) -> SpecIrVariable {
        SpecIrVariable { name: self.name@, size: self.size, is_temp: self.is_temp }
    }
}

impl Clone for IrVariable {
    fn clone(&self) -> (copy: Self)
        ensures
            copy@ == self@,
    {
        IrVariable { name: self.name.clone(), size: self.size, is_temp: self.is_temp }
    }
}

impl PartialEq for IrVariable {
    fn eq(&self, other: &Self) -> (equal: bool) {
        self.name == other.name && self.size == other.size && self.is_temp == other.is_temp
    }
}

impl PartialEqSpecImpl for IrVariable {
    open spec fn obeys_eq_spec() -> bool {
        true
    }

    open spec fn eq_spec(&self, other: &Self) -> bool {
        self@ == other@
    }
}

impl SpecVariable {
    /// The counterpart of a variable in the analysis language: the same name
    /// and flag, with the declared width in whole bytes. A variable whose type
    /// has no width has none.
    pub open spec fn lower(self) -> Option<SpecIrVariable> {
        match self.type_ {
            Type::Immediate(bits) => Some(
                SpecIrVariable {
                    name: self.name,
                    size: ByteSize::of_bits(bits),
                    is_temp: self.is_temp,
                },
            ),
            _ => None,
        }
    }
}

impl IrVariable {
    /// The counterpart of a variable of immediate type.
    pub fn from(var: Variable) -> (ir: IrVariable)
        requires
            var@.lower() is Some,
        ensures
            Some(ir@) == var@.lower(),
    {
        match var.type_ {
            Type::Immediate(bits) => IrVariable {
                name: var.name,
                size: ByteSize::from(bits),
                is_temp: var.is_temp,
            },
            _ => unreached(),
        }
    }
}

/// An expression of the analysis language.
#[allow(inconsistent_fields)]
#[derive(Debug, Eq, Hash)]
pub enum IrExpression {
    Var(IrVariable),
    Const(Bitvector),
    BinOp { op: IrBinOpType, lhs: Box<IrExpression>, rhs: Box<IrExpression> },
    UnOp { op: IrUnOpType, arg: Box<IrExpression> },
    Cast { op: IrCastOpType, size: ByteSize, arg: Box<IrExpression> },
    /// The `size` bytes of `arg` that start at byte `low_byte`.
    Subpiece { low_byte: ByteSize, size: ByteSize, arg: Box<IrExpression> },
}

/// The mathematical value of an expression of the analysis language.
#[allow(inconsistent_fields)]
pub enum SpecIrExpression {
    Var(SpecIrVariable),
    Const(SpecBitvector),
    BinOp { op: IrBinOpType, lhs: Box<SpecIrExpression>, rhs: Box<SpecIrExpression> },
    UnOp { op: IrUnOpType, arg: Box<SpecIrExpression> },
    Cast { op: IrCastOpType, size: ByteSize, arg: Box<SpecIrExpression> },
    Subpiece { low_byte: ByteSize, size: ByteSize, arg: Box<SpecIrExpression> },
}

impl View for IrExpression {
    type V = SpecIrExpression;

    open spec fn view(&self) -> SpecIrExpression
        decreases self,
    {
        match self {
            IrExpression::Var(var) => SpecIrExpression::Var(var@),
            IrExpression::Const(bitvector) => SpecIrExpression::Const(bitvector_view(*bitvector)),
            IrExpression::BinOp { op, lhs, rhs } => SpecIrExpression::BinOp {
                op: *op,
                lhs: Box::new((**lhs).view()),
                rhs: Box::new((**rhs).view()),
            },
            IrExpression::UnOp { op, arg } => SpecIrExpression::UnOp {
                op: *op,
                arg: Box::new((**arg).view()),
            },
            IrExpression::Cast { op, size, arg } => SpecIrExpression::Cast {
                op: *op,
                size: *size,
                arg: Box::new((**arg).view()),
            },
            IrExpression::Subpiece { low_byte, size, arg } => SpecIrExpression::Subpiece {
                low_byte: *low_byte,
                size: *size,
                arg: Box::new((**arg).view()),
            },
        }
    }
}

impl Clone for IrExpression {
    /// An independent copy of the whole tree.
    fn clone(&self) -> (copy: Self)
        ensures
            copy@ == self@,
        decreases self,
    {
        match self {
            IrExpression::Var(var) => IrExpression::Var(var.clone()),
            IrExpression::Const(bitvector) => IrExpression::Const(bitvector.clone()),
            IrExpression::BinOp { op, lhs, rhs } => IrExpression::BinOp {
                op: *op,
                lhs: Box::new((**lhs).clone()),
                rhs: Box::new((**rhs).clone()),
            },
            IrExpression::UnOp { op, arg } => IrExpression::UnOp {
                op: *op,
                arg: Box::new((**arg).clone()),
            },
            IrExpression::Cast { op, size, arg } => IrExpression::Cast {
                op: *op,
                size: *size,
                arg: Box::new((**arg).clone()),
            },
            IrExpression::Subpiece { low_byte, size, arg } => IrExpression::Subpiece {
                low_byte: *low_byte,
                size: *size,
                arg: Box::new((**arg).clone()),
            },
        }
    }
}

impl PartialEq for IrExpression {
    /// Structural equality: the same variant, equal fields, equal children.
    fn eq(&self, other: &Self) -> (equal: bool)
        decreases self,
    {
        match (self, other) {
            (IrExpression::Var(a), IrExpression::Var(b)) => *a == *b,
            (IrExpression::Const(a), IrExpression::Const(b)) => *a == *b,
            (
                IrExpression::BinOp { op: o1, lhs: l1, rhs: r1 },
                IrExpression::BinOp { op: o2, lhs: l2, rhs: r2 },
            ) => *o1 == *o2 && (**l1).eq(&**l2) && (**r1).eq(&**r2),
            (IrExpression::UnOp { op: o1, arg: a1 }, IrExpression::UnOp { op: o2, arg: a2 }) => {
                *o1 == *o2 && (**a1).eq(&**a2)
            },
            (
                IrExpression::Cast { op: o1, size: s1, arg: a1 },
                IrExpression::Cast { op: o2, size: s2, arg: a2 },
            ) => *o1 == *o2 && *s1 == *s2 && (**a1).eq(&**a2),
            (
                IrExpression::Subpiece { low_byte: l1, size: s1, arg: a1 },
                IrExpression::Subpiece { low_byte: l2, size: s2, arg: a2 },
            ) => *l1 == *l2 && *s1 == *s2 && (**a1).eq(&**a2),
            _ => false,
        }
    }
}

impl PartialEqSpecImpl for IrExpression {
    open spec fn obeys_eq_spec() -> bool {
        true
    }

    open spec fn eq_spec(&self, other: &Self) -> bool {
        self@ == other@
    }
}

} // verus!
