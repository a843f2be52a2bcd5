//! Inference of the width in bits that an expression evaluates to.

use crate::bitvector::bit_width;
use crate::expression::{Expression, SpecExpression};
use crate::operators::BinOpType;
use crate::variable::BitSize;
use vstd::pervasive::unreached;
use vstd::prelude::*;

verus! {

impl SpecExpression {
    /// The width in bits of the value of the expression, or `None` where it
    /// has none: at a binding, at a variable or an unknown value whose type is
    /// no immediate, at a constant wider than sixteen bits can count, at an
    /// extraction whose low bit lies above its high bit, and at a
    /// concatenation whose width sixteen bits cannot count.
    ///
    /// Only the operand that decides the width is looked at: the left operand
    /// of an arithmetic operation, the first branch of a choice. A store has
    /// width 0 as an expression, and the width of an extraction is the
    /// difference of its two bit positions.
    pub open spec fn bitsize(self) -> Option<BitSize>
        decreases self,
    {
        match self {
            SpecExpression::Var(var) => var.bitsize(),
            SpecExpression::Const(bitvector) => if bitvector.width <= BitSize::MAX {
                Some(bitvector.width as BitSize)
            } else {
                None
            },
            SpecExpression::Load { size, .. } => Some(size),
            SpecExpression::Store { .. } => Some(0),
            SpecExpression::BinOp { op, lhs, .. } => if op.is_comparison() {
                Some(1)
            } else {
                lhs.bitsize()
            },
            SpecExpression::UnOp { arg, .. } => arg.bitsize(),
            SpecExpression::Cast { width, .. } => Some(width),
            SpecExpression::Let { .. } => None,
            SpecExpression::Unknown { type_, .. } => type_.bitsize(),
            SpecExpression::IfThenElse { true_exp, .. } => true_exp.bitsize(),
            SpecExpression::Extract { low_bit, high_bit, .. } => if low_bit <= high_bit {
                Some((high_bit - low_bit) as BitSize)
            } else {
                None
            },
            SpecExpression::Concat { left, right } => match (left.bitsize(), right.bitsize()) {
                (Some(left_bits), Some(right_bits)) => if left_bits + right_bits <= BitSize::MAX {
                    Some((left_bits + right_bits) as BitSize)
                } else {
                    None
                },
                _ => None,
            },
        }
    }
}

/// A comparison is one bit wide, whatever its operands are.
pub proof fn lemma_comparison_is_one_bit(
    op: BinOpType,
    lhs: SpecExpression,
    rhs: SpecExpression,
)
    requires
        op == BinOpType::EQ || op == BinOpType::NEQ || op == BinOpType::LT || op == BinOpType::LE
            || op == BinOpType::SLT || op == BinOpType::SLE,
    ensures
        (SpecExpression::BinOp { op, lhs: Box::new(lhs), rhs: Box::new(rhs) }).bitsize() == Some(
            1u16,
        ),
{
}

/// The width of a concatenation is the sum of the widths of its two parts. It
/// has a width exactly when both parts have one and sixteen bits can count the
/// sum.
pub proof fn lemma_concat_adds_widths(left: SpecExpression, right: SpecExpression)
    ensures
        ({
            let whole = SpecExpression::Concat { left: Box::new(left), right: Box::new(right) };
            &&& whole.bitsize() is Some <==> (left.bitsize() is Some && right.bitsize() is Some
                && left.bitsize().unwrap() + right.bitsize().unwrap() <= BitSize::MAX)
            &&& whole.bitsize() is Some ==> whole.bitsize().unwrap() == left.bitsize().unwrap()
                + right.bitsize().unwrap()
        }),
{
}

impl Expression {
    /// The width in bits of the value of the expression, where it has one.
    pub fn checked_bitsize(&self) -> (bits: Option<BitSize>)
        ensures
            bits == self@.bitsize(),
        decreases self,
    {
        match self {
            Expression::Var(var) => var.bitsize(),
            Expression::Const(bitvector) => {
                let width: usize = bit_width(bitvector);
                if width <= 0xffff {
                    Some(width as BitSize)
                } else {
                    None
                }
            },
            Expression::Load { size, .. } => Some(*size),
            Expression::Store { .. } => Some(0),
            Expression::BinOp { op, lhs, rhs: _ } => {
                if op.is_comparison() {
                    Some(1)
                } else {
                    (**lhs).checked_bitsize()
                }
            },
            Expression::UnOp { arg, .. } => (**arg).checked_bitsize(),
            Expression::Cast { width, .. } => Some(*width),
            Expression::Let { .. } => None,
            Expression::Unknown { description: _, type_ } => type_.bitsize(),
            Expression::IfThenElse { true_exp, .. } => (**true_exp).checked_bitsize(),
            Expression::Extract { low_bit, high_bit, .. } => {
                if *low_bit <= *high_bit {
                    Some(*high_bit - *low_bit)
                } else {
                    None
                }
            },
            Expression::Concat { left, right } => {
                match ((**left).checked_bitsize(), (**right).checked_bitsize()) {
                    (Some(left_bits), Some(right_bits)) => left_bits.checked_add(right_bits),
                    _ => None,
                }
            },
        }
    }

    /// The width in bits of the value of the expression.
    pub fn bitsize(&self) -> (bits: BitSize)
        requires
            self@.bitsize() is Some,
        ensures
            Some(bits) == self@.bitsize(),
        decreases self,
    {
        match self {
            Expression::Var(var) => var.bitsize().unwrap(),
            Expression::Const(bitvector) => bit_width(bitvector) as BitSize,
            Expression::Load { size, .. } => *size,
            Expression::Store { .. } => 0,
            Expression::BinOp { op, lhs, rhs: _ } => {
                if op.is_comparison() {
                    1
                } else {
                    (**lhs).bitsize()
                }
            },
            Expression::UnOp { arg, .. } => (**arg).bitsize(),
            Expression::Cast { width, .. } => *width,
            Expression::Let { .. } => unreached(),
            Expression::Unknown { description: _, type_ } => type_.bitsize().unwrap(),
            Expression::IfThenElse { true_exp, .. } => (**true_exp).bitsize(),
            Expression::Extract { low_bit, high_bit, .. } => *high_bit - *low_bit,
            Expression::Concat { left, right } => (**left).bitsize() + (**right).bitsize(),
        }
    }
}

} // verus!
