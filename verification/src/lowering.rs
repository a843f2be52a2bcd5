//! Lowering of source expressions into the analysis language.

use crate::expression::{Expression, SpecExpression};
use crate::intermediate_representation::{
    ByteSize, IrBinOpType, IrCastOpType, IrExpression, IrUnOpType, IrVariable, SpecIrExpression,
};
use crate::operators::CastType;
use crate::variable::BitSize;
use vstd::pervasive::unreached;
use vstd::prelude::*;
use vstd::std_specs::convert::FromSpec;

verus! {

impl SpecExpression {
    /// The expression of the analysis language that stands for this one, or
    /// `None` where there is none.
    ///
    /// Variables, constants, operations and concatenations are carried over
    /// node by node. A widening cast becomes an extension to the size of its
    /// width. A narrowing cast and an extraction become the selection of a
    /// range of bytes: the low cast starts at byte 0 and the high cast at the
    /// byte where the bits above its width begin. An extraction starts at the
    /// byte offset that its low bit position names, taken as it is, and spans
    /// one bit more than the difference of its two positions. Widths are
    /// given in whole bytes, rounded up.
    ///
    /// Memory accesses, bindings, unknown values and choices have no
    /// counterpart, and neither has a tree that holds one. A variable needs an
    /// immediate type. A high cast needs a width that is a multiple of 8 and
    /// no larger than the width of its operand, which must have one.
    pub open spec fn lower(self) -> Option<SpecIrExpression>
        decreases self,
    {
        match self {
            SpecExpression::Var(var) => match var.lower() {
                Some(ir_var) => Some(SpecIrExpression::Var(ir_var)),
                None => None,
            },
            SpecExpression::Const(bitvector) => Some(SpecIrExpression::Const(bitvector)),
            SpecExpression::Load { .. } => None,
            SpecExpression::Store { .. } => None,
            SpecExpression::Let { .. } => None,
            SpecExpression::Unknown { .. } => None,
            SpecExpression::IfThenElse { .. } => None,
            SpecExpression::BinOp { op, lhs, rhs } => match (lhs.lower(), rhs.lower()) {
                (Some(ir_lhs), Some(ir_rhs)) => Some(
                    SpecIrExpression::BinOp {
                        op: IrBinOpType::from_spec(op),
                        lhs: Box::new(ir_lhs),
                        rhs: Box::new(ir_rhs),
                    },
                ),
                _ => None,
            },
            SpecExpression::UnOp { op, arg } => match arg.lower() {
                Some(ir_arg) => Some(
                    SpecIrExpression::UnOp { op: IrUnOpType::from_spec(op), arg: Box::new(ir_arg) },
                ),
                None => None,
            },
            SpecExpression::Cast { kind, width, arg } => match arg.lower() {
                Some(ir_arg) => match kind {
                    CastType::UNSIGNED => Some(
                        SpecIrExpression::Cast {
                            op: IrCastOpType::IntZExt,
                            size: ByteSize::of_bits(width),
                            arg: Box::new(ir_arg),
                        },
                    ),
                    CastType::SIGNED => Some(
                        SpecIrExpression::Cast {
                            op: IrCastOpType::IntSExt,
                            size: ByteSize::of_bits(width),
                            arg: Box::new(ir_arg),
                        },
                    ),
                    CastType::HIGH => match arg.bitsize() {
                        Some(arg_bits) => if width % 8 == 0 && width <= arg_bits {
                            Some(
                                SpecIrExpression::Subpiece {
                                    low_byte: ByteSize::of_bits((arg_bits - width) as BitSize),
                                    size: ByteSize::of_bits(width),
                                    arg: Box::new(ir_arg),
                                },
                            )
                        } else {
                            None
                        },
                        None => None,
                    },
                    CastType::LOW => Some(
                        SpecIrExpression::Subpiece {
                            low_byte: ByteSize(0),
                            size: ByteSize::of_bits(width),
                            arg: Box::new(ir_arg),
                        },
                    ),
                },
                None => None,
            },
            SpecExpression::Extract { low_bit, high_bit, arg } => match arg.lower() {
                Some(ir_arg) => if low_bit <= high_bit && high_bit - low_bit + 1 <= BitSize::MAX {
                    Some(
                        SpecIrExpression::Subpiece {
                            low_byte: ByteSize(low_bit as u64),
                            size: ByteSize::of_bits((high_bit - low_bit + 1) as BitSize),
                            arg: Box::new(ir_arg),
                        },
                    )
                } else {
                    None
                },
                None => None,
            },
            SpecExpression::Concat { left, right } => match (left.lower(), right.lower()) {
                (Some(ir_left), Some(ir_right)) => Some(
                    SpecIrExpression::BinOp {
                        op: IrBinOpType::Piece,
                        lhs: Box::new(ir_left),
                        rhs: Box::new(ir_right),
                    },
                ),
                _ => None,
            },
        }
    }

    /// Whether a memory access, a binding, an unknown value or a choice stands
    /// somewhere in the tree.
    pub open spec fn has_unsupported_node(self) -> bool
        decreases self,
    {
        match self {
            SpecExpression::Var(_) => false,
            SpecExpression::Const(_) => false,
            SpecExpression::Load { .. } => true,
            SpecExpression::Store { .. } => true,
            SpecExpression::Let { .. } => true,
            SpecExpression::Unknown { .. } => true,
            SpecExpression::IfThenElse { .. } => true,
            SpecExpression::BinOp { lhs, rhs, .. } => lhs.has_unsupported_node()
                || rhs.has_unsupported_node(),
            SpecExpression::UnOp { arg, .. } => arg.has_unsupported_node(),
            SpecExpression::Cast { arg, .. } => arg.has_unsupported_node(),
            SpecExpression::Extract { arg, .. } => arg.has_unsupported_node(),
            SpecExpression::Concat { left, right } => left.has_unsupported_node()
                || right.has_unsupported_node(),
        }
    }
}

/// A tree that holds a memory access, a binding, an unknown value or a choice
/// anywhere has no counterpart in the analysis language.
pub proof fn lemma_unsupported_node_is_not_lowered(tree: SpecExpression)
    requires
        tree.has_unsupported_node(),
    ensures
        tree.lower() is None,
    decreases tree,
{
    match tree {
        SpecExpression::BinOp { lhs, rhs, .. } => {
            if lhs.has_unsupported_node() {
                lemma_unsupported_node_is_not_lowered(*lhs);
            } else {
                lemma_unsupported_node_is_not_lowered(*rhs);
            }
        },
        SpecExpression::UnOp { arg, .. } => {
            lemma_unsupported_node_is_not_lowered(*arg);
        },
        SpecExpression::Cast { arg, .. } => {
            lemma_unsupported_node_is_not_lowered(*arg);
        },
        SpecExpression::Extract { arg, .. } => {
            lemma_unsupported_node_is_not_lowered(*arg);
        },
        SpecExpression::Concat { left, right } => {
            if left.has_unsupported_node() {
                lemma_unsupported_node_is_not_lowered(*left);
            } else {
                lemma_unsupported_node_is_not_lowered(*right);
            }
        },
        _ => {},
    }
}

/// A high cast selects the bytes above the point where the width of its
/// operand exceeds its own, a low cast the bytes from 0 on; both select as
/// many bytes as hold the width of the cast. Where the operand of a high cast
/// is a whole number of bytes wide, offset and size together reach exactly to
/// its top.
pub proof fn lemma_narrowing_casts_select_bytes(
    kind: CastType,
    width: BitSize,
    arg: SpecExpression,
)
    requires
        kind == CastType::HIGH || kind == CastType::LOW,
        (SpecExpression::Cast { kind, width, arg: Box::new(arg) }).lower() is Some,
    ensures
        ({
            let lowered = (SpecExpression::Cast { kind, width, arg: Box::new(arg) }).lower().unwrap();
            &&& lowered is Subpiece
            &&& Some(*lowered->Subpiece_arg) == arg.lower()
            &&& lowered->Subpiece_size.0 * 8 >= width > lowered->Subpiece_size.0 * 8 - 8
            &&& kind == CastType::LOW ==> lowered->low_byte.0 == 0
            &&& kind == CastType::HIGH ==> {
                &&& width % 8 == 0
                &&& arg.bitsize() is Some
                &&& lowered->Subpiece_size.0 * 8 == width
                &&& lowered->low_byte.0 * 8 >= arg.bitsize().unwrap() - width > lowered->low_byte.0
                    * 8 - 8
                &&& arg.bitsize().unwrap() % 8 == 0 ==> lowered->low_byte.0 * 8
                    + lowered->Subpiece_size.0 * 8 == arg.bitsize().unwrap()
            }
        }),
{
}

impl Expression {
    /// Whether the expression has a counterpart in the analysis language. A
    /// tree that holds a memory access, a binding, an unknown value or a
    /// choice at any depth has none.
    pub fn is_lowerable(&self) -> (lowerable: bool)
        ensures
            lowerable == self@.lower() is Some,
            self@.has_unsupported_node() ==> !lowerable,
        decreases self,
    {
        proof {
            if self@.has_unsupported_node() {
                lemma_unsupported_node_is_not_lowered(self@);
            }
        }
        match self {
            Expression::Var(var) => var.bitsize().is_some(),
            Expression::Const(_) => true,
            Expression::Load { .. } => false,
            Expression::Store { .. } => false,
            Expression::Let { .. } => false,
            Expression::Unknown { .. } => false,
            Expression::IfThenElse { .. } => false,
            Expression::BinOp { op: _, lhs, rhs } => (**lhs).is_lowerable() && (**rhs).is_lowerable(),
            Expression::UnOp { op: _, arg } => (**arg).is_lowerable(),
            Expression::Cast { kind, width, arg } => {
                if !(**arg).is_lowerable() {
                    false
                } else {
                    match kind {
                        CastType::HIGH => match (**arg).checked_bitsize() {
                            Some(arg_bits) => *width % 8 == 0 && *width <= arg_bits,
                            None => false,
                        },
                        _ => true,
                    }
                }
            },
            Expression::Extract { low_bit, high_bit, arg } => {
                (**arg).is_lowerable() && *low_bit <= *high_bit && *high_bit - *low_bit < 0xffff
            },
            Expression::Concat { left, right } => (**left).is_lowerable()
                && (**right).is_lowerable(),
        }
    }

    /// The counterpart of the expression in the analysis language, or the
    /// expression itself, untouched, where it has none. A tree that holds a
    /// memory access, a binding, an unknown value or a choice at any depth is
    /// handed back whole: no part of it is lowered.
    pub fn try_lower(self) -> (result: Result<IrExpression, Expression>)
        ensures
            match result {
                Ok(lowered) => Some(lowered@) == self@.lower(),
                Err(unchanged) => self@.lower() is None && unchanged@ == self@,
            },
            self@.has_unsupported_node() ==> result is Err,
    {
        proof {
            if self@.has_unsupported_node() {
                lemma_unsupported_node_is_not_lowered(self@);
            }
        }
        if self.is_lowerable() {
            Ok(IrExpression::from(self))
        } else {
            Err(self)
        }
    }
}

impl IrExpression {
    /// The counterpart of a source expression in the analysis language.
    pub fn from(expr: Expression) -> (lowered: IrExpression)
        requires
            expr@.lower() is Some,
        ensures
            Some(lowered@) == expr@.lower(),
        decreases expr,
    {
        match expr {
            Expression::Var(var) => IrExpression::Var(IrVariable::from(var)),
            Expression::Const(bitvector) => IrExpression::Const(bitvector),
            Expression::Load { .. } => unreached(),
            Expression::Store { .. } => unreached(),
            Expression::Let { .. } => unreached(),
            Expression::Unknown { .. } => unreached(),
            Expression::IfThenElse { .. } => unreached(),
            Expression::BinOp { op, lhs, rhs } => IrExpression::BinOp {
                op: IrBinOpType::from(op),
                lhs: Box::new(IrExpression::from(*lhs)),
                rhs: Box::new(IrExpression::from(*rhs)),
            },
            Expression::UnOp { op, arg } => IrExpression::UnOp {
                op: IrUnOpType::from(op),
                arg: Box::new(IrExpression::from(*arg)),
            },
            Expression::Cast { kind, width, arg } => {
                match kind {
                    CastType::UNSIGNED => IrExpression::Cast {
                        arg: Box::new(IrExpression::from(*arg)),
                        op: IrCastOpType::IntZExt,
                        size: ByteSize::from(width),
                    },
                    CastType::SIGNED => IrExpression::Cast {
                        arg: Box::new(IrExpression::from(*arg)),
                        op: IrCastOpType::IntSExt,
                        size: ByteSize::from(width),
                    },
                    CastType::HIGH => {
                        let low_byte = ByteSize::from((*arg).bitsize() - width);
                        IrExpression::Subpiece {
                            arg: Box::new(IrExpression::from(*arg)),
                            low_byte,
                            size: ByteSize::from(width),
                        }
                    },
                    CastType::LOW => IrExpression::Subpiece {
                        arg: Box::new(IrExpression::from(*arg)),
                        low_byte: ByteSize::from(0u64),
                        size: ByteSize::from(width),
                    },
                }
            },
            Expression::Extract { low_bit, high_bit, arg } => IrExpression::Subpiece {
                size: ByteSize::from(high_bit - low_bit + 1),
                low_byte: ByteSize::from(low_bit as u64),
                arg: Box::new(IrExpression::from(*arg)),
            },
            Expression::Concat { left, right } => IrExpression::BinOp {
                op: IrBinOpType::Piece,
                lhs: Box::new(IrExpression::from(*left)),
                rhs: Box::new(IrExpression::from(*right)),
            },
        }
    }
}

} // verus!
