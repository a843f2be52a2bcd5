//! The expression tree of the source language and its mathematical model.

use crate::bitvector::{bitvector_view, Bitvector, SpecBitvector};
use crate::operators::{BinOpType, CastType, Endianness, UnOpType};
use crate::variable::{BitSize, SpecVariable, Type, Variable};
use vstd::prelude::*;

verus! {

/// An expression of the source language. Every node owns its children.
#[allow(inconsistent_fields)]
#[derive(Debug, Eq, Hash)]
pub enum Expression {
    Var(Variable),
    Const(Bitvector),
    Load { memory: Box<Expression>, address: Box<Expression>, endian: Endianness, size: BitSize },
    Store {
        memory: Box<Expression>,
        address: Box<Expression>,
        value: Box<Expression>,
        endian: Endianness,
        size: BitSize,
    },
    BinOp { op: BinOpType, lhs: Box<Expression>, rhs: Box<Expression> },
    UnOp { op: UnOpType, arg: Box<Expression> },
    Cast { kind: CastType, width: BitSize, arg: Box<Expression> },
    Let { var: Variable, bound_exp: Box<Expression>, body_exp: Box<Expression> },
    Unknown { description: String, type_: Type },
    IfThenElse {
        condition: Box<Expression>,
        true_exp: Box<Expression>,
        false_exp: Box<Expression>,
    },
    Extract { low_bit: BitSize, high_bit: BitSize, arg: Box<Expression> },
    Concat { left: Box<Expression>, right: Box<Expression> },
}

/// The mathematical value of an expression: the same tree over the values of
/// its leaves. Two expressions are structurally equal exactly when their
/// values are equal.
#[allow(inconsistent_fields)]
pub enum SpecExpression {
    Var(SpecVariable),
    Const(SpecBitvector),
    Load {
        memory: Box<SpecExpression>,
        address: Box<SpecExpression>,
        endian: Endianness,
        size: BitSize,
    },
    Store {
        memory: Box<SpecExpression>,
        address: Box<SpecExpression>,
        value: Box<SpecExpression>,
        endian: Endianness,
        size: BitSize,
    },
    BinOp { op: BinOpType, lhs: Box<SpecExpression>, rhs: Box<SpecExpression> },
    UnOp { op: UnOpType, arg: Box<SpecExpression> },
    Cast { kind: CastType, width: BitSize, arg: Box<SpecExpression> },
    Let { var: SpecVariable, bound_exp: Box<SpecExpression>, body_exp: Box<SpecExpression> },
    Unknown { description: Seq<char>, type_: Type },
    IfThenElse {
        condition: Box<SpecExpression>,
        true_exp: Box<SpecExpression>,
        false_exp: Box<SpecExpression>,
    },
    Extract { low_bit: BitSize, high_bit: BitSize, arg: Box<SpecExpression> },
    Concat { left: Box<SpecExpression>, right: Box<SpecExpression> },
}

impl View for Expression {
    type V = SpecExpression;

    open spec fn view(&self) -> SpecExpression
        decreases self,
    {
        match self {
            Expression::Var(var) => SpecExpression::Var(var@),
            Expression::Const(bitvector) => SpecExpression::Const(bitvector_view(*bitvector)),
            Expression::Load { memory, address, endian, size } => SpecExpression::Load {
                memory: Box::new((**memory).view()),
                address: Box::new((**address).view()),
                endian: *endian,
                size: *size,
            },
            Expression::Store { memory, address, value, endian, size } => SpecExpression::Store {
                memory: Box::new((**memory).view()),
                address: Box::new((**address).view()),
                value: Box::new((**value).view()),
                endian: *endian,
                size: *size,
            },
            Expression::BinOp { op, lhs, rhs } => SpecExpression::BinOp {
                op: *op,
                lhs: Box::new((**lhs).view()),
                rhs: Box::new((**rhs).view()),
            },
            Expression::UnOp { op, arg } => SpecExpression::UnOp {
                op: *op,
                arg: Box::new((**arg).view()),
            },
            Expression::Cast { kind, width, arg } => SpecExpression::Cast {
                kind: *kind,
                width: *width,
                arg: Box::new((**arg).view()),
            },
            Expression::Let { var, bound_exp, body_exp } => SpecExpression::Let {
                var: var@,
                bound_exp: Box::new((**bound_exp).view()),
                body_exp: Box::new((**body_exp).view()),
            },
            Expression::Unknown { description, type_ } => SpecExpression::Unknown {
                description: description@,
                type_: *type_,
            },
            Expression::IfThenElse { condition, true_exp, false_exp } => {
                SpecExpression::IfThenElse {
                    condition: Box::new((**condition).view()),
                    true_exp: Box::new((**true_exp).view()),
                    false_exp: Box::new((**false_exp).view()),
                }
            },
            Expression::Extract { low_bit, high_bit, arg } => SpecExpression::Extract {
                low_bit: *low_bit,
                high_bit: *high_bit,
                arg: Box::new((**arg).view()),
            },
            Expression::Concat { left, right } => SpecExpression::Concat {
                left: Box::new((**left).view()),
                right: Box::new((**right).view()),
            },
        }
    }
}

impl Clone for Expression {
    /// An independent copy of the whole tree.
    fn clone(&self) -> (copy: Self)
        ensures
            copy@ == self@,
        decreases self,
    {
        match self {
            Expression::Var(var) => Expression::Var(var.clone()),
            Expression::Const(bitvector) => Expression::Const(bitvector.clone()),
            Expression::Load { memory, address, endian, size } => Expression::Load {
                memory: Box::new((**memory).clone()),
                address: Box::new((**address).clone()),
                endian: *endian,
                size: *size,
            },
            Expression::Store { memory, address, value, endian, size } => Expression::Store {
                memory: Box::new((**memory).clone()),
                address: Box::new((**address).clone()),
                value: Box::new((**value).clone()),
                endian: *endian,
                size: *size,
            },
            Expression::BinOp { op, lhs, rhs } => Expression::BinOp {
                op: *op,
                lhs: Box::new((**lhs).clone()),
                rhs: Box::new((**rhs).clone()),
            },
            Expression::UnOp { op, arg } => Expression::UnOp {
                op: *op,
                arg: Box::new((**arg).clone()),
            },
            Expression::Cast { kind, width, arg } => Expression::Cast {
                kind: *kind,
                width: *width,
                arg: Box::new((**arg).clone()),
            },
            Expression::Let { var, bound_exp, body_exp } => Expression::Let {
                var: var.clone(),
                bound_exp: Box::new((**bound_exp).clone()),
                body_exp: Box::new((**body_exp).clone()),
            },
            Expression::Unknown { description, type_ } => Expression::Unknown {
                description: description.clone(),
                type_: *type_,
            },
            Expression::IfThenElse { condition, true_exp, false_exp } => Expression::IfThenElse {
                condition: Box::new((**condition).clone()),
                true_exp: Box::new((**true_exp).clone()),
                false_exp: Box::new((**false_exp).clone()),
            },
            Expression::Extract { low_bit, high_bit, arg } => Expression::Extract {
                low_bit: *low_bit,
                high_bit: *high_bit,
                arg: Box::new((**arg).clone()),
            },
            Expression::Concat { left, right } => Expression::Concat {
                left: Box::new((**left).clone()),
                right: Box::new((**right).clone()),
            },
        }
    }
}

impl PartialEq for Expression {
    /// Structural equality: the same variant, equal fields, equal children.
    fn eq(&self, other: &Self) -> (equal: bool)
        decreases self,
    {
        match (self, other) {
            (Expression::Var(a), Expression::Var(b)) => *a == *b,
            (Expression::Const(a), Expression::Const(b)) => *a == *b,
            (
                Expression::Load { memory: m1, address: a1, endian: e1, size: s1 },
                Expression::Load { memory: m2, address: a2, endian: e2, size: s2 },
            ) => (**m1).eq(&**m2) && (**a1).eq(&**a2) && *e1 == *e2 && *s1 == *s2,
            (
                Expression::Store { memory: m1, address: a1, value: v1, endian: e1, size: s1 },
                Expression::Store { memory: m2, address: a2, value: v2, endian: e2, size: s2 },
            ) => (**m1).eq(&**m2) && (**a1).eq(&**a2) && (**v1).eq(&**v2) && *e1 == *e2 && *s1
                == *s2,
            (
                Expression::BinOp { op: o1, lhs: l1, rhs: r1 },
                Expression::BinOp { op: o2, lhs: l2, rhs: r2 },
            ) => *o1 == *o2 && (**l1).eq(&**l2) && (**r1).eq(&**r2),
            (Expression::UnOp { op: o1, arg: a1 }, Expression::UnOp { op: o2, arg: a2 }) => *o1
                == *o2 && (**a1).eq(&**a2),
            (
                Expression::Cast { kind: k1, width: w1, arg: a1 },
                Expression::Cast { kind: k2, width: w2, arg: a2 },
            ) => *k1 == *k2 && *w1 == *w2 && (**a1).eq(&**a2),
            (
                Expression::Let { var: v1, bound_exp: b1, body_exp: d1 },
                Expression::Let { var: v2, bound_exp: b2, body_exp: d2 },
            ) => *v1 == *v2 && (**b1).eq(&**b2) && (**d1).eq(&**d2),
            (
                Expression::Unknown { description: d1, type_: t1 },
                Expression::Unknown { description: d2, type_: t2 },
            ) => *d1 == *d2 && *t1 == *t2,
            (
                Expression::IfThenElse { condition: c1, true_exp: t1, false_exp: f1 },
                Expression::IfThenElse { condition: c2, true_exp: t2, false_exp: f2 },
            ) => (**c1).eq(&**c2) && (**t1).eq(&**t2) && (**f1).eq(&**f2),
            (
                Expression::Extract { low_bit: l1, high_bit: h1, arg: a1 },
                Expression::Extract { low_bit: l2, high_bit: h2, arg: a2 },
            ) => *l1 == *l2 && *h1 == *h2 && (**a1).eq(&**a2),
            (
                Expression::Concat { left: l1, right: r1 },
                Expression::Concat { left: l2, right: r2 },
            ) => (**l1).eq(&**l2) && (**r1).eq(&**r2),
            _ => false,
        }
    }
}

impl vstd::std_specs::cmp::PartialEqSpecImpl for Expression {
    open spec fn obeys_eq_spec() -> bool {
        true
    }

    open spec fn eq_spec(&self, other: &Self) -> bool {
        self@ == other@
    }
}

} // verus!
