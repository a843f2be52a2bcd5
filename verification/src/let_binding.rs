//! Elimination of local bindings by substitution.

use crate::expression::{Expression, SpecExpression};
use crate::variable::Type;
use vstd::prelude::*;

verus! {

impl SpecExpression {
    /// The tree in which every subtree equal to `to_replace` has given way to
    /// `replace_with`. The search goes from the root down and does not look
    /// into what it has put in.
    pub open spec fn substitute(
        self,
        to_replace: SpecExpression,
        replace_with: SpecExpression,
    ) -> SpecExpression
        decreases self,
    {
        if self == to_replace {
            replace_with
        } else {
            match self {
                SpecExpression::Var(_) => self,
                SpecExpression::Const(_) => self,
                SpecExpression::Unknown { .. } => self,
                SpecExpression::Load { memory, address, endian, size } => SpecExpression::Load {
                    memory: Box::new(memory.substitute(to_replace, replace_with)),
                    address: Box::new(address.substitute(to_replace, replace_with)),
                    endian,
                    size,
                },
                SpecExpression::Store { memory, address, value, endian, size } => {
                    SpecExpression::Store {
                        memory: Box::new(memory.substitute(to_replace, replace_with)),
                        address: Box::new(address.substitute(to_replace, replace_with)),
                        value: Box::new(value.substitute(to_replace, replace_with)),
                        endian,
                        size,
                    }
                },
                SpecExpression::BinOp { op, lhs, rhs } => SpecExpression::BinOp {
                    op,
                    lhs: Box::new(lhs.substitute(to_replace, replace_with)),
                    rhs: Box::new(rhs.substitute(to_replace, replace_with)),
                },
                SpecExpression::UnOp { op, arg } => SpecExpression::UnOp {
                    op,
                    arg: Box::new(arg.substitute(to_replace, replace_with)),
                },
                SpecExpression::Cast { kind, width, arg } => SpecExpression::Cast {
                    kind,
                    width,
                    arg: Box::new(arg.substitute(to_replace, replace_with)),
                },
                SpecExpression::Let { var, bound_exp, body_exp } => SpecExpression::Let {
                    var,
                    bound_exp: Box::new(bound_exp.substitute(to_replace, replace_with)),
                    body_exp: Box::new(body_exp.substitute(to_replace, replace_with)),
                },
                SpecExpression::IfThenElse { condition, true_exp, false_exp } => {
                    SpecExpression::IfThenElse {
                        condition: Box::new(condition.substitute(to_replace, replace_with)),
                        true_exp: Box::new(true_exp.substitute(to_replace, replace_with)),
                        false_exp: Box::new(false_exp.substitute(to_replace, replace_with)),
                    }
                },
                SpecExpression::Extract { low_bit, high_bit, arg } => SpecExpression::Extract {
                    low_bit,
                    high_bit,
                    arg: Box::new(arg.substitute(to_replace, replace_with)),
                },
                SpecExpression::Concat { left, right } => SpecExpression::Concat {
                    left: Box::new(left.substitute(to_replace, replace_with)),
                    right: Box::new(right.substitute(to_replace, replace_with)),
                },
            }
        }
    }

    /// The tree without its bindings. Children are rewritten first. A binding
    /// gives way to its rewritten body, in which the rewritten bound
    /// expression has taken the place of every occurrence of the bound
    /// variable. Occurrences are found by structural equality, not by scope.
    pub open spec fn replace_let_bindings(self) -> SpecExpression
        decreases self,
    {
        match self {
            SpecExpression::Var(_) => self,
            SpecExpression::Const(_) => self,
            SpecExpression::Unknown { .. } => self,
            SpecExpression::Load { memory, address, endian, size } => SpecExpression::Load {
                memory: Box::new(memory.replace_let_bindings()),
                address: Box::new(address.replace_let_bindings()),
                endian,
                size,
            },
            SpecExpression::Store { memory, address, value, endian, size } => {
                SpecExpression::Store {
                    memory: Box::new(memory.replace_let_bindings()),
                    address: Box::new(address.replace_let_bindings()),
                    value: Box::new(value.replace_let_bindings()),
                    endian,
                    size,
                }
            },
            SpecExpression::BinOp { op, lhs, rhs } => SpecExpression::BinOp {
                op,
                lhs: Box::new(lhs.replace_let_bindings()),
                rhs: Box::new(rhs.replace_let_bindings()),
            },
            SpecExpression::UnOp { op, arg } => SpecExpression::UnOp {
                op,
                arg: Box::new(arg.replace_let_bindings()),
            },
            SpecExpression::Cast { kind, width, arg } => SpecExpression::Cast {
                kind,
                width,
                arg: Box::new(arg.replace_let_bindings()),
            },
            SpecExpression::Let { var, bound_exp, body_exp } => {
                body_exp.replace_let_bindings().substitute(
                    SpecExpression::Var(var),
                    bound_exp.replace_let_bindings(),
                )
            },
            SpecExpression::IfThenElse { condition, true_exp, false_exp } => {
                SpecExpression::IfThenElse {
                    condition: Box::new(condition.replace_let_bindings()),
                    true_exp: Box::new(true_exp.replace_let_bindings()),
                    false_exp: Box::new(false_exp.replace_let_bindings()),
                }
            },
            SpecExpression::Extract { low_bit, high_bit, arg } => SpecExpression::Extract {
                low_bit,
                high_bit,
                arg: Box::new(arg.replace_let_bindings()),
            },
            SpecExpression::Concat { left, right } => SpecExpression::Concat {
                left: Box::new(left.replace_let_bindings()),
                right: Box::new(right.replace_let_bindings()),
            },
        }
    }

    /// Whether no binding stands anywhere in the tree.
    pub open spec fn is_let_free(self) -> bool
        decreases self,
    {
        match self {
            SpecExpression::Var(_) => true,
            SpecExpression::Const(_) => true,
            SpecExpression::Unknown { .. } => true,
            SpecExpression::Load { memory, address, .. } => memory.is_let_free()
                && address.is_let_free(),
            SpecExpression::Store { memory, address, value, .. } => memory.is_let_free()
                && address.is_let_free() && value.is_let_free(),
            SpecExpression::BinOp { lhs, rhs, .. } => lhs.is_let_free() && rhs.is_let_free(),
            SpecExpression::UnOp { arg, .. } => arg.is_let_free(),
            SpecExpression::Cast { arg, .. } => arg.is_let_free(),
            SpecExpression::Let { .. } => false,
            SpecExpression::IfThenElse { condition, true_exp, false_exp } => condition.is_let_free()
                && true_exp.is_let_free() && false_exp.is_let_free(),
            SpecExpression::Extract { arg, .. } => arg.is_let_free(),
            SpecExpression::Concat { left, right } => left.is_let_free() && right.is_let_free(),
        }
    }

    /// Whether some subtree, the tree itself included, equals `target`.
    pub open spec fn contains(self, target: SpecExpression) -> bool
        decreases self,
    {
        self == target || match self {
            SpecExpression::Var(_) => false,
            SpecExpression::Const(_) => false,
            SpecExpression::Unknown { .. } => false,
            SpecExpression::Load { memory, address, .. } => memory.contains(target)
                || address.contains(target),
            SpecExpression::Store { memory, address, value, .. } => memory.contains(target)
                || address.contains(target) || value.contains(target),
            SpecExpression::BinOp { lhs, rhs, .. } => lhs.contains(target) || rhs.contains(
                target,
            ),
            SpecExpression::UnOp { arg, .. } => arg.contains(target),
            SpecExpression::Cast { arg, .. } => arg.contains(target),
            SpecExpression::Let { bound_exp, body_exp, .. } => bound_exp.contains(target)
                || body_exp.contains(target),
            SpecExpression::IfThenElse { condition, true_exp, false_exp } => condition.contains(
                target,
            ) || true_exp.contains(target) || false_exp.contains(target),
            SpecExpression::Extract { arg, .. } => arg.contains(target),
            SpecExpression::Concat { left, right } => left.contains(target) || right.contains(
                target,
            ),
        }
    }
}

/// Substitution brings in no binding: where neither the tree nor the
/// replacement holds one, the result holds none.
pub proof fn lemma_substitute_keeps_let_free(
    tree: SpecExpression,
    to_replace: SpecExpression,
    replace_with: SpecExpression,
)
    requires
        tree.is_let_free(),
        replace_with.is_let_free(),
    ensures
        tree.substitute(to_replace, replace_with).is_let_free(),
    decreases tree,
{
    if tree != to_replace {
        match tree {
            SpecExpression::Var(_) => {},
            SpecExpression::Const(_) => {},
            SpecExpression::Unknown { .. } => {},
            SpecExpression::Load { memory, address, .. } => {
                lemma_substitute_keeps_let_free(*memory, to_replace, replace_with);
                lemma_substitute_keeps_let_free(*address, to_replace, replace_with);
            },
            SpecExpression::Store { memory, address, value, .. } => {
                lemma_substitute_keeps_let_free(*memory, to_replace, replace_with);
                lemma_substitute_keeps_let_free(*address, to_replace, replace_with);
                lemma_substitute_keeps_let_free(*value, to_replace, replace_with);
            },
            SpecExpression::BinOp { lhs, rhs, .. } => {
                lemma_substitute_keeps_let_free(*lhs, to_replace, replace_with);
                lemma_substitute_keeps_let_free(*rhs, to_replace, replace_with);
            },
            SpecExpression::UnOp { arg, .. } => {
                lemma_substitute_keeps_let_free(*arg, to_replace, replace_with);
            },
            SpecExpression::Cast { arg, .. } => {
                lemma_substitute_keeps_let_free(*arg, to_replace, replace_with);
            },
            SpecExpression::Let { .. } => {},
            SpecExpression::IfThenElse { condition, true_exp, false_exp } => {
                lemma_substitute_keeps_let_free(*condition, to_replace, replace_with);
                lemma_substitute_keeps_let_free(*true_exp, to_replace, replace_with);
                lemma_substitute_keeps_let_free(*false_exp, to_replace, replace_with);
            },
            SpecExpression::Extract { arg, .. } => {
                lemma_substitute_keeps_let_free(*arg, to_replace, replace_with);
            },
            SpecExpression::Concat { left, right } => {
                lemma_substitute_keeps_let_free(*left, to_replace, replace_with);
                lemma_substitute_keeps_let_free(*right, to_replace, replace_with);
            },
        }
    }
}

/// Substituting for something that does not occur in the tree changes nothing.
pub proof fn lemma_substitute_absent(
    tree: SpecExpression,
    to_replace: SpecExpression,
    replace_with: SpecExpression,
)
    requires
        !tree.contains(to_replace),
    ensures
        tree.substitute(to_replace, replace_with) == tree,
    decreases tree,
{
    match tree {
        SpecExpression::Var(_) => {},
        SpecExpression::Const(_) => {},
        SpecExpression::Unknown { .. } => {},
        SpecExpression::Load { memory, address, .. } => {
            lemma_substitute_absent(*memory, to_replace, replace_with);
            lemma_substitute_absent(*address, to_replace, replace_with);
        },
        SpecExpression::Store { memory, address, value, .. } => {
            lemma_substitute_absent(*memory, to_replace, replace_with);
            lemma_substitute_absent(*address, to_replace, replace_with);
            lemma_substitute_absent(*value, to_replace, replace_with);
        },
        SpecExpression::BinOp { lhs, rhs, .. } => {
            lemma_substitute_absent(*lhs, to_replace, replace_with);
            lemma_substitute_absent(*rhs, to_replace, replace_with);
        },
        SpecExpression::UnOp { arg, .. } => {
            lemma_substitute_absent(*arg, to_replace, replace_with);
        },
        SpecExpression::Cast { arg, .. } => {
            lemma_substitute_absent(*arg, to_replace, replace_with);
        },
        SpecExpression::Let { bound_exp, body_exp, .. } => {
            lemma_substitute_absent(*bound_exp, to_replace, replace_with);
            lemma_substitute_absent(*body_exp, to_replace, replace_with);
        },
        SpecExpression::IfThenElse { condition, true_exp, false_exp } => {
            lemma_substitute_absent(*condition, to_replace, replace_with);
            lemma_substitute_absent(*true_exp, to_replace, replace_with);
            lemma_substitute_absent(*false_exp, to_replace, replace_with);
        },
        SpecExpression::Extract { arg, .. } => {
            lemma_substitute_absent(*arg, to_replace, replace_with);
        },
        SpecExpression::Concat { left, right } => {
            lemma_substitute_absent(*left, to_replace, replace_with);
            lemma_substitute_absent(*right, to_replace, replace_with);
        },
    }
}

/// Elimination leaves no binding anywhere in its result, whatever the tree.
pub proof fn lemma_elimination_leaves_no_binding(tree: SpecExpression)
    ensures
        tree.replace_let_bindings().is_let_free(),
    decreases tree,
{
    match tree {
        SpecExpression::Var(_) => {},
        SpecExpression::Const(_) => {},
        SpecExpression::Unknown { .. } => {},
        SpecExpression::Load { memory, address, .. } => {
            lemma_elimination_leaves_no_binding(*memory);
            lemma_elimination_leaves_no_binding(*address);
        },
        SpecExpression::Store { memory, address, value, .. } => {
            lemma_elimination_leaves_no_binding(*memory);
            lemma_elimination_leaves_no_binding(*address);
            lemma_elimination_leaves_no_binding(*value);
        },
        SpecExpression::BinOp { lhs, rhs, .. } => {
            lemma_elimination_leaves_no_binding(*lhs);
            lemma_elimination_leaves_no_binding(*rhs);
        },
        SpecExpression::UnOp { arg, .. } => {
            lemma_elimination_leaves_no_binding(*arg);
        },
        SpecExpression::Cast { arg, .. } => {
            lemma_elimination_leaves_no_binding(*arg);
        },
        SpecExpression::Let { var, bound_exp, body_exp } => {
            lemma_elimination_leaves_no_binding(*body_exp);
            lemma_elimination_leaves_no_binding(*bound_exp);
            lemma_substitute_keeps_let_free(
                body_exp.replace_let_bindings(),
                SpecExpression::Var(var),
                bound_exp.replace_let_bindings(),
            );
        },
        SpecExpression::IfThenElse { condition, true_exp, false_exp } => {
            lemma_elimination_leaves_no_binding(*condition);
            lemma_elimination_leaves_no_binding(*true_exp);
            lemma_elimination_leaves_no_binding(*false_exp);
        },
        SpecExpression::Extract { arg, .. } => {
            lemma_elimination_leaves_no_binding(*arg);
        },
        SpecExpression::Concat { left, right } => {
            lemma_elimination_leaves_no_binding(*left);
            lemma_elimination_leaves_no_binding(*right);
        },
    }
}

/// Elimination gives a tree without bindings back as it is.
pub proof fn lemma_elimination_keeps_let_free(tree: SpecExpression)
    requires
        tree.is_let_free(),
    ensures
        tree.replace_let_bindings() == tree,
    decreases tree,
{
    match tree {
        SpecExpression::Var(_) => {},
        SpecExpression::Const(_) => {},
        SpecExpression::Unknown { .. } => {},
        SpecExpression::Load { memory, address, .. } => {
            lemma_elimination_keeps_let_free(*memory);
            lemma_elimination_keeps_let_free(*address);
        },
        SpecExpression::Store { memory, address, value, .. } => {
            lemma_elimination_keeps_let_free(*memory);
            lemma_elimination_keeps_let_free(*address);
            lemma_elimination_keeps_let_free(*value);
        },
        SpecExpression::BinOp { lhs, rhs, .. } => {
            lemma_elimination_keeps_let_free(*lhs);
            lemma_elimination_keeps_let_free(*rhs);
        },
        SpecExpression::UnOp { arg, .. } => {
            lemma_elimination_keeps_let_free(*arg);
        },
        SpecExpression::Cast { arg, .. } => {
            lemma_elimination_keeps_let_free(*arg);
        },
        SpecExpression::Let { .. } => {},
        SpecExpression::IfThenElse { condition, true_exp, false_exp } => {
            lemma_elimination_keeps_let_free(*condition);
            lemma_elimination_keeps_let_free(*true_exp);
            lemma_elimination_keeps_let_free(*false_exp);
        },
        SpecExpression::Extract { arg, .. } => {
            lemma_elimination_keeps_let_free(*arg);
        },
        SpecExpression::Concat { left, right } => {
            lemma_elimination_keeps_let_free(*left);
            lemma_elimination_keeps_let_free(*right);
        },
    }
}


impl Expression {
    /// Puts a copy of `replace_with` in the place of every subtree that is
    /// structurally equal to `to_replace`, and gives the rewritten tree.
    pub fn substitute(self, to_replace: &Expression, replace_with: &Expression) -> (result:
        Expression)
        ensures
            result@ == self@.substitute(to_replace@, replace_with@),
        decreases self,
    {
        if self == *to_replace {
            replace_with.clone()
        } else {
            match self {
                Expression::Var(var) => Expression::Var(var),
                Expression::Const(bitvector) => Expression::Const(bitvector),
                Expression::Unknown { description, type_ } => Expression::Unknown {
                    description,
                    type_,
                },
                Expression::Load { memory, address, endian, size } => Expression::Load {
                    memory: Box::new((*memory).substitute(to_replace, replace_with)),
                    address: Box::new((*address).substitute(to_replace, replace_with)),
                    endian,
                    size,
                },
                Expression::Store { memory, address, value, endian, size } => Expression::Store {
                    memory: Box::new((*memory).substitute(to_replace, replace_with)),
                    address: Box::new((*address).substitute(to_replace, replace_with)),
                    value: Box::new((*value).substitute(to_replace, replace_with)),
                    endian,
                    size,
                },
                Expression::BinOp { op, lhs, rhs } => Expression::BinOp {
                    op,
                    lhs: Box::new((*lhs).substitute(to_replace, replace_with)),
                    rhs: Box::new((*rhs).substitute(to_replace, replace_with)),
                },
                Expression::UnOp { op, arg } => Expression::UnOp {
                    op,
                    arg: Box::new((*arg).substitute(to_replace, replace_with)),
                },
                Expression::Cast { kind, width, arg } => Expression::Cast {
                    kind,
                    width,
                    arg: Box::new((*arg).substitute(to_replace, replace_with)),
                },
                Expression::Let { var, bound_exp, body_exp } => Expression::Let {
                    var,
                    bound_exp: Box::new((*bound_exp).substitute(to_replace, replace_with)),
                    body_exp: Box::new((*body_exp).substitute(to_replace, replace_with)),
                },
                Expression::IfThenElse { condition, true_exp, false_exp } => {
                    Expression::IfThenElse {
                        condition: Box::new((*condition).substitute(to_replace, replace_with)),
                        true_exp: Box::new((*true_exp).substitute(to_replace, replace_with)),
                        false_exp: Box::new((*false_exp).substitute(to_replace, replace_with)),
                    }
                },
                Expression::Extract { low_bit, high_bit, arg } => Expression::Extract {
                    low_bit,
                    high_bit,
                    arg: Box::new((*arg).substitute(to_replace, replace_with)),
                },
                Expression::Concat { left, right } => Expression::Concat {
                    left: Box::new((*left).substitute(to_replace, replace_with)),
                    right: Box::new((*right).substitute(to_replace, replace_with)),
                },
            }
        }
    }

    /// The tree without its bindings.
    pub fn without_let_bindings(self) -> (result: Expression)
        ensures
            result@ == self@.replace_let_bindings(),
            result@.is_let_free(),
        decreases self,
    {
        proof {
            lemma_elimination_leaves_no_binding(self@);
        }
        match self {
            Expression::Var(var) => Expression::Var(var),
            Expression::Const(bitvector) => Expression::Const(bitvector),
            Expression::Unknown { description, type_ } => Expression::Unknown {
                description,
                type_,
            },
            Expression::Load { memory, address, endian, size } => Expression::Load {
                memory: Box::new((*memory).without_let_bindings()),
                address: Box::new((*address).without_let_bindings()),
                endian,
                size,
            },
            Expression::Store { memory, address, value, endian, size } => Expression::Store {
                memory: Box::new((*memory).without_let_bindings()),
                address: Box::new((*address).without_let_bindings()),
                value: Box::new((*value).without_let_bindings()),
                endian,
                size,
            },
            Expression::BinOp { op, lhs, rhs } => Expression::BinOp {
                op,
                lhs: Box::new((*lhs).without_let_bindings()),
                rhs: Box::new((*rhs).without_let_bindings()),
            },
            Expression::UnOp { op, arg } => Expression::UnOp {
                op,
                arg: Box::new((*arg).without_let_bindings()),
            },
            Expression::Cast { kind, width, arg } => Expression::Cast {
                kind,
                width,
                arg: Box::new((*arg).without_let_bindings()),
            },
            Expression::Let { var, bound_exp, body_exp } => {
                let to_replace = Expression::Var(var);
                let body = (*body_exp).without_let_bindings();
                let bound = (*bound_exp).without_let_bindings();
                body.substitute(&to_replace, &bound)
            },
            Expression::IfThenElse { condition, true_exp, false_exp } => Expression::IfThenElse {
                condition: Box::new((*condition).without_let_bindings()),
                true_exp: Box::new((*true_exp).without_let_bindings()),
                false_exp: Box::new((*false_exp).without_let_bindings()),
            },
            Expression::Extract { low_bit, high_bit, arg } => Expression::Extract {
                low_bit,
                high_bit,
                arg: Box::new((*arg).without_let_bindings()),
            },
            Expression::Concat { left, right } => Expression::Concat {
                left: Box::new((*left).without_let_bindings()),
                right: Box::new((*right).without_let_bindings()),
            },
        }
    }

    /// Resolves the bindings of the expression in place: afterwards it is the
    /// tree that elimination gives, which holds no binding.
    pub fn replace_let_bindings(&mut self)
        ensures
            final(self)@ == old(self)@.replace_let_bindings(),
            final(self)@.is_let_free(),
    {
        let mut taken = Expression::Unknown { description: String::new(), type_: Type::Unknown };
        core::mem::swap(self, &mut taken);
        *self = taken.without_let_bindings();
    }

    /// Whether no binding stands anywhere in the tree.
    pub fn is_let_free(&self) -> (free: bool)
        ensures
            free == self@.is_let_free(),
        decreases self,
    {
        match self {
            Expression::Var(_) => true,
            Expression::Const(_) => true,
            Expression::Unknown { .. } => true,
            Expression::Load { memory, address, .. } => (**memory).is_let_free()
                && (**address).is_let_free(),
            Expression::Store { memory, address, value, .. } => (**memory).is_let_free()
                && (**address).is_let_free() && (**value).is_let_free(),
            Expression::BinOp { lhs, rhs, .. } => (**lhs).is_let_free() && (**rhs).is_let_free(),
            Expression::UnOp { arg, .. } => (**arg).is_let_free(),
            Expression::Cast { arg, .. } => (**arg).is_let_free(),
            Expression::Let { .. } => false,
            Expression::IfThenElse { condition, true_exp, false_exp } => {
                (**condition).is_let_free() && (**true_exp).is_let_free()
                    && (**false_exp).is_let_free()
            },
            Expression::Extract { arg, .. } => (**arg).is_let_free(),
            Expression::Concat { left, right } => (**left).is_let_free()
                && (**right).is_let_free(),
        }
    }
}

} // verus!
