//! Lowering of expressions in a row.
use crate::ast::{
    ArrayAccess, ArrayExpression, BinaryExpression, CallExpression, CastExpression,
    CompositeExpression, Expression, FieldInitializer, MemberAccess, RepeatExpression, Statement,
    TernaryExpression, TupleAccess, TupleExpression, UnaryExpression,
};
use crate::list::{List, Share};
use crate::state::Halt;
use crate::storage_lowering::reconstruct::{
    reconstruct_call, reconstruct_composite_init, reconstruct_dynamic_op, reconstruct_expression,
    reconstruct_intrinsic, reconstruct_list, reconstruct_members, reconstruct_optional,
};
use crate::storage_lowering::vectors::Lowered;
use crate::storage_lowering::visitor::{ran, StorageLoweringVisitor};
use std::rc::Rc;
use vstd::prelude::*;

verus! {

impl StorageLoweringVisitor {
    /// What `expression` is lowered to, and the statements that have to run before it.
    pub fn reconstruct_expression(&mut self, expression: &Expression) -> (r: Result<Lowered, Halt>)
        ensures
            ran(
                *old(self),
                *final(self),
                r,
                reconstruct_expression(old(self).cx(), old(self).st(), *expression),
            ),
        decreases *expression, 0int,
    {
        proof {
            reveal(reconstruct_expression);
            reveal(reconstruct_list);
            reveal(reconstruct_call);
            reveal(reconstruct_composite_init);
            reveal(reconstruct_dynamic_op);
            reveal(reconstruct_intrinsic);
        }
        match expression {
            Expression::Array(input) => {
                let (elements, statements) = self.reconstruct_list(&input.elements)?;
                Ok(
                    (
                        Expression::Array(
                            Rc::new(ArrayExpression { elements, span: input.span, id: input.id }),
                        ),
                        statements,
                    ),
                )
            },
            Expression::ArrayAccess(input) => {
                let (array, statements) = self.reconstruct_expression(&input.array)?;
                let (index, more) = self.reconstruct_expression(&input.index)?;
                Ok(
                    (
                        Expression::ArrayAccess(
                            Rc::new(ArrayAccess { array, index, span: input.span, id: input.id }),
                        ),
                        statements.append(&more),
                    ),
                )
            },
            Expression::Binary(input) => {
                let (left, statements) = self.reconstruct_expression(&input.left)?;
                let (right, more) = self.reconstruct_expression(&input.right)?;
                Ok(
                    (
                        Expression::Binary(
                            Rc::new(
                                BinaryExpression {
                                    left,
                                    right,
                                    op: input.op,
                                    span: input.span,
                                    id: input.id,
                                },
                            ),
                        ),
                        statements.append(&more),
                    ),
                )
            },
            Expression::Call(input) => self.reconstruct_call(input),
            Expression::Cast(input) => {
                let (expression, statements) = self.reconstruct_expression(&input.expression)?;
                Ok(
                    (
                        Expression::Cast(
                            Rc::new(
                                CastExpression {
                                    expression,
                                    type_: input.type_.share(),
                                    span: input.span,
                                    id: input.id,
                                },
                            ),
                        ),
                        statements,
                    ),
                )
            },
            Expression::Composite(input) => self.reconstruct_composite_init(input),
            Expression::DynamicOp(input) => self.reconstruct_dynamic_op(input),
            Expression::Error(_) => Err(Halt::IllFormed),
            Expression::Intrinsic(input) => self.reconstruct_intrinsic(input),
            Expression::Literal(_) => Ok((expression.share(), List::Nil)),
            Expression::MemberAccess(input) => {
                let (inner, statements) = self.reconstruct_expression(&input.inner)?;
                Ok(
                    (
                        Expression::MemberAccess(
                            Rc::new(
                                MemberAccess {
                                    inner,
                                    name: input.name,
                                    span: input.span,
                                    id: input.id,
                                },
                            ),
                        ),
                        statements,
                    ),
                )
            },
            Expression::Path(path) => {
                let expression = self.reconstruct_path(path)?;
                Ok((expression, List::Nil))
            },
            Expression::Repeat(input) => {
                let (expr, statements) = self.reconstruct_expression(&input.expr)?;
                let (count, more) = self.reconstruct_expression(&input.count)?;
                Ok(
                    (
                        Expression::Repeat(
                            Rc::new(
                                RepeatExpression { expr, count, span: input.span, id: input.id },
                            ),
                        ),
                        statements.append(&more),
                    ),
                )
            },
            Expression::Ternary(input) => {
                let (condition, statements) = self.reconstruct_expression(&input.condition)?;
                let (if_true, statements2) = self.reconstruct_expression(&input.if_true)?;
                let (if_false, statements3) = self.reconstruct_expression(&input.if_false)?;
                Ok(
                    (
                        Expression::Ternary(
                            Rc::new(
                                TernaryExpression {
                                    condition,
                                    if_true,
                                    if_false,
                                    span: input.span,
                                    id: input.id,
                                },
                            ),
                        ),
                        statements.append(&statements2).append(&statements3),
                    ),
                )
            },
            Expression::Tuple(input) => {
                let (elements, statements) = self.reconstruct_list(&input.elements)?;
                Ok(
                    (
                        Expression::Tuple(
                            Rc::new(TupleExpression { elements, span: input.span, id: input.id }),
                        ),
                        statements,
                    ),
                )
            },
            Expression::TupleAccess(input) => {
                let (tuple, statements) = self.reconstruct_expression(&input.tuple)?;
                Ok(
                    (
                        Expression::TupleAccess(
                            Rc::new(
                                TupleAccess {
                                    tuple,
                                    index: input.index,
                                    span: input.span,
                                    id: input.id,
                                },
                            ),
                        ),
                        statements,
                    ),
                )
            },
            Expression::Unary(input) => {
                let (receiver, statements) = self.reconstruct_expression(&input.receiver)?;
                Ok(
                    (
                        Expression::Unary(
                            Rc::new(
                                UnaryExpression {
                                    receiver,
                                    op: input.op,
                                    span: input.span,
                                    id: input.id,
                                },
                            ),
                        ),
                        statements,
                    ),
                )
            },
            Expression::Unit(_) => Ok((expression.share(), List::Nil)),
        }
    }

    /// What `expressions` are lowered to, from left to right.
    pub fn reconstruct_list(&mut self, expressions: &List<Expression>) -> (r: Result<
        (List<Expression>, List<Statement>),
        Halt,
    >)
        ensures
            ran(
                *old(self),
                *final(self),
                r,
                reconstruct_list(old(self).cx(), old(self).st(), *expressions),
            ),
        decreases *expressions, 0int,
    {
        proof {
            reveal(reconstruct_list);
            reveal(reconstruct_expression);
        }
        match expressions {
            List::Nil => Ok((List::Nil, List::Nil)),
            List::Cons(first, rest) => {
                let (first, statements) = self.reconstruct_expression(first)?;
                let (rest, more) = self.reconstruct_list(rest)?;
                Ok((List::cons(first, rest), statements.append(&more)))
            },
        }
    }

    pub(crate) fn reconstruct_members(&mut self, members: &List<FieldInitializer>) -> (r: Result<
        (List<FieldInitializer>, List<Statement>),
        Halt,
    >)
        ensures
            ran(
                *old(self),
                *final(self),
                r,
                reconstruct_members(old(self).cx(), old(self).st(), *members),
            ),
        decreases *members, 0int,
    {
        proof {
            reveal(reconstruct_members);
            reveal(reconstruct_expression);
        }
        match members {
            List::Nil => Ok((List::Nil, List::Nil)),
            List::Cons(first, rest) => match &first.expression {
                None => Err(Halt::IllFormed),
                Some(value) => {
                    let (value, statements) = self.reconstruct_expression(value)?;
                    let (rest, more) = self.reconstruct_members(rest)?;
                    let first = FieldInitializer {
                        identifier: first.identifier,
                        expression: Some(value),
                        span: first.span,
                        id: first.id,
                    };
                    Ok((List::cons(first, rest), statements.append(&more)))
                },
            },
        }
    }

    /// What a call is lowered to. Its const arguments stay as they are.
    pub fn reconstruct_call(&mut self, input: &CallExpression) -> (r: Result<Lowered, Halt>)
        ensures
            ran(
                *old(self),
                *final(self),
                r,
                reconstruct_call(old(self).cx(), old(self).st(), *input),
            ),
        decreases *input, 0int,
    {
        proof {
            reveal(reconstruct_call);
            reveal(reconstruct_list);
        }
        let (arguments, statements) = self.reconstruct_list(&input.arguments)?;
        Ok(
            (
                Expression::Call(
                    Rc::new(
                        CallExpression {
                            function: input.function.clone(),
                            const_arguments: input.const_arguments.share(),
                            arguments,
                            span: input.span,
                            id: input.id,
                        },
                    ),
                ),
                statements,
            ),
        )
    }

    pub(crate) fn reconstruct_optional(&mut self, expression: &Option<Expression>) -> (r: Result<
        (Option<Expression>, List<Statement>),
        Halt,
    >)
        ensures
            ran(
                *old(self),
                *final(self),
                r,
                reconstruct_optional(old(self).cx(), old(self).st(), *expression),
            ),
        decreases *expression, 1int,
    {
        proof {
            reveal(reconstruct_optional);
            reveal(reconstruct_expression);
        }
        match expression {
            None => Ok((None, List::Nil)),
            Some(expression) => {
                let (expression, statements) = self.reconstruct_expression(expression)?;
                Ok((Some(expression), statements))
            },
        }
    }

    /// What a composite is lowered to.
    pub fn reconstruct_composite_init(&mut self, input: &CompositeExpression) -> (r: Result<
        Lowered,
        Halt,
    >)
        ensures
            ran(
                *old(self),
                *final(self),
                r,
                reconstruct_composite_init(old(self).cx(), old(self).st(), *input),
            ),
        decreases *input, 0int,
    {
        proof {
            reveal(reconstruct_composite_init);
            reveal(reconstruct_list);
            reveal(reconstruct_members);
            reveal(reconstruct_optional);
        }
        let (const_arguments, statements) = self.reconstruct_list(&input.const_arguments)?;
        let (members, statements2) = self.reconstruct_members(&input.members)?;
        let (base, statements3) = self.reconstruct_optional(&input.base)?;
        Ok(
            (
                Expression::Composite(
                    Rc::new(
                        CompositeExpression {
                            path: input.path.clone(),
                            const_arguments,
                            members,
                            base,
                            span: input.span,
                            id: input.id,
                        },
                    ),
                ),
                statements.append(&statements2).append(&statements3),
            ),
        )
    }
}

} // verus!
