//! Lowering of built-in operations.
use crate::ast::{Expression, Intrinsic, IntrinsicExpression, Path, Type};
use crate::list::{List, Share};
use crate::state::Halt;
use crate::storage_lowering::reconstruct::{
    only_vector, reconstruct_expression, reconstruct_intrinsic, reconstruct_list,
    reconstruct_moded_types, reconstruct_other_intrinsic, reconstruct_type_parameters,
    reconstruct_vector_get, reconstruct_vector_push, reconstruct_vector_set,
    reconstruct_vector_swap_remove,
};
use crate::storage_lowering::vectors::{
    finish_get, finish_once, finish_push, finish_set, finish_strict, finish_swap_remove, Lowered,
};
use crate::storage_lowering::visitor::{ran, StorageLoweringVisitor};
use std::rc::Rc;
use vstd::prelude::*;

verus! {

impl StorageLoweringVisitor {
    pub(crate) fn reconstruct_vector_push(
        &mut self,
        input: &IntrinsicExpression,
    ) -> (r: Result<Lowered, Halt>)
        ensures
            ran(
                *old(self),
                *final(self),
                r,
                reconstruct_vector_push(old(self).cx(), old(self).st(), *input),
            ),
        decreases *input, 0int,
    {
        proof {
            reveal(reconstruct_vector_push);
            reveal(reconstruct_expression);
            reveal(finish_push);
            reveal(finish_once);
        }
        match &input.arguments {
            List::Cons(vector, rest) => match &**rest {
                List::Cons(value, rest) => if rest.is_empty() {
                    let (path, _) = self.expect_vector(vector)?;
                    let plan = self.plan_once(value)?;
                    let lowered = self.reconstruct_expression(value)?;
                    let (value, statements) = self.bind_once(plan, lowered, "$push_value");
                    let (pushed, more) = self.push_value(&path, value, input.span);
                    Ok((pushed, statements.append(&more)))
                } else {
                    Err(Halt::IllFormed)
                },
                _ => Err(Halt::IllFormed),
            },
            _ => Err(Halt::IllFormed),
        }
    }

    pub(crate) fn reconstruct_vector_get(
        &mut self,
        input: &IntrinsicExpression,
    ) -> (r: Result<Lowered, Halt>)
        ensures
            ran(
                *old(self),
                *final(self),
                r,
                reconstruct_vector_get(old(self).cx(), old(self).st(), *input),
            ),
        decreases *input, 0int,
    {
        proof {
            reveal(reconstruct_vector_get);
            reveal(reconstruct_expression);
            reveal(finish_get);
            reveal(finish_once);
        }
        match &input.arguments {
            List::Cons(vector, rest) => match &**rest {
                List::Cons(index, rest) => if rest.is_empty() {
                    let (path, element) = self.expect_vector(vector)?;
                    let plan = self.plan_once(index)?;
                    let lowered = self.reconstruct_expression(index)?;
                    let (index, statements) = self.bind_once(plan, lowered, "$index");
                    let (got, more) = self.get_value(&path, &element, index, input.span)?;
                    Ok((got, statements.append(&more)))
                } else {
                    Err(Halt::IllFormed)
                },
                _ => Err(Halt::IllFormed),
            },
            _ => Err(Halt::IllFormed),
        }
    }

    pub(crate) fn reconstruct_vector_set(
        &mut self,
        input: &IntrinsicExpression,
    ) -> (r: Result<Lowered, Halt>)
        ensures
            ran(
                *old(self),
                *final(self),
                r,
                reconstruct_vector_set(old(self).cx(), old(self).st(), *input),
            ),
        decreases *input, 0int,
    {
        proof {
            reveal(reconstruct_vector_set);
            reveal(reconstruct_expression);
            reveal(finish_set);
            reveal(finish_strict);
        }
        match &input.arguments {
            List::Cons(vector, rest) => match &**rest {
                List::Cons(index, rest) => match &**rest {
                    List::Cons(value, rest) => if rest.is_empty() {
                        let found = self.expect_vector(vector);
                        let (index, statements) = self.reconstruct_expression(index)?;
                        let (index, bound) = self.materialize_strict_prefix_expression(index)?;
                        let statements = statements.append(&bound);
                        let (path, _) = found?;
                        let (value, more) = self.reconstruct_expression(value)?;
                        let (value, bound) = self.materialize_strict_prefix_expression(value)?;
                        let statements = statements.append(&more.append(&bound));
                        let (set, more) = self.set_value(&path, index, value, input.span);
                        Ok((set, statements.append(&more)))
                    } else {
                        Err(Halt::IllFormed)
                    },
                    _ => Err(Halt::IllFormed),
                },
                _ => Err(Halt::IllFormed),
            },
            _ => Err(Halt::IllFormed),
        }
    }

    pub(crate) fn reconstruct_vector_swap_remove(
        &mut self,
        input: &IntrinsicExpression,
    ) -> (r: Result<
        Lowered,
        Halt,
    >)
        ensures
            ran(
                *old(self),
                *final(self),
                r,
                reconstruct_vector_swap_remove(old(self).cx(), old(self).st(), *input),
            ),
        decreases *input, 0int,
    {
        proof {
            reveal(reconstruct_vector_swap_remove);
            reveal(reconstruct_expression);
            reveal(finish_swap_remove);
            reveal(finish_strict);
        }
        match &input.arguments {
            List::Cons(vector, rest) => match &**rest {
                List::Cons(index, rest) => if rest.is_empty() {
                    let (path, _) = self.expect_vector(vector)?;
                    let (index, statements) = self.reconstruct_expression(index)?;
                    let (index, bound) = self.materialize_strict_prefix_expression(index)?;
                    let statements = statements.append(&bound);
                    let (removed, more) = self.swap_remove_value(&path, index, input.span);
                    Ok((removed, statements.append(&more)))
                } else {
                    Err(Halt::IllFormed)
                },
                _ => Err(Halt::IllFormed),
            },
            _ => Err(Halt::IllFormed),
        }
    }

    pub(crate) fn only_vector(&self, arguments: &List<Expression>) -> (r: Option<(Rc<Path>, Type)>)
        ensures
            match (r, only_vector(self.st(), *arguments)) {
                (Some((path, element)), Some((wanted, inner))) => *path == wanted && element
                    == inner,
                (None, None) => true,
                _ => false,
            },
    {
        match arguments {
            List::Cons(vector, rest) => if rest.is_empty() {
                self.vector_argument(vector)
            } else {
                None
            },
            _ => None,
        }
    }

    pub(crate) fn reconstruct_other_intrinsic(&mut self, input: &IntrinsicExpression) -> (r: Result<
        Lowered,
        Halt,
    >)
        ensures
            ran(
                *old(self),
                *final(self),
                r,
                reconstruct_other_intrinsic(old(self).cx(), old(self).st(), *input),
            ),
        decreases *input, 0int,
    {
        proof {
            reveal(reconstruct_other_intrinsic);
            reveal(reconstruct_type_parameters);
            reveal(reconstruct_moded_types);
            reveal(reconstruct_list);
        }
        let type_parameters = self.reconstruct_type_parameters(&input.type_parameters)?;
        let input_types = self.reconstruct_moded_types(&input.input_types)?;
        let return_types = self.reconstruct_moded_types(&input.return_types)?;
        let (arguments, statements) = self.reconstruct_list(&input.arguments)?;
        Ok(
            (
                Expression::Intrinsic(
                    Rc::new(
                        IntrinsicExpression {
                            op: input.op,
                            type_parameters,
                            input_types,
                            return_types,
                            arguments,
                            span: input.span,
                            id: input.id,
                        },
                    ),
                ),
                statements,
            ),
        )
    }

    /// What a built-in operation is lowered to.
    pub fn reconstruct_intrinsic(&mut self, input: &IntrinsicExpression) -> (r: Result<
        Lowered,
        Halt,
    >)
        ensures
            ran(
                *old(self),
                *final(self),
                r,
                reconstruct_intrinsic(old(self).cx(), old(self).st(), *input),
            ),
        decreases *input, 1int,
    {
        proof {
            reveal(reconstruct_intrinsic);
            reveal(reconstruct_vector_push);
            reveal(reconstruct_vector_get);
            reveal(reconstruct_vector_set);
            reveal(reconstruct_vector_swap_remove);
            reveal(reconstruct_other_intrinsic);
        }
        match input.op {
            Intrinsic::VectorPush => self.reconstruct_vector_push(input),
            Intrinsic::VectorLen => match self.only_vector(&input.arguments) {
                None => Err(Halt::IllFormed),
                Some((path, _)) => Ok(self.vector_len(&path, input.span)),
            },
            Intrinsic::VectorPop => match self.only_vector(&input.arguments) {
                None => Err(Halt::IllFormed),
                Some((path, element)) => self.pop_value(&path, &element, input.span),
            },
            Intrinsic::VectorGet => self.reconstruct_vector_get(input),
            Intrinsic::VectorSet => self.reconstruct_vector_set(input),
            Intrinsic::VectorClear => match self.only_vector(&input.arguments) {
                None => Err(Halt::IllFormed),
                Some((path, _)) => Ok(self.clear_vector(&path, input.span)),
            },
            Intrinsic::VectorSwapRemove => self.reconstruct_vector_swap_remove(input),
            _ => self.reconstruct_other_intrinsic(input),
        }
    }
}

} // verus!
