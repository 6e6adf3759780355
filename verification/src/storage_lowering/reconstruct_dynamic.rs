//! Lowering of accesses to other programs.
use crate::ast::{
    no_span, DynamicOpExpression, DynamicOpKind, Expression, Identifier, Span, Symbol, Type,
};
use crate::list::List;
use crate::state::{Halt, State};
use crate::storage_lowering::dynamic::{
    finish_dynamic_operands, finish_dynamic_read, finish_dynamic_vector_get,
    finish_dynamic_vector_len, make_dynamic_operands, target_network, Target,
};
use crate::storage_lowering::reconstruct::{
    reconstruct_dynamic_op, reconstruct_expression, reconstruct_list, reconstruct_target,
};
use crate::storage_lowering::vectors::{finish_once, Lowered};
use crate::storage_lowering::visitor::{ran, Context, Step, StorageLoweringVisitor};
use vstd::prelude::*;

verus! {

/// A dynamic access of which only the operands matter.
pub open spec fn access_of(
    target_program: Expression,
    network: Option<Expression>,
) -> DynamicOpExpression {
    let nobody = Identifier {
        name: Symbol { index: 0 },
        span: no_span(),
        id: 0,
    };
    DynamicOpExpression {
        interface: Type::Unit,
        target_program,
        network,
        kind: DynamicOpKind::Read { storage: nobody },
        span: no_span(),
        id: 0,
    }
}

/// `Interface@(target)::storage`
pub open spec fn lower_dynamic_read(
    cx: Context,
    state: State,
    interface: Type,
    target_program: Expression,
    network: Option<Expression>,
    storage: Identifier,
    span: Span,
) -> Step<Lowered> {
    match reconstruct_target(cx, state, access_of(target_program, network)) {
        Err(halt) => Err(halt),
        Ok((state, target)) => finish_dynamic_read(cx, state, target, interface, storage, span),
    }
}

/// `Interface@(target)::member.get(arguments)`. The index is the first of the arguments.
pub open spec fn lower_dynamic_vector_get(
    cx: Context,
    state: State,
    target_program: Expression,
    network: Option<Expression>,
    member: Identifier,
    element: Type,
    arguments: List<Expression>,
    span: Span,
) -> Step<Lowered> {
    match reconstruct_target(cx, state, access_of(target_program, network)) {
        Err(halt) => Err(halt),
        Ok((state, target)) => match arguments {
            List::Nil => Err(Halt::IllFormed),
            List::Cons(index, _) => {
                let (state, network) = target_network(state, target);
                finish_dynamic_vector_get(
                    cx,
                    state,
                    target,
                    network,
                    member,
                    element,
                    index,
                    reconstruct_expression(cx, state, index),
                    span,
                )
            },
        },
    }
}

/// `Interface@(target)::member.len()`
pub open spec fn lower_dynamic_vector_len(
    cx: Context,
    state: State,
    target_program: Expression,
    network: Option<Expression>,
    member: Identifier,
    span: Span,
) -> Step<Lowered> {
    match reconstruct_target(cx, state, access_of(target_program, network)) {
        Err(halt) => Err(halt),
        Ok((state, target)) => Ok(finish_dynamic_vector_len(state, target, member, span)),
    }
}

fn make_access(target_program: Expression, network: Option<Expression>) -> (r: DynamicOpExpression)
    ensures
        r == access_of(target_program, network),
{
    let nobody = Identifier {
        name: Symbol { index: 0 },
        span: Span::none(),
        id: 0,
    };
    DynamicOpExpression {
        interface: Type::Unit,
        target_program,
        network,
        kind: DynamicOpKind::Read { storage: nobody },
        span: Span::none(),
        id: 0,
    }
}

impl StorageLoweringVisitor {
    /// Lowers `Interface@(target)::storage`, the read of a storage variable of another program, to
    /// a ternary of an optional type.
    pub fn lower_dynamic_read(
        &mut self,
        interface_ty: Type,
        target_program: Expression,
        network: Option<Expression>,
        storage: Identifier,
        span: Span,
    ) -> (r: Result<Lowered, Halt>)
        ensures
            ran(
                *old(self),
                *final(self),
                r,
                lower_dynamic_read(
                    old(self).cx(),
                    old(self).st(),
                    interface_ty,
                    target_program,
                    network,
                    storage,
                    span,
                ),
            ),
    {
        let target = self.reconstruct_target(&make_access(target_program, network))?;
        self.finish_dynamic_read(target, &interface_ty, storage, span)
    }

    /// Lowers `Interface@(target)::member.get(index)` to a ternary of an optional type. The index
    /// is the first of `arguments`.
    pub fn lower_dynamic_vector_get(
        &mut self,
        target_program: Expression,
        network: Option<Expression>,
        member: Identifier,
        element_type: Type,
        arguments: List<Expression>,
        span: Span,
    ) -> (r: Result<Lowered, Halt>)
        ensures
            ran(
                *old(self),
                *final(self),
                r,
                lower_dynamic_vector_get(
                    old(self).cx(),
                    old(self).st(),
                    target_program,
                    network,
                    member,
                    element_type,
                    arguments,
                    span,
                ),
            ),
    {
        let target = self.reconstruct_target(&make_access(target_program, network))?;
        match &arguments {
            List::Nil => Err(Halt::IllFormed),
            List::Cons(index, _) => {
                proof {
                    reveal(finish_once);
                    reveal(finish_dynamic_vector_get);
                }
                let network = self.target_network(&target);
                let plan = self.plan_once(index)?;
                let lowered = self.reconstruct_expression(index)?;
                let index = self.bind_once(plan, lowered, "$index");
                self.finish_dynamic_vector_get(
                    target,
                    network,
                    member,
                    &element_type,
                    index,
                    span,
                )
            },
        }
    }

    /// Lowers `Interface@(target)::member.len()` to a read of the mapping that holds the length.
    pub fn lower_dynamic_vector_len(
        &mut self,
        target_program: Expression,
        network: Option<Expression>,
        member: Identifier,
        span: Span,
    ) -> (r: Result<Lowered, Halt>)
        ensures
            ran(
                *old(self),
                *final(self),
                r,
                lower_dynamic_vector_len(
                    old(self).cx(),
                    old(self).st(),
                    target_program,
                    network,
                    member,
                    span,
                ),
            ),
    {
        let target = self.reconstruct_target(&make_access(target_program, network))?;
        Ok(self.finish_dynamic_vector_len(target, member, span))
    }

    pub(crate) fn reconstruct_target(&mut self, input: &DynamicOpExpression) -> (r: Result<
        Target,
        Halt,
    >)
        ensures
            ran(
                *old(self),
                *final(self),
                r,
                reconstruct_target(old(self).cx(), old(self).st(), *input),
            ),
        decreases *input, 0int,
    {
        proof {
            reveal(reconstruct_target);
            reveal(reconstruct_expression);
        }
        let (program, statements) = self.reconstruct_expression(&input.target_program)?;
        match &input.network {
            None => Ok(Target { program, network: None, statements }),
            Some(network) => {
                let (network, more) = self.reconstruct_expression(network)?;
                Ok(Target { program, network: Some(network), statements: statements.append(&more) })
            },
        }
    }

    /// What a dynamic access is lowered to.
    pub fn reconstruct_dynamic_op(&mut self, input: &DynamicOpExpression) -> (r: Result<
        Lowered,
        Halt,
    >)
        ensures
            ran(
                *old(self),
                *final(self),
                r,
                reconstruct_dynamic_op(old(self).cx(), old(self).st(), *input),
            ),
        decreases *input, 1int,
    {
        proof {
            reveal(reconstruct_dynamic_op);
            reveal(reconstruct_target);
        }
        let target = self.reconstruct_target(input)?;
        match &input.kind {
            DynamicOpKind::Read { storage } => self.finish_dynamic_read(
                target,
                &input.interface,
                *storage,
                input.span,
            ),
            DynamicOpKind::Op { member, op, arguments } => match self.vector_of_member(
                &input.interface,
                *member,
            )? {
                Some(element) => if self.state.names.is(op.name, "get") {
                    match arguments {
                        List::Nil => Err(Halt::IllFormed),
                        List::Cons(index, _) => {
                            proof {
                                reveal(finish_once);
                                reveal(finish_dynamic_vector_get);
                                reveal(reconstruct_expression);
                            }
                            let network = self.target_network(&target);
                            let plan = self.plan_once(index)?;
                            let lowered = self.reconstruct_expression(index)?;
                            let index = self.bind_once(plan, lowered, "$index");
                            self.finish_dynamic_vector_get(
                                target,
                                network,
                                *member,
                                &element,
                                index,
                                input.span,
                            )
                        },
                    }
                } else {
                    Ok(self.finish_dynamic_vector_len(target, *member, input.span))
                },
                None => {
                    proof {
                        reveal(finish_dynamic_operands);
                        reveal(reconstruct_list);
                    }
                    let (arguments, statements) = self.reconstruct_list(arguments)?;
                    Ok(make_dynamic_operands(input, target, arguments, &statements))
                },
            },
            DynamicOpKind::Call { arguments, .. } => {
                proof {
                    reveal(finish_dynamic_operands);
                    reveal(reconstruct_list);
                }
                let (arguments, statements) = self.reconstruct_list(arguments)?;
                Ok(make_dynamic_operands(input, target, arguments, &statements))
            },
        }
    }
}

} // verus!
