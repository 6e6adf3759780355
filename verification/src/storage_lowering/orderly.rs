//! Expressions that are evaluated in order.
use crate::ast::{DynamicOpKind, Expression, FieldInitializer, NodeId, Type};
use crate::list::List;
use crate::purity::can_be_discarded;
use crate::storage_lowering::predicates::{
    any_may_emit_after, expression_may_emit_after_reconstruction,
};
use crate::storage_lowering::visitor::Context;
use std::rc::Rc;
use vstd::prelude::*;

verus! {

/// Whether `expression` can be discarded, whatever is known of the types in it.
pub open spec fn is_inert(expression: Expression) -> bool {
    forall|types: Map<NodeId, Type>| #[trigger] can_be_discarded(types, expression)
}

pub open spec fn are_inert(expressions: List<Expression>) -> bool
    decreases expressions,
{
    match expressions {
        List::Nil => true,
        List::Cons(first, rest) => is_inert(first) && are_inert(*rest),
    }
}

pub open spec fn fields_are_inert(fields: List<FieldInitializer>) -> bool
    decreases fields,
{
    match fields {
        List::Nil => true,
        List::Cons(first, rest) => (first.expression matches Some(value) ==> is_inert(value))
            && fields_are_inert(*rest),
    }
}

/// Whether const arguments are inert in `expression` and read no storage variable, and so are the
/// fields of composites that do not work on storage. The fields of a composite are bound to names as
/// they are lowered, which puts them before operands that are not.
#[verifier::opaque]
pub open spec fn is_orderly(cx: Context, expression: Expression) -> bool
    decreases expression,
{
    match expression {
        Expression::Array(input) => are_orderly(cx, input.elements),
        Expression::ArrayAccess(input) => is_orderly(cx, input.array) && is_orderly(
            cx,
            input.index,
        ),
        Expression::Binary(input) => is_orderly(cx, input.left) && is_orderly(cx, input.right),
        Expression::Call(input) => {
            &&& are_inert(input.const_arguments)
            &&& !any_may_emit_after(cx, input.const_arguments)
            &&& are_orderly(cx, input.const_arguments)
            &&& are_orderly(cx, input.arguments)
        },
        Expression::Cast(input) => is_orderly(cx, input.expression),
        Expression::Composite(input) => {
            &&& are_inert(input.const_arguments)
            &&& !any_may_emit_after(cx, input.const_arguments)
            &&& are_orderly(cx, input.const_arguments)
            &&& fields_are_orderly(cx, input.members)
            &&& option_is_orderly(cx, input.base)
            &&& !expression_may_emit_after_reconstruction(cx, expression) ==> fields_are_inert(
                input.members,
            )
        },
        Expression::DynamicOp(input) => {
            &&& is_orderly(cx, input.target_program)
            &&& option_is_orderly(cx, input.network)
            &&& kind_is_orderly(cx, input.kind)
        },
        Expression::Intrinsic(input) => are_orderly(cx, input.arguments),
        Expression::MemberAccess(input) => is_orderly(cx, input.inner),
        Expression::Repeat(input) => is_orderly(cx, input.expr) && is_orderly(cx, input.count),
        Expression::Ternary(input) => {
            &&& is_orderly(cx, input.condition)
            &&& is_orderly(cx, input.if_true)
            &&& is_orderly(cx, input.if_false)
        },
        Expression::Tuple(input) => are_orderly(cx, input.elements),
        Expression::TupleAccess(input) => is_orderly(cx, input.tuple),
        Expression::Unary(input) => is_orderly(cx, input.receiver),
        _ => true,
    }
}

#[verifier::opaque]
pub open spec fn are_orderly(cx: Context, expressions: List<Expression>) -> bool
    decreases expressions,
{
    match expressions {
        List::Nil => true,
        List::Cons(first, rest) => is_orderly(cx, first) && are_orderly(cx, *rest),
    }
}

#[verifier::opaque]
pub open spec fn option_is_orderly(cx: Context, expression: Option<Expression>) -> bool
    decreases expression,
{
    match expression {
        None => true,
        Some(expression) => is_orderly(cx, expression),
    }
}

#[verifier::opaque]
pub open spec fn kind_is_orderly(cx: Context, kind: DynamicOpKind) -> bool
    decreases kind,
{
    match kind {
        DynamicOpKind::Read { .. } => true,
        DynamicOpKind::Op { arguments, .. } => are_orderly(cx, arguments),
        DynamicOpKind::Call { arguments, .. } => are_orderly(cx, arguments),
    }
}

#[verifier::opaque]
pub open spec fn fields_are_orderly(cx: Context, fields: List<FieldInitializer>) -> bool
    decreases fields,
{
    match fields {
        List::Nil => true,
        List::Cons(first, rest) => option_is_orderly(cx, first.expression) && fields_are_orderly(
            cx,
            *rest,
        ),
    }
}

pub proof fn lemma_orderly_first(cx: Context, first: Expression, rest: List<Expression>)
    requires
        are_orderly(cx, List::Cons(first, Rc::new(rest))),
    ensures
        is_orderly(cx, first),
        are_orderly(cx, rest),
{
    reveal(are_orderly);
    reveal(is_orderly);
}

pub proof fn lemma_orderly_option(cx: Context, expression: Expression)
    requires
        option_is_orderly(cx, Some(expression)),
    ensures
        is_orderly(cx, expression),
{
    reveal(option_is_orderly);
    reveal(is_orderly);
}

pub proof fn lemma_orderly_field(
    cx: Context,
    first: FieldInitializer,
    rest: List<FieldInitializer>,
)
    requires
        fields_are_orderly(cx, List::Cons(first, Rc::new(rest))),
    ensures
        first.expression matches Some(value) ==> is_orderly(cx, value),
        fields_are_orderly(cx, rest),
{
    reveal(fields_are_orderly);
    reveal(option_is_orderly);
    reveal(is_orderly);
    if first.expression is Some {
        assert(option_is_orderly(cx, first.expression));
    }
}

} // verus!
