//! Which expressions may go unevaluated.
use crate::ast::{BinaryOperation, Expression, FieldInitializer, NodeId, Type, UnaryOperation};
use crate::list::List;
use crate::state::{type_of, CompilerState};
use vstd::prelude::*;

verus! {

/// Whether a value of the type that is known of `id` is certainly no integer. Arithmetic on
/// fields, groups and scalars cannot fail; on integers it can overflow.
pub open spec fn is_no_integer(types: Map<NodeId, Type>, id: NodeId) -> bool {
    match type_of(types, id) {
        Some(type_) => !(type_ is Integer),
        None => false,
    }
}

/// Whether `op` can fail on operands of the right types. `total` says that the result is no
/// integer.
pub open spec fn binary_may_fail(op: BinaryOperation, total: bool) -> bool {
    match op {
        BinaryOperation::Div => true,
        BinaryOperation::DivWrapped => true,
        BinaryOperation::Rem => true,
        BinaryOperation::RemWrapped => true,
        BinaryOperation::Mod => true,
        BinaryOperation::Shl => true,
        BinaryOperation::Shr => true,
        BinaryOperation::Add => !total,
        BinaryOperation::Sub => !total,
        BinaryOperation::Mul => !total,
        BinaryOperation::Pow => !total,
        _ => false,
    }
}

/// Whether `op` can fail on an operand of the right type.
pub open spec fn unary_may_fail(op: UnaryOperation, total: bool) -> bool {
    match op {
        UnaryOperation::Abs => true,
        UnaryOperation::Inverse => true,
        UnaryOperation::SquareRoot => true,
        UnaryOperation::Negate => !total,
        _ => false,
    }
}

/// Whether dropping `expression` changes nothing: evaluating it neither fails, nor reads or writes
/// storage, nor calls a function.
#[verifier::opaque]
pub open spec fn can_be_discarded(types: Map<NodeId, Type>, expression: Expression) -> bool
    decreases expression,
{
    match expression {
        Expression::Array(input) => all_can_be_discarded(types, input.elements),
        Expression::ArrayAccess(input) => {
            &&& can_be_discarded(types, input.array)
            &&& can_be_discarded(types, input.index)
        },
        Expression::Binary(input) => {
            &&& !binary_may_fail(input.op, is_no_integer(types, input.id))
            &&& can_be_discarded(types, input.left)
            &&& can_be_discarded(types, input.right)
        },
        Expression::Call(_) => false,
        // The value may not fit.
        Expression::Cast(_) => false,
        Expression::Composite(input) => {
            &&& all_can_be_discarded(types, input.const_arguments)
            &&& members_can_be_discarded(types, input.members)
            &&& input.base matches Some(base) ==> can_be_discarded(types, base)
        },
        Expression::DynamicOp(_) => false,
        Expression::Error(_) => false,
        Expression::Intrinsic(_) => false,
        Expression::Literal(_) => true,
        Expression::MemberAccess(input) => can_be_discarded(types, input.inner),
        Expression::Path(_) => true,
        Expression::Repeat(input) => {
            &&& can_be_discarded(types, input.expr)
            &&& can_be_discarded(types, input.count)
        },
        Expression::Ternary(input) => {
            &&& can_be_discarded(types, input.condition)
            &&& can_be_discarded(types, input.if_true)
            &&& can_be_discarded(types, input.if_false)
        },
        Expression::Tuple(input) => all_can_be_discarded(types, input.elements),
        Expression::TupleAccess(input) => can_be_discarded(types, input.tuple),
        Expression::Unary(input) => {
            &&& !unary_may_fail(input.op, is_no_integer(types, input.id))
            &&& can_be_discarded(types, input.receiver)
        },
        Expression::Unit(_) => true,
    }
}

#[verifier::opaque]
pub open spec fn all_can_be_discarded(
    types: Map<NodeId, Type>,
    expressions: List<Expression>,
) -> bool
    decreases expressions,
{
    match expressions {
        List::Nil => true,
        List::Cons(first, rest) => {
            &&& can_be_discarded(types, first)
            &&& all_can_be_discarded(types, *rest)
        },
    }
}

#[verifier::opaque]
pub open spec fn members_can_be_discarded(
    types: Map<NodeId, Type>,
    members: List<FieldInitializer>,
) -> bool
    decreases members,
{
    match members {
        List::Nil => true,
        List::Cons(first, rest) => {
            &&& first.expression matches Some(value) ==> can_be_discarded(types, value)
            &&& members_can_be_discarded(types, *rest)
        },
    }
}

fn known_no_integer(state: &CompilerState, id: NodeId) -> (r: bool)
    ensures
        r == is_no_integer(state@.types, id),
{
    match state.get_type(id) {
        Some(Type::Integer(_)) => false,
        Some(_) => true,
        None => false,
    }
}

/// Whether dropping `expression` changes nothing.
pub fn expression_can_be_discarded(expression: &Expression, state: &CompilerState) -> (r: bool)
    ensures
        r == can_be_discarded(state@.types, *expression),
    decreases *expression,
{
    proof {
        reveal(can_be_discarded);
        reveal(all_can_be_discarded);
        reveal(members_can_be_discarded);
    }
    match expression {
        Expression::Array(input) => expressions_can_be_discarded(&input.elements, state),
        Expression::ArrayAccess(input) => {
            expression_can_be_discarded(&input.array, state) && expression_can_be_discarded(
                &input.index,
                state,
            )
        },
        Expression::Binary(input) => {
            let total = known_no_integer(state, input.id);
            let may_fail = match input.op {
                BinaryOperation::Div | BinaryOperation::DivWrapped | BinaryOperation::Rem
                | BinaryOperation::RemWrapped | BinaryOperation::Mod | BinaryOperation::Shl
                | BinaryOperation::Shr => true,
                BinaryOperation::Add | BinaryOperation::Sub | BinaryOperation::Mul
                | BinaryOperation::Pow => !total,
                _ => false,
            };
            !may_fail && expression_can_be_discarded(&input.left, state)
                && expression_can_be_discarded(&input.right, state)
        },
        Expression::Composite(input) => {
            expressions_can_be_discarded(&input.const_arguments, state)
                && initializers_can_be_discarded(&input.members, state) && match &input.base {
                Some(base) => expression_can_be_discarded(base, state),
                None => true,
            }
        },
        Expression::MemberAccess(input) => expression_can_be_discarded(&input.inner, state),
        Expression::Repeat(input) => {
            expression_can_be_discarded(&input.expr, state) && expression_can_be_discarded(
                &input.count,
                state,
            )
        },
        Expression::Ternary(input) => {
            expression_can_be_discarded(&input.condition, state) && expression_can_be_discarded(
                &input.if_true,
                state,
            ) && expression_can_be_discarded(&input.if_false, state)
        },
        Expression::Tuple(input) => expressions_can_be_discarded(&input.elements, state),
        Expression::TupleAccess(input) => expression_can_be_discarded(&input.tuple, state),
        Expression::Unary(input) => {
            let total = known_no_integer(state, input.id);
            let may_fail = match input.op {
                UnaryOperation::Abs | UnaryOperation::Inverse | UnaryOperation::SquareRoot => true,
                UnaryOperation::Negate => !total,
                _ => false,
            };
            !may_fail && expression_can_be_discarded(&input.receiver, state)
        },
        Expression::Literal(_) | Expression::Path(_) | Expression::Unit(_) => true,
        _ => false,
    }
}

fn expressions_can_be_discarded(expressions: &List<Expression>, state: &CompilerState) -> (r: bool)
    ensures
        r == all_can_be_discarded(state@.types, *expressions),
    decreases *expressions,
{
    proof {
        reveal(can_be_discarded);
        reveal(all_can_be_discarded);
    }
    match expressions {
        List::Nil => true,
        List::Cons(first, rest) => {
            expression_can_be_discarded(first, state) && expressions_can_be_discarded(rest, state)
        },
    }
}

fn initializers_can_be_discarded(members: &List<FieldInitializer>, state: &CompilerState) -> (r:
    bool)
    ensures
        r == members_can_be_discarded(state@.types, *members),
    decreases *members,
{
    proof {
        reveal(can_be_discarded);
        reveal(members_can_be_discarded);
    }
    match members {
        List::Nil => true,
        List::Cons(first, rest) => {
            let kept = match &first.expression {
                Some(value) => expression_can_be_discarded(value, state),
                None => true,
            };
            kept && initializers_can_be_discarded(rest, state)
        },
    }
}

} // verus!
