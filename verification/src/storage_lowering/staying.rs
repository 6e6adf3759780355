//! What has nothing to do with storage stays as it is.
use crate::ast::{
    CallExpression, CompositeExpression, DynamicOpExpression, DynamicOpKind, Expression,
    FieldInitializer, IntrinsicExpression, ModedType, Statement, Type, TypeParameter,
};
use crate::list::{copied, List};
use crate::state::State;
use crate::storage_lowering::dynamic::finish_dynamic_operands;
use crate::storage_lowering::emit::takes_vector;
use crate::storage_lowering::plain::{
    are_plain, fields_are_plain, group_plain, is_plain, kind_is_plain, moded_are_plain,
    option_is_plain, parameters_are_plain, type_is_plain, types_are_plain,
};
use crate::storage_lowering::reconstruct::{
    reconstruct_call, reconstruct_composite_init, reconstruct_dynamic_op, reconstruct_expression,
    reconstruct_intrinsic, reconstruct_list, reconstruct_members, reconstruct_moded_types,
    reconstruct_optional, reconstruct_other_intrinsic, reconstruct_target, reconstruct_type,
    reconstruct_type_parameters, reconstruct_types,
};
use crate::storage_lowering::visitor::Context;
use crate::storage_lowering::zero::reconstruct_path;
use std::rc::Rc;
use vstd::prelude::*;

verus! {

broadcast use group_plain;

/// An expression that neither reads storage nor works on it is lowered to itself: no operand is
/// lost, moved or changed, and nothing has to run before it.
pub proof fn plain_expressions_stay(cx: Context, open: bool, state: State, expression: Expression)
    requires
        is_plain(cx, open, expression),
    ensures
        reconstruct_expression(cx, state, expression) matches Ok(lowered) ==> lowered == (
            state,
            (expression, List::<Statement>::Nil),
        ),
    decreases expression, 0int,
{
    reveal(is_plain);
    reveal(are_plain);
    reveal(option_is_plain);
    reveal(kind_is_plain);
    reveal(fields_are_plain);
    reveal(reconstruct_expression);
    reveal(reconstruct_list);
    reveal(reconstruct_call);
    reveal(reconstruct_composite_init);
    reveal(reconstruct_dynamic_op);
    reveal(reconstruct_intrinsic);
    match expression {
        Expression::Array(input) => {
            lemma_list(cx, open, state, copied(&input.elements));
        },
        Expression::ArrayAccess(input) => {
            plain_expressions_stay(cx, open, state, copied(&input.array));
            if let Ok((state, _)) = reconstruct_expression(cx, state, copied(&input.array)) {
                plain_expressions_stay(cx, open, state, copied(&input.index));
            }
        },
        Expression::Binary(input) => {
            plain_expressions_stay(cx, open, state, copied(&input.left));
            if let Ok((state, _)) = reconstruct_expression(cx, state, copied(&input.left)) {
                plain_expressions_stay(cx, open, state, copied(&input.right));
            }
        },
        Expression::Call(input) => {
            lemma_call(cx, state, copied(&*input));
        },
        Expression::Cast(input) => {
            plain_expressions_stay(cx, open, state, copied(&input.expression));
        },
        Expression::Composite(input) => {
            lemma_composite(cx, open, state, copied(&*input));
        },
        Expression::DynamicOp(input) => {
            lemma_dynamic(cx, open, state, copied(&*input));
        },
        Expression::Intrinsic(input) => {
            lemma_intrinsic(cx, state, copied(&*input));
        },
        Expression::MemberAccess(input) => {
            plain_expressions_stay(cx, open, state, copied(&input.inner));
        },
        Expression::Path(path) => {
            reveal(reconstruct_path);
        },
        Expression::Repeat(input) => {
            plain_expressions_stay(cx, open, state, copied(&input.expr));
            if let Ok((state, _)) = reconstruct_expression(cx, state, copied(&input.expr)) {
                plain_expressions_stay(cx, open, state, copied(&input.count));
            }
        },
        Expression::Ternary(input) => {
            plain_expressions_stay(cx, open, state, copied(&input.condition));
            if let Ok((state, _)) = reconstruct_expression(cx, state, copied(&input.condition)) {
                plain_expressions_stay(cx, open, state, copied(&input.if_true));
                if let Ok((state, _)) = reconstruct_expression(cx, state, copied(&input.if_true)) {
                    plain_expressions_stay(cx, open, state, copied(&input.if_false));
                }
            }
        },
        Expression::Tuple(input) => {
            lemma_list(cx, open, state, copied(&input.elements));
        },
        Expression::TupleAccess(input) => {
            plain_expressions_stay(cx, open, state, copied(&input.tuple));
        },
        Expression::Unary(input) => {
            plain_expressions_stay(cx, open, state, copied(&input.receiver));
        },
        _ => {},
    }
}

pub proof fn lemma_list(cx: Context, open: bool, state: State, expressions: List<Expression>)
    requires
        are_plain(cx, open, expressions),
    ensures
        reconstruct_list(cx, state, expressions) matches Ok(lowered) ==> lowered == (
            state,
            (expressions, List::<Statement>::Nil),
        ),
    decreases expressions, 0int,
{
    reveal(is_plain);
    reveal(are_plain);
    reveal(option_is_plain);
    reveal(kind_is_plain);
    reveal(fields_are_plain);
    reveal(reconstruct_list);
    reveal(reconstruct_expression);
    match expressions {
        List::Nil => {},
        List::Cons(first, rest) => {
            plain_expressions_stay(cx, open, state, first);
            if let Ok((state, _)) = reconstruct_expression(cx, state, first) {
                lemma_list(cx, open, state, copied(&*rest));
            }
        },
    }
}

proof fn lemma_members(cx: Context, open: bool, state: State, members: List<FieldInitializer>)
    requires
        fields_are_plain(cx, open, members),
    ensures
        reconstruct_members(cx, state, members) matches Ok(lowered) ==> lowered == (
            state,
            (members, List::<Statement>::Nil),
        ),
    decreases members, 0int,
{
    reveal(is_plain);
    reveal(are_plain);
    reveal(option_is_plain);
    reveal(kind_is_plain);
    reveal(fields_are_plain);
    reveal(reconstruct_members);
    reveal(reconstruct_expression);
    match members {
        List::Nil => {},
        List::Cons(first, rest) => {
            if let Some(value) = &first.expression {
                assert(option_is_plain(cx, open, first.expression));
                plain_expressions_stay(cx, open, state, copied(value));
                if let Ok((state, _)) = reconstruct_expression(cx, state, copied(value)) {
                    lemma_members(cx, open, state, copied(&*rest));
                }
            }
        },
    }
}

pub proof fn lemma_call(cx: Context, state: State, input: CallExpression)
    requires
        are_plain(cx, false, input.arguments),
    ensures
        reconstruct_call(cx, state, input) matches Ok(lowered) ==> lowered == (
            state,
            (Expression::Call(Rc::new(input)), List::<Statement>::Nil),
        ),
    decreases input, 0int,
{
    reveal(reconstruct_call);
    reveal(reconstruct_list);
    lemma_list(cx, false, state, input.arguments);
}

proof fn lemma_optional(cx: Context, open: bool, state: State, expression: Option<Expression>)
    requires
        option_is_plain(cx, open, expression),
    ensures
        reconstruct_optional(cx, state, expression) matches Ok(lowered) ==> lowered == (
            state,
            (expression, List::<Statement>::Nil),
        ),
    decreases expression, 1int,
{
    reveal(is_plain);
    reveal(are_plain);
    reveal(option_is_plain);
    reveal(kind_is_plain);
    reveal(fields_are_plain);
    reveal(reconstruct_optional);
    reveal(reconstruct_expression);
    if let Some(expression) = expression {
        plain_expressions_stay(cx, open, state, expression);
    }
}

proof fn lemma_composite(cx: Context, open: bool, state: State, input: CompositeExpression)
    requires
        are_plain(cx, open, input.const_arguments),
        fields_are_plain(cx, open, input.members),
        option_is_plain(cx, open, input.base),
    ensures
        reconstruct_composite_init(cx, state, input) matches Ok(lowered) ==> lowered == (
            state,
            (Expression::Composite(Rc::new(input)), List::<Statement>::Nil),
        ),
    decreases input, 0int,
{
    reveal(reconstruct_composite_init);
    reveal(reconstruct_list);
    reveal(reconstruct_members);
    reveal(reconstruct_optional);
    lemma_list(cx, open, state, input.const_arguments);
    if let Ok((state, _)) = reconstruct_list(cx, state, input.const_arguments) {
        lemma_members(cx, open, state, input.members);
        if let Ok((state, _)) = reconstruct_members(cx, state, input.members) {
            lemma_optional(cx, open, state, input.base);
        }
    }
}

proof fn lemma_target(cx: Context, state: State, input: DynamicOpExpression)
    requires
        is_plain(cx, false, input.target_program),
        option_is_plain(cx, false, input.network),
    ensures
        reconstruct_target(cx, state, input) matches Ok((after, target)) ==> after == state
            && target.program == input.target_program && target.network == input.network
            && target.statements == List::<Statement>::Nil,
    decreases input, 0int,
{
    reveal(is_plain);
    reveal(are_plain);
    reveal(option_is_plain);
    reveal(kind_is_plain);
    reveal(fields_are_plain);
    reveal(reconstruct_target);
    reveal(reconstruct_expression);
    plain_expressions_stay(cx, false, state, input.target_program);
    if let Ok((state, _)) = reconstruct_expression(cx, state, input.target_program) {
        if let Some(network) = input.network {
            assert(option_is_plain(cx, false, input.network));
            plain_expressions_stay(cx, false, state, network);
        }
    }
}

/// A call of another program stays, and so does an access to a member that is no vector.
pub proof fn lemma_dynamic(cx: Context, open: bool, state: State, input: DynamicOpExpression)
    requires
        is_plain(cx, false, input.target_program),
        option_is_plain(cx, false, input.network),
        kind_is_plain(cx, open, input.interface, input.kind),
    ensures
        reconstruct_dynamic_op(cx, state, input) matches Ok(lowered) ==> lowered == (
            state,
            (Expression::DynamicOp(Rc::new(input)), List::<Statement>::Nil),
        ),
    decreases input, 1int,
{
    reveal(reconstruct_dynamic_op);
    reveal(reconstruct_target);
    reveal(reconstruct_expression);
    reveal(reconstruct_list);
    reveal(finish_dynamic_operands);
    reveal(kind_is_plain);
    reveal(are_plain);
    lemma_target(cx, state, input);
    match input.kind {
        DynamicOpKind::Read { .. } => {},
        DynamicOpKind::Op { arguments, .. } => {
            lemma_list(cx, true, state, arguments);
        },
        DynamicOpKind::Call { arguments, .. } => {
            lemma_list(cx, open, state, arguments);
        },
    }
}

/* Types */

pub proof fn lemma_type(cx: Context, state: State, type_: Type)
    requires
        type_is_plain(cx, type_),
    ensures
        reconstruct_type(cx, state, type_) matches Ok(lowered) ==> lowered == (
            state,
            (type_, List::<Statement>::Nil),
        ),
    decreases type_, 0int,
{
    reveal(type_is_plain);
    reveal(types_are_plain);
    reveal(reconstruct_type);
    reveal(reconstruct_types);
    reveal(reconstruct_expression);
    reveal(reconstruct_list);
    match type_ {
        Type::Array(array) => {
            plain_expressions_stay(cx, false, state, copied(&array.length));
            if let Ok((state, _)) = reconstruct_expression(cx, state, copied(&array.length)) {
                lemma_type(cx, state, copied(&array.element_type));
            }
        },
        Type::Composite(composite) => {
            lemma_list(cx, false, state, copied(&composite.const_arguments));
        },
        Type::Future(future) => {
            lemma_types(cx, state, copied(&future.inputs));
        },
        Type::Mapping(mapping) => {
            lemma_type(cx, state, copied(&mapping.key));
            if let Ok((state, _)) = reconstruct_type(cx, state, copied(&mapping.key)) {
                lemma_type(cx, state, copied(&mapping.value));
            }
        },
        Type::Optional(inner) => {
            lemma_type(cx, state, copied(&*inner));
        },
        Type::Tuple(elements) => {
            lemma_types(cx, state, copied(&*elements));
        },
        Type::Vector(element) => {
            lemma_type(cx, state, copied(&*element));
        },
        _ => {},
    }
}

proof fn lemma_types(cx: Context, state: State, types: List<Type>)
    requires
        types_are_plain(cx, types),
    ensures
        reconstruct_types(cx, state, types) matches Ok(lowered) ==> lowered == (state, types),
    decreases types, 0int,
{
    reveal(types_are_plain);
    reveal(type_is_plain);
    reveal(reconstruct_types);
    reveal(reconstruct_type);
    if let List::Cons(first, rest) = &types {
        lemma_type(cx, state, copied(first));
        if let Ok((state, _)) = reconstruct_type(cx, state, copied(first)) {
            lemma_types(cx, state, copied(&**rest));
        }
    }
}

proof fn lemma_type_parameters(cx: Context, state: State, types: List<TypeParameter>)
    requires
        parameters_are_plain(cx, types),
    ensures
        reconstruct_type_parameters(
            cx,
            state,
            types,
        ) matches Ok(lowered) ==> lowered == (state, types),
    decreases types, 0int,
{
    reveal(parameters_are_plain);
    reveal(type_is_plain);
    reveal(reconstruct_type_parameters);
    reveal(reconstruct_type);
    if let List::Cons(first, rest) = &types {
        lemma_type(cx, state, copied(&first.type_));
        if let Ok((state, _)) = reconstruct_type(cx, state, copied(&first.type_)) {
            lemma_type_parameters(cx, state, copied(&**rest));
        }
    }
}

proof fn lemma_moded_types(cx: Context, state: State, types: List<ModedType>)
    requires
        moded_are_plain(cx, types),
    ensures
        reconstruct_moded_types(cx, state, types) matches Ok(lowered) ==> lowered == (state, types),
    decreases types, 0int,
{
    reveal(moded_are_plain);
    reveal(type_is_plain);
    reveal(reconstruct_moded_types);
    reveal(reconstruct_type);
    if let List::Cons(first, rest) = &types {
        lemma_type(cx, state, copied(&first.type_));
        if let Ok((state, _)) = reconstruct_type(cx, state, copied(&first.type_)) {
            lemma_moded_types(cx, state, copied(&**rest));
        }
    }
}

pub proof fn lemma_intrinsic(cx: Context, state: State, input: IntrinsicExpression)
    requires
        !takes_vector(input.op),
        parameters_are_plain(cx, input.type_parameters),
        moded_are_plain(cx, input.input_types),
        moded_are_plain(cx, input.return_types),
        are_plain(cx, false, input.arguments),
    ensures
        reconstruct_intrinsic(cx, state, input) matches Ok(lowered) ==> lowered == (
            state,
            (Expression::Intrinsic(Rc::new(input)), List::<Statement>::Nil),
        ),
    decreases input, 1int,
{
    reveal(reconstruct_intrinsic);
    reveal(reconstruct_other_intrinsic);
    reveal(reconstruct_type_parameters);
    reveal(reconstruct_moded_types);
    reveal(reconstruct_list);
    lemma_type_parameters(cx, state, input.type_parameters);
    if let Ok((state, _)) = reconstruct_type_parameters(cx, state, input.type_parameters) {
        lemma_moded_types(cx, state, input.input_types);
        if let Ok((state, _)) = reconstruct_moded_types(cx, state, input.input_types) {
            lemma_moded_types(cx, state, input.return_types);
            if let Ok((state, _)) = reconstruct_moded_types(cx, state, input.return_types) {
                lemma_list(cx, false, state, input.arguments);
            }
        }
    }
}

} // verus!
