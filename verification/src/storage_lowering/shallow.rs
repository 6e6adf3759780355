//! Lowering without continuations needs no depth.
use crate::ast::{
    CallExpression, CompositeExpression, DynamicOpExpression, DynamicOpKind, Expression,
    FieldInitializer, Identifier, Intrinsic, IntrinsicExpression, ModedType, Path, Span, Type,
    TypeParameter,
};
use crate::list::{copied, List};
use crate::state::{struct_in, with_id, Halt, State, StructSymbol};
use crate::storage_lowering::dynamic::{
    finish_dynamic_operands, finish_dynamic_read, finish_dynamic_vector_get, get_dynamic,
    read_dynamic, target_network, vector_of_member, Target,
};
use crate::storage_lowering::reconstruct::{
    reconstruct_call, reconstruct_composite_init, reconstruct_dynamic_op, reconstruct_expression,
    reconstruct_intrinsic, reconstruct_list, reconstruct_members, reconstruct_moded_types,
    reconstruct_optional, reconstruct_other_intrinsic, reconstruct_target, reconstruct_type,
    reconstruct_type_parameters, reconstruct_types, reconstruct_vector_get, reconstruct_vector_push,
    reconstruct_vector_set, reconstruct_vector_swap_remove,
};
use crate::storage_lowering::vectors::{
    finish_get, finish_once, finish_push, finish_set, finish_strict, finish_swap_remove, get_value,
    materialize_strict_prefix_expression, pop_value, Lowered,
};
use crate::storage_lowering::visitor::{Context, Step};
use crate::storage_lowering::zero::{read_storage, reconstruct_path, zero, zero_members, zero_value};
use crate::units::Member;
use vstd::prelude::*;

verus! {

/// Whether `step` did not run out of depth.
pub open spec fn is_shallow<T>(step: Step<T>) -> bool {
    step != Err::<(State, T), Halt>(Halt::Depth)
}

proof fn lemma_zero_value(cx: Context, nesting: List<StructSymbol>, state: State, type_: Type)
    ensures
        is_shallow(zero_value(cx, nesting, state, type_)),
    decreases nesting, 0int, type_,
{
    reveal(zero_value);
    reveal(zero_members);
    match type_ {
        Type::Array(array) => {
            lemma_zero_value(cx, nesting, with_id(state), copied(&array.element_type));
        },
        Type::Composite(composite) => {
            if let List::Cons(_, rest) = nesting {
                if let Some(location) = copied(&*composite.path).spec_try_global_location() {
                    if let Some(members) = struct_in(cx.table.structs, cx.program, location) {
                        lemma_zero_members(cx, copied(&*rest), with_id(state), members);
                    }
                }
            }
        },
        _ => {},
    }
}

proof fn lemma_zero_members(
    cx: Context,
    nesting: List<StructSymbol>,
    state: State,
    members: List<Member>,
)
    ensures
        is_shallow(zero_members(cx, nesting, state, members)),
    decreases nesting, 1int, members,
{
    reveal(zero_members);
    reveal(zero_value);
    match members {
        List::Nil => {},
        List::Cons(member, rest) => {
            let started = with_id(state);
            lemma_zero_value(cx, nesting, started, copied(&member.type_));
            if let Ok((state, _)) = zero_value(cx, nesting, started, copied(&member.type_)) {
                lemma_zero_members(cx, nesting, with_id(state), copied(&*rest));
            }
        },
    }
}

proof fn lemma_zeros(cx: Context)
    ensures
        forall|state: State, type_: Type| is_shallow(#[trigger] zero(cx, state, type_)),
{
    assert forall|state: State, type_: Type| is_shallow(#[trigger] zero(cx, state, type_)) by {
        reveal(zero);
        lemma_zero_value(cx, cx.table.structs, state, type_);
    }
}

pub proof fn lemma_path(cx: Context, state: State, path: Path)
    ensures
        is_shallow(reconstruct_path(cx, state, path)),
{
    reveal(reconstruct_path);
    reveal(read_storage);
    lemma_zeros(cx);
}

/// Lowering an expression without continuations needs no depth.
pub proof fn expressions_need_no_depth(cx: Context, state: State, expression: Expression)
    ensures
        is_shallow(reconstruct_expression(cx, state, expression)),
    decreases expression, 0int,
{
    reveal(reconstruct_expression);
    reveal(reconstruct_list);
    reveal(reconstruct_call);
    reveal(reconstruct_composite_init);
    reveal(reconstruct_dynamic_op);
    reveal(reconstruct_intrinsic);
    match expression {
        Expression::Array(input) => {
            lemma_list(cx, state, copied(&input.elements));
        },
        Expression::ArrayAccess(input) => {
            expressions_need_no_depth(cx, state, copied(&input.array));
            if let Ok((state, _)) = reconstruct_expression(cx, state, copied(&input.array)) {
                expressions_need_no_depth(cx, state, copied(&input.index));
            }
        },
        Expression::Binary(input) => {
            expressions_need_no_depth(cx, state, copied(&input.left));
            if let Ok((state, _)) = reconstruct_expression(cx, state, copied(&input.left)) {
                expressions_need_no_depth(cx, state, copied(&input.right));
            }
        },
        Expression::Call(input) => {
            lemma_call(cx, state, copied(&*input));
        },
        Expression::Cast(input) => {
            expressions_need_no_depth(cx, state, copied(&input.expression));
        },
        Expression::Composite(input) => {
            lemma_composite(cx, state, copied(&*input));
        },
        Expression::DynamicOp(input) => {
            lemma_dynamic(cx, state, copied(&*input));
        },
        Expression::Intrinsic(input) => {
            lemma_intrinsic(cx, state, copied(&*input));
        },
        Expression::MemberAccess(input) => {
            expressions_need_no_depth(cx, state, copied(&input.inner));
        },
        Expression::Path(path) => {
            lemma_path(cx, state, copied(&*path));
        },
        Expression::Repeat(input) => {
            expressions_need_no_depth(cx, state, copied(&input.expr));
            if let Ok((state, _)) = reconstruct_expression(cx, state, copied(&input.expr)) {
                expressions_need_no_depth(cx, state, copied(&input.count));
            }
        },
        Expression::Ternary(input) => {
            expressions_need_no_depth(cx, state, copied(&input.condition));
            if let Ok((state, _)) = reconstruct_expression(cx, state, copied(&input.condition)) {
                expressions_need_no_depth(cx, state, copied(&input.if_true));
                if let Ok((state, _)) = reconstruct_expression(cx, state, copied(&input.if_true)) {
                    expressions_need_no_depth(cx, state, copied(&input.if_false));
                }
            }
        },
        Expression::Tuple(input) => {
            lemma_list(cx, state, copied(&input.elements));
        },
        Expression::TupleAccess(input) => {
            expressions_need_no_depth(cx, state, copied(&input.tuple));
        },
        Expression::Unary(input) => {
            expressions_need_no_depth(cx, state, copied(&input.receiver));
        },
        _ => {},
    }
}

proof fn lemma_list(cx: Context, state: State, expressions: List<Expression>)
    ensures
        is_shallow(reconstruct_list(cx, state, expressions)),
    decreases expressions, 0int,
{
    reveal(reconstruct_list);
    reveal(reconstruct_expression);
    match expressions {
        List::Nil => {},
        List::Cons(first, rest) => {
            expressions_need_no_depth(cx, state, first);
            if let Ok((state, _)) = reconstruct_expression(cx, state, first) {
                lemma_list(cx, state, copied(&*rest));
            }
        },
    }
}

proof fn lemma_members(cx: Context, state: State, members: List<FieldInitializer>)
    ensures
        is_shallow(reconstruct_members(cx, state, members)),
    decreases members, 0int,
{
    reveal(reconstruct_members);
    reveal(reconstruct_expression);
    match members {
        List::Nil => {},
        List::Cons(first, rest) => {
            if let Some(value) = &first.expression {
                expressions_need_no_depth(cx, state, copied(value));
                if let Ok((state, _)) = reconstruct_expression(cx, state, copied(value)) {
                    lemma_members(cx, state, copied(&*rest));
                }
            }
        },
    }
}

pub proof fn lemma_call(cx: Context, state: State, input: CallExpression)
    ensures
        is_shallow(reconstruct_call(cx, state, input)),
    decreases input, 0int,
{
    reveal(reconstruct_call);
    reveal(reconstruct_list);
    lemma_list(cx, state, input.arguments);
}

proof fn lemma_optional(cx: Context, state: State, expression: Option<Expression>)
    ensures
        is_shallow(reconstruct_optional(cx, state, expression)),
    decreases expression, 1int,
{
    reveal(reconstruct_optional);
    reveal(reconstruct_expression);
    if let Some(expression) = expression {
        expressions_need_no_depth(cx, state, expression);
    }
}

proof fn lemma_composite(cx: Context, state: State, input: CompositeExpression)
    ensures
        is_shallow(reconstruct_composite_init(cx, state, input)),
    decreases input, 0int,
{
    reveal(reconstruct_composite_init);
    reveal(reconstruct_list);
    reveal(reconstruct_members);
    reveal(reconstruct_optional);
    lemma_list(cx, state, input.const_arguments);
    if let Ok((state, _)) = reconstruct_list(cx, state, input.const_arguments) {
        lemma_members(cx, state, input.members);
        if let Ok((state, _)) = reconstruct_members(cx, state, input.members) {
            lemma_optional(cx, state, input.base);
        }
    }
}

proof fn lemma_target(cx: Context, state: State, input: DynamicOpExpression)
    ensures
        is_shallow(reconstruct_target(cx, state, input)),
    decreases input, 0int,
{
    reveal(reconstruct_target);
    reveal(reconstruct_expression);
    expressions_need_no_depth(cx, state, input.target_program);
    if let Ok((state, _)) = reconstruct_expression(cx, state, input.target_program) {
        if let Some(network) = input.network {
            expressions_need_no_depth(cx, state, network);
        }
    }
}

proof fn lemma_dynamic_read(
    cx: Context,
    state: State,
    target: Target,
    interface: Type,
    storage: Identifier,
    span: Span,
)
    ensures
        is_shallow(finish_dynamic_read(cx, state, target, interface, storage, span)),
{
    reveal(finish_dynamic_read);
    reveal(read_dynamic);
    lemma_zeros(cx);
}

proof fn lemma_dynamic_get(
    cx: Context,
    before: State,
    target: Target,
    network: Expression,
    member: Identifier,
    element: Type,
    index: Expression,
    lowered: Step<Lowered>,
    span: Span,
)
    requires
        is_shallow(lowered),
    ensures
        is_shallow(
            finish_dynamic_vector_get(
                cx,
                before,
                target,
                network,
                member,
                element,
                index,
                lowered,
                span,
            ),
        ),
{
    reveal(finish_dynamic_vector_get);
    reveal(finish_once);
    reveal(get_dynamic);
    lemma_zeros(cx);
}

pub proof fn lemma_dynamic(cx: Context, state: State, input: DynamicOpExpression)
    ensures
        is_shallow(reconstruct_dynamic_op(cx, state, input)),
    decreases input, 1int,
{
    reveal(reconstruct_dynamic_op);
    reveal(reconstruct_target);
    reveal(reconstruct_expression);
    reveal(reconstruct_list);
    reveal(finish_dynamic_operands);
    lemma_target(cx, state, input);
    if let Ok((state, target)) = reconstruct_target(cx, state, input) {
        match input.kind {
            DynamicOpKind::Read { storage } => {
                lemma_dynamic_read(cx, state, target, input.interface, storage, input.span);
            },
            DynamicOpKind::Op { member, arguments, .. } => {
                lemma_list(cx, state, arguments);
                if let Ok(Some(element)) = vector_of_member(cx, input.interface, member) {
                    if let List::Cons(index, _) = arguments {
                        let (state, network) = target_network(state, target);
                        expressions_need_no_depth(cx, state, index);
                        lemma_dynamic_get(
                            cx,
                            state,
                            target,
                            network,
                            member,
                            element,
                            index,
                            reconstruct_expression(cx, state, index),
                            input.span,
                        );
                    }
                }
            },
            DynamicOpKind::Call { arguments, .. } => {
                lemma_list(cx, state, arguments);
            },
        }
    }
}

/* Types */

pub proof fn lemma_type(cx: Context, state: State, type_: Type)
    ensures
        is_shallow(reconstruct_type(cx, state, type_)),
    decreases type_, 0int,
{
    reveal(reconstruct_type);
    reveal(reconstruct_types);
    reveal(reconstruct_expression);
    reveal(reconstruct_list);
    match type_ {
        Type::Array(array) => {
            expressions_need_no_depth(cx, state, copied(&array.length));
            if let Ok((state, _)) = reconstruct_expression(cx, state, copied(&array.length)) {
                lemma_type(cx, state, copied(&array.element_type));
            }
        },
        Type::Composite(composite) => {
            lemma_list(cx, state, copied(&composite.const_arguments));
        },
        Type::Future(future) => {
            lemma_types(cx, state, copied(&future.inputs));
        },
        Type::Mapping(mapping) => {
            lemma_type(cx, state, copied(&mapping.key));
            if let Ok((state, _)) = reconstruct_type(cx, state, copied(&mapping.key)) {
                lemma_type(cx, state, copied(&mapping.value));
            }
        },
        Type::Optional(inner) => {
            lemma_type(cx, state, copied(&*inner));
        },
        Type::Tuple(elements) => {
            lemma_types(cx, state, copied(&*elements));
        },
        Type::Vector(element) => {
            lemma_type(cx, state, copied(&*element));
        },
        _ => {},
    }
}

proof fn lemma_types(cx: Context, state: State, types: List<Type>)
    ensures
        is_shallow(reconstruct_types(cx, state, types)),
    decreases types, 0int,
{
    reveal(reconstruct_types);
    reveal(reconstruct_type);
    if let List::Cons(first, rest) = &types {
        lemma_type(cx, state, copied(first));
        if let Ok((state, _)) = reconstruct_type(cx, state, copied(first)) {
            lemma_types(cx, state, copied(&**rest));
        }
    }
}

proof fn lemma_type_parameters(cx: Context, state: State, types: List<TypeParameter>)
    ensures
        is_shallow(reconstruct_type_parameters(cx, state, types)),
    decreases types, 0int,
{
    reveal(reconstruct_type_parameters);
    reveal(reconstruct_type);
    if let List::Cons(first, rest) = &types {
        lemma_type(cx, state, copied(&first.type_));
        if let Ok((state, _)) = reconstruct_type(cx, state, copied(&first.type_)) {
            lemma_type_parameters(cx, state, copied(&**rest));
        }
    }
}

proof fn lemma_moded_types(cx: Context, state: State, types: List<ModedType>)
    ensures
        is_shallow(reconstruct_moded_types(cx, state, types)),
    decreases types, 0int,
{
    reveal(reconstruct_moded_types);
    reveal(reconstruct_type);
    if let List::Cons(first, rest) = &types {
        lemma_type(cx, state, copied(&first.type_));
        if let Ok((state, _)) = reconstruct_type(cx, state, copied(&first.type_)) {
            lemma_moded_types(cx, state, copied(&**rest));
        }
    }
}

/* Built-in operations */

proof fn lemma_vector_push(cx: Context, state: State, input: IntrinsicExpression)
    ensures
        is_shallow(reconstruct_vector_push(cx, state, input)),
    decreases input, 0int,
{
    reveal(reconstruct_vector_push);
    reveal(finish_push);
    reveal(finish_once);
    reveal(reconstruct_expression);
    if let List::Cons(vector, rest) = &input.arguments {
        if let List::Cons(value, _) = &**rest {
            let value = copied(value);
            let lowered = reconstruct_expression(cx, state, value);
            expressions_need_no_depth(cx, state, value);
        }
    }
}

proof fn lemma_vector_get(cx: Context, state: State, input: IntrinsicExpression)
    ensures
        is_shallow(reconstruct_vector_get(cx, state, input)),
    decreases input, 0int,
{
    reveal(reconstruct_vector_get);
    reveal(finish_get);
    reveal(finish_once);
    reveal(get_value);
    lemma_zeros(cx);
    reveal(reconstruct_expression);
    if let List::Cons(vector, rest) = &input.arguments {
        if let List::Cons(index, _) = &**rest {
            let index = copied(index);
            let lowered = reconstruct_expression(cx, state, index);
            expressions_need_no_depth(cx, state, index);
        }
    }
}

proof fn lemma_vector_set(cx: Context, state: State, input: IntrinsicExpression)
    ensures
        is_shallow(reconstruct_vector_set(cx, state, input)),
    decreases input, 0int,
{
    reveal(reconstruct_vector_set);
    reveal(finish_set);
    reveal(finish_strict);
    reveal(materialize_strict_prefix_expression);
    reveal(reconstruct_expression);
    if let List::Cons(vector, rest) = &input.arguments {
        if let List::Cons(index, rest) = &**rest {
            if let List::Cons(value, _) = &**rest {
                let index = copied(index);
                let value = copied(value);
                let first = reconstruct_expression(cx, state, index);
                expressions_need_no_depth(cx, state, index);
                if let Ok((after, bound)) = finish_strict(cx, first) {
                    let second = reconstruct_expression(cx, after, value);
                    expressions_need_no_depth(cx, after, value);
                    let second = finish_strict(cx, second);
                        }
            }
        }
    }
}

proof fn lemma_vector_swap_remove(cx: Context, state: State, input: IntrinsicExpression)
    ensures
        is_shallow(reconstruct_vector_swap_remove(cx, state, input)),
    decreases input, 0int,
{
    reveal(reconstruct_vector_swap_remove);
    reveal(finish_swap_remove);
    reveal(finish_strict);
    reveal(materialize_strict_prefix_expression);
    reveal(reconstruct_expression);
    if let List::Cons(vector, rest) = &input.arguments {
        if let List::Cons(index, _) = &**rest {
            let index = copied(index);
            let lowered = reconstruct_expression(cx, state, index);
            expressions_need_no_depth(cx, state, index);
            let lowered = finish_strict(cx, lowered);
        }
    }
}

proof fn lemma_other(cx: Context, state: State, input: IntrinsicExpression)
    ensures
        is_shallow(reconstruct_other_intrinsic(cx, state, input)),
    decreases input, 0int,
{
    reveal(reconstruct_other_intrinsic);
    reveal(reconstruct_type_parameters);
    reveal(reconstruct_moded_types);
    reveal(reconstruct_list);
    lemma_type_parameters(cx, state, input.type_parameters);
    if let Ok((state, _)) = reconstruct_type_parameters(cx, state, input.type_parameters) {
        lemma_moded_types(cx, state, input.input_types);
        if let Ok((state, _)) = reconstruct_moded_types(cx, state, input.input_types) {
            lemma_moded_types(cx, state, input.return_types);
            if let Ok((state, _)) = reconstruct_moded_types(cx, state, input.return_types) {
                lemma_list(cx, state, input.arguments);
            }
        }
    }
}

pub proof fn lemma_intrinsic(cx: Context, state: State, input: IntrinsicExpression)
    ensures
        is_shallow(reconstruct_intrinsic(cx, state, input)),
    decreases input, 1int,
{
    reveal(reconstruct_intrinsic);
    reveal(reconstruct_vector_push);
    reveal(reconstruct_vector_get);
    reveal(reconstruct_vector_set);
    reveal(reconstruct_vector_swap_remove);
    reveal(reconstruct_other_intrinsic);
    reveal(pop_value);
    lemma_zeros(cx);
    match input.op {
        Intrinsic::VectorPush => {
            lemma_vector_push(cx, state, input);
        },
        Intrinsic::VectorGet => {
            lemma_vector_get(cx, state, input);
        },
        Intrinsic::VectorSet => {
            lemma_vector_set(cx, state, input);
        },
        Intrinsic::VectorSwapRemove => {
            lemma_vector_swap_remove(cx, state, input);
        },
        Intrinsic::VectorLen => {},
        Intrinsic::VectorPop => {},
        Intrinsic::VectorClear => {},
        _ => {
            lemma_other(cx, state, input);
        },
    }
}

} // verus!
