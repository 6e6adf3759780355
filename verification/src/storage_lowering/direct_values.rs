//! What expressions are lowered to without continuations is plain.
use crate::ast::{
    CallExpression, CompositeExpression, DynamicOpExpression, DynamicOpKind, Expression,
    FieldInitializer, Intrinsic, IntrinsicExpression, ModedType, Type, TypeParameter,
};
use crate::list::{copied, List};
use crate::purity::can_be_discarded;
use crate::state::{Halt, State};
use crate::storage_lowering::dynamic::{finish_dynamic_operands, target_network, vector_of_member};
use crate::storage_lowering::emit::takes_vector;
use crate::storage_lowering::plain::{
    are_direct, are_plain, fields_are_direct, fields_are_plain, group_plain, is_direct, is_plain,
    is_regular_state, kind_is_direct, kind_is_plain, moded_are_plain, option_is_direct,
    option_is_plain, parameters_are_plain, type_is_plain, types_are_plain,
};
use crate::storage_lowering::plain_builders::{
    gives_plain, lemma_clear, lemma_dynamic_get, lemma_dynamic_read, lemma_dynamic_vector_len,
    lemma_element, lemma_finish_get, lemma_finish_push, lemma_finish_set, lemma_finish_swap_remove,
    lemma_len, lemma_network, lemma_path, lemma_pop, lemma_vector_argument, target_is_plain,
};
use crate::storage_lowering::plain_order::{
    lemma_direct, lemma_direct_list, lemma_opens, lemma_quiet,
};
use crate::storage_lowering::plain_values::{lemma_discardable, lemma_materialize};
use crate::storage_lowering::reconstruct::{
    only_vector, reconstruct_call, reconstruct_composite_init, reconstruct_dynamic_op,
    reconstruct_expression, reconstruct_intrinsic, reconstruct_list, reconstruct_members,
    reconstruct_moded_types, reconstruct_optional, reconstruct_other_intrinsic, reconstruct_target,
    reconstruct_type, reconstruct_type_parameters, reconstruct_types, reconstruct_vector_get,
    reconstruct_vector_push, reconstruct_vector_set, reconstruct_vector_swap_remove,
};
use crate::storage_lowering::vectors::{finish_strict, Lowered};
use crate::storage_lowering::visitor::{Context, Step};
use crate::storage_lowering::zero::reconstruct_path;
use vstd::prelude::*;

verus! {

broadcast use group_plain;

/// An expression that needs no continuations is lowered to a plain one.
pub proof fn lemma_source(cx: Context, open: bool, state: State, expression: Expression)
    requires
        is_regular_state(cx, state),
        is_direct(cx, open, expression),
    ensures
        gives_plain(cx, open, reconstruct_expression(cx, state, expression)),
    decreases expression, 0int,
{
    reveal(is_direct);
    reveal(are_direct);
    reveal(option_is_direct);
    reveal(kind_is_direct);
    reveal(fields_are_direct);
    reveal(reconstruct_expression);
    reveal(reconstruct_list);
    reveal(reconstruct_call);
    reveal(reconstruct_composite_init);
    reveal(reconstruct_dynamic_op);
    reveal(reconstruct_intrinsic);
    match expression {
        Expression::Array(input) => {
            lemma_list(cx, open, state, copied(&input.elements));
        },
        Expression::ArrayAccess(input) => {
            lemma_source(cx, open, state, copied(&input.array));
            if let Ok((state, _)) = reconstruct_expression(cx, state, copied(&input.array)) {
                lemma_source(cx, open, state, copied(&input.index));
            }
        },
        Expression::Binary(input) => {
            lemma_source(cx, open, state, copied(&input.left));
            if let Ok((state, _)) = reconstruct_expression(cx, state, copied(&input.left)) {
                lemma_source(cx, open, state, copied(&input.right));
            }
        },
        Expression::Call(input) => {
            lemma_call(cx, open, state, copied(&*input));
        },
        Expression::Cast(input) => {
            lemma_source(cx, open, state, copied(&input.expression));
        },
        Expression::Composite(input) => {
            lemma_composite(cx, open, state, copied(&*input));
        },
        Expression::DynamicOp(input) => {
            lemma_dynamic(cx, open, state, copied(&*input));
        },
        Expression::Intrinsic(input) => {
            lemma_intrinsic(cx, open, state, copied(&*input));
        },
        Expression::MemberAccess(input) => {
            lemma_source(cx, open, state, copied(&input.inner));
        },
        Expression::Path(path) => {
            lemma_path(cx, state, copied(&*path));
            if let Ok((_, value)) = reconstruct_path(cx, state, copied(&*path)) {
                lemma_opens(cx, value);
            }
        },
        Expression::Repeat(input) => {
            lemma_source(cx, open, state, copied(&input.expr));
            if let Ok((state, _)) = reconstruct_expression(cx, state, copied(&input.expr)) {
                lemma_source(cx, open, state, copied(&input.count));
            }
        },
        Expression::Ternary(input) => {
            lemma_source(cx, open, state, copied(&input.condition));
            if let Ok((state, _)) = reconstruct_expression(cx, state, copied(&input.condition)) {
                lemma_source(cx, open, state, copied(&input.if_true));
                if let Ok((state, _)) = reconstruct_expression(cx, state, copied(&input.if_true)) {
                    lemma_source(cx, open, state, copied(&input.if_false));
                }
            }
        },
        Expression::Tuple(input) => {
            lemma_list(cx, open, state, copied(&input.elements));
        },
        Expression::TupleAccess(input) => {
            lemma_source(cx, open, state, copied(&input.tuple));
        },
        Expression::Unary(input) => {
            lemma_source(cx, open, state, copied(&input.receiver));
        },
        _ => {
            reveal(is_plain);
        },
    }
}

proof fn lemma_list(cx: Context, open: bool, state: State, expressions: List<Expression>)
    requires
        is_regular_state(cx, state),
        are_direct(cx, open, expressions),
    ensures
        reconstruct_list(cx, state, expressions) matches Ok((after, (values, _)))
            ==> is_regular_state(cx, after) && are_plain(cx, open, values),
    decreases expressions, 0int,
{
    reveal(is_direct);
    reveal(are_direct);
    reveal(option_is_direct);
    reveal(kind_is_direct);
    reveal(fields_are_direct);
    reveal(reconstruct_list);
    reveal(reconstruct_expression);
    match expressions {
        List::Nil => {},
        List::Cons(first, rest) => {
            lemma_source(cx, open, state, first);
            if let Ok((state, _)) = reconstruct_expression(cx, state, first) {
                lemma_list(cx, open, state, copied(&*rest));
            }
        },
    }
}

proof fn lemma_members(cx: Context, open: bool, state: State, members: List<FieldInitializer>)
    requires
        is_regular_state(cx, state),
        fields_are_direct(cx, open, members),
    ensures
        reconstruct_members(cx, state, members) matches Ok((after, (values, _)))
            ==> is_regular_state(cx, after) && fields_are_plain(cx, open, values),
    decreases members, 0int,
{
    reveal(is_direct);
    reveal(are_direct);
    reveal(option_is_direct);
    reveal(kind_is_direct);
    reveal(fields_are_direct);
    reveal(reconstruct_members);
    reveal(reconstruct_expression);
    match members {
        List::Nil => {},
        List::Cons(first, rest) => {
            if let Some(value) = &first.expression {
                assert(option_is_direct(cx, open, first.expression));
                lemma_source(cx, open, state, copied(value));
                if let Ok((state, _)) = reconstruct_expression(cx, state, copied(value)) {
                    lemma_members(cx, open, state, copied(&*rest));
                }
            }
        },
    }
}

pub proof fn lemma_call(cx: Context, open: bool, state: State, input: CallExpression)
    requires
        is_regular_state(cx, state),
        are_plain(cx, false, input.const_arguments),
        are_direct(cx, false, input.arguments),
    ensures
        gives_plain(cx, open, reconstruct_call(cx, state, input)),
    decreases input, 0int,
{
    reveal(reconstruct_call);
    reveal(reconstruct_list);
    lemma_list(cx, false, state, input.arguments);
}

proof fn lemma_optional(cx: Context, open: bool, state: State, expression: Option<Expression>)
    requires
        is_regular_state(cx, state),
        option_is_direct(cx, open, expression),
    ensures
        reconstruct_optional(cx, state, expression) matches Ok((after, (value, _)))
            ==> is_regular_state(cx, after) && option_is_plain(cx, open, value),
    decreases expression, 1int,
{
    reveal(is_direct);
    reveal(are_direct);
    reveal(option_is_direct);
    reveal(kind_is_direct);
    reveal(fields_are_direct);
    reveal(reconstruct_optional);
    reveal(reconstruct_expression);
    if let Some(expression) = expression {
        lemma_source(cx, open, state, expression);
    }
}

proof fn lemma_composite(cx: Context, open: bool, state: State, input: CompositeExpression)
    requires
        is_regular_state(cx, state),
        are_direct(cx, open, input.const_arguments),
        fields_are_direct(cx, open, input.members),
        option_is_direct(cx, open, input.base),
    ensures
        gives_plain(cx, open, reconstruct_composite_init(cx, state, input)),
    decreases input, 0int,
{
    reveal(reconstruct_composite_init);
    reveal(reconstruct_list);
    reveal(reconstruct_members);
    reveal(reconstruct_optional);
    lemma_list(cx, open, state, input.const_arguments);
    if let Ok((state, _)) = reconstruct_list(cx, state, input.const_arguments) {
        lemma_members(cx, open, state, input.members);
        if let Ok((state, _)) = reconstruct_members(cx, state, input.members) {
            lemma_optional(cx, open, state, input.base);
        }
    }
}

proof fn lemma_target(cx: Context, state: State, input: DynamicOpExpression)
    requires
        is_regular_state(cx, state),
        is_direct(cx, false, input.target_program),
        option_is_direct(cx, false, input.network),
    ensures
        reconstruct_target(cx, state, input) matches Ok((after, target)) ==> is_regular_state(
            cx,
            after,
        ) && target_is_plain(cx, target),
    decreases input, 0int,
{
    reveal(is_direct);
    reveal(are_direct);
    reveal(option_is_direct);
    reveal(kind_is_direct);
    reveal(fields_are_direct);
    reveal(reconstruct_target);
    reveal(reconstruct_expression);
    lemma_source(cx, false, state, input.target_program);
    if let Ok((state, _)) = reconstruct_expression(cx, state, input.target_program) {
        if let Some(network) = input.network {
            assert(option_is_direct(cx, false, input.network));
            lemma_source(cx, false, state, network);
        }
    }
}

pub proof fn lemma_dynamic(cx: Context, open: bool, state: State, input: DynamicOpExpression)
    requires
        is_regular_state(cx, state),
        is_direct(cx, false, input.target_program),
        option_is_direct(cx, false, input.network),
        kind_is_direct(cx, open, input.interface, input.kind),
    ensures
        gives_plain(cx, open, reconstruct_dynamic_op(cx, state, input)),
        reconstruct_dynamic_op(cx, state, input) matches Ok((_, (value, _))) ==> {
            &&& value is DynamicOp ==> !(input.kind is Read) && (open || input.kind is Call)
            &&& !(value is DynamicOp) ==> is_plain(cx, false, value)
        },
    decreases input, 1int,
{
    reveal(reconstruct_dynamic_op);
    reveal(reconstruct_target);
    reveal(reconstruct_expression);
    reveal(reconstruct_list);
    reveal(finish_dynamic_operands);
    reveal(kind_is_direct);
    reveal(are_direct);
    reveal(is_direct);
    reveal(kind_is_plain);
    lemma_target(cx, state, input);
    if let Ok((state, target)) = reconstruct_target(cx, state, input) {
        match input.kind {
            DynamicOpKind::Read { storage } => {
                lemma_dynamic_read(cx, state, target, input.interface, storage, input.span);
            },
            DynamicOpKind::Op { member, op, arguments } => {
                assert(are_direct(cx, true, arguments) || vector_of_member(
                    cx,
                    input.interface,
                    member,
                ) == Ok::<Option<Type>, Halt>(None));
                match vector_of_member(cx, input.interface, member) {
                    Err(_) => {},
                    Ok(Some(element)) => {
                        lemma_element(cx, input.interface, member);
                        lemma_dynamic_vector_len(cx, state, target, member, input.span);
                        lemma_network(cx, state, target);
                        if let List::Cons(index, _) = arguments {
                            let (state, network) = target_network(state, target);
                            lemma_index(cx, state, index);
                            lemma_dynamic_get(
                                cx,
                                state,
                                target,
                                network,
                                member,
                                element,
                                index,
                                reconstruct_expression(cx, state, index),
                                input.span,
                            );
                        }
                    },
                    Ok(None) => {
                        lemma_list(cx, true, state, arguments);
                    },
                }
            },
            DynamicOpKind::Call { arguments, .. } => {
                lemma_list(cx, open, state, arguments);
            },
        }
    }
    lemma_widened(cx, reconstruct_dynamic_op(cx, state, input));
}

proof fn lemma_widened(cx: Context, step: Step<Lowered>)
    ensures
        gives_plain(cx, false, step) ==> gives_plain(cx, true, step),
{
    if let Ok((_, (value, _))) = step {
        if is_plain(cx, false, value) {
            lemma_opens(cx, value);
        }
    }
}

/// An operand is lowered to a plain expression without dynamic accesses if it may go unevaluated.
proof fn lemma_index(cx: Context, state: State, index: Expression)
    requires
        is_regular_state(cx, state),
        is_direct(cx, true, index),
    ensures
        gives_plain(cx, true, reconstruct_expression(cx, state, index)),
        can_be_discarded(state.types, index) ==> gives_plain(
            cx,
            false,
            reconstruct_expression(cx, state, index),
        ),
    decreases index, 1int,
{
    reveal(reconstruct_expression);
    lemma_source(cx, true, state, index);
    if can_be_discarded(state.types, index) {
        lemma_discardable(state.types, index);
        lemma_quiet(cx, index);
        lemma_source(cx, false, state, index);
    }
}

proof fn lemma_strict(cx: Context, lowered: Step<Lowered>)
    requires
        gives_plain(cx, true, lowered),
    ensures
        gives_plain(cx, false, finish_strict(cx, lowered)),
{
    reveal(finish_strict);
    if let Ok((state, (value, _))) = lowered {
        lemma_materialize(cx, true, state, value);
    }
}

/* Types */

pub proof fn lemma_type(cx: Context, state: State, type_: Type)
    requires
        is_regular_state(cx, state),
        type_is_plain(cx, type_),
    ensures
        reconstruct_type(cx, state, type_) matches Ok(
            (after, (lowered, _)),
        ) ==> is_regular_state(cx, after)
            && type_is_plain(cx, lowered),
    decreases type_, 0int,
{
    reveal(type_is_plain);
    reveal(types_are_plain);
    reveal(reconstruct_type);
    reveal(reconstruct_types);
    reveal(reconstruct_expression);
    reveal(reconstruct_list);
    match type_ {
        Type::Array(array) => {
            lemma_direct(cx, false, copied(&array.length));
            lemma_source(cx, false, state, copied(&array.length));
            if let Ok((state, _)) = reconstruct_expression(cx, state, copied(&array.length)) {
                lemma_type(cx, state, copied(&array.element_type));
            }
        },
        Type::Composite(composite) => {
            lemma_direct_list(cx, false, copied(&composite.const_arguments));
            lemma_list(cx, false, state, copied(&composite.const_arguments));
        },
        Type::Future(future) => {
            lemma_types(cx, state, copied(&future.inputs));
        },
        Type::Mapping(mapping) => {
            lemma_type(cx, state, copied(&mapping.key));
            if let Ok((state, _)) = reconstruct_type(cx, state, copied(&mapping.key)) {
                lemma_type(cx, state, copied(&mapping.value));
            }
        },
        Type::Optional(inner) => {
            lemma_type(cx, state, copied(&*inner));
        },
        Type::Tuple(elements) => {
            lemma_types(cx, state, copied(&*elements));
        },
        Type::Vector(element) => {
            lemma_type(cx, state, copied(&*element));
        },
        _ => {},
    }
}

proof fn lemma_types(cx: Context, state: State, types: List<Type>)
    requires
        is_regular_state(cx, state),
        types_are_plain(cx, types),
    ensures
        reconstruct_types(
            cx,
            state,
            types,
        ) matches Ok((after, lowered)) ==> is_regular_state(cx, after)
            && types_are_plain(cx, lowered),
    decreases types, 0int,
{
    reveal(types_are_plain);
    reveal(type_is_plain);
    reveal(reconstruct_types);
    reveal(reconstruct_type);
    if let List::Cons(first, rest) = &types {
        lemma_type(cx, state, copied(first));
        if let Ok((state, _)) = reconstruct_type(cx, state, copied(first)) {
            lemma_types(cx, state, copied(&**rest));
        }
    }
}

proof fn lemma_type_parameters(cx: Context, state: State, types: List<TypeParameter>)
    requires
        is_regular_state(cx, state),
        parameters_are_plain(cx, types),
    ensures
        reconstruct_type_parameters(
            cx,
            state,
            types,
        ) matches Ok((after, lowered)) ==> is_regular_state(cx, after)
            && parameters_are_plain(cx, lowered),
    decreases types, 0int,
{
    reveal(parameters_are_plain);
    reveal(type_is_plain);
    reveal(reconstruct_type_parameters);
    reveal(reconstruct_type);
    if let List::Cons(first, rest) = &types {
        lemma_type(cx, state, copied(&first.type_));
        if let Ok((state, _)) = reconstruct_type(cx, state, copied(&first.type_)) {
            lemma_type_parameters(cx, state, copied(&**rest));
        }
    }
}

proof fn lemma_moded_types(cx: Context, state: State, types: List<ModedType>)
    requires
        is_regular_state(cx, state),
        moded_are_plain(cx, types),
    ensures
        reconstruct_moded_types(
            cx,
            state,
            types,
        ) matches Ok((after, lowered)) ==> is_regular_state(cx, after)
            && moded_are_plain(cx, lowered),
    decreases types, 0int,
{
    reveal(moded_are_plain);
    reveal(type_is_plain);
    reveal(reconstruct_moded_types);
    reveal(reconstruct_type);
    if let List::Cons(first, rest) = &types {
        lemma_type(cx, state, copied(&first.type_));
        if let Ok((state, _)) = reconstruct_type(cx, state, copied(&first.type_)) {
            lemma_moded_types(cx, state, copied(&**rest));
        }
    }
}

/* Built-in operations */

proof fn lemma_vector_push(cx: Context, state: State, input: IntrinsicExpression)
    requires
        is_regular_state(cx, state),
        input.arguments matches List::Cons(_, values) ==> are_direct(cx, true, *values),
    ensures
        gives_plain(cx, false, reconstruct_vector_push(cx, state, input)),
    decreases input, 0int,
{
    reveal(reconstruct_vector_push);
    reveal(reconstruct_expression);
    reveal(are_direct);
    reveal(is_direct);
    if let List::Cons(vector, rest) = &input.arguments {
        if let List::Cons(value, _) = &**rest {
            let (vector, value) = (copied(vector), copied(value));
            lemma_index(cx, state, value);
            let lowered = reconstruct_expression(cx, state, value);
            lemma_finish_push(cx, state, vector, value, lowered, input.span);
        }
    }
}

proof fn lemma_vector_get(cx: Context, state: State, input: IntrinsicExpression)
    requires
        is_regular_state(cx, state),
        input.arguments matches List::Cons(_, values) ==> are_direct(cx, true, *values),
    ensures
        gives_plain(cx, false, reconstruct_vector_get(cx, state, input)),
    decreases input, 0int,
{
    reveal(reconstruct_vector_get);
    reveal(reconstruct_expression);
    reveal(are_direct);
    reveal(is_direct);
    if let List::Cons(vector, rest) = &input.arguments {
        if let List::Cons(index, _) = &**rest {
            let (vector, index) = (copied(vector), copied(index));
            lemma_index(cx, state, index);
            let lowered = reconstruct_expression(cx, state, index);
            lemma_finish_get(cx, state, vector, index, lowered, input.span);
        }
    }
}

proof fn lemma_vector_set(cx: Context, state: State, input: IntrinsicExpression)
    requires
        is_regular_state(cx, state),
        input.arguments matches List::Cons(_, values) ==> are_direct(cx, true, *values),
    ensures
        gives_plain(cx, false, reconstruct_vector_set(cx, state, input)),
    decreases input, 0int,
{
    reveal(reconstruct_vector_set);
    reveal(reconstruct_expression);
    reveal(are_direct);
    reveal(is_direct);
    if let List::Cons(vector, rest) = &input.arguments {
        if let List::Cons(index, rest) = &**rest {
            assert(are_direct(cx, true, copied(&**rest)));
            if let List::Cons(value, _) = &**rest {
                let (vector, index, value) = (copied(vector), copied(index), copied(value));
                lemma_source(cx, true, state, index);
                lemma_strict(cx, reconstruct_expression(cx, state, index));
                if let Ok((after, bound)) = finish_strict(
                    cx,
                    reconstruct_expression(cx, state, index),
                ) {
                    lemma_source(cx, true, after, value);
                    lemma_strict(cx, reconstruct_expression(cx, after, value));
                    lemma_finish_set(
                        cx,
                        state,
                        vector,
                        bound,
                        finish_strict(cx, reconstruct_expression(cx, after, value)),
                        input.span,
                    );
                }
            }
        }
    }
}

proof fn lemma_vector_swap_remove(cx: Context, state: State, input: IntrinsicExpression)
    requires
        is_regular_state(cx, state),
        input.arguments matches List::Cons(_, values) ==> are_direct(cx, true, *values),
    ensures
        gives_plain(cx, false, reconstruct_vector_swap_remove(cx, state, input)),
    decreases input, 0int,
{
    reveal(reconstruct_vector_swap_remove);
    reveal(reconstruct_expression);
    reveal(are_direct);
    reveal(is_direct);
    if let List::Cons(vector, rest) = &input.arguments {
        if let List::Cons(index, _) = &**rest {
            let (vector, index) = (copied(vector), copied(index));
            lemma_source(cx, true, state, index);
            let lowered = reconstruct_expression(cx, state, index);
            lemma_strict(cx, lowered);
            lemma_finish_swap_remove(cx, state, vector, finish_strict(cx, lowered), input.span);
        }
    }
}

proof fn lemma_other(cx: Context, state: State, input: IntrinsicExpression)
    requires
        is_regular_state(cx, state),
        !takes_vector(input.op),
        parameters_are_plain(cx, input.type_parameters),
        moded_are_plain(cx, input.input_types),
        moded_are_plain(cx, input.return_types),
        are_direct(cx, false, input.arguments),
    ensures
        gives_plain(cx, false, reconstruct_other_intrinsic(cx, state, input)),
    decreases input, 0int,
{
    reveal(reconstruct_other_intrinsic);
    reveal(reconstruct_type_parameters);
    reveal(reconstruct_moded_types);
    reveal(reconstruct_list);
    lemma_type_parameters(cx, state, input.type_parameters);
    if let Ok((state, _)) = reconstruct_type_parameters(cx, state, input.type_parameters) {
        lemma_moded_types(cx, state, input.input_types);
        if let Ok((state, _)) = reconstruct_moded_types(cx, state, input.input_types) {
            lemma_moded_types(cx, state, input.return_types);
            if let Ok((state, _)) = reconstruct_moded_types(cx, state, input.return_types) {
                lemma_list(cx, false, state, input.arguments);
            }
        }
    }
}

pub proof fn lemma_intrinsic(cx: Context, open: bool, state: State, input: IntrinsicExpression)
    requires
        is_regular_state(cx, state),
        parameters_are_plain(cx, input.type_parameters),
        moded_are_plain(cx, input.input_types),
        moded_are_plain(cx, input.return_types),
        takes_vector(input.op) ==> (input.arguments matches List::Cons(_, values) ==> are_direct(
            cx,
            true,
            *values,
        )),
        !takes_vector(input.op) ==> are_direct(cx, false, input.arguments),
    ensures
        gives_plain(cx, open, reconstruct_intrinsic(cx, state, input)),
    decreases input, 1int,
{
    reveal(reconstruct_intrinsic);
    reveal(reconstruct_vector_push);
    reveal(reconstruct_vector_get);
    reveal(reconstruct_vector_set);
    reveal(reconstruct_vector_swap_remove);
    reveal(reconstruct_other_intrinsic);
    match input.op {
        Intrinsic::VectorPush => {
            lemma_vector_push(cx, state, input);
        },
        Intrinsic::VectorGet => {
            lemma_vector_get(cx, state, input);
        },
        Intrinsic::VectorSet => {
            lemma_vector_set(cx, state, input);
        },
        Intrinsic::VectorSwapRemove => {
            lemma_vector_swap_remove(cx, state, input);
        },
        Intrinsic::VectorLen => {
            if let Some((path, _)) = only_vector(state, input.arguments) {
                lemma_len(cx, state, path, input.span);
            }
        },
        Intrinsic::VectorPop => {
            if let List::Cons(vector, _) = input.arguments {
                lemma_vector_argument(cx, state, vector);
            }
            if let Some((path, element)) = only_vector(state, input.arguments) {
                lemma_pop(cx, state, path, element, input.span);
            }
        },
        Intrinsic::VectorClear => {
            if let Some((path, _)) = only_vector(state, input.arguments) {
                lemma_clear(cx, state, path, input.span);
            }
        },
        _ => {
            lemma_other(cx, state, input);
        },
    }
    lemma_widened(cx, reconstruct_intrinsic(cx, state, input));
}

} // verus!
