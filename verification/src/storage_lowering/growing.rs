//! Lowering only adds names.
use crate::ast::{
    CallExpression, CompositeExpression, DynamicOpExpression, DynamicOpKind, Expression,
    FieldInitializer, Identifier, Intrinsic, IntrinsicExpression, ModedType, Path, Span, Type,
    TypeParameter,
};
use crate::list::{copied, List};
use crate::names::{interned, keeps, lemma_position, Texts};
use crate::state::{struct_in, with_id, State, StructSymbol};
use crate::storage_lowering::builders::{
    bind_value, generate_vector_mapping_exprs, get_vector_len_expr,
};
use crate::storage_lowering::dynamic::{
    dynamic_len, finish_dynamic_operands, finish_dynamic_read, finish_dynamic_vector_get,
    finish_dynamic_vector_len, get_dynamic, read_dynamic, target_network, vector_of_member, Target,
};
use crate::storage_lowering::reconstruct::{
    only_vector, reconstruct_call, reconstruct_composite_init, reconstruct_dynamic_op,
    reconstruct_expression, reconstruct_intrinsic, reconstruct_list, reconstruct_members,
    reconstruct_moded_types, reconstruct_optional, reconstruct_other_intrinsic, reconstruct_target,
    reconstruct_type, reconstruct_type_parameters, reconstruct_types, reconstruct_vector_get,
    reconstruct_vector_push, reconstruct_vector_set, reconstruct_vector_swap_remove,
};
use crate::storage_lowering::vectors::{
    bind_once, bind_vector, clear_vector, finish_get, finish_once, finish_push, finish_set,
    finish_strict, finish_swap_remove, get_value, materialize_strict_prefix_expression, pop_value,
    push_value, set_value, swap_remove_value, vector_argument, vector_len, Lowered,
};
use crate::storage_lowering::visitor::{Context, Step};
use crate::storage_lowering::zero::{read_storage, reconstruct_path, zero, zero_members, zero_value};
use crate::units::Member;
use vstd::prelude::*;

verus! {

/// Whether `names` holds what `base` holds, and perhaps more behind it.
#[verifier::opaque]
pub open spec fn grown(base: Texts, names: Texts) -> bool {
    keeps(base, names)
}

pub broadcast proof fn interning_grows(base: Texts, names: Texts, text: Seq<char>)
    requires
        grown(base, names),
    ensures
        #[trigger] grown(base, interned(names, text).0),
{
    reveal(grown);
    lemma_position(names, text);
    let after = interned(names, text).0;
    assert forall|i: int| 0 <= i < base.len() implies #[trigger] after[i] == base[i] by {
        assert(names[i] == base[i]);
    }
}

/// Whether `step` only added names.
pub open spec fn gives_grown<T>(base: Texts, step: Step<T>) -> bool {
    step matches Ok((after, _)) ==> grown(base, after.names)
}

pub proof fn lemma_get_vector_len_expr(base: Texts, state: State, length: Expression, span: Span)
    requires
        grown(base, state.names),
    ensures
        grown(base, get_vector_len_expr(state, length, span).0.names),
{
    broadcast use interning_grows;

    reveal(get_vector_len_expr);
}

pub proof fn lemma_generate_vector_mapping_exprs(base: Texts, cx: Context, state: State, path: Path)
    requires
        grown(base, state.names),
    ensures
        grown(base, generate_vector_mapping_exprs(cx, state, path).0.names),
{
    broadcast use interning_grows;

    reveal(generate_vector_mapping_exprs);
}

pub proof fn lemma_bind_value(
    base: Texts,
    state: State,
    stem: Seq<char>,
    value: Expression,
    type_: Type,
)
    requires
        grown(base, state.names),
    ensures
        grown(base, bind_value(state, stem, value, type_).0.names),
{
    broadcast use interning_grows;

    reveal(bind_value);
}

pub proof fn lemma_bind_vector(base: Texts, cx: Context, state: State, path: Path, span: Span)
    requires
        grown(base, state.names),
    ensures
        grown(base, bind_vector(cx, state, path, span).0.names),
{
    broadcast use interning_grows;

    reveal(bind_vector);
    lemma_generate_vector_mapping_exprs(base, cx, state, path);
    assert forall|other: State, length: Expression| grown(base, other.names) implies grown(
        base,
        (#[trigger] get_vector_len_expr(other, length, span)).0.names,
    ) by {
        lemma_get_vector_len_expr(base, other, length, span);
    }
}

proof fn lemma_zero_value(
    base: Texts,
    cx: Context,
    nesting: List<StructSymbol>,
    state: State,
    type_: Type,
)
    requires
        grown(base, state.names),
    ensures
        gives_grown(base, zero_value(cx, nesting, state, type_)),
    decreases nesting, 0int, type_,
{
    broadcast use interning_grows;

    reveal(zero_value);
    reveal(zero_members);
    match type_ {
        Type::Array(array) => {
            lemma_zero_value(base, cx, nesting, with_id(state), copied(&array.element_type));
        },
        Type::Composite(composite) => {
            if let List::Cons(_, rest) = nesting {
                if let Some(location) = copied(&*composite.path).spec_try_global_location() {
                    if let Some(members) = struct_in(cx.table.structs, cx.program, location) {
                        lemma_zero_members(base, cx, copied(&*rest), with_id(state), members);
                    }
                }
            }
        },
        _ => {},
    }
}

proof fn lemma_zero_members(
    base: Texts,
    cx: Context,
    nesting: List<StructSymbol>,
    state: State,
    members: List<Member>,
)
    requires
        grown(base, state.names),
    ensures
        gives_grown(base, zero_members(cx, nesting, state, members)),
    decreases nesting, 1int, members,
{
    reveal(zero_members);
    reveal(zero_value);
    if let List::Cons(member, rest) = members {
        let started = with_id(state);
        lemma_zero_value(base, cx, nesting, started, copied(&member.type_));
        if let Ok((state, _)) = zero_value(cx, nesting, started, copied(&member.type_)) {
            lemma_zero_members(base, cx, nesting, with_id(state), copied(&*rest));
        }
    }
}

proof fn lemma_zeros(base: Texts, cx: Context)
    ensures
        forall|state: State, type_: Type|
            grown(base, state.names) ==> gives_grown(base, #[trigger] zero(cx, state, type_)),
{
    assert forall|state: State, type_: Type| grown(base, state.names) implies gives_grown(
        base,
        #[trigger] zero(cx, state, type_),
    ) by {
        reveal(zero);
        lemma_zero_value(base, cx, cx.table.structs, state, type_);
    }
}

pub proof fn lemma_push_value(
    base: Texts,
    cx: Context,
    state: State,
    path: Path,
    value: Expression,
    span: Span,
)
    requires
        grown(base, state.names),
    ensures
        grown(base, push_value(cx, state, path, value, span).0.names),
{
    broadcast use interning_grows;

    reveal(push_value);
    lemma_bind_vector(base, cx, state, path, span);
}

pub proof fn lemma_vector_len(base: Texts, cx: Context, state: State, path: Path, span: Span)
    requires
        grown(base, state.names),
    ensures
        grown(base, vector_len(cx, state, path, span).0.names),
{
    broadcast use interning_grows;

    reveal(vector_len);
    lemma_generate_vector_mapping_exprs(base, cx, state, path);
    assert forall|other: State, length: Expression| grown(base, other.names) implies grown(
        base,
        (#[trigger] get_vector_len_expr(other, length, span)).0.names,
    ) by {
        lemma_get_vector_len_expr(base, other, length, span);
    }
}

pub proof fn lemma_pop_value(
    base: Texts,
    cx: Context,
    state: State,
    path: Path,
    element: Type,
    span: Span,
)
    requires
        grown(base, state.names),
    ensures
        gives_grown(base, pop_value(cx, state, path, element, span)),
{
    broadcast use interning_grows;

    reveal(pop_value);
    lemma_bind_vector(base, cx, state, path, span);
    lemma_zeros(base, cx);
}

pub proof fn lemma_get_value(
    base: Texts,
    cx: Context,
    state: State,
    path: Path,
    element: Type,
    index: Expression,
    span: Span,
)
    requires
        grown(base, state.names),
    ensures
        gives_grown(base, get_value(cx, state, path, element, index, span)),
{
    broadcast use interning_grows;

    reveal(get_value);
    lemma_bind_vector(base, cx, state, path, span);
    lemma_zeros(base, cx);
}

pub proof fn lemma_set_value(
    base: Texts,
    cx: Context,
    state: State,
    path: Path,
    index: Expression,
    value: Expression,
    span: Span,
)
    requires
        grown(base, state.names),
    ensures
        grown(base, set_value(cx, state, path, index, value, span).0.names),
{
    broadcast use interning_grows;

    reveal(set_value);
    lemma_bind_vector(base, cx, state, path, span);
}

pub proof fn lemma_clear_vector(base: Texts, cx: Context, state: State, path: Path, span: Span)
    requires
        grown(base, state.names),
    ensures
        grown(base, clear_vector(cx, state, path, span).0.names),
{
    broadcast use interning_grows;

    reveal(clear_vector);
    lemma_generate_vector_mapping_exprs(base, cx, state, path);
    assert forall|other: State, length: Expression| grown(base, other.names) implies grown(
        base,
        (#[trigger] get_vector_len_expr(other, length, span)).0.names,
    ) by {
        lemma_get_vector_len_expr(base, other, length, span);
    }
}

pub proof fn lemma_swap_remove_value(
    base: Texts,
    cx: Context,
    state: State,
    path: Path,
    index: Expression,
    span: Span,
)
    requires
        grown(base, state.names),
    ensures
        grown(base, swap_remove_value(cx, state, path, index, span).0.names),
{
    broadcast use interning_grows;

    reveal(swap_remove_value);
    lemma_bind_vector(base, cx, state, path, span);
}

pub proof fn lemma_materialize_strict_prefix_expression(
    base: Texts,
    cx: Context,
    state: State,
    expression: Expression,
)
    requires
        grown(base, state.names),
    ensures
        gives_grown(base, materialize_strict_prefix_expression(cx, state, expression)),
{
    broadcast use interning_grows;

    reveal(materialize_strict_prefix_expression);
    assert forall|type_: Type| grown(
        base,
        (#[trigger] bind_value(state, "$eval"@, expression, type_)).0.names,
    ) by {
        lemma_bind_value(base, state, "$eval"@, expression, type_);
    }
}

pub proof fn lemma_finish_once(
    base: Texts,
    before: State,
    argument: Expression,
    stem: Seq<char>,
    lowered: Step<Lowered>,
)
    requires
        gives_grown(base, lowered),
    ensures
        gives_grown(base, finish_once(before, argument, stem, lowered)),
{
    broadcast use interning_grows;

    reveal(finish_once);
    reveal(bind_once);
    assert forall|state: State, value: Expression, type_: Type| grown(
        base,
        state.names,
    ) implies grown(
        base,
        (#[trigger] bind_value(state, stem, value, type_)).0.names,
    ) by {
        lemma_bind_value(base, state, stem, value, type_);
    }
}

pub proof fn lemma_finish_strict(base: Texts, cx: Context, lowered: Step<Lowered>)
    requires
        gives_grown(base, lowered),
    ensures
        gives_grown(base, finish_strict(cx, lowered)),
{
    broadcast use interning_grows;

    reveal(finish_strict);
    if let Ok((state, (value, _))) = lowered {
        lemma_materialize_strict_prefix_expression(base, cx, state, value);
    }
}

pub proof fn lemma_finish_push(
    base: Texts,
    cx: Context,
    before: State,
    vector: Expression,
    value: Expression,
    lowered: Step<Lowered>,
    span: Span,
)
    requires
        gives_grown(base, lowered),
    ensures
        gives_grown(base, finish_push(cx, before, vector, value, lowered, span)),
{
    broadcast use interning_grows;

    reveal(finish_push);
    lemma_finish_once(base, before, value, "$push_value"@, lowered);
    if let Some((path, element)) = vector_argument(before, vector) {
        if let Ok((state, (value, _))) = finish_once(before, value, "$push_value"@, lowered) {
            lemma_push_value(base, cx, state, path, value, span);
        }
    }
}

pub proof fn lemma_finish_get(
    base: Texts,
    cx: Context,
    before: State,
    vector: Expression,
    value: Expression,
    lowered: Step<Lowered>,
    span: Span,
)
    requires
        gives_grown(base, lowered),
    ensures
        gives_grown(base, finish_get(cx, before, vector, value, lowered, span)),
{
    broadcast use interning_grows;

    reveal(finish_get);
    lemma_finish_once(base, before, value, "$index"@, lowered);
    if let Some((path, element)) = vector_argument(before, vector) {
        if let Ok((state, (value, _))) = finish_once(before, value, "$index"@, lowered) {
            lemma_get_value(base, cx, state, path, element, value, span);
        }
    }
}

pub proof fn lemma_finish_set(
    base: Texts,
    cx: Context,
    before: State,
    vector: Expression,
    index: Lowered,
    lowered: Step<Lowered>,
    span: Span,
)
    requires
        gives_grown(base, lowered),
    ensures
        gives_grown(base, finish_set(cx, before, vector, index, lowered, span)),
{
    broadcast use interning_grows;

    reveal(finish_set);
    if let Some((path, _)) = vector_argument(before, vector) {
        if let Ok((state, (value, _))) = lowered {
            lemma_set_value(base, cx, state, path, index.0, value, span);
        }
    }
}

pub proof fn lemma_finish_swap_remove(
    base: Texts,
    cx: Context,
    before: State,
    vector: Expression,
    lowered: Step<Lowered>,
    span: Span,
)
    requires
        gives_grown(base, lowered),
    ensures
        gives_grown(base, finish_swap_remove(cx, before, vector, lowered, span)),
{
    broadcast use interning_grows;

    reveal(finish_swap_remove);
    if let Some((path, _)) = vector_argument(before, vector) {
        if let Ok((state, (index, _))) = lowered {
            lemma_swap_remove_value(base, cx, state, path, index, span);
        }
    }
}

pub proof fn lemma_reconstruct_path(base: Texts, cx: Context, state: State, path: Path)
    requires
        grown(base, state.names),
    ensures
        gives_grown(base, reconstruct_path(cx, state, path)),
{
    broadcast use interning_grows;

    reveal(reconstruct_path);
    reveal(read_storage);
    lemma_zeros(base, cx);
}

pub proof fn lemma_finish_dynamic_read(
    base: Texts,
    cx: Context,
    state: State,
    target: Target,
    interface: Type,
    storage: Identifier,
    span: Span,
)
    requires
        grown(base, state.names),
    ensures
        gives_grown(base, finish_dynamic_read(cx, state, target, interface, storage, span)),
{
    broadcast use interning_grows;

    reveal(finish_dynamic_read);
    reveal(read_dynamic);
    lemma_zeros(base, cx);
}

pub proof fn lemma_get_dynamic(
    base: Texts,
    cx: Context,
    state: State,
    program: Expression,
    network: Expression,
    member: Identifier,
    element: Type,
    index: Expression,
    span: Span,
)
    requires
        grown(base, state.names),
    ensures
        gives_grown(base, get_dynamic(cx, state, program, network, member, element, index, span)),
{
    broadcast use interning_grows;

    reveal(get_dynamic);
    reveal(dynamic_len);
    lemma_zeros(base, cx);
}

pub proof fn lemma_finish_dynamic_vector_get(
    base: Texts,
    cx: Context,
    before: State,
    target: Target,
    network: Expression,
    member: Identifier,
    element: Type,
    index: Expression,
    lowered: Step<Lowered>,
    span: Span,
)
    requires
        gives_grown(base, lowered),
    ensures
        gives_grown(
            base,
            finish_dynamic_vector_get(
                cx,
                before,
                target,
                network,
                member,
                element,
                index,
                lowered,
                span,
            ),
        ),
{
    broadcast use interning_grows;

    reveal(finish_dynamic_vector_get);
    lemma_finish_once(base, before, index, "$index"@, lowered);
    if let Ok((state, (index, _))) = finish_once(before, index, "$index"@, lowered) {
        lemma_get_dynamic(base, cx, state, target.program, network, member, element, index, span);
    }
}

pub proof fn lemma_finish_dynamic_vector_len(
    base: Texts,
    state: State,
    target: Target,
    member: Identifier,
    span: Span,
)
    requires
        grown(base, state.names),
    ensures
        grown(base, finish_dynamic_vector_len(state, target, member, span).0.names),
{
    broadcast use interning_grows;

    reveal(finish_dynamic_vector_len);
    reveal(dynamic_len);
}

pub proof fn lemma_source(base: Texts, cx: Context, state: State, expression: Expression)
    requires
        grown(base, state.names),
    ensures
        gives_grown(base, reconstruct_expression(cx, state, expression)),
    decreases expression, 0int,
{
    reveal(reconstruct_expression);
    reveal(reconstruct_list);
    reveal(reconstruct_call);
    reveal(reconstruct_composite_init);
    reveal(reconstruct_dynamic_op);
    reveal(reconstruct_intrinsic);
    match expression {
        Expression::Array(input) => {
            lemma_list(base, cx, state, copied(&input.elements));
        },
        Expression::ArrayAccess(input) => {
            lemma_source(base, cx, state, copied(&input.array));
            if let Ok((state, _)) = reconstruct_expression(cx, state, copied(&input.array)) {
                lemma_source(base, cx, state, copied(&input.index));
            }
        },
        Expression::Binary(input) => {
            lemma_source(base, cx, state, copied(&input.left));
            if let Ok((state, _)) = reconstruct_expression(cx, state, copied(&input.left)) {
                lemma_source(base, cx, state, copied(&input.right));
            }
        },
        Expression::Call(input) => {
            lemma_call(base, cx, state, copied(&*input));
        },
        Expression::Cast(input) => {
            lemma_source(base, cx, state, copied(&input.expression));
        },
        Expression::Composite(input) => {
            lemma_composite(base, cx, state, copied(&*input));
        },
        Expression::DynamicOp(input) => {
            lemma_dynamic(base, cx, state, copied(&*input));
        },
        Expression::Intrinsic(input) => {
            lemma_intrinsic(base, cx, state, copied(&*input));
        },
        Expression::MemberAccess(input) => {
            lemma_source(base, cx, state, copied(&input.inner));
        },
        Expression::Path(path) => {
            lemma_reconstruct_path(base, cx, state, copied(&*path));
        },
        Expression::Repeat(input) => {
            lemma_source(base, cx, state, copied(&input.expr));
            if let Ok((state, _)) = reconstruct_expression(cx, state, copied(&input.expr)) {
                lemma_source(base, cx, state, copied(&input.count));
            }
        },
        Expression::Ternary(input) => {
            lemma_source(base, cx, state, copied(&input.condition));
            if let Ok((state, _)) = reconstruct_expression(cx, state, copied(&input.condition)) {
                lemma_source(base, cx, state, copied(&input.if_true));
                if let Ok((state, _)) = reconstruct_expression(cx, state, copied(&input.if_true)) {
                    lemma_source(base, cx, state, copied(&input.if_false));
                }
            }
        },
        Expression::Tuple(input) => {
            lemma_list(base, cx, state, copied(&input.elements));
        },
        Expression::TupleAccess(input) => {
            lemma_source(base, cx, state, copied(&input.tuple));
        },
        Expression::Unary(input) => {
            lemma_source(base, cx, state, copied(&input.receiver));
        },
        _ => {
                },
    }
}

pub proof fn lemma_list(base: Texts, cx: Context, state: State, expressions: List<Expression>)
    requires
        grown(base, state.names),
    ensures
        gives_grown(base, reconstruct_list(cx, state, expressions)),
    decreases expressions, 0int,
{
    reveal(reconstruct_list);
    reveal(reconstruct_expression);
    match expressions {
        List::Nil => {},
        List::Cons(first, rest) => {
            lemma_source(base, cx, state, first);
            if let Ok((state, _)) = reconstruct_expression(cx, state, first) {
                lemma_list(base, cx, state, copied(&*rest));
            }
        },
    }
}

pub proof fn lemma_members(base: Texts, cx: Context, state: State, members: List<FieldInitializer>)
    requires
        grown(base, state.names),
    ensures
        gives_grown(base, reconstruct_members(cx, state, members)),
    decreases members, 0int,
{
    reveal(reconstruct_members);
    reveal(reconstruct_expression);
    match members {
        List::Nil => {},
        List::Cons(first, rest) => {
            if let Some(value) = &first.expression {
                lemma_source(base, cx, state, copied(value));
                if let Ok((state, _)) = reconstruct_expression(cx, state, copied(value)) {
                    lemma_members(base, cx, state, copied(&*rest));
                }
            }
        },
    }
}

pub proof fn lemma_call(base: Texts, cx: Context, state: State, input: CallExpression)
    requires
        grown(base, state.names),
    ensures
        gives_grown(base, reconstruct_call(cx, state, input)),
    decreases input, 0int,
{
    reveal(reconstruct_call);
    reveal(reconstruct_list);
    lemma_list(base, cx, state, input.arguments);
}

pub proof fn lemma_optional(base: Texts, cx: Context, state: State, expression: Option<Expression>)
    requires
        grown(base, state.names),
    ensures
        gives_grown(base, reconstruct_optional(cx, state, expression)),
    decreases expression, 1int,
{
    reveal(reconstruct_optional);
    reveal(reconstruct_expression);
    if let Some(expression) = expression {
        lemma_source(base, cx, state, expression);
    }
}

pub proof fn lemma_composite(base: Texts, cx: Context, state: State, input: CompositeExpression)
    requires
        grown(base, state.names),
    ensures
        gives_grown(base, reconstruct_composite_init(cx, state, input)),
    decreases input, 0int,
{
    reveal(reconstruct_composite_init);
    reveal(reconstruct_list);
    reveal(reconstruct_members);
    reveal(reconstruct_optional);
    lemma_list(base, cx, state, input.const_arguments);
    if let Ok((state, _)) = reconstruct_list(cx, state, input.const_arguments) {
        lemma_members(base, cx, state, input.members);
        if let Ok((state, _)) = reconstruct_members(cx, state, input.members) {
            lemma_optional(base, cx, state, input.base);
        }
    }
}

pub proof fn lemma_target(base: Texts, cx: Context, state: State, input: DynamicOpExpression)
    requires
        grown(base, state.names),
    ensures
        gives_grown(base, reconstruct_target(cx, state, input)),
    decreases input, 0int,
{
    reveal(reconstruct_target);
    reveal(reconstruct_expression);
    lemma_source(base, cx, state, input.target_program);
    if let Ok((state, _)) = reconstruct_expression(cx, state, input.target_program) {
        if let Some(network) = input.network {
            lemma_source(base, cx, state, network);
        }
    }
}

pub proof fn lemma_dynamic(base: Texts, cx: Context, state: State, input: DynamicOpExpression)
    requires
        grown(base, state.names),
    ensures
        gives_grown(base, reconstruct_dynamic_op(cx, state, input)),
    decreases input, 1int,
{
    broadcast use interning_grows;

    reveal(reconstruct_dynamic_op);
    reveal(reconstruct_target);
    reveal(reconstruct_expression);
    reveal(reconstruct_list);
    reveal(finish_dynamic_operands);
    lemma_target(base, cx, state, input);
    if let Ok((state, target)) = reconstruct_target(cx, state, input) {
        match input.kind {
            DynamicOpKind::Read { storage } => {
                lemma_finish_dynamic_read(
                    base,
                    cx,
                    state,
                    target,
                    input.interface,
                    storage,
                    input.span,
                );
            },
            DynamicOpKind::Op { member, arguments, .. } => {
                lemma_list(base, cx, state, arguments);
                lemma_finish_dynamic_vector_len(base, state, target, member, input.span);
                if let Ok(Some(element)) = vector_of_member(cx, input.interface, member) {
                    if let List::Cons(index, _) = arguments {
                        let (state, network) = target_network(state, target);
                        lemma_source(base, cx, state, index);
                        lemma_finish_dynamic_vector_get(
                            base,
                            cx,
                            state,
                            target,
                            network,
                            member,
                            element,
                            index,
                            reconstruct_expression(cx, state, index),
                            input.span,
                        );
                    }
                }
            },
            DynamicOpKind::Call { arguments, .. } => {
                lemma_list(base, cx, state, arguments);
            },
        }
    }
}

/* Types */

pub proof fn lemma_type(base: Texts, cx: Context, state: State, type_: Type)
    requires
        grown(base, state.names),
    ensures
        gives_grown(base, reconstruct_type(cx, state, type_)),
    decreases type_, 0int,
{
    reveal(reconstruct_type);
    reveal(reconstruct_types);
    reveal(reconstruct_expression);
    reveal(reconstruct_list);
    match type_ {
        Type::Array(array) => {
            lemma_source(base, cx, state, copied(&array.length));
            if let Ok((state, _)) = reconstruct_expression(cx, state, copied(&array.length)) {
                lemma_type(base, cx, state, copied(&array.element_type));
            }
        },
        Type::Composite(composite) => {
            lemma_list(base, cx, state, copied(&composite.const_arguments));
        },
        Type::Future(future) => {
            lemma_types(base, cx, state, copied(&future.inputs));
        },
        Type::Mapping(mapping) => {
            lemma_type(base, cx, state, copied(&mapping.key));
            if let Ok((state, _)) = reconstruct_type(cx, state, copied(&mapping.key)) {
                lemma_type(base, cx, state, copied(&mapping.value));
            }
        },
        Type::Optional(inner) => {
            lemma_type(base, cx, state, copied(&*inner));
        },
        Type::Tuple(elements) => {
            lemma_types(base, cx, state, copied(&*elements));
        },
        Type::Vector(element) => {
            lemma_type(base, cx, state, copied(&*element));
        },
        _ => {},
    }
}

pub proof fn lemma_types(base: Texts, cx: Context, state: State, types: List<Type>)
    requires
        grown(base, state.names),
    ensures
        gives_grown(base, reconstruct_types(cx, state, types)),
    decreases types, 0int,
{
    reveal(reconstruct_types);
    reveal(reconstruct_type);
    if let List::Cons(first, rest) = &types {
        lemma_type(base, cx, state, copied(first));
        if let Ok((state, _)) = reconstruct_type(cx, state, copied(first)) {
            lemma_types(base, cx, state, copied(&**rest));
        }
    }
}

pub proof fn lemma_type_parameters(
    base: Texts,
    cx: Context,
    state: State,
    types: List<TypeParameter>,
)
    requires
        grown(base, state.names),
    ensures
        gives_grown(base, reconstruct_type_parameters(cx, state, types)),
    decreases types, 0int,
{
    reveal(reconstruct_type_parameters);
    reveal(reconstruct_type);
    if let List::Cons(first, rest) = &types {
        lemma_type(base, cx, state, copied(&first.type_));
        if let Ok((state, _)) = reconstruct_type(cx, state, copied(&first.type_)) {
            lemma_type_parameters(base, cx, state, copied(&**rest));
        }
    }
}

pub proof fn lemma_moded_types(base: Texts, cx: Context, state: State, types: List<ModedType>)
    requires
        grown(base, state.names),
    ensures
        gives_grown(base, reconstruct_moded_types(cx, state, types)),
    decreases types, 0int,
{
    reveal(reconstruct_moded_types);
    reveal(reconstruct_type);
    if let List::Cons(first, rest) = &types {
        lemma_type(base, cx, state, copied(&first.type_));
        if let Ok((state, _)) = reconstruct_type(cx, state, copied(&first.type_)) {
            lemma_moded_types(base, cx, state, copied(&**rest));
        }
    }
}

/* Built-in operations */

pub proof fn lemma_vector_push(base: Texts, cx: Context, state: State, input: IntrinsicExpression)
    requires
        grown(base, state.names),
    ensures
        gives_grown(base, reconstruct_vector_push(cx, state, input)),
    decreases input, 0int,
{
    reveal(reconstruct_vector_push);
    reveal(reconstruct_expression);
    if let List::Cons(vector, rest) = &input.arguments {
        if let List::Cons(value, _) = &**rest {
            let (vector, value) = (copied(vector), copied(value));
            lemma_source(base, cx, state, value);
            let lowered = reconstruct_expression(cx, state, value);
            lemma_finish_push(base, cx, state, vector, value, lowered, input.span);
        }
    }
}

pub proof fn lemma_vector_get(base: Texts, cx: Context, state: State, input: IntrinsicExpression)
    requires
        grown(base, state.names),
    ensures
        gives_grown(base, reconstruct_vector_get(cx, state, input)),
    decreases input, 0int,
{
    reveal(reconstruct_vector_get);
    reveal(reconstruct_expression);
    if let List::Cons(vector, rest) = &input.arguments {
        if let List::Cons(index, _) = &**rest {
            let (vector, index) = (copied(vector), copied(index));
            lemma_source(base, cx, state, index);
            let lowered = reconstruct_expression(cx, state, index);
            lemma_finish_get(base, cx, state, vector, index, lowered, input.span);
        }
    }
}

pub proof fn lemma_vector_set(base: Texts, cx: Context, state: State, input: IntrinsicExpression)
    requires
        grown(base, state.names),
    ensures
        gives_grown(base, reconstruct_vector_set(cx, state, input)),
    decreases input, 0int,
{
    reveal(reconstruct_vector_set);
    reveal(reconstruct_expression);
    if let List::Cons(vector, rest) = &input.arguments {
        if let List::Cons(index, rest) = &**rest {
            if let List::Cons(value, _) = &**rest {
                let (vector, index, value) = (copied(vector), copied(index), copied(value));
                lemma_source(base, cx, state, index);
                lemma_finish_strict(base, cx, reconstruct_expression(cx, state, index));
                if let Ok((after, bound)) = finish_strict(
                    cx,
                    reconstruct_expression(cx, state, index),
                ) {
                    lemma_source(base, cx, after, value);
                    lemma_finish_strict(base, cx, reconstruct_expression(cx, after, value));
                    lemma_finish_set(
                        base,
                        cx,
                        state,
                        vector,
                        bound,
                        finish_strict(cx, reconstruct_expression(cx, after, value)),
                        input.span,
                    );
                }
            }
        }
    }
}

pub proof fn lemma_vector_swap_remove(
    base: Texts,
    cx: Context,
    state: State,
    input: IntrinsicExpression,
)
    requires
        grown(base, state.names),
    ensures
        gives_grown(base, reconstruct_vector_swap_remove(cx, state, input)),
    decreases input, 0int,
{
    reveal(reconstruct_vector_swap_remove);
    reveal(reconstruct_expression);
    if let List::Cons(vector, rest) = &input.arguments {
        if let List::Cons(index, _) = &**rest {
            let (vector, index) = (copied(vector), copied(index));
            lemma_source(base, cx, state, index);
            let lowered = reconstruct_expression(cx, state, index);
            lemma_finish_strict(base, cx, lowered);
            lemma_finish_swap_remove(
                base,
                cx,
                state,
                vector,
                finish_strict(cx, lowered),
                input.span,
            );
        }
    }
}

pub proof fn lemma_other(base: Texts, cx: Context, state: State, input: IntrinsicExpression)
    requires
        grown(base, state.names),
    ensures
        gives_grown(base, reconstruct_other_intrinsic(cx, state, input)),
    decreases input, 0int,
{
    reveal(reconstruct_other_intrinsic);
    reveal(reconstruct_type_parameters);
    reveal(reconstruct_moded_types);
    reveal(reconstruct_list);
    lemma_type_parameters(base, cx, state, input.type_parameters);
    if let Ok((state, _)) = reconstruct_type_parameters(cx, state, input.type_parameters) {
        lemma_moded_types(base, cx, state, input.input_types);
        if let Ok((state, _)) = reconstruct_moded_types(cx, state, input.input_types) {
            lemma_moded_types(base, cx, state, input.return_types);
            if let Ok((state, _)) = reconstruct_moded_types(cx, state, input.return_types) {
                lemma_list(base, cx, state, input.arguments);
            }
        }
    }
}

pub proof fn lemma_intrinsic(base: Texts, cx: Context, state: State, input: IntrinsicExpression)
    requires
        grown(base, state.names),
    ensures
        gives_grown(base, reconstruct_intrinsic(cx, state, input)),
    decreases input, 1int,
{
    reveal(reconstruct_intrinsic);
    reveal(reconstruct_vector_push);
    reveal(reconstruct_vector_get);
    reveal(reconstruct_vector_set);
    reveal(reconstruct_vector_swap_remove);
    reveal(reconstruct_other_intrinsic);
    match input.op {
        Intrinsic::VectorPush => {
            lemma_vector_push(base, cx, state, input);
        },
        Intrinsic::VectorGet => {
            lemma_vector_get(base, cx, state, input);
        },
        Intrinsic::VectorSet => {
            lemma_vector_set(base, cx, state, input);
        },
        Intrinsic::VectorSwapRemove => {
            lemma_vector_swap_remove(base, cx, state, input);
        },
        Intrinsic::VectorLen => {
            if let Some((path, _)) = only_vector(state, input.arguments) {
                lemma_vector_len(base, cx, state, path, input.span);
            }
        },
        Intrinsic::VectorPop => {
            if let Some((path, element)) = only_vector(state, input.arguments) {
                lemma_pop_value(base, cx, state, path, element, input.span);
            }
        },
        Intrinsic::VectorClear => {
            if let Some((path, _)) = only_vector(state, input.arguments) {
                lemma_clear_vector(base, cx, state, path, input.span);
            }
        },
        _ => {
            lemma_other(base, cx, state, input);
        },
    }
}

} // verus!
