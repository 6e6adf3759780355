//! What the builders of lowered expressions make is plain.
use crate::ast::{Expression, Identifier, NodeId, Path, ProgramId, Span, Symbol, Type};
use crate::list::{copied, List};
use crate::names::{interned, text_of};
use crate::purity::can_be_discarded;
use crate::state::{struct_in, with_id, with_suffixed, with_type, State, StructSymbol};
use crate::storage_lowering::builders::{
    bind_value, element_type, fresh_identifier, generate_vector_mapping_exprs, get_vector_len_expr,
    kept_program, mapping_path,
};
use crate::storage_lowering::dynamic::{
    dynamic_len, finish_dynamic_read, finish_dynamic_vector_get, finish_dynamic_vector_len,
    get_dynamic, member_type, read_dynamic, target_network, vector_member, vector_of_member, Target,
};
use crate::storage_lowering::plain::{
    ends_as_mapping, fields_are_plain, group_plain, holds_plain, is_plain, is_regular_state,
    lemma_mapping_path, members_are_plain, option_is_plain, type_is_plain,
};
use crate::storage_lowering::vectors::{
    bind_once, bind_vector, clear_vector, finish_get, finish_once, finish_push, finish_set,
    finish_swap_remove, get_value, once_plan, pop_value, push_value, set_value, swap_remove_value,
    vector_argument, vector_len, BoundVector, Lowered,
};
use crate::storage_lowering::visitor::{path_type, Context, Step};
use crate::storage_lowering::zero::{
    lookup_interface_from_type, read_storage, reconstruct_path, zero, zero_members, zero_value,
};
use crate::units::Member;
use vstd::prelude::*;

verus! {

broadcast use group_plain;

/// Whether what `step` gives, if anything, is plain.
pub open spec fn gives_plain(cx: Context, open: bool, step: Step<Lowered>) -> bool {
    step matches Ok((after, (value, _))) ==> is_regular_state(cx, after) && is_plain(
        cx,
        open,
        value,
    )
}

/// Whether a single expression, given as `step`, is plain.
pub open spec fn makes_plain(cx: Context, step: Step<Expression>) -> bool {
    step matches Ok((after, value)) ==> is_regular_state(cx, after) && is_plain(cx, false, value)
}

/* Zero values and names */

proof fn lemma_zero_value(cx: Context, nesting: List<StructSymbol>, state: State, type_: Type)
    requires
        is_regular_state(cx, state),
        type_is_plain(cx, type_),
    ensures
        makes_plain(cx, zero_value(cx, nesting, state, type_)),
    decreases nesting, 0int, type_,
{
    reveal(zero_value);
    reveal(zero_members);
    reveal(holds_plain);
    match type_ {
        Type::Array(array) => {
            assert(type_ == Type::Array(array));
            lemma_zero_value(cx, nesting, with_id(state), copied(&array.element_type));
        },
        Type::Composite(composite) => {
            if let List::Cons(_, rest) = nesting {
                if let Some(location) = copied(&*composite.path).spec_try_global_location() {
                    if let Some(members) = struct_in(cx.table.structs, cx.program, location) {
                        lemma_zero_members(cx, copied(&*rest), with_id(state), members);
                    }
                }
            }
        },
        _ => {},
    }
}

proof fn lemma_zero_members(
    cx: Context,
    nesting: List<StructSymbol>,
    state: State,
    members: List<Member>,
)
    requires
        is_regular_state(cx, state),
        members_are_plain(cx, members),
    ensures
        zero_members(cx, nesting, state, members) matches Ok((after, fields)) ==> is_regular_state(
            cx,
            after,
        ) && fields_are_plain(cx, false, fields),
    decreases nesting, 1int, members,
{
    reveal(zero_members);
    reveal(zero_value);
    match members {
        List::Nil => {},
        List::Cons(member, rest) => {
            let started = with_id(state);
            lemma_zero_value(cx, nesting, started, copied(&member.type_));
            if let Ok((state, _)) = zero_value(cx, nesting, started, copied(&member.type_)) {
                lemma_zero_members(cx, nesting, with_id(state), copied(&*rest));
            }
        },
    }
}

proof fn lemma_zeros(cx: Context)
    ensures
        forall|state: State, type_: Type|
            is_regular_state(cx, state) && type_is_plain(cx, type_) ==> makes_plain(
                cx,
                #[trigger] zero(cx, state, type_),
            ),
{
    assert forall|state: State, type_: Type|
        is_regular_state(cx, state) && type_is_plain(cx, type_) implies makes_plain(
        cx,
        #[trigger] zero(cx, state, type_),
    ) by {
        reveal(zero);
        lemma_zero_value(cx, cx.table.structs, state, type_);
    }
}

/* Vectors */

proof fn lemma_suffixes(base: Seq<char>)
    ensures
        ends_as_mapping(base + "__"@),
        ends_as_mapping(base + "__len__"@),
{
    reveal_strlit("__");
    reveal_strlit("__len__");
}

proof fn lemma_path_type(cx: Context, state: State, path: Path)
    requires
        is_regular_state(cx, state),
    ensures
        path_type(cx, state.types, path) matches Some(type_) ==> type_is_plain(cx, type_),
        type_is_plain(cx, element_type(cx, state, path)),
{
    reveal(holds_plain);
}

proof fn lemma_mappings(cx: Context, state: State, path: Path)
    requires
        is_regular_state(cx, state),
    ensures
        ({
            let (after, (values, length)) = generate_vector_mapping_exprs(cx, state, path);
            is_regular_state(cx, after) && is_plain(cx, false, values) && is_plain(
                cx,
                false,
                length,
            )
        }),
{
    reveal(generate_vector_mapping_exprs);
    lemma_path_type(cx, state, path);
    let name = path.identifier.name;
    let base = text_of(state.names, name);
    lemma_suffixes(base);
    let first = interned(state.names, base + "__"@).0;
    lemma_suffixes(text_of(first, name));
    assert forall|program: Option<ProgramId>, id: NodeId| #[trigger]
        is_plain(
            cx,
            false,
            mapping_path(cx, program, interned(state.names, base + "__"@).1, id),
        ) by {
        lemma_mapping_path(cx, program, state.names, base + "__"@, id);
    }
    assert forall|program: Option<ProgramId>, id: NodeId| #[trigger]
        is_plain(
            cx,
            false,
            mapping_path(cx, program, interned(first, text_of(first, name) + "__len__"@).1, id),
        ) by {
        lemma_mapping_path(cx, program, first, text_of(first, name) + "__len__"@, id);
    }
}

proof fn lemma_vector_len_expr(cx: Context, state: State, length: Expression, span: Span)
    requires
        is_regular_state(cx, state),
        is_plain(cx, false, length),
    ensures
        ({
            let (after, read) = get_vector_len_expr(state, length, span);
            is_regular_state(cx, after) && is_plain(cx, false, read)
        }),
{
    reveal(get_vector_len_expr);
}

pub proof fn lemma_bind_value(
    cx: Context,
    state: State,
    stem: Seq<char>,
    value: Expression,
    type_: Type,
)
    requires
        is_regular_state(cx, state),
        type_is_plain(cx, type_),
    ensures
        ({
            let (after, (variable, _)) = bind_value(state, stem, value, type_);
            is_regular_state(cx, after) && is_plain(cx, false, variable) && is_plain(
                cx,
                true,
                variable,
            )
        }),
{
    reveal(bind_value);
}

spec fn vector_is_plain(cx: Context, vector: BoundVector) -> bool {
    &&& is_plain(cx, false, vector.values)
    &&& is_plain(cx, false, vector.length)
    &&& is_plain(cx, false, vector.len_var)
}

proof fn lemma_bind_vector(cx: Context, state: State, path: Path, span: Span)
    requires
        is_regular_state(cx, state),
    ensures
        is_regular_state(cx, bind_vector(cx, state, path, span).0),
        vector_is_plain(cx, bind_vector(cx, state, path, span).1),
{
    reveal(bind_vector);
    lemma_mappings(cx, state, path);
    let (state, (_, length)) = generate_vector_mapping_exprs(cx, state, path);
    lemma_vector_len_expr(cx, state, length, span);
    let (state, _) = fresh_identifier(state, "$len_var"@);
    lemma_vector_len_expr(cx, state, length, span);
}

proof fn lemma_push(cx: Context, state: State, path: Path, value: Expression, span: Span)
    requires
        is_regular_state(cx, state),
        is_plain(cx, false, value),
    ensures
        gives_plain(cx, false, Ok(push_value(cx, state, path, value, span))),
{
    reveal(push_value);
    lemma_bind_vector(cx, state, path, span);
}

pub proof fn lemma_len(cx: Context, state: State, path: Path, span: Span)
    requires
        is_regular_state(cx, state),
    ensures
        gives_plain(cx, false, Ok(vector_len(cx, state, path, span))),
{
    reveal(vector_len);
    lemma_mappings(cx, state, path);
    let (state, (_, length)) = generate_vector_mapping_exprs(cx, state, path);
    lemma_vector_len_expr(cx, state, length, span);
}

pub proof fn lemma_pop(cx: Context, state: State, path: Path, element: Type, span: Span)
    requires
        is_regular_state(cx, state),
        type_is_plain(cx, element),
    ensures
        gives_plain(cx, false, pop_value(cx, state, path, element, span)),
{
    reveal(pop_value);
    lemma_bind_vector(cx, state, path, span);
    lemma_zeros(cx);
}

proof fn lemma_get(
    cx: Context,
    state: State,
    path: Path,
    element: Type,
    index: Expression,
    span: Span,
)
    requires
        is_regular_state(cx, state),
        type_is_plain(cx, element),
        is_plain(cx, false, index),
    ensures
        gives_plain(cx, false, get_value(cx, state, path, element, index, span)),
{
    reveal(get_value);
    lemma_bind_vector(cx, state, path, span);
    lemma_zeros(cx);
}

proof fn lemma_set(
    cx: Context,
    state: State,
    path: Path,
    index: Expression,
    value: Expression,
    span: Span,
)
    requires
        is_regular_state(cx, state),
        is_plain(cx, false, index),
        is_plain(cx, false, value),
    ensures
        gives_plain(cx, false, Ok(set_value(cx, state, path, index, value, span))),
{
    reveal(set_value);
    lemma_bind_vector(cx, state, path, span);
}

pub proof fn lemma_clear(cx: Context, state: State, path: Path, span: Span)
    requires
        is_regular_state(cx, state),
    ensures
        gives_plain(cx, false, Ok(clear_vector(cx, state, path, span))),
{
    reveal(clear_vector);
    lemma_mappings(cx, state, path);
}

proof fn lemma_swap_remove(cx: Context, state: State, path: Path, index: Expression, span: Span)
    requires
        is_regular_state(cx, state),
        is_plain(cx, false, index),
    ensures
        gives_plain(cx, false, Ok(swap_remove_value(cx, state, path, index, span))),
{
    reveal(swap_remove_value);
    lemma_bind_vector(cx, state, path, span);
}

pub proof fn lemma_vector_argument(cx: Context, state: State, argument: Expression)
    requires
        is_regular_state(cx, state),
    ensures
        vector_argument(state, argument) matches Some((_, element)) ==> type_is_plain(cx, element),
{
}

/* Operands */

pub proof fn lemma_once(
    cx: Context,
    before: State,
    argument: Expression,
    stem: Seq<char>,
    lowered: Step<Lowered>,
)
    requires
        is_regular_state(cx, before),
        gives_plain(cx, true, lowered),
        can_be_discarded(before.types, argument) ==> gives_plain(cx, false, lowered),
    ensures
        gives_plain(cx, false, finish_once(before, argument, stem, lowered)),
{
    reveal(finish_once);
    reveal(bind_once);
    if let Ok((state, (value, _))) = lowered {
        if let Ok(plan) = once_plan(before, argument) {
            let state = with_type(state, value.spec_id(), plan.0);
            lemma_bind_value(cx, state, stem, value, plan.0);
        }
    }
}

pub proof fn lemma_finish_push(
    cx: Context,
    before: State,
    vector: Expression,
    value: Expression,
    lowered: Step<Lowered>,
    span: Span,
)
    requires
        is_regular_state(cx, before),
        gives_plain(cx, true, lowered),
        can_be_discarded(before.types, value) ==> gives_plain(cx, false, lowered),
    ensures
        gives_plain(cx, false, finish_push(cx, before, vector, value, lowered, span)),
{
    reveal(finish_push);
    lemma_once(cx, before, value, "$push_value"@, lowered);
    if let Some((path, _)) = vector_argument(before, vector) {
        if let Ok((state, (value, _))) = finish_once(before, value, "$push_value"@, lowered) {
            lemma_push(cx, state, path, value, span);
        }
    }
}

pub proof fn lemma_finish_get(
    cx: Context,
    before: State,
    vector: Expression,
    index: Expression,
    lowered: Step<Lowered>,
    span: Span,
)
    requires
        is_regular_state(cx, before),
        gives_plain(cx, true, lowered),
        can_be_discarded(before.types, index) ==> gives_plain(cx, false, lowered),
    ensures
        gives_plain(cx, false, finish_get(cx, before, vector, index, lowered, span)),
{
    reveal(finish_get);
    lemma_once(cx, before, index, "$index"@, lowered);
    lemma_vector_argument(cx, before, vector);
    if let Some((path, element)) = vector_argument(before, vector) {
        if let Ok((state, (index, _))) = finish_once(before, index, "$index"@, lowered) {
            lemma_get(cx, state, path, element, index, span);
        }
    }
}

pub proof fn lemma_finish_set(
    cx: Context,
    before: State,
    vector: Expression,
    index: Lowered,
    value: Step<Lowered>,
    span: Span,
)
    requires
        is_plain(cx, false, index.0),
        gives_plain(cx, false, value),
    ensures
        gives_plain(cx, false, finish_set(cx, before, vector, index, value, span)),
{
    reveal(finish_set);
    if let Some((path, _)) = vector_argument(before, vector) {
        if let Ok((state, (value, _))) = value {
            lemma_set(cx, state, path, index.0, value, span);
        }
    }
}

pub proof fn lemma_finish_swap_remove(
    cx: Context,
    before: State,
    vector: Expression,
    index: Step<Lowered>,
    span: Span,
)
    requires
        gives_plain(cx, false, index),
    ensures
        gives_plain(cx, false, finish_swap_remove(cx, before, vector, index, span)),
{
    reveal(finish_swap_remove);
    if let Some((path, _)) = vector_argument(before, vector) {
        if let Ok((state, (index, _))) = index {
            lemma_swap_remove(cx, state, path, index, span);
        }
    }
}

/* Variables */

proof fn lemma_read_storage(cx: Context, state: State, path: Path, name: Symbol, inner: Type)
    requires
        is_regular_state(cx, state),
        type_is_plain(cx, inner),
    ensures
        makes_plain(cx, read_storage(cx, state, path, name, inner)),
{
    reveal(read_storage);
    lemma_zeros(cx);
    lemma_suffixes(text_of(state.names, name));
    assert forall|id: NodeId| #[trigger]
        is_plain(
            cx,
            false,
            mapping_path(
                cx,
                kept_program(cx, path),
                interned(state.names, text_of(state.names, name) + "__"@).1,
                id,
            ),
        ) by {
        lemma_mapping_path(
            cx,
            kept_program(cx, path),
            state.names,
            text_of(state.names, name) + "__"@,
            id,
        );
    }
}

pub proof fn lemma_path(cx: Context, state: State, path: Path)
    requires
        is_regular_state(cx, state),
    ensures
        makes_plain(cx, reconstruct_path(cx, state, path)),
{
    reveal(reconstruct_path);
    reveal(holds_plain);
    assert forall|name: Symbol, inner: Type| type_is_plain(cx, inner) implies makes_plain(
        cx,
        #[trigger] read_storage(cx, state, path, name, inner),
    ) by {
        lemma_read_storage(cx, state, path, name, inner);
    }
}

/* Dynamic access */

pub open spec fn target_is_plain(cx: Context, target: Target) -> bool {
    &&& is_plain(cx, false, target.program)
    &&& option_is_plain(cx, false, target.network)
}

pub proof fn lemma_network(cx: Context, state: State, target: Target)
    requires
        is_regular_state(cx, state),
        target_is_plain(cx, target),
    ensures
        is_regular_state(cx, target_network(state, target).0),
        is_plain(cx, false, target_network(state, target).1),
{
    match target.network {
        None => {},
        Some(network) => {
            assert(option_is_plain(cx, false, Some(network)) == is_plain(cx, false, network));
        },
    }
}

proof fn lemma_member_type(cx: Context, members: List<Member>, name: Symbol)
    requires
        members_are_plain(cx, members),
    ensures
        member_type(members, name) matches Some(type_) ==> type_is_plain(cx, type_),
        vector_member(members, name) matches Some(type_) ==> type_is_plain(cx, type_),
    decreases members,
{
    if let List::Cons(_, rest) = members {
        lemma_member_type(cx, copied(&*rest), name);
    }
}

pub proof fn lemma_element(cx: Context, interface: Type, member: Identifier)
    requires
        holds_plain(cx),
    ensures
        vector_of_member(cx, interface, member) matches Ok(Some(element)) ==> type_is_plain(
            cx,
            element,
        ),
{
    reveal(holds_plain);
    if let Ok(found) = lookup_interface_from_type(cx, interface) {
        lemma_member_type(cx, found.storages, member.name);
    }
}

proof fn lemma_dynamic_len(
    cx: Context,
    state: State,
    program: Expression,
    network: Expression,
    mapping: Symbol,
    span: Span,
)
    requires
        is_regular_state(cx, state),
        is_plain(cx, false, program),
        is_plain(cx, false, network),
    ensures
        ({
            let (after, read) = dynamic_len(state, program, network, mapping, span);
            is_regular_state(cx, after) && is_plain(cx, false, read)
        }),
{
    reveal(dynamic_len);
}

pub proof fn lemma_dynamic_read(
    cx: Context,
    state: State,
    target: Target,
    interface: Type,
    storage: Identifier,
    span: Span,
)
    requires
        is_regular_state(cx, state),
        target_is_plain(cx, target),
    ensures
        gives_plain(
            cx,
            false,
            finish_dynamic_read(cx, state, target, interface, storage, span),
        ),
        finish_dynamic_read(cx, state, target, interface, storage, span) matches Ok((_, (read, _)))
            ==> !(read is DynamicOp),
{
    reveal(finish_dynamic_read);
    reveal(read_dynamic);
    reveal(holds_plain);
    lemma_network(cx, state, target);
    lemma_zeros(cx);
    if let Ok(found) = lookup_interface_from_type(cx, interface) {
        lemma_member_type(cx, found.storages, storage.name);
    }
}

proof fn lemma_get_dynamic(
    cx: Context,
    state: State,
    program: Expression,
    network: Expression,
    member: Identifier,
    element: Type,
    index: Expression,
    span: Span,
)
    requires
        is_regular_state(cx, state),
        is_plain(cx, false, program),
        is_plain(cx, false, network),
        is_plain(cx, false, index),
        type_is_plain(cx, element),
    ensures
        gives_plain(
            cx,
            false,
            get_dynamic(cx, state, program, network, member, element, index, span),
        ),
{
    reveal(get_dynamic);
    reveal(dynamic_len);
    lemma_zeros(cx);
}

pub proof fn lemma_dynamic_get(
    cx: Context,
    before: State,
    target: Target,
    network: Expression,
    member: Identifier,
    element: Type,
    index: Expression,
    lowered: Step<Lowered>,
    span: Span,
)
    requires
        is_regular_state(cx, before),
        is_plain(cx, false, target.program),
        is_plain(cx, false, network),
        type_is_plain(cx, element),
        gives_plain(cx, true, lowered),
        can_be_discarded(before.types, index) ==> gives_plain(cx, false, lowered),
    ensures
        gives_plain(
            cx,
            false,
            finish_dynamic_vector_get(
                cx,
                before,
                target,
                network,
                member,
                element,
                index,
                lowered,
                span,
            ),
        ),
        finish_dynamic_vector_get(
            cx,
            before,
            target,
            network,
            member,
            element,
            index,
            lowered,
            span,
        ) matches Ok((_, (got, _))) ==> !(got is DynamicOp),
{
    reveal(finish_dynamic_vector_get);
    reveal(get_dynamic);
    lemma_once(cx, before, index, "$index"@, lowered);
    if let Ok((state, (index, _))) = finish_once(before, index, "$index"@, lowered) {
        lemma_get_dynamic(cx, state, target.program, network, member, element, index, span);
    }
}

pub proof fn lemma_dynamic_vector_len(
    cx: Context,
    state: State,
    target: Target,
    member: Identifier,
    span: Span,
)
    requires
        is_regular_state(cx, state),
        target_is_plain(cx, target),
    ensures
        gives_plain(cx, false, Ok(finish_dynamic_vector_len(state, target, member, span))),
        !(finish_dynamic_vector_len(state, target, member, span).1.0 is DynamicOp),
{
    reveal(finish_dynamic_vector_len);
    reveal(dynamic_len);
    lemma_network(cx, state, target);
    let (state, network) = target_network(state, target);
    let (state, length) = with_suffixed(state, member.name, "__len__"@);
    lemma_dynamic_len(cx, state, target.program, network, length, span);
}

} // verus!
