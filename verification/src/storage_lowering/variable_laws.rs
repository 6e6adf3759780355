//! What the code that reads and writes of storage variables are lowered to does.
use crate::ast::{no_span, Expression, Path, Span, Symbol, Type};
use crate::list::{copied, one, List};
use crate::names::{interned, interned_symbols_last, interning_keeps_texts, keeps, text_of, Texts};
use crate::state::{path_key, struct_in, with_id, with_suffixed, with_typed_id, State, StructSymbol};
use crate::storage_lowering::builders::{
    contains_mapping_expr, kept_program, literal_false, mapping_path, mapping_type,
};
use crate::storage_lowering::meaning::{
    group_values, mapping_at, mapping_key, ran_statement, value_of, Machine, Value,
};
use crate::storage_lowering::statements::write_storage;
use crate::storage_lowering::visitor::Context;
use crate::storage_lowering::zero::{read_storage, zero, zero_members, zero_value};
use crate::units::Member;
use vstd::prelude::*;

verus! {

broadcast use group_values;

proof fn lemma_zero_value(
    cx: Context,
    nesting: List<StructSymbol>,
    state: State,
    type_: Type,
    later: Texts,
)
    requires
        zero_value(cx, nesting, state, type_) is Ok,
        keeps(zero_value(cx, nesting, state, type_)->Ok_0.0.names, later),
        later.len() <= usize::MAX,
    ensures
        keeps(state.names, later),
    decreases nesting, 0int, type_,
{
    reveal(zero_value);
    reveal(zero_members);
    let started = with_id(state);
    match type_ {
        Type::Integer(_) => {
            interned_symbols_last(state.names, "0"@, later);
        },
        Type::Field => {
            interned_symbols_last(state.names, "0"@, later);
        },
        Type::Group => {
            interned_symbols_last(state.names, "0"@, later);
        },
        Type::Scalar => {
            interned_symbols_last(state.names, "0"@, later);
        },
        Type::Address => {
            interned_symbols_last(
                state.names,
                "aleo1qqqqqqqqqqqqqqqqqqqqqqqqqqqqqqqqqqqqqqqqqqqqqqqqqqqq3ljyzc"@,
                later,
            );
        },
        Type::Array(array) => {
            lemma_zero_value(cx, nesting, started, copied(&array.element_type), later);
        },
        Type::Composite(composite) => {
            if let List::Cons(_, rest) = nesting {
                if let Some(location) = copied(&*composite.path).spec_try_global_location() {
                    if let Some(members) = struct_in(cx.table.structs, cx.program, location) {
                        lemma_zero_members(cx, copied(&*rest), started, members, later);
                    }
                }
            }
        },
        _ => {},
    }
}

proof fn lemma_zero_members(
    cx: Context,
    nesting: List<StructSymbol>,
    state: State,
    members: List<Member>,
    later: Texts,
)
    requires
        zero_members(cx, nesting, state, members) is Ok,
        keeps(zero_members(cx, nesting, state, members)->Ok_0.0.names, later),
        later.len() <= usize::MAX,
    ensures
        keeps(state.names, later),
    decreases nesting, 1int, members,
{
    reveal(zero_members);
    reveal(zero_value);
    match members {
        List::Nil => {},
        List::Cons(member, rest) => {
            let type_ = copied(&member.type_);
            let started = with_id(state);
            let valued = zero_value(cx, nesting, started, type_)->Ok_0.0;
            lemma_zero_members(cx, nesting, with_id(valued), copied(&*rest), later);
            lemma_zero_value(cx, nesting, started, type_, later);
        },
    }
}

/// A zero value is a constant, and making it keeps the names.
pub proof fn lemma_zero(cx: Context, state: State, type_: Type, machine: Machine)
    requires
        zero(cx, state, type_) is Ok,
        keeps(zero(cx, state, type_)->Ok_0.0.names, machine.names),
        machine.names.len() <= usize::MAX,
    ensures
        keeps(state.names, machine.names),
        forall|later: Machine| #[trigger]
            value_of(later, zero(cx, state, type_)->Ok_0.1) is Some,
{
    reveal(zero);
    lemma_zero_value(cx, cx.table.structs, state, type_, machine.names);
    assert forall|later: Machine| #[trigger]
        value_of(later, zero(cx, state, type_)->Ok_0.1) is Some by {
        reveal(zero_value);
        reveal(value_of);
    }
}

/// The mapping behind the storage variable `name`.
pub open spec fn cell(cx: Context, state: State, name: Symbol) -> Seq<usize> {
    mapping_key(mapping_path(cx, None, with_suffixed(state, name, "__"@).1, 0))->0
}

/// What the storage variable behind `key` holds: `none` if it was never written.
pub open spec fn stored_in(machine: Machine, key: Seq<usize>) -> Value {
    if mapping_at(machine, key).contains_key(Value::Truth(false)) {
        mapping_at(machine, key)[Value::Truth(false)]
    } else {
        Value::Absent
    }
}

/// A read of a storage variable is lowered to an expression whose value is what the variable
/// holds, or `none` if it holds nothing.
pub proof fn reads_give_what_is_stored(
    cx: Context,
    state: State,
    path: Path,
    name: Symbol,
    inner: Type,
    machine: Machine,
)
    requires
        read_storage(cx, state, path, name, inner) is Ok,
        keeps(read_storage(cx, state, path, name, inner)->Ok_0.0.names, machine.names),
        machine.names.len() <= usize::MAX,
    ensures
        value_of(machine, read_storage(cx, state, path, name, inner)->Ok_0.1) == Some(
            stored_in(machine, cell(cx, state, name)),
        ),
{
    reveal(read_storage);
    let (s1, mapping_name) = with_suffixed(state, name, "__"@);
    let mapping = mapping_path(cx, kept_program(cx, path), mapping_name, s1.next_id);
    let s2 = with_typed_id(s1, mapping_type(Type::Boolean, inner));
    let (s3, key) = literal_false(s2);
    let (s4, _) = contains_mapping_expr(s3, mapping, key, no_span());
    lemma_zero(cx, s4, inner, machine);
}

/// A write of a storage variable is lowered to a statement that stores the value, or, for a literal
/// `none`, makes the variable hold nothing. Nothing else changes.
pub proof fn writes_store(
    cx: Context,
    state: State,
    name: Symbol,
    value: Expression,
    span: Span,
    machine: Machine,
    stored: Value,
)
    requires
        value_of(machine, value) == Some(stored),
    ensures
        ({
            let (named, mapping) = with_suffixed(state, name, "__"@);
            let (_, statement) = write_storage(cx, named, mapping, value, span);
            let key = cell(cx, state, name);
            ran_statement(machine, statement) matches Some(after) && stored_in(after, key)
                == stored && after.locals == machine.locals && after.names == machine.names
                && forall|other: Seq<usize>|
                other != key ==> #[trigger] mapping_at(after, other) == mapping_at(machine, other)
        }),
{
    reveal(write_storage);
}

/// The mapping behind a storage variable stays the same, whatever else is lowered.
pub proof fn variables_stay_in_place(cx: Context, state: State, later: State, name: Symbol)
    requires
        name.index < state.names.len(),
        keeps(with_suffixed(state, name, "__"@).0.names, later.names),
        later.names.len() <= usize::MAX,
    ensures
        cell(cx, later, name) == cell(cx, state, name),
{
    interned_symbols_last(state.names, text_of(state.names, name) + "__"@, later.names);
}

/// Different storage variables are behind different mappings.
pub proof fn variables_are_apart(
    cx: Context,
    state: State,
    later: State,
    first: Symbol,
    second: Symbol,
)
    requires
        first.index < state.names.len(),
        second.index < later.names.len(),
        keeps(with_suffixed(state, first, "__"@).0.names, later.names),
        text_of(later.names, first) != text_of(later.names, second),
        later.names.len() < usize::MAX,
    ensures
        cell(cx, state, first) != cell(cx, later, second),
{
    let first_text = text_of(state.names, first) + "__"@;
    let second_text = text_of(later.names, second) + "__"@;
    interned_symbols_last(state.names, first_text, later.names);
    assert(first_text != second_text) by {
        let end = first_text.len() - "__"@.len();
        if first_text == second_text {
            assert(first_text.take(end) =~= text_of(state.names, first));
            assert(second_text.take(end) =~= text_of(later.names, second));
        }
    }
    let first_name = interned(state.names, first_text).1;
    let second_name = interned(later.names, second_text).1;
    interning_keeps_texts(later.names, second_text, first_name);
    assert(first_name != second_name);
    reveal_with_fuel(path_key, 2);
    assert(path_key(one(first_name)) =~= seq![first_name.index]);
    assert(path_key(one(second_name)) =~= seq![second_name.index]);
    assert(cell(cx, state, first)[1] == first_name.index);
    assert(cell(cx, later, second)[1] == second_name.index);
}

} // verus!
