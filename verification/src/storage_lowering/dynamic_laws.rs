//! What the code that accesses to other programs are lowered to does.
use crate::ast::{
    local_path, BinaryOperation, Expression, Identifier, IntegerType, Span, Symbol, Type,
};
use crate::names::{decimal, interned_symbols_last, keeps, text_of};
use crate::state::{with_id, with_suffixed, State};
use crate::storage_lowering::builders::{
    binary_expr, dynamic_contains_expr, dynamic_get_or_use_expr, fresh_identifier, literal_false,
    literal_identifier, literal_zero_u32,
};
use crate::storage_lowering::dynamic::{
    dynamic_len, finish_dynamic_vector_len, get_dynamic, read_dynamic, target_network, Target,
};
use crate::storage_lowering::meaning::{group_values, other_at, ran_all, value_of, Machine, Value};
use crate::storage_lowering::variable_laws::lemma_zero;
use crate::storage_lowering::vector_laws::{is_free, keeps_locals, lemma_digits, stays};
use crate::storage_lowering::visitor::Context;
use crate::storage_lowering::zero::zero;
use vstd::prelude::*;

verus! {

broadcast use group_values;

/// The mapping `<base><suffix>` of the program `program` on `network`.
pub open spec fn other_named(
    machine: Machine,
    program: Value,
    network: Value,
    base: Seq<char>,
    suffix: Seq<char>,
) -> Map<Value, Value> {
    other_at(machine, program, network, Value::Name(base + suffix))
}

/// What the storage variable `base` of another program holds: `none` if it was never written.
pub open spec fn stored_there(
    machine: Machine,
    program: Value,
    network: Value,
    base: Seq<char>,
) -> Value {
    let cell = other_named(machine, program, network, base, "__"@);
    if cell.contains_key(Value::Truth(false)) {
        cell[Value::Truth(false)]
    } else {
        Value::Absent
    }
}

/// Whether the vector `base` of another program has the elements `elements`: `<base>__` holds them
/// and `<base>__len__` their number, unless that was never written.
pub open spec fn vector_there(
    machine: Machine,
    program: Value,
    network: Value,
    base: Seq<char>,
    elements: Seq<Value>,
) -> bool {
    let values = other_named(machine, program, network, base, "__"@);
    let lengths = other_named(machine, program, network, base, "__len__"@);
    &&& elements.len() <= u32::MAX
    &&& Value::Number(elements.len() as int) == if lengths.contains_key(Value::Truth(false)) {
        lengths[Value::Truth(false)]
    } else {
        Value::Number(0)
    }
    &&& forall|i: int|
        0 <= i < elements.len() ==> values.contains_key(Value::Number(i)) && values[Value::Number(
            i,
        )] == #[trigger] elements[i]
}

/// Reading a storage variable of another program gives what the mapping behind the variable holds,
/// or `none` if it holds nothing.
pub proof fn reads_there_give_what_is_stored(
    cx: Context,
    state: State,
    program: Expression,
    network: Expression,
    storage: Identifier,
    inner: Type,
    span: Span,
    machine: Machine,
    there: Value,
    on: Value,
)
    requires
        read_dynamic(cx, state, program, network, storage, inner, span) is Ok,
        storage.name.index < state.names.len(),
        keeps(
            read_dynamic(cx, state, program, network, storage, inner, span)->Ok_0.0.names,
            machine.names,
        ),
        machine.names.len() <= usize::MAX,
        value_of(machine, program) == Some(there),
        value_of(machine, network) == Some(on),
    ensures
        value_of(
            machine,
            read_dynamic(cx, state, program, network, storage, inner, span)->Ok_0.1,
        ) == Some(stored_there(machine, there, on, text_of(machine.names, storage.name))),
{
    reveal(read_dynamic);
    let (s1, mapping) = with_suffixed(state, storage.name, "__"@);
    let (s2, mapping_a) = literal_identifier(s1, mapping);
    let (s3, mapping_b) = literal_identifier(s2, mapping);
    let (s4, key_a) = literal_false(s3);
    let (s5, key_b) = literal_false(s4);
    let (s6, _) = dynamic_contains_expr(s5, program, network, mapping_a, key_a, span);
    lemma_zero(cx, s6, inner, machine);
    interned_symbols_last(state.names, text_of(state.names, storage.name) + "__"@, machine.names);
    let (s7, default) = zero(cx, s6, inner)->Ok_0;
    let (_, get_or_use) = dynamic_get_or_use_expr(
        s7,
        program,
        network,
        mapping_b,
        key_b,
        default,
        inner,
        span,
    );
    assert(value_of(machine, get_or_use) is Some);
}

/// The length of a vector of another program is the number of its elements.
pub proof fn lens_there_give_the_length(
    state: State,
    target: Target,
    member: Identifier,
    span: Span,
    machine: Machine,
    there: Value,
    on: Value,
    elements: Seq<Value>,
)
    requires
        member.name.index < state.names.len(),
        keeps(finish_dynamic_vector_len(state, target, member, span).0.names, machine.names),
        machine.names.len() <= usize::MAX,
        value_of(machine, target.program) == Some(there),
        value_of(machine, target_network(state, target).1) == Some(on),
        vector_there(machine, there, on, text_of(machine.names, member.name), elements),
    ensures
        value_of(machine, finish_dynamic_vector_len(state, target, member, span).1.0) == Some(
            Value::Number(elements.len() as int),
        ),
{
    reveal(finish_dynamic_vector_len);
    let (s1, network) = target_network(state, target);
    let (s2, length) = with_suffixed(s1, member.name, "__len__"@);
    lemma_len(s2, target.program, network, length, span, machine, there, on);
    interned_symbols_last(s1.names, text_of(s1.names, member.name) + "__len__"@, machine.names);
    if target.network is None {
        interned_symbols_last(state.names, "aleo"@, s1.names);
        interned_symbols_last(state.names, "aleo"@, machine.names);
    }
}

proof fn lemma_len(
    state: State,
    program: Expression,
    network: Expression,
    mapping: Symbol,
    span: Span,
    machine: Machine,
    there: Value,
    on: Value,
)
    requires
        keeps(dynamic_len(state, program, network, mapping, span).0.names, machine.names),
        machine.names.len() <= usize::MAX,
        value_of(machine, program) == Some(there),
        value_of(machine, network) == Some(on),
    ensures
        keeps(state.names, machine.names),
        dynamic_len(state, program, network, mapping, span).0.next_name == state.next_name,
        ({
            let lengths = other_at(
                machine,
                there,
                on,
                Value::Name(text_of(machine.names, mapping)),
            );
            value_of(machine, dynamic_len(state, program, network, mapping, span).1) == Some(
                if lengths.contains_key(Value::Truth(false)) {
                    lengths[Value::Truth(false)]
                } else {
                    Value::Number(0)
                },
            )
        }),
{
    reveal(dynamic_len);
    let (s1, name) = literal_identifier(state, mapping);
    let (s2, key) = literal_false(s1);
    let (s3, default) = literal_zero_u32(s2);
    interned_symbols_last(s2.names, "0"@, machine.names);
    lemma_digits();
    let (_, read) = dynamic_get_or_use_expr(
        s3,
        program,
        network,
        name,
        key,
        default,
        Type::Integer(IntegerType::U32),
        span,
    );
    assert(value_of(machine, key) == Some(Value::Truth(false)));
    assert(value_of(machine, default) == Some(Value::Number(0)));
    assert(value_of(machine, name) == Some(Value::Name(text_of(machine.names, mapping))));
}

/// Reading a vector of another program at an index gives the element there, or `none` behind the
/// end. Nothing changes by that.
pub proof fn gets_there_give_the_element(
    cx: Context,
    state: State,
    program: Expression,
    network: Expression,
    member: Identifier,
    element: Type,
    index: Expression,
    span: Span,
    machine: Machine,
    there: Value,
    on: Value,
    elements: Seq<Value>,
    at: int,
)
    requires
        get_dynamic(cx, state, program, network, member, element, index, span) is Ok,
        member.name.index < state.names.len(),
        keeps(
            get_dynamic(
                cx,
                state,
                program,
                network,
                member,
                element,
                index,
                span,
            )->Ok_0.0.names,
            machine.names,
        ),
        machine.names.len() <= usize::MAX,
        is_free(machine, "$len_var"@, state.next_name),
        stays(machine, program, there),
        stays(machine, network, on),
        stays(machine, index, Value::Number(at)),
        0 <= at <= u32::MAX,
        vector_there(machine, there, on, text_of(machine.names, member.name), elements),
    ensures
        ({
            let (got, before) = get_dynamic(
                cx,
                state,
                program,
                network,
                member,
                element,
                index,
                span,
            )->Ok_0.1;
            ran_all(machine, before) matches Some(after) && keeps_locals(machine, after)
                && after.mappings == machine.mappings && after.others == machine.others
                && value_of(after, got) == Some(
                if at < elements.len() {
                    elements[at]
                } else {
                    Value::Absent
                },
            )
        }),
{
    reveal(get_dynamic);
    reveal_with_fuel(ran_all, 2);
    let base = text_of(state.names, member.name);
    let (s1, values) = with_suffixed(state, member.name, "__"@);
    let (s2, length) = with_suffixed(s1, member.name, "__len__"@);
    let (s3, get_len) = dynamic_len(s2, program, network, length, span);
    let (s4, len_var) = fresh_identifier(s3, "$len_var"@);
    let s5 = with_id(s4);
    let (s6, _) = binary_expr(
        cx,
        s5,
        index,
        BinaryOperation::Lt,
        local_path(len_var),
    );
    let (s7, mapping) = literal_identifier(s6, values);
    lemma_zero(cx, s7, element, machine);
    let text = "$len_var"@ + "$"@ + decimal(s3.next_name as nat);
    interned_symbols_last(s3.names, text, machine.names);
    assert(keeps_locals(machine, machine));
    assert(value_of(machine, program) == Some(there));
    assert(value_of(machine, network) == Some(on));
    lemma_len(s2, program, network, length, span, machine, there, on);
    interned_symbols_last(s1.names, text_of(s1.names, member.name) + "__len__"@, machine.names);
    interned_symbols_last(state.names, base + "__"@, machine.names);
    interned_symbols_last(state.names, base + "__"@, s1.names);
    let (got, before) = get_dynamic(
        cx,
        state,
        program,
        network,
        member,
        element,
        index,
        span,
    )->Ok_0.1;
    let counted = Value::Number(elements.len() as int);
    assert(value_of(machine, get_len) == Some(counted));
    let after = Machine { locals: machine.locals.insert(len_var.name, counted), ..machine };
    assert(ran_all(machine, before) == Some(after));
    assert(!machine.locals.contains_key(len_var.name));
    assert(keeps_locals(machine, after));
    assert(value_of(after, index) == Some(Value::Number(at)));
    assert(value_of(after, program) == Some(there));
    assert(value_of(after, network) == Some(on));
    let (s8, default) = zero(cx, s7, element)->Ok_0;
    let (_, get_or_use) = dynamic_get_or_use_expr(
        s8,
        program,
        network,
        mapping,
        index,
        default,
        element,
        span,
    );
    assert(value_of(after, mapping) == Some(Value::Name(base + "__"@)));
    assert(value_of(after, get_or_use) is Some);
    if at < elements.len() {
        assert(value_of(after, get_or_use) == Some(elements[at]));
    }
}

} // verus!
