//! What the code that operations on vectors are lowered to does to the vectors.
use crate::ast::{
    local_path, BinaryOperation, Expression, Identifier, NodeId, Path, Span, Statement, Symbol,
    Type,
};
use crate::list::{appended, copied, one, List};
use crate::names::{
    decimal, decimal_is_injective, interned, interned_symbols_last, keeps, text_of, Texts,
};
use crate::purity::can_be_discarded;
use crate::state::{path_key, State};
use crate::storage_lowering::builders::{
    binary_expr, expression_statement, fresh_identifier, generate_vector_mapping_exprs,
    get_mapping_expr, get_vector_len_expr, literal_false, literal_one_u32, literal_zero_u32,
    set_mapping_expr, ternary_expr,
};
use crate::storage_lowering::meaning::{
    group_values, mapping_at, mapping_key, number_of, ran_all, ran_statement, value_of, written,
    Machine, Value,
};
use crate::storage_lowering::variable_laws::lemma_zero;
use crate::storage_lowering::vectors::{
    assert_statement, bind_vector, clear_vector, get_value, pop_value, push_value, set_value,
    swap_remove_value, vector_len,
};
use crate::storage_lowering::visitor::Context;
use vstd::prelude::*;

verus! {

broadcast use group_values;

/* Vectors in mappings */

/// The mappings behind the vector `path`: the one of its elements and the one of its length.
pub open spec fn backing(cx: Context, state: State, path: Path) -> (Seq<usize>, Seq<usize>) {
    let (_, (values, length)) = generate_vector_mapping_exprs(cx, state, path);
    (mapping_key(values)->0, mapping_key(length)->0)
}

/// The length that the mapping at `key` holds. A length that was never written is zero.
pub open spec fn length_in(machine: Machine, key: Seq<usize>) -> Value {
    if mapping_at(machine, key).contains_key(Value::Truth(false)) {
        mapping_at(machine, key)[Value::Truth(false)]
    } else {
        Value::Number(0)
    }
}

/// What the mapping at `key` holds as element `index` of a vector.
pub open spec fn element_in(machine: Machine, key: Seq<usize>, index: int) -> Option<Value> {
    if mapping_at(machine, key).contains_key(Value::Number(index)) {
        Some(mapping_at(machine, key)[Value::Number(index)])
    } else {
        None
    }
}

/// Whether the mappings at `keys` hold the vector `elements`.
pub open spec fn holds_vector(
    machine: Machine,
    keys: (Seq<usize>, Seq<usize>),
    elements: Seq<Value>,
) -> bool {
    &&& elements.len() <= u32::MAX
    &&& length_in(machine, keys.1) == Value::Number(elements.len() as int)
    &&& forall|i: int|
        0 <= i < elements.len() ==> element_in(machine, keys.0, i) == Some(#[trigger] elements[i])
}

/// Whether `after` has all local variables of `before`, with the same values.
pub open spec fn keeps_locals(before: Machine, after: Machine) -> bool {
    &&& after.names == before.names
    &&& forall|symbol: Symbol| #[trigger]
        before.locals.contains_key(symbol) ==> after.locals.contains_key(symbol)
            && after.locals[symbol] == before.locals[symbol]
}

/// Whether nothing but the mappings at `keys` changed, and local variables were only added.
pub open spec fn changes_only(
    before: Machine,
    after: Machine,
    keys: (Seq<usize>, Seq<usize>),
) -> bool {
    &&& keeps_locals(before, after)
    &&& forall|key: Seq<usize>|
        key != keys.0 && key != keys.1 ==> #[trigger] mapping_at(after, key) == mapping_at(
            before,
            key,
        )
}

/// Whether `expression` has the value `value`, now and whenever it is evaluated later.
pub open spec fn stays(machine: Machine, expression: Expression, value: Value) -> bool {
    forall|later: Machine|
        keeps_locals(machine, later) ==> #[trigger] value_of(later, expression) == Some(value)
}

/// Whether no local variable has the name that is generated next from `stem`.
pub open spec fn is_free(machine: Machine, stem: Seq<char>, number: u64) -> bool {
    forall|symbol: Symbol| #[trigger]
        machine.locals.contains_key(symbol) ==> text_of(machine.names, symbol) != stem + "$"@
            + decimal(number as nat)
}

/// Whether `machine` can run the code that is made in `state` for the vector `path`: its name is
/// known, the names that are made are those of `machine`, and they are not taken.
pub open spec fn can_run(state: State, path: Path, after: State, machine: Machine) -> bool {
    &&& path.identifier.name.index < state.names.len()
    &&& keeps(after.names, machine.names)
    &&& machine.names.len() <= usize::MAX
    &&& is_free(machine, "$len_var"@, state.next_name)
}

pub proof fn lemma_digits()
    ensures
        number_of("0"@) == 0,
        number_of("1"@) == 1,
{
    reveal_strlit("0");
    reveal_strlit("1");
    assert(decimal(0) =~= "0"@);
    assert(decimal(1) =~= "1"@);
    decimal_is_injective(number_of("0"@), 0);
    decimal_is_injective(number_of("1"@), 1);
}

/// The local variable that holds the length.
spec fn len_identifier(cx: Context, state: State, path: Path) -> Identifier {
    fresh_identifier(generate_vector_mapping_exprs(cx, state, path).0, "$len_var"@).1
}

/// The machine once the length was read.
spec fn with_length(cx: Context, state: State, path: Path, machine: Machine) -> Machine {
    Machine {
        locals: machine.locals.insert(
            len_identifier(cx, state, path).name,
            length_in(machine, backing(cx, state, path).1),
        ),
        ..machine
    }
}

proof fn lemma_backing(cx: Context, state: State, path: Path, later: Texts)
    requires
        path.identifier.name.index < state.names.len(),
        keeps(generate_vector_mapping_exprs(cx, state, path).0.names, later),
        later.len() <= usize::MAX,
    ensures
        ({
            let (after, (values, length)) = generate_vector_mapping_exprs(cx, state, path);
            &&& mapping_key(values) == Some(backing(cx, state, path).0)
            &&& mapping_key(length) == Some(backing(cx, state, path).1)
            &&& backing(cx, state, path).0 != backing(cx, state, path).1
            &&& keeps(state.names, later)
            &&& after.next_name == state.next_name
        }),
{
    reveal(generate_vector_mapping_exprs);
    let base = text_of(state.names, path.identifier.name);
    let first = interned(state.names, base + "__"@);
    let again = text_of(first.0, path.identifier.name);
    let second = interned(first.0, again + "__len__"@);
    interned_symbols_last(first.0, again + "__len__"@, later);
    interned_symbols_last(state.names, base + "__"@, later);
    assert(again == base) by {
        interned_symbols_last(state.names, base + "__"@, first.0);
    }
    reveal_strlit("__");
    reveal_strlit("__len__");
    assert((base + "__"@).len() != (base + "__len__"@).len());
    assert(first.1 != second.1);
    let (values_key, length_key) = backing(cx, state, path);
    reveal_with_fuel(path_key, 2);
    assert(path_key(one(first.1)) =~= seq![first.1.index]);
    assert(path_key(one(second.1)) =~= seq![second.1.index]);
    assert(values_key[1] == first.1.index);
    assert(length_key[1] == second.1.index);
}

proof fn lemma_bound(cx: Context, state: State, path: Path, span: Span, machine: Machine)
    requires
        can_run(state, path, bind_vector(cx, state, path, span).0, machine),
    ensures
        ({
            let (after, vector) = bind_vector(cx, state, path, span);
            let keys = backing(cx, state, path);
            let read = with_length(cx, state, path, machine);
            &&& mapping_key(vector.values) == Some(keys.0)
            &&& mapping_key(vector.length) == Some(keys.1)
            &&& keys.0 != keys.1
            &&& vector.len_var == local_path(len_identifier(cx, state, path))
            &&& ran_statement(machine, vector.len_stmt) == Some(read)
            &&& keeps_locals(machine, read)
            &&& !machine.locals.contains_key(len_identifier(cx, state, path).name)
            &&& text_of(machine.names, len_identifier(cx, state, path).name) == "$len_var"@
                + "$"@ + decimal(state.next_name as nat)
            &&& after.next_name == if state.next_name == u64::MAX {
                0
            } else {
                (state.next_name + 1) as u64
            }
        }),
{
    reveal(bind_vector);
    reveal(get_vector_len_expr);
    let generated = generate_vector_mapping_exprs(cx, state, path).0;
    let fresh = fresh_identifier(generated, "$len_var"@);
    let text = "$len_var"@ + "$"@ + decimal(generated.next_name as nat);
    interned_symbols_last(fresh.0.names, "0"@, machine.names);
    interned_symbols_last(generated.names, text, machine.names);
    lemma_backing(cx, state, path, machine.names);
    lemma_digits();
}

/// An operand that can be discarded has the same value whenever it is evaluated, whatever happens
/// to the mappings. So it needs no name of its own.
pub proof fn discardable_operands_stay(
    types: Map<NodeId, Type>,
    machine: Machine,
    expression: Expression,
    value: Value,
)
    requires
        can_be_discarded(types, expression),
        value_of(machine, expression) == Some(value),
    ensures
        stays(machine, expression, value),
{
    assert forall|later: Machine| keeps_locals(machine, later) implies #[trigger] value_of(
        later,
        expression,
    ) == Some(value) by {
        lemma_discardable(types, machine, later, expression);
    }
}

proof fn lemma_discardable(
    types: Map<NodeId, Type>,
    machine: Machine,
    later: Machine,
    expression: Expression,
)
    requires
        can_be_discarded(types, expression),
        value_of(machine, expression) is Some,
        keeps_locals(machine, later),
    ensures
        value_of(later, expression) == value_of(machine, expression),
    decreases expression,
{
    reveal(can_be_discarded);
    reveal(value_of);
    match expression {
        Expression::Binary(input) => {
            lemma_discardable(types, machine, later, copied(&input.left));
            lemma_discardable(types, machine, later, copied(&input.right));
        },
        Expression::Ternary(input) => {
            lemma_discardable(types, machine, later, copied(&input.condition));
            lemma_discardable(types, machine, later, copied(&input.if_true));
            lemma_discardable(types, machine, later, copied(&input.if_false));
        },
        _ => {},
    }
}

/// A vector stays in the mappings that it was first given, whatever else is lowered.
pub proof fn vectors_stay_in_place(cx: Context, state: State, later: State, path: Path)
    requires
        path.identifier.name.index < state.names.len(),
        keeps(generate_vector_mapping_exprs(cx, state, path).0.names, later.names),
        later.names.len() <= usize::MAX,
    ensures
        backing(cx, later, path) == backing(cx, state, path),
{
    reveal(generate_vector_mapping_exprs);
    lemma_backing(cx, state, path, later.names);
    let base = text_of(state.names, path.identifier.name);
    assert(text_of(later.names, path.identifier.name) == base);
    let first = interned(state.names, base + "__"@);
    let again = text_of(first.0, path.identifier.name);
    interned_symbols_last(first.0, again + "__len__"@, later.names);
    interned_symbols_last(state.names, base + "__"@, later.names);
    interned_symbols_last(state.names, base + "__"@, first.0);
}

/// What `Vector::push` is lowered to appends the value. It fails if the length cannot grow.
pub proof fn pushes_append(
    cx: Context,
    state: State,
    path: Path,
    value: Expression,
    span: Span,
    machine: Machine,
    elements: Seq<Value>,
    pushed: Value,
)
    requires
        can_run(state, path, push_value(cx, state, path, value, span).0, machine),
        holds_vector(machine, backing(cx, state, path), elements),
        stays(machine, value, pushed),
    ensures
        ({
            let (write, before) = push_value(cx, state, path, value, span).1;
            let keys = backing(cx, state, path);
            if elements.len() < u32::MAX {
                ran_all(machine, before) matches Some(ready) && written(ready, write) matches Some(
                    after,
                ) && holds_vector(after, keys, elements.push(pushed)) && changes_only(
                    machine,
                    after,
                    keys,
                )
            } else {
                ran_all(machine, before) is None
            }
        }),
{
    reveal(push_value);
    reveal_with_fuel(ran_all, 3);
    let (bound, vector) = bind_vector(cx, state, path, span);
    interned_symbols_last(bound.names, "1"@, machine.names);
    lemma_bound(cx, state, path, span, machine);
    lemma_digits();
    let keys = backing(cx, state, path);
    let (write, before) = push_value(cx, state, path, value, span).1;
    let read = with_length(cx, state, path, machine);
    if elements.len() < u32::MAX {
        let ready = ran_all(machine, before)->0;
        assert(ran_all(machine, before) is Some);
        assert(keeps_locals(machine, ready));
        assert(value_of(ready, value) == Some(pushed));
        let after = written(ready, write)->0;
        assert(written(ready, write) is Some);
        assert(mapping_at(after, keys.0) == mapping_at(machine, keys.0).insert(
            Value::Number(elements.len() as int),
            pushed,
        ));
        assert(length_in(after, keys.1) == Value::Number((elements.len() + 1) as int));
        assert(holds_vector(after, keys, elements.push(pushed)));
        assert(keeps_locals(machine, after));
        assert(changes_only(machine, after, keys));
    }
}

/// What `Vector::pop` is lowered to removes the last element and gives it, or gives `none` if there
/// is none.
pub proof fn pops_take_the_last(
    cx: Context,
    state: State,
    path: Path,
    element: Type,
    span: Span,
    machine: Machine,
    elements: Seq<Value>,
)
    requires
        pop_value(cx, state, path, element, span) is Ok,
        can_run(state, path, pop_value(cx, state, path, element, span)->Ok_0.0, machine),
        holds_vector(machine, backing(cx, state, path), elements),
    ensures
        ({
            let (popped, before) = pop_value(cx, state, path, element, span)->Ok_0.1;
            let keys = backing(cx, state, path);
            ran_all(machine, before) matches Some(after) && changes_only(machine, after, keys)
                && if elements.len() == 0 {
                value_of(after, popped) == Some(Value::Absent) && holds_vector(
                    after,
                    keys,
                    elements,
                )
            } else {
                value_of(after, popped) == Some(elements.last()) && holds_vector(
                    after,
                    keys,
                    elements.drop_last(),
                )
            }
        }),
{
    reveal(pop_value);
    reveal_with_fuel(ran_all, 3);
    let keys = backing(cx, state, path);
    let (after_pop, (popped, before)) = pop_value(cx, state, path, element, span)->Ok_0;
    let (bound, vector) = bind_vector(cx, state, path, span);
    let (s1, zero_literal) = literal_zero_u32(bound);
    let (s2, is_filled) = binary_expr(cx, s1, vector.len_var, BinaryOperation::Gt, zero_literal);
    let (s3, one_literal) = literal_one_u32(s2);
    let (s4, decrement) = binary_expr(
        cx,
        s3,
        vector.len_var,
        BinaryOperation::SubWrapped,
        one_literal,
    );
    let (s5, new_len) = ternary_expr(cx, s4, is_filled, decrement, vector.len_var, span);
    let (s6, key) = literal_false(s5);
    let (s7, set_len) = set_mapping_expr(s6, vector.length, key, new_len, span);
    let (s8, _) = expression_statement(s7, set_len, span);
    lemma_zero(cx, s8, element, machine);
    interned_symbols_last(s2.names, "1"@, machine.names);
    interned_symbols_last(bound.names, "0"@, machine.names);
    lemma_bound(cx, state, path, span, machine);
    lemma_digits();
    let read = with_length(cx, state, path, machine);
    let after = ran_all(machine, before)->0;
    assert(ran_all(machine, before) is Some);
    assert(mapping_at(after, keys.0) == mapping_at(machine, keys.0));
    if elements.len() > 0 {
        assert(element_in(machine, keys.0, elements.len() - 1) == Some(
            elements[elements.len() - 1],
        ));
        assert(length_in(after, keys.1) == Value::Number(elements.len() - 1));
        assert(holds_vector(after, keys, elements.drop_last()));
    } else {
        assert(length_in(after, keys.1) == Value::Number(0));
        assert(holds_vector(after, keys, elements));
    }
    assert(keeps_locals(machine, after));
    assert(changes_only(machine, after, keys));
}

/// What `Vector::get` is lowered to gives the element at the index, or `none` behind the end. The
/// vector stays as it is.
pub proof fn gets_give_the_element(
    cx: Context,
    state: State,
    path: Path,
    element: Type,
    index: Expression,
    span: Span,
    machine: Machine,
    elements: Seq<Value>,
    at: int,
)
    requires
        get_value(cx, state, path, element, index, span) is Ok,
        can_run(state, path, get_value(cx, state, path, element, index, span)->Ok_0.0, machine),
        holds_vector(machine, backing(cx, state, path), elements),
        stays(machine, index, Value::Number(at)),
        0 <= at <= u32::MAX,
    ensures
        ({
            let (got, before) = get_value(cx, state, path, element, index, span)->Ok_0.1;
            ran_all(machine, before) matches Some(after) && keeps_locals(machine, after)
                && after.mappings == machine.mappings && value_of(after, got) == Some(
                if at < elements.len() {
                    elements[at]
                } else {
                    Value::Absent
                },
            )
        }),
{
    reveal(get_value);
    reveal_with_fuel(ran_all, 2);
    let keys = backing(cx, state, path);
    let (got, before) = get_value(cx, state, path, element, index, span)->Ok_0.1;
    let (bound, vector) = bind_vector(cx, state, path, span);
    let (s1, _) = binary_expr(cx, bound, index, BinaryOperation::Lt, vector.len_var);
    lemma_zero(cx, s1, element, machine);
    lemma_bound(cx, state, path, span, machine);
    let after = ran_all(machine, before)->0;
    assert(after == with_length(cx, state, path, machine));
    assert(keeps_locals(machine, after));
    assert(value_of(after, index) == Some(Value::Number(at)));
    if at < elements.len() {
        assert(element_in(machine, keys.0, at) == Some(elements[at]));
    }
}

/// What `Vector::set` is lowered to replaces the element at the index. It fails behind the end.
pub proof fn sets_replace_the_element(
    cx: Context,
    state: State,
    path: Path,
    index: Expression,
    value: Expression,
    span: Span,
    machine: Machine,
    elements: Seq<Value>,
    at: int,
    stored: Value,
)
    requires
        can_run(state, path, set_value(cx, state, path, index, value, span).0, machine),
        holds_vector(machine, backing(cx, state, path), elements),
        stays(machine, index, Value::Number(at)),
        stays(machine, value, stored),
        0 <= at <= u32::MAX,
    ensures
        ({
            let (write, before) = set_value(cx, state, path, index, value, span).1;
            let keys = backing(cx, state, path);
            if at < elements.len() {
                ran_all(machine, before) matches Some(ready) && written(ready, write) matches Some(
                    after,
                ) && holds_vector(after, keys, elements.update(at, stored)) && changes_only(
                    machine,
                    after,
                    keys,
                )
            } else {
                ran_all(machine, before) is None
            }
        }),
{
    reveal(set_value);
    reveal_with_fuel(ran_all, 3);
    let keys = backing(cx, state, path);
    let (write, before) = set_value(cx, state, path, index, value, span).1;
    lemma_bound(cx, state, path, span, machine);
    let read = with_length(cx, state, path, machine);
    assert(value_of(read, index) == Some(Value::Number(at)));
    assert(value_of(read, value) == Some(stored));
    if at < elements.len() {
        let after = written(read, write)->0;
        assert(ran_all(machine, before) == Some(read));
        assert(mapping_at(after, keys.0) == mapping_at(machine, keys.0).insert(
            Value::Number(at),
            stored,
        ));
        assert(holds_vector(after, keys, elements.update(at, stored)));
        assert(changes_only(machine, after, keys));
    }
}

/// What `Vector::len` is lowered to gives the number of elements.
pub proof fn lens_give_the_length(
    cx: Context,
    state: State,
    path: Path,
    span: Span,
    machine: Machine,
    elements: Seq<Value>,
)
    requires
        can_run(state, path, vector_len(cx, state, path, span).0, machine),
        holds_vector(machine, backing(cx, state, path), elements),
    ensures
        ({
            let (read, before) = vector_len(cx, state, path, span).1;
            before == List::<Statement>::Nil && value_of(machine, read) == Some(
                Value::Number(elements.len() as int),
            )
        }),
{
    reveal(vector_len);
    reveal(get_vector_len_expr);
    let generated = generate_vector_mapping_exprs(cx, state, path).0;
    interned_symbols_last(generated.names, "0"@, machine.names);
    lemma_backing(cx, state, path, machine.names);
    lemma_digits();
}

/// What `Vector::clear` is lowered to empties the vector.
pub proof fn clears_empty_the_vector(
    cx: Context,
    state: State,
    path: Path,
    span: Span,
    machine: Machine,
    elements: Seq<Value>,
)
    requires
        can_run(state, path, clear_vector(cx, state, path, span).0, machine),
        holds_vector(machine, backing(cx, state, path), elements),
    ensures
        ({
            let (write, before) = clear_vector(cx, state, path, span).1;
            let keys = backing(cx, state, path);
            &&& before == List::<Statement>::Nil
            &&& written(machine, write) matches Some(after) && holds_vector(
                after,
                keys,
                Seq::empty(),
            ) && changes_only(machine, after, keys)
        }),
{
    reveal(clear_vector);
    let keys = backing(cx, state, path);
    let generated = generate_vector_mapping_exprs(cx, state, path).0;
    interned_symbols_last(generated.names, "0"@, machine.names);
    lemma_backing(cx, state, path, machine.names);
    lemma_digits();
    let (write, _) = clear_vector(cx, state, path, span).1;
    let after = written(machine, write)->0;
    assert(length_in(after, keys.1) == Value::Number(0));
    assert(changes_only(machine, after, keys));
}

/// What `Vector::swap_remove` is lowered to gives the element at the index, puts the last element
/// in its place and drops the end. It fails behind the end.
pub proof fn swap_removes_fill_the_gap(
    cx: Context,
    state: State,
    path: Path,
    index: Expression,
    span: Span,
    machine: Machine,
    elements: Seq<Value>,
    at: int,
)
    requires
        can_run(state, path, swap_remove_value(cx, state, path, index, span).0, machine),
        is_free(machine, "$removed"@, bind_vector(cx, state, path, span).0.next_name),
        holds_vector(machine, backing(cx, state, path), elements),
        stays(machine, index, Value::Number(at)),
        0 <= at <= u32::MAX,
    ensures
        ({
            let (removed, before) = swap_remove_value(cx, state, path, index, span).1;
            let keys = backing(cx, state, path);
            if at < elements.len() {
                ran_all(machine, before) matches Some(after) && value_of(after, removed) == Some(
                    elements[at],
                ) && holds_vector(after, keys, elements.update(at, elements.last()).drop_last())
                    && changes_only(machine, after, keys)
            } else {
                ran_all(machine, before) is None
            }
        }),
{
    reveal(swap_remove_value);
    reveal_with_fuel(ran_all, 6);
    reveal_with_fuel(appended, 3);
    let keys = backing(cx, state, path);
    let (removed, before) = swap_remove_value(cx, state, path, index, span).1;
    let (bound, vector) = bind_vector(cx, state, path, span);
    let (s1, in_bounds) = binary_expr(cx, bound, index, BinaryOperation::Lt, vector.len_var);
    let (s2, assertion) = assert_statement(s1, in_bounds, span);
    let (s3, get) = get_mapping_expr(cx, s2, vector.values, index, span);
    let (s4, fresh) = fresh_identifier(s3, "$removed"@);
    interned_symbols_last(s4.names, "1"@, machine.names);
    let text = "$removed"@ + "$"@ + decimal(s3.next_name as nat);
    interned_symbols_last(s3.names, text, machine.names);
    lemma_bound(cx, state, path, span, machine);
    lemma_digits();
    let read = with_length(cx, state, path, machine);
    let len_name = len_identifier(cx, state, path).name;
    assert(fresh.name != len_name) by {
        reveal_strlit("$removed");
        reveal_strlit("$len_var");
        assert(text[1] == 'r');
        assert(text_of(machine.names, len_name)[1] == 'l');
    }
    assert(value_of(read, index) == Some(Value::Number(at)));
    if at < elements.len() {
        assert(element_in(machine, keys.0, at) == Some(elements[at]));
        assert(element_in(machine, keys.0, elements.len() - 1) == Some(
            elements[elements.len() - 1],
        ));
        let kept = Machine { locals: read.locals.insert(fresh.name, elements[at]), ..read };
        assert(keeps_locals(machine, kept));
        assert(value_of(kept, index) == Some(Value::Number(at)));
        let swapped = Machine {
            mappings: kept.mappings.insert(
                keys.0,
                mapping_at(kept, keys.0).insert(Value::Number(at), elements.last()),
            ),
            ..kept
        };
        let after = ran_all(machine, before)->0;
        assert(ran_all(machine, before) is Some);
        assert(mapping_at(after, keys.0) == mapping_at(swapped, keys.0));
        assert(length_in(after, keys.1) == Value::Number(elements.len() - 1));
        assert(holds_vector(after, keys, elements.update(at, elements.last()).drop_last()));
        assert(keeps_locals(machine, after));
        assert(changes_only(machine, after, keys));
    }
}

} // verus!
