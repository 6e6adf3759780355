//! The insertion-ordered sets and maps of the `indexmap` crate, with what the passes rely on.
//!
//! A set stands for the sequence of its elements in insertion order, a map for the mapping from
//! its keys to its values. Symbols and values are held as their numbers, locations as the numbers
//! of their symbols.
use crate::storage_lowering::join::environment::BindingState;
use crate::storage_lowering::join::rename::Replacement;
use crate::units::Mapping;
use indexmap::{IndexMap, IndexSet};
use vstd::prelude::*;

verus! {

/// `indexmap::IndexMap`, opaque.
#[verifier::external_type_specification]
#[verifier::external_body]
#[verifier::reject_recursive_types(K)]
#[verifier::reject_recursive_types(V)]
#[verifier::reject_recursive_types(S)]
pub struct ExIndexMap<K, V, S>(IndexMap<K, V, S>);

/// `indexmap::IndexSet`, opaque.
#[verifier::external_type_specification]
#[verifier::external_body]
#[verifier::reject_recursive_types(T)]
#[verifier::reject_recursive_types(S)]
pub struct ExIndexSet<T, S>(IndexSet<T, S>);

/* Mappings by location */

/// Mappings, each under its location.
pub type MappingTable = Map<Seq<usize>, Mapping>;

/// The mappings that `map` holds.
pub uninterp spec fn mappings_in(map: IndexMap<Vec<usize>, Mapping>) -> MappingTable;

/// `IndexMap::new`: a map without entries.
#[verifier::external_body]
pub(crate) fn mappings_new() -> (r: IndexMap<Vec<usize>, Mapping>)
    ensures
        mappings_in(r) == MappingTable::empty(),
{
    IndexMap::new()
}

/// `IndexMap::insert`: afterwards `key` leads to `value`, and every other key to what it led to
/// before.
#[verifier::external_body]
pub(crate) fn mappings_insert(
    map: &mut IndexMap<Vec<usize>, Mapping>,
    key: Vec<usize>,
    value: Mapping,
)
    ensures
        mappings_in(*final(map)) == mappings_in(*old(map)).insert(key@, value),
{
    map.insert(key, value);
}

/// `IndexMap::get`: the value under `key`, or `None` if there is no such key.
#[verifier::external_body]
pub(crate) fn mappings_get<'a>(map: &'a IndexMap<Vec<usize>, Mapping>, key: &Vec<usize>) -> (r:
    Option<&'a Mapping>)
    ensures
        r is Some <==> mappings_in(*map).contains_key(key@),
        r is Some ==> *r->0 == mappings_in(*map)[key@],
{
    map.get(key)
}

/* Bindings by symbol */

/// Bindings, each under the number of its symbol.
pub type BindingTable = Map<usize, BindingState>;

/// The bindings that `map` holds.
pub uninterp spec fn bindings_in(map: IndexMap<usize, BindingState>) -> BindingTable;

/// `IndexMap::new`: a map without entries.
#[verifier::external_body]
pub(crate) fn bindings_new() -> (r: IndexMap<usize, BindingState>)
    ensures
        bindings_in(r) == BindingTable::empty(),
{
    IndexMap::new()
}

/// `IndexMap::insert`: afterwards `key` leads to `value`, and every other key to what it led to
/// before.
#[verifier::external_body]
pub(crate) fn bindings_insert(
    map: &mut IndexMap<usize, BindingState>,
    key: usize,
    value: BindingState,
)
    ensures
        bindings_in(*final(map)) == bindings_in(*old(map)).insert(key, value),
{
    map.insert(key, value);
}

/// `IndexMap::get`: the value under `key`, or `None` if there is no such key.
#[verifier::external_body]
pub(crate) fn bindings_get(map: &IndexMap<usize, BindingState>, key: usize) -> (r: Option<
    BindingState,
>)
    ensures
        r is Some <==> bindings_in(*map).contains_key(key),
        r is Some ==> r->0 == bindings_in(*map)[key],
{
    map.get(&key).copied()
}

/// `IndexMap::clone`: a map with the same entries.
#[verifier::external_body]
pub(crate) fn bindings_clone(map: &IndexMap<usize, BindingState>) -> (r: IndexMap<
    usize,
    BindingState,
>)
    ensures
        bindings_in(r) == bindings_in(*map),
{
    map.clone()
}

/* Sets of values */

/// The elements of `set` in the order in which they were inserted.
pub uninterp spec fn values_in(set: IndexSet<u32>) -> Seq<u32>;

/// `elements`, with `element` added behind them if it is not among them.
pub open spec fn with_element<T>(elements: Seq<T>, element: T) -> Seq<T> {
    if elements.contains(element) {
        elements
    } else {
        elements.push(element)
    }
}

/// `elements` with each of `added` put behind them that is not among them yet.
pub open spec fn with_elements<T>(elements: Seq<T>, added: Seq<T>) -> Seq<T>
    decreases added.len(),
{
    if added.len() == 0 {
        elements
    } else {
        with_element(with_elements(elements, added.drop_last()), added.last())
    }
}

/// Adding elements after others is adding all of them.
pub broadcast proof fn with_elements_joined<T>(elements: Seq<T>, first: Seq<T>, second: Seq<T>)
    ensures
        #[trigger] with_elements(elements, first + second) == with_elements(
            with_elements(elements, first),
            second,
        ),
    decreases second.len(),
{
    if second.len() == 0 {
        assert(first + second =~= first);
    } else {
        assert((first + second).drop_last() =~= first + second.drop_last());
        with_elements_joined(elements, first, second.drop_last());
    }
}

/// The elements with others added are those that were there and those that were added.
pub proof fn with_elements_contains<T>(elements: Seq<T>, added: Seq<T>, element: T)
    ensures
        with_elements(elements, added).contains(element) <==> elements.contains(element)
            || added.contains(element),
    decreases added.len(),
{
    if added.len() > 0 {
        let before = with_elements(elements, added.drop_last());
        let last = added.last();
        with_elements_contains(elements, added.drop_last(), element);
        assert(added =~= added.drop_last().push(last));
        assert(with_element(before, last).contains(element) <==> before.contains(element)
            || element == last) by {
            if !before.contains(last) {
                assert(before.push(last)[before.len() as int] == last);
                if before.contains(element) {
                    let i = choose|i: int| 0 <= i < before.len() && before[i] == element;
                    assert(before.push(last)[i] == element);
                }
            }
        }
        assert(added.contains(element) <==> added.drop_last().contains(element) || element
            == last) by {
            assert(added[added.len() - 1] == last);
            if added.drop_last().contains(element) {
                let i = choose|i: int|
                    0 <= i < added.len() - 1 && added.drop_last()[i] == element;
                assert(added[i] == element);
            }
            if added.contains(element) && element != last {
                let i = choose|i: int| 0 <= i < added.len() && added[i] == element;
                assert(added.drop_last()[i] == element);
            }
        }
    }
}

/// `IndexSet::new`: a set without elements.
#[verifier::external_body]
pub(crate) fn values_new() -> (r: IndexSet<u32>)
    ensures
        values_in(r) == Seq::<u32>::empty(),
{
    IndexSet::new()
}

/// `IndexSet::insert`: an element that the set does not hold yet is added behind the others.
#[verifier::external_body]
pub(crate) fn values_insert(set: &mut IndexSet<u32>, value: u32)
    ensures
        values_in(*final(set)) == with_element(values_in(*old(set)), value),
{
    set.insert(value);
}

/// `IndexSet::is_disjoint`: whether no element is in both sets.
#[verifier::external_body]
pub(crate) fn values_disjoint(set: &IndexSet<u32>, other: &IndexSet<u32>) -> (r: bool)
    ensures
        r == (forall|value: u32|
            !(values_in(*set).contains(value) && values_in(*other).contains(value))),
{
    set.is_disjoint(other)
}

/// `IndexSet::extend`: the elements of `other` are inserted one by one, in their order.
#[verifier::external_body]
pub(crate) fn values_extend(set: &mut IndexSet<u32>, other: &IndexSet<u32>)
    ensures
        values_in(*final(set)) == with_elements(values_in(*old(set)), values_in(*other)),
{
    set.extend(other);
}

/* Replacements by binding */

/// Replacements, each under the scope and the symbol that it is for.
pub type ReplacementTable = Map<(u32, usize), Replacement>;

/// The replacements that `map` holds.
pub uninterp spec fn replacements_in(map: IndexMap<(u32, usize), Replacement>) -> ReplacementTable;

/// `IndexMap::new`: a map without entries.
#[verifier::external_body]
pub(crate) fn replacements_new() -> (r: IndexMap<(u32, usize), Replacement>)
    ensures
        replacements_in(r) == ReplacementTable::empty(),
{
    IndexMap::new()
}

/// `IndexMap::insert`: afterwards `key` leads to `value`, and every other key to what it led to
/// before.
#[verifier::external_body]
pub(crate) fn replacements_insert(
    map: &mut IndexMap<(u32, usize), Replacement>,
    key: (u32, usize),
    value: Replacement,
)
    ensures
        replacements_in(*final(map)) == replacements_in(*old(map)).insert(key, value),
{
    map.insert(key, value);
}

/// `IndexMap::get`: the value under `key`, or `None` if there is no such key.
#[verifier::external_body]
pub(crate) fn replacements_get<'a>(
    map: &'a IndexMap<(u32, usize), Replacement>,
    key: (u32, usize),
) -> (r: Option<&'a Replacement>)
    ensures
        r is Some <==> replacements_in(*map).contains_key(key),
        r is Some ==> *r->0 == replacements_in(*map)[key],
{
    map.get(&key)
}

/* Sets of symbols */

/// The elements of `set`, numbers of symbols, in the order in which they were inserted.
pub uninterp spec fn symbols_in(set: IndexSet<usize>) -> Seq<usize>;

/// `IndexSet::new`: a set without elements.
#[verifier::external_body]
pub(crate) fn symbols_new() -> (r: IndexSet<usize>)
    ensures
        symbols_in(r) == Seq::<usize>::empty(),
{
    IndexSet::new()
}

/// `IndexSet::insert`: an element that the set does not hold yet is added behind the others.
#[verifier::external_body]
pub(crate) fn symbols_insert(set: &mut IndexSet<usize>, symbol: usize)
    ensures
        symbols_in(*final(set)) == with_element(symbols_in(*old(set)), symbol),
{
    set.insert(symbol);
}

/// `IndexSet::contains`: whether the set holds the element.
#[verifier::external_body]
pub(crate) fn symbols_contain(set: &IndexSet<usize>, symbol: usize) -> (r: bool)
    ensures
        r == symbols_in(*set).contains(symbol),
{
    set.contains(&symbol)
}

/* Sets of locations */

/// The elements of `set`, keys of locations, in the order in which they were inserted.
pub uninterp spec fn keys_in(set: IndexSet<Vec<usize>>) -> Seq<Seq<usize>>;

/// `IndexSet::new`: a set without elements.
#[verifier::external_body]
pub(crate) fn keys_new() -> (r: IndexSet<Vec<usize>>)
    ensures
        keys_in(r) == Seq::<Seq<usize>>::empty(),
{
    IndexSet::new()
}

/// `IndexSet::insert`: an element that the set does not hold yet is added behind the others. The
/// result says whether it was.
#[verifier::external_body]
pub(crate) fn keys_insert(set: &mut IndexSet<Vec<usize>>, key: Vec<usize>) -> (r: bool)
    ensures
        r == !keys_in(*old(set)).contains(key@),
        keys_in(*final(set)) == with_element(keys_in(*old(set)), key@),
{
    set.insert(key)
}

/// `IndexSet::contains`: whether the set holds the element.
#[verifier::external_body]
pub(crate) fn keys_contain(set: &IndexSet<Vec<usize>>, key: &Vec<usize>) -> (r: bool)
    ensures
        r == keys_in(*set).contains(key@),
{
    set.contains(key)
}

/// `IndexSet::len`: the number of elements.
#[verifier::external_body]
pub(crate) fn keys_len(set: &IndexSet<Vec<usize>>) -> (r: usize)
    ensures
        r == keys_in(*set).len(),
{
    set.len()
}

/// `IndexSet::get_index`: the element at place `index` in the order of insertion.
#[verifier::external_body]
pub(crate) fn keys_at(set: &IndexSet<Vec<usize>>, index: usize) -> (r: Option<&Vec<usize>>)
    ensures
        r is Some <==> index < keys_in(*set).len(),
        r is Some ==> r->0@ == keys_in(*set)[index as int],
{
    set.get_index(index)
}

/* Dependencies by location */

/// Dependencies: the locations that something depends on, each list under the key of what depends
/// on it, in the order in which the keys were first inserted.
pub type Dependencies = Seq<(Seq<usize>, Seq<Seq<usize>>)>;

/// The dependencies that `map` holds.
pub uninterp spec fn dependencies_in(
    map: IndexMap<Vec<usize>, IndexSet<Vec<usize>>>,
) -> Dependencies;

/// Where `key` stands among `dependencies`.
pub open spec fn dependency_index(dependencies: Dependencies, key: Seq<usize>) -> Option<nat>
    decreases dependencies.len(),
{
    if dependencies.len() == 0 {
        None
    } else if dependencies.last().0 == key {
        Some((dependencies.len() - 1) as nat)
    } else {
        dependency_index(dependencies.drop_last(), key)
    }
}

/// What `key` depends on, if it is among `dependencies`.
pub open spec fn dependencies_of(dependencies: Dependencies, key: Seq<usize>) -> Option<
    Seq<Seq<usize>>,
> {
    match dependency_index(dependencies, key) {
        Some(index) => Some(dependencies[index as int].1),
        None => None,
    }
}

/// `dependencies`, with `key` depending on `value`: in the place that `key` has, or behind all.
pub open spec fn with_dependency(
    dependencies: Dependencies,
    key: Seq<usize>,
    value: Seq<Seq<usize>>,
) -> Dependencies {
    match dependency_index(dependencies, key) {
        Some(index) => dependencies.update(index as int, (key, value)),
        None => dependencies.push((key, value)),
    }
}

/// `IndexMap::new`: a map without entries.
#[verifier::external_body]
pub(crate) fn dependencies_new() -> (r: IndexMap<Vec<usize>, IndexSet<Vec<usize>>>)
    ensures
        dependencies_in(r) == Dependencies::empty(),
{
    IndexMap::new()
}

/// `IndexMap::insert`: a key that is there keeps its place and gets the new value; another key
/// comes behind all that are there.
#[verifier::external_body]
pub(crate) fn dependencies_insert(
    map: &mut IndexMap<Vec<usize>, IndexSet<Vec<usize>>>,
    key: Vec<usize>,
    value: IndexSet<Vec<usize>>,
)
    ensures
        dependencies_in(*final(map)) == with_dependency(
            dependencies_in(*old(map)),
            key@,
            keys_in(value),
        ),
{
    map.insert(key, value);
}

/// `IndexMap::get`: the value under `key`, or `None` if there is no such key.
#[verifier::external_body]
pub(crate) fn dependencies_get<'a>(
    map: &'a IndexMap<Vec<usize>, IndexSet<Vec<usize>>>,
    key: &Vec<usize>,
) -> (r: Option<&'a IndexSet<Vec<usize>>>)
    ensures
        r is Some <==> dependencies_of(dependencies_in(*map), key@) is Some,
        r is Some ==> keys_in(*r->0) == dependencies_of(dependencies_in(*map), key@)->0,
{
    map.get(key)
}

} // verus!
