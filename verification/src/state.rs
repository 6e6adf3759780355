//! What the passes share: node numbers, generated names, the types of nodes, and what the global
//! names of a program stand for.
use crate::ast::{
    no_span, DefinitionPlace, DefinitionStatement, Expression, Identifier, Location, NodeId, Span,
    Statement, Symbol, Type,
};
use crate::list::{List, Share};
use crate::names::{
    decimal, decimal_text, interned, interned_symbols_last, interning_keeps_texts, is_digit, keeps,
    numbered_names_differ, push_chars, push_str, text_of, Names, Texts,
};
use crate::units::{Interface, Member};
use std::collections::HashMap;
use std::rc::Rc;
use vstd::prelude::*;

verus! {

broadcast use vstd::std_specs::hash::group_hash_axioms;

/// Why a tree was not lowered.
#[derive(Clone, Copy, Debug, PartialEq, Eq, Structural)]
pub enum Halt {
    /// The steps nested deeper than they may. Without a limit, that is deeper than `usize` counts.
    Depth,
    /// The tree is not one that type checking lets through.
    IllFormed,
}

/* Locations */

/// The symbols of a location as numbers, program first.
pub open spec fn location_key(location: Location) -> Seq<usize> {
    seq![location.program.index] + path_key(location.path)
}

/// The symbols of `path` as numbers.
pub open spec fn path_key(path: List<Symbol>) -> Seq<usize>
    decreases path,
{
    match path {
        List::Nil => Seq::empty(),
        List::Cons(symbol, rest) => seq![symbol.index] + path_key(*rest),
    }
}

fn push_path_key(path: &List<Symbol>, out: &mut Vec<usize>)
    ensures
        final(out)@ == old(out)@ + path_key(*path),
    decreases *path,
{
    match path {
        List::Nil => {
            assert(out@ =~= old(out)@ + path_key(*path));
        },
        List::Cons(symbol, rest) => {
            out.push(symbol.index);
            push_path_key(rest, out);
            assert(out@ =~= old(out)@ + path_key(*path));
        },
    }
}

impl Location {
    /// The symbols of the location as numbers, program first.
    pub fn key(&self) -> (r: Vec<usize>)
        ensures
            r@ == location_key(*self),
    {
        let mut out: Vec<usize> = Vec::new();
        out.push(self.program.index);
        push_path_key(&self.path, &mut out);
        assert(out@ =~= location_key(*self));
        out
    }

    /// Whether both are the same location.
    pub fn same(&self, other: &Location) -> (r: bool)
        ensures
            r == (*self == *other),
    {
        self.program == other.program && same_symbols(&self.path, &other.path)
    }
}

fn same_symbols(first: &List<Symbol>, second: &List<Symbol>) -> (r: bool)
    ensures
        r == (*first == *second),
    decreases *first,
{
    match (first, second) {
        (List::Nil, List::Nil) => true,
        (List::Cons(a, rest_a), List::Cons(b, rest_b)) => *a == *b && same_symbols(rest_a, rest_b),
        _ => false,
    }
}

proof fn lemma_path_key_injective(first: &List<Symbol>, second: &List<Symbol>)
    requires
        path_key(*first) == path_key(*second),
    ensures
        *first == *second,
    decreases *first,
{
    match (first, second) {
        (List::Nil, List::Nil) => {},
        (List::Cons(a, rest_a), List::Cons(b, rest_b)) => {
            assert(path_key(*first)[0] == a.index);
            assert(path_key(*second)[0] == b.index);
            assert(path_key(*first).skip(1) =~= path_key(**rest_a));
            assert(path_key(*second).skip(1) =~= path_key(**rest_b));
            lemma_path_key_injective(rest_a, rest_b);
        },
        (List::Cons(_, rest), List::Nil) => {
            assert(path_key(*first).len() > 0);
        },
        (List::Nil, List::Cons(_, rest)) => {
            assert(path_key(*second).len() > 0);
        },
    }
}

/// Different locations have different keys.
pub proof fn location_keys_tell_locations_apart(first: &Location, second: &Location)
    requires
        location_key(*first) == location_key(*second),
    ensures
        *first == *second,
{
    assert(location_key(*first)[0] == first.program.index);
    assert(location_key(*second)[0] == second.program.index);
    assert(location_key(*first).skip(1) =~= path_key(first.path));
    assert(location_key(*second).skip(1) =~= path_key(second.path));
    lemma_path_key_injective(&first.path, &second.path);
}

/* The symbol table */

/// A global variable as the program `viewer` sees it.
#[derive(Debug, PartialEq, Eq)]
pub struct GlobalSymbol {
    pub viewer: Symbol,
    pub location: Location,
    pub type_: Option<Type>,
}

/// A struct as the program `viewer` sees it.
#[derive(Debug, PartialEq, Eq)]
pub struct StructSymbol {
    pub viewer: Symbol,
    pub location: Location,
    pub members: List<Member>,
}

/// An interface as the program `viewer` sees it.
#[derive(Debug, PartialEq, Eq)]
pub struct InterfaceSymbol {
    pub viewer: Symbol,
    pub location: Location,
    pub interface: Rc<Interface>,
}

/// What each program sees under each location. The first entry for a location counts.
#[derive(Debug, PartialEq, Eq)]
pub struct SymbolTable {
    pub globals: List<GlobalSymbol>,
    pub structs: List<StructSymbol>,
    pub interfaces: List<InterfaceSymbol>,
}

/// The type of the first variable in `globals` that `viewer` sees at `location`: `None` if it sees
/// none, `Some(None)` if its type is not known.
pub open spec fn global_in(
    globals: List<GlobalSymbol>,
    viewer: Symbol,
    location: Location,
) -> Option<Option<Type>>
    decreases globals,
{
    match globals {
        List::Nil => None,
        List::Cons(entry, rest) => if entry.viewer == viewer && entry.location == location {
            Some(entry.type_)
        } else {
            global_in(*rest, viewer, location)
        },
    }
}

/// The members of the first struct in `structs` that `viewer` sees at `location`.
pub open spec fn struct_in(
    structs: List<StructSymbol>,
    viewer: Symbol,
    location: Location,
) -> Option<List<Member>>
    decreases structs,
{
    match structs {
        List::Nil => None,
        List::Cons(entry, rest) => if entry.viewer == viewer && entry.location == location {
            Some(entry.members)
        } else {
            struct_in(*rest, viewer, location)
        },
    }
}

/// The first interface in `interfaces` that `viewer` sees at `location`.
pub open spec fn interface_in(
    interfaces: List<InterfaceSymbol>,
    viewer: Symbol,
    location: Location,
) -> Option<Interface>
    decreases interfaces,
{
    match interfaces {
        List::Nil => None,
        List::Cons(entry, rest) => if entry.viewer == viewer && entry.location == location {
            Some(*entry.interface)
        } else {
            interface_in(*rest, viewer, location)
        },
    }
}

fn find_global(globals: &List<GlobalSymbol>, viewer: Symbol, location: &Location) -> (r: Option<
    Option<Type>,
>)
    ensures
        r == global_in(*globals, viewer, *location),
    decreases *globals,
{
    match globals {
        List::Nil => None,
        List::Cons(entry, rest) => if entry.viewer == viewer && entry.location.same(location) {
            Some(entry.type_.share())
        } else {
            find_global(rest, viewer, location)
        },
    }
}

fn find_struct(structs: &List<StructSymbol>, viewer: Symbol, location: &Location) -> (r: Option<
    List<Member>,
>)
    ensures
        r == struct_in(*structs, viewer, *location),
    decreases *structs,
{
    match structs {
        List::Nil => None,
        List::Cons(entry, rest) => if entry.viewer == viewer && entry.location.same(location) {
            Some(entry.members.share())
        } else {
            find_struct(rest, viewer, location)
        },
    }
}

fn find_interface(
    interfaces: &List<InterfaceSymbol>,
    viewer: Symbol,
    location: &Location,
) -> (r: Option<Rc<Interface>>)
    ensures
        r is Some <==> interface_in(*interfaces, viewer, *location) is Some,
        r is Some ==> *r->0 == interface_in(*interfaces, viewer, *location)->0,
    decreases *interfaces,
{
    match interfaces {
        List::Nil => None,
        List::Cons(entry, rest) => if entry.viewer == viewer && entry.location.same(location) {
            Some(entry.interface.clone())
        } else {
            find_interface(rest, viewer, location)
        },
    }
}

impl SymbolTable {
    /// The type of the variable that `viewer` sees at `location`: `None` if there is none,
    /// `Some(None)` if its type is not known.
    pub fn lookup_global(&self, viewer: Symbol, location: &Location) -> (r: Option<Option<Type>>)
        ensures
            r == global_in(self.globals, viewer, *location),
    {
        find_global(&self.globals, viewer, location)
    }

    /// The members of the struct that `viewer` sees at `location`.
    pub fn lookup_struct(&self, viewer: Symbol, location: &Location) -> (r: Option<List<Member>>)
        ensures
            r == struct_in(self.structs, viewer, *location),
    {
        find_struct(&self.structs, viewer, location)
    }

    /// The interface that `viewer` sees at `location`.
    pub fn lookup_interface(&self, viewer: Symbol, location: &Location) -> (r: Option<
        Rc<Interface>,
    >)
        ensures
            r is Some <==> interface_in(self.interfaces, viewer, *location) is Some,
            r is Some ==> *r->0 == interface_in(self.interfaces, viewer, *location)->0,
    {
        find_interface(&self.interfaces, viewer, location)
    }
}

/* The types of nodes */

/// The types that are known of nodes.
#[derive(Debug)]
pub struct TypeTable {
    types: HashMap<u32, Type>,
}

impl View for TypeTable {
    type V = Map<NodeId, Type>;

    closed spec fn view(&self) -> Map<NodeId, Type> {
        self.types@
    }
}

/// The type of `id` among `types`, where it is known.
pub open spec fn type_of(types: Map<NodeId, Type>, id: NodeId) -> Option<Type> {
    if types.contains_key(id) {
        Some(types[id])
    } else {
        None
    }
}

impl TypeTable {
    /// The table in which nothing is known.
    pub fn new() -> (r: TypeTable)
        ensures
            r@ == Map::<NodeId, Type>::empty(),
    {
        TypeTable { types: HashMap::new() }
    }

    pub fn get(&self, id: NodeId) -> (r: Option<Type>)
        ensures
            r == type_of(self@, id),
    {
        match self.types.get(&id) {
            Some(type_) => Some(type_.share()),
            None => None,
        }
    }

    /// Records that `id` has the type `type_`, in place of what was known of it.
    pub fn insert(&mut self, id: NodeId, type_: Type)
        ensures
            final(self)@ == old(self)@.insert(id, type_),
    {
        self.types.insert(id, type_);
    }
}

/* The state of a pass */

/// What changes while a pass runs.
#[verifier::ext_equal]
pub struct State {
    pub names: Texts,
    pub types: Map<NodeId, Type>,
    /// The number that the next node gets.
    pub next_id: NodeId,
    /// The number that makes the next generated name unique.
    pub next_name: u64,
}

/// Node numbers are given out in order and start over after the last one.
pub open spec fn id_after(id: NodeId) -> NodeId {
    if id == u32::MAX {
        0
    } else {
        (id + 1) as u32
    }
}

/// `state` with its next node number taken. The number taken is `state.next_id`.
pub open spec fn with_id(state: State) -> State {
    State { next_id: id_after(state.next_id), ..state }
}

/// `state` with `id` known to have the type `type_`.
pub open spec fn with_type(state: State, id: NodeId, type_: Type) -> State {
    State { types: state.types.insert(id, type_), ..state }
}

/// `state` with its next node number taken for a node of type `type_`.
pub open spec fn with_typed_id(state: State, type_: Type) -> State {
    with_type(with_id(state), state.next_id, type_)
}

/// The symbol for `text`, and the state in which it is interned.
pub open spec fn with_symbol(state: State, text: Seq<char>) -> (State, Symbol) {
    let (names, symbol) = interned(state.names, text);
    (State { names, ..state }, symbol)
}

/// The symbol for the text of `base` followed by `suffix`.
pub open spec fn with_suffixed(state: State, base: Symbol, suffix: Seq<char>) -> (State, Symbol) {
    with_symbol(state, text_of(state.names, base) + suffix)
}

/// A symbol made of `stem`, `separator` and the next unused number.
pub open spec fn with_unique(
    state: State,
    stem: Seq<char>,
    separator: Seq<char>,
) -> (State, Symbol) {
    let next_name: u64 = if state.next_name == u64::MAX {
        0
    } else {
        (state.next_name + 1) as u64
    };
    with_symbol(State { next_name, ..state }, stem + separator + decimal(state.next_name as nat))
}

/// A generated name is different from every name that was generated with another number, whatever
/// they start with.
pub proof fn generated_names_differ(
    state: State,
    stem: Seq<char>,
    separator: Seq<char>,
    later: State,
    other_stem: Seq<char>,
    other_separator: Seq<char>,
)
    requires
        separator.len() > 0,
        !is_digit(separator.last()),
        other_separator.len() > 0,
        !is_digit(other_separator.last()),
        state.next_name != later.next_name,
        keeps(with_unique(state, stem, separator).0.names, later.names),
        later.names.len() < usize::MAX,
    ensures
        with_unique(state, stem, separator).1 != with_unique(
            later,
            other_stem,
            other_separator,
        ).1,
{
    let text = stem + separator + decimal(state.next_name as nat);
    let other_text = other_stem + other_separator + decimal(later.next_name as nat);
    numbered_names_differ(
        stem + separator,
        other_stem + other_separator,
        state.next_name as nat,
        later.next_name as nat,
    );
    interned_symbols_last(state.names, text, later.names);
    interning_keeps_texts(later.names, other_text, interned(state.names, text).1);
}

/// `let identifier = value;`
pub open spec fn simple_definition(
    identifier: Identifier,
    value: Expression,
    id: NodeId,
) -> Statement {
    Statement::Definition(
        Rc::new(
            DefinitionStatement {
                place: DefinitionPlace::Single(identifier),
                type_: None,
                value,
                span: no_span(),
                id,
            },
        ),
    )
}

/// What the passes share.
#[derive(Debug)]
pub struct CompilerState {
    pub names: Names,
    pub type_table: TypeTable,
    pub symbol_table: Rc<SymbolTable>,
    pub next_id: NodeId,
    pub next_name: u64,
}

impl View for CompilerState {
    type V = State;

    open spec fn view(&self) -> State {
        State {
            names: self.names@,
            types: self.type_table@,
            next_id: self.next_id,
            next_name: self.next_name,
        }
    }
}

impl CompilerState {
    /// The state before anything is interned, numbered or typed.
    pub fn new(symbol_table: SymbolTable) -> (r: CompilerState)
        ensures
            *r.symbol_table == symbol_table,
            r@ == (State {
                names: Texts::empty(),
                types: Map::empty(),
                next_id: 0,
                next_name: 0,
            }),
    {
        CompilerState {
            names: Names::new(),
            type_table: TypeTable::new(),
            symbol_table: Rc::new(symbol_table),
            next_id: 0,
            next_name: 0,
        }
    }

    /// Takes the next node number.
    pub fn take_id(&mut self) -> (r: NodeId)
        ensures
            r == old(self).next_id,
            final(self)@ == with_id(old(self)@),
            final(self).symbol_table == old(self).symbol_table,
    {
        let id: NodeId = self.next_id;
        self.next_id = if id == u32::MAX {
            0
        } else {
            id + 1
        };
        id
    }

    /// Takes the next node number for a node of type `type_`.
    pub fn take_typed_id(&mut self, type_: Type) -> (r: NodeId)
        ensures
            r == old(self).next_id,
            final(self)@ == with_typed_id(old(self)@, type_),
            final(self).symbol_table == old(self).symbol_table,
    {
        let id: NodeId = self.take_id();
        self.type_table.insert(id, type_);
        id
    }

    /// Records that `id` has the type `type_`.
    pub fn set_type(&mut self, id: NodeId, type_: Type)
        ensures
            final(self)@ == with_type(old(self)@, id, type_),
            final(self).symbol_table == old(self).symbol_table,
    {
        self.type_table.insert(id, type_);
    }

    /// The type of `id`, where it is known.
    pub fn get_type(&self, id: NodeId) -> (r: Option<Type>)
        ensures
            r == type_of(self@.types, id),
    {
        self.type_table.get(id)
    }

    /// The symbol for `text`.
    pub fn intern(&mut self, text: &str) -> (r: Symbol)
        ensures
            (final(self)@, r) == with_symbol(old(self)@, text@),
            final(self).symbol_table == old(self).symbol_table,
    {
        self.names.intern(text)
    }

    /// The symbol for the text of `base` followed by `suffix`.
    pub fn suffixed_symbol(&mut self, base: Symbol, suffix: &str) -> (r: Symbol)
        ensures
            (final(self)@, r) == with_suffixed(old(self)@, base, suffix@),
            final(self).symbol_table == old(self).symbol_table,
    {
        let mut text = self.names.text(base);
        push_str(&mut text, suffix);
        self.names.intern_chars(text)
    }

    /// A symbol made of `stem`, `separator` and the next unused number.
    pub fn unique_symbol(&mut self, stem: &str, separator: &str) -> (r: Symbol)
        ensures
            (final(self)@, r) == with_unique(old(self)@, stem@, separator@),
            final(self).symbol_table == old(self).symbol_table,
    {
        let mut text: Vec<char> = Vec::new();
        push_str(&mut text, stem);
        assert(text@ =~= stem@);
        self.number_text(text, separator)
    }

    /// A symbol made of the text of `base`, `separator` and the next unused number.
    pub fn unique_symbol_of(&mut self, base: Symbol, separator: &str) -> (r: Symbol)
        ensures
            (final(self)@, r) == with_unique(
                old(self)@,
                text_of(old(self)@.names, base),
                separator@,
            ),
            final(self).symbol_table == old(self).symbol_table,
    {
        let text = self.names.text(base);
        self.number_text(text, separator)
    }

    fn number_text(&mut self, stem: Vec<char>, separator: &str) -> (r: Symbol)
        ensures
            (final(self)@, r) == with_unique(old(self)@, stem@, separator@),
            final(self).symbol_table == old(self).symbol_table,
    {
        let mut text = stem;
        push_str(&mut text, separator);
        let number = decimal_text(self.next_name);
        push_chars(&mut text, &number);
        self.next_name = if self.next_name == u64::MAX {
            0
        } else {
            self.next_name + 1
        };
        self.names.intern_chars(text)
    }

    /// `let identifier = value;`
    pub fn simple_definition(&self, identifier: Identifier, value: Expression, id: NodeId) -> (r:
        Statement)
        ensures
            r == simple_definition(identifier, value, id),
    {
        Statement::Definition(
            Rc::new(
                DefinitionStatement {
                    place: DefinitionPlace::Single(identifier),
                    type_: None,
                    value,
                    span: Span::none(),
                    id,
                },
            ),
        )
    }
}

} // verus!
