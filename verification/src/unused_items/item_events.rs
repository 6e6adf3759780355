//! What a walk over the items of a program or a library comes across.
use super::events::{block_events, const_events, scoped, type_events, types_events};
use super::uses::Event;
use crate::ast::{ConstDeclaration, Location, Symbol, Type};
use crate::collections::with_elements;
use crate::list::{appended, one, List};
use crate::names::{text_of, Texts};
use crate::state::location_key;
use crate::units::{
    Annotation, Ast, Composite, Constructor, Function, FunctionPrototype, Interface, Library,
    Mapping, Member, Module, Program, ProgramScope,
};
use vstd::prelude::*;

verus! {

/// Where an item of the name `name` stands, in the module `prefix` of the unit `unit`.
pub open spec fn location_in(unit: Symbol, prefix: List<Symbol>, name: Symbol) -> Location {
    Location { program: unit, path: appended(prefix, one(name)) }
}

/// Whether one of `annotations` is `@test`.
pub open spec fn marks_test(names: Texts, annotations: List<Annotation>) -> bool
    decreases annotations,
{
    match annotations {
        List::Nil => false,
        List::Cons(first, rest) => text_of(names, first.identifier.name) == "test"@ || marks_test(
            names,
            *rest,
        ),
    }
}

/* Composites in types */

/// The composites in a type, whatever they are wrapped in, as keys of locations.
#[verifier::opaque]
pub open spec fn composites_in(type_: Type) -> Seq<Seq<usize>>
    decreases type_,
{
    match type_ {
        Type::Array(array) => composites_in(array.element_type),
        Type::Composite(composite) => match composite.path.spec_try_global_location() {
            Some(location) => seq![location_key(location)],
            None => Seq::empty(),
        },
        Type::Future(future) => composites_among(future.inputs),
        Type::Mapping(mapping) => composites_in(mapping.key) + composites_in(mapping.value),
        Type::Optional(inner) => composites_in(*inner),
        Type::Tuple(elements) => composites_among(*elements),
        Type::Vector(element) => composites_in(*element),
        _ => Seq::empty(),
    }
}

#[verifier::opaque]
pub open spec fn composites_among(types: List<Type>) -> Seq<Seq<usize>>
    decreases types,
{
    match types {
        List::Nil => Seq::empty(),
        List::Cons(first, rest) => composites_in(first) + composites_among(*rest),
    }
}

/// The composites that the types of `members` are made of.
pub open spec fn member_composites(members: List<Member>) -> Seq<Seq<usize>>
    decreases members,
{
    match members {
        List::Nil => Seq::empty(),
        List::Cons(first, rest) => composites_in(first.type_) + member_composites(*rest),
    }
}

/* Items */

/// The types of parameters, members or storage variables.
pub open spec fn member_type_events(items: List<Member>) -> Seq<Event>
    decreases items,
{
    match items {
        List::Nil => Seq::empty(),
        List::Cons(first, rest) => type_events(first.type_) + member_type_events(*rest),
    }
}

/// Parameters come into scope.
pub open spec fn parameter_declarations(items: List<Member>) -> Seq<Event>
    decreases items,
{
    match items {
        List::Nil => Seq::empty(),
        List::Cons(first, rest) => seq![
            Event::Declare { name: first.identifier.name, span: first.identifier.span },
        ]
            + parameter_declarations(*rest),
    }
}

pub open spec fn mapping_events(mapping: Mapping) -> Seq<Event> {
    type_events(mapping.key_type) + type_events(mapping.value_type)
}

pub open spec fn mappings_events(items: List<Mapping>) -> Seq<Event>
    decreases items,
{
    match items {
        List::Nil => Seq::empty(),
        List::Cons(first, rest) => mapping_events(first) + mappings_events(*rest),
    }
}

pub open spec fn prototype_events(prototype: FunctionPrototype) -> Seq<Event> {
    member_type_events(prototype.const_parameters) + member_type_events(prototype.input)
        + types_events(prototype.output) + type_events(prototype.output_type)
}

pub open spec fn prototypes_events(items: List<FunctionPrototype>) -> Seq<Event>
    decreases items,
{
    match items {
        List::Nil => Seq::empty(),
        List::Cons(first, rest) => prototype_events(first) + prototypes_events(*rest),
    }
}

/// An interface holds types alone.
pub open spec fn interface_events(interface: Interface) -> Seq<Event> {
    prototypes_events(interface.functions) + mappings_events(interface.mappings)
        + member_type_events(interface.storages)
}

pub open spec fn interfaces_events(items: List<Interface>) -> Seq<Event>
    decreases items,
{
    match items {
        List::Nil => Seq::empty(),
        List::Cons(first, rest) => interface_events(first) + interfaces_events(*rest),
    }
}

pub open spec fn consts_events(items: List<ConstDeclaration>) -> Seq<Event>
    decreases items,
{
    match items {
        List::Nil => Seq::empty(),
        List::Cons(first, rest) => const_events(first) + consts_events(*rest),
    }
}

/// The parameters of a function are in scope in its whole body. Those of an entry point and of a
/// test are not warned of, so they are not declared.
pub open spec fn function_events(names: Texts, function: Function) -> Seq<Event> {
    let parameters = if function.variant is EntryPoint || marks_test(names, function.annotations) {
        Seq::empty()
    } else {
        parameter_declarations(function.const_parameters) + parameter_declarations(function.input)
    };
    scoped(
        parameters + member_type_events(function.const_parameters) + member_type_events(
            function.input,
        ) + types_events(function.output) + type_events(function.output_type) + block_events(
            function.block,
        ),
    )
}

pub open spec fn functions_events(names: Texts, items: List<Function>) -> Seq<Event>
    decreases items,
{
    match items {
        List::Nil => Seq::empty(),
        List::Cons(first, rest) => function_events(names, first) + functions_events(names, *rest),
    }
}

/// A composite depends on what its members are made of. A record is always used, and with it the
/// types of its members; the members of a struct use nothing by themselves.
pub open spec fn composite_events(
    unit: Symbol,
    prefix: List<Symbol>,
    composite: Composite,
) -> Seq<Event> {
    let location = location_in(unit, prefix, composite.identifier.name);
    let on = with_elements(Seq::empty(), member_composites(composite.members));
    member_type_events(composite.const_parameters) + seq![Event::Depend { location, on }] + (
    if composite.is_record {
        seq![Event::Root { location }] + member_type_events(composite.members)
    } else {
        Seq::empty()
    })
}

pub open spec fn composites_events(
    unit: Symbol,
    prefix: List<Symbol>,
    items: List<Composite>,
) -> Seq<Event>
    decreases items,
{
    match items {
        List::Nil => Seq::empty(),
        List::Cons(first, rest) => composite_events(unit, prefix, first)
            + composites_events(unit, prefix, *rest),
    }
}

/// The structs at the top of a library are always used.
pub open spec fn library_struct_events(unit: Symbol, composite: Composite) -> Seq<Event> {
    seq![Event::Root { location: location_in(unit, List::Nil, composite.identifier.name) }]
        + composite_events(unit, List::Nil, composite)
}

pub open spec fn library_structs_events(unit: Symbol, items: List<Composite>) -> Seq<Event>
    decreases items,
{
    match items {
        List::Nil => Seq::empty(),
        List::Cons(first, rest) => library_struct_events(unit, first)
            + library_structs_events(unit, *rest),
    }
}

pub open spec fn constructor_events(constructor: Option<Constructor>) -> Seq<Event> {
    match constructor {
        None => Seq::empty(),
        Some(constructor) => block_events(constructor.block),
    }
}

pub open spec fn program_scope_events(names: Texts, scope: ProgramScope) -> Seq<Event> {
    consts_events(scope.consts) + composites_events(
        scope.program_id.symbol,
        List::Nil,
        scope.composites,
    ) + interfaces_events(scope.interfaces) + mappings_events(scope.mappings) + member_type_events(
        scope.storage_variables,
    ) + functions_events(names, scope.functions) + constructor_events(scope.constructor)
}

pub open spec fn program_scopes_events(names: Texts, items: List<ProgramScope>) -> Seq<Event>
    decreases items,
{
    match items {
        List::Nil => Seq::empty(),
        List::Cons(first, rest) => program_scope_events(names, first)
            + program_scopes_events(names, *rest),
    }
}

pub open spec fn module_events(names: Texts, module: Module) -> Seq<Event> {
    consts_events(module.consts) + composites_events(
        module.unit_name,
        module.path,
        module.composites,
    ) + interfaces_events(module.interfaces) + functions_events(names, module.functions)
}

pub open spec fn modules_events(names: Texts, items: List<Module>) -> Seq<Event>
    decreases items,
{
    match items {
        List::Nil => Seq::empty(),
        List::Cons(first, rest) => module_events(names, first) + modules_events(names, *rest),
    }
}

pub open spec fn program_unit_events(names: Texts, program: Program) -> Seq<Event> {
    program_scopes_events(names, program.program_scopes) + modules_events(names, program.modules)
}

pub open spec fn library_events(names: Texts, library: Library) -> Seq<Event> {
    consts_events(library.consts) + library_structs_events(library.name, library.structs)
        + functions_events(names, library.functions) + interfaces_events(library.interfaces)
        + modules_events(names, library.modules)
}

/// What a walk over the unit that is compiled comes across. What it imports is not walked over.
pub open spec fn ast_events(names: Texts, ast: Ast) -> Seq<Event> {
    match ast {
        Ast::Program(program) => program_unit_events(names, *program),
        Ast::Library(library) => library_events(names, *library),
    }
}

} // verus!
