//! The walk over the items of a program or a library.
use super::item_events::{
    ast_events, composite_events, composites_among, composites_events, composites_in,
    constructor_events, consts_events, function_events, functions_events, interface_events,
    interfaces_events, library_events, library_structs_events, location_in, mapping_events,
    mappings_events, marks_test, member_composites, member_type_events, module_events,
    modules_events, parameter_declarations, program_scope_events, program_scopes_events,
    program_unit_events, prototype_events, prototypes_events,
};
use super::uses::{run, run_joined, run_one, UseCollector};
use crate::ast::{ConstDeclaration, Location, Symbol, Type};
use crate::collections::{keys_in, keys_insert, keys_new, with_elements, with_elements_joined};
use crate::list::{List, Share};
use crate::names::Names;
use crate::state::location_key;
use crate::units::{
    Annotation, Ast, Composite, Constructor, Function, FunctionPrototype, Interface, Library,
    Mapping, Member, Module, Program, ProgramScope,
};
use indexmap::IndexSet;
use vstd::prelude::*;

verus! {

broadcast use {run_joined, run_one, with_elements_joined};

/// Where an item of the name `name` stands, in the module `prefix` of the unit `unit`.
pub fn current_location(unit: Symbol, prefix: &List<Symbol>, name: Symbol) -> (r: Location)
    ensures
        r == location_in(unit, *prefix, name),
{
    Location { program: unit, path: prefix.push(name) }
}

/// Whether one of `annotations` is `@test`.
pub fn is_test(names: &Names, annotations: &List<Annotation>) -> (r: bool)
    ensures
        r == marks_test(names@, *annotations),
    decreases *annotations,
{
    match annotations {
        List::Nil => false,
        List::Cons(first, rest) => names.is(first.identifier.name, "test") || is_test(names, rest),
    }
}

/// Adds the composites in `type_` to `refs`.
pub fn collect_type_composite_refs(type_: &Type, refs: &mut IndexSet<Vec<usize>>)
    ensures
        keys_in(*final(refs)) == with_elements(keys_in(*old(refs)), composites_in(*type_)),
    decreases *type_,
{
    proof {
        reveal(composites_in);
        reveal(composites_among);
    }
    match type_ {
        Type::Array(array) => {
            collect_type_composite_refs(&array.element_type, refs);
        },
        Type::Composite(composite) => {
            match composite.path.try_global_location() {
                Some(location) => {
                    keys_insert(refs, location.key());
                    proof {
                        let key = location_key(*location);
                        assert(seq![key].drop_last() =~= Seq::<Seq<usize>>::empty());
                        assert(with_elements(keys_in(*old(refs)), Seq::<Seq<usize>>::empty())
                            == keys_in(*old(refs)));
                    }
                },
                None => {},
            }
        },
        Type::Future(future) => {
            collect_types_composite_refs(&future.inputs, refs);
        },
        Type::Mapping(mapping) => {
            collect_type_composite_refs(&mapping.key, refs);
            collect_type_composite_refs(&mapping.value, refs);
        },
        Type::Optional(inner) => {
            collect_type_composite_refs(inner, refs);
        },
        Type::Tuple(elements) => {
            collect_types_composite_refs(elements, refs);
        },
        Type::Vector(element) => {
            collect_type_composite_refs(element, refs);
        },
        _ => {},
    }
}

fn collect_types_composite_refs(types: &List<Type>, refs: &mut IndexSet<Vec<usize>>)
    ensures
        keys_in(*final(refs)) == with_elements(keys_in(*old(refs)), composites_among(*types)),
    decreases *types,
{
    proof {
        reveal(composites_among);
        reveal(composites_in);
    }
    match types {
        List::Nil => {},
        List::Cons(first, rest) => {
            collect_type_composite_refs(first, refs);
            collect_types_composite_refs(rest, refs);
        },
    }
}

fn collect_member_composite_refs(members: &List<Member>, refs: &mut IndexSet<Vec<usize>>)
    ensures
        keys_in(*final(refs)) == with_elements(keys_in(*old(refs)), member_composites(*members)),
    decreases *members,
{
    match members {
        List::Nil => {},
        List::Cons(first, rest) => {
            collect_type_composite_refs(&first.type_, refs);
            collect_member_composite_refs(rest, refs);
        },
    }
}

impl UseCollector<'_> {
    fn visit_member_types(&mut self, items: &List<Member>)
        ensures
            final(self)@ == run(old(self).texts(), old(self)@, member_type_events(*items)),
            final(self).texts() == old(self).texts(),
        decreases *items,
    {
        match items {
            List::Nil => {},
            List::Cons(first, rest) => {
                self.visit_type(&first.type_);
                self.visit_member_types(rest);
            },
        }
    }

    fn declare_parameters(&mut self, items: &List<Member>)
        ensures
            final(self)@ == run(old(self).texts(), old(self)@, parameter_declarations(*items)),
            final(self).texts() == old(self).texts(),
        decreases *items,
    {
        match items {
            List::Nil => {},
            List::Cons(first, rest) => {
                self.declare(first.identifier.name, first.identifier.span);
                self.declare_parameters(rest);
            },
        }
    }

    pub fn visit_mapping(&mut self, mapping: &Mapping)
        ensures
            final(self)@ == run(old(self).texts(), old(self)@, mapping_events(*mapping)),
            final(self).texts() == old(self).texts(),
    {
        self.visit_type(&mapping.key_type);
        self.visit_type(&mapping.value_type);
    }

    fn visit_mappings(&mut self, items: &List<Mapping>)
        ensures
            final(self)@ == run(old(self).texts(), old(self)@, mappings_events(*items)),
            final(self).texts() == old(self).texts(),
        decreases *items,
    {
        match items {
            List::Nil => {},
            List::Cons(first, rest) => {
                self.visit_mapping(first);
                self.visit_mappings(rest);
            },
        }
    }

    fn visit_prototype(&mut self, prototype: &FunctionPrototype)
        ensures
            final(self)@ == run(old(self).texts(), old(self)@, prototype_events(*prototype)),
            final(self).texts() == old(self).texts(),
    {
        self.visit_member_types(&prototype.const_parameters);
        self.visit_member_types(&prototype.input);
        self.visit_types(&prototype.output);
        self.visit_type(&prototype.output_type);
    }

    fn visit_prototypes(&mut self, items: &List<FunctionPrototype>)
        ensures
            final(self)@ == run(old(self).texts(), old(self)@, prototypes_events(*items)),
            final(self).texts() == old(self).texts(),
        decreases *items,
    {
        match items {
            List::Nil => {},
            List::Cons(first, rest) => {
                self.visit_prototype(first);
                self.visit_prototypes(rest);
            },
        }
    }

    pub fn visit_interface(&mut self, interface: &Interface)
        ensures
            final(self)@ == run(old(self).texts(), old(self)@, interface_events(*interface)),
            final(self).texts() == old(self).texts(),
    {
        self.visit_prototypes(&interface.functions);
        self.visit_mappings(&interface.mappings);
        self.visit_member_types(&interface.storages);
    }

    fn visit_interfaces(&mut self, items: &List<Interface>)
        ensures
            final(self)@ == run(old(self).texts(), old(self)@, interfaces_events(*items)),
            final(self).texts() == old(self).texts(),
        decreases *items,
    {
        match items {
            List::Nil => {},
            List::Cons(first, rest) => {
                self.visit_interface(first);
                self.visit_interfaces(rest);
            },
        }
    }

    fn visit_consts(&mut self, items: &List<ConstDeclaration>)
        ensures
            final(self)@ == run(old(self).texts(), old(self)@, consts_events(*items)),
            final(self).texts() == old(self).texts(),
        decreases *items,
    {
        match items {
            List::Nil => {},
            List::Cons(first, rest) => {
                self.visit_const(first);
                self.visit_consts(rest);
            },
        }
    }

    /// Whether the parameters of `function` are to be warned of if they are not used.
    pub fn track_parameters(&self, function: &Function) -> (r: bool)
        ensures
            r == (!(function.variant is EntryPoint) && !marks_test(
                self.texts(),
                function.annotations,
            )),
    {
        !function.variant.is_entry() && !is_test(self.names(), &function.annotations)
    }

    pub fn visit_function(&mut self, function: &Function)
        ensures
            final(self)@ == run(
                old(self).texts(),
                old(self)@,
                function_events(old(self).texts(), *function),
            ),
            final(self).texts() == old(self).texts(),
    {
        self.enter_scope();
        if self.track_parameters(function) {
            self.declare_parameters(&function.const_parameters);
            self.declare_parameters(&function.input);
        }
        self.visit_member_types(&function.const_parameters);
        self.visit_member_types(&function.input);
        self.visit_types(&function.output);
        self.visit_type(&function.output_type);
        self.visit_block(&function.block);
        self.exit_scope();
    }

    fn visit_functions(&mut self, items: &List<Function>)
        ensures
            final(self)@ == run(
                old(self).texts(),
                old(self)@,
                functions_events(old(self).texts(), *items),
            ),
            final(self).texts() == old(self).texts(),
        decreases *items,
    {
        match items {
            List::Nil => {},
            List::Cons(first, rest) => {
                self.visit_function(first);
                self.visit_functions(rest);
            },
        }
    }

    pub fn visit_composite(&mut self, unit: Symbol, prefix: &List<Symbol>, composite: &Composite)
        ensures
            final(self)@ == run(
                old(self).texts(),
                old(self)@,
                composite_events(unit, *prefix, *composite),
            ),
            final(self).texts() == old(self).texts(),
    {
        let location = current_location(unit, prefix, composite.identifier.name);
        self.visit_member_types(&composite.const_parameters);
        let mut refs = keys_new();
        collect_member_composite_refs(&composite.members, &mut refs);
        self.note_dependencies(&location, refs);
        if composite.is_record {
            self.note_root(&location);
            self.visit_member_types(&composite.members);
        }
    }

    fn visit_composites(&mut self, unit: Symbol, prefix: &List<Symbol>, items: &List<Composite>)
        ensures
            final(self)@ == run(
                old(self).texts(),
                old(self)@,
                composites_events(unit, *prefix, *items),
            ),
            final(self).texts() == old(self).texts(),
        decreases *items,
    {
        match items {
            List::Nil => {},
            List::Cons(first, rest) => {
                self.visit_composite(unit, prefix, first);
                self.visit_composites(unit, prefix, rest);
            },
        }
    }

    fn visit_library_structs(&mut self, unit: Symbol, items: &List<Composite>)
        ensures
            final(self)@ == run(
                old(self).texts(),
                old(self)@,
                library_structs_events(unit, *items),
            ),
            final(self).texts() == old(self).texts(),
        decreases *items,
    {
        match items {
            List::Nil => {},
            List::Cons(first, rest) => {
                let location = current_location(unit, &List::Nil, first.identifier.name);
                self.note_root(&location);
                self.visit_composite(unit, &List::Nil, first);
                self.visit_library_structs(unit, rest);
            },
        }
    }

    fn visit_constructor(&mut self, constructor: &Option<Constructor>)
        ensures
            final(self)@ == run(old(self).texts(), old(self)@, constructor_events(*constructor)),
            final(self).texts() == old(self).texts(),
    {
        match constructor {
            None => {},
            Some(constructor) => {
                self.visit_block(&constructor.block);
            },
        }
    }

    pub fn visit_program_scope(&mut self, scope: &ProgramScope)
        ensures
            final(self)@ == run(
                old(self).texts(),
                old(self)@,
                program_scope_events(old(self).texts(), *scope),
            ),
            final(self).texts() == old(self).texts(),
    {
        self.visit_consts(&scope.consts);
        self.visit_composites(scope.program_id.symbol, &List::Nil, &scope.composites);
        self.visit_interfaces(&scope.interfaces);
        self.visit_mappings(&scope.mappings);
        self.visit_member_types(&scope.storage_variables);
        self.visit_functions(&scope.functions);
        self.visit_constructor(&scope.constructor);
    }

    fn visit_program_scopes(&mut self, items: &List<ProgramScope>)
        ensures
            final(self)@ == run(
                old(self).texts(),
                old(self)@,
                program_scopes_events(old(self).texts(), *items),
            ),
            final(self).texts() == old(self).texts(),
        decreases *items,
    {
        match items {
            List::Nil => {},
            List::Cons(first, rest) => {
                self.visit_program_scope(first);
                self.visit_program_scopes(rest);
            },
        }
    }

    pub fn visit_module(&mut self, module: &Module)
        ensures
            final(self)@ == run(
                old(self).texts(),
                old(self)@,
                module_events(old(self).texts(), *module),
            ),
            final(self).texts() == old(self).texts(),
    {
        self.visit_consts(&module.consts);
        self.visit_composites(module.unit_name, &module.path, &module.composites);
        self.visit_interfaces(&module.interfaces);
        self.visit_functions(&module.functions);
    }

    fn visit_modules(&mut self, items: &List<Module>)
        ensures
            final(self)@ == run(
                old(self).texts(),
                old(self)@,
                modules_events(old(self).texts(), *items),
            ),
            final(self).texts() == old(self).texts(),
        decreases *items,
    {
        match items {
            List::Nil => {},
            List::Cons(first, rest) => {
                self.visit_module(first);
                self.visit_modules(rest);
            },
        }
    }

    pub fn visit_program(&mut self, program: &Program)
        ensures
            final(self)@ == run(
                old(self).texts(),
                old(self)@,
                program_unit_events(old(self).texts(), *program),
            ),
            final(self).texts() == old(self).texts(),
    {
        self.visit_program_scopes(&program.program_scopes);
        self.visit_modules(&program.modules);
    }

    pub fn visit_library(&mut self, library: &Library)
        ensures
            final(self)@ == run(
                old(self).texts(),
                old(self)@,
                library_events(old(self).texts(), *library),
            ),
            final(self).texts() == old(self).texts(),
    {
        self.visit_consts(&library.consts);
        self.visit_library_structs(library.name, &library.structs);
        self.visit_functions(&library.functions);
        self.visit_interfaces(&library.interfaces);
        self.visit_modules(&library.modules);
    }

    /// Walks over the unit that is compiled.
    pub fn visit_ast(&mut self, ast: &Ast)
        ensures
            final(self)@ == run(
                old(self).texts(),
                old(self)@,
                ast_events(old(self).texts(), *ast),
            ),
            final(self).texts() == old(self).texts(),
    {
        match ast {
            Ast::Program(program) => {
                self.visit_program(program);
            },
            Ast::Library(library) => {
                self.visit_library(library);
            },
        }
    }
}

} // verus!
