//! Warnings for the items and imports of a unit that nothing uses.
use super::collect_items::{current_location, is_test};
use super::item_events::{location_in, marks_test};
use super::uses::{warnings_regrouped, CollectedUses, Warning, WarningKind};
use crate::ast::{ConstDeclaration, Location, Span, Symbol};
use crate::collections::{keys_contain, keys_in, symbols_contain, symbols_in};
use crate::list::List;
use crate::names::{is_underscored, Names, Texts};
use crate::state::{location_key, Halt};
use crate::units::{Ast, Composite, Function, Import, Library, Module, Program, ProgramScope};
use indexmap::IndexSet;
use vstd::prelude::*;

verus! {

broadcast use warnings_regrouped;

/// How often a function is called, from anywhere.
#[derive(Debug, PartialEq, Eq)]
pub struct CallCount {
    pub location: Location,
    pub count: usize,
}

/// How often the function at `location` is called, if that is known.
pub open spec fn count_of(counts: List<CallCount>, location: Location) -> Option<usize>
    decreases counts,
{
    match counts {
        List::Nil => None,
        List::Cons(first, rest) => if first.location == location {
            Some(first.count)
        } else {
            count_of(*rest, location)
        },
    }
}

fn call_count(counts: &List<CallCount>, location: &Location) -> (r: Option<usize>)
    ensures
        r == count_of(*counts, *location),
    decreases *counts,
{
    match counts {
        List::Nil => None,
        List::Cons(first, rest) => if first.location.same(location) {
            Some(first.count)
        } else {
            call_count(rest, location)
        },
    }
}

/// What is known of a unit when its items are checked.
#[verifier::ext_equal]
pub struct Known {
    pub names: Texts,
    pub counts: List<CallCount>,
    pub imports: Seq<usize>,
    pub globals: Seq<Seq<usize>>,
    /// The composites that are used.
    pub live: Set<Seq<usize>>,
}

/// The warnings that a check gives, in order, or why it gives none.
pub type Findings = Result<Seq<Warning>, Halt>;

/// What two checks give, one after the other.
pub open spec fn both(first: Findings, second: Findings) -> Findings {
    match (first, second) {
        (Ok(first), Ok(second)) => Ok(first + second),
        (Err(halt), _) => Err(halt),
        (_, Err(halt)) => Err(halt),
    }
}

/// Whether a function is unused if nothing calls it. Entry points and tests are called
/// from outside, and a name that starts with `_` says that the function may be unused.
pub open spec fn needs_calls(names: Texts, function: Function) -> bool {
    !(function.variant is EntryPoint) && !marks_test(names, function.annotations)
        && !is_underscored(names, function.identifier.name)
}

/// A function that needs calls is unused if nothing calls it. It must have a count.
pub open spec fn function_findings(
    known: Known,
    unit: Symbol,
    prefix: List<Symbol>,
    function: Function,
) -> Findings {
    let name = function.identifier.name;
    if !needs_calls(known.names, function) {
        Ok(Seq::empty())
    } else {
        match count_of(known.counts, location_in(unit, prefix, name)) {
            None => Err(Halt::IllFormed),
            Some(count) => if count > 0 {
                Ok(Seq::empty())
            } else {
                Ok(
                    seq![
                        Warning {
                            kind: WarningKind::UnusedFunction,
                            name,
                            span: function.identifier.span,
                        },
                    ],
                )
            },
        }
    }
}

/// A struct is unused if it is not live. Records are always used.
pub open spec fn composite_findings(
    known: Known,
    unit: Symbol,
    prefix: List<Symbol>,
    composite: Composite,
) -> Findings {
    let name = composite.identifier.name;
    if composite.is_record || known.live.contains(location_key(location_in(unit, prefix, name))) {
        Ok(Seq::empty())
    } else {
        Ok(
            seq![
                Warning {
                    kind: WarningKind::UnusedStruct,
                    name,
                    span: composite.identifier.span,
                },
            ],
        )
    }
}

/// A constant is unused if no path leads to it. A name that starts with `_` says that it may be.
pub open spec fn const_findings(
    known: Known,
    unit: Symbol,
    prefix: List<Symbol>,
    input: ConstDeclaration,
) -> Findings {
    let name = input.place.name;
    if is_underscored(known.names, name) || known.globals.contains(
        location_key(location_in(unit, prefix, name)),
    ) {
        Ok(Seq::empty())
    } else {
        Ok(seq![Warning { kind: WarningKind::UnusedConst, name, span: input.place.span }])
    }
}

/// An import is unused if no path names its program.
pub open spec fn import_findings(known: Known, import: Import) -> Findings {
    if known.imports.contains(import.name.index) {
        Ok(Seq::empty())
    } else {
        Ok(
            seq![
                Warning {
                    kind: WarningKind::UnusedImport,
                    name: import.name,
                    span: import.program_id.span,
                },
            ],
        )
    }
}

pub open spec fn functions_findings(
    known: Known,
    unit: Symbol,
    prefix: List<Symbol>,
    items: List<Function>,
) -> Findings
    decreases items,
{
    match items {
        List::Nil => Ok(Seq::empty()),
        List::Cons(first, rest) => both(
            function_findings(known, unit, prefix, first),
            functions_findings(known, unit, prefix, *rest),
        ),
    }
}

pub open spec fn composites_findings(
    known: Known,
    unit: Symbol,
    prefix: List<Symbol>,
    items: List<Composite>,
) -> Findings
    decreases items,
{
    match items {
        List::Nil => Ok(Seq::empty()),
        List::Cons(first, rest) => both(
            composite_findings(known, unit, prefix, first),
            composites_findings(known, unit, prefix, *rest),
        ),
    }
}

pub open spec fn consts_findings(
    known: Known,
    unit: Symbol,
    prefix: List<Symbol>,
    items: List<ConstDeclaration>,
) -> Findings
    decreases items,
{
    match items {
        List::Nil => Ok(Seq::empty()),
        List::Cons(first, rest) => both(
            const_findings(known, unit, prefix, first),
            consts_findings(known, unit, prefix, *rest),
        ),
    }
}

pub open spec fn imports_findings(
    known: Known,
    items: List<Import>,
) -> Findings
    decreases items,
{
    match items {
        List::Nil => Ok(Seq::empty()),
        List::Cons(first, rest) => both(
            import_findings(known, first),
            imports_findings(known, *rest),
        ),
    }
}

/// Functions come first, then structs, then constants.
pub open spec fn program_scope_findings(known: Known, scope: ProgramScope) -> Findings {
    let unit = scope.program_id.symbol;
    both(
        functions_findings(known, unit, List::Nil, scope.functions),
        both(
            composites_findings(known, unit, List::Nil, scope.composites),
            consts_findings(known, unit, List::Nil, scope.consts),
        ),
    )
}

pub open spec fn module_findings(known: Known, module: Module) -> Findings {
    both(
        functions_findings(known, module.unit_name, module.path, module.functions),
        both(
            composites_findings(known, module.unit_name, module.path, module.composites),
            consts_findings(known, module.unit_name, module.path, module.consts),
        ),
    )
}

pub open spec fn program_scopes_findings(
    known: Known,
    items: List<ProgramScope>,
) -> Findings
    decreases items,
{
    match items {
        List::Nil => Ok(Seq::empty()),
        List::Cons(first, rest) => both(
            program_scope_findings(known, first),
            program_scopes_findings(known, *rest),
        ),
    }
}

pub open spec fn modules_findings(
    known: Known,
    items: List<Module>,
) -> Findings
    decreases items,
{
    match items {
        List::Nil => Ok(Seq::empty()),
        List::Cons(first, rest) => both(
            module_findings(known, first),
            modules_findings(known, *rest),
        ),
    }
}

/// The imports come last.
pub open spec fn program_findings(known: Known, program: Program) -> Findings {
    both(
        program_scopes_findings(known, program.program_scopes),
        both(modules_findings(known, program.modules), imports_findings(known, program.imports)),
    )
}

/// The functions and structs at the top of a library are there for others to use. Its constants and
/// its modules are checked.
pub open spec fn library_findings(known: Known, library: Library) -> Findings {
    both(
        consts_findings(known, library.name, List::Nil, library.consts),
        modules_findings(known, library.modules),
    )
}

pub open spec fn ast_findings(known: Known, ast: Ast) -> Findings {
    match ast {
        Ast::Program(program) => program_findings(known, *program),
        Ast::Library(library) => library_findings(known, *library),
    }
}

/// Checks the items of a unit against what a walk over it found.
pub struct UnusedChecker<'a> {
    names: &'a Names,
    counts: &'a List<CallCount>,
    data: &'a CollectedUses,
    live_composites: &'a IndexSet<Vec<usize>>,
    warnings: Vec<Warning>,
}

impl<'a> UnusedChecker<'a> {
    pub closed spec fn known(&self) -> Known {
        Known {
            names: self.names@,
            counts: *self.counts,
            imports: symbols_in(self.data.used_imports),
            globals: keys_in(self.data.used_globals),
            live: keys_in(*self.live_composites).to_set(),
        }
    }

    /// The warnings given so far.
    pub closed spec fn given(&self) -> Seq<Warning> {
        self.warnings@
    }

    /// Whether `findings` is what was added to the warnings, or why it was not.
    pub open spec fn found(self, before: Self, findings: Findings, r: Result<(), Halt>) -> bool {
        &&& self.known() == before.known()
        &&& match findings {
            Ok(warnings) => r is Ok && self.given() == before.given() + warnings,
            Err(halt) => r == Err::<(), Halt>(halt),
        }
    }

    pub fn new(
        names: &'a Names,
        counts: &'a List<CallCount>,
        data: &'a CollectedUses,
        live_composites: &'a IndexSet<Vec<usize>>,
    ) -> (r: UnusedChecker<'a>)
        ensures
            r.given() == Seq::<Warning>::empty(),
            r.known() == (Known {
                names: names@,
                counts: *counts,
                imports: symbols_in(data.used_imports),
                globals: keys_in(data.used_globals),
                live: keys_in(*live_composites).to_set(),
            }),
    {
        UnusedChecker { names, counts, data, live_composites, warnings: Vec::new() }
    }

    /// The warnings, in the order in which they were given.
    pub fn into_warnings(self) -> (r: Vec<Warning>)
        ensures
            r@ == self.given(),
    {
        self.warnings
    }

    fn warn(&mut self, kind: WarningKind, name: Symbol, span: Span)
        ensures
            final(self).given() == old(self).given() + seq![Warning { kind, name, span }],
            final(self).known() == old(self).known(),
    {
        self.warnings.push(Warning { kind, name, span });
        assert(self.warnings@ =~= old(self).warnings@ + seq![Warning { kind, name, span }]);
    }

    pub fn visit_function(
        &mut self,
        unit: Symbol,
        prefix: &List<Symbol>,
        function: &Function,
    ) -> (r: Result<(), Halt>)
        ensures
            final(self).found(
                *old(self),
                function_findings(old(self).known(), unit, *prefix, *function),
                r,
            ),
    {
        assert(self.warnings@ + Seq::<Warning>::empty() =~= self.warnings@);
        if function.variant.is_entry() {
            return Ok(());
        }
        if is_test(self.names, &function.annotations) {
            return Ok(());
        }
        if self.names.name_starts_with_underscore(function.identifier.name) {
            return Ok(());
        }
        let location = current_location(unit, prefix, function.identifier.name);
        match call_count(self.counts, &location) {
            None => Err(Halt::IllFormed),
            Some(count) => {
                if count == 0 {
                    self.warn(
                        WarningKind::UnusedFunction,
                        function.identifier.name,
                        function.identifier.span,
                    );
                }
                Ok(())
            },
        }
    }

    pub fn visit_composite(
        &mut self,
        unit: Symbol,
        prefix: &List<Symbol>,
        composite: &Composite,
    ) -> (r: Result<(), Halt>)
        ensures
            final(self).found(
                *old(self),
                composite_findings(old(self).known(), unit, *prefix, *composite),
                r,
            ),
    {
        assert(self.warnings@ + Seq::<Warning>::empty() =~= self.warnings@);
        if composite.is_record {
            return Ok(());
        }
        let location = current_location(unit, prefix, composite.identifier.name);
        if !keys_contain(self.live_composites, &location.key()) {
            self.warn(
                WarningKind::UnusedStruct,
                composite.identifier.name,
                composite.identifier.span,
            );
        }
        Ok(())
    }

    pub fn visit_const(
        &mut self,
        unit: Symbol,
        prefix: &List<Symbol>,
        input: &ConstDeclaration,
    ) -> (r: Result<(), Halt>)
        ensures
            final(self).found(
                *old(self),
                const_findings(old(self).known(), unit, *prefix, *input),
                r,
            ),
    {
        assert(self.warnings@ + Seq::<Warning>::empty() =~= self.warnings@);
        if self.names.name_starts_with_underscore(input.place.name) {
            return Ok(());
        }
        let location = current_location(unit, prefix, input.place.name);
        if !keys_contain(&self.data.used_globals, &location.key()) {
            self.warn(WarningKind::UnusedConst, input.place.name, input.place.span);
        }
        Ok(())
    }

    fn visit_import(&mut self, import: &Import) -> (r: Result<(), Halt>)
        ensures
            final(self).found(*old(self), import_findings(old(self).known(), *import), r),
    {
        assert(self.warnings@ + Seq::<Warning>::empty() =~= self.warnings@);
        if !symbols_contain(&self.data.used_imports, import.name.index) {
            self.warn(WarningKind::UnusedImport, import.name, import.program_id.span);
        }
        Ok(())
    }

    fn visit_functions(
        &mut self,
        unit: Symbol,
        prefix: &List<Symbol>,
        items: &List<Function>,
    ) -> (r: Result<(), Halt>)
        ensures
            final(self).found(
                *old(self),
                functions_findings(old(self).known(), unit, *prefix, *items),
                r,
            ),
        decreases *items,
    {
        match items {
            List::Nil => {
                assert(self.warnings@ + Seq::<Warning>::empty() =~= self.warnings@);
                Ok(())
            },
            List::Cons(first, rest) => {
                self.visit_function(unit, prefix, first)?;
                self.visit_functions(unit, prefix, rest)
            },
        }
    }

    fn visit_composites(
        &mut self,
        unit: Symbol,
        prefix: &List<Symbol>,
        items: &List<Composite>,
    ) -> (r: Result<(), Halt>)
        ensures
            final(self).found(
                *old(self),
                composites_findings(old(self).known(), unit, *prefix, *items),
                r,
            ),
        decreases *items,
    {
        match items {
            List::Nil => {
                assert(self.warnings@ + Seq::<Warning>::empty() =~= self.warnings@);
                Ok(())
            },
            List::Cons(first, rest) => {
                self.visit_composite(unit, prefix, first)?;
                self.visit_composites(unit, prefix, rest)
            },
        }
    }

    fn visit_consts(
        &mut self,
        unit: Symbol,
        prefix: &List<Symbol>,
        items: &List<ConstDeclaration>,
    ) -> (r: Result<(), Halt>)
        ensures
            final(self).found(
                *old(self),
                consts_findings(old(self).known(), unit, *prefix, *items),
                r,
            ),
        decreases *items,
    {
        match items {
            List::Nil => {
                assert(self.warnings@ + Seq::<Warning>::empty() =~= self.warnings@);
                Ok(())
            },
            List::Cons(first, rest) => {
                self.visit_const(unit, prefix, first)?;
                self.visit_consts(unit, prefix, rest)
            },
        }
    }

    fn visit_imports(&mut self, items: &List<Import>) -> (r: Result<(), Halt>)
        ensures
            final(self).found(*old(self), imports_findings(old(self).known(), *items), r),
        decreases *items,
    {
        match items {
            List::Nil => {
                assert(self.warnings@ + Seq::<Warning>::empty() =~= self.warnings@);
                Ok(())
            },
            List::Cons(first, rest) => {
                self.visit_import(first)?;
                self.visit_imports(rest)
            },
        }
    }

    pub fn visit_program_scope(&mut self, scope: &ProgramScope) -> (r: Result<(), Halt>)
        ensures
            final(self).found(*old(self), program_scope_findings(old(self).known(), *scope), r),
    {
        let unit = scope.program_id.symbol;
        self.visit_functions(unit, &List::Nil, &scope.functions)?;
        self.visit_composites(unit, &List::Nil, &scope.composites)?;
        self.visit_consts(unit, &List::Nil, &scope.consts)
    }

    pub fn visit_module(&mut self, module: &Module) -> (r: Result<(), Halt>)
        ensures
            final(self).found(*old(self), module_findings(old(self).known(), *module), r),
    {
        self.visit_functions(module.unit_name, &module.path, &module.functions)?;
        self.visit_composites(module.unit_name, &module.path, &module.composites)?;
        self.visit_consts(module.unit_name, &module.path, &module.consts)
    }

    fn visit_program_scopes(&mut self, items: &List<ProgramScope>) -> (r: Result<(), Halt>)
        ensures
            final(self).found(*old(self), program_scopes_findings(old(self).known(), *items), r),
        decreases *items,
    {
        match items {
            List::Nil => {
                assert(self.warnings@ + Seq::<Warning>::empty() =~= self.warnings@);
                Ok(())
            },
            List::Cons(first, rest) => {
                self.visit_program_scope(first)?;
                self.visit_program_scopes(rest)
            },
        }
    }

    fn visit_modules(&mut self, items: &List<Module>) -> (r: Result<(), Halt>)
        ensures
            final(self).found(*old(self), modules_findings(old(self).known(), *items), r),
        decreases *items,
    {
        match items {
            List::Nil => {
                assert(self.warnings@ + Seq::<Warning>::empty() =~= self.warnings@);
                Ok(())
            },
            List::Cons(first, rest) => {
                self.visit_module(first)?;
                self.visit_modules(rest)
            },
        }
    }

    pub fn visit_program(&mut self, program: &Program) -> (r: Result<(), Halt>)
        ensures
            final(self).found(*old(self), program_findings(old(self).known(), *program), r),
    {
        self.visit_program_scopes(&program.program_scopes)?;
        self.visit_modules(&program.modules)?;
        self.visit_imports(&program.imports)
    }

    pub fn visit_library(&mut self, library: &Library) -> (r: Result<(), Halt>)
        ensures
            final(self).found(*old(self), library_findings(old(self).known(), *library), r),
    {
        self.visit_consts(library.name, &List::Nil, &library.consts)?;
        self.visit_modules(&library.modules)
    }

    pub fn visit_ast(&mut self, ast: &Ast) -> (r: Result<(), Halt>)
        ensures
            final(self).found(*old(self), ast_findings(old(self).known(), *ast), r),
    {
        match ast {
            Ast::Program(program) => self.visit_program(program),
            Ast::Library(library) => self.visit_library(library),
        }
    }
}

} // verus!
