//! What a walk over a program finds: which names are used, and which local variables are not.
use crate::ast::{Location, Span, Symbol};
use crate::collections::{
    dependencies_in, dependencies_insert, dependencies_new, keys_in, keys_insert, keys_new,
    symbols_in, symbols_insert, symbols_new, with_dependency, with_element, Dependencies,
};
use crate::names::{is_underscored, Names, Texts};
use crate::state::location_key;
use indexmap::{IndexMap, IndexSet};
use vstd::prelude::*;

verus! {

/// What a warning is about.
#[derive(Clone, Copy, Debug, PartialEq, Eq, Structural)]
pub enum WarningKind {
    UnusedVariable,
    UnusedConst,
    /// A local variable whose name starts with `_` is used all the same.
    UsedUnderscoreBinding,
    UnusedFunction,
    UnusedStruct,
    UnusedImport,
}

#[derive(Clone, Copy, Debug, PartialEq, Eq, Structural)]
pub struct Warning {
    pub kind: WarningKind,
    pub name: Symbol,
    pub span: Span,
}

#[derive(Clone, Copy, Debug, PartialEq, Eq, Structural)]
pub enum BindingKind {
    /// A `let` binding, a parameter or the variable of an iteration.
    Variable,
    /// A local constant.
    Const,
}

/// A local variable or constant in scope.
#[derive(Clone, Copy, Debug, PartialEq, Eq, Structural)]
pub struct Binding {
    pub name: Symbol,
    pub span: Span,
    pub kind: BindingKind,
    pub referenced: bool,
}

/// What a walk comes across.
pub enum Event {
    /// A scope opens.
    Enter,
    /// The innermost scope closes.
    Exit,
    /// A local variable comes into scope.
    Declare { name: Symbol, span: Span },
    /// A constant is declared. It is a local one if a scope is open.
    DeclareConst { name: Symbol, span: Span },
    /// A name that stands for a local variable, if one of that name is in scope.
    UseLocal { name: Symbol },
    /// The name of a program in front of a path.
    UseImport { name: Symbol },
    /// A path to a global item.
    UseGlobal { location: Location },
    /// A composite whose members are of composite types.
    Depend { location: Location, on: Seq<Seq<usize>> },
    /// A composite that is always used.
    Root { location: Location },
}

/// What a walk has found so far.
#[verifier::ext_equal]
pub struct Uses {
    /// What is in scope, outermost first.
    pub bindings: Seq<Binding>,
    /// How many bindings were in scope when each open scope opened.
    pub scope_starts: Seq<nat>,
    pub imports: Seq<usize>,
    pub globals: Seq<Seq<usize>>,
    pub dependencies: Dependencies,
    pub roots: Seq<Seq<usize>>,
    pub warnings: Seq<Warning>,
}

/// Nothing found yet.
pub open spec fn no_uses() -> Uses {
    Uses {
        bindings: Seq::empty(),
        scope_starts: Seq::empty(),
        imports: Seq::empty(),
        globals: Seq::empty(),
        dependencies: Seq::empty(),
        roots: Seq::empty(),
        warnings: Seq::empty(),
    }
}

/// Whether a binding that goes out of scope is warned of: nothing used it, and its name does not
/// start with `_`.
pub open spec fn is_unused(names: Texts, binding: Binding) -> bool {
    !binding.referenced && !is_underscored(names, binding.name)
}

pub open spec fn unused_warning(binding: Binding) -> Warning {
    Warning {
        kind: match binding.kind {
            BindingKind::Variable => WarningKind::UnusedVariable,
            BindingKind::Const => WarningKind::UnusedConst,
        },
        name: binding.name,
        span: binding.span,
    }
}

/// The warnings for the bindings from `start` on, in order of declaration.
pub open spec fn unused_from(names: Texts, bindings: Seq<Binding>, start: int) -> Seq<Warning>
    decreases bindings.len() - start,
{
    if start < 0 || start >= bindings.len() {
        Seq::empty()
    } else {
        let rest = unused_from(names, bindings, start + 1);
        if is_unused(names, bindings[start]) {
            seq![unused_warning(bindings[start])] + rest
        } else {
            rest
        }
    }
}

/// The innermost binding of the name `name`.
pub open spec fn innermost(bindings: Seq<Binding>, name: Symbol) -> Option<nat>
    decreases bindings.len(),
{
    if bindings.len() == 0 {
        None
    } else if bindings.last().name == name {
        Some((bindings.len() - 1) as nat)
    } else {
        innermost(bindings.drop_last(), name)
    }
}

/// What is found after `event`.
pub open spec fn step(names: Texts, uses: Uses, event: Event) -> Uses {
    match event {
        Event::Enter => Uses {
            scope_starts: uses.scope_starts.push(uses.bindings.len()),
            ..uses
        },
        Event::Exit => if uses.scope_starts.len() == 0 {
            uses
        } else {
            let start = uses.scope_starts.last() as int;
            Uses {
                bindings: if start < uses.bindings.len() {
                    uses.bindings.take(start)
                } else {
                    uses.bindings
                },
                scope_starts: uses.scope_starts.drop_last(),
                warnings: uses.warnings + unused_from(names, uses.bindings, start),
                ..uses
            }
        },
        Event::Declare { name, span } => declared(uses, name, span, BindingKind::Variable),
        Event::DeclareConst { name, span } => if uses.scope_starts.len() == 0 {
            uses
        } else {
            declared(uses, name, span, BindingKind::Const)
        },
        Event::UseLocal { name } => match innermost(uses.bindings, name) {
            None => uses,
            Some(index) => {
                let binding = uses.bindings[index as int];
                Uses {
                    bindings: uses.bindings.update(
                        index as int,
                        Binding { referenced: true, ..binding },
                    ),
                    warnings: if !binding.referenced && is_underscored(names, name) {
                        uses.warnings.push(
                            Warning {
                                kind: WarningKind::UsedUnderscoreBinding,
                                name,
                                span: binding.span,
                            },
                        )
                    } else {
                        uses.warnings
                    },
                    ..uses
                }
            },
        },
        Event::UseImport { name } => Uses {
            imports: with_element(uses.imports, name.index),
            ..uses
        },
        Event::UseGlobal { location } => Uses {
            globals: with_element(uses.globals, location_key(location)),
            ..uses
        },
        Event::Depend { location, on } => Uses {
            dependencies: with_dependency(uses.dependencies, location_key(location), on),
            ..uses
        },
        Event::Root { location } => Uses {
            roots: uses.roots.push(location_key(location)),
            ..uses
        },
    }
}

/// `uses` with one more binding in scope.
pub open spec fn declared(uses: Uses, name: Symbol, span: Span, kind: BindingKind) -> Uses {
    Uses {
        bindings: uses.bindings.push(Binding { name, span, kind, referenced: false }),
        ..uses
    }
}

/// What is found after `events`.
pub open spec fn run(names: Texts, uses: Uses, events: Seq<Event>) -> Uses
    decreases events.len(),
{
    if events.len() == 0 {
        uses
    } else {
        step(names, run(names, uses, events.drop_last()), events.last())
    }
}

/// What is found after two runs of events is what is found after all of them.
pub broadcast proof fn run_joined(names: Texts, uses: Uses, first: Seq<Event>, second: Seq<Event>)
    ensures
        #[trigger] run(names, uses, first + second) == run(
            names,
            run(names, uses, first),
            second,
        ),
    decreases second.len(),
{
    if second.len() == 0 {
        assert(first + second =~= first);
    } else {
        assert((first + second).drop_last() =~= first + second.drop_last());
        run_joined(names, uses, first, second.drop_last());
    }
}

/// A single event is a step.
pub broadcast proof fn run_one(names: Texts, uses: Uses, event: Event)
    ensures
        #[trigger] run(names, uses, seq![event]) == step(names, uses, event),
{
    assert(seq![event].drop_last() =~= Seq::<Event>::empty());
    assert(run(names, uses, Seq::<Event>::empty()) == uses);
}

/// Warnings can be put together in any grouping.
pub broadcast proof fn warnings_regrouped(
    first: Seq<Warning>,
    second: Seq<Warning>,
    third: Seq<Warning>,
)
    ensures
        #[trigger] (first + (second + third)) == (first + second) + third,
{
    assert(first + (second + third) =~= (first + second) + third);
}

/// Finds out what a program uses.
pub struct UseCollector<'a> {
    names: &'a Names,
    bindings: Vec<Binding>,
    scope_starts: Vec<usize>,
    used_imports: IndexSet<usize>,
    used_globals: IndexSet<Vec<usize>>,
    composite_deps: IndexMap<Vec<usize>, IndexSet<Vec<usize>>>,
    composite_roots: Vec<Vec<usize>>,
    warnings: Vec<Warning>,
}

pub open spec fn key_views(keys: Seq<Vec<usize>>) -> Seq<Seq<usize>> {
    keys.map_values(|key: Vec<usize>| key@)
}

impl View for UseCollector<'_> {
    type V = Uses;

    closed spec fn view(&self) -> Uses {
        Uses {
            bindings: self.bindings@,
            scope_starts: self.scope_starts@.map_values(|start: usize| start as nat),
            imports: symbols_in(self.used_imports),
            globals: keys_in(self.used_globals),
            dependencies: dependencies_in(self.composite_deps),
            roots: key_views(self.composite_roots@),
            warnings: self.warnings@,
        }
    }
}

/// What a walk found of global items, and the warnings of local ones.
#[derive(Debug)]
pub struct CollectedUses {
    pub used_imports: IndexSet<usize>,
    pub used_globals: IndexSet<Vec<usize>>,
    /// The composites that the members of each composite are made of.
    pub composite_deps: IndexMap<Vec<usize>, IndexSet<Vec<usize>>>,
    /// Composites that are always used: records, and the structs of a library.
    pub composite_roots: Vec<Vec<usize>>,
    pub warnings: Vec<Warning>,
}

impl<'a> UseCollector<'a> {
    /// The texts of the names.
    pub closed spec fn texts(&self) -> Texts {
        self.names@
    }

    pub fn new(names: &'a Names) -> (r: UseCollector<'a>)
        ensures
            r.texts() == names@,
            r@ == no_uses(),
    {
        let collector = UseCollector {
            names,
            bindings: Vec::new(),
            scope_starts: Vec::new(),
            used_imports: symbols_new(),
            used_globals: keys_new(),
            composite_deps: dependencies_new(),
            composite_roots: Vec::new(),
            warnings: Vec::new(),
        };
        assert(collector@ =~= no_uses());
        collector
    }

    /// The table of names.
    pub fn names(&self) -> (r: &'a Names)
        ensures
            r@ == self.texts(),
    {
        self.names
    }

    pub fn into_data(self) -> (r: CollectedUses)
        ensures
            symbols_in(r.used_imports) == self@.imports,
            keys_in(r.used_globals) == self@.globals,
            dependencies_in(r.composite_deps) == self@.dependencies,
            key_views(r.composite_roots@) == self@.roots,
            r.warnings@ == self@.warnings,
    {
        CollectedUses {
            used_imports: self.used_imports,
            used_globals: self.used_globals,
            composite_deps: self.composite_deps,
            composite_roots: self.composite_roots,
            warnings: self.warnings,
        }
    }

    pub fn enter_scope(&mut self)
        ensures
            final(self)@ == step(old(self).texts(), old(self)@, Event::Enter),
            final(self).texts() == old(self).texts(),
    {
        self.scope_starts.push(self.bindings.len());
        assert(self@.scope_starts =~= old(self)@.scope_starts.push(self.bindings@.len()));
    }

    /// Closes the innermost scope and warns of the bindings in it that nothing used.
    pub fn exit_scope(&mut self)
        ensures
            final(self)@ == step(old(self).texts(), old(self)@, Event::Exit),
            final(self).texts() == old(self).texts(),
    {
        let start: usize = match self.scope_starts.pop() {
            Some(start) => start,
            None => {
                return;
            },
        };
        let ghost names = self.names@;
        let ghost bindings = self.bindings@;
        let ghost before = self.warnings@;
        let mut i: usize = start;
        assert(before + Seq::<Warning>::empty() =~= before);
        while i < self.bindings.len()
            invariant
                start <= i,
                names == self.names@,
                self.names == old(self).names,
                bindings == self.bindings@,
                self.bindings == old(self).bindings,
                before == old(self).warnings@,
                self.scope_starts@ == old(self).scope_starts@.drop_last(),
                self.used_imports == old(self).used_imports,
                self.used_globals == old(self).used_globals,
                self.composite_deps == old(self).composite_deps,
                self.composite_roots == old(self).composite_roots,
                before + unused_from(names, bindings, start as int) == self.warnings@
                    + unused_from(names, bindings, i as int),
            decreases self.bindings.len() - i,
        {
            let binding = self.bindings[i];
            let ghost warned = self.warnings@;
            if !binding.referenced && !self.names.name_starts_with_underscore(binding.name) {
                let kind = match binding.kind {
                    BindingKind::Variable => WarningKind::UnusedVariable,
                    BindingKind::Const => WarningKind::UnusedConst,
                };
                self.warnings.push(Warning { kind, name: binding.name, span: binding.span });
            }
            proof {
                assert(warned + unused_from(names, bindings, i as int) =~= self.warnings@
                    + unused_from(names, bindings, i + 1));
            }
            i = i + 1;
        }
        assert(self.warnings@ + Seq::<Warning>::empty() =~= self.warnings@);
        self.bindings.truncate(start);
        assert(self@.scope_starts =~= old(self)@.scope_starts.drop_last());
    }

    fn declare_binding(&mut self, name: Symbol, span: Span, kind: BindingKind)
        ensures
            final(self)@ == declared(old(self)@, name, span, kind),
            final(self).texts() == old(self).texts(),
    {
        self.bindings.push(Binding { name, span, kind, referenced: false });
    }

    /// A local variable comes into scope.
    pub fn declare(&mut self, name: Symbol, span: Span)
        ensures
            final(self)@ == step(old(self).texts(), old(self)@, Event::Declare { name, span }),
            final(self).texts() == old(self).texts(),
    {
        self.declare_binding(name, span, BindingKind::Variable);
    }

    /// A constant comes into scope, if a scope is open.
    pub fn declare_const(&mut self, name: Symbol, span: Span)
        ensures
            final(self)@ == step(old(self).texts(), old(self)@, Event::DeclareConst { name, span }),
            final(self).texts() == old(self).texts(),
    {
        if self.scope_starts.len() > 0 {
            self.declare_binding(name, span, BindingKind::Const);
        }
    }

    /// The innermost binding of the name `name` is used. Returns whether there is one.
    pub fn note_local_use(&mut self, name: Symbol) -> (r: bool)
        ensures
            final(self)@ == step(old(self).texts(), old(self)@, Event::UseLocal { name }),
            final(self).texts() == old(self).texts(),
            r == innermost(old(self)@.bindings, name) is Some,
    {
        let ghost all = self.bindings@;
        let mut count: usize = self.bindings.len();
        assert(all.take(count as int) =~= all);
        while count > 0
            invariant
                *self == *old(self),
                all == self.bindings@,
                0 <= count <= self.bindings.len(),
                innermost(all, name) == innermost(all.take(count as int), name),
            decreases count,
        {
            proof {
                assert(all.take(count as int).last() == all[count - 1]);
                assert(all.take(count as int).drop_last() =~= all.take(count - 1));
            }
            let binding = self.bindings[count - 1];
            if binding.name == name {
                if !binding.referenced && self.names.name_starts_with_underscore(name) {
                    self.warnings.push(
                        Warning {
                            kind: WarningKind::UsedUnderscoreBinding,
                            name,
                            span: binding.span,
                        },
                    );
                }
                self.bindings.set(
                    count - 1,
                    Binding {
                        name: binding.name,
                        span: binding.span,
                        kind: binding.kind,
                        referenced: true,
                    },
                );
                return true;
            }
            count = count - 1;
        }
        false
    }

    /// The program `name` is used.
    pub fn note_import(&mut self, name: Symbol)
        ensures
            final(self)@ == step(old(self).texts(), old(self)@, Event::UseImport { name }),
            final(self).texts() == old(self).texts(),
    {
        symbols_insert(&mut self.used_imports, name.index);
    }

    /// The item at `location` is used.
    pub fn note_global(&mut self, location: &Location)
        ensures
            final(self)@ == step(
                old(self).texts(),
                old(self)@,
                Event::UseGlobal { location: *location },
            ),
            final(self).texts() == old(self).texts(),
    {
        keys_insert(&mut self.used_globals, location.key());
    }

    /// The composite at `location` has members of the composite types `on`.
    pub fn note_dependencies(&mut self, location: &Location, on: IndexSet<Vec<usize>>)
        ensures
            final(self)@ == step(
                old(self).texts(),
                old(self)@,
                Event::Depend { location: *location, on: keys_in(on) },
            ),
            final(self).texts() == old(self).texts(),
    {
        dependencies_insert(&mut self.composite_deps, location.key(), on);
    }

    /// The composite at `location` is always used.
    pub fn note_root(&mut self, location: &Location)
        ensures
            final(self)@ == step(
                old(self).texts(),
                old(self)@,
                Event::Root { location: *location },
            ),
            final(self).texts() == old(self).texts(),
    {
        self.composite_roots.push(location.key());
        assert(self@.roots =~= old(self)@.roots.push(location_key(*location)));
    }
}

} // verus!
