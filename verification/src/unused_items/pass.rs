//! The pass as a whole.
use super::check::{ast_findings, both, CallCount, Findings, Known, UnusedChecker};
use super::item_events::ast_events;
use super::live::is_live;
use super::uses::{no_uses, run, UseCollector, Uses, Warning};
use crate::list::List;
use crate::names::{Names, Texts};
use crate::state::Halt;
use crate::units::Ast;
use vstd::prelude::*;

verus! {

/// What is known of a unit once a walk over it has found `uses`.
pub open spec fn known_of(names: Texts, counts: List<CallCount>, uses: Uses) -> Known {
    Known {
        names,
        counts,
        imports: uses.imports,
        globals: uses.globals,
        live: Set::new(
            |key: Seq<usize>| is_live(uses.dependencies, uses.roots + uses.globals, key),
        ),
    }
}

/// What a walk over `ast` finds.
pub open spec fn uses_of(names: Texts, ast: Ast) -> Uses {
    run(names, no_uses(), ast_events(names, ast))
}

/// All warnings for `ast`: those for local variables, then those for items and imports.
pub open spec fn unused_items(names: Texts, counts: List<CallCount>, ast: Ast) -> Findings {
    let uses = uses_of(names, ast);
    both(Ok(uses.warnings), ast_findings(known_of(names, counts, uses), ast))
}

/// What the passes have reported.
#[derive(Debug, PartialEq, Eq)]
pub struct Handler {
    pub warnings: Vec<Warning>,
    /// The exit code of the last error that was reported, if one was.
    pub last_error: Option<i32>,
}

/// Why a pass failed.
#[derive(Clone, Copy, Debug, PartialEq, Eq, Structural)]
pub enum PassError {
    /// An error with this exit code was reported, by this pass or an earlier one.
    Reported(i32),
    /// The pass gave up on the tree.
    Halted(Halt),
}

impl Handler {
    /// Nothing was reported yet.
    pub fn new() -> (r: Handler)
        ensures
            r.warnings@ == Seq::<Warning>::empty(),
            r.last_error == None::<i32>,
    {
        Handler { warnings: Vec::new(), last_error: None }
    }

    /// Fails if an error was reported.
    pub fn last_err(&self) -> (r: Result<(), PassError>)
        ensures
            r == match self.last_error {
                Some(code) => Err(PassError::Reported(code)),
                None => Ok(()),
            },
    {
        match self.last_error {
            Some(code) => Err(PassError::Reported(code)),
            None => Ok(()),
        }
    }
}

/// The pass that warns of items that are never used.
pub struct UnusedItems;

impl UnusedItems {
    pub const NAME: &'static str = "UnusedItems";

    /// Warns of what is never used in `ast`, where `counts` says how often each function is called.
    /// The warnings are no failure, but an error that was reported before is.
    pub fn do_pass(
        ast: &Ast,
        names: &Names,
        counts: &List<CallCount>,
        handler: &mut Handler,
    ) -> (r: Result<(), PassError>)
        ensures
            final(handler).last_error == old(handler).last_error,
            match unused_items(names@, *counts, *ast) {
                Ok(warnings) => {
                    &&& final(handler).warnings@ == old(handler).warnings@ + warnings
                    &&& r == match old(handler).last_error {
                        Some(code) => Err(PassError::Reported(code)),
                        None => Ok(()),
                    }
                },
                Err(halt) => {
                    &&& final(handler).warnings@ == old(handler).warnings@
                    &&& r == Err::<(), PassError>(PassError::Halted(halt))
                },
            },
    {
        let mut collector = UseCollector::new(names);
        collector.visit_ast(ast);
        let collected = collector.into_data();
        let live_composites = collected.compute_live_composites();
        let mut checker = UnusedChecker::new(names, counts, &collected, &live_composites);
        proof {
            let known = known_of(names@, *counts, uses_of(names@, *ast));
            assert(checker.known() =~= known);
        }
        if let Err(halt) = checker.visit_ast(ast) {
            return Err(PassError::Halted(halt));
        }
        let mut found = checker.into_warnings();
        let mut warnings = collected.warnings;
        warnings.append(&mut found);
        handler.warnings.append(&mut warnings);
        handler.last_err()
    }
}

} // verus!
