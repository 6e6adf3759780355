//! What holds of the warnings.
use super::check::{
    ast_findings, composites_findings, consts_findings, count_of, functions_findings,
    imports_findings, modules_findings, needs_calls, program_scopes_findings, CallCount, Findings,
    Known,
};
use super::events::scoped;
use super::item_events::{ast_events, location_in};
use super::pass::{known_of, unused_items, uses_of};
use super::scopes::{depth, is_balanced};
use super::uses::{
    innermost, is_unused, no_uses, run, run_joined, run_one, step, unused_from, unused_warning,
    Binding, BindingKind, Event, Uses, Warning, WarningKind,
};
use crate::ast::{ConstDeclaration, Symbol};
use crate::list::{copied, List};
use crate::names::{is_underscored, Texts};
use crate::state::Halt;
use crate::units::{Ast, Composite, Function, Import, Module, ProgramScope};
use vstd::prelude::*;

verus! {

/* Scopes */

/// Whether `after` is `before`, but that it may have been used since.
pub open spec fn same_binding(before: Binding, after: Binding) -> bool {
    &&& after.name == before.name
    &&& after.span == before.span
    &&& after.kind == before.kind
    &&& before.referenced ==> after.referenced
}

/// Whether what was in scope and open at `before` still is at `after`, with `open` more scopes.
spec fn extends(before: Uses, after: Uses, open: int) -> bool {
    let scopes = before.scope_starts.len();
    let floor = before.bindings.len();
    &&& after.scope_starts.len() == scopes + open
    &&& after.bindings.len() >= floor
    &&& forall|i: int|
        0 <= i < scopes && i < after.scope_starts.len() ==> #[trigger] after.scope_starts[i]
            == before.scope_starts[i]
    &&& forall|i: int|
        scopes <= i < after.scope_starts.len() ==> #[trigger] after.scope_starts[i] >= floor
    &&& forall|i: int|
        0 <= i < floor ==> same_binding(before.bindings[i], #[trigger] after.bindings[i])
}

proof fn lemma_innermost(bindings: Seq<Binding>, name: Symbol)
    ensures
        match innermost(bindings, name) {
            Some(index) => {
                &&& index < bindings.len()
                &&& bindings[index as int].name == name
                &&& forall|i: int|
                    index < i < bindings.len() ==> (#[trigger] bindings[i]).name != name
            },
            None => forall|i: int|
                0 <= i < bindings.len() ==> (#[trigger] bindings[i]).name != name,
        },
    decreases bindings.len(),
{
    if bindings.len() > 0 && bindings.last().name != name {
        lemma_innermost(bindings.drop_last(), name);
        assert forall|i: int| 0 <= i < bindings.len() - 1 implies bindings.drop_last()[i]
            == #[trigger] bindings[i] by {}
    }
}

proof fn lemma_step_extends(names: Texts, before: Uses, after: Uses, open: int, event: Event)
    requires
        extends(before, after, open),
        open >= 0,
        event is Exit ==> open > 0,
    ensures
        extends(before, step(names, after, event), open + depth(seq![event])),
{
    reveal_with_fuel(depth, 2);
    assert(seq![event].drop_last() =~= Seq::<Event>::empty());
    if let Event::UseLocal { name } = event {
        lemma_innermost(after.bindings, name);
    }
}

proof fn lemma_run_extends(names: Texts, before: Uses, body: Seq<Event>, count: int)
    requires
        is_balanced(body),
        0 <= count <= body.len(),
    ensures
        extends(before, run(names, before, body.take(count)), depth(body.take(count))),
    decreases count,
{
    reveal(is_balanced);
    if count == 0 {
        assert(body.take(0) =~= Seq::<Event>::empty());
    } else {
        let event = body[count - 1];
        lemma_run_extends(names, before, body, count - 1);
        assert(body.take(count).drop_last() =~= body.take(count - 1));
        assert(depth(body.take(count)) >= 0);
        assert(depth(body.take(count - 1)) >= 0);
        reveal_with_fuel(depth, 2);
        assert(seq![event].drop_last() =~= Seq::<Event>::empty());
        lemma_step_extends(
            names,
            before,
            run(names, before, body.take(count - 1)),
            depth(body.take(count - 1)),
            event,
        );
    }
}

/// Once a scope has closed, everything is in scope that was when it opened, and nothing else. Only
/// uses may have been noted.
pub proof fn scopes_leave_bindings(names: Texts, uses: Uses, body: Seq<Event>)
    requires
        is_balanced(body),
    ensures
        ({
            let after = run(names, uses, scoped(body));
            &&& after.scope_starts == uses.scope_starts
            &&& after.bindings.len() == uses.bindings.len()
            &&& forall|i: int|
                0 <= i < uses.bindings.len() ==> same_binding(
                    uses.bindings[i],
                    #[trigger] after.bindings[i],
                )
        }),
{
    broadcast use {run_joined, run_one};

    reveal(is_balanced);
    let opened = step(names, uses, Event::Enter);
    let inside = run(names, opened, body);
    lemma_run_extends(names, opened, body, body.len() as int);
    assert(body.take(body.len() as int) =~= body);
    let after = run(names, uses, scoped(body));
    assert(after == step(names, inside, Event::Exit));
    assert(inside.scope_starts =~= opened.scope_starts);
    assert(inside.scope_starts.last() == uses.bindings.len());
    assert(after.scope_starts =~= uses.scope_starts);
}

/* Uses */

/// A use after a use changes nothing: a variable whose name starts with `_` is warned of once.
pub proof fn second_use_is_silent(names: Texts, uses: Uses, name: Symbol)
    ensures
        ({
            let used = step(names, uses, Event::UseLocal { name });
            step(names, used, Event::UseLocal { name }) == used
        }),
{
    let used = step(names, uses, Event::UseLocal { name });
    lemma_innermost(uses.bindings, name);
    lemma_innermost(used.bindings, name);
    if let Some(index) = innermost(uses.bindings, name) {
        let again = innermost(used.bindings, name);
        assert(again is Some) by {
            assert(used.bindings[index as int].name == name);
        }
        assert(again->0 == index) by {
            let other = again->0;
            if other > index {
                assert(used.bindings[other as int] == uses.bindings[other as int]);
            } else if other < index {
                assert(used.bindings[index as int].name == name);
            }
        }
        assert(used.bindings.update(index as int, used.bindings[index as int]) =~= used.bindings);
        assert(step(names, used, Event::UseLocal { name }) =~= used);
    }
}

/// Whether `event` is a use that stands for the binding at `at`, in scope after `now`.
pub open spec fn resolves(now: Uses, event: Event, at: int) -> bool {
    match event {
        Event::UseLocal { name } => match innermost(now.bindings, name) {
            Some(index) => index == at,
            None => false,
        },
        _ => false,
    }
}

/// Whether one of `events`, which follow `start`, uses the binding at `at`: it uses a name that
/// stands for that binding where it is used.
pub open spec fn is_read(names: Texts, start: Uses, events: Seq<Event>, at: int) -> bool {
    exists|i: int|
        0 <= i < events.len() && #[trigger] resolves(
            run(names, start, events.take(i)),
            events[i],
            at,
        )
}

proof fn lemma_read_later(names: Texts, start: Uses, events: Seq<Event>, at: int)
    requires
        events.len() > 0,
    ensures
        is_read(names, start, events, at) <==> is_read(names, start, events.drop_last(), at)
            || resolves(run(names, start, events.drop_last()), events.last(), at),
{
    let earlier = events.drop_last();
    let last = events.len() - 1;
    assert(events.take(last) =~= earlier);
    if is_read(names, start, earlier, at) {
        let i = choose|i: int|
            0 <= i < earlier.len() && #[trigger] resolves(
                run(names, start, earlier.take(i)),
                earlier[i],
                at,
            );
        assert(events.take(i) =~= earlier.take(i));
        assert(resolves(run(names, start, events.take(i)), events[i], at));
    }
    if resolves(run(names, start, earlier), events.last(), at) {
        assert(resolves(run(names, start, events.take(last)), events[last], at));
    }
    if is_read(names, start, events, at) {
        let i = choose|i: int|
            0 <= i < events.len() && #[trigger] resolves(
                run(names, start, events.take(i)),
                events[i],
                at,
            );
        if i < last {
            assert(events.take(i) =~= earlier.take(i));
            assert(resolves(run(names, start, earlier.take(i)), earlier[i], at));
        }
    }
}

proof fn lemma_tracks(names: Texts, start: Uses, body: Seq<Event>, at: int, count: int)
    requires
        0 <= at < start.bindings.len(),
        is_balanced(body),
        0 <= count <= body.len(),
    ensures
        ({
            let now = run(names, start, body.take(count));
            &&& now.bindings.len() >= start.bindings.len()
            &&& now.bindings[at].referenced == (start.bindings[at].referenced || is_read(
                names,
                start,
                body.take(count),
                at,
            ))
        }),
    decreases count,
{
    lemma_run_extends(names, start, body, count);
    if count == 0 {
        assert(body.take(0) =~= Seq::<Event>::empty());
    } else {
        let event = body[count - 1];
        let earlier = body.take(count - 1);
        let now = run(names, start, earlier);
        lemma_tracks(names, start, body, at, count - 1);
        lemma_run_extends(names, start, body, count - 1);
        assert(body.take(count).drop_last() =~= earlier);
        assert(run(names, start, body.take(count)) == step(names, now, event));
        lemma_read_later(names, start, body.take(count), at);
        if let Event::UseLocal { name } = event {
            lemma_innermost(now.bindings, name);
        }
    }
}

/// The binding that `event` brings into scope, if it declares something and a scope is open.
pub open spec fn declared_binding(event: Event) -> Option<Binding> {
    match event {
        Event::Declare { name, span } => Some(
            Binding { name, span, kind: BindingKind::Variable, referenced: false },
        ),
        Event::DeclareConst { name, span } => Some(
            Binding { name, span, kind: BindingKind::Const, referenced: false },
        ),
        _ => None,
    }
}

proof fn lemma_unused_split(names: Texts, bindings: Seq<Binding>, start: int, at: int)
    requires
        0 <= start <= at < bindings.len(),
    ensures
        unused_from(names, bindings, start) == unused_from(names, bindings.take(at), start)
            + unused_from(names, bindings, at),
    decreases at - start,
{
    let first = bindings.take(at);
    if start < at {
        lemma_unused_split(names, bindings, start + 1, at);
        let rest = unused_from(names, first, start + 1);
        let more = unused_from(names, bindings, at);
        assert(first[start] == bindings[start]);
        if is_unused(names, bindings[start]) {
            let warned = seq![unused_warning(bindings[start])];
            assert(warned + (rest + more) =~= (warned + rest) + more);
        }
    } else {
        assert(unused_from(names, first, start) =~= Seq::<Warning>::empty());
        let all = unused_from(names, bindings, at);
        assert(Seq::<Warning>::empty() + all =~= all);
    }
}

/// A local variable or constant is warned of, when its scope closes, if and only if nothing in its
/// scope uses it and its name does not start with `_`. What uses it is what its name stands for
/// there: where the name is declared again, the uses are those of the inner variable. The
/// warnings of a scope come in the order in which it declares. `first` stands before the
/// declaration, `rest` behind it.
pub proof fn reads_decide(
    names: Texts,
    uses: Uses,
    first: Seq<Event>,
    declaration: Event,
    rest: Seq<Event>,
)
    requires
        is_balanced(first),
        is_balanced(rest),
        declared_binding(declaration) is Some,
    ensures
        ({
            let binding = declared_binding(declaration)->0;
            let before = run(names, step(names, uses, Event::Enter), first);
            let declared = step(names, before, declaration);
            let inside = run(names, declared, rest);
            let after = run(names, uses, scoped(first + seq![declaration] + rest));
            let at = before.bindings.len() as int;
            let read = is_read(names, declared, rest, at);
            &&& declared.bindings == before.bindings.push(binding)
            &&& inside.bindings.len() > at
            &&& inside.bindings[at] == (Binding { referenced: read, ..binding })
            &&& after.warnings == inside.warnings + (unused_from(
                names,
                inside.bindings.take(at),
                uses.bindings.len() as int,
            ) + ((if read || is_underscored(names, binding.name) {
                Seq::empty()
            } else {
                seq![unused_warning(binding)]
            }) + unused_from(names, inside.bindings, at + 1)))
        }),
{
    broadcast use {run_joined, run_one};

    reveal(is_balanced);
    let binding = declared_binding(declaration)->0;
    let opened = step(names, uses, Event::Enter);
    let before = run(names, opened, first);
    let declared = step(names, before, declaration);
    let inside = run(names, declared, rest);
    let after = run(names, uses, scoped(first + seq![declaration] + rest));
    let at = before.bindings.len() as int;
    let start = uses.bindings.len() as int;
    lemma_run_extends(names, opened, first, first.len() as int);
    assert(first.take(first.len() as int) =~= first);
    lemma_run_extends(names, declared, rest, rest.len() as int);
    lemma_tracks(names, declared, rest, at, rest.len() as int);
    assert(rest.take(rest.len() as int) =~= rest);
    assert(run(names, opened, first + seq![declaration]) == declared);
    assert(run(names, opened, first + seq![declaration] + rest) == inside);
    assert(after == step(names, inside, Event::Exit));
    assert(same_binding(declared.bindings[at], inside.bindings[at]));
    assert(inside.scope_starts[opened.scope_starts.len() - 1] == opened.scope_starts.last());
    assert(inside.scope_starts.last() == start);
    lemma_unused_split(names, inside.bindings, start, at);
    let more = unused_from(names, inside.bindings, at + 1);
    assert(unused_warning(inside.bindings[at]) == unused_warning(binding));
    assert(Seq::<Warning>::empty() + more =~= more);
}

/// Whether `events` hold a use of the name `name`.
pub open spec fn reads(events: Seq<Event>, name: Symbol) -> bool {
    exists|i: int| 0 <= i < events.len() && #[trigger] events[i] == (Event::UseLocal { name })
}

/// Whether `events` bring the name `name` into scope.
pub open spec fn declares(events: Seq<Event>, name: Symbol) -> bool {
    exists|i: int|
        0 <= i < events.len() && match #[trigger] declared_binding(events[i]) {
            Some(binding) => binding.name == name,
            None => false,
        }
}

proof fn lemma_stays_innermost(names: Texts, start: Uses, body: Seq<Event>, count: int)
    requires
        start.bindings.len() > 0,
        is_balanced(body),
        !declares(body, start.bindings.last().name),
        0 <= count <= body.len(),
    ensures
        innermost(run(names, start, body.take(count)).bindings, start.bindings.last().name) == Some(
            (start.bindings.len() - 1) as nat,
        ),
    decreases count,
{
    let top = start.bindings.len() - 1;
    let name = start.bindings[top].name;
    let now = run(names, start, body.take(count));
    lemma_run_extends(names, start, body, count);
    lemma_innermost(now.bindings, name);
    assert(same_binding(start.bindings[top], now.bindings[top]));
    if count == 0 {
        assert(body.take(0) =~= Seq::<Event>::empty());
    } else {
        let event = body[count - 1];
        let earlier = run(names, start, body.take(count - 1));
        lemma_stays_innermost(names, start, body, count - 1);
        lemma_innermost(earlier.bindings, name);
        assert(body.take(count).drop_last() =~= body.take(count - 1));
        assert(now == step(names, earlier, event));
        assert(declared_binding(event) matches Some(binding) ==> binding.name != name);
        if let Event::UseLocal { name: used } = event {
            lemma_innermost(earlier.bindings, used);
        }
        assert forall|i: int| top < i < now.bindings.len() implies (
        #[trigger] now.bindings[i]).name != name by {
            if i < earlier.bindings.len() {
                assert(earlier.bindings[i].name != name);
            }
        }
    }
}

/// As long as its name is not declared again, the variable that was declared last is used by every
/// use of its name, and by nothing else.
pub proof fn names_stand_for_variables(names: Texts, start: Uses, body: Seq<Event>)
    requires
        start.bindings.len() > 0,
        is_balanced(body),
        !declares(body, start.bindings.last().name),
    ensures
        is_read(names, start, body, start.bindings.len() - 1) <==> reads(
            body,
            start.bindings.last().name,
        ),
{
    let top = start.bindings.len() - 1;
    let name = start.bindings[top].name;
    if reads(body, name) {
        let i = choose|i: int|
            0 <= i < body.len() && #[trigger] body[i] == (Event::UseLocal { name });
        lemma_stays_innermost(names, start, body, i);
        assert(resolves(run(names, start, body.take(i)), body[i], top));
    }
    if is_read(names, start, body, top) {
        let i = choose|i: int|
            0 <= i < body.len() && #[trigger] resolves(
                run(names, start, body.take(i)),
                body[i],
                top,
            );
        let now = run(names, start, body.take(i));
        lemma_run_extends(names, start, body, i);
        assert(same_binding(start.bindings[top], now.bindings[top]));
        if let Event::UseLocal { name: used } = body[i] {
            lemma_innermost(now.bindings, used);
            assert(body[i] == (Event::UseLocal { name }));
        }
    }
}

/* Underscores */

/// Whether the name that `warning` is about is of the right form: a variable, constant or function
/// whose name starts with `_` is not said to be unused, and only such a variable is said to be
/// used in spite of its name.
pub open spec fn respects_underscore(names: Texts, warning: Warning) -> bool {
    match warning.kind {
        WarningKind::UnusedVariable => !is_underscored(names, warning.name),
        WarningKind::UnusedConst => !is_underscored(names, warning.name),
        WarningKind::UnusedFunction => !is_underscored(names, warning.name),
        WarningKind::UsedUnderscoreBinding => is_underscored(names, warning.name),
        _ => true,
    }
}

spec fn all_respect(names: Texts, warnings: Seq<Warning>) -> bool {
    forall|i: int| 0 <= i < warnings.len() ==> respects_underscore(names, #[trigger] warnings[i])
}

spec fn findings_respect(names: Texts, findings: Findings) -> bool {
    findings is Ok ==> all_respect(names, findings->Ok_0)
}

proof fn lemma_unused_from(names: Texts, bindings: Seq<Binding>, start: int)
    ensures
        all_respect(names, unused_from(names, bindings, start)),
    decreases bindings.len() - start,
{
    if 0 <= start < bindings.len() {
        lemma_unused_from(names, bindings, start + 1);
    }
}

proof fn lemma_run_respects(names: Texts, uses: Uses, events: Seq<Event>)
    requires
        all_respect(names, uses.warnings),
    ensures
        all_respect(names, run(names, uses, events).warnings),
    decreases events.len(),
{
    if events.len() > 0 {
        let now = run(names, uses, events.drop_last());
        lemma_run_respects(names, uses, events.drop_last());
        if now.scope_starts.len() > 0 {
            lemma_unused_from(names, now.bindings, now.scope_starts.last() as int);
        }
    }
}

proof fn lemma_functions(known: Known, unit: Symbol, prefix: List<Symbol>, items: List<Function>)
    ensures
        findings_respect(known.names, functions_findings(known, unit, prefix, items)),
    decreases items,
{
    match items {
        List::Nil => {},
        List::Cons(first, rest) => {
            lemma_functions(known, unit, prefix, copied(&*rest));
        },
    }
}

proof fn lemma_composites(known: Known, unit: Symbol, prefix: List<Symbol>, items: List<Composite>)
    ensures
        findings_respect(known.names, composites_findings(known, unit, prefix, items)),
    decreases items,
{
    match items {
        List::Nil => {},
        List::Cons(first, rest) => {
            lemma_composites(known, unit, prefix, copied(&*rest));
        },
    }
}

proof fn lemma_consts(
    known: Known,
    unit: Symbol,
    prefix: List<Symbol>,
    items: List<ConstDeclaration>,
)
    ensures
        findings_respect(known.names, consts_findings(known, unit, prefix, items)),
    decreases items,
{
    match items {
        List::Nil => {},
        List::Cons(first, rest) => {
            lemma_consts(known, unit, prefix, copied(&*rest));
        },
    }
}

proof fn lemma_imports(known: Known, items: List<Import>)
    ensures
        findings_respect(known.names, imports_findings(known, items)),
    decreases items,
{
    match items {
        List::Nil => {},
        List::Cons(first, rest) => {
            lemma_imports(known, copied(&*rest));
        },
    }
}

proof fn lemma_modules(known: Known, items: List<Module>)
    ensures
        findings_respect(known.names, modules_findings(known, items)),
    decreases items,
{
    match items {
        List::Nil => {},
        List::Cons(first, rest) => {
            let unit = first.unit_name;
            lemma_functions(known, unit, copied(&first.path), copied(&first.functions));
            lemma_composites(known, unit, copied(&first.path), copied(&first.composites));
            lemma_consts(known, unit, copied(&first.path), copied(&first.consts));
            lemma_modules(known, copied(&*rest));
        },
    }
}

proof fn lemma_program_scopes(known: Known, items: List<ProgramScope>)
    ensures
        findings_respect(known.names, program_scopes_findings(known, items)),
    decreases items,
{
    match items {
        List::Nil => {},
        List::Cons(first, rest) => {
            let unit = first.program_id.symbol;
            lemma_functions(known, unit, List::Nil, copied(&first.functions));
            lemma_composites(known, unit, List::Nil, copied(&first.composites));
            lemma_consts(known, unit, List::Nil, copied(&first.consts));
            lemma_program_scopes(known, copied(&*rest));
        },
    }
}

/// A `_` in front of a name silences the warning that a variable, a constant or a function is
/// unused. A variable is only said to be used in spite of its name if the name starts with `_`.
pub proof fn underscores_silence(names: Texts, counts: List<CallCount>, ast: Ast, index: int)
    requires
        unused_items(names, counts, ast) is Ok,
        0 <= index < unused_items(names, counts, ast)->Ok_0.len(),
    ensures
        respects_underscore(names, unused_items(names, counts, ast)->Ok_0[index]),
{
    let known = known_of(names, counts, uses_of(names, ast));
    lemma_run_respects(names, no_uses(), ast_events(names, ast));
    match ast {
        Ast::Program(program) => {
            lemma_program_scopes(known, copied(&program.program_scopes));
            lemma_modules(known, copied(&program.modules));
            lemma_imports(known, copied(&program.imports));
        },
        Ast::Library(library) => {
            lemma_consts(known, library.name, List::Nil, copied(&library.consts));
            lemma_modules(known, copied(&library.modules));
        },
    }
    assert(findings_respect(names, ast_findings(known, ast)));
}

/* Counts */

/// Whether every function of `items` that needs calls has a count.
pub open spec fn functions_counted(
    names: Texts,
    counts: List<CallCount>,
    unit: Symbol,
    prefix: List<Symbol>,
    items: List<Function>,
) -> bool
    decreases items,
{
    match items {
        List::Nil => true,
        List::Cons(first, rest) => {
            &&& needs_calls(names, first) ==> count_of(
                counts,
                location_in(unit, prefix, first.identifier.name),
            ) is Some
            &&& functions_counted(names, counts, unit, prefix, *rest)
        },
    }
}

pub open spec fn modules_counted(names: Texts, counts: List<CallCount>, items: List<Module>) -> bool
    decreases items,
{
    match items {
        List::Nil => true,
        List::Cons(first, rest) => {
            &&& functions_counted(names, counts, first.unit_name, first.path, first.functions)
            &&& modules_counted(names, counts, *rest)
        },
    }
}

pub open spec fn program_scopes_counted(
    names: Texts,
    counts: List<CallCount>,
    items: List<ProgramScope>,
) -> bool
    decreases items,
{
    match items {
        List::Nil => true,
        List::Cons(first, rest) => {
            &&& functions_counted(
                names,
                counts,
                first.program_id.symbol,
                List::Nil,
                first.functions,
            )
            &&& program_scopes_counted(names, counts, *rest)
        },
    }
}

/// Whether every function of `ast` that is checked and needs calls has a count.
pub open spec fn is_counted(names: Texts, counts: List<CallCount>, ast: Ast) -> bool {
    match ast {
        Ast::Program(program) => {
            &&& program_scopes_counted(names, counts, program.program_scopes)
            &&& modules_counted(names, counts, program.modules)
        },
        Ast::Library(library) => modules_counted(names, counts, library.modules),
    }
}

/// Whether a check gives up, as far as `counted` says.
spec fn follows(findings: Findings, counted: bool) -> bool {
    if counted {
        findings is Ok
    } else {
        findings == Err::<Seq<Warning>, Halt>(Halt::IllFormed)
    }
}

proof fn lemma_functions_follow(
    known: Known,
    unit: Symbol,
    prefix: List<Symbol>,
    items: List<Function>,
)
    ensures
        follows(
            functions_findings(known, unit, prefix, items),
            functions_counted(known.names, known.counts, unit, prefix, items),
        ),
    decreases items,
{
    if let List::Cons(first, rest) = items {
        lemma_functions_follow(known, unit, prefix, copied(&*rest));
    }
}

proof fn lemma_composites_follow(
    known: Known,
    unit: Symbol,
    prefix: List<Symbol>,
    items: List<Composite>,
)
    ensures
        composites_findings(known, unit, prefix, items) is Ok,
    decreases items,
{
    if let List::Cons(first, rest) = items {
        lemma_composites_follow(known, unit, prefix, copied(&*rest));
    }
}

proof fn lemma_consts_follow(
    known: Known,
    unit: Symbol,
    prefix: List<Symbol>,
    items: List<ConstDeclaration>,
)
    ensures
        consts_findings(known, unit, prefix, items) is Ok,
    decreases items,
{
    if let List::Cons(first, rest) = items {
        lemma_consts_follow(known, unit, prefix, copied(&*rest));
    }
}

proof fn lemma_imports_follow(known: Known, items: List<Import>)
    ensures
        imports_findings(known, items) is Ok,
    decreases items,
{
    if let List::Cons(first, rest) = items {
        lemma_imports_follow(known, copied(&*rest));
    }
}

proof fn lemma_modules_follow(known: Known, items: List<Module>)
    ensures
        follows(
            modules_findings(known, items),
            modules_counted(known.names, known.counts, items),
        ),
    decreases items,
{
    if let List::Cons(first, rest) = items {
        let unit = first.unit_name;
        lemma_functions_follow(known, unit, copied(&first.path), copied(&first.functions));
        lemma_composites_follow(known, unit, copied(&first.path), copied(&first.composites));
        lemma_consts_follow(known, unit, copied(&first.path), copied(&first.consts));
        lemma_modules_follow(known, copied(&*rest));
    }
}

proof fn lemma_program_scopes_follow(known: Known, items: List<ProgramScope>)
    ensures
        follows(
            program_scopes_findings(known, items),
            program_scopes_counted(known.names, known.counts, items),
        ),
    decreases items,
{
    if let List::Cons(first, rest) = items {
        let unit = first.program_id.symbol;
        lemma_functions_follow(known, unit, List::Nil, copied(&first.functions));
        lemma_composites_follow(known, unit, List::Nil, copied(&first.composites));
        lemma_consts_follow(known, unit, List::Nil, copied(&first.consts));
        lemma_program_scopes_follow(known, copied(&*rest));
    }
}

/// The pass gives up on a unit if and only if a function that needs calls has no count. So where
/// all have one, it fails only if an error was reported before.
pub proof fn counts_suffice(names: Texts, counts: List<CallCount>, ast: Ast)
    ensures
        is_counted(names, counts, ast) ==> unused_items(names, counts, ast) is Ok,
        !is_counted(names, counts, ast) ==> unused_items(names, counts, ast) == Err::<
            Seq<Warning>,
            Halt,
        >(Halt::IllFormed),
{
    let known = known_of(names, counts, uses_of(names, ast));
    match ast {
        Ast::Program(program) => {
            lemma_program_scopes_follow(known, copied(&program.program_scopes));
            lemma_modules_follow(known, copied(&program.modules));
            lemma_imports_follow(known, copied(&program.imports));
        },
        Ast::Library(library) => {
            lemma_consts_follow(known, library.name, List::Nil, copied(&library.consts));
            lemma_modules_follow(known, copied(&library.modules));
        },
    }
}

} // verus!
