//! Which of the statements that follow a definition depend on it.
use crate::ast::{DefinitionPlace, Expression, Identifier, Path, Statement, Symbol};
use crate::list::{appended, dropped, lemma_taken_dropped, taken, List, Share};
use crate::storage_lowering::visitor::StorageLoweringVisitor;
use crate::walk::{collect_statement_paths, statement_paths};
use std::rc::Rc;
use vstd::prelude::*;

verus! {

/// Whether `path` stands for the local variable `symbol`. A bare name that is not resolved yet
/// counts as a local variable.
pub open spec fn path_matches_local_symbol(path: Path, symbol: Symbol) -> bool {
    path.spec_try_local_symbol() == Some(symbol) || (path.identifier.name == symbol
        && path.is_bare())
}

/// Whether `statement` mentions one of `symbols`.
pub open spec fn uses_any_local_symbol(statement: Statement, symbols: Seq<Symbol>) -> bool {
    exists|p: int, s: int|
        0 <= p < statement_paths(statement).len() && 0 <= s < symbols.len()
            && #[trigger] path_matches_local_symbol(*statement_paths(statement)[p], symbols[s])
}

/// The local variable that an assignment to `place` changes, as a whole or in part.
pub open spec fn assigned_local_symbol(place: Expression) -> Option<Symbol>
    decreases place,
{
    match place {
        Expression::ArrayAccess(input) => assigned_local_symbol(input.array),
        Expression::MemberAccess(input) => assigned_local_symbol(input.inner),
        Expression::Path(path) => if path.target is Local {
            path.spec_try_local_symbol()
        } else if path.is_bare() {
            Some(path.identifier.name)
        } else {
            None
        },
        Expression::TupleAccess(input) => assigned_local_symbol(input.tuple),
        _ => None,
    }
}

/// The names of `identifiers`.
pub open spec fn names_of(identifiers: List<Identifier>) -> Seq<Symbol>
    decreases identifiers,
{
    match identifiers {
        List::Nil => Seq::empty(),
        List::Cons(first, rest) => seq![first.name] + names_of(*rest),
    }
}

/// The local variables that `statement` itself defines or changes.
pub open spec fn changed_symbols(statement: Statement) -> Seq<Symbol> {
    match statement {
        Statement::Assign(input) => match assigned_local_symbol(input.place) {
            Some(symbol) => seq![symbol],
            None => Seq::empty(),
        },
        Statement::Const(input) => seq![input.place.name],
        Statement::Definition(input) => match input.place {
            DefinitionPlace::Single(identifier) => seq![identifier.name],
            DefinitionPlace::Multiple(identifiers) => names_of(identifiers),
        },
        _ => Seq::empty(),
    }
}

/// `symbols`, with `symbol` added behind them if it is not among them.
pub open spec fn with_branch_symbol(symbols: Seq<Symbol>, symbol: Symbol) -> Seq<Symbol> {
    if symbols.contains(symbol) {
        symbols
    } else {
        symbols.push(symbol)
    }
}

/// `symbols`, with those of `more` added behind them that are not among them.
pub open spec fn with_branch_symbols(symbols: Seq<Symbol>, more: Seq<Symbol>) -> Seq<Symbol>
    decreases more.len(),
{
    if more.len() == 0 {
        symbols
    } else {
        with_branch_symbol(with_branch_symbols(symbols, more.drop_last()), more.last())
    }
}

/// Whether `name` is `symbol` or one of the first `count` statements of `tail` changes it.
pub open spec fn depends(tail: Seq<Statement>, symbol: Symbol, count: int, name: Symbol) -> bool {
    name == symbol || exists|i: int|
        0 <= i < count && #[trigger] changed_symbols(tail[i]).contains(name)
}

/// Whether `statement` mentions `symbol` or anything that the first `count` statements of `tail`
/// change.
pub open spec fn uses_dependent(
    tail: Seq<Statement>,
    symbol: Symbol,
    count: int,
    statement: Statement,
) -> bool {
    exists|p: int, name: Symbol|
        0 <= p < statement_paths(statement).len() && #[trigger] path_matches_local_symbol(
            *statement_paths(statement)[p],
            name,
        ) && depends(tail, symbol, count, name)
}

/// Whether `tail` can be cut after `count` statements: no statement behind the cut mentions
/// `symbol` or anything that is changed before the cut.
pub open spec fn is_cut(tail: Seq<Statement>, symbol: Symbol, count: int) -> bool {
    forall|i: int|
        count <= i < tail.len() ==> !(#[trigger] uses_dependent(tail, symbol, count, tail[i]))
}

/// The first place from `count` on where `tail` can be cut.
pub open spec fn first_cut(tail: Seq<Statement>, symbol: Symbol, count: nat) -> nat
    decreases tail.len() - count,
{
    if count >= tail.len() || is_cut(tail, symbol, count as int) {
        count
    } else {
        first_cut(tail, symbol, count + 1)
    }
}

/// `tail` in two: what depends on the local variable `symbol`, up to the last statement that
/// does, and the rest. The first part is as short as it can be.
pub open spec fn split_tail(tail: List<Statement>, symbol: Symbol) -> (
    List<Statement>,
    List<Statement>,
) {
    let cut = first_cut(tail@, symbol, 0);
    (taken(tail, cut), dropped(tail, cut))
}

proof fn lemma_with_branch_symbols(symbols: Seq<Symbol>, more: Seq<Symbol>)
    ensures
        forall|name: Symbol|
            with_branch_symbols(symbols, more).contains(name) <==> symbols.contains(name)
                || more.contains(name),
    decreases more.len(),
{
    let all = with_branch_symbols(symbols, more);
    if more.len() > 0 {
        let before = with_branch_symbols(symbols, more.drop_last());
        lemma_with_branch_symbols(symbols, more.drop_last());
        assert forall|name: Symbol|
            all.contains(name) <==> symbols.contains(name) || more.contains(name) by {
            assert(more =~= more.drop_last().push(more.last()));
            assert(more.contains(name) <==> more.drop_last().contains(name) || name == more.last())
                by {
                if more.drop_last().contains(name) {
                    let i = choose|i: int| 0 <= i < more.len() - 1 && more.drop_last()[i] == name;
                    assert(more[i] == name);
                }
                if more.contains(name) && name != more.last() {
                    let i = choose|i: int| 0 <= i < more.len() && more[i] == name;
                    assert(more.drop_last()[i] == name);
                }
                if name == more.last() {
                    assert(more[more.len() - 1] == name);
                }
            }
            assert(before.push(more.last()).contains(name) <==> before.contains(name) || name
                == more.last()) by {
                let pushed = before.push(more.last());
                if before.contains(name) {
                    let i = choose|i: int| 0 <= i < before.len() && before[i] == name;
                    assert(pushed[i] == name);
                }
                if name == more.last() {
                    assert(pushed[before.len() as int] == name);
                }
                if pushed.contains(name) && name != more.last() {
                    let i = choose|i: int| 0 <= i < pushed.len() && pushed[i] == name;
                    assert(before[i] == name);
                }
            }
        }
    } else {
        assert forall|name: Symbol| !more.contains(name) by {}
    }
}

/// A place where `tail` can be cut, before which it cannot be, is the first such place.
proof fn lemma_first_cut(tail: Seq<Statement>, symbol: Symbol, count: nat, cut: nat)
    requires
        count <= cut <= tail.len(),
        is_cut(tail, symbol, cut as int),
        forall|i: int| count <= i < cut ==> !is_cut(tail, symbol, i),
    ensures
        first_cut(tail, symbol, count) == cut,
    decreases cut - count,
{
    if count < cut {
        lemma_first_cut(tail, symbol, count + 1, cut);
    }
}

/// The first cut is a cut, and no earlier place is one.
proof fn lemma_first_cut_is_first(tail: Seq<Statement>, symbol: Symbol, count: nat)
    requires
        count <= tail.len(),
    ensures
        count <= first_cut(tail, symbol, count) <= tail.len(),
        is_cut(tail, symbol, first_cut(tail, symbol, count) as int),
        forall|i: int|
            count <= i < first_cut(tail, symbol, count) ==> !is_cut(tail, symbol, i),
    decreases tail.len() - count,
{
    if !(count >= tail.len() || is_cut(tail, symbol, count as int)) {
        lemma_first_cut_is_first(tail, symbol, count + 1);
    }
}

/// Splitting loses nothing, what is split off mentions neither `symbol` nor anything that the
/// first part changes, and no shorter first part would do.
pub proof fn split_tail_is_minimal(tail: &List<Statement>, symbol: Symbol)
    ensures
        ({
            let (first, rest) = split_tail(*tail, symbol);
            &&& appended(first, rest) == *tail
            &&& first@.len() <= tail@.len()
            &&& first@ == tail@.take(first@.len() as int)
            &&& rest@ == tail@.skip(first@.len() as int)
            &&& forall|i: int|
                0 <= i < rest@.len() ==> !(#[trigger] uses_dependent(
                    tail@,
                    symbol,
                    first@.len() as int,
                    rest@[i],
                ))
            &&& forall|count: int|
                0 <= count < first@.len() ==> !(#[trigger] is_cut(tail@, symbol, count))
        }),
{
    let cut = first_cut(tail@, symbol, 0);
    lemma_first_cut_is_first(tail@, symbol, 0);
    lemma_taken_dropped(tail, cut);
    let (first, rest) = split_tail(*tail, symbol);
    assert(first@.len() == cut);
    assert forall|i: int| 0 <= i < rest@.len() implies !(#[trigger] uses_dependent(
        tail@,
        symbol,
        cut as int,
        rest@[i],
    )) by {
        assert(rest@[i] == tail@[i + cut]);
        assert(!uses_dependent(tail@, symbol, cut as int, tail@[i + cut]));
    }
}

fn push_names(identifiers: &List<Identifier>, symbols: &mut Vec<Symbol>, Ghost(before): Ghost<
    Seq<Symbol>,
>, Ghost(done): Ghost<Seq<Symbol>>)
    requires
        old(symbols)@ == with_branch_symbols(before, done),
    ensures
        final(symbols)@ == with_branch_symbols(before, done + names_of(*identifiers)),
    decreases *identifiers,
{
    match identifiers {
        List::Nil => {
            assert(done + names_of(*identifiers) =~= done);
        },
        List::Cons(first, rest) => {
            StorageLoweringVisitor::push_branch_local_symbol(symbols, first.name);
            let ghost more = done.push(first.name);
            assert(more.drop_last() =~= done);
            push_names(rest, symbols, Ghost(before), Ghost(more));
            assert(more + names_of(**rest) =~= done + names_of(*identifiers));
        },
    }
}

impl StorageLoweringVisitor {
    /// Whether `path` stands for the local variable `symbol`.
    pub fn path_matches_local_symbol(path: &Path, symbol: Symbol) -> (r: bool)
        ensures
            r == path_matches_local_symbol(*path, symbol),
    {
        let local = match path.try_local_symbol() {
            Some(local) => local == symbol,
            None => false,
        };
        local || (path.identifier.name == symbol && path.bare())
    }

    /// Whether `statement` mentions one of `symbols`.
    pub fn statement_uses_any_local_symbol(statement: &Statement, symbols: &Vec<Symbol>) -> (r:
        bool)
        ensures
            r == uses_any_local_symbol(*statement, symbols@),
    {
        let mut paths: Vec<Rc<Path>> = Vec::new();
        collect_statement_paths(statement, &mut paths);
        assert(paths@ =~= statement_paths(*statement));
        let mut p: usize = 0;
        while p < paths.len()
            invariant
                paths@ == statement_paths(*statement),
                0 <= p <= paths.len(),
                forall|i: int, s: int|
                    0 <= i < p && 0 <= s < symbols@.len() ==> !(
                    #[trigger] path_matches_local_symbol(*paths@[i], symbols@[s])),
            decreases paths.len() - p,
        {
            let mut s: usize = 0;
            while s < symbols.len()
                invariant
                    paths@ == statement_paths(*statement),
                    0 <= p < paths.len(),
                    0 <= s <= symbols.len(),
                    forall|j: int|
                        0 <= j < s ==> !(#[trigger] path_matches_local_symbol(
                            *paths@[p as int],
                            symbols@[j],
                        )),
                decreases symbols.len() - s,
            {
                if Self::path_matches_local_symbol(&paths[p], symbols[s]) {
                    assert(path_matches_local_symbol(
                        *statement_paths(*statement)[p as int],
                        symbols@[s as int],
                    ));
                    return true;
                }
                s = s + 1;
            }
            p = p + 1;
        }
        false
    }

    /// The local variable that an assignment to `expression` changes, as a whole or in part.
    pub fn assigned_local_symbol(expression: &Expression) -> (r: Option<Symbol>)
        ensures
            r == assigned_local_symbol(*expression),
        decreases *expression,
    {
        match expression {
            Expression::ArrayAccess(input) => Self::assigned_local_symbol(&input.array),
            Expression::MemberAccess(input) => Self::assigned_local_symbol(&input.inner),
            Expression::Path(path) => match path.try_local_symbol() {
                Some(symbol) => Some(symbol),
                None => if path.bare() {
                    Some(path.identifier.name)
                } else {
                    None
                },
            },
            Expression::TupleAccess(input) => Self::assigned_local_symbol(&input.tuple),
            _ => None,
        }
    }

    /// Adds `symbol` to `symbols` if it is not among them.
    pub fn push_branch_local_symbol(symbols: &mut Vec<Symbol>, symbol: Symbol)
        ensures
            final(symbols)@ == with_branch_symbol(old(symbols)@, symbol),
    {
        let mut i: usize = 0;
        while i < symbols.len()
            invariant
                *symbols == *old(symbols),
                0 <= i <= symbols.len(),
                forall|j: int| 0 <= j < i ==> symbols@[j] != symbol,
            decreases symbols.len() - i,
        {
            if symbols[i] == symbol {
                assert(symbols@[i as int] == symbol);
                return;
            }
            i = i + 1;
        }
        symbols.push(symbol);
    }

    /// Adds to `symbols` the local variables that `statement` itself defines or changes.
    pub fn extend_branch_local_symbols(statement: &Statement, symbols: &mut Vec<Symbol>)
        ensures
            final(symbols)@ == with_branch_symbols(old(symbols)@, changed_symbols(*statement)),
    {
        let ghost before = symbols@;
        assert(with_branch_symbols(before, Seq::empty()) == before);
        proof {
            assert forall|symbol: Symbol| #[trigger]
                with_branch_symbols(before, seq![symbol]) == with_branch_symbol(before, symbol) by {
                assert(seq![symbol].drop_last() =~= Seq::<Symbol>::empty());
            }
        }
        match statement {
            Statement::Assign(input) => {
                if let Some(symbol) = Self::assigned_local_symbol(&input.place) {
                    Self::push_branch_local_symbol(symbols, symbol);
                }
            },
            Statement::Const(input) => Self::push_branch_local_symbol(symbols, input.place.name),
            Statement::Definition(input) => match &input.place {
                DefinitionPlace::Single(identifier) => {
                    Self::push_branch_local_symbol(symbols, identifier.name)
                },
                DefinitionPlace::Multiple(identifiers) => {
                    push_names(identifiers, symbols, Ghost(before), Ghost(Seq::empty()));
                    assert(Seq::<Symbol>::empty() + names_of(*identifiers) =~= names_of(
                        *identifiers,
                    ));
                },
            },
            _ => {},
        }
    }

    /// `tail` in two: what depends on the local variable `symbol`, up to the last statement that
    /// does, and the rest.
    pub fn split_tail_after_last_local_use(tail: &List<Statement>, symbol: Symbol) -> (r: (
        List<Statement>,
        List<Statement>,
    ))
        ensures
            r == split_tail(*tail, symbol),
    {
        let statements = tail.to_vec();
        let ghost all = tail@;
        let mut branch_symbols: Vec<Symbol> = Vec::new();
        branch_symbols.push(symbol);
        let mut split_index: usize = 0;
        let mut index: usize = 0;
        proof {
            assert forall|name: Symbol|
                branch_symbols@.contains(name) <==> depends(all, symbol, 0, name) by {
                assert(branch_symbols@ =~= seq![symbol]);
                if name == symbol {
                    assert(branch_symbols@[0] == name);
                }
            }
        }
        while index < statements.len()
            invariant
                statements@ == all,
                0 <= split_index <= index <= statements.len(),
                forall|name: Symbol|
                    branch_symbols@.contains(name) <==> #[trigger] depends(
                        all,
                        symbol,
                        split_index as int,
                        name,
                    ),
                forall|i: int|
                    split_index <= i < index ==> !(#[trigger] uses_dependent(
                        all,
                        symbol,
                        split_index as int,
                        all[i],
                    )),
                forall|count: int|
                    0 <= count < split_index ==> !(#[trigger] is_cut(all, symbol, count)),
            decreases statements.len() - index,
        {
            let uses = Self::statement_uses_any_local_symbol(&statements[index], &branch_symbols);
            proof {
                lemma_uses(all, symbol, split_index as int, all[index as int], branch_symbols@);
            }
            if uses {
                let ghost old_split = split_index as int;
                proof {
                    assert forall|count: int| 0 <= count <= index implies !(#[trigger] is_cut(
                        all,
                        symbol,
                        count,
                    )) by {
                        if count >= old_split {
                            lemma_uses_grows(all, symbol, old_split, count, all[index as int]);
                            assert(uses_dependent(all, symbol, count, all[index as int]));
                        }
                    }
                }
                while split_index <= index
                    invariant
                        statements@ == all,
                        0 <= old_split <= split_index <= index + 1,
                        index < statements.len(),
                        forall|name: Symbol|
                            branch_symbols@.contains(name) <==> #[trigger] depends(
                                all,
                                symbol,
                                split_index as int,
                                name,
                            ),
                        forall|count: int|
                            0 <= count <= index ==> !(#[trigger] is_cut(all, symbol, count)),
                    decreases index + 1 - split_index,
                {
                    let ghost symbols_before = branch_symbols@;
                    Self::extend_branch_local_symbols(
                        &statements[split_index],
                        &mut branch_symbols,
                    );
                    proof {
                        let changed = changed_symbols(all[split_index as int]);
                        lemma_with_branch_symbols(symbols_before, changed);
                        assert forall|name: Symbol|
                            branch_symbols@.contains(name) <==> #[trigger] depends(
                                all,
                                symbol,
                                split_index + 1,
                                name,
                            ) by {
                            assert(branch_symbols@.contains(name) <==> symbols_before.contains(name)
                                || changed.contains(name));
                            assert(symbols_before.contains(name) <==> depends(
                                all,
                                symbol,
                                split_index as int,
                                name,
                            ));
                            lemma_depends_step(all, symbol, split_index as int, name);
                        }
                    }
                    split_index = split_index + 1;
                }
            }
            index = index + 1;
        }
        proof {
            assert(is_cut(all, symbol, split_index as int));
            lemma_first_cut(all, symbol, 0, split_index as nat);
        }
        (tail.take(split_index), tail.skip(split_index))
    }
}

proof fn lemma_depends_step(tail: Seq<Statement>, symbol: Symbol, count: int, name: Symbol)
    requires
        0 <= count < tail.len(),
    ensures
        depends(tail, symbol, count + 1, name) <==> depends(tail, symbol, count, name)
            || changed_symbols(tail[count]).contains(name),
{
    if changed_symbols(tail[count]).contains(name) {
        assert(depends(tail, symbol, count + 1, name));
    }
    if depends(tail, symbol, count, name) && name != symbol {
        let i = choose|i: int|
            0 <= i < count && #[trigger] changed_symbols(tail[i]).contains(name);
        assert(changed_symbols(tail[i]).contains(name));
    }
}

proof fn lemma_uses(
    tail: Seq<Statement>,
    symbol: Symbol,
    count: int,
    statement: Statement,
    symbols: Seq<Symbol>,
)
    requires
        forall|name: Symbol|
            symbols.contains(name) <==> #[trigger] depends(tail, symbol, count, name),
    ensures
        uses_any_local_symbol(statement, symbols) <==> uses_dependent(
            tail,
            symbol,
            count,
            statement,
        ),
{
    let paths = statement_paths(statement);
    if uses_any_local_symbol(statement, symbols) {
        let (p, s) = choose|p: int, s: int|
            0 <= p < paths.len() && 0 <= s < symbols.len()
                && #[trigger] path_matches_local_symbol(*paths[p], symbols[s]);
        assert(symbols.contains(symbols[s]));
        assert(depends(tail, symbol, count, symbols[s]));
    }
    if uses_dependent(tail, symbol, count, statement) {
        let (p, name) = choose|p: int, name: Symbol|
            0 <= p < paths.len() && #[trigger] path_matches_local_symbol(*paths[p], name)
                && depends(tail, symbol, count, name);
        assert(symbols.contains(name));
        let s = choose|s: int| 0 <= s < symbols.len() && symbols[s] == name;
        assert(path_matches_local_symbol(*paths[p], symbols[s]));
    }
}

proof fn lemma_uses_grows(
    tail: Seq<Statement>,
    symbol: Symbol,
    count: int,
    later: int,
    statement: Statement,
)
    requires
        0 <= count <= later,
        uses_dependent(tail, symbol, count, statement),
    ensures
        uses_dependent(tail, symbol, later, statement),
{
    let paths = statement_paths(statement);
    let (p, name) = choose|p: int, name: Symbol|
        0 <= p < paths.len() && #[trigger] path_matches_local_symbol(*paths[p], name) && depends(
            tail,
            symbol,
            count,
            name,
        );
    if name != symbol {
        let i = choose|i: int|
            0 <= i < count && #[trigger] changed_symbols(tail[i]).contains(name);
        assert(changed_symbols(tail[i]).contains(name));
    }
    assert(depends(tail, symbol, later, name));
}

} // verus!
