//! How far the statements that follow a branch depend on it.
use crate::ast::Statement;
use crate::collections::{
    values_disjoint, values_extend, values_in, values_insert, values_new, with_elements_contains,
};
use crate::storage_lowering::join::environment::{BindingId, ValueId};
use indexmap::IndexSet;
use vstd::prelude::*;

verus! {

/// How a statement is treated in front of a join.
#[derive(Clone, Copy, Debug, PartialEq, Eq, Structural)]
pub enum PlannedStatementKind {
    Ordinary,
    /// It assigns to the local variable `binding` as a whole.
    DirectAssignment { binding: BindingId },
}

/// A statement, the values that it needs and the values that it makes.
#[verifier::ext_equal]
pub struct Planned {
    pub statement: Statement,
    pub uses: Seq<ValueId>,
    pub defines: Seq<ValueId>,
    pub kind: PlannedStatementKind,
}

/// A statement, the values that it needs and the values that it makes.
#[derive(Debug)]
pub struct PlannedStatement {
    pub statement: Statement,
    pub uses: IndexSet<ValueId>,
    pub defines: IndexSet<ValueId>,
    pub kind: PlannedStatementKind,
}

impl View for PlannedStatement {
    type V = Planned;

    open spec fn view(&self) -> Planned {
        Planned {
            statement: self.statement,
            uses: values_in(self.uses),
            defines: values_in(self.defines),
            kind: self.kind,
        }
    }
}

pub open spec fn planned_all(statements: Seq<PlannedStatement>) -> Seq<Planned> {
    statements.map_values(|statement: PlannedStatement| statement@)
}

/// Whether `statement` needs a value that is among `parameters` or that one of the first `count`
/// of `statements` makes.
pub open spec fn needs(
    statements: Seq<Planned>,
    parameters: Seq<ValueId>,
    count: int,
    statement: Planned,
) -> bool {
    exists|value: ValueId| #[trigger]
        statement.uses.contains(value) && (parameters.contains(value) || made_before(
            statements,
            count,
            value,
        ))
}

/// Whether one of the first `count` of `statements` makes `value`.
pub open spec fn made_before(statements: Seq<Planned>, count: int, value: ValueId) -> bool {
    exists|i: int| 0 <= i < count && #[trigger] statements[i].defines.contains(value)
}

/// Whether `statements` can be cut after the first `count`: none of the others needs a parameter
/// or anything made before the cut.
pub open spec fn is_closed(statements: Seq<Planned>, parameters: Seq<ValueId>, count: int) -> bool {
    forall|i: int|
        count <= i < statements.len() ==> !(#[trigger] needs(
            statements,
            parameters,
            count,
            statements[i],
        ))
}

/// The first place from `count` on where `statements` can be cut.
pub open spec fn first_closed(
    statements: Seq<Planned>,
    parameters: Seq<ValueId>,
    count: nat,
) -> nat
    decreases statements.len() - count,
{
    if count >= statements.len() || is_closed(statements, parameters, count as int) {
        count
    } else {
        first_closed(statements, parameters, count + 1)
    }
}

/// The index of the last statement in front of the first cut; `None` if nothing is.
pub open spec fn cut_index(statements: Seq<Planned>, parameters: Seq<ValueId>) -> Option<nat> {
    let count = first_closed(statements, parameters, 0);
    if count == 0 {
        None
    } else {
        Some((count - 1) as nat)
    }
}

proof fn lemma_first_closed(
    statements: Seq<Planned>,
    parameters: Seq<ValueId>,
    count: nat,
    cut: nat,
)
    requires
        count <= cut <= statements.len(),
        is_closed(statements, parameters, cut as int),
        forall|i: int| count <= i < cut ==> !is_closed(statements, parameters, i),
    ensures
        first_closed(statements, parameters, count) == cut,
    decreases cut - count,
{
    if count < cut {
        lemma_first_closed(statements, parameters, count + 1, cut);
    }
}

proof fn lemma_first_closed_is_first(
    statements: Seq<Planned>,
    parameters: Seq<ValueId>,
    count: nat,
)
    requires
        count <= statements.len(),
    ensures
        count <= first_closed(statements, parameters, count) <= statements.len(),
        is_closed(statements, parameters, first_closed(statements, parameters, count) as int),
        forall|i: int|
            count <= i < first_closed(statements, parameters, count) ==> !is_closed(
                statements,
                parameters,
                i,
            ),
    decreases statements.len() - count,
{
    if !(count >= statements.len() || is_closed(statements, parameters, count as int)) {
        lemma_first_closed_is_first(statements, parameters, count + 1);
    }
}

/// No statement behind the cut needs a parameter or anything made in front of the cut, and no
/// earlier cut would do.
pub proof fn cuts_are_minimal(statements: Seq<Planned>, parameters: Seq<ValueId>)
    ensures
        ({
            let count: int = match cut_index(statements, parameters) {
                Some(index) => index as int + 1,
                None => 0,
            };
            &&& 0 <= count <= statements.len()
            &&& is_closed(statements, parameters, count)
            &&& forall|earlier: int|
                0 <= earlier < count ==> !(#[trigger] is_closed(statements, parameters, earlier))
        }),
{
    lemma_first_closed_is_first(statements, parameters, 0);
}

/// A statement that needs something made before `count` needs it at any later place too.
proof fn lemma_needs_grows(
    statements: Seq<Planned>,
    parameters: Seq<ValueId>,
    count: int,
    later: int,
    statement: Planned,
)
    requires
        count <= later,
        needs(statements, parameters, count, statement),
    ensures
        needs(statements, parameters, later, statement),
{
    let value = choose|value: ValueId| #[trigger]
        statement.uses.contains(value) && (parameters.contains(value) || made_before(
            statements,
            count,
            value,
        ));
    if !parameters.contains(value) {
        let i = choose|i: int|
            0 <= i < count && #[trigger] statements[i].defines.contains(value);
        assert(statements[i].defines.contains(value));
        assert(made_before(statements, later, value));
    }
    assert(statement.uses.contains(value));
}

/// The index of the last statement in front of the first place where `statements` can be cut so
/// that nothing behind needs `parameters` or what is made in front; `None` if nothing has to stand
/// in front.
pub fn dependent_cut(statements: &Vec<PlannedStatement>, parameters: &Vec<ValueId>) -> (r: Option<
    usize,
>)
    ensures
        match (r, cut_index(planned_all(statements@), parameters@)) {
            (Some(index), Some(wanted)) => index == wanted,
            (None, None) => true,
            _ => false,
        },
{
    let ghost all = planned_all(statements@);
    let mut given: IndexSet<ValueId> = values_new();
    let mut p: usize = 0;
    while p < parameters.len()
        invariant
            0 <= p <= parameters.len(),
            forall|value: ValueId| #[trigger]
                values_in(given).contains(value) <==> parameters@.take(p as int).contains(value),
        decreases parameters.len() - p,
    {
        let ghost before = values_in(given);
        values_insert(&mut given, parameters[p]);
        proof {
            let head = parameters@.take(p as int);
            let more = parameters@.take(p + 1);
            assert(more =~= head.push(parameters@[p as int]));
            assert forall|value: ValueId| #[trigger]
                values_in(given).contains(value) <==> more.contains(value) by {
                lemma_pushed(head, parameters@[p as int], value);
                lemma_pushed(before, parameters@[p as int], value);
            }
        }
        p = p + 1;
    }
    assert(parameters@.take(p as int) =~= parameters@);
    // The statements in front of the cut, counted.
    let mut count: usize = 0;
    let mut i: usize = 0;
    while i < statements.len()
        invariant
            all == planned_all(statements@),
            0 <= count <= i <= statements.len(),
            forall|value: ValueId| #[trigger]
                values_in(given).contains(value) <==> parameters@.contains(value),
            forall|j: int|
                count <= j < i ==> !(#[trigger] needs(all, parameters@, 0, all[j])),
            count > 0 ==> needs(all, parameters@, 0, all[count - 1]),
        decreases statements.len() - i,
    {
        let disjoint = values_disjoint(&statements[i].uses, &given);
        proof {
            assert(all[i as int] == statements@[i as int]@);
            let uses = all[i as int].uses;
            if disjoint {
                assert(!needs(all, parameters@, 0, all[i as int]));
            } else {
                let value = choose|value: ValueId|
                    uses.contains(value) && values_in(given).contains(value);
                assert(uses.contains(value) && parameters@.contains(value));
            }
        }
        if !disjoint {
            count = i + 1;
        }
        i = i + 1;
    }
    if count == 0 {
        proof {
            assert(is_closed(all, parameters@, 0));
        }
        return None;
    }
    proof {
        assert forall|earlier: int| 0 <= earlier < count implies !(#[trigger] is_closed(
            all,
            parameters@,
            earlier,
        )) by {
            lemma_needs_grows(all, parameters@, 0, earlier, all[count - 1]);
            assert(needs(all, parameters@, earlier, all[count - 1]));
        }
    }
    // The values that are made in front of the cut.
    let mut made: IndexSet<ValueId> = values_new();
    let mut done: usize = 0;
    let mut next: usize = count;
    while next < statements.len()
        invariant
            all == planned_all(statements@),
            0 < count <= next <= statements.len(),
            done <= count,
            forall|value: ValueId| #[trigger]
                values_in(made).contains(value) <==> made_before(all, done as int, value),
            forall|j: int|
                count <= j < statements.len() ==> !(#[trigger] needs(all, parameters@, 0, all[j])),
            forall|j: int|
                count <= j < next ==> !(#[trigger] needs(
                    all,
                    parameters@,
                    count as int,
                    all[j],
                )),
            forall|earlier: int|
                0 <= earlier < count ==> !(#[trigger] is_closed(all, parameters@, earlier)),
        decreases statements.len() - next,
    {
        while done < count
            invariant
                all == planned_all(statements@),
                done <= count <= statements.len(),
                forall|value: ValueId| #[trigger]
                    values_in(made).contains(value) <==> made_before(all, done as int, value),
            decreases count - done,
        {
            let ghost before = values_in(made);
            values_extend(&mut made, &statements[done].defines);
            proof {
                assert(all[done as int] == statements@[done as int]@);
                assert forall|value: ValueId| #[trigger]
                    values_in(made).contains(value) <==> made_before(all, done + 1, value) by {
                    lemma_made_step(all, done as int, value);
                    with_elements_contains(before, all[done as int].defines, value);
                    assert(values_in(made).contains(value) <==> before.contains(value)
                        || all[done as int].defines.contains(value));
                }
            }
            done = done + 1;
        }
        let disjoint = values_disjoint(&statements[next].uses, &made);
        proof {
            assert(all[next as int] == statements@[next as int]@);
            let uses = all[next as int].uses;
            if disjoint {
                if needs(all, parameters@, count as int, all[next as int]) {
                    let value = choose|value: ValueId| #[trigger]
                        uses.contains(value) && (parameters@.contains(value) || made_before(
                            all,
                            count as int,
                            value,
                        ));
                    assert(uses.contains(value));
                    if parameters@.contains(value) {
                        assert(needs(all, parameters@, 0, all[next as int]));
                    }
                    assert(values_in(made).contains(value));
                }
            } else {
                let value = choose|value: ValueId|
                    uses.contains(value) && values_in(made).contains(value);
                assert(uses.contains(value));
                assert(needs(all, parameters@, count as int, all[next as int]));
            }
        }
        if !disjoint {
            proof {
                assert forall|earlier: int| 0 <= earlier <= next implies !(#[trigger] is_closed(
                    all,
                    parameters@,
                    earlier,
                )) by {
                    if earlier >= count {
                        lemma_needs_grows(
                            all,
                            parameters@,
                            count as int,
                            earlier,
                            all[next as int],
                        );
                        assert(needs(all, parameters@, earlier, all[next as int]));
                    }
                }
            }
            count = next + 1;
        }
        next = next + 1;
    }
    proof {
        assert(is_closed(all, parameters@, count as int));
        lemma_first_closed(all, parameters@, 0, count as nat);
    }
    Some(count - 1)
}

proof fn lemma_pushed(values: Seq<ValueId>, last: ValueId, value: ValueId)
    ensures
        values.push(last).contains(value) <==> values.contains(value) || value == last,
{
    let pushed = values.push(last);
    if values.contains(value) {
        let i = choose|i: int| 0 <= i < values.len() && values[i] == value;
        assert(pushed[i] == value);
    }
    if value == last {
        assert(pushed[values.len() as int] == value);
    }
    if pushed.contains(value) && value != last {
        let i = choose|i: int| 0 <= i < pushed.len() && pushed[i] == value;
        assert(values[i] == value);
    }
}

proof fn lemma_made_step(statements: Seq<Planned>, count: int, value: ValueId)
    requires
        0 <= count < statements.len(),
    ensures
        made_before(statements, count + 1, value) <==> made_before(statements, count, value)
            || statements[count].defines.contains(value),
{
    if statements[count].defines.contains(value) {
        assert(made_before(statements, count + 1, value));
    }
    if made_before(statements, count, value) {
        let i = choose|i: int| 0 <= i < count && #[trigger] statements[i].defines.contains(value);
        assert(statements[i].defines.contains(value));
    }
}

} // verus!
