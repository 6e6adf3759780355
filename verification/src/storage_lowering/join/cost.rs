//! How many statements a join makes.
use crate::ast::Statement;
use crate::list::List;
use vstd::prelude::*;

verus! {

/// The statements of a join, counted: those that stand in the block, and all of them, those inside
/// others too.
#[derive(Clone, Copy, Debug, PartialEq, Eq, Structural)]
pub struct JoinMaterializationCost {
    pub top_level_statements: usize,
    pub statement_nodes: usize,
}

/// The number of statements in `statement`, itself counted.
pub open spec fn nodes_of(statement: Statement) -> nat
    decreases statement,
{
    match statement {
        Statement::Block(block) => 1 + nodes_in(block.statements),
        Statement::Conditional(input) => 1 + nodes_in(input.then_block.statements)
            + match input.otherwise {
            Some(otherwise) => nodes_of(otherwise),
            None => 0,
        },
        _ => 1,
    }
}

/// The number of statements in `statements`.
pub open spec fn nodes_in(statements: List<Statement>) -> nat
    decreases statements,
{
    match statements {
        List::Nil => 0,
        List::Cons(first, rest) => nodes_of(first) + nodes_in(*rest),
    }
}

/// The number of statements in `statements`.
pub open spec fn nodes_among(statements: Seq<Statement>) -> nat
    decreases statements.len(),
{
    if statements.len() == 0 {
        0
    } else {
        nodes_among(statements.drop_last()) + nodes_of(statements.last())
    }
}

/// `count`, if it can be counted.
pub open spec fn counted(count: nat) -> Option<usize> {
    if count <= usize::MAX {
        Some(count as usize)
    } else {
        None
    }
}

/// The cost of a join with these counts, if it can be counted.
pub open spec fn cost_of(
    selected_top_level: nat,
    shared_top_level: nat,
    selected_nodes: nat,
    shared_nodes: nat,
) -> Option<JoinMaterializationCost> {
    if selected_top_level + shared_top_level <= usize::MAX && selected_nodes + shared_nodes
        <= usize::MAX {
        Some(
            JoinMaterializationCost {
                top_level_statements: (selected_top_level + shared_top_level) as usize,
                statement_nodes: (selected_nodes + shared_nodes) as usize,
            },
        )
    } else {
        None
    }
}

/// The cost of a join with these counts; `None` if a sum does not fit.
pub fn checked_materialization_cost(
    selected_top_level: usize,
    shared_top_level: usize,
    selected_nodes: usize,
    shared_nodes: usize,
) -> (r: Option<JoinMaterializationCost>)
    ensures
        r == cost_of(
            selected_top_level as nat,
            shared_top_level as nat,
            selected_nodes as nat,
            shared_nodes as nat,
        ),
{
    match (
        selected_top_level.checked_add(shared_top_level),
        selected_nodes.checked_add(shared_nodes),
    ) {
        (Some(top_level_statements), Some(statement_nodes)) => Some(
            JoinMaterializationCost { top_level_statements, statement_nodes },
        ),
        _ => None,
    }
}

/// The number of statements in `statement`, itself counted, if it can be counted.
pub fn statement_nodes(statement: &Statement) -> (r: Option<usize>)
    ensures
        r == counted(nodes_of(*statement)),
    decreases *statement,
{
    match statement {
        Statement::Block(block) => match statement_list_nodes(&block.statements) {
            Some(inside) => inside.checked_add(1),
            None => None,
        },
        Statement::Conditional(input) => {
            let then_nodes = statement_list_nodes(&input.then_block.statements)?;
            let else_nodes: usize = match &input.otherwise {
                Some(otherwise) => statement_nodes(otherwise)?,
                None => 0,
            };
            match then_nodes.checked_add(else_nodes) {
                Some(inside) => inside.checked_add(1),
                None => None,
            }
        },
        _ => Some(1),
    }
}

fn statement_list_nodes(statements: &List<Statement>) -> (r: Option<usize>)
    ensures
        r == counted(nodes_in(*statements)),
    decreases *statements,
{
    match statements {
        List::Nil => Some(0),
        List::Cons(first, rest) => {
            let here = statement_nodes(first)?;
            let more = statement_list_nodes(rest)?;
            here.checked_add(more)
        },
    }
}

/// The number of statements in `statements`, if it can be counted.
pub fn statement_slice_nodes(statements: &[Statement]) -> (r: Option<usize>)
    ensures
        r == counted(nodes_among(statements@)),
{
    let mut count: usize = 0;
    let mut i: usize = 0;
    assert(statements@.take(0) =~= Seq::<Statement>::empty());
    while i < statements.len()
        invariant
            0 <= i <= statements@.len(),
            statements.len() == statements@.len(),
            count == nodes_among(statements@.take(i as int)),
        decreases statements@.len() - i,
    {
        proof {
            assert(statements@.take(i + 1).drop_last() =~= statements@.take(i as int));
            assert(statements@.take(i + 1).last() == statements@[i as int]);
            lemma_nodes_grow(statements@, (i + 1) as nat);
        }
        let here = match statement_nodes(&statements[i]) {
            Some(here) => here,
            None => {
                return None;
            },
        };
        count = match count.checked_add(here) {
            Some(count) => count,
            None => {
                return None;
            },
        };
        i = i + 1;
    }
    assert(statements@.take(i as int) =~= statements@);
    Some(count)
}

/// The first `count` statements hold no more statements than all.
proof fn lemma_nodes_grow(statements: Seq<Statement>, count: nat)
    requires
        count <= statements.len(),
    ensures
        nodes_among(statements.take(count as int)) <= nodes_among(statements),
    decreases statements.len() - count,
{
    if count == statements.len() {
        assert(statements.take(count as int) =~= statements);
    } else {
        assert(statements.take((count + 1) as int).drop_last() =~= statements.take(count as int));
        lemma_nodes_grow(statements, count + 1);
    }
}

impl JoinMaterializationCost {
    /// The cost of a join with `selected_region` in the branches and `shared_suffix` behind them;
    /// `None` if it cannot be counted.
    pub fn from_materialized(selected_region: &[Statement], shared_suffix: &[Statement]) -> (r:
        Option<JoinMaterializationCost>)
        ensures
            r == cost_of(
                selected_region@.len(),
                shared_suffix@.len(),
                nodes_among(selected_region@),
                nodes_among(shared_suffix@),
            ),
    {
        let selected_nodes = statement_slice_nodes(selected_region)?;
        let shared_nodes = statement_slice_nodes(shared_suffix)?;
        checked_materialization_cost(
            selected_region.len(),
            shared_suffix.len(),
            selected_nodes,
            shared_nodes,
        )
    }
}

} // verus!
