//! Code that has nothing to do with storage does what it did.
use crate::ast::{AssertVariant, Block, Expression, Statement, Symbol, Type};
use crate::list::{appended, copied, one, List};
use crate::state::State;
use crate::storage_lowering::emit::{
    nested, reconstruct_block, reconstruct_block_statements, reconstruct_statement,
};
use crate::storage_lowering::ending_statements::given_type_is_plain;
use crate::storage_lowering::laws::tails_follow_emission;
use crate::storage_lowering::plain::{group_plain, is_plain, type_is_plain};
use crate::storage_lowering::predicates::statement_requires_tail_cps;
use crate::storage_lowering::quiet::is_quiet;
use crate::storage_lowering::reconstruct::{reconstruct_expression, reconstruct_type};
use crate::storage_lowering::running::{run, run_all, Model, Outcome};
use crate::storage_lowering::running_facts::lemma_run_appended;
use crate::storage_lowering::simulation::lemma_run_one;
use crate::storage_lowering::statements::{
    is_legal_statement, reconstruct_assert, reconstruct_assign, reconstruct_const,
    reconstruct_definition, reconstruct_expression_statement, reconstruct_return, written_storage,
};
use crate::storage_lowering::staying::{lemma_type, plain_expressions_stay};
use crate::storage_lowering::visitor::Context;
use std::rc::Rc;
use vstd::prelude::*;

verus! {

broadcast use group_plain;

/// Whether nothing in `statement` has to do with storage, and it runs from its start to its end. An
/// expression statement is one that is a statement by itself.
pub open spec fn statement_is_quiet(cx: Context, statement: Statement) -> bool
    decreases statement,
{
    match statement {
        Statement::Assert(input) => match input.variant {
            AssertVariant::Assert(expression) => is_quiet(cx, expression),
            AssertVariant::AssertEq(left, right) => is_quiet(cx, left) && is_quiet(cx, right),
            AssertVariant::AssertNeq(left, right) => is_quiet(cx, left) && is_quiet(cx, right),
        },
        Statement::Assign(input) => is_quiet(cx, input.place) && is_quiet(cx, input.value),
        Statement::Block(block) => statements_are_quiet(cx, block.statements),
        Statement::Conditional(_) => false,
        Statement::Const(input) => type_is_plain(cx, input.type_) && is_quiet(cx, input.value),
        Statement::Definition(input) => given_type_is_plain(cx, input.type_) && is_quiet(
            cx,
            input.value,
        ),
        Statement::Expression(input) => is_quiet(cx, input.expression) && is_legal_statement(
            input.expression,
        ),
        Statement::Iteration(_) => false,
        Statement::Return(input) => is_quiet(cx, input.expression),
    }
}

pub open spec fn statements_are_quiet(cx: Context, statements: List<Statement>) -> bool
    decreases statements,
{
    match statements {
        List::Nil => true,
        List::Cons(first, rest) => statement_is_quiet(cx, first) && statements_are_quiet(cx, *rest),
    }
}

/// Nothing has to be lowered together with what follows it.
proof fn lemma_no_tail(cx: Context, statement: Statement)
    requires
        statement_is_quiet(cx, statement),
    ensures
        !statement_requires_tail_cps(cx, statement),
{
    match &statement {
        Statement::Assert(input) => match &input.variant {
            AssertVariant::Assert(expression) => {
                tails_follow_emission(cx, expression);
            },
            AssertVariant::AssertEq(left, right) => {
                tails_follow_emission(cx, left);
                tails_follow_emission(cx, right);
            },
            AssertVariant::AssertNeq(left, right) => {
                tails_follow_emission(cx, left);
                tails_follow_emission(cx, right);
            },
        },
        Statement::Assign(input) => {
            tails_follow_emission(cx, &input.place);
            tails_follow_emission(cx, &input.value);
        },
        Statement::Const(input) => {
            tails_follow_emission(cx, &input.value);
        },
        Statement::Definition(input) => {
            tails_follow_emission(cx, &input.value);
        },
        Statement::Expression(input) => {
            tails_follow_emission(cx, &input.expression);
        },
        Statement::Return(input) => {
            tails_follow_emission(cx, &input.expression);
        },
        _ => {},
    }
}

proof fn lemma_stays(cx: Context)
    ensures
        forall|state: State, expression: Expression|
            is_quiet(cx, expression) ==> ((#[trigger] reconstruct_expression(
                cx,
                state,
                expression,
            )) matches Ok(lowered) ==> lowered == (state, (expression, List::<Statement>::Nil))),
        forall|state: State, type_: Type|
            type_is_plain(cx, type_) ==> ((#[trigger] reconstruct_type(cx, state, type_)) matches Ok(
                lowered,
            ) ==> lowered == (state, (type_, List::<Statement>::Nil))),
{
    assert forall|state: State, expression: Expression| is_quiet(cx, expression) implies ((
    #[trigger] reconstruct_expression(cx, state, expression)) matches Ok(lowered) ==> lowered == (
        state,
        (expression, List::<Statement>::Nil),
    )) by {
        plain_expressions_stay(cx, false, state, expression);
    }
    assert forall|state: State, type_: Type| type_is_plain(cx, type_) implies ((
    #[trigger] reconstruct_type(cx, state, type_)) matches Ok(lowered) ==> lowered == (
        state,
        (type_, List::<Statement>::Nil),
    )) by {
        lemma_type(cx, state, type_);
    }
}

/// A statement that is lowered by itself does what it did, and nothing has to run before it.
proof fn lemma_statement<V, S>(
    cx: Context,
    model: Model<V, S>,
    depth: nat,
    state: State,
    statement: Statement,
    locals: Map<Symbol, V>,
    store: S,
)
    requires
        statement_is_quiet(cx, statement),
    ensures
        reconstruct_statement(cx, depth, state, statement) matches Ok((_, (made, before))) ==> {
            &&& before == List::<Statement>::Nil
            &&& run(cx, model, locals, store, made) == run(cx, model, locals, store, statement)
        },
    decreases depth, 7int, statement,
{
    reveal(reconstruct_statement);
    lemma_stays(cx);
    match statement {
        Statement::Assert(_) => {
            reveal(reconstruct_assert);
            reveal(run);
        },
        Statement::Assign(input) => {
            reveal(reconstruct_assign);
            reveal(run);
            assert(!(written_storage(cx, input.place) matches Ok(Some(_)))) by {
                if let Expression::Path(path) = copied(&input.place) {
                    assert(is_plain(cx, false, Expression::Path(Rc::new(copied(&*path)))));
                }
            }
        },
        Statement::Block(block) => {
            reveal(reconstruct_block);
            reveal(run);
            reveal(run_all);
            lemma_block(cx, model, depth, state, copied(&*block), locals, store);
        },
        Statement::Conditional(_) => {},
        Statement::Const(_) => {
            reveal(reconstruct_const);
            reveal(run);
        },
        Statement::Definition(_) => {
            reveal(reconstruct_definition);
            reveal(run);
        },
        Statement::Expression(_) => {
            reveal(reconstruct_expression_statement);
            reveal(run);
        },
        Statement::Iteration(_) => {},
        Statement::Return(_) => {
            reveal(reconstruct_return);
            reveal(run);
        },
    }
}

proof fn lemma_block<V, S>(
    cx: Context,
    model: Model<V, S>,
    depth: nat,
    state: State,
    block: Block,
    locals: Map<Symbol, V>,
    store: S,
)
    requires
        statements_are_quiet(cx, block.statements),
    ensures
        reconstruct_block(cx, depth, state, block) matches Ok((_, made)) ==> {
            &&& run_all(cx, model, locals, store, made.statements) == run_all(
                cx,
                model,
                locals,
                store,
                block.statements,
            )
        },
    decreases depth, 2int, block,
{
    reveal(reconstruct_block);
    reveal(nested);
    reveal(reconstruct_block_statements);
    if depth > 0 {
        plain_code_stays(cx, model, (depth - 1) as nat, state, block.statements, locals, store);
        assert(nested(cx, depth, state, block.statements) == reconstruct_block_statements(
            cx,
            (depth - 1) as nat,
            state,
            block.statements,
        ));
    }
}

/// Code that has nothing to do with storage does what it did: each statement, in its place.
pub proof fn plain_code_stays<V, S>(
    cx: Context,
    model: Model<V, S>,
    depth: nat,
    state: State,
    statements: List<Statement>,
    locals: Map<Symbol, V>,
    store: S,
)
    requires
        statements_are_quiet(cx, statements),
    ensures
        reconstruct_block_statements(cx, depth, state, statements) matches Ok((_, lowered))
            ==> run_all(cx, model, locals, store, lowered) == run_all(
            cx,
            model,
            locals,
            store,
            statements,
        ),
    decreases depth, 8int, statements,
{
    reveal(reconstruct_block_statements);
    reveal(reconstruct_statement);
    if let List::Cons(first, rest) = statements {
        let rest = copied(&*rest);
        lemma_no_tail(cx, first);
        lemma_statement(cx, model, depth, state, first, locals, store);
        if let Ok((after, (made, before))) = reconstruct_statement(cx, depth, state, first) {
            let lowered = reconstruct_block_statements(cx, depth, after, rest);
            if let Ok((_, others)) = lowered {
                assert(appended(before, one(made)) == one(made));
                assert(reconstruct_block_statements(cx, depth, state, statements)->Ok_0.1
                    == appended(one(made), others));
                lemma_run_appended(cx, model, locals, store, one(made), others);
                lemma_run_one(cx, model, locals, store, made);
                let outcome = run(cx, model, locals, store, first);
                assert(run_all(cx, model, locals, store, statements) == match outcome {
                    Outcome::Goes(on, at) => run_all(cx, model, on, at, rest),
                    other => other,
                }) by {
                    assert(statements == appended(one(first), rest)) by {
                        reveal_with_fuel(appended, 2);
                    }
                    lemma_run_appended(cx, model, locals, store, one(first), rest);
                    lemma_run_one(cx, model, locals, store, first);
                }
                if let Outcome::Goes(on, at) = outcome {
                    plain_code_stays(cx, model, depth, after, rest, on, at);
                }
            }
        }
    }
}

} // verus!
