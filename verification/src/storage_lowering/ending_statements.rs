//! Lowering of regular statements ends.
use crate::ast::{
    ArrayAccess, AssertStatement, AssertVariant, AssignStatement, Block, ConditionalStatement,
    ConstDeclaration, DefinitionPlace, DefinitionStatement, Expression, IterationStatement,
    MemberAccess, Span, Statement, Symbol, TupleAccess, Type,
};
use crate::list::{copied, dropped, taken, List};
use crate::purity::can_be_discarded;
use crate::state::{with_id, with_suffixed, Halt, State};
use crate::storage_lowering::continuation::{Continuation, PlaceFrame, StatementFrame};
use crate::storage_lowering::depth::{
    greater_depth_changes_nothing, lemma_greater_emit, lemma_greater_nested,
    lemma_greater_otherwise, lemma_greater_place, lemma_greater_statement, lemma_greater_statements,
};
use crate::storage_lowering::emit::{
    emit, emit_assign_place, emitted_then_tail, materialize_if, nested,
    reconstruct_assert_with_tail, reconstruct_assign_with_tail, reconstruct_block,
    reconstruct_block_statements, reconstruct_conditional_with_tail,
    reconstruct_definition_with_tail, reconstruct_otherwise, reconstruct_statement,
    reconstruct_statement_with_tail, resume, resume_place, resume_statement, resume_step,
};
use crate::storage_lowering::ending_values::{accepts, ended, regular_expressions_end, resumes};
use crate::storage_lowering::plain::{group_plain, is_regular, is_regular_state, type_is_plain};
use crate::storage_lowering::plain_order::lemma_tailless;
use crate::storage_lowering::plain_values::{lemma_materialize, rests};
use crate::storage_lowering::predicates::{
    expression_may_emit_after_reconstruction, expression_requires_tail_cps,
    statement_requires_tail_cps,
};
use crate::storage_lowering::reconstruct::{reconstruct_expression, reconstruct_type};
use crate::storage_lowering::direct_values::{lemma_source, lemma_type};
use crate::storage_lowering::shallow;
use crate::storage_lowering::shallow::expressions_need_no_depth;
use crate::storage_lowering::statements::{
    reconstruct_assert, reconstruct_assign, reconstruct_const, reconstruct_definition,
    reconstruct_expression_statement, reconstruct_given_type, reconstruct_return, write_storage,
    written_storage, LoweredStatement,
};
use crate::storage_lowering::tail::{first_cut, split_tail};
use crate::storage_lowering::vectors::materialize_strict_prefix_expression;
use crate::storage_lowering::visitor::{Context, Step};
use std::rc::Rc;
use vstd::prelude::*;

verus! {

broadcast use group_plain;

/* Statements */

/// Whether the expressions and types in `statement` are regular.
pub open spec fn statement_is_regular(cx: Context, statement: Statement) -> bool
    decreases statement,
{
    match statement {
        Statement::Assert(input) => match input.variant {
            AssertVariant::Assert(expression) => is_regular(cx, true, expression),
            AssertVariant::AssertEq(left, right) => is_regular(cx, true, left) && is_regular(
                cx,
                true,
                right,
            ),
            AssertVariant::AssertNeq(left, right) => is_regular(cx, true, left) && is_regular(
                cx,
                true,
                right,
            ),
        },
        Statement::Assign(input) => is_regular(cx, true, input.place) && is_regular(
            cx,
            true,
            input.value,
        ),
        Statement::Block(block) => statements_are_regular(cx, block.statements),
        Statement::Conditional(input) => {
            &&& is_regular(cx, true, input.condition)
            &&& statements_are_regular(cx, input.then_block.statements)
            &&& input.otherwise matches Some(otherwise) ==> statement_is_regular(cx, otherwise)
        },
        Statement::Const(input) => type_is_plain(cx, input.type_) && is_regular(
            cx,
            true,
            input.value,
        ),
        Statement::Definition(input) => given_type_is_plain(cx, input.type_) && is_regular(
            cx,
            true,
            input.value,
        ),
        Statement::Expression(input) => is_regular(cx, true, input.expression),
        Statement::Iteration(input) => {
            &&& given_type_is_plain(cx, input.type_)
            &&& is_regular(cx, true, input.start)
            &&& is_regular(cx, true, input.stop)
            &&& statements_are_regular(cx, input.block.statements)
        },
        Statement::Return(input) => is_regular(cx, true, input.expression),
    }
}

pub open spec fn statements_are_regular(cx: Context, statements: List<Statement>) -> bool
    decreases statements,
{
    match statements {
        List::Nil => true,
        List::Cons(first, rest) => statement_is_regular(cx, first) && statements_are_regular(
            cx,
            *rest,
        ),
    }
}

pub open spec fn given_type_is_plain(cx: Context, type_: Option<Type>) -> bool {
    type_ matches Some(type_) ==> type_is_plain(cx, type_)
}

/// How many statements `statement` is made of.
pub open spec fn size(statement: Statement) -> nat
    decreases statement,
{
    match statement {
        Statement::Block(block) => 1 + size_all(block.statements),
        Statement::Conditional(input) => 1 + size_all(input.then_block.statements) + (
        match input.otherwise {
            Some(otherwise) => size(otherwise),
            None => 0,
        }),
        Statement::Iteration(input) => 1 + size_all(input.block.statements),
        _ => 1,
    }
}

pub open spec fn size_all(statements: List<Statement>) -> nat
    decreases statements,
{
    match statements {
        List::Nil => 0,
        List::Cons(first, rest) => size(first) + size_all(*rest),
    }
}

proof fn lemma_size(statement: Statement)
    ensures
        size(statement) >= 1,
{
}

/// The parts of a list are regular, and no larger than the list.
proof fn lemma_split(cx: Context, statements: List<Statement>, count: nat)
    requires
        statements_are_regular(cx, statements),
    ensures
        statements_are_regular(cx, taken(statements, count)),
        statements_are_regular(cx, dropped(statements, count)),
        size_all(taken(statements, count)) <= size_all(statements),
        size_all(dropped(statements, count)) <= size_all(statements),
    decreases statements,
{
    if let List::Cons(_, rest) = statements {
        if count > 0 {
            lemma_split(cx, copied(&*rest), (count - 1) as nat);
        }
    }
}

pub proof fn lemma_split_tail(cx: Context, tail: List<Statement>, symbol: Symbol)
    requires
        statements_are_regular(cx, tail),
    ensures
        statements_are_regular(cx, split_tail(tail, symbol).0),
        statements_are_regular(cx, split_tail(tail, symbol).1),
        size_all(split_tail(tail, symbol).0) <= size_all(tail),
        size_all(split_tail(tail, symbol).1) <= size_all(tail),
{
    lemma_split(cx, tail, first_cut(tail@, symbol, 0));
}

/* What ends */

/// Whether `step` did not run out of depth, and left storage and types in order.
pub open spec fn finished<T>(cx: Context, step: Step<T>) -> bool {
    &&& step != Err::<(State, T), Halt>(Halt::Depth)
    &&& step matches Ok((state, _)) ==> is_regular_state(cx, state)
}

/// Whether lowering `statements` ends.
pub open spec fn lowers(cx: Context, state: State, statements: List<Statement>) -> bool {
    exists|depth: nat|
        ended(cx, #[trigger] reconstruct_block_statements(cx, depth, state, statements))
}

/// Whether lowering `statements` ends in every state.
pub open spec fn always_lowers(cx: Context, statements: List<Statement>) -> bool {
    forall|state: State|
        is_regular_state(cx, state) ==> #[trigger] lowers(cx, state, statements)
}

spec fn nests(cx: Context, state: State, statements: List<Statement>) -> bool {
    exists|depth: nat| ended(cx, #[trigger] nested(cx, depth, state, statements))
}

spec fn lowers_block(cx: Context, state: State, block: Block) -> bool {
    exists|depth: nat| finished(cx, #[trigger] reconstruct_block(cx, depth, state, block))
}

pub open spec fn lowers_otherwise(cx: Context, state: State, otherwise: Option<Statement>) -> bool {
    exists|depth: nat|
        finished(cx, #[trigger] reconstruct_otherwise(cx, depth, state, otherwise))
}

pub open spec fn always_lowers_otherwise(cx: Context, otherwise: Option<Statement>) -> bool {
    forall|state: State|
        is_regular_state(cx, state) ==> #[trigger] lowers_otherwise(cx, state, otherwise)
}

/// Whether lowering `statement` together with `tail` ends.
spec fn lowers_with_tail(
    cx: Context,
    state: State,
    statement: Statement,
    tail: List<Statement>,
) -> bool {
    exists|depth: nat|
        ended(
            cx,
            #[trigger] reconstruct_statement_with_tail(cx, depth, state, statement, tail),
        )
}

/// Whether lowering `statement` by itself ends.
spec fn lowers_alone(cx: Context, state: State, statement: Statement) -> bool {
    exists|depth: nat| finished(cx, #[trigger] reconstruct_statement(cx, depth, state, statement))
}

proof fn lemma_nests(cx: Context, state: State, statements: List<Statement>)
    requires
        is_regular_state(cx, state),
        always_lowers(cx, statements),
    ensures
        nests(cx, state, statements),
{
    reveal(nested);
    reveal(reconstruct_block_statements);
    assert(lowers(cx, state, statements));
    let depth = choose|depth: nat| ended(
        cx,
        #[trigger] reconstruct_block_statements(cx, depth, state, statements),
    );
    assert(nested(cx, depth + 1, state, statements) == reconstruct_block_statements(
        cx,
        depth,
        state,
        statements,
    ));
}

proof fn lemma_block(cx: Context, state: State, block: Block)
    requires
        is_regular_state(cx, state),
        always_lowers(cx, block.statements),
    ensures
        lowers_block(cx, state, block),
{
    reveal(reconstruct_block);
    reveal(nested);
    lemma_nests(cx, state, block.statements);
    let depth = choose|depth: nat| ended(
        cx,
        #[trigger] nested(cx, depth, state, block.statements),
    );
    assert(finished(cx, reconstruct_block(cx, depth, state, block)));
}

/* Continuations */

/// Making a statement takes one step more than what it leads to.
proof fn lemma_frame(
    cx: Context,
    depth: nat,
    state: State,
    frame: StatementFrame,
    value: Expression,
)
    requires
        ended(cx, resume_statement(cx, depth, state, frame, value)),
    ensures
        resumes(cx, state, Continuation::Statement(frame), value),
{
    reveal(resume);
    reveal(resume_step);
    reveal(resume_statement);
    assert(resume(cx, depth + 1, state, Continuation::Statement(frame), value) == resume_statement(
        cx,
        depth,
        state,
        frame,
        value,
    ));
}

/// Whether `frame` needs nothing but its value.
pub open spec fn is_last(frame: StatementFrame) -> bool {
    match frame {
        StatementFrame::Assert { .. } => true,
        StatementFrame::AssertRight { .. } => true,
        StatementFrame::StorageValue { .. } => true,
        StatementFrame::AssignValue { .. } => true,
        StatementFrame::Expression { .. } => true,
        StatementFrame::Return { .. } => true,
        _ => false,
    }
}

pub proof fn lemma_last_accepts(cx: Context, frame: StatementFrame)
    requires
        is_last(frame),
    ensures
        accepts(cx, true, Continuation::Statement(frame)),
{
    assert forall|state: State, value: Expression|
        is_regular_state(cx, state) && rests(cx, true, value) implies #[trigger] resumes(
        cx,
        state,
        Continuation::Statement(frame),
        value,
    ) by {
        reveal(resume_statement);
        reveal(write_storage);
        lemma_frame(cx, 0, state, frame, value);
    }
}

pub proof fn lemma_const_accepts(
    cx: Context,
    input: Rc<ConstDeclaration>,
    type_: Type,
    tail: List<Statement>,
)
    requires
        always_lowers(cx, tail),
    ensures
        accepts(cx, true, Continuation::Statement(StatementFrame::Const { input, type_, tail })),
{
    let frame = StatementFrame::Const { input, type_, tail };
    assert forall|state: State, value: Expression|
        is_regular_state(cx, state) && rests(cx, true, value) implies #[trigger] resumes(
        cx,
        state,
        Continuation::Statement(frame),
        value,
    ) by {
        reveal(resume_statement);
        reveal(nested);
        lemma_nests(cx, state, tail);
        let depth = choose|depth: nat| ended(cx, #[trigger] nested(cx, depth, state, tail));
        lemma_frame(cx, depth, state, frame, value);
    }
}

pub proof fn lemma_definition_accepts(
    cx: Context,
    input: Rc<DefinitionStatement>,
    type_: Option<Type>,
    tail: List<Statement>,
)
    requires
        always_lowers(cx, tail),
    ensures
        accepts(
            cx,
            true,
            Continuation::Statement(StatementFrame::Definition { input, type_, tail }),
        ),
{
    let frame = StatementFrame::Definition { input, type_, tail };
    assert forall|state: State, value: Expression|
        is_regular_state(cx, state) && rests(cx, true, value) implies #[trigger] resumes(
        cx,
        state,
        Continuation::Statement(frame),
        value,
    ) by {
        reveal(resume_statement);
        reveal(nested);
        lemma_nests(cx, with_id(state), tail);
        let depth = choose|depth: nat| ended(
            cx,
            #[trigger] nested(cx, depth, with_id(state), tail),
        );
        lemma_frame(cx, depth, state, frame, value);
    }
}

pub proof fn lemma_left_accepts(cx: Context, equal: bool, right: Expression, span: Span)
    requires
        is_regular(cx, true, right),
    ensures
        accepts(
            cx,
            true,
            Continuation::Statement(StatementFrame::AssertLeft { equal, right, span }),
        ),
{
    let frame = StatementFrame::AssertLeft { equal, right, span };
    assert forall|state: State, value: Expression|
        is_regular_state(cx, state) && rests(cx, true, value) implies #[trigger] resumes(
        cx,
        state,
        Continuation::Statement(frame),
        value,
    ) by {
        reveal(resume_statement);
        reveal(emit);
        reveal(materialize_strict_prefix_expression);
        lemma_materialize(cx, true, state, value);
        let strict = expression_may_emit_after_reconstruction(cx, right);
        match materialize_if(cx, state, value, strict) {
            Err(_) => {
                lemma_frame(cx, 0, state, frame, value);
            },
            Ok((after, (left, _))) => {
                let last = StatementFrame::AssertRight { equal, left, span };
                let k = Continuation::Statement(last);
                lemma_last_accepts(cx, last);
                regular_expressions_end(cx, after, right, k);
                let depth = choose|depth: nat| ended(
                    cx,
                    #[trigger] emit(cx, depth, after, right, k),
                );
                lemma_frame(cx, depth, state, frame, value);
            },
        }
    }
}

pub proof fn lemma_conditional_accepts(cx: Context, input: Rc<ConditionalStatement>)
    requires
        always_lowers(cx, input.then_block.statements),
        always_lowers_otherwise(cx, input.otherwise),
    ensures
        accepts(cx, true, Continuation::Statement(StatementFrame::Conditional { input })),
{
    let frame = StatementFrame::Conditional { input };
    assert forall|state: State, value: Expression|
        is_regular_state(cx, state) && rests(cx, true, value) implies #[trigger] resumes(
        cx,
        state,
        Continuation::Statement(frame),
        value,
    ) by {
        reveal(resume_statement);
        reveal(reconstruct_block);
        reveal(reconstruct_otherwise);
        let then_block = copied(&input.then_block);
        let otherwise = copied(&input.otherwise);
        lemma_block(cx, state, then_block);
        let first = choose|depth: nat| finished(
            cx,
            #[trigger] reconstruct_block(cx, depth, state, then_block),
        );
        match reconstruct_block(cx, first, state, then_block) {
            Err(_) => {
                lemma_frame(cx, first, state, frame, value);
            },
            Ok((after, _)) => {
                assert(lowers_otherwise(cx, after, otherwise));
                let second = choose|depth: nat| finished(
                    cx,
                    #[trigger] reconstruct_otherwise(cx, depth, after, otherwise),
                );
                let depth = if first < second {
                    second
                } else {
                    first
                };
                greater_depth_changes_nothing(cx, first, depth, state, then_block);
                lemma_greater_otherwise(cx, second, depth, after, otherwise);
                lemma_frame(cx, depth, state, frame, value);
            },
        }
    }
}

proof fn lemma_stop_accepts(
    cx: Context,
    input: Rc<IterationStatement>,
    type_: Option<Type>,
    start: Expression,
)
    requires
        always_lowers(cx, input.block.statements),
    ensures
        accepts(
            cx,
            true,
            Continuation::Statement(StatementFrame::IterationStop { input, type_, start }),
        ),
{
    let frame = StatementFrame::IterationStop { input, type_, start };
    assert forall|state: State, value: Expression|
        is_regular_state(cx, state) && rests(cx, true, value) implies #[trigger] resumes(
        cx,
        state,
        Continuation::Statement(frame),
        value,
    ) by {
        reveal(resume_statement);
        reveal(reconstruct_block);
        let block = copied(&input.block);
        lemma_block(cx, state, block);
        let depth = choose|depth: nat| finished(
            cx,
            #[trigger] reconstruct_block(cx, depth, state, block),
        );
        lemma_frame(cx, depth, state, frame, value);
    }
}

proof fn lemma_start_accepts(cx: Context, input: Rc<IterationStatement>, type_: Option<Type>)
    requires
        is_regular(cx, true, input.stop),
        always_lowers(cx, input.block.statements),
    ensures
        accepts(
            cx,
            true,
            Continuation::Statement(StatementFrame::IterationStart { input, type_ }),
        ),
{
    let frame = StatementFrame::IterationStart { input, type_ };
    assert forall|state: State, value: Expression|
        is_regular_state(cx, state) && rests(cx, true, value) implies #[trigger] resumes(
        cx,
        state,
        Continuation::Statement(frame),
        value,
    ) by {
        reveal(resume_statement);
        reveal(emit);
        reveal(materialize_strict_prefix_expression);
        lemma_materialize(cx, true, state, value);
        match materialize_strict_prefix_expression(cx, state, value) {
            Err(_) => {
                lemma_frame(cx, 0, state, frame, value);
            },
            Ok((after, (start, _))) => {
                let stop = copied(&input.stop);
                let k = Continuation::Statement(
                    StatementFrame::IterationStop { input, type_, start },
                );
                lemma_stop_accepts(cx, input, type_, start);
                regular_expressions_end(cx, after, stop, k);
                let depth = choose|depth: nat| ended(
                    cx,
                    #[trigger] emit(cx, depth, after, stop, k),
                );
                lemma_frame(cx, depth, state, frame, value);
            },
        }
    }
}

/* Places */

/// Whether going on ends with every place.
pub open spec fn takes(cx: Context, continuation: Continuation) -> bool {
    forall|state: State, place: Expression|
        is_regular_state(cx, state) ==> #[trigger] resumes(cx, state, continuation, place)
}

proof fn lemma_place_frame(
    cx: Context,
    depth: nat,
    state: State,
    frame: PlaceFrame,
    next: Continuation,
    value: Expression,
)
    requires
        ended(cx, resume_place(cx, depth, state, frame, next, value)),
    ensures
        resumes(cx, state, Continuation::Place(frame, Rc::new(next)), value),
{
    reveal(resume);
    reveal(resume_step);
    reveal(resume_place);
    let k = Continuation::Place(frame, Rc::new(next));
    assert(resume(cx, depth + 1, state, k, value) == resume_place(
        cx,
        depth,
        state,
        frame,
        next,
        value,
    ));
}

pub proof fn lemma_assigned_takes(cx: Context, assigned: Expression, span: Span)
    requires
        is_regular(cx, true, assigned),
    ensures
        takes(
            cx,
            Continuation::Statement(StatementFrame::AssignPlace { value: assigned, span }),
        ),
{
    let frame = StatementFrame::AssignPlace { value: assigned, span };
    assert forall|state: State, place: Expression| is_regular_state(
        cx,
        state,
    ) implies #[trigger] resumes(cx, state, Continuation::Statement(frame), place) by {
        reveal(resume_statement);
        reveal(emit);
        let last = StatementFrame::AssignValue { place, span };
        let k = Continuation::Statement(last);
        lemma_last_accepts(cx, last);
        regular_expressions_end(cx, state, assigned, k);
        let depth = choose|depth: nat| ended(cx, #[trigger] emit(cx, depth, state, assigned, k));
        lemma_frame(cx, depth, state, frame, place);
    }
}

pub proof fn lemma_passes_on(
    cx: Context,
    state: State,
    frame: PlaceFrame,
    next: Continuation,
    value: Expression,
)
    requires
        is_regular_state(cx, state),
        takes(cx, next),
        frame is Index ==> rests(cx, true, value),
        !(frame is Array),
    ensures
        resumes(cx, state, Continuation::Place(frame, Rc::new(next)), value),
{
    reveal(resume_place);
    reveal(resume);
    reveal(materialize_strict_prefix_expression);
    match frame {
        PlaceFrame::Array { .. } => {},
        PlaceFrame::Index { array, input } => {
            lemma_materialize(cx, true, state, value);
            match materialize_strict_prefix_expression(cx, state, value) {
                Err(_) => {
                    lemma_place_frame(cx, 0, state, frame, next, value);
                },
                Ok((after, (index, _))) => {
                    let node = Expression::ArrayAccess(
                        Rc::new(ArrayAccess { array, index, ..copied(&*input) }),
                    );
                    assert(resumes(cx, after, next, node));
                    let depth = choose|depth: nat| ended(
                        cx,
                        #[trigger] resume(cx, depth, after, next, node),
                    );
                    lemma_place_frame(cx, depth, state, frame, next, value);
                },
            }
        },
        PlaceFrame::Member { input } => {
            let node = Expression::MemberAccess(
                Rc::new(MemberAccess { inner: value, ..copied(&*input) }),
            );
            assert(resumes(cx, state, next, node));
            let depth = choose|depth: nat| ended(
                cx,
                #[trigger] resume(cx, depth, state, next, node),
            );
            lemma_place_frame(cx, depth, state, frame, next, value);
        },
        PlaceFrame::Tuple { input } => {
            let node = Expression::TupleAccess(
                Rc::new(TupleAccess { tuple: value, ..copied(&*input) }),
            );
            assert(resumes(cx, state, next, node));
            let depth = choose|depth: nat| ended(
                cx,
                #[trigger] resume(cx, depth, state, next, node),
            );
            lemma_place_frame(cx, depth, state, frame, next, value);
        },
    }
}

pub proof fn lemma_array_takes(cx: Context, input: Rc<ArrayAccess>, next: Continuation)
    requires
        is_regular(cx, true, input.index),
        takes(cx, next),
    ensures
        takes(cx, Continuation::Place(PlaceFrame::Array { input }, Rc::new(next))),
{
    let frame = PlaceFrame::Array { input };
    let k = Continuation::Place(frame, Rc::new(next));
    assert forall|state: State, place: Expression| is_regular_state(
        cx,
        state,
    ) implies #[trigger] resumes(cx, state, k, place) by {
        reveal(resume_place);
        reveal(emit);
        let index = copied(&input.index);
        let second = PlaceFrame::Index { array: place, input };
        let last = Continuation::Place(second, Rc::new(next));
        assert forall|other: State, value: Expression|
            is_regular_state(cx, other) && rests(cx, true, value) implies #[trigger] resumes(
            cx,
            other,
            last,
            value,
        ) by {
            lemma_passes_on(cx, other, second, next, value);
        }
        regular_expressions_end(cx, state, index, last);
        let depth = choose|depth: nat| ended(cx, #[trigger] emit(cx, depth, state, index, last));
        lemma_place_frame(cx, depth, state, frame, next, place);
    }
}

pub open spec fn places(
    cx: Context,
    state: State,
    place: Expression,
    continuation: Continuation,
) -> bool {
    exists|depth: nat|
        ended(cx, #[trigger] emit_assign_place(cx, depth, state, place, continuation))
}

pub proof fn lemma_place(cx: Context, state: State, place: Expression, continuation: Continuation)
    requires
        is_regular_state(cx, state),
        is_regular(cx, true, place),
        takes(cx, continuation),
    ensures
        places(cx, state, place, continuation),
    decreases place,
{
    reveal(emit_assign_place);
    reveal(is_regular);
    reveal(resume);
    let next = Rc::new(continuation);
    match place {
        Expression::ArrayAccess(input) => {
            let k = Continuation::Place(PlaceFrame::Array { input }, next);
            let inner = copied(&input.array);
            lemma_array_takes(cx, input, continuation);
            lemma_place(cx, state, inner, k);
            let depth = choose|depth: nat| ended(
                cx,
                #[trigger] emit_assign_place(cx, depth, state, inner, k),
            );
            assert(ended(cx, emit_assign_place(cx, depth, state, place, continuation)));
        },
        Expression::MemberAccess(input) => {
            let frame = PlaceFrame::Member { input };
            let k = Continuation::Place(frame, next);
            let inner = copied(&input.inner);
            assert forall|other: State, value: Expression| is_regular_state(
                cx,
                other,
            ) implies #[trigger] resumes(cx, other, k, value) by {
                lemma_passes_on(cx, other, frame, continuation, value);
            }
            lemma_place(cx, state, inner, k);
            let depth = choose|depth: nat| ended(
                cx,
                #[trigger] emit_assign_place(cx, depth, state, inner, k),
            );
            assert(ended(cx, emit_assign_place(cx, depth, state, place, continuation)));
        },
        Expression::TupleAccess(input) => {
            let frame = PlaceFrame::Tuple { input };
            let k = Continuation::Place(frame, next);
            let inner = copied(&input.tuple);
            assert forall|other: State, value: Expression| is_regular_state(
                cx,
                other,
            ) implies #[trigger] resumes(cx, other, k, value) by {
                lemma_passes_on(cx, other, frame, continuation, value);
            }
            lemma_place(cx, state, inner, k);
            let depth = choose|depth: nat| ended(
                cx,
                #[trigger] emit_assign_place(cx, depth, state, inner, k),
            );
            assert(ended(cx, emit_assign_place(cx, depth, state, place, continuation)));
        },
        _ => {
            assert(resumes(cx, state, continuation, place));
            let depth = choose|depth: nat| ended(
                cx,
                #[trigger] resume(cx, depth, state, continuation, place),
            );
            assert(ended(cx, emit_assign_place(cx, depth, state, place, continuation)));
        },
    }
}

/* Statements and what follows them */

proof fn lemma_then_tail(
    cx: Context,
    state: State,
    expression: Expression,
    continuation: Continuation,
    tail: List<Statement>,
) -> (depth: nat)
    requires
        is_regular_state(cx, state),
        is_regular(cx, true, expression),
        accepts(cx, true, continuation),
        always_lowers(cx, tail),
    ensures
        ended(
            cx,
            emitted_then_tail(
                cx,
                depth,
                emit(cx, depth, state, expression, continuation),
                tail,
            ),
        ),
{
    reveal(emitted_then_tail);
    reveal(nested);
    regular_expressions_end(cx, state, expression, continuation);
    let first = choose|depth: nat| ended(
        cx,
        #[trigger] emit(cx, depth, state, expression, continuation),
    );
    match emit(cx, first, state, expression, continuation) {
        Err(_) => first,
        Ok((after, _)) => {
            lemma_nests(cx, after, tail);
            let second = choose|depth: nat| ended(cx, #[trigger] nested(cx, depth, after, tail));
            let depth = if first < second {
                second
            } else {
                first
            };
            lemma_greater_emit(cx, first, depth, state, expression, continuation);
            lemma_greater_nested(cx, second, depth, after, tail);
            depth
        },
    }
}

proof fn lemma_place_then_tail(
    cx: Context,
    state: State,
    place: Expression,
    continuation: Continuation,
    tail: List<Statement>,
) -> (depth: nat)
    requires
        is_regular_state(cx, state),
        is_regular(cx, true, place),
        takes(cx, continuation),
        always_lowers(cx, tail),
    ensures
        ended(
            cx,
            emitted_then_tail(
                cx,
                depth,
                emit_assign_place(cx, depth, state, place, continuation),
                tail,
            ),
        ),
{
    reveal(emitted_then_tail);
    reveal(nested);
    lemma_place(cx, state, place, continuation);
    let first = choose|depth: nat| ended(
        cx,
        #[trigger] emit_assign_place(cx, depth, state, place, continuation),
    );
    match emit_assign_place(cx, first, state, place, continuation) {
        Err(_) => first,
        Ok((after, _)) => {
            lemma_nests(cx, after, tail);
            let second = choose|depth: nat| ended(cx, #[trigger] nested(cx, depth, after, tail));
            let depth = if first < second {
                second
            } else {
                first
            };
            lemma_greater_place(cx, first, depth, state, place, continuation);
            lemma_greater_nested(cx, second, depth, after, tail);
            depth
        },
    }
}

proof fn lemma_given_type(cx: Context, state: State, type_: Option<Type>)
    requires
        is_regular_state(cx, state),
        given_type_is_plain(cx, type_),
    ensures
        finished(cx, reconstruct_given_type(cx, state, type_)),
{
    if let Some(type_) = type_ {
        lemma_type(cx, state, type_);
        shallow::lemma_type(cx, state, type_);
    }
}

proof fn lemma_assert(
    cx: Context,
    state: State,
    input: Rc<AssertStatement>,
    tail: List<Statement>,
)
    requires
        is_regular_state(cx, state),
        statement_is_regular(cx, Statement::Assert(input)),
        always_lowers(cx, tail),
    ensures
        lowers_with_tail(cx, state, Statement::Assert(input), tail),
{
    reveal(reconstruct_statement_with_tail);
    reveal(reconstruct_assert_with_tail);
    reveal(emitted_then_tail);
    reveal(emit);
    let span = input.span;
    let statement = Statement::Assert(input);
    match copied(&input.variant) {
        AssertVariant::Assert(expression) => {
            let frame = StatementFrame::Assert { span };
            lemma_last_accepts(cx, frame);
            let k = Continuation::Statement(frame);
            let depth = lemma_then_tail(cx, state, expression, k, tail);
            assert(ended(
                cx,
                reconstruct_statement_with_tail(cx, depth, state, statement, tail),
            ));
        },
        AssertVariant::AssertEq(left, right) => {
            let frame = StatementFrame::AssertLeft { equal: true, right, span };
            lemma_left_accepts(cx, true, right, span);
            let k = Continuation::Statement(frame);
            let depth = lemma_then_tail(cx, state, left, k, tail);
            assert(ended(
                cx,
                reconstruct_statement_with_tail(cx, depth, state, statement, tail),
            ));
        },
        AssertVariant::AssertNeq(left, right) => {
            let frame = StatementFrame::AssertLeft { equal: false, right, span };
            lemma_left_accepts(cx, false, right, span);
            let k = Continuation::Statement(frame);
            let depth = lemma_then_tail(cx, state, left, k, tail);
            assert(ended(
                cx,
                reconstruct_statement_with_tail(cx, depth, state, statement, tail),
            ));
        },
    }
}

proof fn lemma_assign(
    cx: Context,
    state: State,
    input: Rc<AssignStatement>,
    tail: List<Statement>,
)
    requires
        is_regular_state(cx, state),
        statement_is_regular(cx, Statement::Assign(input)),
        always_lowers(cx, tail),
    ensures
        lowers_with_tail(cx, state, Statement::Assign(input), tail),
{
    reveal(reconstruct_statement_with_tail);
    reveal(reconstruct_assign_with_tail);
    reveal(emitted_then_tail);
    reveal(emit);
    reveal(emit_assign_place);
    let statement = Statement::Assign(input);
    let place = copied(&input.place);
    let value = copied(&input.value);
    match written_storage(cx, place) {
        Err(_) => {
            assert(ended(cx, reconstruct_statement_with_tail(cx, 0, state, statement, tail)));
        },
        Ok(Some(name)) => {
            let (named, mapping) = with_suffixed(state, name, "__"@);
            let frame = StatementFrame::StorageValue { mapping, span: input.span };
            lemma_last_accepts(cx, frame);
            let k = Continuation::Statement(frame);
            let depth = lemma_then_tail(cx, named, value, k, tail);
            assert(ended(
                cx,
                reconstruct_statement_with_tail(cx, depth, state, statement, tail),
            ));
        },
        Ok(None) => {
            let frame = StatementFrame::AssignPlace { value, span: input.span };
            lemma_assigned_takes(cx, value, input.span);
            let k = Continuation::Statement(frame);
            let depth = lemma_place_then_tail(cx, state, place, k, tail);
            assert(ended(
                cx,
                reconstruct_statement_with_tail(cx, depth, state, statement, tail),
            ));
        },
    }
}

proof fn lemma_const(
    cx: Context,
    state: State,
    input: Rc<ConstDeclaration>,
    tail: List<Statement>,
)
    requires
        is_regular_state(cx, state),
        statement_is_regular(cx, Statement::Const(input)),
        always_lowers(cx, tail),
    ensures
        lowers_with_tail(cx, state, Statement::Const(input), tail),
{
    reveal(reconstruct_statement_with_tail);
    reveal(emit);
    let statement = Statement::Const(input);
    let value = copied(&input.value);
    lemma_type(cx, state, copied(&input.type_));
    shallow::lemma_type(cx, state, copied(&input.type_));
    match reconstruct_type(cx, state, copied(&input.type_)) {
        Err(_) => {
            assert(ended(cx, reconstruct_statement_with_tail(cx, 0, state, statement, tail)));
        },
        Ok((typed, (type_, _))) => {
            let k = Continuation::Statement(StatementFrame::Const { input, type_, tail });
            lemma_const_accepts(cx, input, type_, tail);
            regular_expressions_end(cx, typed, value, k);
            let depth = choose|depth: nat| ended(cx, #[trigger] emit(cx, depth, typed, value, k));
            assert(ended(
                cx,
                reconstruct_statement_with_tail(cx, depth, state, statement, tail),
            ));
        },
    }
}

proof fn lemma_definition(
    cx: Context,
    state: State,
    input: Rc<DefinitionStatement>,
    tail: List<Statement>,
)
    requires
        is_regular_state(cx, state),
        statement_is_regular(cx, Statement::Definition(input)),
        input.place is Multiple ==> always_lowers(cx, tail),
        input.place matches DefinitionPlace::Single(identifier) ==> always_lowers(
            cx,
            split_tail(tail, identifier.name).0,
        ) && always_lowers(cx, split_tail(tail, identifier.name).1),
    ensures
        lowers_with_tail(cx, state, Statement::Definition(input), tail),
{
    reveal(reconstruct_statement_with_tail);
    reveal(reconstruct_definition_with_tail);
    reveal(emitted_then_tail);
    reveal(emit);
    let statement = Statement::Definition(input);
    let value = copied(&input.value);
    lemma_given_type(cx, state, copied(&input.type_));
    match reconstruct_given_type(cx, state, copied(&input.type_)) {
        Err(_) => {
            assert(ended(cx, reconstruct_statement_with_tail(cx, 0, state, statement, tail)));
        },
        Ok((typed, type_)) => {
            match copied(&input.place) {
                DefinitionPlace::Single(identifier) => {
                    let (inside, behind) = split_tail(tail, identifier.name);
                    let frame = StatementFrame::Definition { input, type_, tail: inside };
                    lemma_definition_accepts(cx, input, type_, inside);
                    let k = Continuation::Statement(frame);
                    let depth = lemma_then_tail(cx, typed, value, k, behind);
                    assert(ended(
                        cx,
                        reconstruct_statement_with_tail(cx, depth, state, statement, tail),
                    ));
                },
                DefinitionPlace::Multiple(_) => {
                    let frame = StatementFrame::Definition { input, type_, tail };
                    lemma_definition_accepts(cx, input, type_, tail);
                    let k = Continuation::Statement(frame);
                    regular_expressions_end(cx, typed, value, k);
                    let depth = choose|depth: nat| ended(
                        cx,
                        #[trigger] emit(cx, depth, typed, value, k),
                    );
                    assert(ended(
                        cx,
                        reconstruct_statement_with_tail(cx, depth, state, statement, tail),
                    ));
                },
            }
        },
    }
}

proof fn lemma_conditional(
    cx: Context,
    state: State,
    input: Rc<ConditionalStatement>,
    tail: List<Statement>,
)
    requires
        is_regular_state(cx, state),
        is_regular(cx, true, input.condition),
        always_lowers(cx, input.then_block.statements),
        always_lowers_otherwise(cx, input.otherwise),
        always_lowers(cx, tail),
    ensures
        exists|depth: nat|
            ended(
                cx,
                #[trigger] reconstruct_conditional_with_tail(cx, depth, state, *input, tail),
            ),
{
    reveal(reconstruct_conditional_with_tail);
    reveal(emitted_then_tail);
    reveal(emit);
    let frame = StatementFrame::Conditional { input };
    lemma_conditional_accepts(cx, input);
    let k = Continuation::Statement(frame);
    let depth = lemma_then_tail(cx, state, copied(&input.condition), k, tail);
    assert(ended(
        cx,
        reconstruct_conditional_with_tail(cx, depth, state, copied(&*input), tail),
    ));
}

proof fn lemma_iteration(
    cx: Context,
    state: State,
    input: Rc<IterationStatement>,
    tail: List<Statement>,
)
    requires
        is_regular_state(cx, state),
        statement_is_regular(cx, Statement::Iteration(input)),
        always_lowers(cx, input.block.statements),
        always_lowers(cx, tail),
    ensures
        lowers_with_tail(cx, state, Statement::Iteration(input), tail),
{
    reveal(reconstruct_statement_with_tail);
    reveal(emitted_then_tail);
    reveal(emit);
    let statement = Statement::Iteration(input);
    lemma_given_type(cx, state, copied(&input.type_));
    match reconstruct_given_type(cx, state, copied(&input.type_)) {
        Err(_) => {
            assert(ended(cx, reconstruct_statement_with_tail(cx, 0, state, statement, tail)));
        },
        Ok((typed, type_)) => {
            let k = Continuation::Statement(StatementFrame::IterationStart { input, type_ });
            lemma_start_accepts(cx, input, type_);
            let depth = lemma_then_tail(cx, typed, copied(&input.start), k, tail);
            assert(ended(
                cx,
                reconstruct_statement_with_tail(cx, depth, state, statement, tail),
            ));
        },
    }
}

proof fn lemma_block_with_tail(
    cx: Context,
    state: State,
    block: Rc<Block>,
    tail: List<Statement>,
)
    requires
        is_regular_state(cx, state),
        always_lowers(cx, block.statements),
        always_lowers(cx, tail),
    ensures
        lowers_with_tail(cx, state, Statement::Block(block), tail),
{
    reveal(reconstruct_statement_with_tail);
    reveal(reconstruct_block);
    reveal(nested);
    let statement = Statement::Block(block);
    let inner = copied(&*block);
    lemma_block(cx, state, inner);
    let first = choose|depth: nat| finished(
        cx,
        #[trigger] reconstruct_block(cx, depth, state, inner),
    );
    match reconstruct_block(cx, first, state, inner) {
        Err(_) => {
            assert(ended(
                cx,
                reconstruct_statement_with_tail(cx, first, state, statement, tail),
            ));
        },
        Ok((after, _)) => {
            lemma_nests(cx, after, tail);
            let second = choose|depth: nat| ended(cx, #[trigger] nested(cx, depth, after, tail));
            let depth = if first < second {
                second
            } else {
                first
            };
            greater_depth_changes_nothing(cx, first, depth, state, inner);
            lemma_greater_nested(cx, second, depth, after, tail);
            assert(ended(
                cx,
                reconstruct_statement_with_tail(cx, depth, state, statement, tail),
            ));
        },
    }
}

/* Statements by themselves */

/// Lowering a statement by itself without continuations ends.
proof fn lemma_simple(cx: Context, state: State, statement: Statement)
    requires
        is_regular_state(cx, state),
        statement_is_regular(cx, statement),
        !(statement is Block),
        !(statement is Conditional),
        !statement_requires_tail_cps(cx, statement),
    ensures
        finished(cx, reconstruct_statement(cx, 0, state, statement)),
{
    reveal(reconstruct_statement);
    match statement {
        Statement::Assert(input) => {
            reveal(reconstruct_assert);
            match copied(&input.variant) {
                AssertVariant::Assert(expression) => {
                    lemma_lowered(cx, state, expression);
                },
                AssertVariant::AssertEq(left, right) => {
                    lemma_two(cx, state, left, right);
                },
                AssertVariant::AssertNeq(left, right) => {
                    lemma_two(cx, state, left, right);
                },
            }
        },
        Statement::Assign(input) => {
            reveal(reconstruct_assign);
            reveal(write_storage);
            lemma_two(cx, state, copied(&input.place), copied(&input.value));
            lemma_lowered(cx, state, copied(&input.value));
        },
        Statement::Const(input) => {
            reveal(reconstruct_const);
            lemma_type(cx, state, copied(&input.type_));
            shallow::lemma_type(cx, state, copied(&input.type_));
            if let Ok((typed, _)) = reconstruct_type(cx, state, copied(&input.type_)) {
                lemma_lowered(cx, typed, copied(&input.value));
            }
        },
        Statement::Definition(input) => {
            reveal(reconstruct_definition);
            lemma_lowered(cx, state, copied(&input.value));
            if let Ok((after, _)) = reconstruct_expression(cx, state, copied(&input.value)) {
                lemma_given_type(cx, after, copied(&input.type_));
            }
        },
        Statement::Expression(input) => {
            reveal(reconstruct_expression_statement);
            lemma_lowered(cx, state, copied(&input.expression));
        },
        Statement::Return(input) => {
            reveal(reconstruct_return);
            lemma_lowered(cx, state, copied(&input.expression));
        },
        _ => {},
    }
}

proof fn lemma_lowered(cx: Context, state: State, expression: Expression)
    requires
        is_regular_state(cx, state),
        is_regular(cx, true, expression),
        !expression_requires_tail_cps(cx, expression),
    ensures
        finished(cx, reconstruct_expression(cx, state, expression)),
{
    lemma_tailless(cx, true, expression);
    lemma_source(cx, false, state, expression);
    expressions_need_no_depth(cx, state, expression);
}

proof fn lemma_two(cx: Context, state: State, first: Expression, second: Expression)
    requires
        is_regular_state(cx, state),
        is_regular(cx, true, first),
        is_regular(cx, true, second),
        !expression_requires_tail_cps(cx, first),
        !expression_requires_tail_cps(cx, second),
    ensures
        finished(cx, reconstruct_expression(cx, state, first)),
        reconstruct_expression(cx, state, first) matches Ok((after, _)) ==> finished(
            cx,
            reconstruct_expression(cx, after, second),
        ),
{
    lemma_lowered(cx, state, first);
    if let Ok((after, _)) = reconstruct_expression(cx, state, first) {
        lemma_lowered(cx, after, second);
    }
}

/* Together */

pub proof fn lemma_all(cx: Context, statements: List<Statement>)
    requires
        statements_are_regular(cx, statements),
    ensures
        always_lowers(cx, statements),
    decreases size_all(statements), 4int,
{
    assert forall|state: State| is_regular_state(cx, state) implies #[trigger] lowers(
        cx,
        state,
        statements,
    ) by {
        lemma_list(cx, state, statements);
    }
}

proof fn lemma_list(cx: Context, state: State, statements: List<Statement>)
    requires
        is_regular_state(cx, state),
        statements_are_regular(cx, statements),
    ensures
        lowers(cx, state, statements),
    decreases size_all(statements), 3int,
{
    reveal(reconstruct_block_statements);
    reveal(reconstruct_statement_with_tail);
    reveal(reconstruct_statement);
    match statements {
        List::Nil => {
            assert(ended(cx, reconstruct_block_statements(cx, 0, state, statements)));
        },
        List::Cons(first, rest) => {
            let rest = copied(&*rest);
            lemma_size(first);
            if statement_requires_tail_cps(cx, first) {
                lemma_with_tail(cx, state, first, rest);
                let depth = choose|depth: nat| ended(
                    cx,
                    #[trigger] reconstruct_statement_with_tail(cx, depth, state, first, rest),
                );
                assert(ended(cx, reconstruct_block_statements(cx, depth, state, statements)));
            } else {
                lemma_statement(cx, state, first);
                let before = choose|depth: nat| finished(
                    cx,
                    #[trigger] reconstruct_statement(cx, depth, state, first),
                );
                match reconstruct_statement(cx, before, state, first) {
                    Err(_) => {
                        assert(ended(
                            cx,
                            reconstruct_block_statements(cx, before, state, statements),
                        ));
                    },
                    Ok((after, _)) => {
                        lemma_list(cx, after, rest);
                        let behind = choose|depth: nat| ended(
                            cx,
                            #[trigger] reconstruct_block_statements(cx, depth, after, rest),
                        );
                        let depth = if before < behind {
                            behind
                        } else {
                            before
                        };
                        lemma_greater_statement(cx, before, depth, state, first);
                        lemma_greater_statements(cx, behind, depth, after, &rest);
                        assert(ended(
                            cx,
                            reconstruct_block_statements(cx, depth, state, statements),
                        ));
                    },
                }
            }
        },
    }
}

pub proof fn lemma_otherwise(cx: Context, otherwise: Option<Statement>)
    requires
        otherwise matches Some(statement) ==> statement_is_regular(cx, statement),
    ensures
        always_lowers_otherwise(cx, otherwise),
    decreases
            (match otherwise {
                Some(statement) => size(statement),
                None => 0,
            }),
            3int,
{
    assert forall|state: State| is_regular_state(cx, state) implies #[trigger] lowers_otherwise(
        cx,
        state,
        otherwise,
    ) by {
        reveal(reconstruct_otherwise);
        reveal(reconstruct_statement_with_tail);
        match otherwise {
            None => {
                assert(finished(cx, reconstruct_otherwise(cx, 0, state, otherwise)));
            },
            Some(statement) => {
                lemma_with_tail(cx, state, statement, List::Nil);
                let depth = choose|depth: nat| ended(
                    cx,
                    #[trigger] reconstruct_statement_with_tail(
                        cx,
                        depth,
                        state,
                        statement,
                        List::Nil,
                    ),
                );
                assert(finished(cx, reconstruct_otherwise(cx, depth, state, otherwise)));
            },
        }
    }
}

proof fn lemma_with_tail(
    cx: Context,
    state: State,
    statement: Statement,
    tail: List<Statement>,
)
    requires
        is_regular_state(cx, state),
        statement_is_regular(cx, statement),
        statements_are_regular(cx, tail),
    ensures
        lowers_with_tail(cx, state, statement, tail),
    decreases size(statement) + size_all(tail), 2int,
{
    lemma_size(statement);
    lemma_all(cx, tail);
    match statement {
        Statement::Assert(input) => {
            lemma_assert(cx, state, input, tail);
        },
        Statement::Assign(input) => {
            lemma_assign(cx, state, input, tail);
        },
        Statement::Block(block) => {
            lemma_all(cx, copied(&block.statements));
            lemma_block_with_tail(cx, state, block, tail);
        },
        Statement::Conditional(input) => {
            lemma_all(cx, copied(&input.then_block.statements));
            lemma_otherwise(cx, copied(&input.otherwise));
            lemma_conditional(cx, state, input, tail);
            reveal(reconstruct_statement_with_tail);
            reveal(reconstruct_conditional_with_tail);
            let depth = choose|depth: nat| ended(
                cx,
                #[trigger] reconstruct_conditional_with_tail(
                    cx,
                    depth,
                    state,
                    copied(&*input),
                    tail,
                ),
            );
            assert(ended(
                cx,
                reconstruct_statement_with_tail(cx, depth, state, statement, tail),
            ));
        },
        Statement::Const(input) => {
            lemma_const(cx, state, input, tail);
        },
        Statement::Definition(input) => {
            if let DefinitionPlace::Single(identifier) = &input.place {
                let name = identifier.name;
                lemma_split_tail(cx, tail, name);
                lemma_all(cx, split_tail(tail, name).0);
                lemma_all(cx, split_tail(tail, name).1);
            }
            lemma_definition(cx, state, input, tail);
        },
        Statement::Expression(input) => {
            reveal(reconstruct_statement_with_tail);
            reveal(emitted_then_tail);
            reveal(emit);
            let expression = copied(&input.expression);
            let frame = StatementFrame::Expression {
                keep: !can_be_discarded(state.types, expression),
                span: input.span,
            };
            lemma_last_accepts(cx, frame);
            let depth = lemma_then_tail(
                cx,
                state,
                expression,
                Continuation::Statement(frame),
                tail,
            );
            assert(ended(
                cx,
                reconstruct_statement_with_tail(cx, depth, state, statement, tail),
            ));
        },
        Statement::Iteration(input) => {
            lemma_all(cx, copied(&input.block.statements));
            lemma_iteration(cx, state, input, tail);
        },
        Statement::Return(input) => {
            reveal(reconstruct_statement_with_tail);
            reveal(emit);
            let expression = copied(&input.expression);
            let frame = StatementFrame::Return { span: input.span };
            let k = Continuation::Statement(frame);
            lemma_last_accepts(cx, frame);
            regular_expressions_end(cx, state, expression, k);
            let depth = choose|depth: nat| ended(
                cx,
                #[trigger] emit(cx, depth, state, expression, k),
            );
            assert(ended(
                cx,
                reconstruct_statement_with_tail(cx, depth, state, statement, tail),
            ));
        },
    }
}

proof fn lemma_statement(cx: Context, state: State, statement: Statement)
    requires
        is_regular_state(cx, state),
        statement_is_regular(cx, statement),
        !statement_requires_tail_cps(cx, statement),
    ensures
        lowers_alone(cx, state, statement),
    decreases size(statement), 2int,
{
    if statement is Block || statement is Conditional {
        lemma_compound(cx, state, statement);
    } else {
        lemma_simple(cx, state, statement);
    }
}

proof fn lemma_compound(cx: Context, state: State, statement: Statement)
    requires
        is_regular_state(cx, state),
        statement_is_regular(cx, statement),
        statement is Block || statement is Conditional,
    ensures
        lowers_alone(cx, state, statement),
    decreases size(statement), 1int,
{
    reveal(reconstruct_statement);
    match statement {
        Statement::Block(block) => {
            reveal(reconstruct_block);
            let inner = copied(&*block);
            lemma_all(cx, inner.statements);
            lemma_block(cx, state, inner);
            let depth = choose|depth: nat| finished(
                cx,
                #[trigger] reconstruct_block(cx, depth, state, inner),
            );
            assert(finished(cx, reconstruct_statement(cx, depth, state, statement)));
        },
        Statement::Conditional(input) => {
            reveal(reconstruct_conditional_with_tail);
            lemma_all(cx, copied(&input.then_block.statements));
            lemma_otherwise(cx, copied(&input.otherwise));
            lemma_all(cx, List::Nil);
            lemma_conditional(cx, state, input, List::Nil);
            let depth = choose|depth: nat| ended(
                cx,
                #[trigger] reconstruct_conditional_with_tail(
                    cx,
                    depth,
                    state,
                    copied(&*input),
                    List::Nil,
                ),
            );
            assert(finished(cx, reconstruct_statement(cx, depth, state, statement)));
        },
        _ => {},
    }
}

/// Lowering a statement other than a block or a conditional by itself needs no depth.
proof fn lemma_shallow(cx: Context, state: State, statement: Statement)
    requires
        !(statement is Block),
        !(statement is Conditional),
    ensures
        shallow::is_shallow(reconstruct_statement(cx, 0, state, statement)),
{
    reveal(reconstruct_statement);
    reveal(reconstruct_assert);
    reveal(reconstruct_assign);
    reveal(reconstruct_const);
    reveal(reconstruct_definition);
    reveal(reconstruct_expression_statement);
    reveal(reconstruct_return);
    assert forall|other: State, expression: Expression| shallow::is_shallow(
        #[trigger] reconstruct_expression(cx, other, expression),
    ) by {
        expressions_need_no_depth(cx, other, expression);
    }
    assert forall|other: State, type_: Type| shallow::is_shallow(
        #[trigger] reconstruct_type(cx, other, type_),
    ) by {
        shallow::lemma_type(cx, other, type_);
    }
}

/* The laws */

/// Lowering a block ends: there is a depth that its steps do not run out of. The statements in it
/// must be regular, that is, hand no dynamic access that stays one to a call or to an operation
/// other than those on vectors; the types that are known must be made of constants, and no storage
/// variable may be named like a mapping that lowering adds.
pub proof fn lowering_ends(cx: Context, state: State, block: Block)
    requires
        is_regular_state(cx, state),
        statements_are_regular(cx, block.statements),
    ensures
        exists|depth: nat| #[trigger]
            reconstruct_block(cx, depth, state, block) != Err::<(State, Block), Halt>(Halt::Depth),
{
    lemma_all(cx, block.statements);
    lemma_block(cx, state, block);
    let depth = choose|depth: nat| finished(
        cx,
        #[trigger] reconstruct_block(cx, depth, state, block),
    );
    assert(reconstruct_block(cx, depth, state, block) != Err::<(State, Block), Halt>(Halt::Depth));
}

/// Lowering a list of regular statements ends, in the same way.
pub proof fn lowering_statements_ends(cx: Context, state: State, statements: List<Statement>)
    requires
        is_regular_state(cx, state),
        statements_are_regular(cx, statements),
    ensures
        exists|depth: nat| #[trigger]
            reconstruct_block_statements(cx, depth, state, statements) != Err::<
                (State, List<Statement>),
                Halt,
            >(Halt::Depth),
{
    lemma_list(cx, state, statements);
    let depth = choose|depth: nat| ended(
        cx,
        #[trigger] reconstruct_block_statements(cx, depth, state, statements),
    );
    assert(reconstruct_block_statements(cx, depth, state, statements) != Err::<
        (State, List<Statement>),
        Halt,
    >(Halt::Depth));
}

/// Lowering a regular statement by itself ends, in the same way.
pub proof fn lowering_statement_ends(cx: Context, state: State, statement: Statement)
    requires
        is_regular_state(cx, state),
        statement_is_regular(cx, statement),
    ensures
        exists|depth: nat| #[trigger]
            reconstruct_statement(cx, depth, state, statement) != Err::<
                (State, LoweredStatement),
                Halt,
            >(Halt::Depth),
{
    if statement is Block || statement is Conditional {
        lemma_compound(cx, state, statement);
        let depth = choose|depth: nat| finished(
            cx,
            #[trigger] reconstruct_statement(cx, depth, state, statement),
        );
        assert(reconstruct_statement(cx, depth, state, statement) != Err::<
            (State, LoweredStatement),
            Halt,
        >(Halt::Depth));
    } else {
        lemma_shallow(cx, state, statement);
        assert(reconstruct_statement(cx, 0, state, statement) != Err::<
            (State, LoweredStatement),
            Halt,
        >(Halt::Depth));
    }
}

} // verus!
