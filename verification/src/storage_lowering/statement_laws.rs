//! What the statements that statements are lowered to do.
use crate::ast::{
    ArrayAccess, AssertStatement, AssertVariant, AssignStatement, Block, ConditionalStatement,
    ConstDeclaration, DefinitionPlace, DefinitionStatement, Expression, ExpressionStatement,
    Identifier, MemberAccess, NodeId, ReturnStatement, Span, Statement, Symbol, TupleAccess,
};
use crate::list::{appended, copied, one, List};
use crate::names::Texts;
use crate::purity::can_be_discarded;
use crate::state::{with_id, with_suffixed, Halt, State};
use crate::storage_lowering::continuation::{Continuation, PlaceFrame, StatementFrame};
use crate::storage_lowering::emit::{
    as_statement, emit, emit_assign_place, emitted_then_tail, materialize_if, nested, preceded,
    reconstruct_assert_with_tail, reconstruct_assign_with_tail, reconstruct_block,
    reconstruct_conditional_with_tail, reconstruct_definition_with_tail, reconstruct_otherwise,
    reconstruct_statement_with_tail, resume, resume_place, resume_statement, resume_step,
    value_statement, Emitted,
};
use crate::storage_lowering::ending_statements::{
    given_type_is_plain, lemma_all, lemma_array_takes, lemma_assigned_takes,
    lemma_conditional_accepts, lemma_const_accepts, lemma_definition_accepts, lemma_last_accepts,
    lemma_left_accepts, lemma_otherwise, lemma_passes_on, lemma_split_tail, statement_is_regular,
    statements_are_regular, takes,
};
use crate::storage_lowering::ending_values::{plain_expressions_end, resumes};
use crate::storage_lowering::growing::grown;
use crate::storage_lowering::growing_code::grow_nested;
use crate::storage_lowering::meaning::{
    group_values, mapping_at, ran_statement, value_of, Machine, Value,
};
use crate::storage_lowering::orderly::is_orderly;
use crate::storage_lowering::plain::{group_plain, is_regular, is_regular_state, type_is_plain};
use crate::storage_lowering::plain_order::lemma_settled;
use crate::storage_lowering::direct_values;
use crate::storage_lowering::plain_values::rests;
use crate::storage_lowering::reconstruct::reconstruct_type;
use crate::storage_lowering::staying;
use crate::storage_lowering::vectors::materialize_strict_prefix_expression;
use crate::storage_lowering::predicates::expression_may_emit_after_reconstruction;
use crate::storage_lowering::quiet::{gave, lemma_quiet};
use crate::storage_lowering::running::{
    blank_place, eval, eval_indices, root_of, run, run_all, Model, Outcome,
};
use crate::storage_lowering::running_facts::{
    all_define_anew, defined_by, defines_anew, lemma_anew_first, lemma_more, lemma_run_appended,
};
use crate::storage_lowering::simulation::{
    is_set, lemma_bind, lemma_bind_if, lemma_emit, lemma_grown, lemma_preceded, lemma_run_one,
    lemma_submaps, operations_are_sound, store_in, value_in, Handed,
};
use crate::storage_lowering::statements::{reconstruct_given_type, write_storage, written_storage};
use crate::storage_lowering::tail::split_tail;
use crate::storage_lowering::variable_laws::{cell, stored_in};
use crate::storage_lowering::visitor::Context;
use std::rc::Rc;
use vstd::prelude::*;

verus! {

broadcast use group_plain;

/* What is handed to a statement */

/// The statement is made of the value that is handed on.
proof fn lemma_frame_steps(
    cx: Context,
    names: Texts,
    depth: nat,
    state: State,
    frame: StatementFrame,
    value: Expression,
    out: List<Statement>,
)
    requires
        gave(names, resume(cx, depth, state, Continuation::Statement(frame), value), out),
    ensures
        depth > 0,
        gave(names, resume_statement(cx, (depth - 1) as nat, state, frame, value), out),
{
    reveal(resume);
    reveal(resume_step);
    reveal(resume_statement);
    let k = Continuation::Statement(frame);
    assert(resume(cx, depth, state, k, value) == resume_step(
        cx,
        (depth - 1) as nat,
        state,
        k,
        value,
    ));
}

/// What was emitted stands in front of what the tail is lowered to.
proof fn lemma_then_tail(
    cx: Context,
    names: Texts,
    depth: nat,
    emitted: Emitted,
    tail: List<Statement>,
    out: List<Statement>,
) -> (parts: (List<Statement>, List<Statement>))
    requires
        gave(names, emitted_then_tail(cx, depth, emitted, tail), out),
    ensures
        gave(names, emitted, parts.0),
        emitted matches Ok((after, _)) && gave(names, nested(cx, depth, after, tail), parts.1),
        out == appended(parts.0, parts.1),
{
    reveal(emitted_then_tail);
    reveal(nested);
    let (after, first) = emitted->Ok_0;
    let (_, second) = nested(cx, depth, after, tail)->Ok_0;
    assert(grown(after.names, after.names)) by {
        reveal(grown);
    }
    grow_nested(after.names, cx, depth, after, tail);
    lemma_grown(after.names, nested(cx, depth, after, tail)->Ok_0.0.names, names);
    (first, second)
}

/// Whether `out` is `first` and then what `tail` is lowered to.
pub open spec fn is_followed(
    cx: Context,
    names: Texts,
    first: List<Statement>,
    tail: List<Statement>,
    out: List<Statement>,
) -> bool {
    exists|depth: nat, state: State, second: List<Statement>| #[trigger]
        gave(names, nested(cx, depth, state, tail), second) && out == appended(first, second)
}

/// What a law on a statement asks for.
pub open spec fn can_be_followed<V, S>(
    cx: Context,
    names: Texts,
    model: Model<V, S>,
    state: State,
    locals: Map<Symbol, V>,
    tail: List<Statement>,
    out: List<Statement>,
) -> bool {
    &&& operations_are_sound(cx, names, model)
    &&& is_regular_state(cx, state)
    &&& statements_are_regular(cx, tail)
    &&& all_define_anew(locals.dom(), out)
}

/* Assignments to storage variables */

/// Whether `statement` stores, in whatever machine it runs, the value of `value` in the storage
/// variable behind `key`, and does nothing else.
pub open spec fn stores(statement: Statement, key: Seq<usize>, value: Expression) -> bool {
    forall|machine: Machine|
        value_of(machine, value) is Some ==> ((#[trigger] ran_statement(
            machine,
            statement,
        )) matches Some(after) && only_stores(machine, after, key, value_of(machine, value)->0))
}

/// Whether storing `stored` in the storage variable behind `key` is all that happened.
pub open spec fn only_stores(
    machine: Machine,
    after: Machine,
    key: Seq<usize>,
    stored: Value,
) -> bool {
    &&& stored_in(after, key) == stored
    &&& after.locals == machine.locals
    &&& after.names == machine.names
    &&& after.others == machine.others
    &&& forall|other: Seq<usize>|
        other != key ==> #[trigger] mapping_at(after, other) == mapping_at(machine, other)
}

/// An assignment to a storage variable, whatever its value, is lowered to statements that come to
/// exactly one write, as the last of them: it stores the value in the mapping that reads of the
/// variable read. What follows the assignment follows the write.
pub proof fn storage_assignments_store<V, S>(
    cx: Context,
    names: Texts,
    model: Model<V, S>,
    depth: nat,
    state: State,
    input: AssignStatement,
    name: Symbol,
    tail: List<Statement>,
    locals: Map<Symbol, V>,
    store: S,
    out: List<Statement>,
)
    requires
        can_be_followed(cx, names, model, state, locals, tail, out),
        written_storage(cx, input.place) == Ok::<_, Halt>(Some(name)),
        is_regular(cx, true, input.value),
        is_orderly(cx, input.value),
        gave(names, reconstruct_assign_with_tail(cx, depth, state, input, tail), out),
        eval(cx, model, locals, store, input.value) is Some,
    ensures
        exists|handed: Handed<V, S>, write: Statement, first: List<Statement>|
            {
                &&& #[trigger] stores(write, cell(cx, state, name), handed.value)
                &&& handed.rest == one(write)
                &&& locals.submap_of(handed.locals)
                &&& eval(cx, model, handed.locals, handed.store, handed.value) == eval(
                    cx,
                    model,
                    locals,
                    store,
                    input.value,
                )
                &&& #[trigger] run_all(cx, model, locals, store, first) == run_all(
                    cx,
                    model,
                    handed.locals,
                    handed.store,
                    one(write),
                )
                &&& is_followed(cx, names, first, tail, out)
            },
{
    plain_expressions_end(cx);
    let (named, mapping) = with_suffixed(state, name, "__"@);
    let frame = StatementFrame::StorageValue { mapping, span: input.span };
    let k = Continuation::Statement(frame);
    let emitted = emit(cx, depth, named, input.value, k);
    assert(gave(names, emitted_then_tail(cx, depth, emitted, tail), out)) by {
        reveal(reconstruct_assign_with_tail);
        reveal(emitted_then_tail);
        reveal(emit);
    }
    let (first, second) = lemma_then_tail(cx, names, depth, emitted, tail, out);
    lemma_anew_first(locals.dom(), first, second);
    lemma_last_accepts(cx, frame);
    let handed = lemma_emit(
        cx,
        names,
        model,
        true,
        depth,
        named,
        input.value,
        k,
        locals,
        store,
        first,
    );
    lemma_frame_steps(cx, names, handed.depth, handed.state, frame, handed.value, handed.rest);
    let write = write_storage(cx, handed.state, mapping, handed.value, input.span).1;
    assert(handed.rest == one(write)) by {
        reveal(resume_statement);
    }
    let key = cell(cx, state, name);
    assert forall|machine: Machine|
        value_of(machine, handed.value) is Some implies ((#[trigger] ran_statement(
        machine,
        write,
    )) matches Some(after) && only_stores(
        machine,
        after,
        key,
        value_of(machine, handed.value)->0,
    )) by {
        lemma_write(cx, state, name, handed.state, handed.value, input.span, machine);
    }
    assert(stores(write, key, handed.value));
    assert(is_followed(cx, names, first, tail, out)) by {
        assert(gave(names, nested(cx, depth, emitted->Ok_0.0, tail), second));
    }
}

/// A write stores in the mapping behind the variable, in whatever state it is made.
proof fn lemma_write(
    cx: Context,
    state: State,
    name: Symbol,
    later: State,
    value: Expression,
    span: Span,
    machine: Machine,
)
    requires
        value_of(machine, value) is Some,
    ensures
        ({
            let mapping = with_suffixed(state, name, "__"@).1;
            let write = write_storage(cx, later, mapping, value, span).1;
            ran_statement(machine, write) matches Some(after) && only_stores(
                machine,
                after,
                cell(cx, state, name),
                value_of(machine, value)->0,
            )
        }),
{
    broadcast use group_values;

    reveal(write_storage);
}

/* Conditionals */

/// One statement in place of a list does what the list does.
proof fn lemma_as_statement<V, S>(
    cx: Context,
    model: Model<V, S>,
    locals: Map<Symbol, V>,
    store: S,
    state: State,
    statements: List<Statement>,
)
    ensures
        run(cx, model, locals, store, as_statement(state, statements).1) == run_all(
            cx,
            model,
            locals,
            store,
            statements,
        ),
{
    reveal(run);
    reveal(run_all);
    if statements@.len() == 1 {
        match statements {
            List::Cons(only, rest) => {
                let rest = copied(&*rest);
                assert(statements@ =~= seq![only] + rest@);
                assert(rest@.len() == 0);
                assert(rest is Nil) by {
                    if let List::Cons(_, _) = rest {
                        assert(rest@.len() > 0);
                    }
                }
                assert(statements == one(only));
                lemma_run_one(cx, model, locals, store, only);
                assert(statements@[0] == only);
            },
            List::Nil => {},
        }
    } else {
        let made = as_statement(state, statements).1;
        if let Statement::Block(block) = made {
            assert(run(cx, model, locals, store, made) == run_all(
                cx,
                model,
                locals,
                store,
                copied(&block.statements),
            ));
        }
    }
}

/// Whether `first` does what `branch` does once the condition was evaluated, and `branch` is what
/// the selected branch of `input` is lowered to.
pub open spec fn does_branch<V, S>(
    cx: Context,
    model: Model<V, S>,
    input: ConditionalStatement,
    truth: bool,
    locals: Map<Symbol, V>,
    store: S,
    later: Map<Symbol, V>,
    branch: List<Statement>,
    first: List<Statement>,
) -> bool {
    &&& is_branch(cx, input, truth, branch)
    &&& locals.submap_of(later)
    &&& run_all(cx, model, locals, store, first) == run_all(
        cx,
        model,
        later,
        store_in(eval(cx, model, locals, store, input.condition)),
        branch,
    )
}

/// A conditional statement does what the lowered branch does that its condition selects: with a
/// condition that holds the first block, and with one that does not what follows `else`, or nothing
/// if nothing does.
pub proof fn conditionals_run_the_selected_branch<V, S>(
    cx: Context,
    names: Texts,
    model: Model<V, S>,
    depth: nat,
    state: State,
    input: ConditionalStatement,
    tail: List<Statement>,
    locals: Map<Symbol, V>,
    store: S,
    out: List<Statement>,
    truth: bool,
)
    requires
        can_be_followed(cx, names, model, state, locals, tail, out),
        statement_is_regular(cx, Statement::Conditional(Rc::new(input))),
        is_orderly(cx, input.condition),
        gave(names, reconstruct_conditional_with_tail(cx, depth, state, input, tail), out),
        eval(cx, model, locals, store, input.condition) matches Some((_, value)) && (model.truth)(
            value,
        ) == Some(truth),
    ensures
        exists|later: Map<Symbol, V>, branch: List<Statement>, first: List<Statement>| #[trigger]
            does_branch(cx, model, input, truth, locals, store, later, branch, first)
                && is_followed(cx, names, first, tail, out),
{
    plain_expressions_end(cx);
    lemma_all(cx, tail);
    lemma_all(cx, input.then_block.statements);
    lemma_otherwise(cx, input.otherwise);
    let shared = Rc::new(input);
    let frame = StatementFrame::Conditional { input: shared };
    let k = Continuation::Statement(frame);
    lemma_conditional_accepts(cx, shared);
    let emitted = emit(cx, depth, state, input.condition, k);
    assert(gave(names, emitted_then_tail(cx, depth, emitted, tail), out)) by {
        reveal(reconstruct_conditional_with_tail);
        reveal(emitted_then_tail);
        reveal(emit);
    }
    let (first, second) = lemma_then_tail(cx, names, depth, emitted, tail, out);
    lemma_anew_first(locals.dom(), first, second);
    let handed = lemma_emit(
        cx,
        names,
        model,
        true,
        depth,
        state,
        input.condition,
        k,
        locals,
        store,
        first,
    );
    lemma_frame_steps(cx, names, handed.depth, handed.state, frame, handed.value, handed.rest);
    let d = (handed.depth - 1) as nat;
    let (between, value) = eval(cx, model, locals, store, input.condition)->0;
    let then_step = reconstruct_block(cx, d, handed.state, input.then_block);
    assert(then_step is Ok) by {
        reveal(resume_statement);
        reveal(reconstruct_block);
        reveal(reconstruct_otherwise);
    }
    let (middle, then_block) = then_step->Ok_0;
    let else_step = reconstruct_otherwise(cx, d, middle, input.otherwise);
    assert(else_step is Ok) by {
        reveal(resume_statement);
        reveal(reconstruct_block);
        reveal(reconstruct_otherwise);
    }
    let (last, otherwise) = else_step->Ok_0;
    let made = Statement::Conditional(
        Rc::new(
            ConditionalStatement {
                condition: handed.value,
                then_block,
                otherwise,
                span: input.span,
                id: last.next_id,
            },
        ),
    );
    assert(handed.rest == one(made)) by {
        reveal(resume_statement);
        reveal(reconstruct_block);
        reveal(reconstruct_otherwise);
    }
    lemma_run_one(cx, model, handed.locals, handed.store, made);
    assert(is_followed(cx, names, first, tail, out)) by {
        assert(gave(names, nested(cx, depth, emitted->Ok_0.0, tail), second));
    }
    if truth {
        assert(run(cx, model, handed.locals, handed.store, made) == run_all(
            cx,
            model,
            handed.locals,
            between,
            then_block.statements,
        )) by {
            reveal(run);
            reveal(run_all);
        }
        assert(is_branch(cx, input, truth, then_block.statements)) by {
            assert(reconstruct_block(cx, d, handed.state, input.then_block) == Ok::<_, Halt>(
                (middle, then_block),
            ));
        }
        assert(does_branch(
            cx,
            model,
            input,
            truth,
            locals,
            store,
            handed.locals,
            then_block.statements,
            first,
        ));
    } else {
        match input.otherwise {
            None => {
                assert(otherwise is None) by {
                    reveal(reconstruct_otherwise);
                }
                let none = List::<Statement>::Nil;
                assert(run(cx, model, handed.locals, handed.store, made) == run_all(
                    cx,
                    model,
                    handed.locals,
                    between,
                    none,
                )) by {
                    reveal(run);
                    reveal(run_all);
                }
                assert(is_branch(cx, input, truth, none));
                assert(does_branch(
                    cx,
                    model,
                    input,
                    truth,
                    locals,
                    store,
                    handed.locals,
                    none,
                    first,
                ));
            },
            Some(source) => {
                let step = reconstruct_statement_with_tail(cx, d, middle, source, List::Nil);
                assert(step is Ok) by {
                    reveal(reconstruct_otherwise);
                    reveal(reconstruct_statement_with_tail);
                }
                let (after, branch) = step->Ok_0;
                assert(otherwise == Some(as_statement(after, branch).1)) by {
                    reveal(reconstruct_otherwise);
                    reveal(reconstruct_statement_with_tail);
                }
                lemma_as_statement(cx, model, handed.locals, between, after, branch);
                assert(run(cx, model, handed.locals, handed.store, made) == run_all(
                    cx,
                    model,
                    handed.locals,
                    between,
                    branch,
                )) by {
                    reveal(run);
                }
                assert(is_branch(cx, input, truth, branch)) by {
                    assert(reconstruct_statement_with_tail(cx, d, middle, source, List::Nil)
                        == Ok::<_, Halt>((after, branch)));
                }
                assert(does_branch(
                    cx,
                    model,
                    input,
                    truth,
                    locals,
                    store,
                    handed.locals,
                    branch,
                    first,
                ));
            },
        }
    }
}

/// Whether `branch` is what the branch of `input` is lowered to that `truth` selects.
pub open spec fn is_branch(
    cx: Context,
    input: ConditionalStatement,
    truth: bool,
    branch: List<Statement>,
) -> bool {
    if truth {
        exists|d: nat, s: State|
            (#[trigger] reconstruct_block(cx, d, s, input.then_block)) matches Ok((_, block))
                && block.statements == branch
    } else {
        match input.otherwise {
            None => branch == List::<Statement>::Nil,
            Some(otherwise) => exists|d: nat, s: State|
                (#[trigger] reconstruct_statement_with_tail(
                    cx,
                    d,
                    s,
                    otherwise,
                    List::Nil,
                )) matches Ok((_, statements)) && statements == branch,
        }
    }
}

/* Statements that do by themselves what they did */

/// Whether `lowered` is how `source` ends, but for local variables that were added.
pub open spec fn agrees<V, S>(source: Outcome<V, S>, lowered: Outcome<V, S>) -> bool {
    match (source, lowered) {
        (Outcome::Goes(locals, store), Outcome::Goes(more, after)) => locals.submap_of(more)
            && store == after,
        (Outcome::Returns(store, value), Outcome::Returns(after, other)) => store == after && value
            == other,
        (Outcome::Fails, Outcome::Fails) => true,
        _ => false,
    }
}

/// Whether the statements that `statement` is lowered to do what it does, before what `tail` is
/// lowered to.
pub open spec fn does_the_same<V, S>(
    cx: Context,
    names: Texts,
    model: Model<V, S>,
    statement: Statement,
    tail: List<Statement>,
    locals: Map<Symbol, V>,
    store: S,
    out: List<Statement>,
) -> bool {
    exists|first: List<Statement>|
        agrees(
            run(cx, model, locals, store, statement),
            #[trigger] run_all(cx, model, locals, store, first),
        ) && is_followed(cx, names, first, tail, out)
}

/// An assertion of one condition fails if and only if it did before it was lowered.
pub proof fn assertions_stay<V, S>(
    cx: Context,
    names: Texts,
    model: Model<V, S>,
    depth: nat,
    state: State,
    condition: Expression,
    span: Span,
    id: NodeId,
    tail: List<Statement>,
    locals: Map<Symbol, V>,
    store: S,
    out: List<Statement>,
)
    requires
        can_be_followed(cx, names, model, state, locals, tail, out),
        is_regular(cx, true, condition),
        is_orderly(cx, condition),
        gave(
            names,
            reconstruct_assert_with_tail(
                cx,
                depth,
                state,
                AssertStatement { variant: AssertVariant::Assert(condition), span, id },
                tail,
            ),
            out,
        ),
        eval(cx, model, locals, store, condition) is Some,
    ensures
        does_the_same(
            cx,
            names,
            model,
            Statement::Assert(
                Rc::new(AssertStatement { variant: AssertVariant::Assert(condition), span, id }),
            ),
            tail,
            locals,
            store,
            out,
        ),
{
    plain_expressions_end(cx);
    let frame = StatementFrame::Assert { span };
    let k = Continuation::Statement(frame);
    let emitted = emit(cx, depth, state, condition, k);
    assert(gave(names, emitted_then_tail(cx, depth, emitted, tail), out)) by {
        reveal(reconstruct_assert_with_tail);
        reveal(emitted_then_tail);
        reveal(emit);
    }
    let (first, second) = lemma_then_tail(cx, names, depth, emitted, tail, out);
    lemma_anew_first(locals.dom(), first, second);
    lemma_last_accepts(cx, frame);
    let handed = lemma_emit(
        cx,
        names,
        model,
        true,
        depth,
        state,
        condition,
        k,
        locals,
        store,
        first,
    );
    lemma_frame_steps(cx, names, handed.depth, handed.state, frame, handed.value, handed.rest);
    let made = Statement::Assert(
        Rc::new(
            AssertStatement {
                variant: AssertVariant::Assert(handed.value),
                span,
                id: handed.state.next_id,
            },
        ),
    );
    assert(handed.rest == one(made)) by {
        reveal(resume_statement);
    }
    lemma_run_one(cx, model, handed.locals, handed.store, made);
    reveal(run);
    assert(is_followed(cx, names, first, tail, out)) by {
        assert(gave(names, nested(cx, depth, emitted->Ok_0.0, tail), second));
    }
}

/// An assertion that two values are equal, or that they are not, fails if and only if it did before
/// it was lowered. The left one is evaluated first.
pub proof fn comparing_assertions_stay<V, S>(
    cx: Context,
    names: Texts,
    model: Model<V, S>,
    depth: nat,
    state: State,
    equal: bool,
    left: Expression,
    right: Expression,
    span: Span,
    id: NodeId,
    tail: List<Statement>,
    locals: Map<Symbol, V>,
    store: S,
    out: List<Statement>,
)
    requires
        can_be_followed(cx, names, model, state, locals, tail, out),
        is_regular(cx, true, left),
        is_orderly(cx, left),
        is_regular(cx, true, right),
        is_orderly(cx, right),
        gave(
            names,
            reconstruct_assert_with_tail(
                cx,
                depth,
                state,
                comparing(equal, left, right, span, id),
                tail,
            ),
            out,
        ),
        eval(cx, model, locals, store, left) matches Some((between, _)) && eval(
            cx,
            model,
            locals,
            between,
            right,
        ) is Some,
    ensures
        does_the_same(
            cx,
            names,
            model,
            Statement::Assert(Rc::new(comparing(equal, left, right, span, id))),
            tail,
            locals,
            store,
            out,
        ),
{
    plain_expressions_end(cx);
    let frame = StatementFrame::AssertLeft { equal, right, span };
    let k = Continuation::Statement(frame);
    let emitted = emit(cx, depth, state, left, k);
    assert(gave(names, emitted_then_tail(cx, depth, emitted, tail), out)) by {
        reveal(reconstruct_assert_with_tail);
        reveal(emitted_then_tail);
        reveal(emit);
    }
    let (first, second) = lemma_then_tail(cx, names, depth, emitted, tail, out);
    lemma_anew_first(locals.dom(), first, second);
    lemma_left_accepts(cx, equal, right, span);
    let (between, left_value) = eval(cx, model, locals, store, left)->0;
    let one_side = lemma_emit(
        cx,
        names,
        model,
        true,
        depth,
        state,
        left,
        k,
        locals,
        store,
        first,
    );
    lemma_frame_steps(
        cx,
        names,
        one_side.depth,
        one_side.state,
        frame,
        one_side.value,
        one_side.rest,
    );
    let d = (one_side.depth - 1) as nat;
    let strict = expression_may_emit_after_reconstruction(cx, right);
    let step = materialize_if(cx, one_side.state, one_side.value, strict);
    assert(step is Ok) by {
        reveal(resume_statement);
        reveal(emit);
    }
    let (after, (bound, statements)) = step->Ok_0;
    let last = StatementFrame::AssertRight { equal, left: bound, span };
    let k = Continuation::Statement(last);
    let emitted_right = emit(cx, d, after, right, k);
    assert(gave(names, preceded(statements, emitted_right), one_side.rest)) by {
        reveal(resume_statement);
        reveal(emit);
    }
    let rest = lemma_preceded(names, statements, emitted_right, one_side.rest);
    let (later, now) = lemma_bind_if(
        cx,
        model,
        true,
        one_side.state,
        one_side.value,
        strict,
        after,
        bound,
        statements,
        one_side.locals,
        one_side.store,
        rest,
    );
    lemma_submaps(locals, one_side.locals, later);
    lemma_more(cx, model, locals, later, between, right);
    lemma_last_accepts(cx, last);
    let (handed_depth, handed_state, value, end, on, at) = if strict {
        let other = lemma_emit(
            cx,
            names,
            model,
            true,
            d,
            after,
            right,
            k,
            later,
            now,
            rest,
        );
        lemma_submaps(locals, later, other.locals);
        assert(eval(cx, model, other.locals, other.store, bound) == Some(
            (other.store, left_value),
        ));
        (other.depth, other.state, other.value, other.rest, other.locals, other.store)
    } else {
        lemma_settled(cx, true, right);
        let (d, s) = lemma_quiet(cx, names, d, after, right, k, rest);
        (d, s, right, rest, later, now)
    };
    lemma_frame_steps(cx, names, handed_depth, handed_state, last, value, end);
    let made = Statement::Assert(
        Rc::new(comparing(equal, bound, value, span, handed_state.next_id)),
    );
    assert(end == one(made)) by {
        reveal(resume_statement);
    }
    lemma_run_one(cx, model, on, at, made);
    reveal(run);
    assert(is_followed(cx, names, first, tail, out)) by {
        assert(gave(names, nested(cx, depth, emitted->Ok_0.0, tail), second));
    }
}

/// The assertion that `left` and `right` are equal, or that they are not.
pub open spec fn comparing(
    equal: bool,
    left: Expression,
    right: Expression,
    span: Span,
    id: NodeId,
) -> AssertStatement {
    AssertStatement {
        variant: if equal {
            AssertVariant::AssertEq(left, right)
        } else {
            AssertVariant::AssertNeq(left, right)
        },
        span,
        id,
    }
}

/// A return gives what it gave before it was lowered. What follows it is never reached.
pub proof fn returns_stay<V, S>(
    cx: Context,
    names: Texts,
    model: Model<V, S>,
    depth: nat,
    state: State,
    input: ReturnStatement,
    tail: List<Statement>,
    locals: Map<Symbol, V>,
    store: S,
    out: List<Statement>,
)
    requires
        can_be_followed(cx, names, model, state, locals, tail, out),
        is_regular(cx, true, input.expression),
        is_orderly(cx, input.expression),
        gave(
            names,
            reconstruct_statement_with_tail(
                cx,
                depth,
                state,
                Statement::Return(Rc::new(input)),
                tail,
            ),
            out,
        ),
        eval(cx, model, locals, store, input.expression) is Some,
    ensures
        agrees(
            run(cx, model, locals, store, Statement::Return(Rc::new(input))),
            run_all(cx, model, locals, store, out),
        ),
{
    plain_expressions_end(cx);
    let frame = StatementFrame::Return { span: input.span };
    let k = Continuation::Statement(frame);
    assert(gave(names, emit(cx, depth, state, input.expression, k), out)) by {
        reveal(reconstruct_statement_with_tail);
        reveal(emit);
    }
    lemma_last_accepts(cx, frame);
    let handed = lemma_emit(
        cx,
        names,
        model,
        true,
        depth,
        state,
        input.expression,
        k,
        locals,
        store,
        out,
    );
    lemma_frame_steps(cx, names, handed.depth, handed.state, frame, handed.value, handed.rest);
    let made = Statement::Return(
        Rc::new(
            ReturnStatement {
                expression: handed.value,
                span: input.span,
                id: handed.state.next_id,
            },
        ),
    );
    assert(handed.rest == one(made)) by {
        reveal(resume_statement);
    }
    lemma_run_one(cx, model, handed.locals, handed.store, made);
    reveal(run);
}

/// An expression statement is evaluated exactly once, also where what it is lowered to is no
/// statement by itself. It must not be one that can be discarded.
pub proof fn expression_statements_are_evaluated<V, S>(
    cx: Context,
    names: Texts,
    model: Model<V, S>,
    depth: nat,
    state: State,
    input: ExpressionStatement,
    tail: List<Statement>,
    locals: Map<Symbol, V>,
    store: S,
    out: List<Statement>,
)
    requires
        can_be_followed(cx, names, model, state, locals, tail, out),
        is_regular(cx, true, input.expression),
        is_orderly(cx, input.expression),
        !can_be_discarded(state.types, input.expression),
        gave(
            names,
            reconstruct_statement_with_tail(
                cx,
                depth,
                state,
                Statement::Expression(Rc::new(input)),
                tail,
            ),
            out,
        ),
        eval(cx, model, locals, store, input.expression) is Some,
    ensures
        does_the_same(
            cx,
            names,
            model,
            Statement::Expression(Rc::new(input)),
            tail,
            locals,
            store,
            out,
        ),
{
    plain_expressions_end(cx);
    let frame = StatementFrame::Expression { keep: true, span: input.span };
    let k = Continuation::Statement(frame);
    let emitted = emit(cx, depth, state, input.expression, k);
    assert(gave(names, emitted_then_tail(cx, depth, emitted, tail), out)) by {
        reveal(reconstruct_statement_with_tail);
        reveal(emitted_then_tail);
        reveal(emit);
    }
    let (first, second) = lemma_then_tail(cx, names, depth, emitted, tail, out);
    lemma_anew_first(locals.dom(), first, second);
    lemma_last_accepts(cx, frame);
    let handed = lemma_emit(
        cx,
        names,
        model,
        true,
        depth,
        state,
        input.expression,
        k,
        locals,
        store,
        first,
    );
    lemma_frame_steps(cx, names, handed.depth, handed.state, frame, handed.value, handed.rest);
    let made = value_statement(handed.state, true, handed.value, input.span).1;
    assert(handed.rest == one(made)) by {
        reveal(resume_statement);
    }
    lemma_run_one(cx, model, handed.locals, handed.store, made);
    assert(all_define_anew(handed.locals.dom(), one(made)));
    reveal(run);
    reveal(all_define_anew);
    assert(defines_anew(handed.locals.dom(), made));
    if let Statement::Definition(definition) = made {
        if let DefinitionPlace::Single(identifier) = copied(&definition.place) {
            assert(defined_by(made).contains(identifier.name));
            assert(!handed.locals.contains_key(identifier.name));
        }
    }
    assert(is_followed(cx, names, first, tail, out)) by {
        assert(gave(names, nested(cx, depth, emitted->Ok_0.0, tail), second));
    }
}

/* Definitions */

/// A definition of one variable gives it the value that it had before it was lowered. What depends
/// on the variable is lowered behind the definition, and the rest behind that.
pub proof fn definitions_define<V, S>(
    cx: Context,
    names: Texts,
    model: Model<V, S>,
    depth: nat,
    state: State,
    input: DefinitionStatement,
    variable: Identifier,
    tail: List<Statement>,
    locals: Map<Symbol, V>,
    store: S,
    out: List<Statement>,
)
    requires
        can_be_followed(cx, names, model, state, locals, tail, out),
        input.place == DefinitionPlace::Single(variable),
        given_type_is_plain(cx, input.type_),
        is_regular(cx, true, input.value),
        is_orderly(cx, input.value),
        gave(names, reconstruct_definition_with_tail(cx, depth, state, input, tail), out),
        eval(cx, model, locals, store, input.value) is Some,
    ensures
        exists|later: Map<Symbol, V>, inside: List<Statement>, first: List<Statement>| #[trigger]
            goes_on_with(
                cx,
                model,
                variable.name,
                eval(cx, model, locals, store, input.value)->0,
                locals,
                store,
                later,
                inside,
                first,
            ) && is_lowered_to(cx, names, split_tail(tail, variable.name).0, inside) && is_followed(
                cx,
                names,
                first,
                split_tail(tail, variable.name).1,
                out,
            ),
{
    plain_expressions_end(cx);
    lemma_split_tail(cx, tail, variable.name);
    let (branch_tail, remaining) = split_tail(tail, variable.name);
    lemma_all(cx, branch_tail);
    let typed_step = reconstruct_given_type(cx, state, input.type_);
    assert(typed_step is Ok) by {
        reveal(reconstruct_definition_with_tail);
    }
    if let Some(type_) = input.type_ {
        direct_values::lemma_type(cx, state, type_);
    }
    let (typed, type_) = typed_step->Ok_0;
    let shared = Rc::new(input);
    let frame = StatementFrame::Definition { input: shared, type_, tail: branch_tail };
    let k = Continuation::Statement(frame);
    let emitted = emit(cx, depth, typed, input.value, k);
    assert(gave(names, emitted_then_tail(cx, depth, emitted, remaining), out)) by {
        reveal(reconstruct_definition_with_tail);
        reveal(emitted_then_tail);
        reveal(emit);
    }
    let (first, second) = lemma_then_tail(cx, names, depth, emitted, remaining, out);
    lemma_anew_first(locals.dom(), first, second);
    lemma_definition_accepts(cx, shared, type_, branch_tail);
    let handed = lemma_emit(
        cx,
        names,
        model,
        true,
        depth,
        typed,
        input.value,
        k,
        locals,
        store,
        first,
    );
    lemma_frame_steps(cx, names, handed.depth, handed.state, frame, handed.value, handed.rest);
    let d = (handed.depth - 1) as nat;
    let made = Statement::Definition(
        Rc::new(
            DefinitionStatement { type_, value: handed.value, id: handed.state.next_id, ..input },
        ),
    );
    let lowered_tail = nested(cx, d, with_id(handed.state), branch_tail);
    assert(gave(names, preceded(one(made), lowered_tail), handed.rest)) by {
        reveal(resume_statement);
        reveal(nested);
    }
    let inside = lemma_preceded(names, one(made), lowered_tail, handed.rest);
    let (after, value) = eval(cx, model, locals, store, input.value)->0;
    lemma_run_one(cx, model, handed.locals, handed.store, made);
    assert(run(cx, model, handed.locals, handed.store, made) == Outcome::Goes(
        handed.locals.insert(variable.name, value),
        after,
    )) by {
        reveal(run);
    }
    lemma_run_appended(cx, model, handed.locals, handed.store, one(made), inside);
    assert(is_lowered_to(cx, names, branch_tail, inside)) by {
        assert(gave(names, nested(cx, d, with_id(handed.state), branch_tail), inside));
    }
    assert(is_followed(cx, names, first, remaining, out)) by {
        assert(gave(names, nested(cx, depth, emitted->Ok_0.0, remaining), second));
    }
    assert(goes_on_with(
        cx,
        model,
        variable.name,
        (after, value),
        locals,
        store,
        handed.locals,
        inside,
        first,
    ));
}

/// Whether `first` does what `inside` does once `variable` was given the value in `result`.
pub open spec fn goes_on_with<V, S>(
    cx: Context,
    model: Model<V, S>,
    variable: Symbol,
    result: (S, V),
    locals: Map<Symbol, V>,
    store: S,
    later: Map<Symbol, V>,
    inside: List<Statement>,
    first: List<Statement>,
) -> bool {
    &&& locals.submap_of(later)
    &&& run_all(cx, model, locals, store, first) == run_all(
        cx,
        model,
        later.insert(variable, result.1),
        result.0,
        inside,
    )
}

/// Whether `statements` are lowered to `out`.
pub open spec fn is_lowered_to(
    cx: Context,
    names: Texts,
    statements: List<Statement>,
    out: List<Statement>,
) -> bool {
    exists|depth: nat, state: State| #[trigger] gave(
        names,
        nested(cx, depth, state, statements),
        out,
    )
}

/// A constant gets the value that it had before it was lowered. All that follows is lowered behind
/// it.
pub proof fn constants_define<V, S>(
    cx: Context,
    names: Texts,
    model: Model<V, S>,
    depth: nat,
    state: State,
    input: ConstDeclaration,
    tail: List<Statement>,
    locals: Map<Symbol, V>,
    store: S,
    out: List<Statement>,
)
    requires
        can_be_followed(cx, names, model, state, locals, tail, out),
        type_is_plain(cx, input.type_),
        is_regular(cx, true, input.value),
        is_orderly(cx, input.value),
        gave(
            names,
            reconstruct_statement_with_tail(
                cx,
                depth,
                state,
                Statement::Const(Rc::new(input)),
                tail,
            ),
            out,
        ),
        eval(cx, model, locals, store, input.value) is Some,
    ensures
        exists|later: Map<Symbol, V>, inside: List<Statement>| #[trigger]
            goes_on_with(
                cx,
                model,
                input.place.name,
                eval(cx, model, locals, store, input.value)->0,
                locals,
                store,
                later,
                inside,
                out,
            ) && is_lowered_to(cx, names, tail, inside),
{
    plain_expressions_end(cx);
    lemma_all(cx, tail);
    let typed_step = reconstruct_type(cx, state, input.type_);
    assert(typed_step is Ok) by {
        reveal(reconstruct_statement_with_tail);
    }
    direct_values::lemma_type(cx, state, input.type_);
    staying::lemma_type(cx, state, input.type_);
    let (typed, (type_, statements)) = typed_step->Ok_0;
    let shared = Rc::new(input);
    let frame = StatementFrame::Const { input: shared, type_, tail };
    let k = Continuation::Statement(frame);
    assert(gave(names, emit(cx, depth, typed, input.value, k), out)) by {
        reveal(reconstruct_statement_with_tail);
        reveal(emit);
    }
    lemma_const_accepts(cx, shared, type_, tail);
    let handed = lemma_emit(
        cx,
        names,
        model,
        true,
        depth,
        typed,
        input.value,
        k,
        locals,
        store,
        out,
    );
    lemma_frame_steps(cx, names, handed.depth, handed.state, frame, handed.value, handed.rest);
    let d = (handed.depth - 1) as nat;
    let made = Statement::Const(
        Rc::new(ConstDeclaration { type_, value: handed.value, ..input }),
    );
    let lowered_tail = nested(cx, d, handed.state, tail);
    assert(gave(names, preceded(one(made), lowered_tail), handed.rest)) by {
        reveal(resume_statement);
        reveal(nested);
    }
    let inside = lemma_preceded(names, one(made), lowered_tail, handed.rest);
    let (after, value) = eval(cx, model, locals, store, input.value)->0;
    lemma_run_one(cx, model, handed.locals, handed.store, made);
    assert(run(cx, model, handed.locals, handed.store, made) == Outcome::Goes(
        handed.locals.insert(input.place.name, value),
        after,
    )) by {
        reveal(run);
    }
    lemma_run_appended(cx, model, handed.locals, handed.store, one(made), inside);
    assert(is_lowered_to(cx, names, tail, inside)) by {
        assert(gave(names, nested(cx, d, handed.state, tail), inside));
    }
    assert(goes_on_with(
        cx,
        model,
        input.place.name,
        (after, value),
        locals,
        store,
        handed.locals,
        inside,
        out,
    ));
}

/* Assignments to local variables */

/// Whether `lowered` is the place that `place` is, with indices that have the values `indices`
/// whenever they are evaluated.
spec fn is_place<V, S>(
    cx: Context,
    model: Model<V, S>,
    locals: Map<Symbol, V>,
    place: Expression,
    lowered: Expression,
    indices: Seq<V>,
) -> bool {
    &&& root_of(lowered) == root_of(place)
    &&& blank_place(lowered) == blank_place(place)
    &&& forall|later: Map<Symbol, V>, store: S|
        locals.submap_of(later) ==> #[trigger] eval_indices(cx, model, later, store, lowered)
            == Some((store, indices))
}

/// The indices in a place are evaluated from left to right, before the value.
proof fn lemma_place_handed<V, S>(
    cx: Context,
    names: Texts,
    model: Model<V, S>,
    depth: nat,
    state: State,
    place: Expression,
    next: Continuation,
    locals: Map<Symbol, V>,
    store: S,
    out: List<Statement>,
) -> (handed: Handed<V, S>)
    requires
        is_set(cx, names, model, state, locals, out),
        is_regular(cx, true, place),
        place_is_orderly(cx, place),
        takes(cx, next),
        gave(names, emit_assign_place(cx, depth, state, place, next), out),
        eval_indices(cx, model, locals, store, place) is Some,
    ensures
        handed.depth <= depth,
        is_regular_state(cx, handed.state),
        gave(names, resume(cx, handed.depth, handed.state, next, handed.value), handed.rest),
        locals.submap_of(handed.locals),
        all_define_anew(handed.locals.dom(), handed.rest),
        handed.store == store_in(eval_indices(cx, model, locals, store, place)),
        is_place(
            cx,
            model,
            handed.locals,
            place,
            handed.value,
            value_in(eval_indices(cx, model, locals, store, place)),
        ),
        run_all(cx, model, locals, store, out) == run_all(
            cx,
            model,
            handed.locals,
            handed.store,
            handed.rest,
        ),
    decreases place,
{
    reveal(is_regular);
    reveal(is_orderly);
    match place {
        Expression::ArrayAccess(input) => {
            let array = copied(&input.array);
            let index = copied(&input.index);
            let frame = PlaceFrame::Array { input };
            let k = Continuation::Place(frame, Rc::new(next));
            lemma_array_takes(cx, input, next);
            assert(gave(names, emit_assign_place(cx, depth, state, array, k), out)) by {
                reveal(emit_assign_place);
            }
            let first = lemma_place_handed(
                cx,
                names,
                model,
                depth,
                state,
                array,
                k,
                locals,
                store,
                out,
            );
            lemma_place_steps(
                cx,
                names,
                first.depth,
                first.state,
                frame,
                next,
                first.value,
                first.rest,
            );
            let d = (first.depth - 1) as nat;
            let frame = PlaceFrame::Index { array: first.value, input };
            let k = Continuation::Place(frame, Rc::new(next));
            assert(gave(names, emit(cx, d, first.state, index, k), first.rest)) by {
                reveal(resume_place);
                reveal(emit);
            }
            assert forall|other: State, value: Expression|
                is_regular_state(cx, other) && rests(cx, true, value) implies #[trigger] resumes(
                cx,
                other,
                k,
                value,
            ) by {
                lemma_passes_on(cx, other, frame, next, value);
            }
            let (between, indices) = eval_indices(cx, model, locals, store, array)->0;
            lemma_more(cx, model, locals, first.locals, between, index);
            let got = lemma_emit(
                cx,
                names,
                model,
                true,
                d,
                first.state,
                index,
                k,
                first.locals,
                first.store,
                first.rest,
            );
            lemma_place_steps(
                cx,
                names,
                got.depth,
                got.state,
                frame,
                next,
                got.value,
                got.rest,
            );
            let d = (got.depth - 1) as nat;
            let step = materialize_strict_prefix_expression(cx, got.state, got.value);
            assert(step is Ok) by {
                reveal(resume_place);
                reveal(resume);
            }
            let (after, (bound, statements)) = step->Ok_0;
            let node = Expression::ArrayAccess(
                Rc::new(
                    ArrayAccess { array: first.value, index: bound, ..copied(&*input) },
                ),
            );
            let emitted = resume(cx, d, after, next, node);
            assert(gave(names, preceded(statements, emitted), got.rest)) by {
                reveal(resume_place);
                reveal(resume);
            }
            let rest = lemma_preceded(names, statements, emitted, got.rest);
            let later = lemma_bind(
                cx,
                model,
                true,
                got.state,
                got.value,
                after,
                bound,
                statements,
                got.locals,
                got.store,
                rest,
            );
            lemma_submaps(first.locals, got.locals, later);
            lemma_submaps(locals, first.locals, later);
            let (last, value) = eval(cx, model, first.locals, between, index)->0;
            assert forall|even: Map<Symbol, V>, other: S|
                later.submap_of(even) implies #[trigger] eval_indices(
                cx,
                model,
                even,
                other,
                node,
            ) == Some((other, indices.push(value))) by {
                lemma_submaps(first.locals, later, even);
                assert(eval_indices(cx, model, even, other, first.value) == Some(
                    (other, indices),
                ));
                assert(eval(cx, model, even, other, bound) == Some((other, value)));
            }
            Handed { depth: d, state: after, value: node, rest, locals: later, store: last }
        },
        Expression::MemberAccess(input) => {
            let inner = copied(&input.inner);
            let frame = PlaceFrame::Member { input };
            let k = Continuation::Place(frame, Rc::new(next));
            assert forall|other: State, value: Expression| is_regular_state(
                cx,
                other,
            ) implies #[trigger] resumes(cx, other, k, value) by {
                lemma_passes_on(cx, other, frame, next, value);
            }
            assert(gave(names, emit_assign_place(cx, depth, state, inner, k), out)) by {
                reveal(emit_assign_place);
            }
            let first = lemma_place_handed(
                cx,
                names,
                model,
                depth,
                state,
                inner,
                k,
                locals,
                store,
                out,
            );
            lemma_place_steps(
                cx,
                names,
                first.depth,
                first.state,
                frame,
                next,
                first.value,
                first.rest,
            );
            let d = (first.depth - 1) as nat;
            let node = Expression::MemberAccess(
                Rc::new(MemberAccess { inner: first.value, ..copied(&*input) }),
            );
            assert(gave(names, resume(cx, d, first.state, next, node), first.rest)) by {
                reveal(resume_place);
                reveal(resume);
            }
            let (_, indices) = eval_indices(cx, model, locals, store, inner)->0;
            assert forall|even: Map<Symbol, V>, other: S|
                first.locals.submap_of(even) implies #[trigger] eval_indices(
                cx,
                model,
                even,
                other,
                node,
            ) == Some((other, indices)) by {
                assert(eval_indices(cx, model, even, other, first.value) == Some(
                    (other, indices),
                ));
            }
            Handed { depth: d, value: node, ..first }
        },
        Expression::TupleAccess(input) => {
            let inner = copied(&input.tuple);
            let frame = PlaceFrame::Tuple { input };
            let k = Continuation::Place(frame, Rc::new(next));
            assert forall|other: State, value: Expression| is_regular_state(
                cx,
                other,
            ) implies #[trigger] resumes(cx, other, k, value) by {
                lemma_passes_on(cx, other, frame, next, value);
            }
            assert(gave(names, emit_assign_place(cx, depth, state, inner, k), out)) by {
                reveal(emit_assign_place);
            }
            let first = lemma_place_handed(
                cx,
                names,
                model,
                depth,
                state,
                inner,
                k,
                locals,
                store,
                out,
            );
            lemma_place_steps(
                cx,
                names,
                first.depth,
                first.state,
                frame,
                next,
                first.value,
                first.rest,
            );
            let d = (first.depth - 1) as nat;
            let node = Expression::TupleAccess(
                Rc::new(TupleAccess { tuple: first.value, ..copied(&*input) }),
            );
            assert(gave(names, resume(cx, d, first.state, next, node), first.rest)) by {
                reveal(resume_place);
                reveal(resume);
            }
            let (_, indices) = eval_indices(cx, model, locals, store, inner)->0;
            assert forall|even: Map<Symbol, V>, other: S|
                first.locals.submap_of(even) implies #[trigger] eval_indices(
                cx,
                model,
                even,
                other,
                node,
            ) == Some((other, indices)) by {
                assert(eval_indices(cx, model, even, other, first.value) == Some(
                    (other, indices),
                ));
            }
            Handed { depth: d, value: node, ..first }
        },
        _ => {
            assert(gave(names, resume(cx, depth, state, next, place), out)) by {
                reveal(emit_assign_place);
                reveal(resume);
            }
            Handed { depth, state, value: place, rest: out, locals, store }
        },
    }
}

/// Whether the indices in a place are evaluated in order.
pub open spec fn place_is_orderly(cx: Context, place: Expression) -> bool
    decreases place,
{
    match place {
        Expression::ArrayAccess(input) => place_is_orderly(cx, input.array) && is_orderly(
            cx,
            input.index,
        ),
        Expression::MemberAccess(input) => place_is_orderly(cx, input.inner),
        Expression::TupleAccess(input) => place_is_orderly(cx, input.tuple),
        _ => true,
    }
}

proof fn lemma_place_steps(
    cx: Context,
    names: Texts,
    depth: nat,
    state: State,
    frame: PlaceFrame,
    next: Continuation,
    value: Expression,
    out: List<Statement>,
)
    requires
        gave(
            names,
            resume(cx, depth, state, Continuation::Place(frame, Rc::new(next)), value),
            out,
        ),
    ensures
        depth > 0,
        gave(names, resume_place(cx, (depth - 1) as nat, state, frame, next, value), out),
{
    reveal(resume);
    reveal(resume_step);
    reveal(resume_place);
    let k = Continuation::Place(frame, Rc::new(next));
    assert(resume(cx, depth, state, k, value) == resume_step(
        cx,
        (depth - 1) as nat,
        state,
        k,
        value,
    ));
}

/// An assignment to a local variable, or to a part of one, assigns what it assigned before it was
/// lowered, to the same part.
pub proof fn assignments_stay<V, S>(
    cx: Context,
    names: Texts,
    model: Model<V, S>,
    depth: nat,
    state: State,
    input: AssignStatement,
    tail: List<Statement>,
    locals: Map<Symbol, V>,
    store: S,
    out: List<Statement>,
)
    requires
        can_be_followed(cx, names, model, state, locals, tail, out),
        written_storage(cx, input.place) == Ok::<Option<Symbol>, Halt>(None),
        is_regular(cx, true, input.place),
        place_is_orderly(cx, input.place),
        is_regular(cx, true, input.value),
        is_orderly(cx, input.value),
        gave(names, reconstruct_assign_with_tail(cx, depth, state, input, tail), out),
        root_of(input.place) is Some,
        run(cx, model, locals, store, Statement::Assign(Rc::new(input))) is Goes,
    ensures
        does_the_same(
            cx,
            names,
            model,
            Statement::Assign(Rc::new(input)),
            tail,
            locals,
            store,
            out,
        ),
{
    plain_expressions_end(cx);
    reveal(run);
    let frame = StatementFrame::AssignPlace { value: input.value, span: input.span };
    let k = Continuation::Statement(frame);
    let emitted = emit_assign_place(cx, depth, state, input.place, k);
    assert(gave(names, emitted_then_tail(cx, depth, emitted, tail), out)) by {
        reveal(reconstruct_assign_with_tail);
        reveal(emitted_then_tail);
        reveal(emit_assign_place);
    }
    let (first, second) = lemma_then_tail(cx, names, depth, emitted, tail, out);
    lemma_anew_first(locals.dom(), first, second);
    lemma_assigned_takes(cx, input.value, input.span);
    let (between, indices) = eval_indices(cx, model, locals, store, input.place)->0;
    let at = lemma_place_handed(
        cx,
        names,
        model,
        depth,
        state,
        input.place,
        k,
        locals,
        store,
        first,
    );
    lemma_frame_steps(cx, names, at.depth, at.state, frame, at.value, at.rest);
    let d = (at.depth - 1) as nat;
    let last = StatementFrame::AssignValue { place: at.value, span: input.span };
    let k = Continuation::Statement(last);
    assert(gave(names, emit(cx, d, at.state, input.value, k), at.rest)) by {
        reveal(resume_statement);
        reveal(emit);
    }
    lemma_last_accepts(cx, last);
    lemma_more(cx, model, locals, at.locals, between, input.value);
    let handed = lemma_emit(
        cx,
        names,
        model,
        true,
        d,
        at.state,
        input.value,
        k,
        at.locals,
        at.store,
        at.rest,
    );
    lemma_submaps(locals, at.locals, handed.locals);
    lemma_frame_steps(cx, names, handed.depth, handed.state, last, handed.value, handed.rest);
    let made = Statement::Assign(
        Rc::new(
            AssignStatement {
                place: at.value,
                value: handed.value,
                span: input.span,
                id: handed.state.next_id,
            },
        ),
    );
    assert(handed.rest == one(made)) by {
        reveal(resume_statement);
    }
    lemma_run_one(cx, model, handed.locals, handed.store, made);
    assert(eval_indices(cx, model, handed.locals, handed.store, at.value) == Some(
        (handed.store, indices),
    ));
    let symbol = root_of(input.place)->0;
    assert(locals.dom().contains(symbol));
    assert(handed.locals.dom().contains(symbol) && handed.locals[symbol] == locals[symbol]);
    let (_, value) = eval(cx, model, locals, between, input.value)->0;
    let updated = (model.update)(blank_place(input.place), locals[symbol], indices, value)->0;
    assert(locals.insert(symbol, updated).submap_of(handed.locals.insert(symbol, updated)));
    assert(is_followed(cx, names, first, tail, out)) by {
        assert(gave(names, nested(cx, depth, emitted->Ok_0.0, tail), second));
    }
}

} // verus!
