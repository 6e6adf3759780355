//! Where lowering does not end.
use crate::ast::{
    Block, CallExpression, DynamicOpExpression, DynamicOpKind, Expression, Statement, Type,
};
use crate::list::{appended, copied, one, List};
use crate::purity::can_be_discarded;
use crate::state::{Halt, State};
use crate::storage_lowering::continuation::{
    Continuation, ListContinuation, ListFrame, OperandFrame, StatementFrame,
};
use crate::storage_lowering::dynamic::{finish_dynamic_operands, vector_of_member, Target};
use crate::storage_lowering::emit::{
    copy_expression_type, emit, emit_dynamic_arguments, emit_list, emit_lowered, emit_step,
    emitted_then_tail, nested, reconstruct_block, reconstruct_block_statements,
    reconstruct_statement_with_tail, resume, resume_list, resume_list_step, resume_operand,
    resume_step, Emitted,
};
use crate::storage_lowering::predicates::{
    any_may_emit_after, any_requires_branch, any_requires_tail, expression_requires_branch_cps,
    expression_requires_tail_cps, statement_requires_tail_cps,
};
use crate::storage_lowering::reconstruct::{
    reconstruct_call, reconstruct_dynamic_op, reconstruct_expression, reconstruct_list,
    reconstruct_target,
};
use crate::storage_lowering::vectors::materialize_strict_prefix_expression;
use crate::storage_lowering::visitor::Context;
use std::rc::Rc;
use vstd::prelude::*;

verus! {

/// Whether `access` is an operation without arguments on a member of another program that is no
/// vector. The program is named by a literal.
pub open spec fn stays_dynamic(cx: Context, access: DynamicOpExpression) -> bool {
    &&& access.target_program is Literal
    &&& access.network is None
    &&& access.kind matches DynamicOpKind::Op { member, arguments, .. } && arguments == List::<
        Expression,
    >::Nil && vector_of_member(cx, access.interface, member) == Ok::<Option<Type>, Halt>(None)
}

/// Whether `input` is a call whose one argument is such an operation.
pub open spec fn hands_on(cx: Context, input: CallExpression, access: DynamicOpExpression) -> bool {
    &&& stays_dynamic(cx, access)
    &&& input.const_arguments == List::<Expression>::Nil
    &&& input.arguments == one(Expression::DynamicOp(Rc::new(access)))
}

spec fn ran_out(emitted: Emitted) -> bool {
    emitted == Err::<(State, List<Statement>), Halt>(Halt::Depth)
}

proof fn lemma_stays(cx: Context, state: State, access: DynamicOpExpression)
    requires
        stays_dynamic(cx, access),
    ensures
        ({
            let expression = Expression::DynamicOp(Rc::new(access));
            &&& reconstruct_dynamic_op(cx, state, access) == Ok::<_, Halt>(
                (state, (expression, List::<Statement>::Nil)),
            )
            &&& reconstruct_expression(cx, state, expression) == Ok::<_, Halt>(
                (state, (expression, List::<Statement>::Nil)),
            )
            &&& expression_requires_branch_cps(expression)
        }),
{
    reveal(reconstruct_dynamic_op);
    reveal(reconstruct_target);
    reveal(reconstruct_expression);
    reveal(reconstruct_list);
    reveal(finish_dynamic_operands);
    reveal_with_fuel(appended, 2);
    let nothing = List::<Statement>::Nil;
    assert(reconstruct_expression(cx, state, access.target_program) == Ok::<_, Halt>(
        (state, (access.target_program, nothing)),
    ));
    let target = Target { program: access.target_program, network: None, statements: nothing };
    assert(reconstruct_target(cx, state, access) == Ok::<_, Halt>((state, target)));
    assert(reconstruct_list(cx, state, List::<Expression>::Nil) == Ok::<_, Halt>(
        (state, (List::<Expression>::Nil, nothing)),
    ));
    assert(finish_dynamic_operands(
        access,
        target,
        reconstruct_list(cx, state, List::<Expression>::Nil),
    ) == Ok::<_, Halt>((state, (Expression::DynamicOp(Rc::new(access)), nothing))));
}

proof fn lemma_call_stays(
    cx: Context,
    state: State,
    input: CallExpression,
    access: DynamicOpExpression,
)
    requires
        hands_on(cx, input, access),
    ensures
        reconstruct_call(cx, state, input) == Ok::<_, Halt>(
            (state, (Expression::Call(Rc::new(input)), List::<Statement>::Nil)),
        ),
        expression_requires_branch_cps(Expression::Call(Rc::new(input))),
{
    reveal(reconstruct_call);
    reveal(reconstruct_list);
    reveal(reconstruct_expression);
    reveal_with_fuel(appended, 2);
    reveal_with_fuel(any_requires_branch, 2);
    reveal_with_fuel(expression_requires_branch_cps, 2);
    lemma_stays(cx, state, access);
    assert(any_requires_branch(one(Expression::DynamicOp(Rc::new(access)))));
    assert(reconstruct_list(cx, state, List::<Expression>::Nil) == Ok::<_, Halt>(
        (state, (List::<Expression>::Nil, List::<Statement>::Nil)),
    ));
    assert(reconstruct_list(cx, state, input.arguments) == Ok::<_, Halt>(
        (state, (input.arguments, List::<Statement>::Nil)),
    ));
}

/// The call is lowered once its argument is, and then needs to be lowered again.
proof fn lemma_call(
    cx: Context,
    depth: nat,
    state: State,
    input: CallExpression,
    access: DynamicOpExpression,
    next: Continuation,
)
    requires
        hands_on(cx, input, access),
    ensures
        ran_out(emit(cx, depth, state, Expression::Call(Rc::new(input)), next)),
    decreases depth, 1int,
{
    reveal(emit);
    reveal(emit_step);
    reveal(emit_list);
    reveal(resume_list);
    reveal(resume_list_step);
    let call = Rc::new(input);
    let first = ListContinuation {
        frame: ListFrame::CallConst { input: call },
        next: Rc::new(next),
    };
    if depth >= 1 {
        assert(emit(cx, depth, state, Expression::Call(call), next) == emit_step(
            cx,
            (depth - 1) as nat,
            state,
            Expression::Call(call),
            next,
        ));
        assert(emit_step(cx, (depth - 1) as nat, state, Expression::Call(call), next)
            == resume_list(cx, (depth - 1) as nat, state, first, List::Nil));
    }
    if depth >= 2 {
        let last = ListContinuation {
            frame: ListFrame::CallArguments {
                input: call,
                const_arguments: List::Nil,
            },
            next: Rc::new(next),
        };
        lemma_argument(cx, (depth - 2) as nat, state, input, access, next);
        assert(resume_list(cx, (depth - 1) as nat, state, first, List::Nil) == resume_list_step(
            cx,
            (depth - 2) as nat,
            state,
            first,
            List::Nil,
        ));
        assert(resume_list_step(cx, (depth - 2) as nat, state, first, List::Nil) == emit_list(
            cx,
            (depth - 2) as nat,
            state,
            input.arguments,
            List::Nil,
            last,
        ));
        assert(emit_list(cx, (depth - 2) as nat, state, input.arguments, List::Nil, last) == emit(
            cx,
            (depth - 2) as nat,
            state,
            Expression::DynamicOp(Rc::new(access)),
            Continuation::Element {
                rest: List::Nil,
                rebuilt: List::Nil,
                next: Rc::new(last),
            },
        ));
    }
}

/// The argument is lowered and handed to the call.
proof fn lemma_argument(
    cx: Context,
    depth: nat,
    state: State,
    input: CallExpression,
    access: DynamicOpExpression,
    next: Continuation,
)
    requires
        hands_on(cx, input, access),
    ensures
        ({
            let last = ListContinuation {
                frame: ListFrame::CallArguments {
                    input: Rc::new(input),
                    const_arguments: List::Nil,
                },
                next: Rc::new(next),
            };
            let element = Continuation::Element {
                rest: List::Nil,
                rebuilt: List::Nil,
                next: Rc::new(last),
            };
            ran_out(emit(cx, depth, state, Expression::DynamicOp(Rc::new(access)), element))
        }),
    decreases depth, 0int,
{
    reveal(emit);
    reveal(emit_step);
    reveal(emit_list);
    reveal(emit_lowered);
    reveal(resume);
    reveal(resume_list);
    reveal(resume_list_step);
    reveal(resume_step);
    reveal(resume_operand);
    reveal(reconstruct_expression);
    reveal(emit_dynamic_arguments);
    reveal(materialize_strict_prefix_expression);
    reveal(can_be_discarded);
    let last = ListContinuation {
        frame: ListFrame::CallArguments { input: Rc::new(input), const_arguments: List::Nil },
        next: Rc::new(next),
    };
    let element = Continuation::Element {
        rest: List::Nil,
        rebuilt: List::Nil,
        next: Rc::new(last),
    };
    let target = Continuation::Operand(
        OperandFrame::DynamicTarget { input: Rc::new(access) },
        Rc::new(element),
    );
    let literal = access.target_program;
    let arguments = ListContinuation {
        frame: ListFrame::DynamicArguments { input: Rc::new(access) },
        next: Rc::new(element),
    };
    if depth >= 4 {
        let below = (depth - 4) as nat;
        lemma_stays(cx, state, access);
        lemma_handed_on(cx, below, state, input, access, next);
        assert(copy_expression_type(state, access.id, access.id) == state);
        assert(ran_out(emit_lowered(
            cx,
            below,
            reconstruct_dynamic_op(cx, state, access),
            access.id,
            true,
            element,
        )));
        assert(ran_out(resume_list_step(cx, below, state, arguments, List::Nil)));
    }
    if depth >= 3 {
        let below = (depth - 3) as nat;
        assert(ran_out(resume_list(cx, below, state, arguments, List::Nil)));
        assert(ran_out(emit_dynamic_arguments(cx, below, state, access, element)));
        assert(ran_out(resume_operand(
            cx,
            below,
            state,
            OperandFrame::DynamicTarget { input: Rc::new(access) },
            element,
            literal,
        )));
        assert(ran_out(resume_step(cx, below, state, target, literal)));
    }
    if depth >= 2 {
        let below = (depth - 2) as nat;
        assert(ran_out(resume(cx, below, state, target, literal)));
        assert(copy_expression_type(state, literal.spec_id(), literal.spec_id()) == state);
        assert(reconstruct_expression(cx, state, literal) == Ok::<_, Halt>(
            (state, (literal, List::<Statement>::Nil)),
        ));
        assert(ran_out(emit_lowered(
            cx,
            below,
            reconstruct_expression(cx, state, literal),
            literal.spec_id(),
            false,
            target,
        )));
        assert(ran_out(emit_step(cx, below, state, literal, target)));
    }
    if depth >= 1 {
        assert(ran_out(emit(cx, (depth - 1) as nat, state, literal, target)));
    }
}

proof fn lemma_handed_on(
    cx: Context,
    depth: nat,
    state: State,
    input: CallExpression,
    access: DynamicOpExpression,
    next: Continuation,
)
    requires
        hands_on(cx, input, access),
    ensures
        ({
            let last = ListContinuation {
                frame: ListFrame::CallArguments {
                    input: Rc::new(input),
                    const_arguments: List::Nil,
                },
                next: Rc::new(next),
            };
            let element = Continuation::Element {
                rest: List::Nil,
                rebuilt: List::Nil,
                next: Rc::new(last),
            };
            ran_out(resume(cx, depth, state, element, Expression::DynamicOp(Rc::new(access))))
        }),
    decreases depth, 0int,
{
    reveal(resume);
    reveal(resume_step);
    reveal(emit_list);
    reveal(resume_list);
    reveal(resume_list_step);
    reveal(emit_lowered);
    reveal_with_fuel(appended, 2);
    reveal(emit);
    let argument = Expression::DynamicOp(Rc::new(access));
    let values = one(argument);
    let last = ListContinuation {
        frame: ListFrame::CallArguments { input: Rc::new(input), const_arguments: List::Nil },
        next: Rc::new(next),
    };
    let element = Continuation::Element {
        rest: List::Nil,
        rebuilt: List::Nil,
        next: Rc::new(last),
    };
    assert(appended(List::Nil, values) == values);
    assert(!any_may_emit_after(cx, List::Nil));
    if depth >= 2 {
        let below = (depth - 2) as nat;
        lemma_call_stays(cx, state, input, access);
        lemma_call(cx, below, state, input, access, next);
        assert(copy_expression_type(state, input.id, input.id) == state);
        assert(ran_out(emit_lowered(
            cx,
            below,
            reconstruct_call(cx, state, input),
            input.id,
            false,
            next,
        )));
        assert(CallExpression { const_arguments: List::Nil, arguments: values, ..input } == input);
        assert(ran_out(resume_list_step(cx, below, state, last, values)));
    }
    if depth >= 1 {
        let below = (depth - 1) as nat;
        assert(ran_out(resume_list(cx, below, state, last, values)));
        assert(ran_out(emit_list(cx, below, state, List::Nil, values, last)));
        assert(ran_out(resume_step(cx, below, state, element, argument)));
    }
}

/// Lowering need not end. A call that is handed an operation on a member of another program stays
/// one that needs branches, because the operation stays dynamic unless the member is a vector. So
/// it is lowered again and again, whatever the depth.
pub proof fn operations_handed_on_never_end(
    cx: Context,
    depth: nat,
    state: State,
    input: CallExpression,
    access: DynamicOpExpression,
    block: Block,
)
    requires
        hands_on(cx, input, access),
        block.statements matches List::Cons(Statement::Expression(statement), _)
            && statement.expression == Expression::Call(Rc::new(input)),
    ensures
        reconstruct_block(cx, depth, state, block) == Err::<(State, Block), Halt>(Halt::Depth),
{
    reveal(reconstruct_block);
    reveal(nested);
    reveal(reconstruct_block_statements);
    reveal(reconstruct_statement_with_tail);
    reveal(emitted_then_tail);
    reveal(emit);
    reveal_with_fuel(expression_requires_tail_cps, 3);
    reveal_with_fuel(any_requires_tail, 3);
    if depth >= 1 {
        if let List::Cons(Statement::Expression(statement), tail) = block.statements {
            let below = (depth - 1) as nat;
            let frame = StatementFrame::Expression {
                keep: !can_be_discarded(state.types, copied(&statement.expression)),
                span: statement.span,
            };
            lemma_call_stays(cx, state, input, access);
            lemma_call(cx, below, state, input, access, Continuation::Statement(frame));
            let first = Statement::Expression(statement);
            assert(statement_requires_tail_cps(cx, first)) by {
                assert(expression_requires_tail_cps(cx, Expression::DynamicOp(Rc::new(access))));
                assert(any_requires_tail(cx, input.arguments));
            }
            assert(ran_out(
                reconstruct_statement_with_tail(cx, below, state, first, copied(&*tail)),
            ));
            assert(ran_out(reconstruct_block_statements(cx, below, state, block.statements)));
        }
    }
}

} // verus!
