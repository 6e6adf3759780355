//! What holds of lowering as a whole.
use crate::ast::{
    CallExpression, CompositeExpression, DynamicOpKind, Expression, FieldInitializer,
    IntrinsicExpression, Statement, TernaryExpression,
};
use crate::list::{copied, one, List};
use crate::purity::can_be_discarded;
use crate::state::{Halt, State};
use crate::storage_lowering::builders::bind_value;
use crate::storage_lowering::continuation::{Continuation, OperandFrame};
use crate::storage_lowering::emit::{
    branch_statement, emit, emit_branches, emit_step, optional_type_of, resume, resume_operand,
    resume_step, resume_ternary,
};
use crate::storage_lowering::predicates::{
    any_may_emit, any_member_may_emit, any_member_reconstructs, any_member_requires_branch,
    any_member_requires_tail, any_reconstructs, any_requires_branch, any_requires_tail,
    expression_may_emit_after_reconstruction, expression_may_emit_cps_statements,
    expression_requires_branch_cps, expression_requires_tail_cps,
};
use crate::storage_lowering::reconstruct::{
    reconstruct_call, reconstruct_composite_init, reconstruct_expression, reconstruct_intrinsic,
    reconstruct_list, reconstruct_members, reconstruct_moded_types, reconstruct_optional,
    reconstruct_other_intrinsic, reconstruct_type_parameters,
};
use crate::storage_lowering::vectors::materialize_strict_prefix_expression;
use crate::storage_lowering::visitor::Context;
use std::rc::Rc;
use vstd::prelude::*;

verus! {

/* What the predicates say of each other */

/// An expression that is lowered to branches may emit statements.
pub proof fn branches_emit(expression: &Expression)
    ensures
        expression_requires_branch_cps(
            *expression,
        ) ==> expression_may_emit_cps_statements(*expression),
    decreases *expression,
{
    match expression {
        Expression::Array(input) => {
            branches_emit_in_list(&input.elements);
        },
        Expression::ArrayAccess(input) => {
            branches_emit(&input.array);
            branches_emit(&input.index);
        },
        Expression::Binary(input) => {
            branches_emit(&input.left);
            branches_emit(&input.right);
        },
        Expression::Call(input) => {
            branches_emit_in_list(&input.const_arguments);
            branches_emit_in_list(&input.arguments);
        },
        Expression::Cast(input) => {
            branches_emit(&input.expression);
        },
        Expression::Composite(input) => {
            branches_emit_in_list(&input.const_arguments);
            branches_emit_in_members(&input.members);
            if let Some(base) = &input.base {
                branches_emit(base);
            }
        },
        Expression::Intrinsic(input) => {
            branches_emit_in_list(&input.arguments);
        },
        Expression::MemberAccess(input) => {
            branches_emit(&input.inner);
        },
        Expression::Repeat(input) => {
            branches_emit(&input.expr);
            branches_emit(&input.count);
        },
        Expression::Ternary(input) => {
            branches_emit(&input.condition);
        },
        Expression::Tuple(input) => {
            branches_emit_in_list(&input.elements);
        },
        Expression::TupleAccess(input) => {
            branches_emit(&input.tuple);
        },
        Expression::Unary(input) => {
            branches_emit(&input.receiver);
        },
        _ => {},
    }
}

proof fn branches_emit_in_list(expressions: &List<Expression>)
    ensures
        any_requires_branch(*expressions) ==> any_may_emit(*expressions),
    decreases *expressions,
{
    match expressions {
        List::Nil => {},
        List::Cons(first, rest) => {
            branches_emit(first);
            branches_emit_in_list(rest);
        },
    }
}

proof fn branches_emit_in_members(members: &List<FieldInitializer>)
    ensures
        any_member_requires_branch(*members) ==> any_member_may_emit(*members),
    decreases *members,
{
    match members {
        List::Nil => {},
        List::Cons(first, rest) => {
            if let Some(value) = &first.expression {
                branches_emit(value);
            }
            branches_emit_in_members(rest);
        },
    }
}

/// An expression whose tail is lowered inside its branches may emit statements once it is
/// lowered.
pub proof fn tails_follow_emission(cx: Context, expression: &Expression)
    ensures
        expression_requires_tail_cps(
            cx,
            *expression,
        ) ==> expression_may_emit_after_reconstruction(cx, *expression),
    decreases *expression,
{
    match expression {
        Expression::Array(input) => {
            tails_follow_emission_in_list(cx, &input.elements);
        },
        Expression::ArrayAccess(input) => {
            tails_follow_emission(cx, &input.array);
            tails_follow_emission(cx, &input.index);
        },
        Expression::Binary(input) => {
            tails_follow_emission(cx, &input.left);
            tails_follow_emission(cx, &input.right);
        },
        Expression::Call(input) => {
            tails_follow_emission_in_list(cx, &input.const_arguments);
            tails_follow_emission_in_list(cx, &input.arguments);
        },
        Expression::Cast(input) => {
            tails_follow_emission(cx, &input.expression);
        },
        Expression::Composite(input) => {
            tails_follow_emission_in_list(cx, &input.const_arguments);
            tails_follow_emission_in_members(cx, &input.members);
            if let Some(base) = &input.base {
                tails_follow_emission(cx, base);
            }
        },
        Expression::Intrinsic(input) => {
            branches_emit(expression);
            tails_follow_emission_in_list(cx, &input.arguments);
        },
        Expression::MemberAccess(input) => {
            tails_follow_emission(cx, &input.inner);
        },
        Expression::Repeat(input) => {
            tails_follow_emission(cx, &input.expr);
            tails_follow_emission(cx, &input.count);
        },
        Expression::Ternary(input) => {
            tails_follow_emission(cx, &input.condition);
        },
        Expression::Tuple(input) => {
            tails_follow_emission_in_list(cx, &input.elements);
        },
        Expression::TupleAccess(input) => {
            tails_follow_emission(cx, &input.tuple);
        },
        Expression::Unary(input) => {
            tails_follow_emission(cx, &input.receiver);
        },
        _ => {},
    }
}

proof fn tails_follow_emission_in_list(cx: Context, expressions: &List<Expression>)
    ensures
        any_requires_tail(cx, *expressions) ==> any_may_emit(*expressions)
            || any_reconstructs(cx, *expressions),
    decreases *expressions,
{
    match expressions {
        List::Nil => {},
        List::Cons(first, rest) => {
            tails_follow_emission(cx, first);
            tails_follow_emission_in_list(cx, rest);
        },
    }
}

proof fn tails_follow_emission_in_members(cx: Context, members: &List<FieldInitializer>)
    ensures
        any_member_requires_tail(cx, *members) ==> any_member_may_emit(*members)
            || any_member_reconstructs(cx, *members),
    decreases *members,
{
    match members {
        List::Nil => {},
        List::Cons(first, rest) => {
            if let Some(value) = &first.expression {
                tails_follow_emission(cx, value);
            }
            tails_follow_emission_in_members(cx, rest);
        },
    }
}

/// An expression that is lowered to branches takes its tail into them.
pub proof fn branches_take_tails(cx: Context, expression: &Expression)
    ensures
        expression_requires_branch_cps(*expression) ==> expression_requires_tail_cps(
            cx,
            *expression,
        ),
    decreases *expression,
{
    match expression {
        Expression::Array(input) => {
            branches_take_tails_in_list(cx, &input.elements);
        },
        Expression::ArrayAccess(input) => {
            branches_take_tails(cx, &input.array);
            branches_take_tails(cx, &input.index);
        },
        Expression::Binary(input) => {
            branches_take_tails(cx, &input.left);
            branches_take_tails(cx, &input.right);
        },
        Expression::Call(input) => {
            branches_take_tails_in_list(cx, &input.const_arguments);
            branches_take_tails_in_list(cx, &input.arguments);
        },
        Expression::Cast(input) => {
            branches_take_tails(cx, &input.expression);
        },
        Expression::Composite(input) => {
            branches_take_tails_in_list(cx, &input.const_arguments);
            branches_take_tails_in_members(cx, &input.members);
            if let Some(base) = &input.base {
                branches_take_tails(cx, base);
            }
        },
        Expression::DynamicOp(input) => {
            branches_take_tails(cx, &input.target_program);
            if let Some(network) = &input.network {
                branches_take_tails(cx, network);
            }
            if let DynamicOpKind::Call { arguments, .. } = &input.kind {
                branches_take_tails_in_list(cx, arguments);
            }
        },
        Expression::MemberAccess(input) => {
            branches_take_tails(cx, &input.inner);
        },
        Expression::Repeat(input) => {
            branches_take_tails(cx, &input.expr);
            branches_take_tails(cx, &input.count);
        },
        Expression::Ternary(input) => {
            branches_take_tails(cx, &input.condition);
        },
        Expression::Tuple(input) => {
            branches_take_tails_in_list(cx, &input.elements);
        },
        Expression::TupleAccess(input) => {
            branches_take_tails(cx, &input.tuple);
        },
        Expression::Unary(input) => {
            branches_take_tails(cx, &input.receiver);
        },
        _ => {},
    }
}

proof fn branches_take_tails_in_list(cx: Context, expressions: &List<Expression>)
    ensures
        any_requires_branch(*expressions) ==> any_requires_tail(cx, *expressions),
    decreases *expressions,
{
    match expressions {
        List::Nil => {},
        List::Cons(first, rest) => {
            branches_take_tails(cx, first);
            branches_take_tails_in_list(cx, rest);
        },
    }
}

proof fn branches_take_tails_in_members(cx: Context, members: &List<FieldInitializer>)
    ensures
        any_member_requires_branch(*members) ==> any_member_requires_tail(cx, *members),
    decreases *members,
{
    match members {
        List::Nil => {},
        List::Cons(first, rest) => {
            if let Some(value) = &first.expression {
                branches_take_tails(cx, value);
            }
            branches_take_tails_in_members(cx, rest);
        },
    }
}

/* Expressions that emit nothing */

/// An expression that may emit nothing has no statements to run before it.
pub proof fn quiet_expressions_have_no_statements(
    cx: Context,
    state: State,
    expression: &Expression,
)
    requires
        !expression_may_emit_after_reconstruction(cx, *expression),
    ensures
        reconstruct_expression(cx, state, *expression) matches Ok((_, (_, statements)))
            ==> statements == List::<Statement>::Nil,
    decreases *expression, 0int,
{
    reveal(reconstruct_expression);
    reveal(reconstruct_list);
    reveal(reconstruct_call);
    reveal(reconstruct_composite_init);
    reveal(reconstruct_intrinsic);
    match expression {
        Expression::Array(input) => {
            quiet_lists_have_no_statements(cx, state, &input.elements);
        },
        Expression::ArrayAccess(input) => {
            quiet_expressions_have_no_statements(cx, state, &input.array);
            if let Ok((state, _)) = reconstruct_expression(cx, state, copied(&input.array)) {
                quiet_expressions_have_no_statements(cx, state, &input.index);
            }
        },
        Expression::Binary(input) => {
            quiet_expressions_have_no_statements(cx, state, &input.left);
            if let Ok((state, _)) = reconstruct_expression(cx, state, copied(&input.left)) {
                quiet_expressions_have_no_statements(cx, state, &input.right);
            }
        },
        Expression::Call(input) => {
            quiet_calls_have_no_statements(cx, state, input);
        },
        Expression::Cast(input) => {
            quiet_expressions_have_no_statements(cx, state, &input.expression);
        },
        Expression::Composite(input) => {
            quiet_composites_have_no_statements(cx, state, input);
        },
        Expression::Intrinsic(input) => {
            quiet_operations_have_no_statements(cx, state, input);
        },
        Expression::MemberAccess(input) => {
            quiet_expressions_have_no_statements(cx, state, &input.inner);
        },
        Expression::Repeat(input) => {
            quiet_expressions_have_no_statements(cx, state, &input.expr);
            if let Ok((state, _)) = reconstruct_expression(cx, state, copied(&input.expr)) {
                quiet_expressions_have_no_statements(cx, state, &input.count);
            }
        },
        Expression::Ternary(input) => {
            quiet_expressions_have_no_statements(cx, state, &input.condition);
            if let Ok((state, _)) = reconstruct_expression(cx, state, copied(&input.condition)) {
                quiet_expressions_have_no_statements(cx, state, &input.if_true);
                if let Ok((state, _)) = reconstruct_expression(
                    cx,
                    state,
                    copied(&input.if_true),
                ) {
                    quiet_expressions_have_no_statements(cx, state, &input.if_false);
                }
            }
        },
        Expression::Tuple(input) => {
            quiet_lists_have_no_statements(cx, state, &input.elements);
        },
        Expression::TupleAccess(input) => {
            quiet_expressions_have_no_statements(cx, state, &input.tuple);
        },
        Expression::Unary(input) => {
            quiet_expressions_have_no_statements(cx, state, &input.receiver);
        },
        _ => {},
    }
}

proof fn quiet_lists_have_no_statements(
    cx: Context,
    state: State,
    expressions: &List<Expression>,
)
    requires
        !any_may_emit(*expressions),
        !any_reconstructs(cx, *expressions),
    ensures
        reconstruct_list(cx, state, *expressions) matches Ok((_, (_, statements))) ==> statements
            == List::<Statement>::Nil,
    decreases *expressions, 0int,
{
    reveal(reconstruct_expression);
    reveal(reconstruct_list);
    match expressions {
        List::Nil => {},
        List::Cons(first, rest) => {
            quiet_expressions_have_no_statements(cx, state, first);
            if let Ok((state, _)) = reconstruct_expression(cx, state, copied(first)) {
                quiet_lists_have_no_statements(cx, state, rest);
            }
        },
    }
}

proof fn quiet_members_have_no_statements(
    cx: Context,
    state: State,
    members: &List<FieldInitializer>,
)
    requires
        !any_member_may_emit(*members),
        !any_member_reconstructs(cx, *members),
    ensures
        reconstruct_members(cx, state, *members) matches Ok((_, (_, statements))) ==> statements
            == List::<Statement>::Nil,
    decreases *members, 0int,
{
    reveal(reconstruct_expression);
    reveal(reconstruct_members);
    match members {
        List::Nil => {},
        List::Cons(first, rest) => {
            if let Some(value) = &first.expression {
                quiet_expressions_have_no_statements(cx, state, value);
                if let Ok((state, _)) = reconstruct_expression(cx, state, copied(value)) {
                    quiet_members_have_no_statements(cx, state, rest);
                }
            }
        },
    }
}

proof fn quiet_calls_have_no_statements(cx: Context, state: State, input: &CallExpression)
    requires
        !any_may_emit(input.arguments),
        !any_reconstructs(cx, input.arguments),
    ensures
        reconstruct_call(cx, state, *input) matches Ok((_, (_, statements))) ==> statements
            == List::<Statement>::Nil,
    decreases *input, 0int,
{
    reveal(reconstruct_call);
    reveal(reconstruct_list);
    quiet_lists_have_no_statements(cx, state, &input.arguments);
}

proof fn quiet_composites_have_no_statements(
    cx: Context,
    state: State,
    input: &CompositeExpression,
)
    requires
        !any_may_emit(input.const_arguments),
        !any_reconstructs(cx, input.const_arguments),
        !any_member_may_emit(input.members),
        !any_member_reconstructs(cx, input.members),
        input.base matches Some(base) ==> !expression_may_emit_after_reconstruction(cx, base),
    ensures
        reconstruct_composite_init(cx, state, *input) matches Ok((_, (_, statements)))
            ==> statements == List::<Statement>::Nil,
    decreases *input, 0int,
{
    reveal(reconstruct_composite_init);
    reveal(reconstruct_list);
    reveal(reconstruct_members);
    reveal(reconstruct_optional);
    reveal(reconstruct_expression);
    quiet_lists_have_no_statements(cx, state, &input.const_arguments);
    if let Ok((state, _)) = reconstruct_list(cx, state, copied(&input.const_arguments)) {
        quiet_members_have_no_statements(cx, state, &input.members);
        if let Ok((state, _)) = reconstruct_members(cx, state, copied(&input.members)) {
            if let Some(base) = &input.base {
                quiet_expressions_have_no_statements(cx, state, base);
            }
            assert(reconstruct_optional(cx, state, input.base) matches Ok((_, (_, statements)))
                ==> statements == List::<Statement>::Nil);
        }
    }
}

proof fn quiet_operations_have_no_statements(
    cx: Context,
    state: State,
    input: &IntrinsicExpression,
)
    requires
        input.op is Other,
        !any_may_emit(input.arguments),
        !any_reconstructs(cx, input.arguments),
    ensures
        reconstruct_intrinsic(cx, state, *input) matches Ok((_, (_, statements))) ==> statements
            == List::<Statement>::Nil,
    decreases *input, 0int,
{
    reveal(reconstruct_intrinsic);
    reveal(reconstruct_other_intrinsic);
    reveal(reconstruct_type_parameters);
    reveal(reconstruct_moded_types);
    reveal(reconstruct_list);
    if let Ok((state, _)) = reconstruct_type_parameters(
        cx,
        state,
        copied(&input.type_parameters),
    ) {
        if let Ok((state, _)) = reconstruct_moded_types(cx, state, copied(&input.input_types)) {
            if let Ok((state, _)) = reconstruct_moded_types(
                cx,
                state,
                copied(&input.return_types),
            ) {
                quiet_lists_have_no_statements(cx, state, &input.arguments);
            }
        }
    }
}

/* Ternaries */

/// An operand that is bound to a name before the operands after it are lowered can be dropped or
/// evaluated later: what had to be evaluated in its place was.
pub proof fn bound_operands_can_be_discarded(cx: Context, state: State, expression: Expression)
    ensures
        materialize_strict_prefix_expression(cx, state, expression) matches Ok(
            (after, (value, _)),
        ) ==> can_be_discarded(after.types, value),
{
    reveal(materialize_strict_prefix_expression);
    reveal(bind_value);
    reveal(can_be_discarded);
}

/// Statements that lower an arm of a ternary, and everything that consumes the arm's value, run
/// exactly if the arm is selected:
///
/// ```text
/// emit(c ? t : f, k) = emit(c, |c'| if c' { emit(t, k) } else { emit(f, k) })
/// ```
pub proof fn arms_stay_in_their_branches(
    cx: Context,
    depth: nat,
    state: State,
    input: Rc<TernaryExpression>,
    continuation: Continuation,
    later: State,
    condition: Expression,
)
    requires
        expression_may_emit_after_reconstruction(cx, input.if_true)
            || expression_may_emit_after_reconstruction(cx, input.if_false),
    ensures
        ({
            let optional_type = optional_type_of(state, input.id);
            let branch = Continuation::Operand(
                OperandFrame::TernaryCondition { input, optional_type },
                Rc::new(continuation),
            );
            let arm = Continuation::Operand(
                OperandFrame::TernaryArm { optional_type, span: input.span },
                Rc::new(continuation),
            );
            &&& emit(cx, depth + 1, state, Expression::Ternary(input), continuation) == emit(
                cx,
                depth,
                state,
                input.condition,
                branch,
            )
            &&& match emit(cx, depth, later, input.if_true, arm) {
                Err(halt) => resume(
                    cx,
                    depth + 1,
                    later,
                    branch,
                    condition,
                ) == Err::<(State, List<Statement>), Halt>(
                    halt,
                ),
                Ok((middle, selected)) => match emit(cx, depth, middle, input.if_false, arm) {
                    Err(halt) => resume(
                        cx,
                        depth + 1,
                        later,
                        branch,
                        condition,
                    ) == Err::<(State, List<Statement>), Halt>(
                        halt,
                    ),
                    Ok((last, rejected)) => {
                        let (after, statement) = branch_statement(
                            last,
                            condition,
                            selected,
                            rejected,
                            input.span,
                        );
                        resume(
                            cx,
                            depth + 1,
                            later,
                            branch,
                            condition,
                        ) == Ok::<(State, List<Statement>), Halt>(
                            (after, one(statement)),
                        )
                    },
                },
            }
        }),
{
    reveal(emit);
    reveal(resume);
    reveal(resume_step);
    reveal(resume_operand);
    reveal(resume_ternary);
    reveal(emit_branches);
    let optional_type = optional_type_of(state, input.id);
    let branch = Continuation::Operand(
        OperandFrame::TernaryCondition { input, optional_type },
        Rc::new(continuation),
    );
    assert(emit(cx, depth + 1, state, Expression::Ternary(input), continuation) == emit(
        cx,
        depth,
        state,
        input.condition,
        branch,
    )) by {
        reveal(emit_step);
    }
    let if_true = (copied(&input.if_true), List::Nil);
    let if_false = (copied(&input.if_false), List::Nil);
    let branches = emit_branches(
        cx,
        depth,
        later,
        condition,
        if_true,
        if_false,
        optional_type,
        input.span,
        continuation,
    );
    assert(resume(cx, depth + 1, later, branch, condition) == resume_step(
        cx,
        depth,
        later,
        branch,
        condition,
    ));
    assert(resume_step(cx, depth, later, branch, condition) == branches);
}

} // verus!
