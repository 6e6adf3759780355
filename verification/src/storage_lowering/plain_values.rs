//! Plain expressions are lowered without branches.
use crate::ast::{
    CallExpression, CompositeExpression, DynamicOpExpression, DynamicOpKind, Expression,
    FieldInitializer, IntrinsicExpression, NodeId, Path, Type,
};
use crate::list::{appended, copied, List};
use crate::purity::{all_can_be_discarded, can_be_discarded, members_can_be_discarded};
use crate::state::State;
use crate::storage_lowering::builders::bind_value;
use crate::storage_lowering::dynamic::finish_dynamic_operands;
use crate::storage_lowering::emit::takes_vector;
use crate::storage_lowering::plain::{
    are_plain, fields_are_plain, group_plain, is_plain, is_regular_state, kind_is_plain,
    option_is_plain,
};
use crate::storage_lowering::plain_builders::lemma_bind_value;
use crate::storage_lowering::plain_order::{lemma_closes, lemma_opens};
use crate::storage_lowering::predicates::{
    any_may_emit, any_member_may_emit, any_member_requires_branch, any_requires_branch,
    expression_may_emit_cps_statements, expression_requires_branch_cps,
    path_reconstructs_to_branch_cps,
};
use crate::storage_lowering::reconstruct::{
    reconstruct_call, reconstruct_composite_init, reconstruct_dynamic_op, reconstruct_expression,
    reconstruct_intrinsic, reconstruct_list, reconstruct_members, reconstruct_moded_types,
    reconstruct_optional, reconstruct_other_intrinsic, reconstruct_target,
    reconstruct_type_parameters,
};
use crate::storage_lowering::vectors::{materialize_strict_prefix_expression, Lowered};
use crate::storage_lowering::visitor::{expression_type_for_materialization, Context, Step};
use crate::storage_lowering::zero::reconstruct_path;
use std::rc::Rc;
use vstd::prelude::*;

verus! {

broadcast use group_plain;

/// Whether going on with `expression` as a value lowers nothing in it any more: it is plain, and
/// needs no branches where `open` does not say that dynamic accesses may stay.
pub open spec fn rests(cx: Context, open: bool, expression: Expression) -> bool {
    is_plain(cx, open, expression) && (open || !expression_requires_branch_cps(expression))
}

pub open spec fn all_rest(cx: Context, open: bool, expressions: List<Expression>) -> bool {
    are_plain(cx, open, expressions) && (open || !any_requires_branch(expressions))
}

/// Whether `after` needs no more than `before` did.
pub open spec fn is_no_worse(before: Expression, after: Expression) -> bool {
    &&& expression_requires_branch_cps(after) ==> expression_requires_branch_cps(before)
    &&& expression_may_emit_cps_statements(after) ==> expression_may_emit_cps_statements(before)
}

pub open spec fn are_no_worse(before: List<Expression>, after: List<Expression>) -> bool {
    &&& any_requires_branch(after) ==> any_requires_branch(before)
    &&& any_may_emit(after) ==> any_may_emit(before)
}

pub open spec fn gives_no_worse(before: Expression, step: Step<Lowered>) -> bool {
    step matches Ok((_, (after, _))) ==> is_no_worse(before, after)
}

/// What may go unevaluated needs no branches.
pub proof fn lemma_discardable(types: Map<NodeId, Type>, expression: Expression)
    requires
        can_be_discarded(types, expression),
    ensures
        !expression_may_emit_cps_statements(expression),
        !expression_requires_branch_cps(expression),
    decreases expression,
{
    reveal(can_be_discarded);
    reveal(all_can_be_discarded);
    reveal(members_can_be_discarded);
    match expression {
        Expression::Array(input) => {
            lemma_all_discardable(types, copied(&input.elements));
        },
        Expression::ArrayAccess(input) => {
            lemma_discardable(types, copied(&input.array));
            lemma_discardable(types, copied(&input.index));
        },
        Expression::Binary(input) => {
            lemma_discardable(types, copied(&input.left));
            lemma_discardable(types, copied(&input.right));
        },
        Expression::Composite(input) => {
            lemma_all_discardable(types, copied(&input.const_arguments));
            lemma_members_discardable(types, copied(&input.members));
            if let Some(base) = &input.base {
                lemma_discardable(types, copied(base));
            }
        },
        Expression::MemberAccess(input) => {
            lemma_discardable(types, copied(&input.inner));
        },
        Expression::Repeat(input) => {
            lemma_discardable(types, copied(&input.expr));
            lemma_discardable(types, copied(&input.count));
        },
        Expression::Ternary(input) => {
            lemma_discardable(types, copied(&input.condition));
            lemma_discardable(types, copied(&input.if_true));
            lemma_discardable(types, copied(&input.if_false));
        },
        Expression::Tuple(input) => {
            lemma_all_discardable(types, copied(&input.elements));
        },
        Expression::TupleAccess(input) => {
            lemma_discardable(types, copied(&input.tuple));
        },
        Expression::Unary(input) => {
            lemma_discardable(types, copied(&input.receiver));
        },
        _ => {},
    }
}

proof fn lemma_all_discardable(types: Map<NodeId, Type>, expressions: List<Expression>)
    requires
        all_can_be_discarded(types, expressions),
    ensures
        !any_may_emit(expressions),
        !any_requires_branch(expressions),
    decreases expressions,
{
    reveal(all_can_be_discarded);
    reveal(can_be_discarded);
    if let List::Cons(first, rest) = expressions {
        lemma_discardable(types, first);
        lemma_all_discardable(types, copied(&*rest));
    }
}

proof fn lemma_members_discardable(types: Map<NodeId, Type>, members: List<FieldInitializer>)
    requires
        members_can_be_discarded(types, members),
    ensures
        !any_member_may_emit(members),
        !any_member_requires_branch(members),
    decreases members,
{
    reveal(members_can_be_discarded);
    reveal(can_be_discarded);
    if let List::Cons(first, rest) = members {
        if let Some(value) = first.expression {
            lemma_discardable(types, value);
        }
        lemma_members_discardable(types, copied(&*rest));
    }
}

/// What a plain value is bound to rests, and so does a value that needs no name.
pub proof fn lemma_materialize(cx: Context, open: bool, state: State, expression: Expression)
    requires
        is_regular_state(cx, state),
        is_plain(cx, open, expression),
    ensures
        materialize_strict_prefix_expression(cx, state, expression) matches Ok((after, (value, _)))
            ==> is_regular_state(cx, after) && rests(cx, false, value) && rests(cx, true, value),
{
    reveal(materialize_strict_prefix_expression);
    if can_be_discarded(state.types, expression) {
        lemma_discardable(state.types, expression);
        if open {
            lemma_closes(cx, expression);
        }
        lemma_opens(cx, expression);
    }
    if let Some(type_) = expression_type_for_materialization(cx, state.types, expression) {
        lemma_bind_value(cx, state, "$eval"@, expression, type_);
        reveal(bind_value);
    }
}

/// What a plain expression is lowered to needs no more than it did.
pub proof fn lemma_again(cx: Context, open: bool, state: State, expression: Expression)
    requires
        is_plain(cx, open, expression),
    ensures
        gives_no_worse(expression, reconstruct_expression(cx, state, expression)),
    decreases expression, 0int,
{
    reveal(is_plain);
    reveal(reconstruct_expression);
    reveal(reconstruct_list);
    reveal(reconstruct_call);
    reveal(reconstruct_composite_init);
    reveal(reconstruct_dynamic_op);
    reveal(reconstruct_intrinsic);
    match expression {
        Expression::Array(input) => {
            lemma_list(cx, open, state, copied(&input.elements));
        },
        Expression::ArrayAccess(input) => {
            lemma_again(cx, open, state, copied(&input.array));
            if let Ok((state, _)) = reconstruct_expression(cx, state, copied(&input.array)) {
                lemma_again(cx, open, state, copied(&input.index));
            }
        },
        Expression::Binary(input) => {
            lemma_again(cx, open, state, copied(&input.left));
            if let Ok((state, _)) = reconstruct_expression(cx, state, copied(&input.left)) {
                lemma_again(cx, open, state, copied(&input.right));
            }
        },
        Expression::Call(input) => {
            lemma_call(cx, state, copied(&*input));
        },
        Expression::Cast(input) => {
            lemma_again(cx, open, state, copied(&input.expression));
        },
        Expression::Composite(input) => {
            lemma_composite(cx, open, state, copied(&*input));
        },
        Expression::DynamicOp(input) => {
            lemma_dynamic(cx, open, state, copied(&*input));
        },
        Expression::Intrinsic(input) => {
            lemma_intrinsic(cx, state, copied(&*input));
        },
        Expression::MemberAccess(input) => {
            lemma_again(cx, open, state, copied(&input.inner));
        },
        Expression::Path(path) => {
            lemma_path(cx, state, copied(&*path));
        },
        Expression::Repeat(input) => {
            lemma_again(cx, open, state, copied(&input.expr));
            if let Ok((state, _)) = reconstruct_expression(cx, state, copied(&input.expr)) {
                lemma_again(cx, open, state, copied(&input.count));
            }
        },
        Expression::Ternary(input) => {
            lemma_again(cx, open, state, copied(&input.condition));
            if let Ok((state, _)) = reconstruct_expression(cx, state, copied(&input.condition)) {
                lemma_again(cx, open, state, copied(&input.if_true));
                if let Ok((state, _)) = reconstruct_expression(cx, state, copied(&input.if_true)) {
                    lemma_again(cx, open, state, copied(&input.if_false));
                }
            }
        },
        Expression::Tuple(input) => {
            lemma_list(cx, open, state, copied(&input.elements));
        },
        Expression::TupleAccess(input) => {
            lemma_again(cx, open, state, copied(&input.tuple));
        },
        Expression::Unary(input) => {
            lemma_again(cx, open, state, copied(&input.receiver));
        },
        _ => {},
    }
}

pub proof fn lemma_path(cx: Context, state: State, path: Path)
    requires
        !path_reconstructs_to_branch_cps(cx, path),
    ensures
        reconstruct_path(cx, state, path) matches Ok((_, expression)) ==> expression
            == Expression::Path(Rc::new(path)),
{
    reveal(reconstruct_path);
}

pub proof fn lemma_list(cx: Context, open: bool, state: State, expressions: List<Expression>)
    requires
        are_plain(cx, open, expressions),
    ensures
        reconstruct_list(cx, state, expressions) matches Ok((_, (after, _))) ==> are_no_worse(
            expressions,
            after,
        ),
    decreases expressions, 0int,
{
    reveal(reconstruct_list);
    reveal(reconstruct_expression);
    reveal(are_plain);
    match expressions {
        List::Nil => {},
        List::Cons(first, rest) => {
            lemma_again(cx, open, state, first);
            if let Ok((state, _)) = reconstruct_expression(cx, state, first) {
                lemma_list(cx, open, state, copied(&*rest));
            }
        },
    }
}

proof fn lemma_members(cx: Context, open: bool, state: State, members: List<FieldInitializer>)
    requires
        fields_are_plain(cx, open, members),
    ensures
        reconstruct_members(cx, state, members) matches Ok((_, (after, _))) ==> {
            &&& any_member_requires_branch(after) ==> any_member_requires_branch(members)
            &&& any_member_may_emit(after) ==> any_member_may_emit(members)
        },
    decreases members, 0int,
{
    reveal(reconstruct_members);
    reveal(reconstruct_expression);
    reveal(fields_are_plain);
    reveal(option_is_plain);
    match members {
        List::Nil => {},
        List::Cons(first, rest) => {
            if let Some(value) = &first.expression {
                lemma_again(cx, open, state, copied(value));
                if let Ok((state, _)) = reconstruct_expression(cx, state, copied(value)) {
                    lemma_members(cx, open, state, copied(&*rest));
                }
            }
        },
    }
}

pub proof fn lemma_call(cx: Context, state: State, input: CallExpression)
    requires
        are_plain(cx, false, input.const_arguments),
        are_plain(cx, false, input.arguments),
    ensures
        gives_no_worse(
            Expression::Call(Rc::new(input)),
            reconstruct_call(cx, state, input),
        ),
    decreases input, 0int,
{
    reveal(reconstruct_call);
    reveal(reconstruct_list);
    lemma_list(cx, false, state, input.arguments);
}

proof fn lemma_composite(cx: Context, open: bool, state: State, input: CompositeExpression)
    requires
        are_plain(cx, open, input.const_arguments),
        fields_are_plain(cx, open, input.members),
        option_is_plain(cx, open, input.base),
    ensures
        gives_no_worse(
            Expression::Composite(Rc::new(input)),
            reconstruct_composite_init(cx, state, input),
        ),
    decreases input, 0int,
{
    reveal(reconstruct_composite_init);
    reveal(reconstruct_list);
    reveal(reconstruct_members);
    reveal(reconstruct_optional);
    reveal(reconstruct_expression);
    reveal(option_is_plain);
    lemma_list(cx, open, state, input.const_arguments);
    if let Ok((state, _)) = reconstruct_list(cx, state, input.const_arguments) {
        lemma_members(cx, open, state, input.members);
        if let Ok((state, _)) = reconstruct_members(cx, state, input.members) {
            if let Some(base) = input.base {
                lemma_again(cx, open, state, base);
            }
        }
    }
}

pub proof fn lemma_dynamic(cx: Context, open: bool, state: State, input: DynamicOpExpression)
    requires
        is_plain(cx, false, input.target_program),
        option_is_plain(cx, false, input.network),
        kind_is_plain(cx, open, input.interface, input.kind),
    ensures
        gives_no_worse(
            Expression::DynamicOp(Rc::new(input)),
            reconstruct_dynamic_op(cx, state, input),
        ),
        reconstruct_dynamic_op(cx, state, input) matches Ok((_, (after, _))) ==> after is DynamicOp,
    decreases input, 1int,
{
    reveal(reconstruct_dynamic_op);
    reveal(reconstruct_target);
    reveal(reconstruct_expression);
    reveal(reconstruct_list);
    reveal(finish_dynamic_operands);
    reveal(option_is_plain);
    reveal(kind_is_plain);
    reveal(are_plain);
    reveal(is_plain);
    lemma_again(cx, false, state, input.target_program);
    if let Ok((after, _)) = reconstruct_expression(cx, state, input.target_program) {
        if let Some(network) = input.network {
            lemma_again(cx, false, after, network);
        }
    }
    if let Ok((state, target)) = reconstruct_target(cx, state, input) {
        match input.kind {
            DynamicOpKind::Call { arguments, .. } => {
                lemma_list(cx, open, state, arguments);
            },
            DynamicOpKind::Op { arguments, .. } => {
                lemma_list(cx, true, state, arguments);
            },
            _ => {},
        }
    }
}

pub proof fn lemma_intrinsic(cx: Context, state: State, input: IntrinsicExpression)
    requires
        !takes_vector(input.op),
        are_plain(cx, false, input.arguments),
    ensures
        gives_no_worse(
            Expression::Intrinsic(Rc::new(input)),
            reconstruct_intrinsic(cx, state, input),
        ),
    decreases input, 1int,
{
    reveal(reconstruct_intrinsic);
    reveal(reconstruct_other_intrinsic);
    reveal(reconstruct_type_parameters);
    reveal(reconstruct_moded_types);
    reveal(reconstruct_list);
    if let Ok((state, _)) = reconstruct_type_parameters(cx, state, input.type_parameters) {
        if let Ok((state, _)) = reconstruct_moded_types(cx, state, input.input_types) {
            if let Ok((state, _)) = reconstruct_moded_types(cx, state, input.return_types) {
                lemma_list(cx, false, state, input.arguments);
            }
        }
    }
}

/// A list rests if its two parts do.
pub broadcast proof fn branches_appended(first: List<Expression>, second: List<Expression>)
    ensures
        #[trigger] any_requires_branch(appended(first, second)) == (any_requires_branch(first)
            || any_requires_branch(second)),
    decreases first,
{
    if let List::Cons(_, rest) = first {
        branches_appended(copied(&*rest), second);
    }
}

pub broadcast proof fn member_branches_appended(
    first: List<FieldInitializer>,
    second: List<FieldInitializer>,
)
    ensures
        #[trigger] any_member_requires_branch(appended(first, second)) == (
        any_member_requires_branch(first) || any_member_requires_branch(second)),
    decreases first,
{
    if let List::Cons(_, rest) = first {
        member_branches_appended(copied(&*rest), second);
    }
}

} // verus!
