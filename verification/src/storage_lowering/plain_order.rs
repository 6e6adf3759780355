//! How plain expressions and those whose lowering ends relate.
use crate::ast::{DynamicOpKind, Expression, FieldInitializer, Type};
use crate::list::{copied, List};
use crate::storage_lowering::emit::takes_vector;
use crate::storage_lowering::plain::{
    are_direct, are_plain, are_regular, fields_are_direct, fields_are_plain, fields_are_regular,
    is_direct, is_plain, is_regular, kind_is_direct, kind_is_plain, kind_is_regular,
    option_is_direct, option_is_plain, option_is_regular,
};
use crate::storage_lowering::predicates::{
    any_may_emit, any_member_may_emit, any_member_reconstructs, any_member_requires_tail,
    any_reconstructs, any_requires_tail, expression_may_emit_cps_statements,
    expression_reconstructs_to_branch_cps, expression_requires_tail_cps,
};
use crate::storage_lowering::visitor::Context;
use vstd::prelude::*;

verus! {

spec fn expression_is_quiet(expression: Option<Expression>) -> bool {
    expression matches Some(value) ==> !expression_may_emit_cps_statements(value)
}

/// A plain expression is plain where dynamic accesses may stay.
pub proof fn lemma_opens(cx: Context, expression: Expression)
    requires
        is_plain(cx, false, expression),
    ensures
        is_plain(cx, true, expression),
    decreases expression,
{
    reveal(is_plain);
    reveal(are_plain);
    reveal(option_is_plain);
    reveal(kind_is_plain);
    reveal(fields_are_plain);
    match expression {
        Expression::Array(input) => {
            lemma_opens_list(cx, copied(&input.elements));
        },
        Expression::ArrayAccess(input) => {
            lemma_opens(cx, copied(&input.array));
            lemma_opens(cx, copied(&input.index));
        },
        Expression::Binary(input) => {
            lemma_opens(cx, copied(&input.left));
            lemma_opens(cx, copied(&input.right));
        },
        Expression::Cast(input) => {
            lemma_opens(cx, copied(&input.expression));
        },
        Expression::Composite(input) => {
            lemma_opens_list(cx, copied(&input.const_arguments));
            lemma_opens_fields(cx, copied(&input.members));
            lemma_opens_option(cx, copied(&input.base));
        },
        Expression::DynamicOp(input) => {
            lemma_opens_kind(cx, copied(&input.interface), copied(&input.kind));
        },
        Expression::MemberAccess(input) => {
            lemma_opens(cx, copied(&input.inner));
        },
        Expression::Repeat(input) => {
            lemma_opens(cx, copied(&input.expr));
            lemma_opens(cx, copied(&input.count));
        },
        Expression::Ternary(input) => {
            lemma_opens(cx, copied(&input.condition));
            lemma_opens(cx, copied(&input.if_true));
            lemma_opens(cx, copied(&input.if_false));
        },
        Expression::Tuple(input) => {
            lemma_opens_list(cx, copied(&input.elements));
        },
        Expression::TupleAccess(input) => {
            lemma_opens(cx, copied(&input.tuple));
        },
        Expression::Unary(input) => {
            lemma_opens(cx, copied(&input.receiver));
        },
        _ => {},
    }
}

pub proof fn lemma_opens_list(cx: Context, expressions: List<Expression>)
    requires
        are_plain(cx, false, expressions),
    ensures
        are_plain(cx, true, expressions),
    decreases expressions,
{
    reveal(is_plain);
    reveal(are_plain);
    reveal(option_is_plain);
    reveal(kind_is_plain);
    reveal(fields_are_plain);
    if let List::Cons(first, rest) = expressions {
        lemma_opens(cx, first);
        lemma_opens_list(cx, copied(&*rest));
    }
}

proof fn lemma_opens_fields(cx: Context, fields: List<FieldInitializer>)
    requires
        fields_are_plain(cx, false, fields),
    ensures
        fields_are_plain(cx, true, fields),
    decreases fields,
{
    reveal(is_plain);
    reveal(are_plain);
    reveal(option_is_plain);
    reveal(kind_is_plain);
    reveal(fields_are_plain);
    if let List::Cons(first, rest) = fields {
        lemma_opens_option(cx, first.expression);
        lemma_opens_fields(cx, copied(&*rest));
    }
}

proof fn lemma_opens_option(cx: Context, expression: Option<Expression>)
    requires
        option_is_plain(cx, false, expression),
    ensures
        option_is_plain(cx, true, expression),
    decreases expression,
{
    reveal(is_plain);
    reveal(are_plain);
    reveal(option_is_plain);
    reveal(kind_is_plain);
    reveal(fields_are_plain);
    if let Some(value) = expression {
        lemma_opens(cx, value);
    }
}

proof fn lemma_opens_kind(cx: Context, interface: Type, kind: DynamicOpKind)
    requires
        kind_is_plain(cx, false, interface, kind),
    ensures
        kind_is_plain(cx, true, interface, kind),
    decreases kind,
{
    reveal(is_plain);
    reveal(are_plain);
    reveal(option_is_plain);
    reveal(kind_is_plain);
    reveal(fields_are_plain);
    match kind {
        DynamicOpKind::Call { arguments, .. } => {
            lemma_opens_list(cx, arguments);
        },
        _ => {},
    }
}

/// A plain expression that emits no statements holds no dynamic access.
pub proof fn lemma_closes(cx: Context, expression: Expression)
    requires
        is_plain(cx, true, expression),
        !expression_may_emit_cps_statements(expression),
    ensures
        is_plain(cx, false, expression),
    decreases expression,
{
    reveal(is_plain);
    reveal(are_plain);
    reveal(option_is_plain);
    reveal(kind_is_plain);
    reveal(fields_are_plain);
    match expression {
        Expression::Array(input) => {
            lemma_closes_list(cx, copied(&input.elements));
        },
        Expression::ArrayAccess(input) => {
            lemma_closes(cx, copied(&input.array));
            lemma_closes(cx, copied(&input.index));
        },
        Expression::Binary(input) => {
            lemma_closes(cx, copied(&input.left));
            lemma_closes(cx, copied(&input.right));
        },
        Expression::Cast(input) => {
            lemma_closes(cx, copied(&input.expression));
        },
        Expression::Composite(input) => {
            lemma_closes_list(cx, copied(&input.const_arguments));
            lemma_closes_fields(cx, copied(&input.members));
            lemma_closes_option(cx, copied(&input.base));
        },
        Expression::MemberAccess(input) => {
            lemma_closes(cx, copied(&input.inner));
        },
        Expression::Repeat(input) => {
            lemma_closes(cx, copied(&input.expr));
            lemma_closes(cx, copied(&input.count));
        },
        Expression::Ternary(input) => {
            lemma_closes(cx, copied(&input.condition));
            lemma_closes(cx, copied(&input.if_true));
            lemma_closes(cx, copied(&input.if_false));
        },
        Expression::Tuple(input) => {
            lemma_closes_list(cx, copied(&input.elements));
        },
        Expression::TupleAccess(input) => {
            lemma_closes(cx, copied(&input.tuple));
        },
        Expression::Unary(input) => {
            lemma_closes(cx, copied(&input.receiver));
        },
        _ => {},
    }
}

pub proof fn lemma_closes_list(cx: Context, expressions: List<Expression>)
    requires
        are_plain(cx, true, expressions),
        !any_may_emit(expressions),
    ensures
        are_plain(cx, false, expressions),
    decreases expressions,
{
    reveal(is_plain);
    reveal(are_plain);
    reveal(option_is_plain);
    reveal(kind_is_plain);
    reveal(fields_are_plain);
    if let List::Cons(first, rest) = expressions {
        lemma_closes(cx, first);
        lemma_closes_list(cx, copied(&*rest));
    }
}

proof fn lemma_closes_fields(cx: Context, fields: List<FieldInitializer>)
    requires
        fields_are_plain(cx, true, fields),
        !any_member_may_emit(fields),
    ensures
        fields_are_plain(cx, false, fields),
    decreases fields,
{
    reveal(is_plain);
    reveal(are_plain);
    reveal(option_is_plain);
    reveal(kind_is_plain);
    reveal(fields_are_plain);
    if let List::Cons(first, rest) = fields {
        lemma_closes_option(cx, first.expression);
        lemma_closes_fields(cx, copied(&*rest));
    }
}

proof fn lemma_closes_option(cx: Context, expression: Option<Expression>)
    requires
        option_is_plain(cx, true, expression),
        expression_is_quiet(expression),
    ensures
        option_is_plain(cx, false, expression),
    decreases expression,
{
    reveal(is_plain);
    reveal(are_plain);
    reveal(option_is_plain);
    reveal(kind_is_plain);
    reveal(fields_are_plain);
    if let Some(value) = expression {
        lemma_closes(cx, value);
    }
}

/// An expression that emits no statements holds no dynamic access.
pub proof fn lemma_quiet(cx: Context, expression: Expression)
    requires
        is_direct(cx, true, expression),
        !expression_may_emit_cps_statements(expression),
    ensures
        is_direct(cx, false, expression),
    decreases expression,
{
    reveal(is_direct);
    reveal(are_direct);
    reveal(option_is_direct);
    reveal(kind_is_direct);
    reveal(fields_are_direct);
    match expression {
        Expression::Array(input) => {
            lemma_quiet_list(cx, copied(&input.elements));
        },
        Expression::ArrayAccess(input) => {
            lemma_quiet(cx, copied(&input.array));
            lemma_quiet(cx, copied(&input.index));
        },
        Expression::Binary(input) => {
            lemma_quiet(cx, copied(&input.left));
            lemma_quiet(cx, copied(&input.right));
        },
        Expression::Cast(input) => {
            lemma_quiet(cx, copied(&input.expression));
        },
        Expression::Composite(input) => {
            lemma_quiet_list(cx, copied(&input.const_arguments));
            lemma_quiet_fields(cx, copied(&input.members));
            lemma_quiet_option(cx, copied(&input.base));
        },
        Expression::MemberAccess(input) => {
            lemma_quiet(cx, copied(&input.inner));
        },
        Expression::Repeat(input) => {
            lemma_quiet(cx, copied(&input.expr));
            lemma_quiet(cx, copied(&input.count));
        },
        Expression::Ternary(input) => {
            lemma_quiet(cx, copied(&input.condition));
            lemma_quiet(cx, copied(&input.if_true));
            lemma_quiet(cx, copied(&input.if_false));
        },
        Expression::Tuple(input) => {
            lemma_quiet_list(cx, copied(&input.elements));
        },
        Expression::TupleAccess(input) => {
            lemma_quiet(cx, copied(&input.tuple));
        },
        Expression::Unary(input) => {
            lemma_quiet(cx, copied(&input.receiver));
        },
        _ => {},
    }
}

pub proof fn lemma_quiet_list(cx: Context, expressions: List<Expression>)
    requires
        are_direct(cx, true, expressions),
        !any_may_emit(expressions),
    ensures
        are_direct(cx, false, expressions),
    decreases expressions,
{
    reveal(is_direct);
    reveal(are_direct);
    reveal(option_is_direct);
    reveal(kind_is_direct);
    reveal(fields_are_direct);
    if let List::Cons(first, rest) = expressions {
        lemma_quiet(cx, first);
        lemma_quiet_list(cx, copied(&*rest));
    }
}

proof fn lemma_quiet_fields(cx: Context, fields: List<FieldInitializer>)
    requires
        fields_are_direct(cx, true, fields),
        !any_member_may_emit(fields),
    ensures
        fields_are_direct(cx, false, fields),
    decreases fields,
{
    reveal(is_direct);
    reveal(are_direct);
    reveal(option_is_direct);
    reveal(kind_is_direct);
    reveal(fields_are_direct);
    if let List::Cons(first, rest) = fields {
        lemma_quiet_option(cx, first.expression);
        lemma_quiet_fields(cx, copied(&*rest));
    }
}

proof fn lemma_quiet_option(cx: Context, expression: Option<Expression>)
    requires
        option_is_direct(cx, true, expression),
        expression_is_quiet(expression),
    ensures
        option_is_direct(cx, false, expression),
    decreases expression,
{
    reveal(is_direct);
    reveal(are_direct);
    reveal(option_is_direct);
    reveal(kind_is_direct);
    reveal(fields_are_direct);
    if let Some(value) = expression {
        lemma_quiet(cx, value);
    }
}

/// A plain expression is lowered without continuations.
pub proof fn lemma_direct(cx: Context, open: bool, expression: Expression)
    requires
        is_plain(cx, open, expression),
    ensures
        is_direct(cx, open, expression),
    decreases expression,
{
    reveal(is_plain);
    reveal(are_plain);
    reveal(option_is_plain);
    reveal(kind_is_plain);
    reveal(fields_are_plain);
    reveal(is_direct);
    reveal(are_direct);
    reveal(option_is_direct);
    reveal(kind_is_direct);
    reveal(fields_are_direct);
    match expression {
        Expression::Array(input) => {
            lemma_direct_list(cx, open, copied(&input.elements));
        },
        Expression::ArrayAccess(input) => {
            lemma_direct(cx, open, copied(&input.array));
            lemma_direct(cx, open, copied(&input.index));
        },
        Expression::Binary(input) => {
            lemma_direct(cx, open, copied(&input.left));
            lemma_direct(cx, open, copied(&input.right));
        },
        Expression::Call(input) => {
            lemma_direct_list(cx, false, copied(&input.arguments));
        },
        Expression::Cast(input) => {
            lemma_direct(cx, open, copied(&input.expression));
        },
        Expression::Composite(input) => {
            lemma_direct_list(cx, open, copied(&input.const_arguments));
            lemma_direct_fields(cx, open, copied(&input.members));
            lemma_direct_option(cx, open, copied(&input.base));
        },
        Expression::DynamicOp(input) => {
            lemma_direct(cx, false, copied(&input.target_program));
            lemma_direct_option(cx, false, copied(&input.network));
            lemma_direct_kind(cx, open, copied(&input.interface), copied(&input.kind));
        },
        Expression::Intrinsic(input) => {
            lemma_direct_list(cx, false, copied(&input.arguments));
        },
        Expression::MemberAccess(input) => {
            lemma_direct(cx, open, copied(&input.inner));
        },
        Expression::Repeat(input) => {
            lemma_direct(cx, open, copied(&input.expr));
            lemma_direct(cx, open, copied(&input.count));
        },
        Expression::Ternary(input) => {
            lemma_direct(cx, open, copied(&input.condition));
            lemma_direct(cx, open, copied(&input.if_true));
            lemma_direct(cx, open, copied(&input.if_false));
        },
        Expression::Tuple(input) => {
            lemma_direct_list(cx, open, copied(&input.elements));
        },
        Expression::TupleAccess(input) => {
            lemma_direct(cx, open, copied(&input.tuple));
        },
        Expression::Unary(input) => {
            lemma_direct(cx, open, copied(&input.receiver));
        },
        _ => {},
    }
}

pub proof fn lemma_direct_list(cx: Context, open: bool, expressions: List<Expression>)
    requires
        are_plain(cx, open, expressions),
    ensures
        are_direct(cx, open, expressions),
    decreases expressions,
{
    reveal(is_plain);
    reveal(are_plain);
    reveal(option_is_plain);
    reveal(kind_is_plain);
    reveal(fields_are_plain);
    reveal(is_direct);
    reveal(are_direct);
    reveal(option_is_direct);
    reveal(kind_is_direct);
    reveal(fields_are_direct);
    if let List::Cons(first, rest) = expressions {
        lemma_direct(cx, open, first);
        lemma_direct_list(cx, open, copied(&*rest));
    }
}

proof fn lemma_direct_fields(cx: Context, open: bool, fields: List<FieldInitializer>)
    requires
        fields_are_plain(cx, open, fields),
    ensures
        fields_are_direct(cx, open, fields),
    decreases fields,
{
    reveal(is_plain);
    reveal(are_plain);
    reveal(option_is_plain);
    reveal(kind_is_plain);
    reveal(fields_are_plain);
    reveal(is_direct);
    reveal(are_direct);
    reveal(option_is_direct);
    reveal(kind_is_direct);
    reveal(fields_are_direct);
    if let List::Cons(first, rest) = fields {
        lemma_direct_option(cx, open, first.expression);
        lemma_direct_fields(cx, open, copied(&*rest));
    }
}

proof fn lemma_direct_option(cx: Context, open: bool, expression: Option<Expression>)
    requires
        option_is_plain(cx, open, expression),
    ensures
        option_is_direct(cx, open, expression),
    decreases expression,
{
    reveal(is_plain);
    reveal(are_plain);
    reveal(option_is_plain);
    reveal(kind_is_plain);
    reveal(fields_are_plain);
    reveal(is_direct);
    reveal(are_direct);
    reveal(option_is_direct);
    reveal(kind_is_direct);
    reveal(fields_are_direct);
    if let Some(value) = expression {
        lemma_direct(cx, open, value);
    }
}

proof fn lemma_direct_kind(cx: Context, open: bool, interface: Type, kind: DynamicOpKind)
    requires
        kind_is_plain(cx, open, interface, kind),
    ensures
        kind_is_direct(cx, open, interface, kind),
    decreases kind,
{
    reveal(is_plain);
    reveal(are_plain);
    reveal(option_is_plain);
    reveal(kind_is_plain);
    reveal(fields_are_plain);
    reveal(is_direct);
    reveal(are_direct);
    reveal(option_is_direct);
    reveal(kind_is_direct);
    reveal(fields_are_direct);
    match kind {
        DynamicOpKind::Op { arguments, .. } => {
            if open {
                lemma_direct_list(cx, true, arguments);
            }
        },
        DynamicOpKind::Call { arguments, .. } => {
            lemma_direct_list(cx, open, arguments);
        },
        _ => {},
    }
}

/// A plain expression is regular.
pub proof fn lemma_regular(cx: Context, open: bool, expression: Expression)
    requires
        is_plain(cx, open, expression),
    ensures
        is_regular(cx, open, expression),
    decreases expression,
{
    reveal(is_plain);
    reveal(are_plain);
    reveal(option_is_plain);
    reveal(kind_is_plain);
    reveal(fields_are_plain);
    reveal(is_regular);
    reveal(are_regular);
    reveal(option_is_regular);
    reveal(kind_is_regular);
    reveal(fields_are_regular);
    match expression {
        Expression::Array(input) => {
            lemma_regular_list(cx, open, copied(&input.elements));
        },
        Expression::ArrayAccess(input) => {
            lemma_regular(cx, open, copied(&input.array));
            lemma_regular(cx, open, copied(&input.index));
        },
        Expression::Binary(input) => {
            lemma_regular(cx, open, copied(&input.left));
            lemma_regular(cx, open, copied(&input.right));
        },
        Expression::Call(input) => {
            lemma_regular_list(cx, false, copied(&input.arguments));
        },
        Expression::Cast(input) => {
            lemma_regular(cx, open, copied(&input.expression));
        },
        Expression::Composite(input) => {
            lemma_regular_list(cx, open, copied(&input.const_arguments));
            lemma_regular_fields(cx, open, copied(&input.members));
            lemma_regular_option(cx, open, copied(&input.base));
        },
        Expression::DynamicOp(input) => {
            lemma_opens(cx, copied(&input.target_program));
            lemma_regular(cx, true, copied(&input.target_program));
            lemma_opens_option(cx, copied(&input.network));
            lemma_regular_option(cx, true, copied(&input.network));
            lemma_regular_kind(cx, open, copied(&input.interface), copied(&input.kind));
        },
        Expression::Intrinsic(input) => {
            lemma_regular_list(cx, false, copied(&input.arguments));
        },
        Expression::MemberAccess(input) => {
            lemma_regular(cx, open, copied(&input.inner));
        },
        Expression::Repeat(input) => {
            lemma_regular(cx, open, copied(&input.expr));
            lemma_regular(cx, open, copied(&input.count));
        },
        Expression::Ternary(input) => {
            lemma_regular(cx, open, copied(&input.condition));
            lemma_regular(cx, open, copied(&input.if_true));
            lemma_regular(cx, open, copied(&input.if_false));
        },
        Expression::Tuple(input) => {
            lemma_regular_list(cx, open, copied(&input.elements));
        },
        Expression::TupleAccess(input) => {
            lemma_regular(cx, open, copied(&input.tuple));
        },
        Expression::Unary(input) => {
            lemma_regular(cx, open, copied(&input.receiver));
        },
        _ => {},
    }
}

pub proof fn lemma_regular_list(cx: Context, open: bool, expressions: List<Expression>)
    requires
        are_plain(cx, open, expressions),
    ensures
        are_regular(cx, open, expressions),
    decreases expressions,
{
    reveal(is_plain);
    reveal(are_plain);
    reveal(option_is_plain);
    reveal(kind_is_plain);
    reveal(fields_are_plain);
    reveal(is_regular);
    reveal(are_regular);
    reveal(option_is_regular);
    reveal(kind_is_regular);
    reveal(fields_are_regular);
    if let List::Cons(first, rest) = expressions {
        lemma_regular(cx, open, first);
        lemma_regular_list(cx, open, copied(&*rest));
    }
}

proof fn lemma_regular_fields(cx: Context, open: bool, fields: List<FieldInitializer>)
    requires
        fields_are_plain(cx, open, fields),
    ensures
        fields_are_regular(cx, open, fields),
    decreases fields,
{
    reveal(is_plain);
    reveal(are_plain);
    reveal(option_is_plain);
    reveal(kind_is_plain);
    reveal(fields_are_plain);
    reveal(is_regular);
    reveal(are_regular);
    reveal(option_is_regular);
    reveal(kind_is_regular);
    reveal(fields_are_regular);
    if let List::Cons(first, rest) = fields {
        lemma_regular_option(cx, open, first.expression);
        lemma_regular_fields(cx, open, copied(&*rest));
    }
}

pub proof fn lemma_regular_option(cx: Context, open: bool, expression: Option<Expression>)
    requires
        option_is_plain(cx, open, expression),
    ensures
        option_is_regular(cx, open, expression),
    decreases expression,
{
    reveal(is_plain);
    reveal(are_plain);
    reveal(option_is_plain);
    reveal(kind_is_plain);
    reveal(fields_are_plain);
    reveal(is_regular);
    reveal(are_regular);
    reveal(option_is_regular);
    reveal(kind_is_regular);
    reveal(fields_are_regular);
    if let Some(value) = expression {
        lemma_regular(cx, open, value);
    }
}

proof fn lemma_regular_kind(cx: Context, open: bool, interface: Type, kind: DynamicOpKind)
    requires
        kind_is_plain(cx, open, interface, kind),
    ensures
        kind_is_regular(cx, open, interface, kind),
    decreases kind,
{
    reveal(is_plain);
    reveal(are_plain);
    reveal(option_is_plain);
    reveal(kind_is_plain);
    reveal(fields_are_plain);
    reveal(is_regular);
    reveal(are_regular);
    reveal(option_is_regular);
    reveal(kind_is_regular);
    reveal(fields_are_regular);
    match kind {
        DynamicOpKind::Op { arguments, .. } => {
            if open {
                lemma_regular_list(cx, true, arguments);
            }
        },
        DynamicOpKind::Call { arguments, .. } => {
            lemma_regular_list(cx, open, arguments);
        },
        _ => {},
    }
}

spec fn option_is_settled(cx: Context, expression: Option<Expression>) -> bool {
    expression matches Some(value) ==> !expression_may_emit_cps_statements(value)
        && !expression_reconstructs_to_branch_cps(cx, value)
}

/// A regular expression that neither emits statements nor reads a storage variable is plain.
pub proof fn lemma_settled(cx: Context, open: bool, expression: Expression)
    requires
        is_regular(cx, open, expression),
        !expression_may_emit_cps_statements(expression),
        !expression_reconstructs_to_branch_cps(cx, expression),
    ensures
        is_plain(cx, false, expression),
    decreases expression,
{
    reveal(is_plain);
    reveal(are_plain);
    reveal(option_is_plain);
    reveal(kind_is_plain);
    reveal(fields_are_plain);
    reveal(is_regular);
    reveal(are_regular);
    reveal(option_is_regular);
    reveal(kind_is_regular);
    reveal(fields_are_regular);
    match expression {
        Expression::Array(input) => {
            lemma_settled_list(cx, open, copied(&input.elements));
        },
        Expression::ArrayAccess(input) => {
            lemma_settled(cx, open, copied(&input.array));
            lemma_settled(cx, open, copied(&input.index));
        },
        Expression::Binary(input) => {
            lemma_settled(cx, open, copied(&input.left));
            lemma_settled(cx, open, copied(&input.right));
        },
        Expression::Call(input) => {
            lemma_settled_list(cx, false, copied(&input.arguments));
        },
        Expression::Cast(input) => {
            lemma_settled(cx, open, copied(&input.expression));
        },
        Expression::Composite(input) => {
            lemma_settled_list(cx, open, copied(&input.const_arguments));
            lemma_settled_fields(cx, open, copied(&input.members));
            lemma_settled_option(cx, open, copied(&input.base));
        },
        Expression::Intrinsic(input) => {
            lemma_settled_list(cx, false, copied(&input.arguments));
        },
        Expression::MemberAccess(input) => {
            lemma_settled(cx, open, copied(&input.inner));
        },
        Expression::Repeat(input) => {
            lemma_settled(cx, open, copied(&input.expr));
            lemma_settled(cx, open, copied(&input.count));
        },
        Expression::Ternary(input) => {
            lemma_settled(cx, open, copied(&input.condition));
            lemma_settled(cx, open, copied(&input.if_true));
            lemma_settled(cx, open, copied(&input.if_false));
        },
        Expression::Tuple(input) => {
            lemma_settled_list(cx, open, copied(&input.elements));
        },
        Expression::TupleAccess(input) => {
            lemma_settled(cx, open, copied(&input.tuple));
        },
        Expression::Unary(input) => {
            lemma_settled(cx, open, copied(&input.receiver));
        },
        _ => {},
    }
}

pub proof fn lemma_settled_list(cx: Context, open: bool, expressions: List<Expression>)
    requires
        are_regular(cx, open, expressions),
        !any_may_emit(expressions),
        !any_reconstructs(cx, expressions),
    ensures
        are_plain(cx, false, expressions),
    decreases expressions,
{
    reveal(is_plain);
    reveal(are_plain);
    reveal(option_is_plain);
    reveal(kind_is_plain);
    reveal(fields_are_plain);
    reveal(is_regular);
    reveal(are_regular);
    reveal(option_is_regular);
    reveal(kind_is_regular);
    reveal(fields_are_regular);
    if let List::Cons(first, rest) = expressions {
        lemma_settled(cx, open, first);
        lemma_settled_list(cx, open, copied(&*rest));
    }
}

proof fn lemma_settled_fields(cx: Context, open: bool, fields: List<FieldInitializer>)
    requires
        fields_are_regular(cx, open, fields),
        !any_member_may_emit(fields),
        !any_member_reconstructs(cx, fields),
    ensures
        fields_are_plain(cx, false, fields),
    decreases fields,
{
    reveal(is_plain);
    reveal(are_plain);
    reveal(option_is_plain);
    reveal(kind_is_plain);
    reveal(fields_are_plain);
    reveal(is_regular);
    reveal(are_regular);
    reveal(option_is_regular);
    reveal(kind_is_regular);
    reveal(fields_are_regular);
    if let List::Cons(first, rest) = fields {
        lemma_settled_option(cx, open, first.expression);
        lemma_settled_fields(cx, open, copied(&*rest));
    }
}

proof fn lemma_settled_option(cx: Context, open: bool, expression: Option<Expression>)
    requires
        option_is_regular(cx, open, expression),
        option_is_settled(cx, expression),
    ensures
        option_is_plain(cx, false, expression),
    decreases expression,
{
    reveal(is_plain);
    reveal(are_plain);
    reveal(option_is_plain);
    reveal(kind_is_plain);
    reveal(fields_are_plain);
    reveal(is_regular);
    reveal(are_regular);
    reveal(option_is_regular);
    reveal(kind_is_regular);
    reveal(fields_are_regular);
    if let Some(value) = expression {
        lemma_settled(cx, open, value);
    }
}

/// What is lowered without continuations is so where dynamic accesses may stay.
pub proof fn lemma_widens(cx: Context, expression: Expression)
    requires
        is_direct(cx, false, expression),
    ensures
        is_direct(cx, true, expression),
    decreases expression,
{
    reveal(is_direct);
    reveal(are_direct);
    reveal(option_is_direct);
    reveal(kind_is_direct);
    reveal(fields_are_direct);
    match expression {
        Expression::Array(input) => {
            lemma_widens_list(cx, copied(&input.elements));
        },
        Expression::ArrayAccess(input) => {
            lemma_widens(cx, copied(&input.array));
            lemma_widens(cx, copied(&input.index));
        },
        Expression::Binary(input) => {
            lemma_widens(cx, copied(&input.left));
            lemma_widens(cx, copied(&input.right));
        },
        Expression::Cast(input) => {
            lemma_widens(cx, copied(&input.expression));
        },
        Expression::Composite(input) => {
            lemma_widens_list(cx, copied(&input.const_arguments));
            lemma_widens_fields(cx, copied(&input.members));
            lemma_widens_option(cx, copied(&input.base));
        },
        Expression::DynamicOp(input) => {
            lemma_widens_kind(cx, copied(&input.interface), copied(&input.kind));
        },
        Expression::MemberAccess(input) => {
            lemma_widens(cx, copied(&input.inner));
        },
        Expression::Repeat(input) => {
            lemma_widens(cx, copied(&input.expr));
            lemma_widens(cx, copied(&input.count));
        },
        Expression::Ternary(input) => {
            lemma_widens(cx, copied(&input.condition));
            lemma_widens(cx, copied(&input.if_true));
            lemma_widens(cx, copied(&input.if_false));
        },
        Expression::Tuple(input) => {
            lemma_widens_list(cx, copied(&input.elements));
        },
        Expression::TupleAccess(input) => {
            lemma_widens(cx, copied(&input.tuple));
        },
        Expression::Unary(input) => {
            lemma_widens(cx, copied(&input.receiver));
        },
        _ => {},
    }
}

pub proof fn lemma_widens_list(cx: Context, expressions: List<Expression>)
    requires
        are_direct(cx, false, expressions),
    ensures
        are_direct(cx, true, expressions),
    decreases expressions,
{
    reveal(is_direct);
    reveal(are_direct);
    reveal(option_is_direct);
    reveal(kind_is_direct);
    reveal(fields_are_direct);
    if let List::Cons(first, rest) = expressions {
        lemma_widens(cx, first);
        lemma_widens_list(cx, copied(&*rest));
    }
}

proof fn lemma_widens_fields(cx: Context, fields: List<FieldInitializer>)
    requires
        fields_are_direct(cx, false, fields),
    ensures
        fields_are_direct(cx, true, fields),
    decreases fields,
{
    reveal(is_direct);
    reveal(are_direct);
    reveal(option_is_direct);
    reveal(kind_is_direct);
    reveal(fields_are_direct);
    if let List::Cons(first, rest) = fields {
        lemma_widens_option(cx, first.expression);
        lemma_widens_fields(cx, copied(&*rest));
    }
}

proof fn lemma_widens_option(cx: Context, expression: Option<Expression>)
    requires
        option_is_direct(cx, false, expression),
    ensures
        option_is_direct(cx, true, expression),
    decreases expression,
{
    reveal(is_direct);
    reveal(are_direct);
    reveal(option_is_direct);
    reveal(kind_is_direct);
    reveal(fields_are_direct);
    if let Some(value) = expression {
        lemma_widens(cx, value);
    }
}

proof fn lemma_widens_kind(cx: Context, interface: Type, kind: DynamicOpKind)
    requires
        kind_is_direct(cx, false, interface, kind),
    ensures
        kind_is_direct(cx, true, interface, kind),
    decreases kind,
{
    reveal(is_direct);
    reveal(are_direct);
    reveal(option_is_direct);
    reveal(kind_is_direct);
    reveal(fields_are_direct);
    match kind {
        DynamicOpKind::Call { arguments, .. } => {
            lemma_widens_list(cx, arguments);
        },
        _ => {},
    }
}

spec fn option_is_tailless(cx: Context, expression: Option<Expression>) -> bool {
    expression matches Some(value) ==> !expression_requires_tail_cps(cx, value)
}

/// A regular expression is lowered without continuations where nothing that follows it has to be
/// lowered together with it.
pub proof fn lemma_tailless(cx: Context, open: bool, expression: Expression)
    requires
        is_regular(cx, open, expression),
        !expression_requires_tail_cps(cx, expression),
    ensures
        is_direct(cx, false, expression),
    decreases expression,
{
    reveal(is_regular);
    reveal(are_regular);
    reveal(option_is_regular);
    reveal(kind_is_regular);
    reveal(fields_are_regular);
    reveal(is_direct);
    reveal(are_direct);
    reveal(option_is_direct);
    reveal(kind_is_direct);
    reveal(fields_are_direct);
    match expression {
        Expression::Array(input) => {
            lemma_tailless_list(cx, open, copied(&input.elements));
        },
        Expression::ArrayAccess(input) => {
            lemma_tailless(cx, open, copied(&input.array));
            lemma_tailless(cx, open, copied(&input.index));
        },
        Expression::Binary(input) => {
            lemma_tailless(cx, open, copied(&input.left));
            lemma_tailless(cx, open, copied(&input.right));
        },
        Expression::Call(input) => {
            lemma_tailless_list(cx, false, copied(&input.arguments));
        },
        Expression::Cast(input) => {
            lemma_tailless(cx, open, copied(&input.expression));
        },
        Expression::Composite(input) => {
            lemma_tailless_list(cx, open, copied(&input.const_arguments));
            lemma_tailless_fields(cx, open, copied(&input.members));
            lemma_tailless_option(cx, open, copied(&input.base));
        },
        Expression::DynamicOp(input) => {
            lemma_tailless(cx, true, copied(&input.target_program));
            lemma_tailless_option(cx, true, copied(&input.network));
            lemma_tailless_kind(cx, open, copied(&input.interface), copied(&input.kind));
        },
        Expression::Intrinsic(input) => {
            if takes_vector(input.op) {
                if let List::Cons(_, values) = &input.arguments {
                    assert(!any_requires_tail(cx, input.arguments));
                    lemma_tailless_list(cx, true, copied(&**values));
                    lemma_widens_list(cx, copied(&**values));
                }
            } else {
                lemma_tailless_list(cx, false, copied(&input.arguments));
            }
        },
        Expression::MemberAccess(input) => {
            lemma_tailless(cx, open, copied(&input.inner));
        },
        Expression::Repeat(input) => {
            lemma_tailless(cx, open, copied(&input.expr));
            lemma_tailless(cx, open, copied(&input.count));
        },
        Expression::Ternary(input) => {
            lemma_tailless(cx, open, copied(&input.condition));
            lemma_settled(cx, open, copied(&input.if_true));
            lemma_direct(cx, false, copied(&input.if_true));
            lemma_settled(cx, open, copied(&input.if_false));
            lemma_direct(cx, false, copied(&input.if_false));
        },
        Expression::Tuple(input) => {
            lemma_tailless_list(cx, open, copied(&input.elements));
        },
        Expression::TupleAccess(input) => {
            lemma_tailless(cx, open, copied(&input.tuple));
        },
        Expression::Unary(input) => {
            lemma_tailless(cx, open, copied(&input.receiver));
        },
        _ => {},
    }
}

pub proof fn lemma_tailless_list(cx: Context, open: bool, expressions: List<Expression>)
    requires
        are_regular(cx, open, expressions),
        !any_requires_tail(cx, expressions),
    ensures
        are_direct(cx, false, expressions),
    decreases expressions,
{
    reveal(is_regular);
    reveal(are_regular);
    reveal(option_is_regular);
    reveal(kind_is_regular);
    reveal(fields_are_regular);
    reveal(is_direct);
    reveal(are_direct);
    reveal(option_is_direct);
    reveal(kind_is_direct);
    reveal(fields_are_direct);
    if let List::Cons(first, rest) = expressions {
        lemma_tailless(cx, open, first);
        lemma_tailless_list(cx, open, copied(&*rest));
    }
}

proof fn lemma_tailless_fields(cx: Context, open: bool, fields: List<FieldInitializer>)
    requires
        fields_are_regular(cx, open, fields),
        !any_member_requires_tail(cx, fields),
    ensures
        fields_are_direct(cx, false, fields),
    decreases fields,
{
    reveal(is_regular);
    reveal(are_regular);
    reveal(option_is_regular);
    reveal(kind_is_regular);
    reveal(fields_are_regular);
    reveal(is_direct);
    reveal(are_direct);
    reveal(option_is_direct);
    reveal(kind_is_direct);
    reveal(fields_are_direct);
    if let List::Cons(first, rest) = fields {
        lemma_tailless_option(cx, open, first.expression);
        lemma_tailless_fields(cx, open, copied(&*rest));
    }
}

proof fn lemma_tailless_option(cx: Context, open: bool, expression: Option<Expression>)
    requires
        option_is_regular(cx, open, expression),
        option_is_tailless(cx, expression),
    ensures
        option_is_direct(cx, false, expression),
    decreases expression,
{
    reveal(is_regular);
    reveal(are_regular);
    reveal(option_is_regular);
    reveal(kind_is_regular);
    reveal(fields_are_regular);
    reveal(is_direct);
    reveal(are_direct);
    reveal(option_is_direct);
    reveal(kind_is_direct);
    reveal(fields_are_direct);
    if let Some(value) = expression {
        lemma_tailless(cx, open, value);
    }
}

proof fn lemma_tailless_kind(cx: Context, open: bool, interface: Type, kind: DynamicOpKind)
    requires
        kind_is_regular(cx, open, interface, kind),
        kind matches DynamicOpKind::Call { arguments, .. } && !any_requires_tail(cx, arguments),
    ensures
        kind_is_direct(cx, false, interface, kind),
    decreases kind,
{
    reveal(is_regular);
    reveal(are_regular);
    reveal(option_is_regular);
    reveal(kind_is_regular);
    reveal(fields_are_regular);
    reveal(is_direct);
    reveal(are_direct);
    reveal(option_is_direct);
    reveal(kind_is_direct);
    reveal(fields_are_direct);
    match kind {
        DynamicOpKind::Call { arguments, .. } => {
            lemma_tailless_list(cx, open, arguments);
        },
        _ => {},
    }
}

} // verus!
