//! Which expressions and statements have to be lowered with a view to what follows them.
use crate::ast::{
    AssertVariant, DynamicOpKind, Expression, FieldInitializer, Intrinsic, Path, Statement, Type,
};
use crate::list::List;
use crate::state::global_in;
use crate::storage_lowering::visitor::{Context, StorageLoweringVisitor};
use vstd::prelude::*;

verus! {

/// Whether `op` reads or writes storage.
pub open spec fn is_storage_operation(op: Intrinsic) -> bool {
    !(op is Other)
}

/// Whether lowering `expression` may put statements in front of it: somewhere in it storage is
/// read or written, or another program is accessed.
pub open spec fn expression_may_emit_cps_statements(expression: Expression) -> bool
    decreases expression,
{
    match expression {
        Expression::Array(input) => any_may_emit(input.elements),
        Expression::ArrayAccess(input) => expression_may_emit_cps_statements(input.array)
            || expression_may_emit_cps_statements(input.index),
        Expression::Binary(input) => expression_may_emit_cps_statements(input.left)
            || expression_may_emit_cps_statements(input.right),
        Expression::Call(input) => any_may_emit(input.const_arguments) || any_may_emit(
            input.arguments,
        ),
        Expression::Cast(input) => expression_may_emit_cps_statements(input.expression),
        Expression::Composite(input) => any_may_emit(input.const_arguments) || any_member_may_emit(
            input.members,
        ) || (input.base matches Some(base) && expression_may_emit_cps_statements(base)),
        Expression::DynamicOp(_) => true,
        Expression::Intrinsic(input) => is_storage_operation(input.op) || any_may_emit(
            input.arguments,
        ),
        Expression::MemberAccess(input) => expression_may_emit_cps_statements(input.inner),
        Expression::Repeat(input) => expression_may_emit_cps_statements(input.expr)
            || expression_may_emit_cps_statements(input.count),
        Expression::Ternary(input) => expression_may_emit_cps_statements(input.condition)
            || expression_may_emit_cps_statements(input.if_true)
            || expression_may_emit_cps_statements(input.if_false),
        Expression::Tuple(input) => any_may_emit(input.elements),
        Expression::TupleAccess(input) => expression_may_emit_cps_statements(input.tuple),
        Expression::Unary(input) => expression_may_emit_cps_statements(input.receiver),
        _ => false,
    }
}

pub open spec fn any_may_emit(expressions: List<Expression>) -> bool
    decreases expressions,
{
    match expressions {
        List::Nil => false,
        List::Cons(first, rest) => expression_may_emit_cps_statements(first) || any_may_emit(*rest),
    }
}

pub open spec fn any_member_may_emit(members: List<FieldInitializer>) -> bool
    decreases members,
{
    match members {
        List::Nil => false,
        List::Cons(first, rest) => (first.expression matches Some(value)
            && expression_may_emit_cps_statements(value)) || any_member_may_emit(*rest),
    }
}

/// Whether `expression` is lowered to branches: somewhere in it a vector is popped or read at an
/// index, storage of another program is accessed, or an arm of a ternary may emit statements.
pub open spec fn expression_requires_branch_cps(expression: Expression) -> bool
    decreases expression,
{
    match expression {
        Expression::Array(input) => any_requires_branch(input.elements),
        Expression::ArrayAccess(input) => expression_requires_branch_cps(input.array)
            || expression_requires_branch_cps(input.index),
        Expression::Binary(input) => expression_requires_branch_cps(input.left)
            || expression_requires_branch_cps(input.right),
        Expression::Call(input) => any_requires_branch(input.const_arguments)
            || any_requires_branch(input.arguments),
        Expression::Cast(input) => expression_requires_branch_cps(input.expression),
        Expression::Composite(input) => any_requires_branch(input.const_arguments)
            || any_member_requires_branch(input.members) || (input.base matches Some(base)
            && expression_requires_branch_cps(base)),
        Expression::DynamicOp(input) => {
            ||| expression_requires_branch_cps(input.target_program)
            ||| (input.network matches Some(network) && expression_requires_branch_cps(network))
            ||| match input.kind {
                DynamicOpKind::Read { .. } => true,
                DynamicOpKind::Op { .. } => true,
                DynamicOpKind::Call { arguments, .. } => any_requires_branch(arguments),
            }
        },
        Expression::Intrinsic(input) => any_requires_branch(input.arguments)
            || input.op is VectorPop || input.op is VectorGet,
        Expression::MemberAccess(input) => expression_requires_branch_cps(input.inner),
        Expression::Repeat(input) => expression_requires_branch_cps(input.expr)
            || expression_requires_branch_cps(input.count),
        Expression::Ternary(input) => expression_requires_branch_cps(input.condition)
            || expression_may_emit_cps_statements(input.if_true)
            || expression_may_emit_cps_statements(input.if_false),
        Expression::Tuple(input) => any_requires_branch(input.elements),
        Expression::TupleAccess(input) => expression_requires_branch_cps(input.tuple),
        Expression::Unary(input) => expression_requires_branch_cps(input.receiver),
        _ => false,
    }
}

pub open spec fn any_requires_branch(expressions: List<Expression>) -> bool
    decreases expressions,
{
    match expressions {
        List::Nil => false,
        List::Cons(first, rest) => expression_requires_branch_cps(first) || any_requires_branch(
            *rest,
        ),
    }
}

pub open spec fn any_member_requires_branch(members: List<FieldInitializer>) -> bool
    decreases members,
{
    match members {
        List::Nil => false,
        List::Cons(first, rest) => (first.expression matches Some(value)
            && expression_requires_branch_cps(value)) || any_member_requires_branch(*rest),
    }
}

/// Whether `path` stands for a storage variable: it is then lowered to a ternary.
pub open spec fn path_reconstructs_to_branch_cps(cx: Context, path: Path) -> bool {
    match path.spec_try_global_location() {
        None => false,
        Some(location) => match global_in(cx.table.globals, cx.program, location) {
            Some(Some(Type::Optional(_))) => true,
            _ => false,
        },
    }
}

/// Whether a storage variable is read somewhere in `expression`.
pub open spec fn expression_reconstructs_to_branch_cps(cx: Context, expression: Expression) -> bool
    decreases expression,
{
    match expression {
        Expression::Array(input) => any_reconstructs(cx, input.elements),
        Expression::ArrayAccess(input) => expression_reconstructs_to_branch_cps(cx, input.array)
            || expression_reconstructs_to_branch_cps(cx, input.index),
        Expression::Binary(input) => expression_reconstructs_to_branch_cps(cx, input.left)
            || expression_reconstructs_to_branch_cps(cx, input.right),
        Expression::Call(input) => any_reconstructs(cx, input.const_arguments) || any_reconstructs(
            cx,
            input.arguments,
        ),
        Expression::Cast(input) => expression_reconstructs_to_branch_cps(cx, input.expression),
        Expression::Composite(input) => any_reconstructs(cx, input.const_arguments)
            || any_member_reconstructs(cx, input.members) || (input.base matches Some(base)
            && expression_reconstructs_to_branch_cps(cx, base)),
        Expression::DynamicOp(input) => {
            ||| expression_reconstructs_to_branch_cps(cx, input.target_program)
            ||| (input.network matches Some(network) && expression_reconstructs_to_branch_cps(
                cx,
                network,
            ))
            ||| match input.kind {
                DynamicOpKind::Read { .. } => false,
                DynamicOpKind::Op { .. } => false,
                DynamicOpKind::Call { arguments, .. } => any_reconstructs(cx, arguments),
            }
        },
        Expression::Intrinsic(input) => any_reconstructs(cx, input.arguments),
        Expression::MemberAccess(input) => expression_reconstructs_to_branch_cps(cx, input.inner),
        Expression::Path(path) => path_reconstructs_to_branch_cps(cx, *path),
        Expression::Repeat(input) => expression_reconstructs_to_branch_cps(cx, input.expr)
            || expression_reconstructs_to_branch_cps(cx, input.count),
        Expression::Ternary(input) => expression_reconstructs_to_branch_cps(cx, input.condition)
            || expression_reconstructs_to_branch_cps(cx, input.if_true)
            || expression_reconstructs_to_branch_cps(cx, input.if_false),
        Expression::Tuple(input) => any_reconstructs(cx, input.elements),
        Expression::TupleAccess(input) => expression_reconstructs_to_branch_cps(cx, input.tuple),
        Expression::Unary(input) => expression_reconstructs_to_branch_cps(cx, input.receiver),
        _ => false,
    }
}

pub open spec fn any_reconstructs(cx: Context, expressions: List<Expression>) -> bool
    decreases expressions,
{
    match expressions {
        List::Nil => false,
        List::Cons(first, rest) => expression_reconstructs_to_branch_cps(cx, first)
            || any_reconstructs(cx, *rest),
    }
}

pub open spec fn any_member_reconstructs(cx: Context, members: List<FieldInitializer>) -> bool
    decreases members,
{
    match members {
        List::Nil => false,
        List::Cons(first, rest) => (first.expression matches Some(value)
            && expression_reconstructs_to_branch_cps(cx, value)) || any_member_reconstructs(
            cx,
            *rest,
        ),
    }
}

/// Whether lowering `expression` may put statements in front of it, now or once the storage
/// variables in it have been lowered.
pub open spec fn expression_may_emit_after_reconstruction(
    cx: Context,
    expression: Expression,
) -> bool {
    expression_may_emit_cps_statements(expression) || expression_reconstructs_to_branch_cps(
        cx,
        expression,
    )
}

pub open spec fn any_may_emit_after(cx: Context, expressions: List<Expression>) -> bool
    decreases expressions,
{
    match expressions {
        List::Nil => false,
        List::Cons(first, rest) => expression_may_emit_after_reconstruction(cx, first)
            || any_may_emit_after(cx, *rest),
    }
}

/// Whether the statements that follow `expression` have to be lowered inside the branches that it
/// is lowered to.
pub open spec fn expression_requires_tail_cps(cx: Context, expression: Expression) -> bool
    decreases expression,
{
    match expression {
        Expression::Array(input) => any_requires_tail(cx, input.elements),
        Expression::ArrayAccess(input) => expression_requires_tail_cps(cx, input.array)
            || expression_requires_tail_cps(cx, input.index),
        Expression::Binary(input) => expression_requires_tail_cps(cx, input.left)
            || expression_requires_tail_cps(cx, input.right),
        Expression::Call(input) => any_requires_tail(cx, input.const_arguments)
            || any_requires_tail(cx, input.arguments),
        Expression::Cast(input) => expression_requires_tail_cps(cx, input.expression),
        Expression::Composite(input) => any_requires_tail(cx, input.const_arguments)
            || any_member_requires_tail(cx, input.members) || (input.base matches Some(base)
            && expression_requires_tail_cps(cx, base)),
        Expression::DynamicOp(input) => {
            ||| expression_requires_tail_cps(cx, input.target_program)
            ||| (input.network matches Some(network) && expression_requires_tail_cps(cx, network))
            ||| match input.kind {
                DynamicOpKind::Read { .. } => true,
                DynamicOpKind::Op { .. } => true,
                DynamicOpKind::Call { arguments, .. } => any_requires_tail(cx, arguments),
            }
        },
        Expression::Intrinsic(input) => expression_requires_branch_cps(expression)
            || any_requires_tail(cx, input.arguments),
        Expression::MemberAccess(input) => expression_requires_tail_cps(cx, input.inner),
        Expression::Repeat(input) => expression_requires_tail_cps(cx, input.expr)
            || expression_requires_tail_cps(cx, input.count),
        Expression::Ternary(input) => expression_requires_tail_cps(cx, input.condition)
            || expression_may_emit_after_reconstruction(cx, input.if_true)
            || expression_may_emit_after_reconstruction(cx, input.if_false),
        Expression::Tuple(input) => any_requires_tail(cx, input.elements),
        Expression::TupleAccess(input) => expression_requires_tail_cps(cx, input.tuple),
        Expression::Unary(input) => expression_requires_tail_cps(cx, input.receiver),
        _ => expression_requires_branch_cps(expression),
    }
}

pub open spec fn any_requires_tail(cx: Context, expressions: List<Expression>) -> bool
    decreases expressions,
{
    match expressions {
        List::Nil => false,
        List::Cons(first, rest) => expression_requires_tail_cps(cx, first) || any_requires_tail(
            cx,
            *rest,
        ),
    }
}

pub open spec fn any_member_requires_tail(cx: Context, members: List<FieldInitializer>) -> bool
    decreases members,
{
    match members {
        List::Nil => false,
        List::Cons(first, rest) => (first.expression matches Some(value)
            && expression_requires_tail_cps(cx, value)) || any_member_requires_tail(cx, *rest),
    }
}

/// Whether the statements that follow `statement` have to be lowered together with it. A block
/// deals with what is in it alone.
pub open spec fn statement_requires_tail_cps(cx: Context, statement: Statement) -> bool {
    match statement {
        Statement::Assert(input) => match input.variant {
            AssertVariant::Assert(expression) => expression_requires_tail_cps(cx, expression),
            AssertVariant::AssertEq(left, right) => expression_requires_tail_cps(cx, left)
                || expression_requires_tail_cps(cx, right),
            AssertVariant::AssertNeq(left, right) => expression_requires_tail_cps(cx, left)
                || expression_requires_tail_cps(cx, right),
        },
        Statement::Assign(input) => expression_requires_tail_cps(cx, input.place)
            || expression_requires_tail_cps(cx, input.value),
        Statement::Block(_) => false,
        Statement::Conditional(input) => expression_requires_tail_cps(cx, input.condition),
        Statement::Const(input) => expression_requires_tail_cps(cx, input.value),
        Statement::Definition(input) => expression_requires_tail_cps(cx, input.value),
        Statement::Expression(input) => expression_requires_tail_cps(cx, input.expression),
        Statement::Iteration(input) => expression_requires_tail_cps(cx, input.start)
            || expression_requires_tail_cps(cx, input.stop),
        Statement::Return(input) => expression_requires_tail_cps(cx, input.expression),
    }
}

impl StorageLoweringVisitor {
    /// Whether lowering `expression` may put statements in front of it.
    pub fn expression_may_emit_cps_statements(expression: &Expression) -> (r: bool)
        ensures
            r == expression_may_emit_cps_statements(*expression),
        decreases *expression,
    {
        match expression {
            Expression::Array(input) => Self::any_may_emit_in(&input.elements),
            Expression::ArrayAccess(input) => Self::expression_may_emit_cps_statements(&input.array)
                || Self::expression_may_emit_cps_statements(&input.index),
            Expression::Binary(input) => Self::expression_may_emit_cps_statements(&input.left)
                || Self::expression_may_emit_cps_statements(&input.right),
            Expression::Call(input) => Self::any_may_emit_in(&input.const_arguments)
                || Self::any_may_emit_in(&input.arguments),
            Expression::Cast(input) => Self::expression_may_emit_cps_statements(&input.expression),
            Expression::Composite(input) => {
                Self::any_may_emit_in(&input.const_arguments)
                    || Self::any_member_may_emit_in(&input.members)
                    || match &input.base {
                    Some(base) => Self::expression_may_emit_cps_statements(base),
                    None => false,
                }
            },
            Expression::DynamicOp(_) => true,
            Expression::Intrinsic(input) => {
 !matches!(input.op, Intrinsic::Other(_)) || Self::any_may_emit_in(&input.arguments)
 },
            Expression::MemberAccess(input) => Self::expression_may_emit_cps_statements(
                &input.inner,
            ),
            Expression::Repeat(input) => Self::expression_may_emit_cps_statements(&input.expr)
                || Self::expression_may_emit_cps_statements(&input.count),
            Expression::Ternary(input) => Self::expression_may_emit_cps_statements(&input.condition)
                || Self::expression_may_emit_cps_statements(&input.if_true)
                || Self::expression_may_emit_cps_statements(&input.if_false),
            Expression::Tuple(input) => Self::any_may_emit_in(&input.elements),
            Expression::TupleAccess(input) => Self::expression_may_emit_cps_statements(
                &input.tuple,
            ),
            Expression::Unary(input) => Self::expression_may_emit_cps_statements(&input.receiver),
            _ => false,
        }
    }

    fn any_may_emit_in(expressions: &List<Expression>) -> (r: bool)
        ensures
            r == any_may_emit(*expressions),
        decreases *expressions,
    {
        match expressions {
            List::Nil => false,
            List::Cons(first, rest) => Self::expression_may_emit_cps_statements(first)
                || Self::any_may_emit_in(rest),
        }
    }

    fn any_member_may_emit_in(members: &List<FieldInitializer>) -> (r: bool)
        ensures
            r == any_member_may_emit(*members),
        decreases *members,
    {
        match members {
            List::Nil => false,
            List::Cons(first, rest) => {
                let here = match &first.expression {
                    Some(value) => Self::expression_may_emit_cps_statements(value),
                    None => false,
                };
                here || Self::any_member_may_emit_in(rest)
            },
        }
    }

    /// Whether `expression` is lowered to branches.
    pub fn expression_requires_branch_cps(expression: &Expression) -> (r: bool)
        ensures
            r == expression_requires_branch_cps(*expression),
        decreases *expression,
    {
        match expression {
            Expression::Array(input) => Self::any_requires_branch_in(&input.elements),
            Expression::ArrayAccess(input) => Self::expression_requires_branch_cps(&input.array)
                || Self::expression_requires_branch_cps(&input.index),
            Expression::Binary(input) => Self::expression_requires_branch_cps(&input.left)
                || Self::expression_requires_branch_cps(&input.right),
            Expression::Call(input) => Self::any_requires_branch_in(&input.const_arguments)
                || Self::any_requires_branch_in(&input.arguments),
            Expression::Cast(input) => Self::expression_requires_branch_cps(&input.expression),
            Expression::Composite(input) => {
                Self::any_requires_branch_in(&input.const_arguments)
                    || Self::any_member_requires_branch_in(&input.members)
                    || match &input.base {
                    Some(base) => Self::expression_requires_branch_cps(base),
                    None => false,
                }
            },
            Expression::DynamicOp(input) => {
                Self::expression_requires_branch_cps(&input.target_program)
                    || match &input.network {
                    Some(network) => Self::expression_requires_branch_cps(network),
                    None => false,
                } || match &input.kind {
                    DynamicOpKind::Read { .. } => true,
                    DynamicOpKind::Op { .. } => true,
                    DynamicOpKind::Call { arguments, .. } => Self::any_requires_branch_in(
                        arguments,
                    ),
                }
            },
            Expression::Intrinsic(input) => {
 Self::any_requires_branch_in(&input.arguments)
     || matches!(input.op, Intrinsic::VectorPop | Intrinsic::VectorGet)
 },
            Expression::MemberAccess(input) => Self::expression_requires_branch_cps(&input.inner),
            Expression::Repeat(input) => Self::expression_requires_branch_cps(&input.expr)
                || Self::expression_requires_branch_cps(&input.count),
            Expression::Ternary(input) => Self::expression_requires_branch_cps(&input.condition)
                || Self::expression_may_emit_cps_statements(&input.if_true)
                || Self::expression_may_emit_cps_statements(&input.if_false),
            Expression::Tuple(input) => Self::any_requires_branch_in(&input.elements),
            Expression::TupleAccess(input) => Self::expression_requires_branch_cps(&input.tuple),
            Expression::Unary(input) => Self::expression_requires_branch_cps(&input.receiver),
            _ => false,
        }
    }

    fn any_requires_branch_in(expressions: &List<Expression>) -> (r: bool)
        ensures
            r == any_requires_branch(*expressions),
        decreases *expressions,
    {
        match expressions {
            List::Nil => false,
            List::Cons(first, rest) => Self::expression_requires_branch_cps(first)
                || Self::any_requires_branch_in(rest),
        }
    }

    fn any_member_requires_branch_in(members: &List<FieldInitializer>) -> (r: bool)
        ensures
            r == any_member_requires_branch(*members),
        decreases *members,
    {
        match members {
            List::Nil => false,
            List::Cons(first, rest) => {
                let here = match &first.expression {
                    Some(value) => Self::expression_requires_branch_cps(value),
                    None => false,
                };
                here || Self::any_member_requires_branch_in(rest)
            },
        }
    }

    /// Whether `path` stands for a storage variable.
    pub fn path_reconstructs_to_branch_cps(&self, path: &Path) -> (r: bool)
        ensures
            r == path_reconstructs_to_branch_cps(self.cx(), *path),
    {
        match path.try_global_location() {
            None => false,
            Some(location) => match self.state.symbol_table.lookup_global(self.program, location) {
                Some(Some(Type::Optional(_))) => true,
                _ => false,
            },
        }
    }

    /// Whether a storage variable is read somewhere in `expression`.
    pub fn expression_reconstructs_to_branch_cps(&self, expression: &Expression) -> (r: bool)
        ensures
            r == expression_reconstructs_to_branch_cps(self.cx(), *expression),
        decreases *expression,
    {
        match expression {
            Expression::Array(input) => self.any_reconstructs_in(&input.elements),
            Expression::ArrayAccess(input) => self.expression_reconstructs_to_branch_cps(
                &input.array,
            )
                || self.expression_reconstructs_to_branch_cps(&input.index),
            Expression::Binary(input) => self.expression_reconstructs_to_branch_cps(&input.left)
                || self.expression_reconstructs_to_branch_cps(&input.right),
            Expression::Call(input) => self.any_reconstructs_in(&input.const_arguments)
                || self.any_reconstructs_in(&input.arguments),
            Expression::Cast(input) => self.expression_reconstructs_to_branch_cps(
                &input.expression,
            ),
            Expression::Composite(input) => {
                self.any_reconstructs_in(&input.const_arguments)
                    || self.any_member_reconstructs_in(&input.members)
                    || match &input.base {
                    Some(base) => self.expression_reconstructs_to_branch_cps(base),
                    None => false,
                }
            },
            Expression::DynamicOp(input) => {
                self.expression_reconstructs_to_branch_cps(&input.target_program)
                    || match &input.network {
                    Some(network) => self.expression_reconstructs_to_branch_cps(network),
                    None => false,
                } || match &input.kind {
                    DynamicOpKind::Read { .. } => false,
                    DynamicOpKind::Op { .. } => false,
                    DynamicOpKind::Call { arguments, .. } => self.any_reconstructs_in(arguments),
                }
            },
            Expression::Intrinsic(input) => self.any_reconstructs_in(&input.arguments),
            Expression::MemberAccess(input) => self.expression_reconstructs_to_branch_cps(
                &input.inner,
            ),
            Expression::Path(path) => self.path_reconstructs_to_branch_cps(path),
            Expression::Repeat(input) => self.expression_reconstructs_to_branch_cps(&input.expr)
                || self.expression_reconstructs_to_branch_cps(&input.count),
            Expression::Ternary(input) => self.expression_reconstructs_to_branch_cps(
                &input.condition,
            )
                || self.expression_reconstructs_to_branch_cps(&input.if_true)
                || self.expression_reconstructs_to_branch_cps(&input.if_false),
            Expression::Tuple(input) => self.any_reconstructs_in(&input.elements),
            Expression::TupleAccess(input) => self.expression_reconstructs_to_branch_cps(
                &input.tuple,
            ),
            Expression::Unary(input) => self.expression_reconstructs_to_branch_cps(&input.receiver),
            _ => false,
        }
    }

    fn any_reconstructs_in(&self, expressions: &List<Expression>) -> (r: bool)
        ensures
            r == any_reconstructs(self.cx(), *expressions),
        decreases *expressions,
    {
        match expressions {
            List::Nil => false,
            List::Cons(first, rest) => self.expression_reconstructs_to_branch_cps(first)
                || self.any_reconstructs_in(rest),
        }
    }

    fn any_member_reconstructs_in(&self, members: &List<FieldInitializer>) -> (r: bool)
        ensures
            r == any_member_reconstructs(self.cx(), *members),
        decreases *members,
    {
        match members {
            List::Nil => false,
            List::Cons(first, rest) => {
                let here = match &first.expression {
                    Some(value) => self.expression_reconstructs_to_branch_cps(value),
                    None => false,
                };
                here || self.any_member_reconstructs_in(rest)
            },
        }
    }

    /// Whether lowering `expression` may put statements in front of it, now or once the storage
    /// variables in it have been lowered.
    pub fn expression_may_emit_after_reconstruction(&self, expression: &Expression) -> (r: bool)
        ensures
            r == expression_may_emit_after_reconstruction(self.cx(), *expression),
    {
        Self::expression_may_emit_cps_statements(expression)
            || self.expression_reconstructs_to_branch_cps(expression)
    }

    pub(crate) fn any_may_emit_after_in(&self, expressions: &List<Expression>) -> (r: bool)
        ensures
            r == any_may_emit_after(self.cx(), *expressions),
        decreases *expressions,
    {
        match expressions {
            List::Nil => false,
            List::Cons(first, rest) => self.expression_may_emit_after_reconstruction(first)
                || self.any_may_emit_after_in(rest),
        }
    }

    /// Whether the statements that follow `expression` have to be lowered inside its branches.
    pub fn expression_requires_tail_cps(&self, expression: &Expression) -> (r: bool)
        ensures
            r == expression_requires_tail_cps(self.cx(), *expression),
        decreases *expression,
    {
        match expression {
            Expression::Array(input) => self.any_requires_tail_in(&input.elements),
            Expression::ArrayAccess(input) => self.expression_requires_tail_cps(&input.array)
                || self.expression_requires_tail_cps(&input.index),
            Expression::Binary(input) => self.expression_requires_tail_cps(&input.left)
                || self.expression_requires_tail_cps(&input.right),
            Expression::Call(input) => self.any_requires_tail_in(&input.const_arguments)
                || self.any_requires_tail_in(&input.arguments),
            Expression::Cast(input) => self.expression_requires_tail_cps(&input.expression),
            Expression::Composite(input) => {
                self.any_requires_tail_in(&input.const_arguments)
                    || self.any_member_requires_tail_in(&input.members)
                    || match &input.base {
                    Some(base) => self.expression_requires_tail_cps(base),
                    None => false,
                }
            },
            Expression::DynamicOp(input) => {
                self.expression_requires_tail_cps(&input.target_program) || match &input.network {
                    Some(network) => self.expression_requires_tail_cps(network),
                    None => false,
                } || match &input.kind {
                    DynamicOpKind::Read { .. } => true,
                    DynamicOpKind::Op { .. } => true,
                    DynamicOpKind::Call { arguments, .. } => self.any_requires_tail_in(arguments),
                }
            },
            Expression::Intrinsic(input) => {
 Self::expression_requires_branch_cps(expression) || self.any_requires_tail_in(&input.arguments)
 },
            Expression::MemberAccess(input) => self.expression_requires_tail_cps(&input.inner),
            Expression::Repeat(input) => self.expression_requires_tail_cps(&input.expr)
                || self.expression_requires_tail_cps(&input.count),
            Expression::Ternary(input) => self.expression_requires_tail_cps(&input.condition)
                || self.expression_may_emit_after_reconstruction(&input.if_true)
                || self.expression_may_emit_after_reconstruction(&input.if_false),
            Expression::Tuple(input) => self.any_requires_tail_in(&input.elements),
            Expression::TupleAccess(input) => self.expression_requires_tail_cps(&input.tuple),
            Expression::Unary(input) => self.expression_requires_tail_cps(&input.receiver),
            _ => Self::expression_requires_branch_cps(expression),
        }
    }

    fn any_requires_tail_in(&self, expressions: &List<Expression>) -> (r: bool)
        ensures
            r == any_requires_tail(self.cx(), *expressions),
        decreases *expressions,
    {
        match expressions {
            List::Nil => false,
            List::Cons(first, rest) => self.expression_requires_tail_cps(first)
                || self.any_requires_tail_in(rest),
        }
    }

    fn any_member_requires_tail_in(&self, members: &List<FieldInitializer>) -> (r: bool)
        ensures
            r == any_member_requires_tail(self.cx(), *members),
        decreases *members,
    {
        match members {
            List::Nil => false,
            List::Cons(first, rest) => {
                let here = match &first.expression {
                    Some(value) => self.expression_requires_tail_cps(value),
                    None => false,
                };
                here || self.any_member_requires_tail_in(rest)
            },
        }
    }

    /// Whether the statements that follow `statement` have to be lowered together with it.
    pub fn statement_requires_tail_cps(&self, statement: &Statement) -> (r: bool)
        ensures
            r == statement_requires_tail_cps(self.cx(), *statement),
    {
        match statement {
            Statement::Assert(input) => match &input.variant {
                AssertVariant::Assert(expression) => self.expression_requires_tail_cps(expression),
                AssertVariant::AssertEq(left, right) | AssertVariant::AssertNeq(left, right) => {
                    self.expression_requires_tail_cps(left) || self.expression_requires_tail_cps(
                        right,
                    )
                },
            },
            Statement::Assign(input) => self.expression_requires_tail_cps(&input.place)
                || self.expression_requires_tail_cps(&input.value),
            Statement::Block(_) => false,
            Statement::Conditional(input) => self.expression_requires_tail_cps(&input.condition),
            Statement::Const(input) => self.expression_requires_tail_cps(&input.value),
            Statement::Definition(input) => self.expression_requires_tail_cps(&input.value),
            Statement::Expression(input) => self.expression_requires_tail_cps(&input.expression),
            Statement::Iteration(input) => self.expression_requires_tail_cps(&input.start)
                || self.expression_requires_tail_cps(&input.stop),
            Statement::Return(input) => self.expression_requires_tail_cps(&input.expression),
        }
    }
}

} // verus!
