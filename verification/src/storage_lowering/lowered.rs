//! What lowered trees hold.
use crate::ast::{
    ArrayAccess, ArrayExpression, AssertStatement, AssertVariant, AssignStatement, BinaryExpression,
    Block, CallExpression, CastExpression, CompositeExpression, ConditionalStatement,
    ConstDeclaration, DefinitionStatement, DynamicOpExpression, DynamicOpKind, Expression,
    ExpressionStatement, FieldInitializer, Intrinsic, IntrinsicExpression, IterationStatement,
    Literal, MemberAccess, Path, PathTarget, RepeatExpression, ReturnStatement, Statement,
    TernaryExpression, TupleAccess, TupleExpression, Type, UnaryExpression, UnitExpression,
};
use crate::list::{appended, copied, dropped, taken, List};
use crate::state::{global_in, Halt};
use crate::storage_lowering::dynamic::vector_of_member;
use crate::storage_lowering::emit::takes_vector;
use crate::storage_lowering::predicates::statement_requires_tail_cps;
use crate::storage_lowering::visitor::Context;
use std::rc::Rc;
use vstd::prelude::*;

verus! {

/* Expressions */

/// Whether `path` stands for a storage variable or a vector. Other items, and mappings, are none.
pub open spec fn names_storage(cx: Context, path: Path) -> bool {
    match path.target {
        PathTarget::Global(location) => match global_in(cx.table.globals, cx.program, *location) {
            None => false,
            Some(Some(Type::Mapping(_))) => false,
            Some(_) => true,
        },
        _ => false,
    }
}

/// Whether the first argument of `op` is a mapping of this program.
pub open spec fn takes_mapping(op: Intrinsic) -> bool {
    match op {
        Intrinsic::MappingGet => true,
        Intrinsic::MappingGetOrUse => true,
        Intrinsic::MappingContains => true,
        Intrinsic::MappingSet => true,
        Intrinsic::MappingRemove => true,
        _ => false,
    }
}

/// Whether `input` goes to no storage of another program: it does not read a storage variable, and
/// it is no operation on a vector.
pub open spec fn avoids_storage(cx: Context, input: DynamicOpExpression) -> bool {
    match input.kind {
        DynamicOpKind::Read { .. } => false,
        DynamicOpKind::Op { member, .. } => vector_of_member(cx, input.interface, member) == Ok::<
            Option<Type>,
            Halt,
        >(None),
        DynamicOpKind::Call { .. } => true,
    }
}

/// Whether `expression` neither reads a storage variable nor holds an operation on a vector. What
/// is known when a program is compiled is left aside: types, const arguments and counts of
/// repetitions.
#[verifier::opaque]
pub open spec fn is_lowered(cx: Context, expression: Expression) -> bool
    decreases expression,
{
    match expression {
        Expression::Array(input) => are_lowered(cx, input.elements),
        Expression::ArrayAccess(input) => is_lowered(cx, input.array)
            && is_lowered(cx, input.index),
        Expression::Binary(input) => is_lowered(cx, input.left) && is_lowered(cx, input.right),
        Expression::Call(input) => are_lowered(cx, input.arguments),
        Expression::Cast(input) => is_lowered(cx, input.expression),
        Expression::Composite(input) => {
            &&& fields_are_lowered(cx, input.members)
            &&& option_is_lowered(cx, input.base)
        },
        Expression::DynamicOp(input) => {
            &&& avoids_storage(cx, *input)
            &&& is_lowered(cx, input.target_program)
            &&& option_is_lowered(cx, input.network)
            &&& kind_is_lowered(cx, input.kind)
        },
        Expression::Intrinsic(input) => {
            &&& !takes_vector(input.op)
            &&& if takes_mapping(input.op) {
                behind_mapping_are_lowered(cx, input.arguments)
            } else {
                are_lowered(cx, input.arguments)
            }
        },
        Expression::MemberAccess(input) => is_lowered(cx, input.inner),
        Expression::Path(path) => !names_storage(cx, *path),
        Expression::Repeat(input) => is_lowered(cx, input.expr),
        Expression::Ternary(input) => {
            &&& is_lowered(cx, input.condition)
            &&& is_lowered(cx, input.if_true)
            &&& is_lowered(cx, input.if_false)
        },
        Expression::Tuple(input) => are_lowered(cx, input.elements),
        Expression::TupleAccess(input) => is_lowered(cx, input.tuple),
        Expression::Unary(input) => is_lowered(cx, input.receiver),
        _ => true,
    }
}

#[verifier::opaque]
pub open spec fn are_lowered(cx: Context, expressions: List<Expression>) -> bool
    decreases expressions,
{
    match expressions {
        List::Nil => true,
        List::Cons(first, rest) => is_lowered(cx, first) && are_lowered(cx, *rest),
    }
}

/// Whether the arguments of an operation on a mapping are lowered. The first one may name any
/// mapping.
#[verifier::opaque]
pub open spec fn behind_mapping_are_lowered(cx: Context, arguments: List<Expression>) -> bool
    decreases arguments,
{
    match arguments {
        List::Nil => true,
        List::Cons(mapping, rest) => {
            &&& mapping is Path || is_lowered(cx, mapping)
            &&& are_lowered(cx, *rest)
        },
    }
}

#[verifier::opaque]
pub open spec fn option_is_lowered(cx: Context, expression: Option<Expression>) -> bool
    decreases expression,
{
    match expression {
        None => true,
        Some(expression) => is_lowered(cx, expression),
    }
}

#[verifier::opaque]
pub open spec fn kind_is_lowered(cx: Context, kind: DynamicOpKind) -> bool
    decreases kind,
{
    match kind {
        DynamicOpKind::Read { .. } => true,
        DynamicOpKind::Op { arguments, .. } => are_lowered(cx, arguments),
        DynamicOpKind::Call { arguments, .. } => are_lowered(cx, arguments),
    }
}

#[verifier::opaque]
pub open spec fn fields_are_lowered(cx: Context, fields: List<FieldInitializer>) -> bool
    decreases fields,
{
    match fields {
        List::Nil => true,
        List::Cons(first, rest) => option_is_lowered(cx, first.expression) && fields_are_lowered(
            cx,
            *rest,
        ),
    }
}

/* Statements */

pub open spec fn assertion_is_lowered(cx: Context, variant: AssertVariant) -> bool {
    match variant {
        AssertVariant::Assert(expression) => is_lowered(cx, expression),
        AssertVariant::AssertEq(left, right) => is_lowered(cx, left) && is_lowered(cx, right),
        AssertVariant::AssertNeq(left, right) => is_lowered(cx, left) && is_lowered(cx, right),
    }
}

/// Whether all expressions in `statement` are lowered.
#[verifier::opaque]
pub open spec fn statement_is_lowered(cx: Context, statement: Statement) -> bool
    decreases statement,
{
    match statement {
        Statement::Assert(input) => assertion_is_lowered(cx, input.variant),
        Statement::Assign(input) => is_lowered(cx, input.place) && is_lowered(cx, input.value),
        Statement::Block(block) => statements_are_lowered(cx, block.statements),
        Statement::Conditional(input) => {
            &&& is_lowered(cx, input.condition)
            &&& statements_are_lowered(cx, input.then_block.statements)
            &&& otherwise_is_lowered(cx, input.otherwise)
        },
        Statement::Const(input) => is_lowered(cx, input.value),
        Statement::Definition(input) => is_lowered(cx, input.value),
        Statement::Expression(input) => is_lowered(cx, input.expression),
        Statement::Iteration(input) => {
            &&& is_lowered(cx, input.start)
            &&& is_lowered(cx, input.stop)
            &&& statements_are_lowered(cx, input.block.statements)
        },
        Statement::Return(input) => is_lowered(cx, input.expression),
    }
}

#[verifier::opaque]
pub open spec fn statements_are_lowered(cx: Context, statements: List<Statement>) -> bool
    decreases statements,
{
    match statements {
        List::Nil => true,
        List::Cons(first, rest) => statement_is_lowered(cx, first) && statements_are_lowered(
            cx,
            *rest,
        ),
    }
}

#[verifier::opaque]
pub open spec fn otherwise_is_lowered(cx: Context, statement: Option<Statement>) -> bool
    decreases statement,
{
    match statement {
        None => true,
        Some(statement) => statement_is_lowered(cx, statement),
    }
}

/* Places */

/// Whether what an assignment to `place` changes a part of is lowered.
pub open spec fn is_rooted(cx: Context, place: Expression) -> bool
    decreases place,
{
    match place {
        Expression::ArrayAccess(input) => is_rooted(cx, input.array),
        Expression::MemberAccess(input) => is_rooted(cx, input.inner),
        Expression::TupleAccess(input) => is_rooted(cx, input.tuple),
        _ => is_lowered(cx, place),
    }
}

/// Whether `statement`, if it is an assignment, is to a variable or to a part of a lowered value.
pub open spec fn has_sound_place(cx: Context, statement: Statement) -> bool {
    statement matches Statement::Assign(input) ==> input.place is Path || is_rooted(
        cx,
        input.place,
    )
}

/// Whether no assignment in `statement` that is lowered into branches is to a part of a storage
/// variable. An assignment to a whole storage variable is fine.
#[verifier::opaque]
pub open spec fn assigns_soundly(cx: Context, statement: Statement) -> bool
    decreases statement,
{
    match statement {
        Statement::Assign(_) => statement_requires_tail_cps(cx, statement) ==> has_sound_place(
            cx,
            statement,
        ),
        Statement::Block(block) => all_assign_soundly(cx, block.statements),
        Statement::Conditional(input) => {
            &&& all_assign_soundly(cx, input.then_block.statements)
            &&& otherwise_assigns_soundly(cx, input.otherwise)
        },
        Statement::Iteration(input) => all_assign_soundly(cx, input.block.statements),
        _ => true,
    }
}

#[verifier::opaque]
pub open spec fn all_assign_soundly(cx: Context, statements: List<Statement>) -> bool
    decreases statements,
{
    match statements {
        List::Nil => true,
        List::Cons(first, rest) => assigns_soundly(cx, first) && all_assign_soundly(cx, *rest),
    }
}

#[verifier::opaque]
pub open spec fn otherwise_assigns_soundly(cx: Context, statement: Option<Statement>) -> bool
    decreases statement,
{
    match statement {
        None => true,
        Some(statement) => assigns_soundly(cx, statement) && has_sound_place(cx, statement),
    }
}

/* What the definitions say of each kind of node */

pub broadcast proof fn lowered_array(cx: Context, input: ArrayExpression)
    ensures
        #[trigger] is_lowered(
            cx,
            Expression::Array(Rc::new(input)),
        ) == (are_lowered(cx, input.elements)),
{
    reveal(is_lowered);
    reveal(are_lowered);
    reveal(behind_mapping_are_lowered);
    reveal(option_is_lowered);
    reveal(kind_is_lowered);
    reveal(fields_are_lowered);
}

pub broadcast proof fn lowered_array_access(cx: Context, input: ArrayAccess)
    ensures
        #[trigger] is_lowered(cx, Expression::ArrayAccess(Rc::new(input))) == (
            is_lowered(cx, input.array) && is_lowered(cx, input.index)
        ),
{
    reveal(is_lowered);
    reveal(are_lowered);
    reveal(behind_mapping_are_lowered);
    reveal(option_is_lowered);
    reveal(kind_is_lowered);
    reveal(fields_are_lowered);
}

pub broadcast proof fn lowered_binary(cx: Context, input: BinaryExpression)
    ensures
        #[trigger] is_lowered(cx, Expression::Binary(Rc::new(input))) == (
            is_lowered(cx, input.left) && is_lowered(cx, input.right)
        ),
{
    reveal(is_lowered);
    reveal(are_lowered);
    reveal(behind_mapping_are_lowered);
    reveal(option_is_lowered);
    reveal(kind_is_lowered);
    reveal(fields_are_lowered);
}

pub broadcast proof fn lowered_call(cx: Context, input: CallExpression)
    ensures
        #[trigger] is_lowered(
            cx,
            Expression::Call(Rc::new(input)),
        ) == (are_lowered(cx, input.arguments)),
{
    reveal(is_lowered);
    reveal(are_lowered);
    reveal(behind_mapping_are_lowered);
    reveal(option_is_lowered);
    reveal(kind_is_lowered);
    reveal(fields_are_lowered);
}

pub broadcast proof fn lowered_cast(cx: Context, input: CastExpression)
    ensures
        #[trigger] is_lowered(
            cx,
            Expression::Cast(Rc::new(input)),
        ) == (is_lowered(cx, input.expression)),
{
    reveal(is_lowered);
    reveal(are_lowered);
    reveal(behind_mapping_are_lowered);
    reveal(option_is_lowered);
    reveal(kind_is_lowered);
    reveal(fields_are_lowered);
}

pub broadcast proof fn lowered_composite(cx: Context, input: CompositeExpression)
    ensures
        #[trigger] is_lowered(cx, Expression::Composite(Rc::new(input))) == (
            fields_are_lowered(cx, input.members) && option_is_lowered(cx, input.base)
        ),
{
    reveal(is_lowered);
    reveal(are_lowered);
    reveal(behind_mapping_are_lowered);
    reveal(option_is_lowered);
    reveal(kind_is_lowered);
    reveal(fields_are_lowered);
}

pub broadcast proof fn lowered_dynamic(cx: Context, input: DynamicOpExpression)
    ensures
        #[trigger] is_lowered(cx, Expression::DynamicOp(Rc::new(input))) == (
            avoids_storage(cx, input)
                && is_lowered(cx, input.target_program)
                && option_is_lowered(cx, input.network)
                && kind_is_lowered(cx, input.kind)
        ),
{
    reveal(is_lowered);
    reveal(are_lowered);
    reveal(behind_mapping_are_lowered);
    reveal(option_is_lowered);
    reveal(kind_is_lowered);
    reveal(fields_are_lowered);
}

pub broadcast proof fn lowered_intrinsic(cx: Context, input: IntrinsicExpression)
    ensures
        #[trigger] is_lowered(
            cx,
            Expression::Intrinsic(Rc::new(input)),
        ) == (!takes_vector(input.op) && if takes_mapping(input.op) {
            behind_mapping_are_lowered(cx, input.arguments)
        } else {
            are_lowered(cx, input.arguments)
        }),
{
    reveal(is_lowered);
    reveal(are_lowered);
    reveal(behind_mapping_are_lowered);
    reveal(option_is_lowered);
    reveal(kind_is_lowered);
    reveal(fields_are_lowered);
}

pub broadcast proof fn lowered_member_access(cx: Context, input: MemberAccess)
    ensures
        #[trigger] is_lowered(
            cx,
            Expression::MemberAccess(Rc::new(input)),
        ) == (is_lowered(cx, input.inner)),
{
    reveal(is_lowered);
    reveal(are_lowered);
    reveal(behind_mapping_are_lowered);
    reveal(option_is_lowered);
    reveal(kind_is_lowered);
    reveal(fields_are_lowered);
}

pub broadcast proof fn lowered_path(cx: Context, input: Path)
    ensures
        #[trigger] is_lowered(cx, Expression::Path(Rc::new(input))) == (!names_storage(cx, input)),
{
    reveal(is_lowered);
    reveal(are_lowered);
    reveal(behind_mapping_are_lowered);
    reveal(option_is_lowered);
    reveal(kind_is_lowered);
    reveal(fields_are_lowered);
}

pub broadcast proof fn lowered_repeat(cx: Context, input: RepeatExpression)
    ensures
        #[trigger] is_lowered(
            cx,
            Expression::Repeat(Rc::new(input)),
        ) == (is_lowered(cx, input.expr)),
{
    reveal(is_lowered);
    reveal(are_lowered);
    reveal(behind_mapping_are_lowered);
    reveal(option_is_lowered);
    reveal(kind_is_lowered);
    reveal(fields_are_lowered);
}

pub broadcast proof fn lowered_ternary(cx: Context, input: TernaryExpression)
    ensures
        #[trigger] is_lowered(cx, Expression::Ternary(Rc::new(input))) == (
            is_lowered(cx, input.condition)
                && is_lowered(cx, input.if_true)
                && is_lowered(cx, input.if_false)
        ),
{
    reveal(is_lowered);
    reveal(are_lowered);
    reveal(behind_mapping_are_lowered);
    reveal(option_is_lowered);
    reveal(kind_is_lowered);
    reveal(fields_are_lowered);
}

pub broadcast proof fn lowered_tuple(cx: Context, input: TupleExpression)
    ensures
        #[trigger] is_lowered(
            cx,
            Expression::Tuple(Rc::new(input)),
        ) == (are_lowered(cx, input.elements)),
{
    reveal(is_lowered);
    reveal(are_lowered);
    reveal(behind_mapping_are_lowered);
    reveal(option_is_lowered);
    reveal(kind_is_lowered);
    reveal(fields_are_lowered);
}

pub broadcast proof fn lowered_tuple_access(cx: Context, input: TupleAccess)
    ensures
        #[trigger] is_lowered(
            cx,
            Expression::TupleAccess(Rc::new(input)),
        ) == (is_lowered(cx, input.tuple)),
{
    reveal(is_lowered);
    reveal(are_lowered);
    reveal(behind_mapping_are_lowered);
    reveal(option_is_lowered);
    reveal(kind_is_lowered);
    reveal(fields_are_lowered);
}

pub broadcast proof fn lowered_unary(cx: Context, input: UnaryExpression)
    ensures
        #[trigger] is_lowered(
            cx,
            Expression::Unary(Rc::new(input)),
        ) == (is_lowered(cx, input.receiver)),
{
    reveal(is_lowered);
    reveal(are_lowered);
    reveal(behind_mapping_are_lowered);
    reveal(option_is_lowered);
    reveal(kind_is_lowered);
    reveal(fields_are_lowered);
}

pub broadcast proof fn lowered_literal(cx: Context, input: Literal)
    ensures
        #[trigger] is_lowered(cx, Expression::Literal(input)) == (true),
{
    reveal(is_lowered);
    reveal(are_lowered);
    reveal(behind_mapping_are_lowered);
    reveal(option_is_lowered);
    reveal(kind_is_lowered);
    reveal(fields_are_lowered);
}

pub broadcast proof fn lowered_unit(cx: Context, input: UnitExpression)
    ensures
        #[trigger] is_lowered(cx, Expression::Unit(input)) == (true),
{
    reveal(is_lowered);
    reveal(are_lowered);
    reveal(behind_mapping_are_lowered);
    reveal(option_is_lowered);
    reveal(kind_is_lowered);
    reveal(fields_are_lowered);
}

pub broadcast proof fn are_lowered_nil(cx: Context)
    ensures
        #[trigger] are_lowered(cx, List::Nil) == (true),
{
    reveal(is_lowered);
    reveal(are_lowered);
    reveal(behind_mapping_are_lowered);
    reveal(option_is_lowered);
    reveal(kind_is_lowered);
    reveal(fields_are_lowered);
}

pub broadcast proof fn are_lowered_cons(cx: Context, first: Expression, rest: List<Expression>)
    ensures
        #[trigger] are_lowered(cx, List::Cons(first, Rc::new(rest))) == (
            is_lowered(cx, first) && are_lowered(cx, rest)
        ),
{
    reveal(is_lowered);
    reveal(are_lowered);
    reveal(behind_mapping_are_lowered);
    reveal(option_is_lowered);
    reveal(kind_is_lowered);
    reveal(fields_are_lowered);
}

pub broadcast proof fn fields_are_lowered_nil(cx: Context)
    ensures
        #[trigger] fields_are_lowered(cx, List::Nil) == (true),
{
    reveal(is_lowered);
    reveal(are_lowered);
    reveal(behind_mapping_are_lowered);
    reveal(option_is_lowered);
    reveal(kind_is_lowered);
    reveal(fields_are_lowered);
}

pub broadcast proof fn fields_are_lowered_cons(
    cx: Context,
    first: FieldInitializer,
    rest: List<FieldInitializer>,
)
    ensures
        #[trigger] fields_are_lowered(cx, List::Cons(first, Rc::new(rest))) == (
            option_is_lowered(cx, first.expression) && fields_are_lowered(cx, rest)
        ),
{
    reveal(is_lowered);
    reveal(are_lowered);
    reveal(behind_mapping_are_lowered);
    reveal(option_is_lowered);
    reveal(kind_is_lowered);
    reveal(fields_are_lowered);
}

pub broadcast proof fn behind_mapping_cons(cx: Context, mapping: Expression, rest: List<Expression>)
    ensures
        #[trigger] behind_mapping_are_lowered(cx, List::Cons(mapping, Rc::new(rest))) == (
            (mapping is Path || is_lowered(cx, mapping)) && are_lowered(cx, rest)
        ),
{
    reveal(is_lowered);
    reveal(are_lowered);
    reveal(behind_mapping_are_lowered);
    reveal(option_is_lowered);
    reveal(kind_is_lowered);
    reveal(fields_are_lowered);
}

pub broadcast proof fn option_lowered_none(cx: Context)
    ensures
        #[trigger] option_is_lowered(cx, None) == (true),
{
    reveal(is_lowered);
    reveal(are_lowered);
    reveal(behind_mapping_are_lowered);
    reveal(option_is_lowered);
    reveal(kind_is_lowered);
    reveal(fields_are_lowered);
}

pub broadcast proof fn option_lowered_some(cx: Context, expression: Expression)
    ensures
        #[trigger] option_is_lowered(cx, Some(expression)) == (is_lowered(cx, expression)),
{
    reveal(is_lowered);
    reveal(are_lowered);
    reveal(behind_mapping_are_lowered);
    reveal(option_is_lowered);
    reveal(kind_is_lowered);
    reveal(fields_are_lowered);
}

pub broadcast proof fn lowered_assert_statement(cx: Context, input: AssertStatement)
    ensures
        #[trigger] statement_is_lowered(cx, Statement::Assert(Rc::new(input))) == (
            assertion_is_lowered(cx, input.variant)
        ),
{
    reveal(statement_is_lowered);
    reveal(statements_are_lowered);
    reveal(otherwise_is_lowered);
}

pub broadcast proof fn lowered_assign_statement(cx: Context, input: AssignStatement)
    ensures
        #[trigger] statement_is_lowered(cx, Statement::Assign(Rc::new(input))) == (
            is_lowered(cx, input.place) && is_lowered(cx, input.value)
        ),
{
    reveal(statement_is_lowered);
    reveal(statements_are_lowered);
    reveal(otherwise_is_lowered);
}

pub broadcast proof fn lowered_block_statement(cx: Context, input: Block)
    ensures
        #[trigger] statement_is_lowered(cx, Statement::Block(Rc::new(input))) == (
            statements_are_lowered(cx, input.statements)
        ),
{
    reveal(statement_is_lowered);
    reveal(statements_are_lowered);
    reveal(otherwise_is_lowered);
}

pub broadcast proof fn lowered_conditional_statement(cx: Context, input: ConditionalStatement)
    ensures
        #[trigger] statement_is_lowered(cx, Statement::Conditional(Rc::new(input))) == (
            is_lowered(cx, input.condition)
                && statements_are_lowered(cx, input.then_block.statements)
                && otherwise_is_lowered(cx, input.otherwise)
        ),
{
    reveal(statement_is_lowered);
    reveal(statements_are_lowered);
    reveal(otherwise_is_lowered);
}

pub broadcast proof fn lowered_const_statement(cx: Context, input: ConstDeclaration)
    ensures
        #[trigger] statement_is_lowered(
            cx,
            Statement::Const(Rc::new(input)),
        ) == (is_lowered(cx, input.value)),
{
    reveal(statement_is_lowered);
    reveal(statements_are_lowered);
    reveal(otherwise_is_lowered);
}

pub broadcast proof fn lowered_definition_statement(cx: Context, input: DefinitionStatement)
    ensures
        #[trigger] statement_is_lowered(
            cx,
            Statement::Definition(Rc::new(input)),
        ) == (is_lowered(cx, input.value)),
{
    reveal(statement_is_lowered);
    reveal(statements_are_lowered);
    reveal(otherwise_is_lowered);
}

pub broadcast proof fn lowered_expression_statement(cx: Context, input: ExpressionStatement)
    ensures
        #[trigger] statement_is_lowered(
            cx,
            Statement::Expression(Rc::new(input)),
        ) == (is_lowered(cx, input.expression)),
{
    reveal(statement_is_lowered);
    reveal(statements_are_lowered);
    reveal(otherwise_is_lowered);
}

pub broadcast proof fn lowered_iteration_statement(cx: Context, input: IterationStatement)
    ensures
        #[trigger] statement_is_lowered(cx, Statement::Iteration(Rc::new(input))) == (
            is_lowered(cx, input.start)
                && is_lowered(cx, input.stop)
                && statements_are_lowered(cx, input.block.statements)
        ),
{
    reveal(statement_is_lowered);
    reveal(statements_are_lowered);
    reveal(otherwise_is_lowered);
}

pub broadcast proof fn lowered_return_statement(cx: Context, input: ReturnStatement)
    ensures
        #[trigger] statement_is_lowered(
            cx,
            Statement::Return(Rc::new(input)),
        ) == (is_lowered(cx, input.expression)),
{
    reveal(statement_is_lowered);
    reveal(statements_are_lowered);
    reveal(otherwise_is_lowered);
}

pub broadcast proof fn statements_lowered_nil(cx: Context)
    ensures
        #[trigger] statements_are_lowered(cx, List::Nil) == (true),
{
    reveal(statement_is_lowered);
    reveal(statements_are_lowered);
    reveal(otherwise_is_lowered);
}

pub broadcast proof fn statements_lowered_cons(cx: Context, first: Statement, rest: List<Statement>)
    ensures
        #[trigger] statements_are_lowered(cx, List::Cons(first, Rc::new(rest))) == (
            statement_is_lowered(cx, first) && statements_are_lowered(cx, rest)
        ),
{
    reveal(statement_is_lowered);
    reveal(statements_are_lowered);
    reveal(otherwise_is_lowered);
}

pub broadcast proof fn otherwise_lowered_none(cx: Context)
    ensures
        #[trigger] otherwise_is_lowered(cx, None) == (true),
{
    reveal(statement_is_lowered);
    reveal(statements_are_lowered);
    reveal(otherwise_is_lowered);
}

pub broadcast proof fn otherwise_lowered_some(cx: Context, statement: Statement)
    ensures
        #[trigger] otherwise_is_lowered(cx, Some(statement)) == (
            statement_is_lowered(cx, statement)
        ),
{
    reveal(statement_is_lowered);
    reveal(statements_are_lowered);
    reveal(otherwise_is_lowered);
}

pub broadcast proof fn are_lowered_appended(
    cx: Context,
    first: List<Expression>,
    second: List<Expression>,
)
    ensures
        #[trigger] are_lowered(cx, appended(first, second)) == (
            are_lowered(cx, first) && are_lowered(cx, second)
        ),
    decreases first,
{
    reveal(are_lowered);
    match first {
        List::Nil => {},
        List::Cons(_, rest) => {
            are_lowered_appended(cx, copied(&*rest), second);
        },
    }
}

pub broadcast proof fn fields_lowered_appended(
    cx: Context,
    first: List<FieldInitializer>,
    second: List<FieldInitializer>,
)
    ensures
        #[trigger] fields_are_lowered(cx, appended(first, second)) == (
            fields_are_lowered(cx, first) && fields_are_lowered(cx, second)
        ),
    decreases first,
{
    reveal(fields_are_lowered);
    match first {
        List::Nil => {},
        List::Cons(_, rest) => {
            fields_lowered_appended(cx, copied(&*rest), second);
        },
    }
}

pub broadcast proof fn statements_lowered_appended(
    cx: Context,
    first: List<Statement>,
    second: List<Statement>,
)
    ensures
        #[trigger] statements_are_lowered(cx, appended(first, second)) == (
            statements_are_lowered(cx, first) && statements_are_lowered(cx, second)
        ),
    decreases first,
{
    reveal(statements_are_lowered);
    match first {
        List::Nil => {},
        List::Cons(_, rest) => {
            statements_lowered_appended(cx, copied(&*rest), second);
        },
    }
}

pub broadcast group group_lowered {
    lowered_array,
    lowered_array_access,
    lowered_binary,
    lowered_call,
    lowered_cast,
    lowered_composite,
    lowered_dynamic,
    lowered_intrinsic,
    lowered_member_access,
    lowered_path,
    lowered_repeat,
    lowered_ternary,
    lowered_tuple,
    lowered_tuple_access,
    lowered_unary,
    lowered_literal,
    lowered_unit,
    are_lowered_nil,
    are_lowered_cons,
    fields_are_lowered_nil,
    fields_are_lowered_cons,
    behind_mapping_cons,
    option_lowered_none,
    option_lowered_some,
    lowered_assert_statement,
    lowered_assign_statement,
    lowered_block_statement,
    lowered_conditional_statement,
    lowered_const_statement,
    lowered_definition_statement,
    lowered_expression_statement,
    lowered_iteration_statement,
    lowered_return_statement,
    statements_lowered_nil,
    statements_lowered_cons,
    otherwise_lowered_none,
    otherwise_lowered_some,
    are_lowered_appended,
    fields_lowered_appended,
    statements_lowered_appended,
}

/// What it takes for a statement to assign soundly.
pub proof fn lemma_sound(cx: Context, statement: Statement)
    ensures
        assigns_soundly(cx, statement) == match statement {
            Statement::Assign(_) => statement_requires_tail_cps(cx, statement) ==> has_sound_place(
                cx,
                statement,
            ),
            Statement::Block(block) => all_assign_soundly(cx, block.statements),
            Statement::Conditional(input) => {
                &&& all_assign_soundly(cx, input.then_block.statements)
                &&& otherwise_assigns_soundly(cx, input.otherwise)
            },
            Statement::Iteration(input) => all_assign_soundly(cx, input.block.statements),
            _ => true,
        },
{
    reveal(assigns_soundly);
    reveal(all_assign_soundly);
    reveal(otherwise_assigns_soundly);
}

pub proof fn lemma_sound_nil(cx: Context)
    ensures
        all_assign_soundly(cx, List::Nil),
{
    reveal(all_assign_soundly);
}

pub proof fn lemma_sound_list(cx: Context, first: Statement, rest: List<Statement>)
    ensures
        all_assign_soundly(cx, List::Cons(first, Rc::new(rest))) == (assigns_soundly(cx, first)
            && all_assign_soundly(cx, rest)),
{
    reveal(all_assign_soundly);
    reveal(assigns_soundly);
}

pub proof fn lemma_sound_otherwise(cx: Context, statement: Statement)
    ensures
        otherwise_assigns_soundly(cx, Some(statement)) == (assigns_soundly(cx, statement)
            && has_sound_place(cx, statement)),
{
    reveal(otherwise_assigns_soundly);
    reveal(assigns_soundly);
}

/// The first statements of a list assign soundly if all do, and so do the others.
pub proof fn lemma_sound_parts(cx: Context, statements: &List<Statement>, count: nat)
    requires
        all_assign_soundly(cx, *statements),
    ensures
        all_assign_soundly(cx, taken(*statements, count)),
        all_assign_soundly(cx, dropped(*statements, count)),
    decreases *statements,
{
    reveal(all_assign_soundly);
    match statements {
        List::Nil => {},
        List::Cons(_, rest) => {
            if count > 0 {
                lemma_sound_parts(cx, rest, (count - 1) as nat);
            }
        },
    }
}

} // verus!
