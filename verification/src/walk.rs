//! The variables that a tree mentions, in the order in which they are written.
use crate::ast::{
    AssertVariant, Block, DynamicOpKind, Expression, FieldInitializer, ModedType, Path, Statement,
    Type, TypeParameter,
};
use crate::list::List;
use std::rc::Rc;
use vstd::prelude::*;

verus! {

/// The paths to values in a tree. The names of functions and of types are not among them.
pub type Paths = Seq<Rc<Path>>;

/// The paths in an expression.
#[verifier::opaque]
pub open spec fn expression_paths(expression: Expression) -> Paths
    decreases expression,
{
    match expression {
        Expression::Array(input) => expressions_paths(input.elements),
        Expression::ArrayAccess(input) => expression_paths(input.array)
            + expression_paths(input.index),
        Expression::Binary(input) => expression_paths(input.left) + expression_paths(input.right),
        Expression::Call(input) => expressions_paths(input.const_arguments)
            + expressions_paths(input.arguments),
        Expression::Cast(input) => type_paths(input.type_) + expression_paths(input.expression),
        Expression::Composite(input) => expressions_paths(input.const_arguments)
            + members_paths(input.members)
            + optional_paths(input.base),
        Expression::DynamicOp(input) => type_paths(input.interface)
            + expression_paths(input.target_program)
            + optional_paths(input.network)
            + kind_paths(input.kind),
        Expression::Intrinsic(input) => type_parameters_paths(input.type_parameters)
            + moded_types_paths(input.input_types)
            + moded_types_paths(input.return_types)
            + expressions_paths(input.arguments),
        Expression::MemberAccess(input) => expression_paths(input.inner),
        Expression::Path(path) => seq![path],
        Expression::Repeat(input) => expression_paths(input.expr) + expression_paths(input.count),
        Expression::Ternary(input) => expression_paths(input.condition)
            + expression_paths(input.if_true)
            + expression_paths(input.if_false),
        Expression::Tuple(input) => expressions_paths(input.elements),
        Expression::TupleAccess(input) => expression_paths(input.tuple),
        Expression::Unary(input) => expression_paths(input.receiver),
        _ => Seq::empty(),
    }
}

#[verifier::opaque]
pub open spec fn expressions_paths(expressions: List<Expression>) -> Paths
    decreases expressions,
{
    match expressions {
        List::Nil => Seq::empty(),
        List::Cons(first, rest) => expression_paths(first) + expressions_paths(*rest),
    }
}

#[verifier::opaque]
pub open spec fn optional_paths(expression: Option<Expression>) -> Paths
    decreases expression,
{
    match expression {
        None => Seq::empty(),
        Some(expression) => expression_paths(expression),
    }
}

/// The paths in the fields of a composite. A field that is written as a name alone has none.
#[verifier::opaque]
pub open spec fn members_paths(members: List<FieldInitializer>) -> Paths
    decreases members,
{
    match members {
        List::Nil => Seq::empty(),
        List::Cons(first, rest) => optional_paths(first.expression) + members_paths(*rest),
    }
}

#[verifier::opaque]
pub open spec fn kind_paths(kind: DynamicOpKind) -> Paths
    decreases kind,
{
    match kind {
        DynamicOpKind::Read { .. } => Seq::empty(),
        DynamicOpKind::Op { arguments, .. } => expressions_paths(arguments),
        DynamicOpKind::Call { arguments, .. } => expressions_paths(arguments),
    }
}

/// The paths in a type: those in the lengths and const arguments in it.
#[verifier::opaque]
pub open spec fn type_paths(type_: Type) -> Paths
    decreases type_,
{
    match type_ {
        Type::Array(array) => type_paths(array.element_type) + expression_paths(array.length),
        Type::Composite(composite) => expressions_paths(composite.const_arguments),
        Type::Future(future) => types_paths(future.inputs),
        Type::Mapping(mapping) => type_paths(mapping.key) + type_paths(mapping.value),
        Type::Optional(inner) => type_paths(*inner),
        Type::Tuple(elements) => types_paths(*elements),
        Type::Vector(element) => type_paths(*element),
        _ => Seq::empty(),
    }
}

#[verifier::opaque]
pub open spec fn types_paths(types: List<Type>) -> Paths
    decreases types,
{
    match types {
        List::Nil => Seq::empty(),
        List::Cons(first, rest) => type_paths(first) + types_paths(*rest),
    }
}

#[verifier::opaque]
pub open spec fn type_parameters_paths(parameters: List<TypeParameter>) -> Paths
    decreases parameters,
{
    match parameters {
        List::Nil => Seq::empty(),
        List::Cons(first, rest) => type_paths(first.type_) + type_parameters_paths(*rest),
    }
}

#[verifier::opaque]
pub open spec fn moded_types_paths(types: List<ModedType>) -> Paths
    decreases types,
{
    match types {
        List::Nil => Seq::empty(),
        List::Cons(first, rest) => type_paths(first.type_) + moded_types_paths(*rest),
    }
}

pub open spec fn optional_type_paths(type_: Option<Type>) -> Paths
{
    match type_ {
        None => Seq::empty(),
        Some(type_) => type_paths(type_),
    }
}

pub open spec fn assert_paths(variant: AssertVariant) -> Paths
{
    match variant {
        AssertVariant::Assert(expression) => expression_paths(expression),
        AssertVariant::AssertEq(left, right) => expression_paths(left) + expression_paths(right),
        AssertVariant::AssertNeq(left, right) => expression_paths(left) + expression_paths(right),
    }
}

/// The paths in a statement. The place of an assignment counts.
#[verifier::opaque]
pub open spec fn statement_paths(statement: Statement) -> Paths
    decreases statement,
{
    match statement {
        Statement::Assert(input) => assert_paths(input.variant),
        Statement::Assign(input) => expression_paths(input.place) + expression_paths(input.value),
        Statement::Block(block) => statements_paths(block.statements),
        Statement::Conditional(input) => expression_paths(input.condition)
            + statements_paths(input.then_block.statements)
            + optional_statement_paths(input.otherwise),
        Statement::Const(input) => type_paths(input.type_) + expression_paths(input.value),
        Statement::Definition(input) => optional_type_paths(input.type_)
            + expression_paths(input.value),
        Statement::Expression(input) => expression_paths(input.expression),
        Statement::Iteration(input) => optional_type_paths(input.type_)
            + expression_paths(input.start)
            + expression_paths(input.stop)
            + statements_paths(input.block.statements),
        Statement::Return(input) => expression_paths(input.expression),
    }
}

#[verifier::opaque]
pub open spec fn statements_paths(statements: List<Statement>) -> Paths
    decreases statements,
{
    match statements {
        List::Nil => Seq::empty(),
        List::Cons(first, rest) => statement_paths(first) + statements_paths(*rest),
    }
}

#[verifier::opaque]
pub open spec fn optional_statement_paths(statement: Option<Statement>) -> Paths
    decreases statement,
{
    match statement {
        None => Seq::empty(),
        Some(statement) => statement_paths(statement),
    }
}

/// Puts the paths in `expression` behind those in `out`.
pub fn collect_expression_paths(expression: &Expression, out: &mut Vec<Rc<Path>>)
    ensures
        final(out)@ == old(out)@ + expression_paths(*expression),
    decreases *expression,
{
    proof {
        reveal(expression_paths);
        reveal(expressions_paths);
        reveal(kind_paths);
        reveal(members_paths);
        reveal(moded_types_paths);
        reveal(optional_paths);
        reveal(type_parameters_paths);
        reveal(type_paths);
    }
    match expression {
        Expression::Array(input) => {
            collect_expressions_paths(&input.elements, out);
        },
        Expression::ArrayAccess(input) => {
            collect_expression_paths(&input.array, out);
            collect_expression_paths(&input.index, out);
        },
        Expression::Binary(input) => {
            collect_expression_paths(&input.left, out);
            collect_expression_paths(&input.right, out);
        },
        Expression::Call(input) => {
            collect_expressions_paths(&input.const_arguments, out);
            collect_expressions_paths(&input.arguments, out);
        },
        Expression::Cast(input) => {
            collect_type_paths(&input.type_, out);
            collect_expression_paths(&input.expression, out);
        },
        Expression::Composite(input) => {
            collect_expressions_paths(&input.const_arguments, out);
            collect_members_paths(&input.members, out);
            collect_optional_paths(&input.base, out);
        },
        Expression::DynamicOp(input) => {
            collect_type_paths(&input.interface, out);
            collect_expression_paths(&input.target_program, out);
            collect_optional_paths(&input.network, out);
            collect_kind_paths(&input.kind, out);
        },
        Expression::Intrinsic(input) => {
            collect_type_parameters_paths(&input.type_parameters, out);
            collect_moded_types_paths(&input.input_types, out);
            collect_moded_types_paths(&input.return_types, out);
            collect_expressions_paths(&input.arguments, out);
        },
        Expression::MemberAccess(input) => {
            collect_expression_paths(&input.inner, out);
        },
        Expression::Path(path) => {
            out.push(path.clone());
        },
        Expression::Repeat(input) => {
            collect_expression_paths(&input.expr, out);
            collect_expression_paths(&input.count, out);
        },
        Expression::Ternary(input) => {
            collect_expression_paths(&input.condition, out);
            collect_expression_paths(&input.if_true, out);
            collect_expression_paths(&input.if_false, out);
        },
        Expression::Tuple(input) => {
            collect_expressions_paths(&input.elements, out);
        },
        Expression::TupleAccess(input) => {
            collect_expression_paths(&input.tuple, out);
        },
        Expression::Unary(input) => {
            collect_expression_paths(&input.receiver, out);
        },
        _ => {},
    }
    assert(out@ =~= old(out)@ + expression_paths(*expression));
}

fn collect_expressions_paths(expressions: &List<Expression>, out: &mut Vec<Rc<Path>>)
    ensures
        final(out)@ == old(out)@ + expressions_paths(*expressions),
    decreases *expressions,
{
    proof {
        reveal(expressions_paths);
        reveal(expression_paths);
    }
    match expressions {
        List::Nil => {},
        List::Cons(first, rest) => {
            collect_expression_paths(first, out);
            collect_expressions_paths(rest, out);
        },
    }
    assert(out@ =~= old(out)@ + expressions_paths(*expressions));
}

fn collect_optional_paths(expression: &Option<Expression>, out: &mut Vec<Rc<Path>>)
    ensures
        final(out)@ == old(out)@ + optional_paths(*expression),
    decreases *expression,
{
    proof {
        reveal(optional_paths);
        reveal(expression_paths);
    }
    match expression {
        None => {},
        Some(expression) => {
            collect_expression_paths(expression, out);
        },
    }
    assert(out@ =~= old(out)@ + optional_paths(*expression));
}

fn collect_members_paths(members: &List<FieldInitializer>, out: &mut Vec<Rc<Path>>)
    ensures
        final(out)@ == old(out)@ + members_paths(*members),
    decreases *members,
{
    proof {
        reveal(members_paths);
        reveal(optional_paths);
    }
    match members {
        List::Nil => {},
        List::Cons(first, rest) => {
            collect_optional_paths(&first.expression, out);
            collect_members_paths(rest, out);
        },
    }
    assert(out@ =~= old(out)@ + members_paths(*members));
}

fn collect_kind_paths(kind: &DynamicOpKind, out: &mut Vec<Rc<Path>>)
    ensures
        final(out)@ == old(out)@ + kind_paths(*kind),
    decreases *kind,
{
    proof {
        reveal(kind_paths);
        reveal(expressions_paths);
    }
    match kind {
        DynamicOpKind::Read { .. } => {},
        DynamicOpKind::Op { arguments, .. } => {
            collect_expressions_paths(arguments, out);
        },
        DynamicOpKind::Call { arguments, .. } => {
            collect_expressions_paths(arguments, out);
        },
    }
    assert(out@ =~= old(out)@ + kind_paths(*kind));
}

fn collect_type_paths(type_: &Type, out: &mut Vec<Rc<Path>>)
    ensures
        final(out)@ == old(out)@ + type_paths(*type_),
    decreases *type_,
{
    proof {
        reveal(type_paths);
        reveal(expression_paths);
        reveal(expressions_paths);
        reveal(types_paths);
    }
    match type_ {
        Type::Array(array) => {
            collect_type_paths(&array.element_type, out);
            collect_expression_paths(&array.length, out);
        },
        Type::Composite(composite) => {
            collect_expressions_paths(&composite.const_arguments, out);
        },
        Type::Future(future) => {
            collect_types_paths(&future.inputs, out);
        },
        Type::Mapping(mapping) => {
            collect_type_paths(&mapping.key, out);
            collect_type_paths(&mapping.value, out);
        },
        Type::Optional(inner) => {
            collect_type_paths(inner, out);
        },
        Type::Tuple(elements) => {
            collect_types_paths(elements, out);
        },
        Type::Vector(element) => {
            collect_type_paths(element, out);
        },
        _ => {},
    }
    assert(out@ =~= old(out)@ + type_paths(*type_));
}

fn collect_types_paths(types: &List<Type>, out: &mut Vec<Rc<Path>>)
    ensures
        final(out)@ == old(out)@ + types_paths(*types),
    decreases *types,
{
    proof {
        reveal(types_paths);
        reveal(type_paths);
    }
    match types {
        List::Nil => {},
        List::Cons(first, rest) => {
            collect_type_paths(first, out);
            collect_types_paths(rest, out);
        },
    }
    assert(out@ =~= old(out)@ + types_paths(*types));
}

fn collect_type_parameters_paths(parameters: &List<TypeParameter>, out: &mut Vec<Rc<Path>>)
    ensures
        final(out)@ == old(out)@ + type_parameters_paths(*parameters),
    decreases *parameters,
{
    proof {
        reveal(type_parameters_paths);
        reveal(type_paths);
    }
    match parameters {
        List::Nil => {},
        List::Cons(first, rest) => {
            collect_type_paths(&first.type_, out);
            collect_type_parameters_paths(rest, out);
        },
    }
    assert(out@ =~= old(out)@ + type_parameters_paths(*parameters));
}

fn collect_moded_types_paths(types: &List<ModedType>, out: &mut Vec<Rc<Path>>)
    ensures
        final(out)@ == old(out)@ + moded_types_paths(*types),
    decreases *types,
{
    proof {
        reveal(moded_types_paths);
        reveal(type_paths);
    }
    match types {
        List::Nil => {},
        List::Cons(first, rest) => {
            collect_type_paths(&first.type_, out);
            collect_moded_types_paths(rest, out);
        },
    }
    assert(out@ =~= old(out)@ + moded_types_paths(*types));
}

fn collect_optional_type_paths(type_: &Option<Type>, out: &mut Vec<Rc<Path>>)
    ensures
        final(out)@ == old(out)@ + optional_type_paths(*type_),
{
    match type_ {
        None => {},
        Some(type_) => {
            collect_type_paths(type_, out);
        },
    }
    assert(out@ =~= old(out)@ + optional_type_paths(*type_));
}

fn collect_assert_paths(variant: &AssertVariant, out: &mut Vec<Rc<Path>>)
    ensures
        final(out)@ == old(out)@ + assert_paths(*variant),
{
    match variant {
        AssertVariant::Assert(expression) => {
            collect_expression_paths(expression, out);
        },
        AssertVariant::AssertEq(left, right) => {
            collect_expression_paths(left, out);
            collect_expression_paths(right, out);
        },
        AssertVariant::AssertNeq(left, right) => {
            collect_expression_paths(left, out);
            collect_expression_paths(right, out);
        },
    }
    assert(out@ =~= old(out)@ + assert_paths(*variant));
}

/// Puts the paths in `statement` behind those in `out`.
pub fn collect_statement_paths(statement: &Statement, out: &mut Vec<Rc<Path>>)
    ensures
        final(out)@ == old(out)@ + statement_paths(*statement),
    decreases *statement,
{
    proof {
        reveal(statement_paths);
        reveal(optional_statement_paths);
        reveal(statements_paths);
    }
    match statement {
        Statement::Assert(input) => {
            collect_assert_paths(&input.variant, out);
        },
        Statement::Assign(input) => {
            collect_expression_paths(&input.place, out);
            collect_expression_paths(&input.value, out);
        },
        Statement::Block(block) => {
            collect_statements_paths(&block.statements, out);
        },
        Statement::Conditional(input) => {
            collect_expression_paths(&input.condition, out);
            collect_statements_paths(&input.then_block.statements, out);
            collect_optional_statement_paths(&input.otherwise, out);
        },
        Statement::Const(input) => {
            collect_type_paths(&input.type_, out);
            collect_expression_paths(&input.value, out);
        },
        Statement::Definition(input) => {
            collect_optional_type_paths(&input.type_, out);
            collect_expression_paths(&input.value, out);
        },
        Statement::Expression(input) => {
            collect_expression_paths(&input.expression, out);
        },
        Statement::Iteration(input) => {
            collect_optional_type_paths(&input.type_, out);
            collect_expression_paths(&input.start, out);
            collect_expression_paths(&input.stop, out);
            collect_statements_paths(&input.block.statements, out);
        },
        Statement::Return(input) => {
            collect_expression_paths(&input.expression, out);
        },
    }
    assert(out@ =~= old(out)@ + statement_paths(*statement));
}

fn collect_statements_paths(statements: &List<Statement>, out: &mut Vec<Rc<Path>>)
    ensures
        final(out)@ == old(out)@ + statements_paths(*statements),
    decreases *statements,
{
    proof {
        reveal(statements_paths);
        reveal(statement_paths);
    }
    match statements {
        List::Nil => {},
        List::Cons(first, rest) => {
            collect_statement_paths(first, out);
            collect_statements_paths(rest, out);
        },
    }
    assert(out@ =~= old(out)@ + statements_paths(*statements));
}

fn collect_optional_statement_paths(statement: &Option<Statement>, out: &mut Vec<Rc<Path>>)
    ensures
        final(out)@ == old(out)@ + optional_statement_paths(*statement),
    decreases *statement,
{
    proof {
        reveal(optional_statement_paths);
        reveal(statement_paths);
    }
    match statement {
        None => {},
        Some(statement) => {
            collect_statement_paths(statement, out);
        },
    }
    assert(out@ =~= old(out)@ + optional_statement_paths(*statement));
}

} // verus!
