//! Where lowering may need a join.
use crate::ast::{Expression, FieldInitializer, Intrinsic, Symbol, Type};
use crate::list::List;
use vstd::prelude::*;

verus! {

/// Whether `receiver` is a vector of `program` itself, named without a program.
pub open spec fn is_local_vector(receiver: Expression, program: Symbol) -> bool {
    match receiver {
        Expression::Path(path) => match path.spec_try_global_location() {
            Some(location) => location.program == program && path.user_program is None,
            None => false,
        },
        _ => false,
    }
}

/// Whether `op(arguments)` pops or reads an element of a vector of `program` itself.
pub open spec fn is_join_op(op: Intrinsic, arguments: List<Expression>, program: Symbol) -> bool {
    (op is VectorPop || op is VectorGet) && match arguments {
        List::Nil => false,
        List::Cons(receiver, _) => is_local_vector(receiver, program),
    }
}

/// Whether somewhere in `expression`, but not in an access to another program, an element of a
/// vector of `program` itself is popped or read.
pub open spec fn has_join_op(expression: Expression, program: Symbol) -> bool
    decreases expression,
{
    match expression {
        Expression::Array(input) => any_has_join_op(input.elements, program),
        Expression::ArrayAccess(input) => has_join_op(input.array, program)
            || has_join_op(input.index, program),
        Expression::Binary(input) => has_join_op(input.left, program)
            || has_join_op(input.right, program),
        Expression::Call(input) => any_has_join_op(input.const_arguments, program)
            || any_has_join_op(input.arguments, program),
        Expression::Cast(input) => type_has_join_op(input.type_, program)
            || has_join_op(input.expression, program),
        Expression::Composite(input) => any_has_join_op(input.const_arguments, program)
            || any_member_has_join_op(input.members, program)
            || some_has_join_op(input.base, program),
        Expression::Intrinsic(input) => is_join_op(input.op, input.arguments, program)
            || any_has_join_op(input.arguments, program),
        Expression::MemberAccess(input) => has_join_op(input.inner, program),
        Expression::Repeat(input) => has_join_op(input.expr, program)
            || has_join_op(input.count, program),
        Expression::Ternary(input) => has_join_op(input.condition, program)
            || has_join_op(input.if_true, program)
            || has_join_op(input.if_false, program),
        Expression::Tuple(input) => any_has_join_op(input.elements, program),
        Expression::TupleAccess(input) => has_join_op(input.tuple, program),
        Expression::Unary(input) => has_join_op(input.receiver, program),
        _ => false,
    }
}

pub open spec fn any_has_join_op(expressions: List<Expression>, program: Symbol) -> bool
    decreases expressions,
{
    match expressions {
        List::Nil => false,
        List::Cons(first, rest) => has_join_op(first, program) || any_has_join_op(*rest, program),
    }
}

pub open spec fn any_member_has_join_op(members: List<FieldInitializer>, program: Symbol) -> bool
    decreases members,
{
    match members {
        List::Nil => false,
        List::Cons(first, rest) => some_has_join_op(first.expression, program)
            || any_member_has_join_op(*rest, program),
    }
}

pub open spec fn any_type_has_join_op(types: List<Type>, program: Symbol) -> bool
    decreases types,
{
    match types {
        List::Nil => false,
        List::Cons(first, rest) => type_has_join_op(first, program)
            || any_type_has_join_op(*rest, program),
    }
}

pub open spec fn some_has_join_op(expression: Option<Expression>, program: Symbol) -> bool
    decreases expression,
{
    match expression {
        None => false,
        Some(expression) => has_join_op(expression, program),
    }
}

pub open spec fn type_has_join_op(type_: Type, program: Symbol) -> bool
    decreases type_,
{
    match type_ {
        Type::Array(array) => type_has_join_op(array.element_type, program) || has_join_op(
            array.length,
            program,
        ),
        Type::Composite(composite) => any_has_join_op(composite.const_arguments, program),
        Type::Future(future) => any_type_has_join_op(future.inputs, program),
        Type::Mapping(mapping) => type_has_join_op(mapping.key, program) || type_has_join_op(
            mapping.value,
            program,
        ),
        Type::Optional(inner) => type_has_join_op(*inner, program),
        Type::Tuple(elements) => any_type_has_join_op(*elements, program),
        Type::Vector(element) => type_has_join_op(*element, program),
        _ => false,
    }
}

fn join_op(op: Intrinsic, arguments: &List<Expression>, program: Symbol) -> (r: bool)
    ensures
        r == is_join_op(op, *arguments, program),
{
    matches!(op, Intrinsic::VectorPop | Intrinsic::VectorGet) && match arguments {
        List::Nil => false,
        List::Cons(receiver, _) => match receiver {
            Expression::Path(path) => match path.try_global_location() {
                Some(location) => location.program == program && path.user_program.is_none(),
                None => false,
            },
            _ => false,
        },
    }
}

/// Whether somewhere in `expression`, but not in an access to another program, an element of a
/// vector of `program` itself is popped or read.
pub fn contains_local_vector_join_op(expression: &Expression, program: Symbol) -> (r: bool)
    ensures
        r == has_join_op(*expression, program),
    decreases *expression,
{
    match expression {
        Expression::Array(input) => any_contains(&input.elements, program),
        Expression::ArrayAccess(input) => contains_local_vector_join_op(&input.array, program)
            || contains_local_vector_join_op(&input.index, program),
        Expression::Binary(input) => contains_local_vector_join_op(&input.left, program)
            || contains_local_vector_join_op(&input.right, program),
        Expression::Call(input) => any_contains(&input.const_arguments, program)
            || any_contains(&input.arguments, program),
        Expression::Cast(input) => type_contains(&input.type_, program)
            || contains_local_vector_join_op(&input.expression, program),
        Expression::Composite(input) => any_contains(&input.const_arguments, program)
            || any_member_contains(&input.members, program)
            || some_contains(&input.base, program),
        Expression::Intrinsic(input) => join_op(input.op, &input.arguments, program)
            || any_contains(&input.arguments, program),
        Expression::MemberAccess(input) => contains_local_vector_join_op(&input.inner, program),
        Expression::Repeat(input) => contains_local_vector_join_op(&input.expr, program)
            || contains_local_vector_join_op(&input.count, program),
        Expression::Ternary(input) => contains_local_vector_join_op(&input.condition, program)
            || contains_local_vector_join_op(&input.if_true, program)
            || contains_local_vector_join_op(&input.if_false, program),
        Expression::Tuple(input) => any_contains(&input.elements, program),
        Expression::TupleAccess(input) => contains_local_vector_join_op(&input.tuple, program),
        Expression::Unary(input) => contains_local_vector_join_op(&input.receiver, program),
        _ => false,
    }
}

fn any_contains(expressions: &List<Expression>, program: Symbol) -> (r: bool)
    ensures
        r == any_has_join_op(*expressions, program),
    decreases *expressions,
{
    match expressions {
        List::Nil => false,
        List::Cons(first, rest) => contains_local_vector_join_op(first, program)
            || any_contains(rest, program),
    }
}

fn any_member_contains(members: &List<FieldInitializer>, program: Symbol) -> (r: bool)
    ensures
        r == any_member_has_join_op(*members, program),
    decreases *members,
{
    match members {
        List::Nil => false,
        List::Cons(first, rest) => some_contains(&first.expression, program)
            || any_member_contains(rest, program),
    }
}

fn any_type_contains(types: &List<Type>, program: Symbol) -> (r: bool)
    ensures
        r == any_type_has_join_op(*types, program),
    decreases *types,
{
    match types {
        List::Nil => false,
        List::Cons(first, rest) => type_contains(first, program)
            || any_type_contains(rest, program),
    }
}

fn some_contains(expression: &Option<Expression>, program: Symbol) -> (r: bool)
    ensures
        r == some_has_join_op(*expression, program),
    decreases *expression,
{
    match expression {
        None => false,
        Some(expression) => contains_local_vector_join_op(expression, program),
    }
}

fn type_contains(type_: &Type, program: Symbol) -> (r: bool)
    ensures
        r == type_has_join_op(*type_, program),
    decreases *type_,
{
    match type_ {
        Type::Array(array) => type_contains(&array.element_type, program)
            || contains_local_vector_join_op(&array.length, program),
        Type::Composite(composite) => any_contains(&composite.const_arguments, program),
        Type::Future(future) => any_type_contains(&future.inputs, program),
        Type::Mapping(mapping) => type_contains(&mapping.key, program) || type_contains(
            &mapping.value,
            program,
        ),
        Type::Optional(inner) => type_contains(inner, program),
        Type::Tuple(elements) => any_type_contains(elements, program),
        Type::Vector(element) => type_contains(element, program),
        _ => false,
    }
}

} // verus!
