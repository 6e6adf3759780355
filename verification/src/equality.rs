//! Equality of trees.
use crate::ast::{
    DynamicOpKind, Expression, FieldInitializer, Identifier, Location, ModedType, Path, PathTarget,
    Type, TypeParameter,
};
use crate::list::List;
use std::rc::Rc;
use vstd::prelude::*;

verus! {

/// Whether both trees are equal.
pub fn same_type(a: &Type, b: &Type) -> (r: bool)
    ensures
        r == (*a == *b),
    decreases *a,
{
    match (a, b) {
        (Type::Address, Type::Address) => true,
        (Type::Boolean, Type::Boolean) => true,
        (Type::Error, Type::Error) => true,
        (Type::Field, Type::Field) => true,
        (Type::Group, Type::Group) => true,
        (Type::Identifier, Type::Identifier) => true,
        (Type::Scalar, Type::Scalar) => true,
        (Type::Signature, Type::Signature) => true,
        (Type::String, Type::String) => true,
        (Type::Unit, Type::Unit) => true,
        (Type::Integer(a), Type::Integer(b)) => *a == *b,
        (Type::Array(a), Type::Array(b)) => same_type(&a.element_type, &b.element_type)
            && same_expression(&a.length, &b.length),
        (Type::Composite(a), Type::Composite(b)) => same_path(&a.path, &b.path)
            && same_expressions(&a.const_arguments, &b.const_arguments),
        (Type::Future(a), Type::Future(b)) => same_types(&a.inputs, &b.inputs)
            && same_optional_location(&a.location, &b.location),
        (Type::Mapping(a), Type::Mapping(b)) => same_type(&a.key, &b.key)
            && same_type(&a.value, &b.value),
        (Type::Optional(a), Type::Optional(b)) => same_type(a, b),
        (Type::Tuple(a), Type::Tuple(b)) => same_types(a, b),
        (Type::Vector(a), Type::Vector(b)) => same_type(a, b),
        _ => false,
    }
}

/// Whether both trees are equal.
pub fn same_expression(a: &Expression, b: &Expression) -> (r: bool)
    ensures
        r == (*a == *b),
    decreases *a,
{
    match (a, b) {
        (Expression::Array(a), Expression::Array(b)) => a.span == b.span
            && a.id == b.id
            && same_expressions(&a.elements, &b.elements),
        (Expression::ArrayAccess(a), Expression::ArrayAccess(b)) => a.span == b.span
            && a.id == b.id
            && same_expression(&a.array, &b.array)
            && same_expression(&a.index, &b.index),
        (Expression::Binary(a), Expression::Binary(b)) => a.op == b.op
            && a.span == b.span
            && a.id == b.id
            && same_expression(&a.left, &b.left)
            && same_expression(&a.right, &b.right),
        (Expression::Call(a), Expression::Call(b)) => a.span == b.span
            && a.id == b.id
            && same_path(&a.function, &b.function)
            && same_expressions(&a.const_arguments, &b.const_arguments)
            && same_expressions(&a.arguments, &b.arguments),
        (Expression::Cast(a), Expression::Cast(b)) => a.span == b.span
            && a.id == b.id
            && same_expression(&a.expression, &b.expression)
            && same_type(&a.type_, &b.type_),
        (Expression::Composite(a), Expression::Composite(b)) => a.span == b.span
            && a.id == b.id
            && same_path(&a.path, &b.path)
            && same_expressions(&a.const_arguments, &b.const_arguments)
            && same_members(&a.members, &b.members)
            && same_optional(&a.base, &b.base),
        (Expression::DynamicOp(a), Expression::DynamicOp(b)) => a.span == b.span
            && a.id == b.id
            && same_type(&a.interface, &b.interface)
            && same_expression(&a.target_program, &b.target_program)
            && same_optional(&a.network, &b.network)
            && same_kind(&a.kind, &b.kind),
        (Expression::Intrinsic(a), Expression::Intrinsic(b)) => a.op == b.op
            && a.span == b.span
            && a.id == b.id
            && same_type_parameters(&a.type_parameters, &b.type_parameters)
            && same_moded_types(&a.input_types, &b.input_types)
            && same_moded_types(&a.return_types, &b.return_types)
            && same_expressions(&a.arguments, &b.arguments),
        (Expression::MemberAccess(a), Expression::MemberAccess(b)) => a.name == b.name
            && a.span == b.span
            && a.id == b.id
            && same_expression(&a.inner, &b.inner),
        (Expression::Repeat(a), Expression::Repeat(b)) => a.span == b.span
            && a.id == b.id
            && same_expression(&a.expr, &b.expr)
            && same_expression(&a.count, &b.count),
        (Expression::Ternary(a), Expression::Ternary(b)) => a.span == b.span
            && a.id == b.id
            && same_expression(&a.condition, &b.condition)
            && same_expression(&a.if_true, &b.if_true)
            && same_expression(&a.if_false, &b.if_false),
        (Expression::Tuple(a), Expression::Tuple(b)) => a.span == b.span
            && a.id == b.id
            && same_expressions(&a.elements, &b.elements),
        (Expression::TupleAccess(a), Expression::TupleAccess(b)) => a.index == b.index
            && a.span == b.span
            && a.id == b.id
            && same_expression(&a.tuple, &b.tuple),
        (Expression::Unary(a), Expression::Unary(b)) => a.op == b.op
            && a.span == b.span
            && a.id == b.id
            && same_expression(&a.receiver, &b.receiver),
        (Expression::Error(a), Expression::Error(b)) => *a == *b,
        (Expression::Literal(a), Expression::Literal(b)) => *a == *b,
        (Expression::Unit(a), Expression::Unit(b)) => *a == *b,
        (Expression::Path(a), Expression::Path(b)) => same_path(a, b),
        _ => false,
    }
}

fn same_types(a: &List<Type>, b: &List<Type>) -> (r: bool)
    ensures
        r == (*a == *b),
    decreases *a,
{
    match (a, b) {
        (List::Nil, List::Nil) => true,
        (List::Cons(a, more_a), List::Cons(b, more_b)) => {
            same_type(a, b) && same_types(more_a, more_b)
        },
        _ => false,
    }
}

fn same_expressions(a: &List<Expression>, b: &List<Expression>) -> (r: bool)
    ensures
        r == (*a == *b),
    decreases *a,
{
    match (a, b) {
        (List::Nil, List::Nil) => true,
        (List::Cons(a, more_a), List::Cons(b, more_b)) => {
            same_expression(a, b) && same_expressions(more_a, more_b)
        },
        _ => false,
    }
}

fn same_members(a: &List<FieldInitializer>, b: &List<FieldInitializer>) -> (r: bool)
    ensures
        r == (*a == *b),
    decreases *a,
{
    match (a, b) {
        (List::Nil, List::Nil) => true,
        (List::Cons(a, more_a), List::Cons(b, more_b)) => {
            a.identifier == b.identifier
                && a.span == b.span
                && a.id == b.id
                && same_optional(&a.expression, &b.expression)
                && same_members(more_a, more_b)
        },
        _ => false,
    }
}

fn same_type_parameters(a: &List<TypeParameter>, b: &List<TypeParameter>) -> (r: bool)
    ensures
        r == (*a == *b),
    decreases *a,
{
    match (a, b) {
        (List::Nil, List::Nil) => true,
        (List::Cons(a, more_a), List::Cons(b, more_b)) => {
            a.span == b.span
                && same_type(&a.type_, &b.type_)
                && same_type_parameters(more_a, more_b)
        },
        _ => false,
    }
}

fn same_moded_types(a: &List<ModedType>, b: &List<ModedType>) -> (r: bool)
    ensures
        r == (*a == *b),
    decreases *a,
{
    match (a, b) {
        (List::Nil, List::Nil) => true,
        (List::Cons(a, more_a), List::Cons(b, more_b)) => {
            a.mode == b.mode
                && a.span == b.span
                && same_type(&a.type_, &b.type_)
                && same_moded_types(more_a, more_b)
        },
        _ => false,
    }
}

fn same_optional(a: &Option<Expression>, b: &Option<Expression>) -> (r: bool)
    ensures
        r == (*a == *b),
    decreases *a,
{
    match (a, b) {
        (None, None) => true,
        (Some(a), Some(b)) => same_expression(a, b),
        _ => false,
    }
}

fn same_kind(a: &DynamicOpKind, b: &DynamicOpKind) -> (r: bool)
    ensures
        r == (*a == *b),
    decreases *a,
{
    match (a, b) {
        (DynamicOpKind::Read { storage: a }, DynamicOpKind::Read { storage: b }) => *a == *b,
        (
            DynamicOpKind::Op { member: member_a, op: op_a, arguments: a },
            DynamicOpKind::Op { member: member_b, op: op_b, arguments: b },
        ) => *member_a == *member_b && *op_a == *op_b && same_expressions(a, b),
        (
            DynamicOpKind::Call { function: function_a, arguments: a },
            DynamicOpKind::Call { function: function_b, arguments: b },
        ) => *function_a == *function_b && same_expressions(a, b),
        _ => false,
    }
}

fn same_identifiers(a: &List<Identifier>, b: &List<Identifier>) -> (r: bool)
    ensures
        r == (*a == *b),
    decreases *a,
{
    match (a, b) {
        (List::Nil, List::Nil) => true,
        (List::Cons(a, more_a), List::Cons(b, more_b)) => *a == *b && same_identifiers(
            more_a,
            more_b,
        ),
        _ => false,
    }
}

fn same_path(a: &Path, b: &Path) -> (r: bool)
    ensures
        r == (*a == *b),
{
    let same_program = match (&a.user_program, &b.user_program) {
        (None, None) => true,
        (Some(a), Some(b)) => *a == *b,
        _ => false,
    };
    let same_target = match (&a.target, &b.target) {
        (PathTarget::Unresolved, PathTarget::Unresolved) => true,
        (PathTarget::Local(a), PathTarget::Local(b)) => *a == *b,
        (PathTarget::Global(a), PathTarget::Global(b)) => a.same(b),
        _ => false,
    };
    same_program && same_target && a.identifier == b.identifier && a.span == b.span && a.id == b.id
        && same_identifiers(&a.qualifier, &b.qualifier)
}

fn same_optional_location(a: &Option<Rc<Location>>, b: &Option<Rc<Location>>) -> (r: bool)
    ensures
        r == (*a == *b),
{
    match (a, b) {
        (None, None) => true,
        (Some(a), Some(b)) => a.same(b),
        _ => false,
    }
}

} // verus!
