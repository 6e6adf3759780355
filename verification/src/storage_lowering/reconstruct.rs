//! What expressions are lowered to when all their statements may run before them.
use crate::ast::{
    ArrayAccess, ArrayExpression, ArrayType, BinaryExpression, CallExpression, CastExpression,
    CompositeExpression, CompositeType, DynamicOpExpression, DynamicOpKind, Expression,
    FieldInitializer, FutureType, Intrinsic, IntrinsicExpression, MappingType, MemberAccess,
    ModedType, Path, RepeatExpression, Statement, TernaryExpression, TupleAccess, TupleExpression,
    Type, TypeParameter, UnaryExpression,
};
use crate::list::{appended, List};
use crate::names::text_of;
use crate::state::{Halt, State};
use crate::storage_lowering::dynamic::{
    finish_dynamic_operands, finish_dynamic_read, finish_dynamic_vector_get,
    finish_dynamic_vector_len, target_network, vector_of_member, Target,
};
use crate::storage_lowering::vectors::{
    clear_vector, finish_get, finish_push, finish_set, finish_strict, finish_swap_remove, pop_value,
    vector_argument, vector_len, Lowered,
};
use crate::storage_lowering::visitor::{Context, Step};
use crate::storage_lowering::zero::reconstruct_path;
use std::rc::Rc;
use vstd::prelude::*;

verus! {


/* Expressions */

/// What `expression` is lowered to, and the statements that have to run before it.
#[verifier::opaque]
pub open spec fn reconstruct_expression(
    cx: Context,
    state: State,
    expression: Expression,
) -> Step<Lowered>
    decreases expression, 0int,
{
    match expression {
        Expression::Array(input) => match reconstruct_list(cx, state, input.elements) {
            Err(halt) => Err(halt),
            Ok((state, (elements, statements))) => Ok(
                (
                    state,
                    (
                        Expression::Array(Rc::new(ArrayExpression { elements, ..*input })),
                        statements,
                    ),
                ),
            ),
        },
        Expression::ArrayAccess(input) => match reconstruct_expression(cx, state, input.array) {
            Err(halt) => Err(halt),
            Ok((state, (array, statements))) => match reconstruct_expression(
                cx,
                state,
                input.index,
            ) {
                Err(halt) => Err(halt),
                Ok((state, (index, more))) => Ok(
                    (
                        state,
                        (
                            Expression::ArrayAccess(
                                Rc::new(ArrayAccess { array, index, ..*input }),
                            ),
                            appended(statements, more),
                        ),
                    ),
                ),
            },
        },
        Expression::Binary(input) => match reconstruct_expression(cx, state, input.left) {
            Err(halt) => Err(halt),
            Ok((state, (left, statements))) => match reconstruct_expression(
                cx,
                state,
                input.right,
            ) {
                Err(halt) => Err(halt),
                Ok((state, (right, more))) => Ok(
                    (
                        state,
                        (
                            Expression::Binary(
                                Rc::new(BinaryExpression { left, right, ..*input }),
                            ),
                            appended(statements, more),
                        ),
                    ),
                ),
            },
        },
        Expression::Call(input) => reconstruct_call(cx, state, *input),
        Expression::Cast(input) => match reconstruct_expression(cx, state, input.expression) {
            Err(halt) => Err(halt),
            Ok((state, (expression, statements))) => Ok(
                (
                    state,
                    (
                        Expression::Cast(Rc::new(CastExpression { expression, ..*input })),
                        statements,
                    ),
                ),
            ),
        },
        Expression::Composite(input) => reconstruct_composite_init(cx, state, *input),
        Expression::DynamicOp(input) => reconstruct_dynamic_op(cx, state, *input),
        Expression::Error(_) => Err(Halt::IllFormed),
        Expression::Intrinsic(input) => reconstruct_intrinsic(cx, state, *input),
        Expression::Literal(_) => Ok((state, (expression, List::Nil))),
        Expression::MemberAccess(input) => match reconstruct_expression(cx, state, input.inner) {
            Err(halt) => Err(halt),
            Ok((state, (inner, statements))) => Ok(
                (
                    state,
                    (
                        Expression::MemberAccess(Rc::new(MemberAccess { inner, ..*input })),
                        statements,
                    ),
                ),
            ),
        },
        Expression::Path(path) => match reconstruct_path(cx, state, *path) {
            Err(halt) => Err(halt),
            Ok((state, expression)) => Ok((state, (expression, List::Nil))),
        },
        Expression::Repeat(input) => match reconstruct_expression(cx, state, input.expr) {
            Err(halt) => Err(halt),
            Ok((state, (expr, statements))) => match reconstruct_expression(
                cx,
                state,
                input.count,
            ) {
                Err(halt) => Err(halt),
                Ok((state, (count, more))) => Ok(
                    (
                        state,
                        (
                            Expression::Repeat(Rc::new(RepeatExpression { expr, count, ..*input })),
                            appended(statements, more),
                        ),
                    ),
                ),
            },
        },
        Expression::Ternary(input) => match reconstruct_expression(cx, state, input.condition) {
            Err(halt) => Err(halt),
            Ok((state, (condition, statements))) => match reconstruct_expression(
                cx,
                state,
                input.if_true,
            ) {
                Err(halt) => Err(halt),
                Ok((state, (if_true, statements2))) => match reconstruct_expression(
                    cx,
                    state,
                    input.if_false,
                ) {
                    Err(halt) => Err(halt),
                    Ok((state, (if_false, statements3))) => Ok(
                        (
                            state,
                            (
                                Expression::Ternary(
                                    Rc::new(
                                        TernaryExpression {
                                            condition,
                                            if_true,
                                            if_false,
                                            ..*input
                                        },
                                    ),
                                ),
                                appended(appended(statements, statements2), statements3),
                            ),
                        ),
                    ),
                },
            },
        },
        Expression::Tuple(input) => match reconstruct_list(cx, state, input.elements) {
            Err(halt) => Err(halt),
            Ok((state, (elements, statements))) => Ok(
                (
                    state,
                    (
                        Expression::Tuple(Rc::new(TupleExpression { elements, ..*input })),
                        statements,
                    ),
                ),
            ),
        },
        Expression::TupleAccess(input) => match reconstruct_expression(cx, state, input.tuple) {
            Err(halt) => Err(halt),
            Ok((state, (tuple, statements))) => Ok(
                (
                    state,
                    (
                        Expression::TupleAccess(Rc::new(TupleAccess { tuple, ..*input })),
                        statements,
                    ),
                ),
            ),
        },
        Expression::Unary(input) => match reconstruct_expression(cx, state, input.receiver) {
            Err(halt) => Err(halt),
            Ok((state, (receiver, statements))) => Ok(
                (
                    state,
                    (
                        Expression::Unary(Rc::new(UnaryExpression { receiver, ..*input })),
                        statements,
                    ),
                ),
            ),
        },
        Expression::Unit(_) => Ok((state, (expression, List::Nil))),
    }
}

/// What `expressions` are lowered to, from left to right.
#[verifier::opaque]
pub open spec fn reconstruct_list(
    cx: Context,
    state: State,
    expressions: List<Expression>,
) -> Step<(List<Expression>, List<Statement>)>
    decreases expressions, 0int,
{
    match expressions {
        List::Nil => Ok((state, (List::Nil, List::Nil))),
        List::Cons(first, rest) => match reconstruct_expression(cx, state, first) {
            Err(halt) => Err(halt),
            Ok((state, (first, statements))) => match reconstruct_list(cx, state, *rest) {
                Err(halt) => Err(halt),
                Ok((state, (rest, more))) => Ok(
                    (state, (List::Cons(first, Rc::new(rest)), appended(statements, more))),
                ),
            },
        },
    }
}

/// What the fields of a composite are lowered to. Each must have a value.
#[verifier::opaque]
pub open spec fn reconstruct_members(
    cx: Context,
    state: State,
    members: List<FieldInitializer>,
) -> Step<(List<FieldInitializer>, List<Statement>)>
    decreases members, 0int,
{
    match members {
        List::Nil => Ok((state, (List::Nil, List::Nil))),
        List::Cons(first, rest) => match first.expression {
            None => Err(Halt::IllFormed),
            Some(value) => match reconstruct_expression(cx, state, value) {
                Err(halt) => Err(halt),
                Ok((state, (value, statements))) => match reconstruct_members(cx, state, *rest) {
                    Err(halt) => Err(halt),
                    Ok((state, (rest, more))) => {
                        let first = FieldInitializer { expression: Some(value), ..first };
                        Ok((state, (List::Cons(first, Rc::new(rest)), appended(statements, more))))
                    },
                },
            },
        },
    }
}

/// What a call is lowered to. Its const arguments stay as they are.
#[verifier::opaque]
pub open spec fn reconstruct_call(cx: Context, state: State, input: CallExpression) -> Step<Lowered>
    decreases input, 0int,
{
    match reconstruct_list(cx, state, input.arguments) {
        Err(halt) => Err(halt),
        Ok((state, (arguments, statements))) => Ok(
            (
                state,
                (Expression::Call(Rc::new(CallExpression { arguments, ..input })), statements),
            ),
        ),
    }
}

/// What an optional expression is lowered to.
#[verifier::opaque]
pub open spec fn reconstruct_optional(
    cx: Context,
    state: State,
    expression: Option<Expression>,
) -> Step<(Option<Expression>, List<Statement>)>
    decreases expression, 1int,
{
    match expression {
        None => Ok((state, (None, List::Nil))),
        Some(expression) => match reconstruct_expression(cx, state, expression) {
            Err(halt) => Err(halt),
            Ok((state, (expression, statements))) => Ok((state, (Some(expression), statements))),
        },
    }
}

/// What a composite is lowered to.
#[verifier::opaque]
pub open spec fn reconstruct_composite_init(
    cx: Context,
    state: State,
    input: CompositeExpression,
) -> Step<Lowered>
    decreases input, 0int,
{
    match reconstruct_list(cx, state, input.const_arguments) {
        Err(halt) => Err(halt),
        Ok((state, (const_arguments, statements))) => match reconstruct_members(
            cx,
            state,
            input.members,
        ) {
            Err(halt) => Err(halt),
            Ok((state, (members, statements2))) => match reconstruct_optional(
                cx,
                state,
                input.base,
            ) {
                Err(halt) => Err(halt),
                Ok((state, (base, statements3))) => Ok(
                    (
                        state,
                        (
                            Expression::Composite(
                                Rc::new(
                                    CompositeExpression {
                                        const_arguments,
                                        members,
                                        base,
                                        ..input
                                    },
                                ),
                            ),
                            appended(appended(statements, statements2), statements3),
                        ),
                    ),
                ),
            },
        },
    }
}

/* Dynamic access */

/// What the program and the network that a dynamic access names are lowered to.
#[verifier::opaque]
pub open spec fn reconstruct_target(
    cx: Context,
    state: State,
    input: DynamicOpExpression,
) -> Step<Target>
    decreases input, 0int,
{
    match reconstruct_expression(cx, state, input.target_program) {
        Err(halt) => Err(halt),
        Ok((state, (program, statements))) => match input.network {
            None => Ok((state, Target { program, network: None, statements })),
            Some(network) => match reconstruct_expression(cx, state, network) {
                Err(halt) => Err(halt),
                Ok((state, (network, more))) => Ok(
                    (
                        state,
                        Target {
                            program,
                            network: Some(network),
                            statements: appended(statements, more),
                        },
                    ),
                ),
            },
        },
    }
}

/// What a dynamic access is lowered to. Reads of storage variables, and `get` and `len` on
/// vectors, become operations on mappings; the rest stays a dynamic access.
#[verifier::opaque]
pub open spec fn reconstruct_dynamic_op(
    cx: Context,
    state: State,
    input: DynamicOpExpression,
) -> Step<Lowered>
    decreases input, 1int,
{
    match reconstruct_target(cx, state, input) {
        Err(halt) => Err(halt),
        Ok((state, target)) => match input.kind {
            DynamicOpKind::Read { storage } => finish_dynamic_read(
                cx,
                state,
                target,
                input.interface,
                storage,
                input.span,
            ),
            DynamicOpKind::Op { member, op, arguments } => match vector_of_member(
                cx,
                input.interface,
                member,
            ) {
                Err(halt) => Err(halt),
                Ok(Some(element)) => if text_of(state.names, op.name) == "get"@ {
                    match arguments {
                        List::Nil => Err(Halt::IllFormed),
                        List::Cons(index, _) => {
                            let (state, network) = target_network(state, target);
                            finish_dynamic_vector_get(
                                cx,
                                state,
                                target,
                                network,
                                member,
                                element,
                                index,
                                reconstruct_expression(cx, state, index),
                                input.span,
                            )
                        },
                    }
                } else {
                    Ok(finish_dynamic_vector_len(state, target, member, input.span))
                },
                Ok(None) => finish_dynamic_operands(
                    input,
                    target,
                    reconstruct_list(cx, state, arguments),
                ),
            },
            DynamicOpKind::Call { function, arguments } => finish_dynamic_operands(
                input,
                target,
                reconstruct_list(cx, state, arguments),
            ),
        },
    }
}

/* Types */

/// What a type is lowered to, and the statements that the lengths and const arguments in it need.
#[verifier::opaque]
pub open spec fn reconstruct_type(cx: Context, state: State, type_: Type) -> Step<
    (Type, List<Statement>),
>
    decreases type_, 0int,
{
    match type_ {
        Type::Array(array) => match reconstruct_expression(cx, state, array.length) {
            Err(halt) => Err(halt),
            Ok((state, (length, statements))) => match reconstruct_type(
                cx,
                state,
                array.element_type,
            ) {
                Err(halt) => Err(halt),
                Ok((state, (element_type, _))) => Ok(
                    (state, (Type::Array(Rc::new(ArrayType { element_type, length })), statements)),
                ),
            },
        },
        Type::Composite(composite) => match reconstruct_list(cx, state, composite.const_arguments) {
            Err(halt) => Err(halt),
            Ok((state, (const_arguments, statements))) => Ok(
                (
                    state,
                    (
                        Type::Composite(Rc::new(CompositeType { const_arguments, ..*composite })),
                        statements,
                    ),
                ),
            ),
        },
        Type::Future(future) => match reconstruct_types(cx, state, future.inputs) {
            Err(halt) => Err(halt),
            Ok((state, inputs)) => Ok(
                (state, (Type::Future(Rc::new(FutureType { inputs, ..*future })), List::Nil)),
            ),
        },
        Type::Mapping(mapping) => match reconstruct_type(cx, state, mapping.key) {
            Err(halt) => Err(halt),
            Ok((state, (key, _))) => match reconstruct_type(cx, state, mapping.value) {
                Err(halt) => Err(halt),
                Ok((state, (value, _))) => Ok(
                    (state, (Type::Mapping(Rc::new(MappingType { key, value })), List::Nil)),
                ),
            },
        },
        Type::Optional(inner) => match reconstruct_type(cx, state, *inner) {
            Err(halt) => Err(halt),
            Ok((state, (inner, _))) => Ok((state, (Type::Optional(Rc::new(inner)), List::Nil))),
        },
        Type::Tuple(elements) => match reconstruct_types(cx, state, *elements) {
            Err(halt) => Err(halt),
            Ok((state, elements)) => Ok((state, (Type::Tuple(Rc::new(elements)), List::Nil))),
        },
        Type::Vector(element) => match reconstruct_type(cx, state, *element) {
            Err(halt) => Err(halt),
            Ok((state, (element, _))) => Ok((state, (Type::Vector(Rc::new(element)), List::Nil))),
        },
        _ => Ok((state, (type_, List::Nil))),
    }
}

#[verifier::opaque]
pub open spec fn reconstruct_types(cx: Context, state: State, types: List<Type>) -> Step<List<Type>>
    decreases types, 0int,
{
    match types {
        List::Nil => Ok((state, List::Nil)),
        List::Cons(first, rest) => match reconstruct_type(cx, state, first) {
            Err(halt) => Err(halt),
            Ok((state, (first, _))) => match reconstruct_types(cx, state, *rest) {
                Err(halt) => Err(halt),
                Ok((state, rest)) => Ok((state, List::Cons(first, Rc::new(rest)))),
            },
        },
    }
}

#[verifier::opaque]
pub open spec fn reconstruct_type_parameters(
    cx: Context,
    state: State,
    parameters: List<TypeParameter>,
) -> Step<List<TypeParameter>>
    decreases parameters, 0int,
{
    match parameters {
        List::Nil => Ok((state, List::Nil)),
        List::Cons(first, rest) => match reconstruct_type(cx, state, first.type_) {
            Err(halt) => Err(halt),
            Ok((state, (type_, _))) => match reconstruct_type_parameters(cx, state, *rest) {
                Err(halt) => Err(halt),
                Ok((state, rest)) => Ok(
                    (state, List::Cons(TypeParameter { type_, ..first }, Rc::new(rest))),
                ),
            },
        },
    }
}

#[verifier::opaque]
pub open spec fn reconstruct_moded_types(
    cx: Context,
    state: State,
    types: List<ModedType>,
) -> Step<List<ModedType>>
    decreases types, 0int,
{
    match types {
        List::Nil => Ok((state, List::Nil)),
        List::Cons(first, rest) => match reconstruct_type(cx, state, first.type_) {
            Err(halt) => Err(halt),
            Ok((state, (type_, _))) => match reconstruct_moded_types(cx, state, *rest) {
                Err(halt) => Err(halt),
                Ok((state, rest)) => Ok(
                    (state, List::Cons(ModedType { type_, ..first }, Rc::new(rest))),
                ),
            },
        },
    }
}

/* Built-in operations */

/// What `Vector::push` is lowered to. A value that has to be evaluated exactly once is bound to a
/// name before the length changes.
#[verifier::opaque]
pub open spec fn reconstruct_vector_push(
    cx: Context,
    state: State,
    input: IntrinsicExpression,
) -> Step<Lowered>
    decreases input, 0int,
{
    match input.arguments {
        List::Cons(vector, rest) => match *rest {
            List::Cons(value, rest) => match *rest {
                List::Nil => finish_push(
                    cx,
                    state,
                    vector,
                    value,
                    reconstruct_expression(cx, state, value),
                    input.span,
                ),
                _ => Err(Halt::IllFormed),
            },
            _ => Err(Halt::IllFormed),
        },
        _ => Err(Halt::IllFormed),
    }
}

/// What `Vector::get` is lowered to. An index that has to be evaluated exactly once is bound to a
/// name.
#[verifier::opaque]
pub open spec fn reconstruct_vector_get(
    cx: Context,
    state: State,
    input: IntrinsicExpression,
) -> Step<Lowered>
    decreases input, 0int,
{
    match input.arguments {
        List::Cons(vector, rest) => match *rest {
            List::Cons(index, rest) => match *rest {
                List::Nil => finish_get(
                    cx,
                    state,
                    vector,
                    index,
                    reconstruct_expression(cx, state, index),
                    input.span,
                ),
                _ => Err(Halt::IllFormed),
            },
            _ => Err(Halt::IllFormed),
        },
        _ => Err(Halt::IllFormed),
    }
}

/// What `Vector::set` is lowered to. Index and value are evaluated in this order, before the
/// length is read.
#[verifier::opaque]
pub open spec fn reconstruct_vector_set(
    cx: Context,
    state: State,
    input: IntrinsicExpression,
) -> Step<Lowered>
    decreases input, 0int,
{
    match input.arguments {
        List::Cons(vector, rest) => match *rest {
            List::Cons(index, rest) => match *rest {
                List::Cons(value, rest) => match *rest {
                    List::Nil => match finish_strict(
                        cx,
                        reconstruct_expression(cx, state, index),
                    ) {
                        Err(halt) => Err(halt),
                        Ok((after, index)) => finish_set(
                            cx,
                            state,
                            vector,
                            index,
                            finish_strict(cx, reconstruct_expression(cx, after, value)),
                            input.span,
                        ),
                    },
                    _ => Err(Halt::IllFormed),
                },
                _ => Err(Halt::IllFormed),
            },
            _ => Err(Halt::IllFormed),
        },
        _ => Err(Halt::IllFormed),
    }
}

/// What `Vector::swap_remove` is lowered to. The index is evaluated before the length is read.
#[verifier::opaque]
pub open spec fn reconstruct_vector_swap_remove(
    cx: Context,
    state: State,
    input: IntrinsicExpression,
) -> Step<Lowered>
    decreases input, 0int,
{
    match input.arguments {
        List::Cons(vector, rest) => match *rest {
            List::Cons(index, rest) => match *rest {
                List::Nil => finish_swap_remove(
                    cx,
                    state,
                    vector,
                    finish_strict(cx, reconstruct_expression(cx, state, index)),
                    input.span,
                ),
                _ => Err(Halt::IllFormed),
            },
            _ => Err(Halt::IllFormed),
        },
        _ => Err(Halt::IllFormed),
    }
}

/// The only argument, which must be a vector.
pub open spec fn only_vector(state: State, arguments: List<Expression>) -> Option<
    (Path, Type),
> {
    match arguments {
        List::Cons(vector, rest) => match *rest {
            List::Nil => vector_argument(state, vector),
            _ => None,
        },
        _ => None,
    }
}

/// What any other operation is lowered to: the types and the arguments in it are lowered.
#[verifier::opaque]
pub open spec fn reconstruct_other_intrinsic(
    cx: Context,
    state: State,
    input: IntrinsicExpression,
) -> Step<Lowered>
    decreases input, 0int,
{
    match reconstruct_type_parameters(cx, state, input.type_parameters) {
        Err(halt) => Err(halt),
        Ok((state, type_parameters)) => match reconstruct_moded_types(
            cx,
            state,
            input.input_types,
        ) {
            Err(halt) => Err(halt),
            Ok((state, input_types)) => match reconstruct_moded_types(
                cx,
                state,
                input.return_types,
            ) {
                Err(halt) => Err(halt),
                Ok((state, return_types)) => match reconstruct_list(cx, state, input.arguments) {
                    Err(halt) => Err(halt),
                    Ok((state, (arguments, statements))) => Ok(
                        (
                            state,
                            (
                                Expression::Intrinsic(
                                    Rc::new(
                                        IntrinsicExpression {
                                            type_parameters,
                                            input_types,
                                            return_types,
                                            arguments,
                                            ..input
                                        },
                                    ),
                                ),
                                statements,
                            ),
                        ),
                    ),
                },
            },
        },
    }
}

/// What a built-in operation is lowered to.
#[verifier::opaque]
pub open spec fn reconstruct_intrinsic(
    cx: Context,
    state: State,
    input: IntrinsicExpression,
) -> Step<Lowered>
    decreases input, 1int,
{
    match input.op {
        Intrinsic::VectorPush => reconstruct_vector_push(cx, state, input),
        Intrinsic::VectorLen => match only_vector(state, input.arguments) {
            None => Err(Halt::IllFormed),
            Some((path, _)) => Ok(vector_len(cx, state, path, input.span)),
        },
        Intrinsic::VectorPop => match only_vector(state, input.arguments) {
            None => Err(Halt::IllFormed),
            Some((path, element)) => pop_value(cx, state, path, element, input.span),
        },
        Intrinsic::VectorGet => reconstruct_vector_get(cx, state, input),
        Intrinsic::VectorSet => reconstruct_vector_set(cx, state, input),
        Intrinsic::VectorClear => match only_vector(state, input.arguments) {
            None => Err(Halt::IllFormed),
            Some((path, _)) => Ok(clear_vector(cx, state, path, input.span)),
        },
        Intrinsic::VectorSwapRemove => reconstruct_vector_swap_remove(cx, state, input),
        _ => reconstruct_other_intrinsic(cx, state, input),
    }
}

} // verus!
