//! What lowered code does: values, local variables and mappings.
use crate::ast::{
    local_path, AssertVariant, BinaryExpression, BinaryOperation, DefinitionPlace, Expression,
    Identifier, IntegerType, Intrinsic, Literal, LiteralVariant, NodeId, PathTarget, Span,
    Statement, Symbol, TernaryExpression, Type,
};
use crate::list::{three, two, List};
use crate::names::{decimal, text_of, Texts};
use crate::state::{location_key, State};
use crate::storage_lowering::builders::{dynamic_get_or_use_expr, intrinsic};
use std::rc::Rc;
use vstd::prelude::*;

verus! {

/// The value of an expression.
pub enum Value {
    Truth(bool),
    /// A `u32`.
    Number(int),
    /// `none`
    Absent,
    /// The name of a program, a network or a mapping.
    Name(Seq<char>),
    /// Any other constant stands for itself.
    Constant(Expression),
}

/// What code runs on: the local variables and the mappings, each under the key of its location, and
/// the mappings of other programs, each under the program, the network and its name.
#[verifier::ext_equal]
pub struct Machine {
    pub names: Texts,
    pub locals: Map<Symbol, Value>,
    pub mappings: Map<Seq<usize>, Map<Value, Value>>,
    pub others: Map<(Value, Value, Value), Map<Value, Value>>,
}

/// The mapping at `key`. A mapping that was never written is empty.
pub open spec fn mapping_at(machine: Machine, key: Seq<usize>) -> Map<Value, Value> {
    if machine.mappings.contains_key(key) {
        machine.mappings[key]
    } else {
        Map::empty()
    }
}

/// The mapping `name` of another program. A mapping that was never written is empty.
pub open spec fn other_at(machine: Machine, program: Value, network: Value, name: Value) -> Map<
    Value,
    Value,
> {
    if machine.others.contains_key((program, network, name)) {
        machine.others[(program, network, name)]
    } else {
        Map::empty()
    }
}

/// The mapping that `expression` names.
pub open spec fn mapping_key(expression: Expression) -> Option<Seq<usize>> {
    match expression {
        Expression::Path(path) => match path.target {
            PathTarget::Global(location) => Some(location_key(*location)),
            _ => None,
        },
        _ => None,
    }
}

/// The number that is written as `text`.
pub open spec fn number_of(text: Seq<char>) -> nat {
    choose|value: nat| #[trigger] decimal(value) == text
}

pub open spec fn literal_value(names: Texts, literal: Literal) -> Value {
    match literal.variant {
        LiteralVariant::Boolean(value) => Value::Truth(value),
        LiteralVariant::Integer(IntegerType::U32, digits) => Value::Number(
            number_of(text_of(names, digits)) as int,
        ),
        LiteralVariant::Absent => Value::Absent,
        LiteralVariant::Identifier(name) => Value::Name(text_of(names, name)),
        _ => Value::Constant(Expression::Literal(literal)),
    }
}

/// `left op right`, for the operators that lowering makes. `None` where the operation fails.
pub open spec fn binary_value(op: BinaryOperation, left: int, right: int) -> Option<Value> {
    match op {
        BinaryOperation::Add => if left + right <= u32::MAX {
            Some(Value::Number(left + right))
        } else {
            None
        },
        BinaryOperation::Sub => if left >= right {
            Some(Value::Number(left - right))
        } else {
            None
        },
        BinaryOperation::SubWrapped => Some(
            Value::Number(
                if left >= right {
                    left - right
                } else {
                    left - right + u32::MAX + 1
                },
            ),
        ),
        BinaryOperation::Gt => Some(Value::Truth(left > right)),
        BinaryOperation::Lt => Some(Value::Truth(left < right)),
        _ => None,
    }
}

pub open spec fn two_of(arguments: List<Expression>) -> Option<(Expression, Expression)> {
    match arguments {
        List::Cons(first, rest) => match *rest {
            List::Cons(second, rest) => match *rest {
                List::Nil => Some((first, second)),
                _ => None,
            },
            _ => None,
        },
        _ => None,
    }
}

pub open spec fn three_of(arguments: List<Expression>) -> Option<
    (Expression, Expression, Expression),
> {
    match arguments {
        List::Cons(first, rest) => match two_of(*rest) {
            Some((second, third)) => Some((first, second, third)),
            None => None,
        },
        _ => None,
    }
}

/// The value of `expression`. `None` if evaluating it fails, or if it is nothing that lowering
/// makes. All operands are evaluated, also in both arms of a ternary.
#[verifier::opaque]
pub open spec fn value_of(machine: Machine, expression: Expression) -> Option<Value>
    decreases expression,
{
    match expression {
        Expression::Path(path) => match path.target {
            PathTarget::Local(symbol) => if machine.locals.contains_key(symbol) {
                Some(machine.locals[symbol])
            } else {
                None
            },
            _ => None,
        },
        Expression::Literal(literal) => Some(literal_value(machine.names, literal)),
        Expression::Binary(input) => match (
            value_of(machine, input.left),
            value_of(machine, input.right),
        ) {
            (Some(Value::Number(left)), Some(Value::Number(right))) => binary_value(
                input.op,
                left,
                right,
            ),
            _ => None,
        },
        Expression::Ternary(input) => match (
            value_of(machine, input.condition),
            value_of(machine, input.if_true),
            value_of(machine, input.if_false),
        ) {
            (Some(Value::Truth(condition)), Some(if_true), Some(if_false)) => if condition {
                Some(if_true)
            } else {
                Some(if_false)
            },
            _ => None,
        },
        Expression::Intrinsic(input) => match input.op {
            Intrinsic::MappingGetOrUse => match input.arguments {
                List::Cons(mapping, rest) => match *rest {
                    List::Cons(key, rest) => match *rest {
                        List::Cons(default, rest) => match *rest {
                            List::Nil => read_or(
                                machine,
                                mapping_key(mapping),
                                value_of(machine, key),
                                value_of(machine, default),
                            ),
                            _ => None,
                        },
                        _ => None,
                    },
                    _ => None,
                },
                _ => None,
            },
            Intrinsic::MappingGet => match input.arguments {
                List::Cons(mapping, rest) => match *rest {
                    List::Cons(key, rest) => match *rest {
                        List::Nil => read(machine, mapping_key(mapping), value_of(machine, key)),
                        _ => None,
                    },
                    _ => None,
                },
                _ => None,
            },
            Intrinsic::MappingContains => match input.arguments {
                List::Cons(mapping, rest) => match *rest {
                    List::Cons(key, rest) => match *rest {
                        List::Nil => holds_key(
                            machine,
                            mapping_key(mapping),
                            value_of(machine, key),
                        ),
                        _ => None,
                    },
                    _ => None,
                },
                _ => None,
            },
            Intrinsic::DynamicContains => match input.arguments {
                List::Cons(program, rest) => match *rest {
                    List::Cons(network, rest) => match *rest {
                        List::Cons(name, rest) => match *rest {
                            List::Cons(key, rest) => match *rest {
                                List::Nil => other_holds_key(
                                    machine,
                                    value_of(machine, program),
                                    value_of(machine, network),
                                    value_of(machine, name),
                                    value_of(machine, key),
                                ),
                                _ => None,
                            },
                            _ => None,
                        },
                        _ => None,
                    },
                    _ => None,
                },
                _ => None,
            },
            Intrinsic::DynamicGetOrUse => match input.arguments {
                List::Cons(program, rest) => match *rest {
                    List::Cons(network, rest) => match *rest {
                        List::Cons(name, rest) => match *rest {
                            List::Cons(key, rest) => match *rest {
                                List::Cons(default, rest) => match *rest {
                                    List::Nil => read_other_or(
                                        machine,
                                        value_of(machine, program),
                                        value_of(machine, network),
                                        value_of(machine, name),
                                        value_of(machine, key),
                                        value_of(machine, default),
                                    ),
                                    _ => None,
                                },
                                _ => None,
                            },
                            _ => None,
                        },
                        _ => None,
                    },
                    _ => None,
                },
                _ => None,
            },
            _ => None,
        },
        Expression::Repeat(_) => Some(Value::Constant(expression)),
        Expression::Composite(_) => Some(Value::Constant(expression)),
        _ => None,
    }
}

/// What `mapping` holds under `key`, else `default`.
pub open spec fn read_or(
    machine: Machine,
    mapping: Option<Seq<usize>>,
    key: Option<Value>,
    default: Option<Value>,
) -> Option<Value> {
    match (mapping, key, default) {
        (Some(mapping), Some(key), Some(default)) => if mapping_at(machine, mapping).contains_key(
            key,
        ) {
            Some(mapping_at(machine, mapping)[key])
        } else {
            Some(default)
        },
        _ => None,
    }
}

/// What `mapping` holds under `key`. It must hold something.
pub open spec fn read(machine: Machine, mapping: Option<Seq<usize>>, key: Option<Value>) -> Option<
    Value,
> {
    match (mapping, key) {
        (Some(mapping), Some(key)) => if mapping_at(machine, mapping).contains_key(key) {
            Some(mapping_at(machine, mapping)[key])
        } else {
            None
        },
        _ => None,
    }
}

/// Whether `mapping` holds something under `key`.
pub open spec fn holds_key(
    machine: Machine,
    mapping: Option<Seq<usize>>,
    key: Option<Value>,
) -> Option<Value> {
    match (mapping, key) {
        (Some(mapping), Some(key)) => Some(
            Value::Truth(mapping_at(machine, mapping).contains_key(key)),
        ),
        _ => None,
    }
}

/// Whether the mapping `name` of another program holds something under `key`.
pub open spec fn other_holds_key(
    machine: Machine,
    program: Option<Value>,
    network: Option<Value>,
    name: Option<Value>,
    key: Option<Value>,
) -> Option<Value> {
    match (program, network, name, key) {
        (Some(program), Some(network), Some(name), Some(key)) => Some(
            Value::Truth(other_at(machine, program, network, name).contains_key(key)),
        ),
        _ => None,
    }
}

/// What the mapping `name` of another program holds under `key`, else `default`.
pub open spec fn read_other_or(
    machine: Machine,
    program: Option<Value>,
    network: Option<Value>,
    name: Option<Value>,
    key: Option<Value>,
    default: Option<Value>,
) -> Option<Value> {
    match (program, network, name, key, default) {
        (Some(program), Some(network), Some(name), Some(key), Some(default)) => Some(
            if other_at(machine, program, network, name).contains_key(key) {
                other_at(machine, program, network, name)[key]
            } else {
                default
            },
        ),
        _ => None,
    }
}

/// The machine after `expression`, which must be a write of a mapping, was evaluated.
pub open spec fn written(machine: Machine, expression: Expression) -> Option<Machine> {
    match expression {
        Expression::Intrinsic(input) => match input.op {
            Intrinsic::MappingSet => match three_of(input.arguments) {
                Some((mapping, key, value)) => match (
                    mapping_key(mapping),
                    value_of(machine, key),
                    value_of(machine, value),
                ) {
                    (Some(mapping), Some(key), Some(value)) => Some(
                        Machine {
                            mappings: machine.mappings.insert(
                                mapping,
                                mapping_at(machine, mapping).insert(key, value),
                            ),
                            ..machine
                        },
                    ),
                    _ => None,
                },
                None => None,
            },
            Intrinsic::MappingRemove => match two_of(input.arguments) {
                Some((mapping, key)) => match (mapping_key(mapping), value_of(machine, key)) {
                    (Some(mapping), Some(key)) => Some(
                        Machine {
                            mappings: machine.mappings.insert(
                                mapping,
                                mapping_at(machine, mapping).remove(key),
                            ),
                            ..machine
                        },
                    ),
                    _ => None,
                },
                None => None,
            },
            _ => None,
        },
        _ => None,
    }
}

/// The machine after `statement` ran. `None` if it fails, or if it is nothing that lowering a
/// storage access makes.
pub open spec fn ran_statement(machine: Machine, statement: Statement) -> Option<Machine> {
    match statement {
        Statement::Definition(input) => match (input.place, value_of(machine, input.value)) {
            (DefinitionPlace::Single(identifier), Some(value)) => Some(
                Machine { locals: machine.locals.insert(identifier.name, value), ..machine },
            ),
            _ => None,
        },
        Statement::Assert(input) => match input.variant {
            AssertVariant::Assert(condition) => if value_of(machine, condition) == Some(
                Value::Truth(true),
            ) {
                Some(machine)
            } else {
                None
            },
            _ => None,
        },
        Statement::Expression(input) => written(machine, input.expression),
        _ => None,
    }
}

/// The machine after `statements` ran, one after the other.
pub open spec fn ran_all(machine: Machine, statements: List<Statement>) -> Option<Machine>
    decreases statements,
{
    match statements {
        List::Nil => Some(machine),
        List::Cons(first, rest) => match ran_statement(machine, first) {
            None => None,
            Some(machine) => ran_all(machine, *rest),
        },
    }
}

/* What the definitions say of each kind of node */

pub broadcast proof fn value_of_local(machine: Machine, identifier: Identifier)
    ensures
        #[trigger] value_of(machine, local_path(identifier)) == if machine.locals.contains_key(
            identifier.name,
        ) {
            Some(machine.locals[identifier.name])
        } else {
            None
        },
{
    reveal(value_of);
}

pub broadcast proof fn value_of_literal(machine: Machine, literal: Literal)
    ensures
        #[trigger] value_of(machine, Expression::Literal(literal)) == Some(
            literal_value(machine.names, literal),
        ),
{
    reveal(value_of);
}

pub broadcast proof fn value_of_binary(machine: Machine, input: BinaryExpression)
    ensures
        #[trigger] value_of(machine, Expression::Binary(Rc::new(input))) == match (
            value_of(machine, input.left),
            value_of(machine, input.right),
        ) {
            (Some(Value::Number(left)), Some(Value::Number(right))) => binary_value(
                input.op,
                left,
                right,
            ),
            _ => None,
        },
{
    reveal(value_of);
}

pub broadcast proof fn value_of_ternary(machine: Machine, input: TernaryExpression)
    ensures
        #[trigger] value_of(machine, Expression::Ternary(Rc::new(input))) == match (
            value_of(machine, input.condition),
            value_of(machine, input.if_true),
            value_of(machine, input.if_false),
        ) {
            (Some(Value::Truth(condition)), Some(if_true), Some(if_false)) => if condition {
                Some(if_true)
            } else {
                Some(if_false)
            },
            _ => None,
        },
{
    reveal(value_of);
}

pub broadcast proof fn value_of_get_or_use(
    machine: Machine,
    mapping: Expression,
    key: Expression,
    default: Expression,
    span: Span,
    id: NodeId,
)
    ensures
        #[trigger] value_of(
            machine,
            intrinsic(Intrinsic::MappingGetOrUse, three(mapping, key, default), span, id),
        ) == read_or(
            machine,
            mapping_key(mapping),
            value_of(machine, key),
            value_of(machine, default),
        ),
{
    reveal(value_of);
}

pub broadcast proof fn value_of_get(
    machine: Machine,
    mapping: Expression,
    key: Expression,
    span: Span,
    id: NodeId,
)
    ensures
        #[trigger] value_of(
            machine,
            intrinsic(Intrinsic::MappingGet, two(mapping, key), span, id),
        ) == read(machine, mapping_key(mapping), value_of(machine, key)),
{
    reveal(value_of);
}

pub broadcast proof fn value_of_contains(
    machine: Machine,
    mapping: Expression,
    key: Expression,
    span: Span,
    id: NodeId,
)
    ensures
        #[trigger] value_of(
            machine,
            intrinsic(Intrinsic::MappingContains, two(mapping, key), span, id),
        ) == holds_key(machine, mapping_key(mapping), value_of(machine, key)),
{
    reveal(value_of);
}

pub broadcast proof fn value_of_other_contains(
    machine: Machine,
    program: Expression,
    network: Expression,
    name: Expression,
    key: Expression,
    span: Span,
    id: NodeId,
)
    ensures
        #[trigger] value_of(
            machine,
            intrinsic(
                Intrinsic::DynamicContains,
                List::Cons(program, Rc::new(three(network, name, key))),
                span,
                id,
            ),
        ) == other_holds_key(
            machine,
            value_of(machine, program),
            value_of(machine, network),
            value_of(machine, name),
            value_of(machine, key),
        ),
{
    reveal(value_of);
}

pub broadcast proof fn value_of_other_read(
    machine: Machine,
    state: State,
    program: Expression,
    network: Expression,
    name: Expression,
    key: Expression,
    default: Expression,
    type_: Type,
    span: Span,
)
    ensures
        #[trigger] value_of(
            machine,
            (dynamic_get_or_use_expr(
                state,
                program,
                network,
                name,
                key,
                default,
                type_,
                span,
            )).1,
        ) == read_other_or(
            machine,
            value_of(machine, program),
            value_of(machine, network),
            value_of(machine, name),
            value_of(machine, key),
            value_of(machine, default),
        ),
{
    reveal(value_of);
}

pub broadcast group group_values {
    value_of_other_contains,
    value_of_other_read,
    value_of_local,
    value_of_literal,
    value_of_binary,
    value_of_ternary,
    value_of_get_or_use,
    value_of_get,
    value_of_contains,
}

} // verus!
