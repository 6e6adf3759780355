//! What code does, before and after lowering, whatever its values and its store are.
use crate::ast::{
    no_span, ArrayAccess, ArrayExpression, AssertVariant, BinaryExpression, CallExpression,
    CastExpression, CompositeExpression, DefinitionPlace, DynamicOpExpression, DynamicOpKind,
    Expression, FieldInitializer, Identifier, IntrinsicExpression, MemberAccess, PathTarget,
    RepeatExpression, Statement, Symbol, TupleAccess, TupleExpression, UnaryExpression,
    UnitExpression,
};
use crate::list::{one, List};
use crate::storage_lowering::emit::takes_vector;
use crate::storage_lowering::predicates::{
    expression_may_emit_after_reconstruction, path_reconstructs_to_branch_cps,
};
use crate::storage_lowering::visitor::Context;
use std::rc::Rc;
use vstd::prelude::*;

verus! {

/* Expressions */

/// What values are and what is done with them. `V` are values, `S` is what storage and the chain
/// hold.
#[verifier::reject_recursive_types(V)]
#[verifier::reject_recursive_types(S)]
pub struct Model<V, S> {
    /// What an expression makes of the values of its operands, where it looks at nothing else.
    pub apply: spec_fn(Expression, Seq<Seq<V>>) -> Option<V>,
    /// What a call, an operation or an access to storage makes of them, and of the store.
    pub act: spec_fn(Expression, Seq<Seq<V>>, S) -> Option<(S, V)>,
    /// The truth that a value is, if it is one.
    pub truth: spec_fn(V) -> Option<bool>,
    /// The values in a tuple.
    pub parts: spec_fn(V) -> Seq<V>,
    /// The value of a variable once a place in it was assigned to. The indices in the place are
    /// given by their values.
    pub update: spec_fn(Expression, V, Seq<V>, V) -> Option<V>,
}

/// What stands for an operand where its value is given.
pub open spec fn blank() -> Expression {
    Expression::Unit(UnitExpression { span: no_span(), id: 0 })
}

/// `members` without their values.
pub open spec fn blank_members(members: List<FieldInitializer>) -> List<FieldInitializer>
    decreases members,
{
    match members {
        List::Nil => List::Nil,
        List::Cons(first, rest) => List::Cons(
            FieldInitializer {
                expression: match first.expression {
                    Some(_) => Some(blank()),
                    None => None,
                },
                ..first
            },
            Rc::new(blank_members(*rest)),
        ),
    }
}

pub open spec fn blank_kind(kind: DynamicOpKind) -> DynamicOpKind {
    match kind {
        DynamicOpKind::Read { storage } => DynamicOpKind::Read { storage },
        DynamicOpKind::Op { member, op, arguments: _ } => DynamicOpKind::Op {
            member,
            op,
            arguments: List::Nil,
        },
        DynamicOpKind::Call { function, arguments: _ } => DynamicOpKind::Call {
            function,
            arguments: List::Nil,
        },
    }
}

/// `expression` without its operands. The vector that an operation works on is none.
pub open spec fn head(expression: Expression) -> Expression {
    match expression {
        Expression::Array(input) => Expression::Array(
            Rc::new(ArrayExpression { elements: List::Nil, ..*input }),
        ),
        Expression::ArrayAccess(input) => Expression::ArrayAccess(
            Rc::new(ArrayAccess { array: blank(), index: blank(), ..*input }),
        ),
        Expression::Binary(input) => Expression::Binary(
            Rc::new(BinaryExpression { left: blank(), right: blank(), ..*input }),
        ),
        Expression::Call(input) => Expression::Call(
            Rc::new(
                CallExpression { const_arguments: List::Nil, arguments: List::Nil, ..*input },
            ),
        ),
        Expression::Cast(input) => Expression::Cast(
            Rc::new(CastExpression { expression: blank(), ..*input }),
        ),
        Expression::Composite(input) => Expression::Composite(
            Rc::new(
                CompositeExpression {
                    const_arguments: List::Nil,
                    members: blank_members(input.members),
                    base: None,
                    ..*input
                },
            ),
        ),
        Expression::DynamicOp(input) => Expression::DynamicOp(
            Rc::new(
                DynamicOpExpression {
                    target_program: blank(),
                    network: None,
                    kind: blank_kind(input.kind),
                    ..*input
                },
            ),
        ),
        Expression::Intrinsic(input) => Expression::Intrinsic(
            Rc::new(
                IntrinsicExpression {
                    arguments: match input.arguments {
                        List::Cons(vector, _) => if takes_vector(input.op) {
                            one(vector)
                        } else {
                            List::Nil
                        },
                        List::Nil => List::Nil,
                    },
                    ..*input
                },
            ),
        ),
        Expression::MemberAccess(input) => Expression::MemberAccess(
            Rc::new(MemberAccess { inner: blank(), ..*input }),
        ),
        Expression::Repeat(input) => Expression::Repeat(
            Rc::new(RepeatExpression { expr: blank(), count: blank(), ..*input }),
        ),
        Expression::Tuple(input) => Expression::Tuple(
            Rc::new(TupleExpression { elements: List::Nil, ..*input }),
        ),
        Expression::TupleAccess(input) => Expression::TupleAccess(
            Rc::new(TupleAccess { tuple: blank(), ..*input }),
        ),
        Expression::Unary(input) => Expression::Unary(
            Rc::new(UnaryExpression { receiver: blank(), ..*input }),
        ),
        _ => expression,
    }
}

/// What evaluating gives: the store after it and the value. `None` if it fails.
pub type Evaluated<V, S> = Option<(S, V)>;

/// What evaluating operands gives: the store after it and the values, group by group.
pub type Operands<V, S> = Option<(S, Seq<Seq<V>>)>;

pub open spec fn applied<V, S>(
    model: Model<V, S>,
    expression: Expression,
    operands: Operands<V, S>,
) -> Evaluated<V, S> {
    match operands {
        None => None,
        Some((store, values)) => match (model.apply)(head(expression), values) {
            None => None,
            Some(value) => Some((store, value)),
        },
    }
}

pub open spec fn acted<V, S>(
    model: Model<V, S>,
    expression: Expression,
    operands: Operands<V, S>,
) -> Evaluated<V, S> {
    match operands {
        None => None,
        Some((store, values)) => (model.act)(head(expression), values, store),
    }
}

pub open spec fn grouped<V, S>(evaluated: Evaluated<V, S>) -> Operands<V, S> {
    match evaluated {
        None => None,
        Some((store, value)) => Some((store, seq![seq![value]])),
    }
}

/// The store after `expression` was evaluated, and its value. Operands are evaluated from left to
/// right, each exactly once. Of the arms of a ternary only the selected one is, where one of them
/// works on storage; else both are.
#[verifier::opaque]
pub open spec fn eval<V, S>(
    cx: Context,
    model: Model<V, S>,
    locals: Map<Symbol, V>,
    store: S,
    expression: Expression,
) -> Evaluated<V, S>
    decreases expression,
{
    match expression {
        Expression::Path(path) => match path.target {
            PathTarget::Local(symbol) => if locals.contains_key(symbol) {
                Some((store, locals[symbol]))
            } else {
                None
            },
            _ => if path_reconstructs_to_branch_cps(cx, *path) {
                (model.act)(expression, Seq::empty(), store)
            } else {
                applied(model, expression, Some((store, Seq::empty())))
            },
        },
        Expression::Array(input) => applied(
            model,
            expression,
            as_group(eval_all(cx, model, locals, store, input.elements)),
        ),
        Expression::Tuple(input) => applied(
            model,
            expression,
            as_group(eval_all(cx, model, locals, store, input.elements)),
        ),
        Expression::ArrayAccess(input) => match eval(cx, model, locals, store, input.array) {
            None => None,
            Some((store, first)) => match eval(cx, model, locals, store, input.index) {
                None => None,
                Some((store, second)) => applied(
                    model,
                    expression,
                    Some((store, seq![seq![first], seq![second]])),
                ),
            },
        },
        Expression::Binary(input) => match eval(cx, model, locals, store, input.left) {
            None => None,
            Some((store, first)) => match eval(cx, model, locals, store, input.right) {
                None => None,
                Some((store, second)) => applied(
                    model,
                    expression,
                    Some((store, seq![seq![first], seq![second]])),
                ),
            },
        },
        Expression::Repeat(input) => match eval(cx, model, locals, store, input.expr) {
            None => None,
            Some((store, first)) => match eval(cx, model, locals, store, input.count) {
                None => None,
                Some((store, second)) => applied(
                    model,
                    expression,
                    Some((store, seq![seq![first], seq![second]])),
                ),
            },
        },
        Expression::Cast(input) => applied(
            model,
            expression,
            grouped(eval(cx, model, locals, store, input.expression)),
        ),
        Expression::MemberAccess(input) => applied(
            model,
            expression,
            grouped(eval(cx, model, locals, store, input.inner)),
        ),
        Expression::TupleAccess(input) => applied(
            model,
            expression,
            grouped(eval(cx, model, locals, store, input.tuple)),
        ),
        Expression::Unary(input) => applied(
            model,
            expression,
            grouped(eval(cx, model, locals, store, input.receiver)),
        ),
        Expression::Call(input) => match eval_all(
            cx,
            model,
            locals,
            store,
            input.const_arguments,
        ) {
            None => None,
            Some((store, first)) => match eval_all(cx, model, locals, store, input.arguments) {
                None => None,
                Some((store, second)) => acted(
                    model,
                    expression,
                    Some((store, seq![first, second])),
                ),
            },
        },
        Expression::Composite(input) => match eval_all(
            cx,
            model,
            locals,
            store,
            input.const_arguments,
        ) {
            None => None,
            Some((store, first)) => match eval_members(cx, model, locals, store, input.members) {
                None => None,
                Some((store, second)) => match eval_option(cx, model, locals, store, input.base) {
                    None => None,
                    Some((store, third)) => applied(
                        model,
                        expression,
                        Some((store, seq![first, second, third])),
                    ),
                },
            },
        },
        Expression::DynamicOp(input) => match eval(
            cx,
            model,
            locals,
            store,
            input.target_program,
        ) {
            None => None,
            Some((store, first)) => match eval_option(cx, model, locals, store, input.network) {
                None => None,
                Some((store, second)) => match eval_kind(cx, model, locals, store, input.kind) {
                    None => None,
                    Some((store, third)) => acted(
                        model,
                        expression,
                        Some((store, seq![seq![first], second, third])),
                    ),
                },
            },
        },
        Expression::Intrinsic(input) => if takes_vector(input.op) {
            match input.arguments {
                List::Nil => None,
                List::Cons(_, values) => acted(
                    model,
                    expression,
                    as_group(eval_all(cx, model, locals, store, *values)),
                ),
            }
        } else {
            acted(
                model,
                expression,
                as_group(eval_all(cx, model, locals, store, input.arguments)),
            )
        },
        Expression::Ternary(input) => match eval(cx, model, locals, store, input.condition) {
            None => None,
            Some((store, condition)) => match (model.truth)(condition) {
                None => None,
                Some(truth) => if expression_may_emit_after_reconstruction(cx, input.if_true)
                    || expression_may_emit_after_reconstruction(cx, input.if_false) {
                    if truth {
                        eval(cx, model, locals, store, input.if_true)
                    } else {
                        eval(cx, model, locals, store, input.if_false)
                    }
                } else {
                    match eval(cx, model, locals, store, input.if_true) {
                        None => None,
                        Some((store, first)) => match eval(
                            cx,
                            model,
                            locals,
                            store,
                            input.if_false,
                        ) {
                            None => None,
                            Some((store, second)) => Some(
                                (
                                    store,
                                    if truth {
                                        first
                                    } else {
                                        second
                                    },
                                ),
                            ),
                        },
                    }
                },
            },
        },
        _ => applied(model, expression, Some((store, Seq::empty()))),
    }
}

pub open spec fn as_group<V, S>(evaluated: Option<(S, Seq<V>)>) -> Operands<V, S> {
    match evaluated {
        None => None,
        Some((store, values)) => Some((store, seq![values])),
    }
}

#[verifier::opaque]
pub open spec fn eval_all<V, S>(
    cx: Context,
    model: Model<V, S>,
    locals: Map<Symbol, V>,
    store: S,
    expressions: List<Expression>,
) -> Option<(S, Seq<V>)>
    decreases expressions,
{
    match expressions {
        List::Nil => Some((store, Seq::empty())),
        List::Cons(first, rest) => match eval(cx, model, locals, store, first) {
            None => None,
            Some((store, value)) => match eval_all(cx, model, locals, store, *rest) {
                None => None,
                Some((store, values)) => Some((store, seq![value] + values)),
            },
        },
    }
}

#[verifier::opaque]
pub open spec fn eval_members<V, S>(
    cx: Context,
    model: Model<V, S>,
    locals: Map<Symbol, V>,
    store: S,
    members: List<FieldInitializer>,
) -> Option<(S, Seq<V>)>
    decreases members,
{
    match members {
        List::Nil => Some((store, Seq::empty())),
        List::Cons(first, rest) => match eval_option(cx, model, locals, store, first.expression) {
            None => None,
            Some((store, value)) => match eval_members(cx, model, locals, store, *rest) {
                None => None,
                Some((store, values)) => Some((store, value + values)),
            },
        },
    }
}

#[verifier::opaque]
pub open spec fn eval_option<V, S>(
    cx: Context,
    model: Model<V, S>,
    locals: Map<Symbol, V>,
    store: S,
    expression: Option<Expression>,
) -> Option<(S, Seq<V>)>
    decreases expression,
{
    match expression {
        None => Some((store, Seq::empty())),
        Some(expression) => match eval(cx, model, locals, store, expression) {
            None => None,
            Some((store, value)) => Some((store, seq![value])),
        },
    }
}

#[verifier::opaque]
pub open spec fn eval_kind<V, S>(
    cx: Context,
    model: Model<V, S>,
    locals: Map<Symbol, V>,
    store: S,
    kind: DynamicOpKind,
) -> Option<(S, Seq<V>)>
    decreases kind,
{
    match kind {
        DynamicOpKind::Read { .. } => Some((store, Seq::empty())),
        DynamicOpKind::Op { arguments, .. } => eval_all(cx, model, locals, store, arguments),
        DynamicOpKind::Call { arguments, .. } => eval_all(cx, model, locals, store, arguments),
    }
}

/* Statements */

/// How running statements ends.
pub enum Outcome<V, S> {
    /// Something failed.
    Fails,
    /// All of them ran. The local variables and the store.
    Goes(Map<Symbol, V>, S),
    /// One of them returned. The store and what is returned.
    Returns(S, V),
}

/// The variable at the root of a place.
pub open spec fn root_of(place: Expression) -> Option<Symbol>
    decreases place,
{
    match place {
        Expression::Path(path) => match path.target {
            PathTarget::Local(symbol) => Some(symbol),
            _ => None,
        },
        Expression::ArrayAccess(input) => root_of(input.array),
        Expression::MemberAccess(input) => root_of(input.inner),
        Expression::TupleAccess(input) => root_of(input.tuple),
        _ => None,
    }
}

/// The values of the indices in a place, from left to right.
pub open spec fn eval_indices<V, S>(
    cx: Context,
    model: Model<V, S>,
    locals: Map<Symbol, V>,
    store: S,
    place: Expression,
) -> Option<(S, Seq<V>)>
    decreases place,
{
    match place {
        Expression::ArrayAccess(input) => match eval_indices(
            cx,
            model,
            locals,
            store,
            input.array,
        ) {
            None => None,
            Some((store, indices)) => match eval(cx, model, locals, store, input.index) {
                None => None,
                Some((store, index)) => Some((store, indices.push(index))),
            },
        },
        Expression::MemberAccess(input) => eval_indices(cx, model, locals, store, input.inner),
        Expression::TupleAccess(input) => eval_indices(cx, model, locals, store, input.tuple),
        _ => Some((store, Seq::empty())),
    }
}

/// `place` without its indices.
pub open spec fn blank_place(place: Expression) -> Expression
    decreases place,
{
    match place {
        Expression::ArrayAccess(input) => Expression::ArrayAccess(
            Rc::new(ArrayAccess { array: blank_place(input.array), index: blank(), ..*input }),
        ),
        Expression::MemberAccess(input) => Expression::MemberAccess(
            Rc::new(MemberAccess { inner: blank_place(input.inner), ..*input }),
        ),
        Expression::TupleAccess(input) => Expression::TupleAccess(
            Rc::new(TupleAccess { tuple: blank_place(input.tuple), ..*input }),
        ),
        _ => place,
    }
}

/// The local variables once those that a definition names were given the values in a tuple.
pub open spec fn with_parts<V>(
    locals: Map<Symbol, V>,
    names: Seq<Identifier>,
    values: Seq<V>,
) -> Option<Map<Symbol, V>>
    decreases names.len(),
{
    if names.len() != values.len() {
        None
    } else if names.len() == 0 {
        Some(locals)
    } else {
        match with_parts(locals, names.drop_last(), values.drop_last()) {
            None => None,
            Some(locals) => Some(locals.insert(names.last().name, values.last())),
        }
    }
}

/// What running `statement` does. Assigning to a storage variable is something that its path does
/// with the value. An iteration is none of the statements that are lowered.
#[verifier::opaque]
pub open spec fn run<V, S>(
    cx: Context,
    model: Model<V, S>,
    locals: Map<Symbol, V>,
    store: S,
    statement: Statement,
) -> Outcome<V, S>
    decreases statement,
{
    match statement {
        Statement::Assert(input) => match input.variant {
            AssertVariant::Assert(expression) => match eval(cx, model, locals, store, expression) {
                Some((store, value)) => if (model.truth)(value) == Some(true) {
                    Outcome::Goes(locals, store)
                } else {
                    Outcome::Fails
                },
                None => Outcome::Fails,
            },
            AssertVariant::AssertEq(left, right) => match eval(cx, model, locals, store, left) {
                Some((store, first)) => match eval(cx, model, locals, store, right) {
                    Some((store, second)) => if first == second {
                        Outcome::Goes(locals, store)
                    } else {
                        Outcome::Fails
                    },
                    None => Outcome::Fails,
                },
                None => Outcome::Fails,
            },
            AssertVariant::AssertNeq(left, right) => match eval(cx, model, locals, store, left) {
                Some((store, first)) => match eval(cx, model, locals, store, right) {
                    Some((store, second)) => if first != second {
                        Outcome::Goes(locals, store)
                    } else {
                        Outcome::Fails
                    },
                    None => Outcome::Fails,
                },
                None => Outcome::Fails,
            },
        },
        Statement::Assign(input) => match root_of(input.place) {
            None => match eval(cx, model, locals, store, input.value) {
                None => Outcome::Fails,
                Some((store, value)) => match (model.act)(
                    input.place,
                    seq![seq![value]],
                    store,
                ) {
                    None => Outcome::Fails,
                    Some((store, _)) => Outcome::Goes(locals, store),
                },
            },
            Some(symbol) => match eval_indices(cx, model, locals, store, input.place) {
                None => Outcome::Fails,
                Some((store, indices)) => match eval(cx, model, locals, store, input.value) {
                    None => Outcome::Fails,
                    Some((store, value)) => if locals.contains_key(symbol) {
                        match (model.update)(
                            blank_place(input.place),
                            locals[symbol],
                            indices,
                            value,
                        ) {
                            None => Outcome::Fails,
                            Some(value) => Outcome::Goes(locals.insert(symbol, value), store),
                        }
                    } else {
                        Outcome::Fails
                    },
                },
            },
        },
        Statement::Block(block) => run_all(cx, model, locals, store, block.statements),
        Statement::Conditional(input) => match eval(cx, model, locals, store, input.condition) {
            None => Outcome::Fails,
            Some((store, condition)) => match (model.truth)(condition) {
                None => Outcome::Fails,
                Some(true) => run_all(cx, model, locals, store, input.then_block.statements),
                Some(false) => match input.otherwise {
                    None => Outcome::Goes(locals, store),
                    Some(otherwise) => run(cx, model, locals, store, otherwise),
                },
            },
        },
        Statement::Const(input) => match eval(cx, model, locals, store, input.value) {
            None => Outcome::Fails,
            Some((store, value)) => Outcome::Goes(locals.insert(input.place.name, value), store),
        },
        Statement::Definition(input) => match eval(cx, model, locals, store, input.value) {
            None => Outcome::Fails,
            Some((store, value)) => match input.place {
                DefinitionPlace::Single(identifier) => Outcome::Goes(
                    locals.insert(identifier.name, value),
                    store,
                ),
                DefinitionPlace::Multiple(identifiers) => match with_parts(
                    locals,
                    identifiers@,
                    (model.parts)(value),
                ) {
                    None => Outcome::Fails,
                    Some(locals) => Outcome::Goes(locals, store),
                },
            },
        },
        Statement::Expression(input) => match eval(cx, model, locals, store, input.expression) {
            None => Outcome::Fails,
            Some((store, _)) => Outcome::Goes(locals, store),
        },
        Statement::Iteration(_) => Outcome::Fails,
        Statement::Return(input) => match eval(cx, model, locals, store, input.expression) {
            None => Outcome::Fails,
            Some((store, value)) => Outcome::Returns(store, value),
        },
    }
}

/// What running `statements` does, one after the other.
#[verifier::opaque]
pub open spec fn run_all<V, S>(
    cx: Context,
    model: Model<V, S>,
    locals: Map<Symbol, V>,
    store: S,
    statements: List<Statement>,
) -> Outcome<V, S>
    decreases statements,
{
    match statements {
        List::Nil => Outcome::Goes(locals, store),
        List::Cons(first, rest) => match run(cx, model, locals, store, first) {
            Outcome::Goes(locals, store) => run_all(cx, model, locals, store, *rest),
            other => other,
        },
    }
}

} // verus!
