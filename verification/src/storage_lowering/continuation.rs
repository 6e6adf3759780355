//! What is left to do once the value of an expression is known.
use crate::ast::{
    ArrayAccess, ArrayExpression, BinaryExpression, CallExpression, CastExpression,
    CompositeExpression, ConditionalStatement, ConstDeclaration, DefinitionStatement,
    DynamicOpExpression, Expression, FieldInitializer, IntrinsicExpression, IterationStatement,
    MemberAccess, RepeatExpression, Span, Statement, Symbol, TernaryExpression, TupleAccess,
    TupleExpression, Type, UnaryExpression,
};
use crate::list::List;
use std::rc::Rc;
use vstd::prelude::*;

verus! {

/// What is done with the value of an expression.
#[derive(Debug)]
pub enum Continuation {
    /// It is an operand; the expression that it is part of goes on.
    Operand(OperandFrame, Rc<Continuation>),
    /// It is an element of a list: `rest` follows, `rebuilt` went before.
    Element { rest: List<Expression>, rebuilt: List<Expression>, next: Rc<ListContinuation> },
    /// It is part of the place of an assignment.
    Place(PlaceFrame, Rc<Continuation>),
    /// A statement is made of it.
    Statement(StatementFrame),
}

/// What is done with the values of a list of expressions.
#[derive(Debug)]
pub struct ListContinuation {
    pub frame: ListFrame,
    pub next: Rc<Continuation>,
}

/// The operand that a value is.
#[derive(Debug)]
pub enum OperandFrame {
    /// The array of an access. The index follows.
    AccessArray { input: Rc<ArrayAccess> },
    AccessIndex { array: Expression, input: Rc<ArrayAccess> },
    /// The left operand. The right one follows.
    BinaryLeft { input: Rc<BinaryExpression> },
    BinaryRight { left: Expression, input: Rc<BinaryExpression> },
    Cast { input: Rc<CastExpression> },
    MemberAccess { input: Rc<MemberAccess> },
    /// The element that is repeated. The count follows.
    RepeatElement { input: Rc<RepeatExpression> },
    RepeatCount { expr: Expression, input: Rc<RepeatExpression> },
    /// The condition of a ternary. `optional_type` is its type, if that is an optional.
    TernaryCondition { input: Rc<TernaryExpression>, optional_type: Option<Type> },
    /// The value of an arm of a ternary.
    TernaryArm { optional_type: Option<Type>, span: Span },
    TupleAccess { input: Rc<TupleAccess> },
    Unary { input: Rc<UnaryExpression> },
    /// The program of a dynamic access. The network and the arguments follow.
    DynamicTarget { input: Rc<DynamicOpExpression> },
    /// The network of a dynamic access. The arguments follow.
    DynamicNetwork { input: Rc<DynamicOpExpression> },
    /// The value of the field `member` of a composite: `done` went before, `rest` follows.
    CompositeMember {
        input: Rc<CompositeExpression>,
        done: List<FieldInitializer>,
        member: FieldInitializer,
        rest: List<FieldInitializer>,
    },
    CompositeBase { input: Rc<CompositeExpression> },
}

/// The part of the place of an assignment that a value is.
#[derive(Debug)]
pub enum PlaceFrame {
    /// The array. The index follows.
    Array { input: Rc<ArrayAccess> },
    Index { array: Expression, input: Rc<ArrayAccess> },
    Member { input: Rc<MemberAccess> },
    Tuple { input: Rc<TupleAccess> },
}

/// The list that values are.
#[derive(Debug)]
pub enum ListFrame {
    Array { input: Rc<ArrayExpression> },
    /// The const arguments of a call. The arguments follow.
    CallConst { input: Rc<CallExpression> },
    CallArguments { input: Rc<CallExpression>, const_arguments: List<Expression> },
    /// The const arguments of a composite. The fields follow.
    CompositeConst { input: Rc<CompositeExpression> },
    DynamicArguments { input: Rc<DynamicOpExpression> },
    /// The arguments of a built-in operation but for `first`.
    Intrinsic { input: Rc<IntrinsicExpression>, first: List<Expression> },
    Tuple { input: Rc<TupleExpression> },
}

/// The statement that is made of a value.
#[derive(Debug)]
pub enum StatementFrame {
    Const { input: Rc<ConstDeclaration>, type_: Type, tail: List<Statement> },
    Definition { input: Rc<DefinitionStatement>, type_: Option<Type>, tail: List<Statement> },
    Assert { span: Span },
    /// The left side of an assertion of equality, or of inequality. The right one follows.
    AssertLeft { equal: bool, right: Expression, span: Span },
    AssertRight { equal: bool, left: Expression, span: Span },
    /// What is written to the storage variable behind `mapping`.
    StorageValue { mapping: Symbol, span: Span },
    /// The place of an assignment. The value follows.
    AssignPlace { value: Expression, span: Span },
    AssignValue { place: Expression, span: Span },
    Expression { keep: bool, span: Span },
    Conditional { input: Rc<ConditionalStatement> },
    /// The start of an iteration. The stop follows.
    IterationStart { input: Rc<IterationStatement>, type_: Option<Type> },
    IterationStop { input: Rc<IterationStatement>, type_: Option<Type>, start: Expression },
    Return { span: Span },
}

} // verus!
