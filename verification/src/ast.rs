//! The syntax tree that the passes work on.
//!
//! Nodes are immutable and shared. The tree is made of enums and structs alone, so equality in
//! contracts is equality of trees.
use crate::list::{List, Share};
use std::rc::Rc;
use vstd::prelude::*;

verus! {

/// The number that identifies a node of the tree.
pub type NodeId = u32;

/// An interned name: its position in the table of names.
#[derive(Clone, Copy, Debug, PartialEq, Eq, Structural)]
pub struct Symbol {
    pub index: usize,
}

/// A range of source text.
#[derive(Clone, Copy, Debug, PartialEq, Eq, Structural)]
pub struct Span {
    pub lo: u32,
    pub hi: u32,
}

/// The span of nodes that no source text stands for.
pub open spec fn no_span() -> Span {
    Span { lo: 0, hi: 0 }
}

impl Span {
    /// The span of nodes that no source text stands for.
    pub fn none() -> (r: Span)
        ensures
            r == no_span(),
    {
        Span { lo: 0, hi: 0 }
    }

    /// The smallest span that covers both.
    pub open spec fn spec_join(self, other: Span) -> Span {
        Span {
            lo: if self.lo <= other.lo {
                self.lo
            } else {
                other.lo
            },
            hi: if self.hi >= other.hi {
                self.hi
            } else {
                other.hi
            },
        }
    }

    /// The smallest span that covers both.
    pub fn join(self, other: Span) -> (r: Span)
        ensures
            r == self.spec_join(other),
    {
        Span {
            lo: if self.lo <= other.lo {
                self.lo
            } else {
                other.lo
            },
            hi: if self.hi >= other.hi {
                self.hi
            } else {
                other.hi
            },
        }
    }
}

#[derive(Clone, Copy, Debug, PartialEq, Eq, Structural)]
pub struct Identifier {
    pub name: Symbol,
    pub span: Span,
    pub id: NodeId,
}

/// The name of a program, with its network, and where it was written.
#[derive(Clone, Copy, Debug, PartialEq, Eq, Structural)]
pub struct ProgramId {
    pub symbol: Symbol,
    pub span: Span,
}

impl Share for Symbol {
    fn share(&self) -> (r: Self) {
        *self
    }
}

impl Share for Identifier {
    fn share(&self) -> (r: Self) {
        *self
    }
}

/* Paths */

/// A global item: the program that holds it and the path to it there, module by module.
#[derive(Debug, PartialEq, Eq)]
pub struct Location {
    pub program: Symbol,
    pub path: List<Symbol>,
}

/// What a path stands for.
#[derive(Debug, PartialEq, Eq)]
pub enum PathTarget {
    Unresolved,
    Local(Symbol),
    Global(Rc<Location>),
}

#[derive(Debug, PartialEq, Eq)]
pub struct Path {
    /// The program that the source names in front of the path.
    pub user_program: Option<ProgramId>,
    /// The modules between the program and the identifier.
    pub qualifier: List<Identifier>,
    pub identifier: Identifier,
    pub target: PathTarget,
    pub span: Span,
    pub id: NodeId,
}

/* Types */

#[derive(Clone, Copy, Debug, PartialEq, Eq, Structural)]
pub enum IntegerType {
    U8,
    U16,
    U32,
    U64,
    U128,
    I8,
    I16,
    I32,
    I64,
    I128,
}

#[derive(Debug, PartialEq, Eq)]
pub enum Type {
    Address,
    Array(Rc<ArrayType>),
    Boolean,
    Composite(Rc<CompositeType>),
    Error,
    Field,
    Future(Rc<FutureType>),
    Group,
    Identifier,
    Integer(IntegerType),
    Mapping(Rc<MappingType>),
    Optional(Rc<Type>),
    Scalar,
    Signature,
    String,
    Tuple(Rc<List<Type>>),
    Unit,
    Vector(Rc<Type>),
}

#[derive(Debug, PartialEq, Eq)]
pub struct ArrayType {
    pub element_type: Type,
    pub length: Expression,
}

#[derive(Debug, PartialEq, Eq)]
pub struct CompositeType {
    pub path: Rc<Path>,
    pub const_arguments: List<Expression>,
}

#[derive(Debug, PartialEq, Eq)]
pub struct FutureType {
    pub inputs: List<Type>,
    /// The function whose call made the future, where it is known.
    pub location: Option<Rc<Location>>,
}

#[derive(Debug, PartialEq, Eq)]
pub struct MappingType {
    pub key: Type,
    pub value: Type,
}

impl Share for Type {
    fn share(&self) -> (r: Self) {
        match self {
            Type::Address => Type::Address,
            Type::Array(inner) => Type::Array(inner.clone()),
            Type::Boolean => Type::Boolean,
            Type::Composite(inner) => Type::Composite(inner.clone()),
            Type::Error => Type::Error,
            Type::Field => Type::Field,
            Type::Future(inner) => Type::Future(inner.clone()),
            Type::Group => Type::Group,
            Type::Identifier => Type::Identifier,
            Type::Integer(integer) => Type::Integer(*integer),
            Type::Mapping(inner) => Type::Mapping(inner.clone()),
            Type::Optional(inner) => Type::Optional(inner.clone()),
            Type::Scalar => Type::Scalar,
            Type::Signature => Type::Signature,
            Type::String => Type::String,
            Type::Tuple(inner) => Type::Tuple(inner.clone()),
            Type::Unit => Type::Unit,
            Type::Vector(inner) => Type::Vector(inner.clone()),
        }
    }
}

/* Expressions */

#[derive(Clone, Copy, Debug, PartialEq, Eq, Structural)]
pub enum BinaryOperation {
    Add,
    AddWrapped,
    And,
    BitwiseAnd,
    BitwiseOr,
    Div,
    DivWrapped,
    Eq,
    Gt,
    Gte,
    Lt,
    Lte,
    Mod,
    Mul,
    MulWrapped,
    Nand,
    Neq,
    Nor,
    Or,
    Pow,
    PowWrapped,
    Rem,
    RemWrapped,
    Shl,
    ShlWrapped,
    Shr,
    ShrWrapped,
    Sub,
    SubWrapped,
    Xor,
}

#[derive(Clone, Copy, Debug, PartialEq, Eq, Structural)]
pub enum UnaryOperation {
    Abs,
    AbsWrapped,
    Double,
    Inverse,
    Negate,
    Not,
    Square,
    SquareRoot,
    ToXCoordinate,
    ToYCoordinate,
}

/// The built-in operations. Those on storage are told apart; any other keeps its name.
#[derive(Clone, Copy, Debug, PartialEq, Eq, Structural)]
pub enum Intrinsic {
    MappingGet,
    MappingGetOrUse,
    MappingContains,
    MappingSet,
    MappingRemove,
    DynamicGet,
    DynamicGetOrUse,
    DynamicContains,
    VectorPush,
    VectorPop,
    VectorGet,
    VectorSet,
    VectorLen,
    VectorClear,
    VectorSwapRemove,
    Other(Symbol),
}

/// Literals keep their source text, interned.
#[derive(Clone, Copy, Debug, PartialEq, Eq, Structural)]
pub enum LiteralVariant {
    Address(Symbol),
    Boolean(bool),
    Field(Symbol),
    Group(Symbol),
    Identifier(Symbol),
    Integer(IntegerType, Symbol),
    Absent,
    Scalar(Symbol),
    Signature(Symbol),
    String(Symbol),
    Unsuffixed(Symbol),
}

#[derive(Clone, Copy, Debug, PartialEq, Eq, Structural)]
pub enum Mode {
    Unspecified,
    Constant,
    Private,
    Public,
}

#[derive(Debug, PartialEq, Eq)]
pub enum Expression {
    Array(Rc<ArrayExpression>),
    ArrayAccess(Rc<ArrayAccess>),
    Binary(Rc<BinaryExpression>),
    Call(Rc<CallExpression>),
    Cast(Rc<CastExpression>),
    Composite(Rc<CompositeExpression>),
    DynamicOp(Rc<DynamicOpExpression>),
    Error(ErrExpression),
    Intrinsic(Rc<IntrinsicExpression>),
    Literal(Literal),
    MemberAccess(Rc<MemberAccess>),
    Path(Rc<Path>),
    Repeat(Rc<RepeatExpression>),
    Ternary(Rc<TernaryExpression>),
    Tuple(Rc<TupleExpression>),
    TupleAccess(Rc<TupleAccess>),
    Unary(Rc<UnaryExpression>),
    Unit(UnitExpression),
}

#[derive(Debug, PartialEq, Eq)]
pub struct ArrayExpression {
    pub elements: List<Expression>,
    pub span: Span,
    pub id: NodeId,
}

#[derive(Debug, PartialEq, Eq)]
pub struct ArrayAccess {
    pub array: Expression,
    pub index: Expression,
    pub span: Span,
    pub id: NodeId,
}

#[derive(Debug, PartialEq, Eq)]
pub struct BinaryExpression {
    pub left: Expression,
    pub right: Expression,
    pub op: BinaryOperation,
    pub span: Span,
    pub id: NodeId,
}

#[derive(Debug, PartialEq, Eq)]
pub struct CallExpression {
    pub function: Rc<Path>,
    pub const_arguments: List<Expression>,
    pub arguments: List<Expression>,
    pub span: Span,
    pub id: NodeId,
}

#[derive(Debug, PartialEq, Eq)]
pub struct CastExpression {
    pub expression: Expression,
    pub type_: Type,
    pub span: Span,
    pub id: NodeId,
}

/// A field of a composite. `expression` is `None` for the shorthand `Foo { a }`.
#[derive(Debug, PartialEq, Eq)]
pub struct FieldInitializer {
    pub identifier: Identifier,
    pub expression: Option<Expression>,
    pub span: Span,
    pub id: NodeId,
}

#[derive(Debug, PartialEq, Eq)]
pub struct CompositeExpression {
    pub path: Rc<Path>,
    pub const_arguments: List<Expression>,
    pub members: List<FieldInitializer>,
    /// What the fields that are not listed are taken from.
    pub base: Option<Expression>,
    pub span: Span,
    pub id: NodeId,
}

/// An access to another program, found at run time, through an interface.
#[derive(Debug, PartialEq, Eq)]
pub struct DynamicOpExpression {
    pub interface: Type,
    pub target_program: Expression,
    pub network: Option<Expression>,
    pub kind: DynamicOpKind,
    pub span: Span,
    pub id: NodeId,
}

#[derive(Debug, PartialEq, Eq)]
pub enum DynamicOpKind {
    Read { storage: Identifier },
    Op { member: Identifier, op: Identifier, arguments: List<Expression> },
    Call { function: Identifier, arguments: List<Expression> },
}

#[derive(Clone, Copy, Debug, PartialEq, Eq, Structural)]
pub struct ErrExpression {
    pub span: Span,
    pub id: NodeId,
}

#[derive(Debug, PartialEq, Eq)]
pub struct TypeParameter {
    pub type_: Type,
    pub span: Span,
}

#[derive(Debug, PartialEq, Eq)]
pub struct ModedType {
    pub mode: Mode,
    pub type_: Type,
    pub span: Span,
}

#[derive(Debug, PartialEq, Eq)]
pub struct IntrinsicExpression {
    pub op: Intrinsic,
    pub type_parameters: List<TypeParameter>,
    pub input_types: List<ModedType>,
    pub return_types: List<ModedType>,
    pub arguments: List<Expression>,
    pub span: Span,
    pub id: NodeId,
}

#[derive(Clone, Copy, Debug, PartialEq, Eq, Structural)]
pub struct Literal {
    pub variant: LiteralVariant,
    pub span: Span,
    pub id: NodeId,
}

#[derive(Debug, PartialEq, Eq)]
pub struct MemberAccess {
    pub inner: Expression,
    pub name: Identifier,
    pub span: Span,
    pub id: NodeId,
}

#[derive(Debug, PartialEq, Eq)]
pub struct RepeatExpression {
    pub expr: Expression,
    pub count: Expression,
    pub span: Span,
    pub id: NodeId,
}

#[derive(Debug, PartialEq, Eq)]
pub struct TernaryExpression {
    pub condition: Expression,
    pub if_true: Expression,
    pub if_false: Expression,
    pub span: Span,
    pub id: NodeId,
}

#[derive(Debug, PartialEq, Eq)]
pub struct TupleExpression {
    pub elements: List<Expression>,
    pub span: Span,
    pub id: NodeId,
}

#[derive(Debug, PartialEq, Eq)]
pub struct TupleAccess {
    pub tuple: Expression,
    pub index: usize,
    pub span: Span,
    pub id: NodeId,
}

#[derive(Debug, PartialEq, Eq)]
pub struct UnaryExpression {
    pub receiver: Expression,
    pub op: UnaryOperation,
    pub span: Span,
    pub id: NodeId,
}

#[derive(Clone, Copy, Debug, PartialEq, Eq, Structural)]
pub struct UnitExpression {
    pub span: Span,
    pub id: NodeId,
}

impl Share for Expression {
    fn share(&self) -> (r: Self) {
        match self {
            Expression::Array(inner) => Expression::Array(inner.clone()),
            Expression::ArrayAccess(inner) => Expression::ArrayAccess(inner.clone()),
            Expression::Binary(inner) => Expression::Binary(inner.clone()),
            Expression::Call(inner) => Expression::Call(inner.clone()),
            Expression::Cast(inner) => Expression::Cast(inner.clone()),
            Expression::Composite(inner) => Expression::Composite(inner.clone()),
            Expression::DynamicOp(inner) => Expression::DynamicOp(inner.clone()),
            Expression::Error(inner) => Expression::Error(*inner),
            Expression::Intrinsic(inner) => Expression::Intrinsic(inner.clone()),
            Expression::Literal(inner) => Expression::Literal(*inner),
            Expression::MemberAccess(inner) => Expression::MemberAccess(inner.clone()),
            Expression::Path(inner) => Expression::Path(inner.clone()),
            Expression::Repeat(inner) => Expression::Repeat(inner.clone()),
            Expression::Ternary(inner) => Expression::Ternary(inner.clone()),
            Expression::Tuple(inner) => Expression::Tuple(inner.clone()),
            Expression::TupleAccess(inner) => Expression::TupleAccess(inner.clone()),
            Expression::Unary(inner) => Expression::Unary(inner.clone()),
            Expression::Unit(inner) => Expression::Unit(*inner),
        }
    }
}

impl<T: Share> Share for Option<T> {
    fn share(&self) -> (r: Self) {
        match self {
            None => None,
            Some(inner) => Some(inner.share()),
        }
    }
}

impl Share for FieldInitializer {
    fn share(&self) -> (r: Self) {
        FieldInitializer {
            identifier: self.identifier,
            expression: self.expression.share(),
            span: self.span,
            id: self.id,
        }
    }
}

impl Share for TypeParameter {
    fn share(&self) -> (r: Self) {
        TypeParameter { type_: self.type_.share(), span: self.span }
    }
}

impl Share for ModedType {
    fn share(&self) -> (r: Self) {
        ModedType { mode: self.mode, type_: self.type_.share(), span: self.span }
    }
}

impl Share for DynamicOpKind {
    fn share(&self) -> (r: Self) {
        match self {
            DynamicOpKind::Read { storage } => DynamicOpKind::Read { storage: *storage },
            DynamicOpKind::Op { member, op, arguments } => DynamicOpKind::Op {
                member: *member,
                op: *op,
                arguments: arguments.share(),
            },
            DynamicOpKind::Call { function, arguments } => DynamicOpKind::Call {
                function: *function,
                arguments: arguments.share(),
            },
        }
    }
}

/* Statements */

#[derive(Debug, PartialEq, Eq)]
pub enum Statement {
    Assert(Rc<AssertStatement>),
    Assign(Rc<AssignStatement>),
    Block(Rc<Block>),
    Conditional(Rc<ConditionalStatement>),
    Const(Rc<ConstDeclaration>),
    Definition(Rc<DefinitionStatement>),
    Expression(Rc<ExpressionStatement>),
    Iteration(Rc<IterationStatement>),
    Return(Rc<ReturnStatement>),
}

#[derive(Debug, PartialEq, Eq)]
pub enum AssertVariant {
    Assert(Expression),
    AssertEq(Expression, Expression),
    AssertNeq(Expression, Expression),
}

#[derive(Debug, PartialEq, Eq)]
pub struct AssertStatement {
    pub variant: AssertVariant,
    pub span: Span,
    pub id: NodeId,
}

#[derive(Debug, PartialEq, Eq)]
pub struct AssignStatement {
    pub place: Expression,
    pub value: Expression,
    pub span: Span,
    pub id: NodeId,
}

#[derive(Debug, PartialEq, Eq)]
pub struct Block {
    pub statements: List<Statement>,
    pub span: Span,
    pub id: NodeId,
}

#[derive(Debug, PartialEq, Eq)]
pub struct ConditionalStatement {
    pub condition: Expression,
    pub then_block: Block,
    pub otherwise: Option<Statement>,
    pub span: Span,
    pub id: NodeId,
}

#[derive(Debug, PartialEq, Eq)]
pub struct ConstDeclaration {
    pub place: Identifier,
    pub type_: Type,
    pub value: Expression,
    pub span: Span,
    pub id: NodeId,
}

#[derive(Debug, PartialEq, Eq)]
pub enum DefinitionPlace {
    Single(Identifier),
    Multiple(List<Identifier>),
}

#[derive(Debug, PartialEq, Eq)]
pub struct DefinitionStatement {
    pub place: DefinitionPlace,
    pub type_: Option<Type>,
    pub value: Expression,
    pub span: Span,
    pub id: NodeId,
}

#[derive(Debug, PartialEq, Eq)]
pub struct ExpressionStatement {
    pub expression: Expression,
    pub span: Span,
    pub id: NodeId,
}

#[derive(Debug, PartialEq, Eq)]
pub struct IterationStatement {
    pub variable: Identifier,
    pub type_: Option<Type>,
    pub start: Expression,
    pub stop: Expression,
    pub inclusive: bool,
    pub block: Block,
    pub span: Span,
    pub id: NodeId,
}

#[derive(Debug, PartialEq, Eq)]
pub struct ReturnStatement {
    pub expression: Expression,
    pub span: Span,
    pub id: NodeId,
}

impl Share for Statement {
    fn share(&self) -> (r: Self) {
        match self {
            Statement::Assert(inner) => Statement::Assert(inner.clone()),
            Statement::Assign(inner) => Statement::Assign(inner.clone()),
            Statement::Block(inner) => Statement::Block(inner.clone()),
            Statement::Conditional(inner) => Statement::Conditional(inner.clone()),
            Statement::Const(inner) => Statement::Const(inner.clone()),
            Statement::Definition(inner) => Statement::Definition(inner.clone()),
            Statement::Expression(inner) => Statement::Expression(inner.clone()),
            Statement::Iteration(inner) => Statement::Iteration(inner.clone()),
            Statement::Return(inner) => Statement::Return(inner.clone()),
        }
    }
}

impl Share for Block {
    fn share(&self) -> (r: Self) {
        Block { statements: self.statements.share(), span: self.span, id: self.id }
    }
}

impl Share for DefinitionPlace {
    fn share(&self) -> (r: Self) {
        match self {
            DefinitionPlace::Single(identifier) => DefinitionPlace::Single(*identifier),
            DefinitionPlace::Multiple(identifiers) => DefinitionPlace::Multiple(
                identifiers.share(),
            ),
        }
    }
}

/* Access */

impl Path {
    /// The path that is `identifier` alone, not yet resolved.
    pub open spec fn spec_of(identifier: Identifier) -> Path {
        Path {
            user_program: None,
            qualifier: List::Nil,
            identifier,
            target: PathTarget::Unresolved,
            span: identifier.span,
            id: identifier.id,
        }
    }

    /// The local variable that the path stands for, if it stands for one.
    pub open spec fn spec_try_local_symbol(self) -> Option<Symbol> {
        match self.target {
            PathTarget::Local(symbol) => Some(symbol),
            _ => None,
        }
    }

    pub fn try_local_symbol(&self) -> (r: Option<Symbol>)
        ensures
            r == self.spec_try_local_symbol(),
    {
        match &self.target {
            PathTarget::Local(symbol) => Some(*symbol),
            _ => None,
        }
    }

    /// The global item that the path stands for, if it stands for one.
    pub open spec fn spec_try_global_location(self) -> Option<Location> {
        match self.target {
            PathTarget::Global(location) => Some(*location),
            _ => None,
        }
    }

    pub fn try_global_location(&self) -> (r: Option<&Location>)
        ensures
            r is Some <==> self.spec_try_global_location() is Some,
            r is Some ==> *r->0 == self.spec_try_global_location()->0,
    {
        match &self.target {
            PathTarget::Global(location) => Some(location),
            _ => None,
        }
    }

    /// Whether the path is an unqualified name that stands for no global item.
    pub open spec fn is_bare(self) -> bool {
        &&& !(self.target is Global)
        &&& self.qualifier == List::<Identifier>::Nil
        &&& self.user_program is None
    }

    /// Whether the path is an unqualified name that stands for no global item.
    pub fn bare(&self) -> (r: bool)
        ensures
            r == self.is_bare(),
    {
        !matches!(self.target, PathTarget::Global(_)) && self.qualifier.is_empty()
            && self.user_program.is_none()
    }
}

/// The local variable that `identifier` names.
pub open spec fn local_path(identifier: Identifier) -> Expression {
    Expression::Path(
        Rc::new(Path { target: PathTarget::Local(identifier.name), ..Path::spec_of(identifier) }),
    )
}

/// The local variable that `identifier` names.
pub fn make_local_path(identifier: Identifier) -> (r: Expression)
    ensures
        r == local_path(identifier),
{
    Expression::Path(
        Rc::new(
            Path {
                user_program: None,
                qualifier: List::Nil,
                identifier,
                target: PathTarget::Local(identifier.name),
                span: identifier.span,
                id: identifier.id,
            },
        ),
    )
}

impl Expression {
    /// The number of the expression's own node.
    pub open spec fn spec_id(self) -> NodeId {
        match self {
            Expression::Array(inner) => inner.id,
            Expression::ArrayAccess(inner) => inner.id,
            Expression::Binary(inner) => inner.id,
            Expression::Call(inner) => inner.id,
            Expression::Cast(inner) => inner.id,
            Expression::Composite(inner) => inner.id,
            Expression::DynamicOp(inner) => inner.id,
            Expression::Error(inner) => inner.id,
            Expression::Intrinsic(inner) => inner.id,
            Expression::Literal(inner) => inner.id,
            Expression::MemberAccess(inner) => inner.id,
            Expression::Path(inner) => inner.id,
            Expression::Repeat(inner) => inner.id,
            Expression::Ternary(inner) => inner.id,
            Expression::Tuple(inner) => inner.id,
            Expression::TupleAccess(inner) => inner.id,
            Expression::Unary(inner) => inner.id,
            Expression::Unit(inner) => inner.id,
        }
    }

    pub fn id(&self) -> (r: NodeId)
        ensures
            r == self.spec_id(),
    {
        match self {
            Expression::Array(inner) => inner.id,
            Expression::ArrayAccess(inner) => inner.id,
            Expression::Binary(inner) => inner.id,
            Expression::Call(inner) => inner.id,
            Expression::Cast(inner) => inner.id,
            Expression::Composite(inner) => inner.id,
            Expression::DynamicOp(inner) => inner.id,
            Expression::Error(inner) => inner.id,
            Expression::Intrinsic(inner) => inner.id,
            Expression::Literal(inner) => inner.id,
            Expression::MemberAccess(inner) => inner.id,
            Expression::Path(inner) => inner.id,
            Expression::Repeat(inner) => inner.id,
            Expression::Ternary(inner) => inner.id,
            Expression::Tuple(inner) => inner.id,
            Expression::TupleAccess(inner) => inner.id,
            Expression::Unary(inner) => inner.id,
            Expression::Unit(inner) => inner.id,
        }
    }

    /// Whether the expression is the literal `none`.
    pub open spec fn is_none_literal(self) -> bool {
        self matches Expression::Literal(literal) && literal.variant == LiteralVariant::Absent
    }

    /// Whether the expression is the literal `none`.
    pub fn is_none_expr(&self) -> (r: bool)
        ensures
            r == self.is_none_literal(),
    {
        match self {
            Expression::Literal(literal) => matches!(literal.variant, LiteralVariant::Absent),
            _ => false,
        }
    }
}

impl Statement {
    /// The source text of the statement.
    pub open spec fn spec_span(self) -> Span {
        match self {
            Statement::Assert(inner) => inner.span,
            Statement::Assign(inner) => inner.span,
            Statement::Block(inner) => inner.span,
            Statement::Conditional(inner) => inner.span,
            Statement::Const(inner) => inner.span,
            Statement::Definition(inner) => inner.span,
            Statement::Expression(inner) => inner.span,
            Statement::Iteration(inner) => inner.span,
            Statement::Return(inner) => inner.span,
        }
    }

    pub fn span(&self) -> (r: Span)
        ensures
            r == self.spec_span(),
    {
        match self {
            Statement::Assert(inner) => inner.span,
            Statement::Assign(inner) => inner.span,
            Statement::Block(inner) => inner.span,
            Statement::Conditional(inner) => inner.span,
            Statement::Const(inner) => inner.span,
            Statement::Definition(inner) => inner.span,
            Statement::Expression(inner) => inner.span,
            Statement::Iteration(inner) => inner.span,
            Statement::Return(inner) => inner.span,
        }
    }
}

} // verus!
