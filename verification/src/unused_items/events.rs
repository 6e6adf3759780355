//! What a walk over a program comes across, in the order in which it does.
use super::uses::Event;
use crate::ast::{
    AssertVariant, Block, ConstDeclaration, DefinitionPlace, DynamicOpKind, Expression,
    FieldInitializer, Identifier, ModedType, Path, PathTarget, Statement, Type, TypeParameter,
};
use crate::list::List;
use crate::units::{Composite, Mapping};
use vstd::prelude::*;

verus! {

/// What a path uses: the program that it names, and the variable or item that it stands for. A path
/// that stands for nothing is taken for a local variable.
pub open spec fn path_events(path: Path) -> Seq<Event> {
    program_events(path) + target_events(path)
}

pub open spec fn program_events(path: Path) -> Seq<Event> {
    match path.user_program {
        Some(program) => seq![Event::UseImport { name: program.symbol }],
        None => Seq::empty(),
    }
}

pub open spec fn target_events(path: Path) -> Seq<Event> {
    match path.target {
        PathTarget::Global(location) => seq![Event::UseGlobal { location: *location }],
        _ => seq![Event::UseLocal { name: path.identifier.name }],
    }
}

/// `events`, in a scope of their own.
pub open spec fn scoped(events: Seq<Event>) -> Seq<Event> {
    seq![Event::Enter] + events + seq![Event::Exit]
}

/// What a walk over an expression comes across.
#[verifier::opaque]
pub open spec fn expression_events(expression: Expression) -> Seq<Event>
    decreases expression,
{
    match expression {
        Expression::Array(input) => expressions_events(input.elements),
        Expression::ArrayAccess(input) => expression_events(input.array)
            + expression_events(input.index),
        Expression::Binary(input) => expression_events(input.left)
            + expression_events(input.right),
        Expression::Call(input) => path_events(*input.function)
            + expressions_events(input.const_arguments)
            + expressions_events(input.arguments),
        Expression::Cast(input) => type_events(input.type_) + expression_events(input.expression),
        Expression::Composite(input) => path_events(*input.path)
            + expressions_events(input.const_arguments)
            + members_events(input.members)
            + optional_events(input.base),
        Expression::DynamicOp(input) => type_events(input.interface)
            + expression_events(input.target_program)
            + optional_events(input.network)
            + kind_events(input.kind),
        Expression::Intrinsic(input) => type_parameters_events(input.type_parameters)
            + moded_types_events(input.input_types)
            + moded_types_events(input.return_types)
            + expressions_events(input.arguments),
        Expression::MemberAccess(input) => expression_events(input.inner),
        Expression::Path(path) => path_events(*path),
        Expression::Repeat(input) => expression_events(input.expr)
            + expression_events(input.count),
        Expression::Ternary(input) => expression_events(input.condition)
            + expression_events(input.if_true)
            + expression_events(input.if_false),
        Expression::Tuple(input) => expressions_events(input.elements),
        Expression::TupleAccess(input) => expression_events(input.tuple),
        Expression::Unary(input) => expression_events(input.receiver),
        _ => Seq::empty(),
    }
}

#[verifier::opaque]
pub open spec fn expressions_events(expressions: List<Expression>) -> Seq<Event>
    decreases expressions,
{
    match expressions {
        List::Nil => Seq::empty(),
        List::Cons(first, rest) => expression_events(first) + expressions_events(*rest),
    }
}

#[verifier::opaque]
pub open spec fn optional_events(expression: Option<Expression>) -> Seq<Event>
    decreases expression,
{
    match expression {
        None => Seq::empty(),
        Some(expression) => expression_events(expression),
    }
}

/// What a walk over the fields of a composite comes across. A field that is written as a name alone
/// has nothing to it.
#[verifier::opaque]
pub open spec fn members_events(members: List<FieldInitializer>) -> Seq<Event>
    decreases members,
{
    match members {
        List::Nil => Seq::empty(),
        List::Cons(first, rest) => optional_events(first.expression) + members_events(*rest),
    }
}

#[verifier::opaque]
pub open spec fn kind_events(kind: DynamicOpKind) -> Seq<Event>
    decreases kind,
{
    match kind {
        DynamicOpKind::Read { .. } => Seq::empty(),
        DynamicOpKind::Op { arguments, .. } => expressions_events(arguments),
        DynamicOpKind::Call { arguments, .. } => expressions_events(arguments),
    }
}

/// What a walk over a type comes across.
#[verifier::opaque]
pub open spec fn type_events(type_: Type) -> Seq<Event>
    decreases type_,
{
    match type_ {
        Type::Array(array) => type_events(array.element_type) + expression_events(array.length),
        Type::Composite(composite) => path_events(*composite.path)
            + expressions_events(composite.const_arguments),
        Type::Future(future) => types_events(future.inputs),
        Type::Mapping(mapping) => type_events(mapping.key) + type_events(mapping.value),
        Type::Optional(inner) => type_events(*inner),
        Type::Tuple(elements) => types_events(*elements),
        Type::Vector(element) => type_events(*element),
        _ => Seq::empty(),
    }
}

#[verifier::opaque]
pub open spec fn types_events(types: List<Type>) -> Seq<Event>
    decreases types,
{
    match types {
        List::Nil => Seq::empty(),
        List::Cons(first, rest) => type_events(first) + types_events(*rest),
    }
}

#[verifier::opaque]
pub open spec fn type_parameters_events(parameters: List<TypeParameter>) -> Seq<Event>
    decreases parameters,
{
    match parameters {
        List::Nil => Seq::empty(),
        List::Cons(first, rest) => type_events(first.type_) + type_parameters_events(*rest),
    }
}

#[verifier::opaque]
pub open spec fn moded_types_events(types: List<ModedType>) -> Seq<Event>
    decreases types,
{
    match types {
        List::Nil => Seq::empty(),
        List::Cons(first, rest) => type_events(first.type_) + moded_types_events(*rest),
    }
}

pub open spec fn optional_type_events(type_: Option<Type>) -> Seq<Event>
{
    match type_ {
        None => Seq::empty(),
        Some(type_) => type_events(type_),
    }
}

pub open spec fn assert_events(variant: AssertVariant) -> Seq<Event>
{
    match variant {
        AssertVariant::Assert(expression) => expression_events(expression),
        AssertVariant::AssertEq(left, right) => expression_events(left) + expression_events(right),
        AssertVariant::AssertNeq(left, right) => expression_events(left)
            + expression_events(right),
    }
}

/// What a walk over the place of an assignment comes across. The variable that is assigned to is
/// not used by that.
#[verifier::opaque]
pub open spec fn place_events(place: Expression) -> Seq<Event>
    decreases place,
{
    match place {
        Expression::Path(_) => Seq::empty(),
        Expression::MemberAccess(input) => place_events(input.inner),
        Expression::TupleAccess(input) => place_events(input.tuple),
        Expression::ArrayAccess(input) => place_events(input.array)
            + expression_events(input.index),
        _ => expression_events(place),
    }
}

/// The variables that a definition brings into scope.
pub open spec fn declarations(identifiers: List<Identifier>) -> Seq<Event>
    decreases identifiers,
{
    match identifiers {
        List::Nil => Seq::empty(),
        List::Cons(first, rest) => seq![Event::Declare { name: first.name, span: first.span }]
            + declarations(*rest),
    }
}

/// The variables that a definition brings into scope.
pub open spec fn place_declarations(place: DefinitionPlace) -> Seq<Event> {
    match place {
        DefinitionPlace::Single(identifier) => seq![
            Event::Declare { name: identifier.name, span: identifier.span },
        ],
        DefinitionPlace::Multiple(identifiers) => declarations(identifiers),
    }
}

pub open spec fn const_events(input: ConstDeclaration) -> Seq<Event> {
    type_events(input.type_) + expression_events(input.value) + seq![
        Event::DeclareConst { name: input.place.name, span: input.place.span },
    ]
}

/// What a walk over a statement comes across. What a definition brings into scope is not in scope
/// in the definition's own value.
#[verifier::opaque]
pub open spec fn statement_events(statement: Statement) -> Seq<Event>
    decreases statement,
{
    match statement {
        Statement::Assert(input) => assert_events(input.variant),
        Statement::Assign(input) => place_events(input.place) + expression_events(input.value),
        Statement::Block(block) => scoped(statements_events(block.statements)),
        Statement::Conditional(input) => expression_events(input.condition)
            + scoped(statements_events(input.then_block.statements))
            + optional_statement_events(input.otherwise),
        Statement::Const(input) => const_events(*input),
        Statement::Definition(input) => optional_type_events(input.type_)
            + expression_events(input.value)
            + place_declarations(input.place),
        Statement::Expression(input) => expression_events(input.expression),
        Statement::Iteration(input) => optional_type_events(input.type_)
            + expression_events(input.start)
            + expression_events(input.stop)
            + scoped(
                seq![Event::Declare { name: input.variable.name, span: input.variable.span }]
                    + scoped(statements_events(input.block.statements)),
            ),
        Statement::Return(input) => expression_events(input.expression),
    }
}

#[verifier::opaque]
pub open spec fn statements_events(statements: List<Statement>) -> Seq<Event>
    decreases statements,
{
    match statements {
        List::Nil => Seq::empty(),
        List::Cons(first, rest) => statement_events(first) + statements_events(*rest),
    }
}

#[verifier::opaque]
pub open spec fn optional_statement_events(statement: Option<Statement>) -> Seq<Event>
    decreases statement,
{
    match statement {
        None => Seq::empty(),
        Some(statement) => statement_events(statement),
    }
}

/// A block is a scope of its own.
pub open spec fn block_events(block: Block) -> Seq<Event> {
    scoped(statements_events(block.statements))
}

} // verus!
