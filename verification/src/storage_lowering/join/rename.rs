//! Local variables under other names.
use crate::ast::{
    local_path, make_local_path, ArrayAccess, ArrayExpression, ArrayType, AssertStatement,
    AssertVariant, AssignStatement, BinaryExpression, Block, CallExpression, CastExpression,
    CompositeExpression, CompositeType, ConditionalStatement, ConstDeclaration, DefinitionStatement,
    DynamicOpExpression, DynamicOpKind, Expression, ExpressionStatement, FieldInitializer,
    FutureType, Identifier, IntrinsicExpression, IterationStatement, MappingType, MemberAccess,
    ModedType, NodeId, Path, RepeatExpression, ReturnStatement, Statement, TernaryExpression,
    TupleAccess, TupleExpression, Type, TypeParameter, UnaryExpression,
};
use crate::collections::{
    replacements_get, replacements_in, replacements_insert, replacements_new, ReplacementTable,
};
use crate::list::{List, Share};
use crate::state::{with_typed_id, CompilerState, Halt, State};
use crate::storage_lowering::join::environment::BindingId;
use crate::storage_lowering::visitor::Step;
use indexmap::IndexMap;
use std::rc::Rc;
use vstd::prelude::*;

verus! {

/// The variable that stands in for another one.
#[derive(Debug)]
pub struct Replacement {
    pub identifier: Identifier,
    pub type_: Type,
}

/// Which local variables of the scope `scope` have others standing in for them.
#[verifier::ext_equal]
pub struct Renaming {
    pub scope: NodeId,
    pub replacements: ReplacementTable,
}

/// Whether a step that started in `before` and gave `result` in `after` did what `expected` says.
/// After a failure nothing is said of the state.
pub open spec fn gave<T>(
    before: CompilerState,
    after: CompilerState,
    result: Result<T, Halt>,
    expected: Step<T>,
) -> bool {
    &&& after.symbol_table == before.symbol_table
    &&& match (result, expected) {
        (Ok(value), Ok((state, wanted))) => value == wanted && after@ == state,
        (Err(halt), Err(wanted)) => halt == wanted,
        _ => false,
    }
}

/// What a path becomes: the variable that stands in for the local variable that it stands for, if
/// there is one.
pub open spec fn rename_path(renaming: Renaming, state: State, path: Rc<Path>) -> (
    State,
    Expression,
) {
    match path.spec_try_local_symbol() {
        None => (state, Expression::Path(path)),
        Some(symbol) => {
            let key = (renaming.scope, symbol.index);
            if renaming.replacements.contains_key(key) {
                let replacement = renaming.replacements[key];
                let identifier = Identifier {
                    name: replacement.identifier.name,
                    span: path.span,
                    id: state.next_id,
                };
                (with_typed_id(state, replacement.type_), local_path(identifier))
            } else {
                (state, Expression::Path(path))
            }
        },
    }
}

/// An expression with its local variables renamed.
#[verifier::opaque]
pub open spec fn rename_expression(
    renaming: Renaming,
    state: State,
    expression: Expression,
) -> Step<Expression>
    decreases expression,
{
    match expression {
        Expression::Array(input) => match rename_expressions(renaming, state, input.elements) {
            Err(halt) => Err(halt),
            Ok((state, elements)) => Ok(
                (state, Expression::Array(Rc::new(ArrayExpression { elements, ..*input }))),
            ),
        },
        Expression::ArrayAccess(input) => match rename_expression(renaming, state, input.array) {
            Err(halt) => Err(halt),
            Ok((state, array)) => match rename_expression(renaming, state, input.index) {
                Err(halt) => Err(halt),
                Ok((state, index)) => Ok(
                    (
                        state,
                        Expression::ArrayAccess(Rc::new(ArrayAccess { array, index, ..*input })),
                    ),
                ),
            },
        },
        Expression::Binary(input) => match rename_expression(renaming, state, input.left) {
            Err(halt) => Err(halt),
            Ok((state, left)) => match rename_expression(renaming, state, input.right) {
                Err(halt) => Err(halt),
                Ok((state, right)) => Ok(
                    (
                        state,
                        Expression::Binary(Rc::new(BinaryExpression { left, right, ..*input })),
                    ),
                ),
            },
        },
        Expression::Call(input) => match rename_expressions(
            renaming,
            state,
            input.const_arguments,
        ) {
            Err(halt) => Err(halt),
            Ok((state, const_arguments)) => match rename_expressions(
                renaming,
                state,
                input.arguments,
            ) {
                Err(halt) => Err(halt),
                Ok((state, arguments)) => Ok(
                    (
                        state,
                        Expression::Call(
                            Rc::new(CallExpression { const_arguments, arguments, ..*input }),
                        ),
                    ),
                ),
            },
        },
        Expression::Cast(input) => match rename_type(renaming, state, input.type_) {
            Err(halt) => Err(halt),
            Ok((state, type_)) => match rename_expression(renaming, state, input.expression) {
                Err(halt) => Err(halt),
                Ok((state, expression)) => Ok(
                    (
                        state,
                        Expression::Cast(Rc::new(CastExpression { type_, expression, ..*input })),
                    ),
                ),
            },
        },
        Expression::Composite(input) => match rename_expressions(
            renaming,
            state,
            input.const_arguments,
        ) {
            Err(halt) => Err(halt),
            Ok((state, const_arguments)) => match rename_members(renaming, state, input.members) {
                Err(halt) => Err(halt),
                Ok((state, members)) => match rename_optional(renaming, state, input.base) {
                    Err(halt) => Err(halt),
                    Ok((state, base)) => Ok(
                        (
                            state,
                            Expression::Composite(
                                Rc::new(
                                    CompositeExpression {
                                        const_arguments,
                                        members,
                                        base,
                                        ..*input
                                    },
                                ),
                            ),
                        ),
                    ),
                },
            },
        },
        Expression::DynamicOp(input) => match rename_type(renaming, state, input.interface) {
            Err(halt) => Err(halt),
            Ok((state, interface)) => match rename_expression(
                renaming,
                state,
                input.target_program,
            ) {
                Err(halt) => Err(halt),
                Ok((state, target_program)) => match rename_optional(
                    renaming,
                    state,
                    input.network,
                ) {
                    Err(halt) => Err(halt),
                    Ok((state, network)) => match rename_kind(renaming, state, input.kind) {
                        Err(halt) => Err(halt),
                        Ok((state, kind)) => Ok(
                            (
                                state,
                                Expression::DynamicOp(
                                    Rc::new(
                                        DynamicOpExpression {
                                            interface,
                                            target_program,
                                            network,
                                            kind,
                                            ..*input
                                        },
                                    ),
                                ),
                            ),
                        ),
                    },
                },
            },
        },
        Expression::Intrinsic(input) => match rename_type_parameters(
            renaming,
            state,
            input.type_parameters,
        ) {
            Err(halt) => Err(halt),
            Ok((state, type_parameters)) => match rename_moded_types(
                renaming,
                state,
                input.input_types,
            ) {
                Err(halt) => Err(halt),
                Ok((state, input_types)) => match rename_moded_types(
                    renaming,
                    state,
                    input.return_types,
                ) {
                    Err(halt) => Err(halt),
                    Ok((state, return_types)) => match rename_expressions(
                        renaming,
                        state,
                        input.arguments,
                    ) {
                        Err(halt) => Err(halt),
                        Ok((state, arguments)) => Ok(
                            (
                                state,
                                Expression::Intrinsic(
                                    Rc::new(
                                        IntrinsicExpression {
                                            type_parameters,
                                            input_types,
                                            return_types,
                                            arguments,
                                            ..*input
                                        },
                                    ),
                                ),
                            ),
                        ),
                    },
                },
            },
        },
        Expression::MemberAccess(input) => match rename_expression(renaming, state, input.inner) {
            Err(halt) => Err(halt),
            Ok((state, inner)) => Ok(
                (state, Expression::MemberAccess(Rc::new(MemberAccess { inner, ..*input }))),
            ),
        },
        Expression::Repeat(input) => match rename_expression(renaming, state, input.expr) {
            Err(halt) => Err(halt),
            Ok((state, expr)) => match rename_expression(renaming, state, input.count) {
                Err(halt) => Err(halt),
                Ok((state, count)) => Ok(
                    (
                        state,
                        Expression::Repeat(Rc::new(RepeatExpression { expr, count, ..*input })),
                    ),
                ),
            },
        },
        Expression::Ternary(input) => match rename_expression(renaming, state, input.condition) {
            Err(halt) => Err(halt),
            Ok((state, condition)) => match rename_expression(renaming, state, input.if_true) {
                Err(halt) => Err(halt),
                Ok((state, if_true)) => match rename_expression(renaming, state, input.if_false) {
                    Err(halt) => Err(halt),
                    Ok((state, if_false)) => Ok(
                        (
                            state,
                            Expression::Ternary(
                                Rc::new(
                                    TernaryExpression { condition, if_true, if_false, ..*input },
                                ),
                            ),
                        ),
                    ),
                },
            },
        },
        Expression::Tuple(input) => match rename_expressions(renaming, state, input.elements) {
            Err(halt) => Err(halt),
            Ok((state, elements)) => Ok(
                (state, Expression::Tuple(Rc::new(TupleExpression { elements, ..*input }))),
            ),
        },
        Expression::TupleAccess(input) => match rename_expression(renaming, state, input.tuple) {
            Err(halt) => Err(halt),
            Ok((state, tuple)) => Ok(
                (state, Expression::TupleAccess(Rc::new(TupleAccess { tuple, ..*input }))),
            ),
        },
        Expression::Unary(input) => match rename_expression(renaming, state, input.receiver) {
            Err(halt) => Err(halt),
            Ok((state, receiver)) => Ok(
                (state, Expression::Unary(Rc::new(UnaryExpression { receiver, ..*input }))),
            ),
        },
        Expression::Error(_) => Err(Halt::IllFormed),
        Expression::Literal(_) => Ok((state, expression)),
        Expression::Path(path) => Ok(rename_path(renaming, state, path)),
        Expression::Unit(_) => Ok((state, expression)),
    }
}

#[verifier::opaque]
pub open spec fn rename_expressions(
    renaming: Renaming,
    state: State,
    expressions: List<Expression>,
) -> Step<List<Expression>>
    decreases expressions,
{
    match expressions {
        List::Nil => Ok((state, List::Nil)),
        List::Cons(first, rest) => match rename_expression(renaming, state, first) {
            Err(halt) => Err(halt),
            Ok((state, first)) => match rename_expressions(renaming, state, *rest) {
                Err(halt) => Err(halt),
                Ok((state, rest)) => Ok((state, List::Cons(first, Rc::new(rest)))),
            },
        },
    }
}

#[verifier::opaque]
pub open spec fn rename_optional(
    renaming: Renaming,
    state: State,
    expression: Option<Expression>,
) -> Step<Option<Expression>>
    decreases expression,
{
    match expression {
        None => Ok((state, None)),
        Some(expression) => match rename_expression(renaming, state, expression) {
            Err(halt) => Err(halt),
            Ok((state, expression)) => Ok((state, Some(expression))),
        },
    }
}

#[verifier::opaque]
pub open spec fn rename_members(
    renaming: Renaming,
    state: State,
    members: List<FieldInitializer>,
) -> Step<List<FieldInitializer>>
    decreases members,
{
    match members {
        List::Nil => Ok((state, List::Nil)),
        List::Cons(first, rest) => match rename_optional(renaming, state, first.expression) {
            Err(halt) => Err(halt),
            Ok((state, expression)) => match rename_members(renaming, state, *rest) {
                Err(halt) => Err(halt),
                Ok((state, rest)) => Ok(
                    (state, List::Cons(FieldInitializer { expression, ..first }, Rc::new(rest))),
                ),
            },
        },
    }
}

#[verifier::opaque]
pub open spec fn rename_kind(
    renaming: Renaming,
    state: State,
    kind: DynamicOpKind,
) -> Step<DynamicOpKind>
    decreases kind,
{
    match kind {
        DynamicOpKind::Read { storage } => Ok((state, DynamicOpKind::Read { storage })),
        DynamicOpKind::Op { member, op, arguments } => match rename_expressions(
            renaming,
            state,
            arguments,
        ) {
            Err(halt) => Err(halt),
            Ok((state, arguments)) => Ok((state, DynamicOpKind::Op { member, op, arguments })),
        },
        DynamicOpKind::Call { function, arguments } => match rename_expressions(
            renaming,
            state,
            arguments,
        ) {
            Err(halt) => Err(halt),
            Ok((state, arguments)) => Ok((state, DynamicOpKind::Call { function, arguments })),
        },
    }
}

/// A type with the local variables in its lengths and const arguments renamed.
#[verifier::opaque]
pub open spec fn rename_type(renaming: Renaming, state: State, type_: Type) -> Step<Type>
    decreases type_,
{
    match type_ {
        Type::Array(input) => match rename_type(renaming, state, input.element_type) {
            Err(halt) => Err(halt),
            Ok((state, element_type)) => match rename_expression(renaming, state, input.length) {
                Err(halt) => Err(halt),
                Ok((state, length)) => Ok(
                    (state, Type::Array(Rc::new(ArrayType { element_type, length }))),
                ),
            },
        },
        Type::Composite(input) => match rename_expressions(renaming, state, input.const_arguments) {
            Err(halt) => Err(halt),
            Ok((state, const_arguments)) => Ok(
                (state, Type::Composite(Rc::new(CompositeType { const_arguments, ..*input }))),
            ),
        },
        Type::Future(input) => match rename_types(renaming, state, input.inputs) {
            Err(halt) => Err(halt),
            Ok((state, inputs)) => Ok(
                (state, Type::Future(Rc::new(FutureType { inputs, ..*input }))),
            ),
        },
        Type::Mapping(input) => match rename_type(renaming, state, input.key) {
            Err(halt) => Err(halt),
            Ok((state, key)) => match rename_type(renaming, state, input.value) {
                Err(halt) => Err(halt),
                Ok((state, value)) => Ok(
                    (state, Type::Mapping(Rc::new(MappingType { key, value }))),
                ),
            },
        },
        Type::Optional(inner) => match rename_type(renaming, state, *inner) {
            Err(halt) => Err(halt),
            Ok((state, inner)) => Ok((state, Type::Optional(Rc::new(inner)))),
        },
        Type::Tuple(elements) => match rename_types(renaming, state, *elements) {
            Err(halt) => Err(halt),
            Ok((state, elements)) => Ok((state, Type::Tuple(Rc::new(elements)))),
        },
        Type::Vector(element) => match rename_type(renaming, state, *element) {
            Err(halt) => Err(halt),
            Ok((state, element)) => Ok((state, Type::Vector(Rc::new(element)))),
        },
        _ => Ok((state, type_)),
    }
}

#[verifier::opaque]
pub open spec fn rename_types(
    renaming: Renaming,
    state: State,
    types: List<Type>,
) -> Step<List<Type>>
    decreases types,
{
    match types {
        List::Nil => Ok((state, List::Nil)),
        List::Cons(first, rest) => match rename_type(renaming, state, first) {
            Err(halt) => Err(halt),
            Ok((state, first)) => match rename_types(renaming, state, *rest) {
                Err(halt) => Err(halt),
                Ok((state, rest)) => Ok((state, List::Cons(first, Rc::new(rest)))),
            },
        },
    }
}

#[verifier::opaque]
pub open spec fn rename_type_parameters(
    renaming: Renaming,
    state: State,
    parameters: List<TypeParameter>,
) -> Step<List<TypeParameter>>
    decreases parameters,
{
    match parameters {
        List::Nil => Ok((state, List::Nil)),
        List::Cons(first, rest) => match rename_type(renaming, state, first.type_) {
            Err(halt) => Err(halt),
            Ok((state, type_)) => match rename_type_parameters(renaming, state, *rest) {
                Err(halt) => Err(halt),
                Ok((state, rest)) => Ok(
                    (state, List::Cons(TypeParameter { type_, ..first }, Rc::new(rest))),
                ),
            },
        },
    }
}

#[verifier::opaque]
pub open spec fn rename_moded_types(
    renaming: Renaming,
    state: State,
    types: List<ModedType>,
) -> Step<List<ModedType>>
    decreases types,
{
    match types {
        List::Nil => Ok((state, List::Nil)),
        List::Cons(first, rest) => match rename_type(renaming, state, first.type_) {
            Err(halt) => Err(halt),
            Ok((state, type_)) => match rename_moded_types(renaming, state, *rest) {
                Err(halt) => Err(halt),
                Ok((state, rest)) => Ok(
                    (state, List::Cons(ModedType { type_, ..first }, Rc::new(rest))),
                ),
            },
        },
    }
}

pub open spec fn rename_given_type(
    renaming: Renaming,
    state: State,
    type_: Option<Type>,
) -> Step<Option<Type>>
{
    match type_ {
        None => Ok((state, None)),
        Some(type_) => match rename_type(renaming, state, type_) {
            Err(halt) => Err(halt),
            Ok((state, type_)) => Ok((state, Some(type_))),
        },
    }
}

pub open spec fn rename_variant(
    renaming: Renaming,
    state: State,
    variant: AssertVariant,
) -> Step<AssertVariant>
{
    match variant {
        AssertVariant::Assert(expression) => match rename_expression(renaming, state, expression) {
            Err(halt) => Err(halt),
            Ok((state, expression)) => Ok((state, AssertVariant::Assert(expression))),
        },
        AssertVariant::AssertEq(left, right) => match rename_expression(renaming, state, left) {
            Err(halt) => Err(halt),
            Ok((state, left)) => match rename_expression(renaming, state, right) {
                Err(halt) => Err(halt),
                Ok((state, right)) => Ok((state, AssertVariant::AssertEq(left, right))),
            },
        },
        AssertVariant::AssertNeq(left, right) => match rename_expression(renaming, state, left) {
            Err(halt) => Err(halt),
            Ok((state, left)) => match rename_expression(renaming, state, right) {
                Err(halt) => Err(halt),
                Ok((state, right)) => Ok((state, AssertVariant::AssertNeq(left, right))),
            },
        },
    }
}

/// A statement with the local variables that it mentions renamed. Those that it defines keep
/// their names.
#[verifier::opaque]
pub open spec fn rename_statement(
    renaming: Renaming,
    state: State,
    statement: Statement,
) -> Step<Statement>
    decreases statement,
{
    match statement {
        Statement::Assert(input) => match rename_variant(renaming, state, input.variant) {
            Err(halt) => Err(halt),
            Ok((state, variant)) => Ok(
                (state, Statement::Assert(Rc::new(AssertStatement { variant, ..*input }))),
            ),
        },
        Statement::Assign(input) => match rename_expression(renaming, state, input.place) {
            Err(halt) => Err(halt),
            Ok((state, place)) => match rename_expression(renaming, state, input.value) {
                Err(halt) => Err(halt),
                Ok((state, value)) => Ok(
                    (state, Statement::Assign(Rc::new(AssignStatement { place, value, ..*input }))),
                ),
            },
        },
        Statement::Block(block) => match rename_block(renaming, state, *block) {
            Err(halt) => Err(halt),
            Ok((state, block)) => Ok((state, Statement::Block(Rc::new(block)))),
        },
        Statement::Conditional(input) => match rename_expression(renaming, state, input.condition) {
            Err(halt) => Err(halt),
            Ok((state, condition)) => match rename_block(renaming, state, input.then_block) {
                Err(halt) => Err(halt),
                Ok((state, then_block)) => match rename_otherwise(
                    renaming,
                    state,
                    input.otherwise,
                ) {
                    Err(halt) => Err(halt),
                    Ok((state, otherwise)) => Ok(
                        (
                            state,
                            Statement::Conditional(
                                Rc::new(
                                    ConditionalStatement {
                                        condition,
                                        then_block,
                                        otherwise,
                                        ..*input
                                    },
                                ),
                            ),
                        ),
                    ),
                },
            },
        },
        Statement::Const(input) => match rename_type(renaming, state, input.type_) {
            Err(halt) => Err(halt),
            Ok((state, type_)) => match rename_expression(renaming, state, input.value) {
                Err(halt) => Err(halt),
                Ok((state, value)) => Ok(
                    (state, Statement::Const(Rc::new(ConstDeclaration { type_, value, ..*input }))),
                ),
            },
        },
        Statement::Definition(input) => match rename_given_type(renaming, state, input.type_) {
            Err(halt) => Err(halt),
            Ok((state, type_)) => match rename_expression(renaming, state, input.value) {
                Err(halt) => Err(halt),
                Ok((state, value)) => Ok(
                    (
                        state,
                        Statement::Definition(
                            Rc::new(DefinitionStatement { type_, value, ..*input }),
                        ),
                    ),
                ),
            },
        },
        Statement::Expression(input) => match rename_expression(renaming, state, input.expression) {
            Err(halt) => Err(halt),
            Ok((state, expression)) => Ok(
                (
                    state,
                    Statement::Expression(Rc::new(ExpressionStatement { expression, ..*input })),
                ),
            ),
        },
        Statement::Iteration(input) => match rename_given_type(renaming, state, input.type_) {
            Err(halt) => Err(halt),
            Ok((state, type_)) => match rename_expression(renaming, state, input.start) {
                Err(halt) => Err(halt),
                Ok((state, start)) => match rename_expression(renaming, state, input.stop) {
                    Err(halt) => Err(halt),
                    Ok((state, stop)) => match rename_block(renaming, state, input.block) {
                        Err(halt) => Err(halt),
                        Ok((state, block)) => Ok(
                            (
                                state,
                                Statement::Iteration(
                                    Rc::new(
                                        IterationStatement { type_, start, stop, block, ..*input },
                                    ),
                                ),
                            ),
                        ),
                    },
                },
            },
        },
        Statement::Return(input) => match rename_expression(renaming, state, input.expression) {
            Err(halt) => Err(halt),
            Ok((state, expression)) => Ok(
                (state, Statement::Return(Rc::new(ReturnStatement { expression, ..*input }))),
            ),
        },
    }
}

#[verifier::opaque]
pub open spec fn rename_statements(
    renaming: Renaming,
    state: State,
    statements: List<Statement>,
) -> Step<List<Statement>>
    decreases statements,
{
    match statements {
        List::Nil => Ok((state, List::Nil)),
        List::Cons(first, rest) => match rename_statement(renaming, state, first) {
            Err(halt) => Err(halt),
            Ok((state, first)) => match rename_statements(renaming, state, *rest) {
                Err(halt) => Err(halt),
                Ok((state, rest)) => Ok((state, List::Cons(first, Rc::new(rest)))),
            },
        },
    }
}

#[verifier::opaque]
pub open spec fn rename_otherwise(
    renaming: Renaming,
    state: State,
    otherwise: Option<Statement>,
) -> Step<Option<Statement>>
    decreases otherwise,
{
    match otherwise {
        None => Ok((state, None)),
        Some(statement) => match rename_statement(renaming, state, statement) {
            Err(halt) => Err(halt),
            Ok((state, statement)) => Ok((state, Some(statement))),
        },
    }
}

#[verifier::opaque]
pub open spec fn rename_block(renaming: Renaming, state: State, block: Block) -> Step<Block>
    decreases block,
{
    match rename_statements(renaming, state, block.statements) {
        Err(halt) => Err(halt),
        Ok((state, statements)) => Ok((state, Block { statements, ..block })),
    }
}

/// Gives local variables of a scope other names.
#[derive(Debug)]
pub struct JoinPrefixVersioner {
    source_scope: NodeId,
    replacements: IndexMap<(u32, usize), Replacement>,
}

impl JoinPrefixVersioner {
    pub closed spec fn renaming(&self) -> Renaming {
        Renaming { scope: self.source_scope, replacements: replacements_in(self.replacements) }
    }

    /// No variable of `source_scope` has another one standing in for it.
    pub fn new(source_scope: NodeId) -> (r: JoinPrefixVersioner)
        ensures
            r.renaming() == (Renaming {
                scope: source_scope,
                replacements: ReplacementTable::empty(),
            }),
    {
        JoinPrefixVersioner { source_scope, replacements: replacements_new() }
    }

    /// From now on `identifier` stands in for `binding`.
    pub fn bind(&mut self, binding: BindingId, identifier: Identifier, type_: Type)
        ensures
            final(self).renaming() == (Renaming {
                replacements: old(self).renaming().replacements.insert(
                    (binding.scope, binding.symbol.index),
                    Replacement { identifier, type_ },
                ),
                ..old(self).renaming()
            }),
    {
        replacements_insert(
            &mut self.replacements,
            (binding.scope, binding.symbol.index),
            Replacement { identifier, type_ },
        );
    }

    fn rename_path(&self, state: &mut CompilerState, path: &Rc<Path>) -> (r: Expression)
        ensures
            (final(state)@, r) == rename_path(self.renaming(), old(state)@, *path),
            final(state).symbol_table == old(state).symbol_table,
    {
        match path.try_local_symbol() {
            None => Expression::Path(path.clone()),
            Some(symbol) => {
                match replacements_get(&self.replacements, (self.source_scope, symbol.index)) {
                    None => Expression::Path(path.clone()),
                    Some(replacement) => {
                        let id: NodeId = state.take_typed_id(replacement.type_.share());
                        let name = replacement.identifier.name;
                        make_local_path(Identifier { name, span: path.span, id })
                    },
                }
            },
        }
    }

    pub(crate) fn rename_expression(
        &self,
        state: &mut CompilerState,
        expression: &Expression,
    ) -> (r: Result<Expression, Halt>)
        ensures
            gave(
                *old(state),
                *final(state),
                r,
                rename_expression(self.renaming(), old(state)@, *expression),
            ),
        decreases *expression,
    {
        proof {
            reveal(rename_expression);
            reveal(rename_expressions);
            reveal(rename_type);
            reveal(rename_members);
            reveal(rename_optional);
            reveal(rename_kind);
            reveal(rename_type_parameters);
            reveal(rename_moded_types);
        }
        match expression {
            Expression::Array(input) => {
                let elements = self.rename_expressions(state, &input.elements)?;
                Ok(
                    Expression::Array(
                        Rc::new(ArrayExpression { elements, span: input.span, id: input.id }),
                    ),
                )
            },
            Expression::ArrayAccess(input) => {
                let array = self.rename_expression(state, &input.array)?;
                let index = self.rename_expression(state, &input.index)?;
                Ok(
                    Expression::ArrayAccess(
                        Rc::new(ArrayAccess { array, index, span: input.span, id: input.id }),
                    ),
                )
            },
            Expression::Binary(input) => {
                let left = self.rename_expression(state, &input.left)?;
                let right = self.rename_expression(state, &input.right)?;
                Ok(
                    Expression::Binary(
                        Rc::new(
                            BinaryExpression {
                                left,
                                right,
                                op: input.op,
                                span: input.span,
                                id: input.id,
                            },
                        ),
                    ),
                )
            },
            Expression::Call(input) => {
                let const_arguments = self.rename_expressions(state, &input.const_arguments)?;
                let arguments = self.rename_expressions(state, &input.arguments)?;
                Ok(
                    Expression::Call(
                        Rc::new(
                            CallExpression {
                                const_arguments,
                                arguments,
                                function: input.function.clone(),
                                span: input.span,
                                id: input.id,
                            },
                        ),
                    ),
                )
            },
            Expression::Cast(input) => {
                let type_ = self.rename_type(state, &input.type_)?;
                let expression = self.rename_expression(state, &input.expression)?;
                Ok(
                    Expression::Cast(
                        Rc::new(
                            CastExpression { type_, expression, span: input.span, id: input.id },
                        ),
                    ),
                )
            },
            Expression::Composite(input) => {
                let const_arguments = self.rename_expressions(state, &input.const_arguments)?;
                let members = self.rename_members(state, &input.members)?;
                let base = self.rename_optional(state, &input.base)?;
                Ok(
                    Expression::Composite(
                        Rc::new(
                            CompositeExpression {
                                const_arguments,
                                members,
                                base,
                                path: input.path.clone(),
                                span: input.span,
                                id: input.id,
                            },
                        ),
                    ),
                )
            },
            Expression::DynamicOp(input) => {
                let interface = self.rename_type(state, &input.interface)?;
                let target_program = self.rename_expression(state, &input.target_program)?;
                let network = self.rename_optional(state, &input.network)?;
                let kind = self.rename_kind(state, &input.kind)?;
                Ok(
                    Expression::DynamicOp(
                        Rc::new(
                            DynamicOpExpression {
                                interface,
                                target_program,
                                network,
                                kind,
                                span: input.span,
                                id: input.id,
                            },
                        ),
                    ),
                )
            },
            Expression::Intrinsic(input) => {
                let type_parameters = self.rename_type_parameters(state, &input.type_parameters)?;
                let input_types = self.rename_moded_types(state, &input.input_types)?;
                let return_types = self.rename_moded_types(state, &input.return_types)?;
                let arguments = self.rename_expressions(state, &input.arguments)?;
                Ok(
                    Expression::Intrinsic(
                        Rc::new(
                            IntrinsicExpression {
                                type_parameters,
                                input_types,
                                return_types,
                                arguments,
                                op: input.op,
                                span: input.span,
                                id: input.id,
                            },
                        ),
                    ),
                )
            },
            Expression::MemberAccess(input) => {
                let inner = self.rename_expression(state, &input.inner)?;
                Ok(
                    Expression::MemberAccess(
                        Rc::new(
                            MemberAccess {
                                inner,
                                name: input.name,
                                span: input.span,
                                id: input.id,
                            },
                        ),
                    ),
                )
            },
            Expression::Repeat(input) => {
                let expr = self.rename_expression(state, &input.expr)?;
                let count = self.rename_expression(state, &input.count)?;
                Ok(
                    Expression::Repeat(
                        Rc::new(RepeatExpression { expr, count, span: input.span, id: input.id }),
                    ),
                )
            },
            Expression::Ternary(input) => {
                let condition = self.rename_expression(state, &input.condition)?;
                let if_true = self.rename_expression(state, &input.if_true)?;
                let if_false = self.rename_expression(state, &input.if_false)?;
                Ok(
                    Expression::Ternary(
                        Rc::new(
                            TernaryExpression {
                                condition,
                                if_true,
                                if_false,
                                span: input.span,
                                id: input.id,
                            },
                        ),
                    ),
                )
            },
            Expression::Tuple(input) => {
                let elements = self.rename_expressions(state, &input.elements)?;
                Ok(
                    Expression::Tuple(
                        Rc::new(TupleExpression { elements, span: input.span, id: input.id }),
                    ),
                )
            },
            Expression::TupleAccess(input) => {
                let tuple = self.rename_expression(state, &input.tuple)?;
                Ok(
                    Expression::TupleAccess(
                        Rc::new(
                            TupleAccess {
                                tuple,
                                index: input.index,
                                span: input.span,
                                id: input.id,
                            },
                        ),
                    ),
                )
            },
            Expression::Unary(input) => {
                let receiver = self.rename_expression(state, &input.receiver)?;
                Ok(
                    Expression::Unary(
                        Rc::new(
                            UnaryExpression {
                                receiver,
                                op: input.op,
                                span: input.span,
                                id: input.id,
                            },
                        ),
                    ),
                )
            },
            Expression::Error(_) => Err(Halt::IllFormed),
            Expression::Literal(_) => Ok(expression.share()),
            Expression::Path(path) => Ok(self.rename_path(state, path)),
            Expression::Unit(_) => Ok(expression.share()),
        }
    }

    fn rename_expressions(
        &self,
        state: &mut CompilerState,
        expressions: &List<Expression>,
    ) -> (r: Result<List<Expression>, Halt>)
        ensures
            gave(
                *old(state),
                *final(state),
                r,
                rename_expressions(self.renaming(), old(state)@, *expressions),
            ),
        decreases *expressions,
    {
        proof {
            reveal(rename_expressions);
            reveal(rename_expression);
        }
        match expressions {
            List::Nil => Ok(List::Nil),
            List::Cons(first, rest) => {
                let first = self.rename_expression(state, first)?;
                let rest = self.rename_expressions(state, rest)?;
                Ok(List::cons(first, rest))
            },
        }
    }

    fn rename_optional(
        &self,
        state: &mut CompilerState,
        expression: &Option<Expression>,
    ) -> (r: Result<Option<Expression>, Halt>)
        ensures
            gave(
                *old(state),
                *final(state),
                r,
                rename_optional(self.renaming(), old(state)@, *expression),
            ),
        decreases *expression,
    {
        proof {
            reveal(rename_optional);
            reveal(rename_expression);
        }
        match expression {
            None => Ok(None),
            Some(expression) => {
                let expression = self.rename_expression(state, expression)?;
                Ok(Some(expression))
            },
        }
    }

    fn rename_members(
        &self,
        state: &mut CompilerState,
        members: &List<FieldInitializer>,
    ) -> (r: Result<List<FieldInitializer>, Halt>)
        ensures
            gave(
                *old(state),
                *final(state),
                r,
                rename_members(self.renaming(), old(state)@, *members),
            ),
        decreases *members,
    {
        proof {
            reveal(rename_members);
            reveal(rename_optional);
        }
        match members {
            List::Nil => Ok(List::Nil),
            List::Cons(first, rest) => {
                let expression = self.rename_optional(state, &first.expression)?;
                let rest = self.rename_members(state, rest)?;
                Ok(
                    List::cons(
                        FieldInitializer {
                            expression,
                            identifier: first.identifier,
                            span: first.span,
                            id: first.id,
                        },
                        rest,
                    ),
                )
            },
        }
    }

    fn rename_kind(
        &self,
        state: &mut CompilerState,
        kind: &DynamicOpKind,
    ) -> (r: Result<DynamicOpKind, Halt>)
        ensures
            gave(*old(state), *final(state), r, rename_kind(self.renaming(), old(state)@, *kind)),
        decreases *kind,
    {
        proof {
            reveal(rename_kind);
            reveal(rename_expressions);
        }
        match kind {
            DynamicOpKind::Read { storage } => Ok(DynamicOpKind::Read { storage: *storage }),
            DynamicOpKind::Op { member, op, arguments } => {
                let arguments = self.rename_expressions(state, arguments)?;
                Ok(DynamicOpKind::Op { member: *member, op: *op, arguments })
            },
            DynamicOpKind::Call { function, arguments } => {
                let arguments = self.rename_expressions(state, arguments)?;
                Ok(DynamicOpKind::Call { function: *function, arguments })
            },
        }
    }

    fn rename_type(&self, state: &mut CompilerState, type_: &Type) -> (r: Result<Type, Halt>)
        ensures
            gave(*old(state), *final(state), r, rename_type(self.renaming(), old(state)@, *type_)),
        decreases *type_,
    {
        proof {
            reveal(rename_type);
            reveal(rename_expression);
            reveal(rename_expressions);
            reveal(rename_types);
        }
        match type_ {
            Type::Array(input) => {
                let element_type = self.rename_type(state, &input.element_type)?;
                let length = self.rename_expression(state, &input.length)?;
                Ok(Type::Array(Rc::new(ArrayType { element_type, length })))
            },
            Type::Composite(input) => {
                let const_arguments = self.rename_expressions(state, &input.const_arguments)?;
                Ok(
                    Type::Composite(
                        Rc::new(CompositeType { const_arguments, path: input.path.clone() }),
                    ),
                )
            },
            Type::Future(input) => {
                let inputs = self.rename_types(state, &input.inputs)?;
                let location = match &input.location {
                    Some(location) => Some(location.clone()),
                    None => None,
                };
                Ok(Type::Future(Rc::new(FutureType { inputs, location })))
            },
            Type::Mapping(input) => {
                let key = self.rename_type(state, &input.key)?;
                let value = self.rename_type(state, &input.value)?;
                Ok(Type::Mapping(Rc::new(MappingType { key, value })))
            },
            Type::Optional(inner) => {
                let inner = self.rename_type(state, inner)?;
                Ok(Type::Optional(Rc::new(inner)))
            },
            Type::Tuple(elements) => {
                let elements = self.rename_types(state, elements)?;
                Ok(Type::Tuple(Rc::new(elements)))
            },
            Type::Vector(element) => {
                let element = self.rename_type(state, element)?;
                Ok(Type::Vector(Rc::new(element)))
            },
            _ => Ok(type_.share()),
        }
    }

    fn rename_types(
        &self,
        state: &mut CompilerState,
        types: &List<Type>,
    ) -> (r: Result<List<Type>, Halt>)
        ensures
            gave(*old(state), *final(state), r, rename_types(self.renaming(), old(state)@, *types)),
        decreases *types,
    {
        proof {
            reveal(rename_types);
            reveal(rename_type);
        }
        match types {
            List::Nil => Ok(List::Nil),
            List::Cons(first, rest) => {
                let first = self.rename_type(state, first)?;
                let rest = self.rename_types(state, rest)?;
                Ok(List::cons(first, rest))
            },
        }
    }

    fn rename_type_parameters(
        &self,
        state: &mut CompilerState,
        parameters: &List<TypeParameter>,
    ) -> (r: Result<List<TypeParameter>, Halt>)
        ensures
            gave(
                *old(state),
                *final(state),
                r,
                rename_type_parameters(self.renaming(), old(state)@, *parameters),
            ),
        decreases *parameters,
    {
        proof {
            reveal(rename_type_parameters);
            reveal(rename_type);
        }
        match parameters {
            List::Nil => Ok(List::Nil),
            List::Cons(first, rest) => {
                let type_ = self.rename_type(state, &first.type_)?;
                let rest = self.rename_type_parameters(state, rest)?;
                Ok(List::cons(TypeParameter { type_, span: first.span }, rest))
            },
        }
    }

    fn rename_moded_types(
        &self,
        state: &mut CompilerState,
        types: &List<ModedType>,
    ) -> (r: Result<List<ModedType>, Halt>)
        ensures
            gave(
                *old(state),
                *final(state),
                r,
                rename_moded_types(self.renaming(), old(state)@, *types),
            ),
        decreases *types,
    {
        proof {
            reveal(rename_moded_types);
            reveal(rename_type);
        }
        match types {
            List::Nil => Ok(List::Nil),
            List::Cons(first, rest) => {
                let type_ = self.rename_type(state, &first.type_)?;
                let rest = self.rename_moded_types(state, rest)?;
                Ok(List::cons(ModedType { type_, mode: first.mode, span: first.span }, rest))
            },
        }
    }

    fn rename_given_type(
        &self,
        state: &mut CompilerState,
        type_: &Option<Type>,
    ) -> (r: Result<Option<Type>, Halt>)
        ensures
            gave(
                *old(state),
                *final(state),
                r,
                rename_given_type(self.renaming(), old(state)@, *type_),
            ),
    {
        match type_ {
            None => Ok(None),
            Some(type_) => {
                let type_ = self.rename_type(state, type_)?;
                Ok(Some(type_))
            },
        }
    }

    fn rename_variant(
        &self,
        state: &mut CompilerState,
        variant: &AssertVariant,
    ) -> (r: Result<AssertVariant, Halt>)
        ensures
            gave(
                *old(state),
                *final(state),
                r,
                rename_variant(self.renaming(), old(state)@, *variant),
            ),
    {
        match variant {
            AssertVariant::Assert(expression) => {
                let expression = self.rename_expression(state, expression)?;
                Ok(AssertVariant::Assert(expression))
            },
            AssertVariant::AssertEq(left, right) => {
                let left = self.rename_expression(state, left)?;
                let right = self.rename_expression(state, right)?;
                Ok(AssertVariant::AssertEq(left, right))
            },
            AssertVariant::AssertNeq(left, right) => {
                let left = self.rename_expression(state, left)?;
                let right = self.rename_expression(state, right)?;
                Ok(AssertVariant::AssertNeq(left, right))
            },
        }
    }

    pub(crate) fn rename_statement(
        &self,
        state: &mut CompilerState,
        statement: &Statement,
    ) -> (r: Result<Statement, Halt>)
        ensures
            gave(
                *old(state),
                *final(state),
                r,
                rename_statement(self.renaming(), old(state)@, *statement),
            ),
        decreases *statement,
    {
        proof {
            reveal(rename_statement);
            reveal(rename_block);
            reveal(rename_otherwise);
        }
        match statement {
            Statement::Assert(input) => {
                let variant = self.rename_variant(state, &input.variant)?;
                Ok(
                    Statement::Assert(
                        Rc::new(AssertStatement { variant, span: input.span, id: input.id }),
                    ),
                )
            },
            Statement::Assign(input) => {
                let place = self.rename_expression(state, &input.place)?;
                let value = self.rename_expression(state, &input.value)?;
                Ok(
                    Statement::Assign(
                        Rc::new(AssignStatement { place, value, span: input.span, id: input.id }),
                    ),
                )
            },
            Statement::Block(block) => {
                let block = self.rename_block(state, block)?;
                Ok(Statement::Block(Rc::new(block)))
            },
            Statement::Conditional(input) => {
                let condition = self.rename_expression(state, &input.condition)?;
                let then_block = self.rename_block(state, &input.then_block)?;
                let otherwise = self.rename_otherwise(state, &input.otherwise)?;
                Ok(
                    Statement::Conditional(
                        Rc::new(
                            ConditionalStatement {
                                condition,
                                then_block,
                                otherwise,
                                span: input.span,
                                id: input.id,
                            },
                        ),
                    ),
                )
            },
            Statement::Const(input) => {
                let type_ = self.rename_type(state, &input.type_)?;
                let value = self.rename_expression(state, &input.value)?;
                Ok(
                    Statement::Const(
                        Rc::new(
                            ConstDeclaration {
                                type_,
                                value,
                                place: input.place,
                                span: input.span,
                                id: input.id,
                            },
                        ),
                    ),
                )
            },
            Statement::Definition(input) => {
                let type_ = self.rename_given_type(state, &input.type_)?;
                let value = self.rename_expression(state, &input.value)?;
                Ok(
                    Statement::Definition(
                        Rc::new(
                            DefinitionStatement {
                                type_,
                                value,
                                place: input.place.share(),
                                span: input.span,
                                id: input.id,
                            },
                        ),
                    ),
                )
            },
            Statement::Expression(input) => {
                let expression = self.rename_expression(state, &input.expression)?;
                Ok(
                    Statement::Expression(
                        Rc::new(ExpressionStatement { expression, span: input.span, id: input.id }),
                    ),
                )
            },
            Statement::Iteration(input) => {
                let type_ = self.rename_given_type(state, &input.type_)?;
                let start = self.rename_expression(state, &input.start)?;
                let stop = self.rename_expression(state, &input.stop)?;
                let block = self.rename_block(state, &input.block)?;
                Ok(
                    Statement::Iteration(
                        Rc::new(
                            IterationStatement {
                                type_,
                                start,
                                stop,
                                block,
                                variable: input.variable,
                                inclusive: input.inclusive,
                                span: input.span,
                                id: input.id,
                            },
                        ),
                    ),
                )
            },
            Statement::Return(input) => {
                let expression = self.rename_expression(state, &input.expression)?;
                Ok(
                    Statement::Return(
                        Rc::new(ReturnStatement { expression, span: input.span, id: input.id }),
                    ),
                )
            },
        }
    }

    fn rename_statements(
        &self,
        state: &mut CompilerState,
        statements: &List<Statement>,
    ) -> (r: Result<List<Statement>, Halt>)
        ensures
            gave(
                *old(state),
                *final(state),
                r,
                rename_statements(self.renaming(), old(state)@, *statements),
            ),
        decreases *statements,
    {
        proof {
            reveal(rename_statements);
            reveal(rename_statement);
        }
        match statements {
            List::Nil => Ok(List::Nil),
            List::Cons(first, rest) => {
                let first = self.rename_statement(state, first)?;
                let rest = self.rename_statements(state, rest)?;
                Ok(List::cons(first, rest))
            },
        }
    }

    fn rename_otherwise(
        &self,
        state: &mut CompilerState,
        otherwise: &Option<Statement>,
    ) -> (r: Result<Option<Statement>, Halt>)
        ensures
            gave(
                *old(state),
                *final(state),
                r,
                rename_otherwise(self.renaming(), old(state)@, *otherwise),
            ),
        decreases *otherwise,
    {
        proof {
            reveal(rename_otherwise);
            reveal(rename_statement);
        }
        match otherwise {
            None => Ok(None),
            Some(statement) => {
                let statement = self.rename_statement(state, statement)?;
                Ok(Some(statement))
            },
        }
    }

    fn rename_block(&self, state: &mut CompilerState, block: &Block) -> (r: Result<Block, Halt>)
        ensures
            gave(*old(state), *final(state), r, rename_block(self.renaming(), old(state)@, *block)),
        decreases *block,
    {
        proof {
            reveal(rename_block);
            reveal(rename_statements);
        }
        let statements = self.rename_statements(state, &block.statements)?;
        Ok(Block { statements, span: block.span, id: block.id })
    }
}

} // verus!
