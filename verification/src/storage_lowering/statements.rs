//! Lowering of statements that are lowered by themselves.
use crate::ast::{
    no_span, AssertStatement, AssertVariant, AssignStatement, ConstDeclaration, DefinitionPlace,
    DefinitionStatement, Expression, ExpressionStatement, Intrinsic, Literal, LiteralVariant,
    NodeId, ReturnStatement, Span, Statement, Symbol, Type, UnitExpression,
};
use crate::list::{appended, three, two, List, Share};
use crate::purity::{can_be_discarded, expression_can_be_discarded};
use crate::state::{global_in, with_id, with_suffixed, Halt, State};
use crate::storage_lowering::builders::{
    expression_statement, fresh_identifier, intrinsic, make_intrinsic, mapping_path,
};
use crate::storage_lowering::reconstruct::{reconstruct_expression, reconstruct_type};
use crate::storage_lowering::visitor::{ran, Context, Step, StorageLoweringVisitor};
use std::rc::Rc;
use vstd::prelude::*;

verus! {

/// What a statement is lowered to, and the statements that have to run before it.
pub type LoweredStatement = (Statement, List<Statement>);

/* Storage variables */

/// The storage variable that an assignment to `place` writes; `None` if it writes a local
/// variable. A global item that is written must be a storage variable.
pub open spec fn written_storage(cx: Context, place: Expression) -> Result<Option<Symbol>, Halt> {
    match place {
        Expression::Path(path) => match path.spec_try_global_location() {
            None => Ok(None),
            Some(location) => match global_in(cx.table.globals, cx.program, location) {
                Some(Some(Type::Optional(_))) => Ok(Some(path.identifier.name)),
                _ => Err(Halt::IllFormed),
            },
        },
        _ => Ok(None),
    }
}

/// Writes `value` to the storage variable behind the mapping `mapping`: `none` removes it,
/// anything else is stored.
///
/// ```text
/// _mapping_remove(mapping, false);
/// _mapping_set(mapping, false, value);
/// ```
#[verifier::opaque]
pub open spec fn write_storage(
    cx: Context,
    state: State,
    mapping: Symbol,
    value: Expression,
    span: Span,
) -> (State, Statement) {
    let path = mapping_path(cx, None, mapping, state.next_id);
    let state = with_id(state);
    let key = Expression::Literal(
        Literal { variant: LiteralVariant::Boolean(false), span: no_span(), id: state.next_id },
    );
    let state = with_id(state);
    let write = if value.is_none_literal() {
        intrinsic(Intrinsic::MappingRemove, two(path, key), span, state.next_id)
    } else {
        intrinsic(Intrinsic::MappingSet, three(path, key, value), span, state.next_id)
    };
    expression_statement(with_id(state), write, span)
}

/* Statements */

#[verifier::opaque]
pub open spec fn reconstruct_assert(cx: Context, state: State, input: AssertStatement) -> Step<
    LoweredStatement,
> {
    match input.variant {
        AssertVariant::Assert(expression) => match reconstruct_expression(cx, state, expression) {
            Err(halt) => Err(halt),
            Ok((state, (expression, statements))) => Ok(
                (
                    state,
                    (
                        Statement::Assert(
                            Rc::new(
                                AssertStatement {
                                    variant: AssertVariant::Assert(expression),
                                    ..input
                                },
                            ),
                        ),
                        statements,
                    ),
                ),
            ),
        },
        AssertVariant::AssertEq(left, right) => match reconstruct_expression(cx, state, left) {
            Err(halt) => Err(halt),
            Ok((state, (left, statements))) => match reconstruct_expression(cx, state, right) {
                Err(halt) => Err(halt),
                Ok((state, (right, more))) => Ok(
                    (
                        state,
                        (
                            Statement::Assert(
                                Rc::new(
                                    AssertStatement {
                                        variant: AssertVariant::AssertEq(left, right),
                                        ..input
                                    },
                                ),
                            ),
                            appended(statements, more),
                        ),
                    ),
                ),
            },
        },
        AssertVariant::AssertNeq(left, right) => match reconstruct_expression(cx, state, left) {
            Err(halt) => Err(halt),
            Ok((state, (left, statements))) => match reconstruct_expression(cx, state, right) {
                Err(halt) => Err(halt),
                Ok((state, (right, more))) => Ok(
                    (
                        state,
                        (
                            Statement::Assert(
                                Rc::new(
                                    AssertStatement {
                                        variant: AssertVariant::AssertNeq(left, right),
                                        ..input
                                    },
                                ),
                            ),
                            appended(statements, more),
                        ),
                    ),
                ),
            },
        },
    }
}

/// An assignment to a storage variable becomes a write of the mapping behind it.
#[verifier::opaque]
pub open spec fn reconstruct_assign(cx: Context, state: State, input: AssignStatement) -> Step<
    LoweredStatement,
> {
    match written_storage(cx, input.place) {
        Err(halt) => Err(halt),
        Ok(Some(name)) => match reconstruct_expression(cx, state, input.value) {
            Err(halt) => Err(halt),
            Ok((state, (value, statements))) => {
                let (state, mapping) = with_suffixed(state, name, "__"@);
                let (state, write) = write_storage(cx, state, mapping, value, input.span);
                Ok((state, (write, statements)))
            },
        },
        Ok(None) => match reconstruct_expression(cx, state, input.place) {
            Err(halt) => Err(halt),
            Ok((state, (place, statements))) => match reconstruct_expression(
                cx,
                state,
                input.value,
            ) {
                Err(halt) => Err(halt),
                Ok((state, (value, more))) => Ok(
                    (
                        with_id(state),
                        (
                            Statement::Assign(
                                Rc::new(
                                    AssignStatement {
                                        place,
                                        value,
                                        span: input.span,
                                        id: state.next_id,
                                    },
                                ),
                            ),
                            appended(statements, more),
                        ),
                    ),
                ),
            },
        },
    }
}

#[verifier::opaque]
pub open spec fn reconstruct_const(cx: Context, state: State, input: ConstDeclaration) -> Step<
    LoweredStatement,
> {
    match reconstruct_type(cx, state, input.type_) {
        Err(halt) => Err(halt),
        Ok((state, (type_, statements))) => match reconstruct_expression(cx, state, input.value) {
            Err(halt) => Err(halt),
            Ok((state, (value, more))) => Ok(
                (
                    state,
                    (
                        Statement::Const(Rc::new(ConstDeclaration { type_, value, ..input })),
                        appended(statements, more),
                    ),
                ),
            ),
        },
    }
}

/// The type that a definition gives, lowered. What the type needs to run is dropped.
pub open spec fn reconstruct_given_type(cx: Context, state: State, type_: Option<Type>) -> Step<
    Option<Type>,
> {
    match type_ {
        None => Ok((state, None)),
        Some(type_) => match reconstruct_type(cx, state, type_) {
            Err(halt) => Err(halt),
            Ok((state, (type_, _))) => Ok((state, Some(type_))),
        },
    }
}

#[verifier::opaque]
pub open spec fn reconstruct_definition(
    cx: Context,
    state: State,
    input: DefinitionStatement,
) -> Step<LoweredStatement> {
    match reconstruct_expression(cx, state, input.value) {
        Err(halt) => Err(halt),
        Ok((state, (value, statements))) => match reconstruct_given_type(cx, state, input.type_) {
            Err(halt) => Err(halt),
            Ok((state, type_)) => Ok(
                (
                    state,
                    (
                        Statement::Definition(
                            Rc::new(DefinitionStatement { type_, value, ..input }),
                        ),
                        statements,
                    ),
                ),
            ),
        },
    }
}

/// Whether `expression` may be a statement.
pub open spec fn is_legal_statement(expression: Expression) -> bool {
    expression is Call || expression is DynamicOp || expression is Intrinsic
}

/// An expression that is lowered to something that is no legal statement is bound to a name if it
/// has to be evaluated, and dropped if not.
#[verifier::opaque]
pub open spec fn reconstruct_expression_statement(
    cx: Context,
    state: State,
    input: ExpressionStatement,
) -> Step<LoweredStatement> {
    let keep = !can_be_discarded(state.types, input.expression);
    match reconstruct_expression(cx, state, input.expression) {
        Err(halt) => Err(halt),
        Ok((state, (expression, statements))) => if is_legal_statement(expression) {
            let statement = Statement::Expression(
                Rc::new(ExpressionStatement { expression, ..input }),
            );
            Ok((state, (statement, statements)))
        } else if keep {
            let (state, name) = fresh_identifier(state, "$discard"@);
            let statement = Statement::Definition(
                Rc::new(
                    DefinitionStatement {
                        place: DefinitionPlace::Single(name),
                        type_: None,
                        value: expression,
                        span: input.span,
                        id: state.next_id,
                    },
                ),
            );
            Ok((with_id(state), (statement, statements)))
        } else {
            let unit = Expression::Unit(UnitExpression { span: no_span(), id: state.next_id });
            let statement = Statement::Expression(
                Rc::new(ExpressionStatement { expression: unit, ..input }),
            );
            Ok((with_id(state), (statement, statements)))
        },
    }
}

#[verifier::opaque]
pub open spec fn reconstruct_return(cx: Context, state: State, input: ReturnStatement) -> Step<
    LoweredStatement,
> {
    match reconstruct_expression(cx, state, input.expression) {
        Err(halt) => Err(halt),
        Ok((state, (expression, statements))) => Ok(
            (
                state,
                (
                    Statement::Return(Rc::new(ReturnStatement { expression, ..input })),
                    statements,
                ),
            ),
        ),
    }
}

impl StorageLoweringVisitor {
    /// The storage variable that an assignment to `place` writes.
    pub fn written_storage(&self, place: &Expression) -> (r: Result<Option<Symbol>, Halt>)
        ensures
            r == written_storage(self.cx(), *place),
    {
        match place {
            Expression::Path(path) => match path.try_global_location() {
                None => Ok(None),
                Some(location) => match self.state.symbol_table.lookup_global(
                    self.program,
                    location,
                ) {
                    Some(Some(Type::Optional(_))) => Ok(Some(path.identifier.name)),
                    _ => Err(Halt::IllFormed),
                },
            },
            _ => Ok(None),
        }
    }

    /// Writes `value` to the storage variable behind the mapping `mapping`.
    pub fn write_storage(&mut self, mapping: Symbol, value: Expression, span: Span) -> (r:
        Statement)
        ensures
            (final(self).st(), r) == write_storage(
                old(self).cx(),
                old(self).st(),
                mapping,
                value,
                span,
            ),
            final(self).cx() == old(self).cx(),
    {
        proof {
            reveal(write_storage);
        }
        let id: NodeId = self.state.take_id();
        let path = self.mapping_path(None, mapping, id);
        let key = Expression::Literal(
            Literal {
                variant: LiteralVariant::Boolean(false),
                span: Span::none(),
                id: self.state.take_id(),
            },
        );
        let id: NodeId = self.state.take_id();
        let write = if value.is_none_expr() {
            make_intrinsic(Intrinsic::MappingRemove, List::two(path, key), span, id)
        } else {
            make_intrinsic(Intrinsic::MappingSet, List::three(path, key, value), span, id)
        };
        self.expression_statement(write, span)
    }

    pub fn reconstruct_assert(&mut self, input: &AssertStatement) -> (r: Result<
        LoweredStatement,
        Halt,
    >)
        ensures
            ran(
                *old(self),
                *final(self),
                r,
                reconstruct_assert(old(self).cx(), old(self).st(), *input),
            ),
    {
        proof {
            reveal(reconstruct_assert);
        }
        let (variant, statements) = match &input.variant {
            AssertVariant::Assert(expression) => {
                let (expression, statements) = self.reconstruct_expression(expression)?;
                (AssertVariant::Assert(expression), statements)
            },
            AssertVariant::AssertEq(left, right) => {
                let (left, statements) = self.reconstruct_expression(left)?;
                let (right, more) = self.reconstruct_expression(right)?;
                (AssertVariant::AssertEq(left, right), statements.append(&more))
            },
            AssertVariant::AssertNeq(left, right) => {
                let (left, statements) = self.reconstruct_expression(left)?;
                let (right, more) = self.reconstruct_expression(right)?;
                (AssertVariant::AssertNeq(left, right), statements.append(&more))
            },
        };
        let statement = Statement::Assert(
            Rc::new(AssertStatement { variant, span: input.span, id: input.id }),
        );
        Ok((statement, statements))
    }

    /// An assignment to a storage variable becomes a write of the mapping behind it.
    pub fn reconstruct_assign(&mut self, input: &AssignStatement) -> (r: Result<
        LoweredStatement,
        Halt,
    >)
        ensures
            ran(
                *old(self),
                *final(self),
                r,
                reconstruct_assign(old(self).cx(), old(self).st(), *input),
            ),
    {
        proof {
            reveal(reconstruct_assign);
        }
        match self.written_storage(&input.place)? {
            Some(name) => {
                let (value, statements) = self.reconstruct_expression(&input.value)?;
                let mapping = self.state.suffixed_symbol(name, "__");
                let write = self.write_storage(mapping, value, input.span);
                Ok((write, statements))
            },
            None => {
                let (place, statements) = self.reconstruct_expression(&input.place)?;
                let (value, more) = self.reconstruct_expression(&input.value)?;
                let id: NodeId = self.state.take_id();
                let statement = Statement::Assign(
                    Rc::new(AssignStatement { place, value, span: input.span, id }),
                );
                Ok((statement, statements.append(&more)))
            },
        }
    }

    pub fn reconstruct_const(&mut self, input: &ConstDeclaration) -> (r: Result<
        LoweredStatement,
        Halt,
    >)
        ensures
            ran(
                *old(self),
                *final(self),
                r,
                reconstruct_const(old(self).cx(), old(self).st(), *input),
            ),
    {
        proof {
            reveal(reconstruct_const);
        }
        let (type_, statements) = self.reconstruct_type(&input.type_)?;
        let (value, more) = self.reconstruct_expression(&input.value)?;
        let statement = Statement::Const(
            Rc::new(
                ConstDeclaration {
                    place: input.place,
                    type_,
                    value,
                    span: input.span,
                    id: input.id,
                },
            ),
        );
        Ok((statement, statements.append(&more)))
    }

    /// The type that a definition gives, lowered.
    pub fn reconstruct_given_type(&mut self, type_: &Option<Type>) -> (r: Result<
        Option<Type>,
        Halt,
    >)
        ensures
            ran(
                *old(self),
                *final(self),
                r,
                reconstruct_given_type(old(self).cx(), old(self).st(), *type_),
            ),
    {
        match type_ {
            None => Ok(None),
            Some(type_) => {
                let (type_, _) = self.reconstruct_type(type_)?;
                Ok(Some(type_))
            },
        }
    }

    pub fn reconstruct_definition(&mut self, input: &DefinitionStatement) -> (r: Result<
        LoweredStatement,
        Halt,
    >)
        ensures
            ran(
                *old(self),
                *final(self),
                r,
                reconstruct_definition(old(self).cx(), old(self).st(), *input),
            ),
    {
        proof {
            reveal(reconstruct_definition);
        }
        let (value, statements) = self.reconstruct_expression(&input.value)?;
        let type_ = self.reconstruct_given_type(&input.type_)?;
        let statement = Statement::Definition(
            Rc::new(
                DefinitionStatement {
                    place: input.place.share(),
                    type_,
                    value,
                    span: input.span,
                    id: input.id,
                },
            ),
        );
        Ok((statement, statements))
    }

    /// An expression that is lowered to something that is no legal statement is bound to a name if
    /// it has to be evaluated, and dropped if not.
    pub fn reconstruct_expression_statement(&mut self, input: &ExpressionStatement) -> (r: Result<
        LoweredStatement,
        Halt,
    >)
        ensures
            ran(
                *old(self),
                *final(self),
                r,
                reconstruct_expression_statement(old(self).cx(), old(self).st(), *input),
            ),
    {
        proof {
            reveal(reconstruct_expression_statement);
        }
        let keep = !expression_can_be_discarded(&input.expression, &self.state);
        let (expression, statements) = self.reconstruct_expression(&input.expression)?;
        if legal_statement(&expression) {
            let statement = Statement::Expression(
                Rc::new(ExpressionStatement { expression, span: input.span, id: input.id }),
            );
            Ok((statement, statements))
        } else if keep {
            let name = self.fresh_identifier("$discard");
            let id: NodeId = self.state.take_id();
            let statement = Statement::Definition(
                Rc::new(
                    DefinitionStatement {
                        place: DefinitionPlace::Single(name),
                        type_: None,
                        value: expression,
                        span: input.span,
                        id,
                    },
                ),
            );
            Ok((statement, statements))
        } else {
            let unit = Expression::Unit(
                UnitExpression { span: Span::none(), id: self.state.take_id() },
            );
            let statement = Statement::Expression(
                Rc::new(ExpressionStatement { expression: unit, span: input.span, id: input.id }),
            );
            Ok((statement, statements))
        }
    }

    pub fn reconstruct_return(&mut self, input: &ReturnStatement) -> (r: Result<
        LoweredStatement,
        Halt,
    >)
        ensures
            ran(
                *old(self),
                *final(self),
                r,
                reconstruct_return(old(self).cx(), old(self).st(), *input),
            ),
    {
        proof {
            reveal(reconstruct_return);
        }
        let (expression, statements) = self.reconstruct_expression(&input.expression)?;
        let statement = Statement::Return(
            Rc::new(ReturnStatement { expression, span: input.span, id: input.id }),
        );
        Ok((statement, statements))
    }
}

pub(crate) fn legal_statement(expression: &Expression) -> (r: bool)
    ensures
        r == is_legal_statement(*expression),
{
    matches!(
        expression,
        Expression::Call(_) | Expression::DynamicOp(_) | Expression::Intrinsic(_)
    )
}

} // verus!
