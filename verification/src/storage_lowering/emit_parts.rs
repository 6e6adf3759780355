//! The steps of lowering with continuations that do not lower anything further.
use crate::ast::{
    make_local_path, Block, ConditionalStatement, DefinitionPlace, DefinitionStatement, Expression,
    ExpressionStatement, Identifier, Intrinsic, NodeId, Span, Statement, Type, UnitExpression,
};
use crate::list::{List, Share};
use crate::state::Halt;
use crate::storage_lowering::emit::{
    as_statement, bind_optional_ternary_branch, branch_statement, copy_expression_type, joined_span,
    materialize_if, optional_type_of, spanned, split_emitted_statement, takes_vector,
    value_statement,
};
use crate::storage_lowering::statements::{legal_statement, LoweredStatement};
use crate::storage_lowering::vectors::Lowered;
use crate::storage_lowering::visitor::{ran, StorageLoweringVisitor};
use std::rc::Rc;
use vstd::prelude::*;

verus! {

/// Whether the first argument of `op` is a vector, which is not evaluated.
pub(crate) fn first_is_vector(op: Intrinsic) -> (r: bool)
    ensures
        r == takes_vector(op),
{
    matches!(
        op,
        Intrinsic::VectorPush | Intrinsic::VectorLen | Intrinsic::VectorPop | Intrinsic::VectorGet
            | Intrinsic::VectorSet | Intrinsic::VectorClear | Intrinsic::VectorSwapRemove
    )
}

fn span_from(span: Span, statements: &List<Statement>) -> (r: Span)
    ensures
        r == spanned(span, *statements),
    decreases *statements,
{
    match statements {
        List::Nil => span,
        List::Cons(first, rest) => span_from(span.join(first.span()), rest),
    }
}

fn span_of(statements: &List<Statement>) -> (r: Span)
    ensures
        r == joined_span(*statements),
{
    match statements {
        List::Nil => Span::none(),
        List::Cons(first, rest) => span_from(first.span(), rest),
    }
}

fn pop_last(statements: &List<Statement>) -> (r: Option<LoweredStatement>)
    ensures
        r == split_emitted_statement(*statements),
    decreases *statements,
{
    match statements {
        List::Nil => None,
        List::Cons(first, rest) => match pop_last(rest) {
            None => Some((first.share(), List::Nil)),
            Some((last, before)) => Some((last, List::cons(first.share(), before))),
        },
    }
}

impl StorageLoweringVisitor {
    /// `to` gets the type that is known of `from`.
    pub(crate) fn copy_expression_type(&mut self, from: NodeId, to: NodeId)
        ensures
            final(self).st() == copy_expression_type(old(self).st(), from, to),
            final(self).cx() == old(self).cx(),
    {
        if from != to {
            if let Some(type_) = self.state.get_type(from) {
                self.state.set_type(to, type_);
            }
        }
    }

    /// Binds `expression` to a name if `strict` says so, unless it may as well be evaluated later.
    pub(crate) fn materialize_if(&mut self, expression: Expression, strict: bool) -> (r: Result<
        Lowered,
        Halt,
    >)
        ensures
            ran(
                *old(self),
                *final(self),
                r,
                materialize_if(old(self).cx(), old(self).st(), expression, strict),
            ),
    {
        if strict {
            self.materialize_strict_prefix_expression(expression)
        } else {
            Ok((expression, List::Nil))
        }
    }

    /// Binds the value of an arm of a ternary to a name of the ternary's optional type.
    pub(crate) fn bind_optional_ternary_branch(
        &mut self,
        expression: Expression,
        optional_type: &Type,
        span: Span,
    ) -> (r: (Expression, Statement))
        ensures
            (final(self).st(), r) == bind_optional_ternary_branch(
                old(self).st(),
                expression,
                *optional_type,
                span,
            ),
            final(self).cx() == old(self).cx(),
    {
        let identifier = self.fresh_identifier("$ternary_branch");
        self.state.set_type(identifier.id, optional_type.share());
        let id: NodeId = self.state.take_id();
        let definition = Statement::Definition(
            Rc::new(
                DefinitionStatement {
                    place: DefinitionPlace::Single(identifier),
                    type_: Some(optional_type.share()),
                    value: expression,
                    span,
                    id,
                },
            ),
        );
        self.state.set_type(identifier.id, optional_type.share());
        (make_local_path(identifier), definition)
    }

    /// The type of the ternary `id`, if that is an optional.
    pub(crate) fn optional_type_of(&self, id: NodeId) -> (r: Option<Type>)
        ensures
            r == optional_type_of(self.st(), id),
    {
        match self.state.get_type(id) {
            Some(Type::Optional(inner)) => Some(Type::Optional(inner)),
            _ => None,
        }
    }

    /// The statement that an expression statement becomes once its value is known.
    pub(crate) fn value_statement(&mut self, keep: bool, value: Expression, span: Span) -> (r:
        Statement)
        ensures
            (final(self).st(), r) == value_statement(old(self).st(), keep, value, span),
            final(self).cx() == old(self).cx(),
    {
        if legal_statement(&value) {
            let id: NodeId = self.state.take_id();
            Statement::Expression(Rc::new(ExpressionStatement { expression: value, span, id }))
        } else if keep {
            let name = self.state.unique_symbol("$discard", "$");
            let identifier = Identifier { name, span, id: self.state.take_id() };
            if let Some(type_) = self.state.get_type(value.id()) {
                self.state.set_type(identifier.id, type_);
            }
            let id: NodeId = self.state.take_id();
            Statement::Definition(
                Rc::new(
                    DefinitionStatement {
                        place: DefinitionPlace::Single(identifier),
                        type_: None,
                        value,
                        span,
                        id,
                    },
                ),
            )
        } else {
            let unit = Expression::Unit(UnitExpression { span, id: self.state.take_id() });
            let id: NodeId = self.state.take_id();
            Statement::Expression(Rc::new(ExpressionStatement { expression: unit, span, id }))
        }
    }

    /// `statements` as one statement.
    pub(crate) fn as_statement(&mut self, statements: List<Statement>) -> (r: Statement)
        ensures
            (final(self).st(), r) == as_statement(old(self).st(), statements),
            final(self).cx() == old(self).cx(),
    {
        match &statements {
            List::Cons(first, rest) => if rest.is_empty() {
                proof {
                    assert(statements@ == seq![*first] + rest@);
                    assert(statements@ =~= seq![*first]);
                }
                return first.share();
            } else {
                assert(statements@ == seq![*first] + rest@);
            },
            List::Nil => {},
        }
        let span = span_of(&statements);
        let id: NodeId = self.state.take_id();
        Statement::Block(Rc::new(Block { statements, span, id }))
    }

    /// The last of `statements`, and those before it. There must be one.
    pub(crate) fn split_emitted_statement(statements: &List<Statement>) -> (r: Result<
        LoweredStatement,
        Halt,
    >)
        ensures
            match split_emitted_statement(*statements) {
                Some(lowered) => r == Ok::<LoweredStatement, Halt>(lowered),
                None => r == Err::<LoweredStatement, Halt>(Halt::IllFormed),
            },
    {
        match pop_last(statements) {
            Some(lowered) => Ok(lowered),
            None => Err(Halt::IllFormed),
        }
    }

    /// `if condition { then_statements } else { else_statements }`
    pub(crate) fn branch_statement(
        &mut self,
        condition: Expression,
        then_statements: List<Statement>,
        else_statements: List<Statement>,
        span: Span,
    ) -> (r: Statement)
        ensures
            (final(self).st(), r) == branch_statement(
                old(self).st(),
                condition,
                then_statements,
                else_statements,
                span,
            ),
            final(self).cx() == old(self).cx(),
    {
        let id: NodeId = self.state.take_id();
        let then_block = Block { statements: then_statements, span, id };
        let id: NodeId = self.state.take_id();
        let otherwise = Statement::Block(
            Rc::new(Block { statements: else_statements, span, id }),
        );
        let id: NodeId = self.state.take_id();
        Statement::Conditional(
            Rc::new(
                ConditionalStatement {
                    condition,
                    then_block,
                    otherwise: Some(otherwise),
                    span,
                    id,
                },
            ),
        )
    }
}

} // verus!
