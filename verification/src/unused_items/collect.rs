//! The walk that finds out what a program uses.
use super::events::{
    assert_events, block_events, const_events, declarations, expression_events, expressions_events,
    kind_events, members_events, moded_types_events, optional_events, optional_statement_events,
    optional_type_events, path_events, place_declarations, place_events, statement_events,
    statements_events, type_events, type_parameters_events, types_events,
};
use super::uses::{run, run_joined, run_one, UseCollector};
use crate::ast::{
    AssertVariant, Block, ConstDeclaration, DefinitionPlace, DynamicOpKind, Expression,
    FieldInitializer, Identifier, ModedType, Path, PathTarget, Statement, Type, TypeParameter,
};
use crate::list::List;
use vstd::prelude::*;

verus! {

broadcast use {run_joined, run_one};

impl UseCollector<'_> {
    /// What `path` stands for is used.
    pub fn note_path(&mut self, path: &Path)
        ensures
            final(self)@ == run(old(self).texts(), old(self)@, path_events(*path)),
            final(self).texts() == old(self).texts(),
    {
        if let Some(program) = &path.user_program {
            self.note_import(program.symbol);
        }
        match &path.target {
            PathTarget::Global(location) => {
                self.note_global(location);
            },
            _ => {
                self.note_local_use(path.identifier.name);
            },
        }
    }

    pub fn visit_expression(&mut self, expression: &Expression)
        ensures
            final(self)@ == run(old(self).texts(), old(self)@, expression_events(*expression)),
            final(self).texts() == old(self).texts(),
        decreases *expression,
    {
        proof {
            reveal(expression_events);
            reveal(expressions_events);
            reveal(kind_events);
            reveal(members_events);
            reveal(moded_types_events);
            reveal(optional_events);
            reveal(type_events);
            reveal(type_parameters_events);
        }
        match expression {
            Expression::Array(input) => {
                self.visit_expressions(&input.elements);
            },
            Expression::ArrayAccess(input) => {
                self.visit_expression(&input.array);
                self.visit_expression(&input.index);
            },
            Expression::Binary(input) => {
                self.visit_expression(&input.left);
                self.visit_expression(&input.right);
            },
            Expression::Call(input) => {
                self.note_path(&input.function);
                self.visit_expressions(&input.const_arguments);
                self.visit_expressions(&input.arguments);
            },
            Expression::Cast(input) => {
                self.visit_type(&input.type_);
                self.visit_expression(&input.expression);
            },
            Expression::Composite(input) => {
                self.note_path(&input.path);
                self.visit_expressions(&input.const_arguments);
                self.visit_members(&input.members);
                self.visit_optional(&input.base);
            },
            Expression::DynamicOp(input) => {
                self.visit_type(&input.interface);
                self.visit_expression(&input.target_program);
                self.visit_optional(&input.network);
                self.visit_dynamic_kind(&input.kind);
            },
            Expression::Intrinsic(input) => {
                self.visit_type_parameters(&input.type_parameters);
                self.visit_moded_types(&input.input_types);
                self.visit_moded_types(&input.return_types);
                self.visit_expressions(&input.arguments);
            },
            Expression::MemberAccess(input) => {
                self.visit_expression(&input.inner);
            },
            Expression::Path(path) => {
                self.note_path(path);
            },
            Expression::Repeat(input) => {
                self.visit_expression(&input.expr);
                self.visit_expression(&input.count);
            },
            Expression::Ternary(input) => {
                self.visit_expression(&input.condition);
                self.visit_expression(&input.if_true);
                self.visit_expression(&input.if_false);
            },
            Expression::Tuple(input) => {
                self.visit_expressions(&input.elements);
            },
            Expression::TupleAccess(input) => {
                self.visit_expression(&input.tuple);
            },
            Expression::Unary(input) => {
                self.visit_expression(&input.receiver);
            },
            _ => {},
        }
    }

    fn visit_expressions(&mut self, expressions: &List<Expression>)
        ensures
            final(self)@ == run(old(self).texts(), old(self)@, expressions_events(*expressions)),
            final(self).texts() == old(self).texts(),
        decreases *expressions,
    {
        proof {
            reveal(expression_events);
            reveal(expressions_events);
        }
        match expressions {
            List::Nil => {},
            List::Cons(first, rest) => {
                self.visit_expression(first);
                self.visit_expressions(rest);
            },
        }
    }

    fn visit_optional(&mut self, expression: &Option<Expression>)
        ensures
            final(self)@ == run(old(self).texts(), old(self)@, optional_events(*expression)),
            final(self).texts() == old(self).texts(),
        decreases *expression,
    {
        proof {
            reveal(expression_events);
            reveal(optional_events);
        }
        match expression {
            None => {},
            Some(expression) => {
                self.visit_expression(expression);
            },
        }
    }

    fn visit_members(&mut self, members: &List<FieldInitializer>)
        ensures
            final(self)@ == run(old(self).texts(), old(self)@, members_events(*members)),
            final(self).texts() == old(self).texts(),
        decreases *members,
    {
        proof {
            reveal(members_events);
            reveal(optional_events);
        }
        match members {
            List::Nil => {},
            List::Cons(first, rest) => {
                self.visit_optional(&first.expression);
                self.visit_members(rest);
            },
        }
    }

    fn visit_dynamic_kind(&mut self, kind: &DynamicOpKind)
        ensures
            final(self)@ == run(old(self).texts(), old(self)@, kind_events(*kind)),
            final(self).texts() == old(self).texts(),
        decreases *kind,
    {
        proof {
            reveal(expressions_events);
            reveal(kind_events);
        }
        match kind {
            DynamicOpKind::Read { .. } => {},
            DynamicOpKind::Op { arguments, .. } => {
                self.visit_expressions(arguments);
            },
            DynamicOpKind::Call { arguments, .. } => {
                self.visit_expressions(arguments);
            },
        }
    }

    pub fn visit_type(&mut self, type_: &Type)
        ensures
            final(self)@ == run(old(self).texts(), old(self)@, type_events(*type_)),
            final(self).texts() == old(self).texts(),
        decreases *type_,
    {
        proof {
            reveal(expression_events);
            reveal(expressions_events);
            reveal(type_events);
            reveal(types_events);
        }
        match type_ {
            Type::Array(array) => {
                self.visit_type(&array.element_type);
                self.visit_expression(&array.length);
            },
            Type::Composite(composite) => {
                self.note_path(&composite.path);
                self.visit_expressions(&composite.const_arguments);
            },
            Type::Future(future) => {
                self.visit_types(&future.inputs);
            },
            Type::Mapping(mapping) => {
                self.visit_type(&mapping.key);
                self.visit_type(&mapping.value);
            },
            Type::Optional(inner) => {
                self.visit_type(inner);
            },
            Type::Tuple(elements) => {
                self.visit_types(elements);
            },
            Type::Vector(element) => {
                self.visit_type(element);
            },
            _ => {},
        }
    }

    pub fn visit_types(&mut self, types: &List<Type>)
        ensures
            final(self)@ == run(old(self).texts(), old(self)@, types_events(*types)),
            final(self).texts() == old(self).texts(),
        decreases *types,
    {
        proof {
            reveal(type_events);
            reveal(types_events);
        }
        match types {
            List::Nil => {},
            List::Cons(first, rest) => {
                self.visit_type(first);
                self.visit_types(rest);
            },
        }
    }

    fn visit_type_parameters(&mut self, parameters: &List<TypeParameter>)
        ensures
            final(self)@ == run(old(self).texts(), old(self)@, type_parameters_events(*parameters)),
            final(self).texts() == old(self).texts(),
        decreases *parameters,
    {
        proof {
            reveal(type_events);
            reveal(type_parameters_events);
        }
        match parameters {
            List::Nil => {},
            List::Cons(first, rest) => {
                self.visit_type(&first.type_);
                self.visit_type_parameters(rest);
            },
        }
    }

    fn visit_moded_types(&mut self, types: &List<ModedType>)
        ensures
            final(self)@ == run(old(self).texts(), old(self)@, moded_types_events(*types)),
            final(self).texts() == old(self).texts(),
        decreases *types,
    {
        proof {
            reveal(moded_types_events);
            reveal(type_events);
        }
        match types {
            List::Nil => {},
            List::Cons(first, rest) => {
                self.visit_type(&first.type_);
                self.visit_moded_types(rest);
            },
        }
    }

    fn visit_optional_type(&mut self, type_: &Option<Type>)
        ensures
            final(self)@ == run(old(self).texts(), old(self)@, optional_type_events(*type_)),
            final(self).texts() == old(self).texts(),
    {
        match type_ {
            None => {},
            Some(type_) => {
                self.visit_type(type_);
            },
        }
    }

    fn visit_assert(&mut self, variant: &AssertVariant)
        ensures
            final(self)@ == run(old(self).texts(), old(self)@, assert_events(*variant)),
            final(self).texts() == old(self).texts(),
    {
        match variant {
            AssertVariant::Assert(expression) => {
                self.visit_expression(expression);
            },
            AssertVariant::AssertEq(left, right) => {
                self.visit_expression(left);
                self.visit_expression(right);
            },
            AssertVariant::AssertNeq(left, right) => {
                self.visit_expression(left);
                self.visit_expression(right);
            },
        }
    }

    fn walk_assign_place(&mut self, place: &Expression)
        ensures
            final(self)@ == run(old(self).texts(), old(self)@, place_events(*place)),
            final(self).texts() == old(self).texts(),
        decreases *place,
    {
        proof {
            reveal(place_events);
        }
        match place {
            Expression::Path(_) => {},
            Expression::MemberAccess(input) => {
                self.walk_assign_place(&input.inner);
            },
            Expression::TupleAccess(input) => {
                self.walk_assign_place(&input.tuple);
            },
            Expression::ArrayAccess(input) => {
                self.walk_assign_place(&input.array);
                self.visit_expression(&input.index);
            },
            _ => {
                self.visit_expression(place);
            },
        }
    }

    fn declare_identifiers(&mut self, identifiers: &List<Identifier>)
        ensures
            final(self)@ == run(old(self).texts(), old(self)@, declarations(*identifiers)),
            final(self).texts() == old(self).texts(),
        decreases *identifiers,
    {
        match identifiers {
            List::Nil => {},
            List::Cons(first, rest) => {
                self.declare(first.name, first.span);
                self.declare_identifiers(rest);
            },
        }
    }

    fn declare_place(&mut self, place: &DefinitionPlace)
        ensures
            final(self)@ == run(old(self).texts(), old(self)@, place_declarations(*place)),
            final(self).texts() == old(self).texts(),
    {
        match place {
            DefinitionPlace::Single(identifier) => {
                self.declare(identifier.name, identifier.span);
            },
            DefinitionPlace::Multiple(identifiers) => {
                self.declare_identifiers(identifiers);
            },
        }
    }

    pub fn visit_const(&mut self, input: &ConstDeclaration)
        ensures
            final(self)@ == run(old(self).texts(), old(self)@, const_events(*input)),
            final(self).texts() == old(self).texts(),
    {
        self.visit_type(&input.type_);
        self.visit_expression(&input.value);
        self.declare_const(input.place.name, input.place.span);
    }

    /// Walks over a statement.
    pub fn visit_statement(&mut self, statement: &Statement)
        ensures
            final(self)@ == run(old(self).texts(), old(self)@, statement_events(*statement)),
            final(self).texts() == old(self).texts(),
        decreases *statement,
    {
        proof {
            reveal(statement_events);
            reveal(statements_events);
            reveal(optional_statement_events);
        }
        match statement {
            Statement::Assert(input) => {
                self.visit_assert(&input.variant);
            },
            Statement::Assign(input) => {
                self.walk_assign_place(&input.place);
                self.visit_expression(&input.value);
            },
            Statement::Block(block) => {
                self.enter_scope();
                self.visit_statements(&block.statements);
                self.exit_scope();
            },
            Statement::Conditional(input) => {
                self.visit_expression(&input.condition);
                self.enter_scope();
                self.visit_statements(&input.then_block.statements);
                self.exit_scope();
                self.visit_otherwise(&input.otherwise);
            },
            Statement::Const(input) => {
                self.visit_const(input);
            },
            Statement::Definition(input) => {
                self.visit_optional_type(&input.type_);
                self.visit_expression(&input.value);
                self.declare_place(&input.place);
            },
            Statement::Expression(input) => {
                self.visit_expression(&input.expression);
            },
            Statement::Iteration(input) => {
                self.visit_optional_type(&input.type_);
                self.visit_expression(&input.start);
                self.visit_expression(&input.stop);
                self.enter_scope();
                self.declare(input.variable.name, input.variable.span);
                self.enter_scope();
                self.visit_statements(&input.block.statements);
                self.exit_scope();
                self.exit_scope();
            },
            Statement::Return(input) => {
                self.visit_expression(&input.expression);
            },
        }
    }

    fn visit_statements(&mut self, statements: &List<Statement>)
        ensures
            final(self)@ == run(old(self).texts(), old(self)@, statements_events(*statements)),
            final(self).texts() == old(self).texts(),
        decreases *statements,
    {
        proof {
            reveal(statements_events);
            reveal(statement_events);
        }
        match statements {
            List::Nil => {},
            List::Cons(first, rest) => {
                self.visit_statement(first);
                self.visit_statements(rest);
            },
        }
    }

    fn visit_otherwise(&mut self, statement: &Option<Statement>)
        ensures
            final(self)@ == run(
                old(self).texts(),
                old(self)@,
                optional_statement_events(*statement),
            ),
            final(self).texts() == old(self).texts(),
        decreases *statement,
    {
        proof {
            reveal(optional_statement_events);
            reveal(statement_events);
        }
        match statement {
            None => {},
            Some(statement) => {
                self.visit_statement(statement);
            },
        }
    }

    /// Walks over a block, in a scope of its own.
    pub fn visit_block(&mut self, block: &Block)
        ensures
            final(self)@ == run(old(self).texts(), old(self)@, block_events(*block)),
            final(self).texts() == old(self).texts(),
    {
        self.enter_scope();
        self.visit_statements(&block.statements);
        self.exit_scope();
    }
}

} // verus!
