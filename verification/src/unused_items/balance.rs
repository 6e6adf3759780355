//! Every scope that a walk opens is closed again.
use super::events::{
    assert_events, block_events, const_events, declarations, expression_events, expressions_events,
    kind_events, members_events, moded_types_events, optional_events, optional_statement_events,
    optional_type_events, path_events, place_declarations, place_events, statement_events,
    statements_events, type_events, type_parameters_events, types_events,
};
use super::item_events::{
    ast_events, composite_events, composites_events, constructor_events, consts_events,
    function_events, functions_events, interface_events, interfaces_events, library_events,
    library_structs_events, mapping_events, mappings_events, member_type_events, module_events,
    modules_events, parameter_declarations, program_scope_events, program_scopes_events,
    prototype_events, prototypes_events,
};
use super::scopes::{balanced_joined, balanced_one, balanced_scoped, is_balanced};
use crate::ast::{
    AssertVariant, Block, ConstDeclaration, DefinitionPlace, DynamicOpKind, Expression,
    FieldInitializer, Identifier, ModedType, Path, Statement, Symbol, Type, TypeParameter,
};
use crate::list::{copied, List};
use crate::names::Texts;
use crate::units::{
    Ast, Composite, Constructor, Function, FunctionPrototype, Interface, Library, Mapping, Member,
    Module, Program, ProgramScope,
};
use vstd::prelude::*;

verus! {

broadcast use {balanced_joined, balanced_one, balanced_scoped};

proof fn lemma_path(path: Path)
    ensures
        is_balanced(path_events(path)),
{
}

proof fn lemma_expression(expression: Expression)
    ensures
        is_balanced(expression_events(expression)),
    decreases expression,
{
    reveal(expression_events);
    reveal(expressions_events);
    reveal(kind_events);
    reveal(members_events);
    reveal(moded_types_events);
    reveal(optional_events);
    reveal(type_events);
    reveal(type_parameters_events);
    match expression {
        Expression::Array(input) => {
            lemma_expressions(copied(&input.elements));
        },
        Expression::ArrayAccess(input) => {
            lemma_expression(copied(&input.array));
            lemma_expression(copied(&input.index));
        },
        Expression::Binary(input) => {
            lemma_expression(copied(&input.left));
            lemma_expression(copied(&input.right));
        },
        Expression::Call(input) => {
            lemma_path(copied(&*input.function));
            lemma_expressions(copied(&input.const_arguments));
            lemma_expressions(copied(&input.arguments));
        },
        Expression::Cast(input) => {
            lemma_type(copied(&input.type_));
            lemma_expression(copied(&input.expression));
        },
        Expression::Composite(input) => {
            lemma_path(copied(&*input.path));
            lemma_expressions(copied(&input.const_arguments));
            lemma_members(copied(&input.members));
            lemma_optional(copied(&input.base));
        },
        Expression::DynamicOp(input) => {
            lemma_type(copied(&input.interface));
            lemma_expression(copied(&input.target_program));
            lemma_optional(copied(&input.network));
            lemma_kind(copied(&input.kind));
        },
        Expression::Intrinsic(input) => {
            lemma_type_parameters(copied(&input.type_parameters));
            lemma_moded_types(copied(&input.input_types));
            lemma_moded_types(copied(&input.return_types));
            lemma_expressions(copied(&input.arguments));
        },
        Expression::MemberAccess(input) => {
            lemma_expression(copied(&input.inner));
        },
        Expression::Path(path) => {
            lemma_path(copied(&*path));
        },
        Expression::Repeat(input) => {
            lemma_expression(copied(&input.expr));
            lemma_expression(copied(&input.count));
        },
        Expression::Ternary(input) => {
            lemma_expression(copied(&input.condition));
            lemma_expression(copied(&input.if_true));
            lemma_expression(copied(&input.if_false));
        },
        Expression::Tuple(input) => {
            lemma_expressions(copied(&input.elements));
        },
        Expression::TupleAccess(input) => {
            lemma_expression(copied(&input.tuple));
        },
        Expression::Unary(input) => {
            lemma_expression(copied(&input.receiver));
        },
        _ => {},
    }
}

proof fn lemma_expressions(expressions: List<Expression>)
    ensures
        is_balanced(expressions_events(expressions)),
    decreases expressions,
{
    reveal(expression_events);
    reveal(expressions_events);
    match expressions {
        List::Nil => {},
        List::Cons(first, rest) => {
            lemma_expression(first);
            lemma_expressions(copied(&*rest));
        },
    }
}

proof fn lemma_optional(expression: Option<Expression>)
    ensures
        is_balanced(optional_events(expression)),
    decreases expression,
{
    reveal(expression_events);
    reveal(optional_events);
    match expression {
        None => {},
        Some(expression) => {
            lemma_expression(expression);
        },
    }
}

proof fn lemma_members(members: List<FieldInitializer>)
    ensures
        is_balanced(members_events(members)),
    decreases members,
{
    reveal(members_events);
    reveal(optional_events);
    match members {
        List::Nil => {},
        List::Cons(first, rest) => {
            lemma_optional(copied(&first.expression));
            lemma_members(copied(&*rest));
        },
    }
}

proof fn lemma_kind(kind: DynamicOpKind)
    ensures
        is_balanced(kind_events(kind)),
    decreases kind,
{
    reveal(expressions_events);
    reveal(kind_events);
    match kind {
        DynamicOpKind::Read { .. } => {},
        DynamicOpKind::Op { arguments, .. } => {
            lemma_expressions(arguments);
        },
        DynamicOpKind::Call { arguments, .. } => {
            lemma_expressions(arguments);
        },
    }
}

proof fn lemma_type(type_: Type)
    ensures
        is_balanced(type_events(type_)),
    decreases type_,
{
    reveal(expression_events);
    reveal(expressions_events);
    reveal(type_events);
    reveal(types_events);
    match type_ {
        Type::Array(array) => {
            lemma_type(copied(&array.element_type));
            lemma_expression(copied(&array.length));
        },
        Type::Composite(composite) => {
            lemma_path(copied(&*composite.path));
            lemma_expressions(copied(&composite.const_arguments));
        },
        Type::Future(future) => {
            lemma_types(copied(&future.inputs));
        },
        Type::Mapping(mapping) => {
            lemma_type(copied(&mapping.key));
            lemma_type(copied(&mapping.value));
        },
        Type::Optional(inner) => {
            lemma_type(copied(&*inner));
        },
        Type::Tuple(elements) => {
            lemma_types(copied(&*elements));
        },
        Type::Vector(element) => {
            lemma_type(copied(&*element));
        },
        _ => {},
    }
}

proof fn lemma_types(types: List<Type>)
    ensures
        is_balanced(types_events(types)),
    decreases types,
{
    reveal(type_events);
    reveal(types_events);
    match types {
        List::Nil => {},
        List::Cons(first, rest) => {
            lemma_type(first);
            lemma_types(copied(&*rest));
        },
    }
}

proof fn lemma_type_parameters(parameters: List<TypeParameter>)
    ensures
        is_balanced(type_parameters_events(parameters)),
    decreases parameters,
{
    reveal(type_events);
    reveal(type_parameters_events);
    match parameters {
        List::Nil => {},
        List::Cons(first, rest) => {
            lemma_type(copied(&first.type_));
            lemma_type_parameters(copied(&*rest));
        },
    }
}

proof fn lemma_moded_types(types: List<ModedType>)
    ensures
        is_balanced(moded_types_events(types)),
    decreases types,
{
    reveal(moded_types_events);
    reveal(type_events);
    match types {
        List::Nil => {},
        List::Cons(first, rest) => {
            lemma_type(copied(&first.type_));
            lemma_moded_types(copied(&*rest));
        },
    }
}

proof fn lemma_optional_type(type_: Option<Type>)
    ensures
        is_balanced(optional_type_events(type_)),
{
    match type_ {
        None => {},
        Some(type_) => {
            lemma_type(type_);
        },
    }
}

proof fn lemma_assert(variant: AssertVariant)
    ensures
        is_balanced(assert_events(variant)),
{
    match variant {
        AssertVariant::Assert(expression) => {
            lemma_expression(expression);
        },
        AssertVariant::AssertEq(left, right) => {
            lemma_expression(left);
            lemma_expression(right);
        },
        AssertVariant::AssertNeq(left, right) => {
            lemma_expression(left);
            lemma_expression(right);
        },
    }
}

proof fn lemma_place(place: Expression)
    ensures
        is_balanced(place_events(place)),
    decreases place,
{
    reveal(place_events);
    match place {
        Expression::Path(_) => {},
        Expression::MemberAccess(input) => {
            lemma_place(copied(&input.inner));
        },
        Expression::TupleAccess(input) => {
            lemma_place(copied(&input.tuple));
        },
        Expression::ArrayAccess(input) => {
            lemma_place(copied(&input.array));
            lemma_expression(copied(&input.index));
        },
        _ => {
            lemma_expression(place);
        },
    }
}

proof fn lemma_declarations(identifiers: List<Identifier>)
    ensures
        is_balanced(declarations(identifiers)),
    decreases identifiers,
{
    match identifiers {
        List::Nil => {},
        List::Cons(first, rest) => {
            lemma_declarations(copied(&*rest));
        },
    }
}

proof fn lemma_place_declarations(place: DefinitionPlace)
    ensures
        is_balanced(place_declarations(place)),
{
    match place {
        DefinitionPlace::Single(_) => {},
        DefinitionPlace::Multiple(identifiers) => {
            lemma_declarations(identifiers);
        },
    }
}

proof fn lemma_const(input: ConstDeclaration)
    ensures
        is_balanced(const_events(input)),
{
    lemma_type(input.type_);
    lemma_expression(input.value);
}

proof fn lemma_statement(statement: Statement)
    ensures
        is_balanced(statement_events(statement)),
    decreases statement,
{
    reveal(optional_statement_events);
    reveal(statement_events);
    reveal(statements_events);
    match statement {
        Statement::Assert(input) => {
            lemma_assert(copied(&input.variant));
        },
        Statement::Assign(input) => {
            lemma_place(copied(&input.place));
            lemma_expression(copied(&input.value));
        },
        Statement::Block(block) => {
            lemma_statements(copied(&block.statements));
        },
        Statement::Conditional(input) => {
            lemma_expression(copied(&input.condition));
            lemma_statements(copied(&input.then_block.statements));
            lemma_optional_statement(copied(&input.otherwise));
        },
        Statement::Const(input) => {
            lemma_const(copied(&*input));
        },
        Statement::Definition(input) => {
            lemma_optional_type(copied(&input.type_));
            lemma_expression(copied(&input.value));
            lemma_place_declarations(copied(&input.place));
        },
        Statement::Expression(input) => {
            lemma_expression(copied(&input.expression));
        },
        Statement::Iteration(input) => {
            lemma_optional_type(copied(&input.type_));
            lemma_expression(copied(&input.start));
            lemma_expression(copied(&input.stop));
            lemma_statements(copied(&input.block.statements));
        },
        Statement::Return(input) => {
            lemma_expression(copied(&input.expression));
        },
    }
}

proof fn lemma_statements(statements: List<Statement>)
    ensures
        is_balanced(statements_events(statements)),
    decreases statements,
{
    reveal(statement_events);
    reveal(statements_events);
    match statements {
        List::Nil => {},
        List::Cons(first, rest) => {
            lemma_statement(first);
            lemma_statements(copied(&*rest));
        },
    }
}

proof fn lemma_optional_statement(statement: Option<Statement>)
    ensures
        is_balanced(optional_statement_events(statement)),
    decreases statement,
{
    reveal(optional_statement_events);
    reveal(statement_events);
    match statement {
        None => {},
        Some(statement) => {
            lemma_statement(statement);
        },
    }
}

proof fn lemma_block(block: Block)
    ensures
        is_balanced(block_events(block)),
{
    lemma_statements(block.statements);
}

proof fn lemma_member_types(items: List<Member>)
    ensures
        is_balanced(member_type_events(items)),
    decreases items,
{
    match items {
        List::Nil => {},
        List::Cons(first, rest) => {
            lemma_type(copied(&first.type_));
            lemma_member_types(copied(&*rest));
        },
    }
}

proof fn lemma_parameters(items: List<Member>)
    ensures
        is_balanced(parameter_declarations(items)),
    decreases items,
{
    match items {
        List::Nil => {},
        List::Cons(first, rest) => {
            lemma_parameters(copied(&*rest));
        },
    }
}

proof fn lemma_mapping(mapping: Mapping)
    ensures
        is_balanced(mapping_events(mapping)),
{
    lemma_type(mapping.key_type);
    lemma_type(mapping.value_type);
}

proof fn lemma_mappings(items: List<Mapping>)
    ensures
        is_balanced(mappings_events(items)),
    decreases items,
{
    match items {
        List::Nil => {},
        List::Cons(first, rest) => {
            lemma_mapping(first);
            lemma_mappings(copied(&*rest));
        },
    }
}

proof fn lemma_prototype(prototype: FunctionPrototype)
    ensures
        is_balanced(prototype_events(prototype)),
{
    lemma_member_types(prototype.const_parameters);
    lemma_member_types(prototype.input);
    lemma_types(prototype.output);
    lemma_type(prototype.output_type);
}

proof fn lemma_prototypes(items: List<FunctionPrototype>)
    ensures
        is_balanced(prototypes_events(items)),
    decreases items,
{
    match items {
        List::Nil => {},
        List::Cons(first, rest) => {
            lemma_prototype(first);
            lemma_prototypes(copied(&*rest));
        },
    }
}

proof fn lemma_interface(interface: Interface)
    ensures
        is_balanced(interface_events(interface)),
{
    lemma_prototypes(interface.functions);
    lemma_mappings(interface.mappings);
    lemma_member_types(interface.storages);
}

proof fn lemma_interfaces(items: List<Interface>)
    ensures
        is_balanced(interfaces_events(items)),
    decreases items,
{
    match items {
        List::Nil => {},
        List::Cons(first, rest) => {
            lemma_interface(first);
            lemma_interfaces(copied(&*rest));
        },
    }
}

proof fn lemma_consts(items: List<ConstDeclaration>)
    ensures
        is_balanced(consts_events(items)),
    decreases items,
{
    match items {
        List::Nil => {},
        List::Cons(first, rest) => {
            lemma_const(first);
            lemma_consts(copied(&*rest));
        },
    }
}

proof fn lemma_function(names: Texts, function: Function)
    ensures
        is_balanced(function_events(names, function)),
{
    lemma_parameters(function.const_parameters);
    lemma_parameters(function.input);
    lemma_member_types(function.const_parameters);
    lemma_member_types(function.input);
    lemma_types(function.output);
    lemma_type(function.output_type);
    lemma_block(function.block);
}

proof fn lemma_functions(names: Texts, items: List<Function>)
    ensures
        is_balanced(functions_events(names, items)),
    decreases items,
{
    match items {
        List::Nil => {},
        List::Cons(first, rest) => {
            lemma_function(names, first);
            lemma_functions(names, copied(&*rest));
        },
    }
}

proof fn lemma_composite(unit: Symbol, prefix: List<Symbol>, composite: Composite)
    ensures
        is_balanced(composite_events(unit, prefix, composite)),
{
    lemma_member_types(composite.const_parameters);
    lemma_member_types(composite.members);
}

proof fn lemma_composites(unit: Symbol, prefix: List<Symbol>, items: List<Composite>)
    ensures
        is_balanced(composites_events(unit, prefix, items)),
    decreases items,
{
    match items {
        List::Nil => {},
        List::Cons(first, rest) => {
            lemma_composite(unit, prefix, first);
            lemma_composites(unit, prefix, copied(&*rest));
        },
    }
}

proof fn lemma_library_structs(unit: Symbol, items: List<Composite>)
    ensures
        is_balanced(library_structs_events(unit, items)),
    decreases items,
{
    match items {
        List::Nil => {},
        List::Cons(first, rest) => {
            lemma_composite(unit, List::Nil, first);
            lemma_library_structs(unit, copied(&*rest));
        },
    }
}

proof fn lemma_constructor(constructor: Option<Constructor>)
    ensures
        is_balanced(constructor_events(constructor)),
{
    match constructor {
        None => {},
        Some(constructor) => {
            lemma_block(constructor.block);
        },
    }
}

proof fn lemma_program_scope(names: Texts, scope: ProgramScope)
    ensures
        is_balanced(program_scope_events(names, scope)),
{
    lemma_consts(scope.consts);
    lemma_composites(scope.program_id.symbol, List::Nil, scope.composites);
    lemma_interfaces(scope.interfaces);
    lemma_mappings(scope.mappings);
    lemma_member_types(scope.storage_variables);
    lemma_functions(names, scope.functions);
    lemma_constructor(scope.constructor);
}

proof fn lemma_program_scopes(names: Texts, items: List<ProgramScope>)
    ensures
        is_balanced(program_scopes_events(names, items)),
    decreases items,
{
    match items {
        List::Nil => {},
        List::Cons(first, rest) => {
            lemma_program_scope(names, first);
            lemma_program_scopes(names, copied(&*rest));
        },
    }
}

proof fn lemma_module(names: Texts, module: Module)
    ensures
        is_balanced(module_events(names, module)),
{
    lemma_consts(module.consts);
    lemma_composites(module.unit_name, module.path, module.composites);
    lemma_interfaces(module.interfaces);
    lemma_functions(names, module.functions);
}

proof fn lemma_modules(names: Texts, items: List<Module>)
    ensures
        is_balanced(modules_events(names, items)),
    decreases items,
{
    match items {
        List::Nil => {},
        List::Cons(first, rest) => {
            lemma_module(names, first);
            lemma_modules(names, copied(&*rest));
        },
    }
}

proof fn lemma_library(names: Texts, library: Library)
    ensures
        is_balanced(library_events(names, library)),
{
    lemma_consts(library.consts);
    lemma_library_structs(library.name, library.structs);
    lemma_functions(names, library.functions);
    lemma_interfaces(library.interfaces);
    lemma_modules(names, library.modules);
}

/// In a walk over a unit, every scope that closes was opened before, and every scope that opens is
/// closed.
pub proof fn walks_balance(names: Texts, ast: Ast)
    ensures
        is_balanced(ast_events(names, ast)),
{
    match ast {
        Ast::Program(program) => {
            lemma_program_scopes(names, copied(&program.program_scopes));
            lemma_modules(names, copied(&program.modules));
        },
        Ast::Library(library) => {
            lemma_library(names, copied(&*library));
        },
    }
}

/// In a walk over a statement, every scope that closes was opened before, and every scope that
/// opens is closed.
pub proof fn statements_balance(statement: Statement)
    ensures
        is_balanced(statement_events(statement)),
{
    lemma_statement(statement);
}

} // verus!
