//! A walk comes across all that a program holds, and across nothing else.
use super::events::{
    const_events, declarations, expression_events, expressions_events, kind_events, members_events,
    moded_types_events, optional_events, optional_statement_events, path_events, place_events,
    statement_events, statements_events, type_events, type_parameters_events, types_events,
};
use super::item_events::{
    ast_events, composite_events, composites_events, consts_events, function_events,
    functions_events, interface_events, interfaces_events, library_struct_events,
    library_structs_events, location_in, mapping_events, mappings_events, marks_test,
    member_type_events, module_events, modules_events, parameter_declarations, program_scope_events,
    program_scopes_events, prototype_events, prototypes_events,
};
use super::balance::statements_balance;
use super::laws::{declares, is_read, names_stand_for_variables, reads};
use super::uses::{Event, Uses};
use crate::ast::{
    AssertVariant, ConstDeclaration, DefinitionPlace, DynamicOpKind, Expression, FieldInitializer,
    Identifier, ModedType, Path, PathTarget, Statement, Symbol, Type, TypeParameter,
};
use crate::list::{copied, List};
use crate::names::Texts;
use crate::units::{
    Ast, Composite, Function, FunctionPrototype, Interface, Mapping, Member, Module, ProgramScope,
};
use vstd::prelude::*;

verus! {

/* What occurs where */

/// A part of a program, of whatever kind.
pub enum Node {
    Expression(Expression),
    Type(Type),
    Statement(Statement),
    Const(ConstDeclaration),
    Function(Function),
    /// A composite in a module of a unit.
    Composite(Symbol, List<Symbol>, Composite),
    /// A struct at the top of a library.
    LibraryStruct(Symbol, Composite),
    Mapping(Mapping),
    Prototype(FunctionPrototype),
    Interface(Interface),
    Scope(ProgramScope),
    Module(Module),
    Unit(Ast),
}

/// Whether one of `members` has the type `type_`.
pub open spec fn has_member_of(members: List<Member>, type_: Type) -> bool {
    exists|member: Member| #[trigger] members@.contains(member) && member.type_ == type_
}

/// Whether `expression` is evaluated where `place` is assigned to. The variable at its root is not.
pub open spec fn is_read_in_place(place: Expression, expression: Expression) -> bool
    decreases place,
{
    match place {
        Expression::Path(_) => false,
        Expression::MemberAccess(input) => is_read_in_place(input.inner, expression),
        Expression::TupleAccess(input) => is_read_in_place(input.tuple, expression),
        Expression::ArrayAccess(input) => expression == input.index || is_read_in_place(
            input.array,
            expression,
        ),
        _ => expression == place,
    }
}

/// Whether `part` stands in the expression `whole`, with nothing in between.
pub open spec fn is_operand(whole: Expression, part: Expression) -> bool {
    match whole {
        Expression::Array(input) => input.elements@.contains(part),
        Expression::ArrayAccess(input) => part == input.array || part == input.index,
        Expression::Binary(input) => part == input.left || part == input.right,
        Expression::Call(input) => input.const_arguments@.contains(part)
            || input.arguments@.contains(part),
        Expression::Cast(input) => part == input.expression,
        Expression::Composite(input) => {
            ||| input.const_arguments@.contains(part)
            ||| exists|member: FieldInitializer| #[trigger]
                input.members@.contains(member) && member.expression == Some(part)
            ||| input.base == Some(part)
        },
        Expression::DynamicOp(input) => {
            ||| part == input.target_program
            ||| input.network == Some(part)
            ||| match input.kind {
                DynamicOpKind::Read { .. } => false,
                DynamicOpKind::Op { arguments, .. } => arguments@.contains(part),
                DynamicOpKind::Call { arguments, .. } => arguments@.contains(part),
            }
        },
        Expression::Intrinsic(input) => input.arguments@.contains(part),
        Expression::MemberAccess(input) => part == input.inner,
        Expression::Repeat(input) => part == input.expr || part == input.count,
        Expression::Ternary(input) => part == input.condition || part == input.if_true || part
            == input.if_false,
        Expression::Tuple(input) => input.elements@.contains(part),
        Expression::TupleAccess(input) => part == input.tuple,
        Expression::Unary(input) => part == input.receiver,
        _ => false,
    }
}

/// Whether `type_` is written in the expression `whole`.
pub open spec fn is_type_in(whole: Expression, type_: Type) -> bool {
    match whole {
        Expression::Cast(input) => type_ == input.type_,
        Expression::DynamicOp(input) => type_ == input.interface,
        Expression::Intrinsic(input) => {
            ||| exists|parameter: TypeParameter| #[trigger]
                input.type_parameters@.contains(parameter) && parameter.type_ == type_
            ||| exists|moded: ModedType| #[trigger]
                input.input_types@.contains(moded) && moded.type_ == type_
            ||| exists|moded: ModedType| #[trigger]
                input.return_types@.contains(moded) && moded.type_ == type_
        },
        _ => false,
    }
}

/// Whether `part` stands in `whole`, with nothing in between.
pub open spec fn is_part(whole: Node, part: Node) -> bool {
    match (whole, part) {
        (Node::Expression(whole), Node::Expression(part)) => is_operand(whole, part),
        (Node::Expression(whole), Node::Type(part)) => is_type_in(whole, part),
        (Node::Type(whole), Node::Type(part)) => match whole {
            Type::Array(array) => part == array.element_type,
            Type::Future(future) => future.inputs@.contains(part),
            Type::Mapping(mapping) => part == mapping.key || part == mapping.value,
            Type::Optional(inner) => part == *inner,
            Type::Tuple(elements) => elements@.contains(part),
            Type::Vector(element) => part == *element,
            _ => false,
        },
        (Node::Type(whole), Node::Expression(part)) => match whole {
            Type::Array(array) => part == array.length,
            Type::Composite(composite) => composite.const_arguments@.contains(part),
            _ => false,
        },
        (Node::Statement(whole), Node::Expression(part)) => match whole {
            Statement::Assert(input) => match input.variant {
                AssertVariant::Assert(expression) => part == expression,
                AssertVariant::AssertEq(left, right) => part == left || part == right,
                AssertVariant::AssertNeq(left, right) => part == left || part == right,
            },
            Statement::Assign(input) => is_read_in_place(input.place, part) || part == input.value,
            Statement::Conditional(input) => part == input.condition,
            Statement::Const(input) => part == input.value,
            Statement::Definition(input) => part == input.value,
            Statement::Expression(input) => part == input.expression,
            Statement::Iteration(input) => part == input.start || part == input.stop,
            Statement::Return(input) => part == input.expression,
            Statement::Block(_) => false,
        },
        (Node::Statement(whole), Node::Type(part)) => match whole {
            Statement::Const(input) => part == input.type_,
            Statement::Definition(input) => input.type_ == Some(part),
            Statement::Iteration(input) => input.type_ == Some(part),
            _ => false,
        },
        (Node::Statement(whole), Node::Statement(part)) => match whole {
            Statement::Block(block) => block.statements@.contains(part),
            Statement::Conditional(input) => input.then_block.statements@.contains(part)
                || input.otherwise == Some(part),
            Statement::Iteration(input) => input.block.statements@.contains(part),
            _ => false,
        },
        (Node::Const(whole), Node::Expression(part)) => part == whole.value,
        (Node::Const(whole), Node::Type(part)) => part == whole.type_,
        (Node::Function(whole), Node::Statement(part)) => whole.block.statements@.contains(part),
        (Node::Function(whole), Node::Type(part)) => {
            ||| has_member_of(whole.const_parameters, part)
            ||| has_member_of(whole.input, part)
            ||| whole.output@.contains(part)
            ||| part == whole.output_type
        },
        (Node::Composite(_, _, whole), Node::Type(part)) => has_member_of(
            whole.const_parameters,
            part,
        ) || (whole.is_record && has_member_of(whole.members, part)),
        (Node::LibraryStruct(unit, whole), Node::Composite(in_unit, prefix, part)) => part == whole
            && in_unit == unit && prefix == List::<Symbol>::Nil,
        (Node::Mapping(whole), Node::Type(part)) => part == whole.key_type || part
            == whole.value_type,
        (Node::Prototype(whole), Node::Type(part)) => {
            ||| has_member_of(whole.const_parameters, part)
            ||| has_member_of(whole.input, part)
            ||| whole.output@.contains(part)
            ||| part == whole.output_type
        },
        (Node::Interface(whole), Node::Prototype(part)) => whole.functions@.contains(part),
        (Node::Interface(whole), Node::Mapping(part)) => whole.mappings@.contains(part),
        (Node::Interface(whole), Node::Type(part)) => has_member_of(whole.storages, part),
        (Node::Scope(whole), Node::Const(part)) => whole.consts@.contains(part),
        (Node::Scope(whole), Node::Composite(unit, prefix, part)) => whole.composites@.contains(
            part,
        ) && unit == whole.program_id.symbol && prefix == List::<Symbol>::Nil,
        (Node::Scope(whole), Node::Interface(part)) => whole.interfaces@.contains(part),
        (Node::Scope(whole), Node::Mapping(part)) => whole.mappings@.contains(part),
        (Node::Scope(whole), Node::Type(part)) => has_member_of(whole.storage_variables, part),
        (Node::Scope(whole), Node::Function(part)) => whole.functions@.contains(part),
        (Node::Scope(whole), Node::Statement(part)) => whole.constructor matches Some(constructor)
            && constructor.block.statements@.contains(part),
        (Node::Module(whole), Node::Const(part)) => whole.consts@.contains(part),
        (Node::Module(whole), Node::Composite(unit, prefix, part)) => whole.composites@.contains(
            part,
        ) && unit == whole.unit_name && prefix == whole.path,
        (Node::Module(whole), Node::Interface(part)) => whole.interfaces@.contains(part),
        (Node::Module(whole), Node::Function(part)) => whole.functions@.contains(part),
        (Node::Unit(Ast::Program(whole)), Node::Scope(part)) => whole.program_scopes@.contains(
            part,
        ),
        (Node::Unit(Ast::Program(whole)), Node::Module(part)) => whole.modules@.contains(part),
        (Node::Unit(Ast::Library(whole)), Node::Const(part)) => whole.consts@.contains(part),
        (Node::Unit(Ast::Library(whole)), Node::LibraryStruct(unit, part)) => unit == whole.name
            && whole.structs@.contains(part),
        (Node::Unit(Ast::Library(whole)), Node::Function(part)) => whole.functions@.contains(part),
        (Node::Unit(Ast::Library(whole)), Node::Interface(part)) => whole.interfaces@.contains(
            part,
        ),
        (Node::Unit(Ast::Library(whole)), Node::Module(part)) => whole.modules@.contains(part),
        _ => false,
    }
}

/// The path that stands in `node` itself, not in a part of it.
pub open spec fn named_path(node: Node) -> Option<Path> {
    match node {
        Node::Expression(Expression::Path(path)) => Some(*path),
        Node::Expression(Expression::Call(input)) => Some(*input.function),
        Node::Expression(Expression::Composite(input)) => Some(*input.path),
        Node::Type(Type::Composite(composite)) => Some(*composite.path),
        _ => None,
    }
}

/// Whether `event` is the use of what `path` stands for, or of the program that it names.
pub open spec fn is_use_of(path: Path, event: Event) -> bool {
    match event {
        Event::UseImport { name } => path.user_program matches Some(program) && program.symbol
            == name,
        Event::UseGlobal { location } => path.target matches PathTarget::Global(target) && *target
            == location,
        Event::UseLocal { name } => !(path.target is Global) && path.identifier.name == name,
        _ => false,
    }
}

/// Whether `event` declares the variable `identifier`.
pub open spec fn is_declaration_of(identifier: Identifier, event: Event) -> bool {
    event == (Event::Declare { name: identifier.name, span: identifier.span })
}

/// Whether `event` declares one of `members`.
pub open spec fn declares_one_of(members: List<Member>, event: Event) -> bool {
    exists|member: Member| #[trigger]
        members@.contains(member) && is_declaration_of(member.identifier, event)
}

/// Whether `event` declares a constant of that name.
pub open spec fn is_const_declaration_of(identifier: Identifier, event: Event) -> bool {
    event == (Event::DeclareConst { name: identifier.name, span: identifier.span })
}

/// Whether `event` is what a walk comes across in `node` itself, not in a part of it.
pub open spec fn is_own(names: Texts, node: Node, event: Event) -> bool {
    ||| named_path(node) matches Some(path) && is_use_of(path, event)
    ||| match node {
        Node::Statement(Statement::Definition(input)) => match input.place {
            DefinitionPlace::Single(identifier) => is_declaration_of(identifier, event),
            DefinitionPlace::Multiple(identifiers) => exists|identifier: Identifier| #[trigger]
                identifiers@.contains(identifier) && is_declaration_of(identifier, event),
        },
        Node::Statement(Statement::Const(input)) => is_const_declaration_of(input.place, event),
        Node::Statement(Statement::Iteration(input)) => is_declaration_of(input.variable, event),
        Node::Const(input) => is_const_declaration_of(input.place, event),
        // The parameters of what users call are theirs to choose.
        Node::Function(function) => !(function.variant is EntryPoint) && !marks_test(
            names,
            function.annotations,
        ) && (declares_one_of(function.const_parameters, event) || declares_one_of(
            function.input,
            event,
        )),
        Node::Composite(unit, prefix, composite) => composite.is_record && event == (Event::Root {
            location: location_in(unit, prefix, composite.identifier.name),
        }),
        Node::LibraryStruct(unit, composite) => event == (Event::Root {
            location: location_in(unit, List::Nil, composite.identifier.name),
        }),
        _ => false,
    }
}

/// What a walk over `node` comes across.
pub open spec fn events_in(names: Texts, node: Node) -> Seq<Event> {
    match node {
        Node::Expression(expression) => expression_events(expression),
        Node::Type(type_) => type_events(type_),
        Node::Statement(statement) => statement_events(statement),
        Node::Const(input) => const_events(input),
        Node::Function(function) => function_events(names, function),
        Node::Composite(unit, prefix, composite) => composite_events(unit, prefix, composite),
        Node::LibraryStruct(unit, composite) => library_struct_events(unit, composite),
        Node::Mapping(mapping) => mapping_events(mapping),
        Node::Prototype(prototype) => prototype_events(prototype),
        Node::Interface(interface) => interface_events(interface),
        Node::Scope(scope) => program_scope_events(names, scope),
        Node::Module(module) => module_events(names, module),
        Node::Unit(ast) => ast_events(names, ast),
    }
}

/// Whether `event` is about a name: not the start or the end of a scope, nor what a composite is
/// made of.
pub open spec fn is_about_name(event: Event) -> bool {
    !(event is Enter) && !(event is Exit) && !(event is Depend)
}

/* Lists */

broadcast proof fn joined_contains(first: Seq<Event>, second: Seq<Event>, event: Event)
    ensures
        #[trigger] (first + second).contains(event) == (first.contains(event) || second.contains(
            event,
        )),
{
    let both = first + second;
    if first.contains(event) {
        let i = choose|i: int| 0 <= i < first.len() && first[i] == event;
        assert(both[i] == event);
    }
    if second.contains(event) {
        let i = choose|i: int| 0 <= i < second.len() && second[i] == event;
        assert(both[first.len() + i] == event);
    }
}

broadcast proof fn one_contains(only: Event, event: Event)
    ensures
        #[trigger] seq![only].contains(event) == (only == event),
{
    if only == event {
        assert(seq![only][0] == event);
    }
}

broadcast proof fn none_contains(event: Event)
    ensures
        !(#[trigger] Seq::<Event>::empty().contains(event)),
{
}

proof fn lemma_head<T>(list: List<T>)
    ensures
        match list {
            List::Nil => forall|element: T| !(#[trigger] list@.contains(element)),
            List::Cons(head, tail) => {
                &&& list@.contains(head)
                &&& forall|element: T| #[trigger]
                    tail@.contains(element) ==> list@.contains(element)
                &&& forall|element: T| #[trigger]
                    list@.contains(element) ==> element == head || tail@.contains(element)
            },
        },
{
    if let List::Cons(head, tail) = list {
        let rest = copied(&*tail)@;
        assert(list@ =~= seq![head] + rest);
        assert(list@[0] == head);
        assert forall|element: T| #[trigger] rest.contains(element) implies list@.contains(
            element,
        ) by {
            let i = choose|i: int| 0 <= i < rest.len() && rest[i] == element;
            assert(list@[i + 1] == element);
        }
        assert forall|element: T| #[trigger] list@.contains(element) implies element == head
            || rest.contains(element) by {
            let i = choose|i: int| 0 <= i < list@.len() && list@[i] == element;
            if i > 0 {
                assert(rest[i - 1] == element);
            }
        }
    }
}

proof fn lemma_expressions(list: List<Expression>, event: Event)
    ensures
        expressions_events(list).contains(event) <==> exists|element: Expression| #[trigger]
            list@.contains(element) && expression_events(element).contains(event),
    decreases list,
{
    broadcast use {joined_contains, one_contains, none_contains};

    reveal(expressions_events);
    reveal(expression_events);
    lemma_head(list);
    if let List::Cons(head, tail) = list {
        let rest = copied(&*tail);
        lemma_expressions(rest, event);
        assert(expressions_events(list) == expression_events(head) + expressions_events(rest));
    }
}

proof fn lemma_members(list: List<FieldInitializer>, event: Event)
    ensures
        members_events(list).contains(event) <==> exists|element: FieldInitializer| #[trigger]
            list@.contains(element) && optional_events(element.expression).contains(event),
    decreases list,
{
    broadcast use {joined_contains, one_contains, none_contains};

    reveal(members_events);
    reveal(optional_events);
    lemma_head(list);
    if let List::Cons(head, tail) = list {
        let rest = copied(&*tail);
        lemma_members(rest, event);
        assert(members_events(list) == optional_events(head.expression) + members_events(rest));
    }
}

proof fn lemma_types(list: List<Type>, event: Event)
    ensures
        types_events(list).contains(event) <==> exists|element: Type| #[trigger]
            list@.contains(element) && type_events(element).contains(event),
    decreases list,
{
    broadcast use {joined_contains, one_contains, none_contains};

    reveal(types_events);
    reveal(type_events);
    lemma_head(list);
    if let List::Cons(head, tail) = list {
        let rest = copied(&*tail);
        lemma_types(rest, event);
        assert(types_events(list) == type_events(head) + types_events(rest));
    }
}

proof fn lemma_type_parameters(list: List<TypeParameter>, event: Event)
    ensures
        type_parameters_events(list).contains(event) <==> exists|element: TypeParameter| #[trigger]
            list@.contains(element) && type_events(element.type_).contains(event),
    decreases list,
{
    broadcast use {joined_contains, one_contains, none_contains};

    reveal(type_parameters_events);
    reveal(type_events);
    lemma_head(list);
    if let List::Cons(head, tail) = list {
        let rest = copied(&*tail);
        lemma_type_parameters(rest, event);
        assert(type_parameters_events(list) == type_events(head.type_)
            + type_parameters_events(rest));
    }
}

proof fn lemma_moded_types(list: List<ModedType>, event: Event)
    ensures
        moded_types_events(list).contains(event) <==> exists|element: ModedType| #[trigger]
            list@.contains(element) && type_events(element.type_).contains(event),
    decreases list,
{
    broadcast use {joined_contains, one_contains, none_contains};

    reveal(moded_types_events);
    reveal(type_events);
    lemma_head(list);
    if let List::Cons(head, tail) = list {
        let rest = copied(&*tail);
        lemma_moded_types(rest, event);
        assert(moded_types_events(list) == type_events(head.type_) + moded_types_events(rest));
    }
}

proof fn lemma_statements(list: List<Statement>, event: Event)
    ensures
        statements_events(list).contains(event) <==> exists|element: Statement| #[trigger]
            list@.contains(element) && statement_events(element).contains(event),
    decreases list,
{
    broadcast use {joined_contains, one_contains, none_contains};

    reveal(statements_events);
    reveal(statement_events);
    lemma_head(list);
    if let List::Cons(head, tail) = list {
        let rest = copied(&*tail);
        lemma_statements(rest, event);
        assert(statements_events(list) == statement_events(head) + statements_events(rest));
    }
}

proof fn lemma_member_types(list: List<Member>, event: Event)
    ensures
        member_type_events(list).contains(event) <==> exists|element: Member| #[trigger]
            list@.contains(element) && type_events(element.type_).contains(event),
    decreases list,
{
    broadcast use {joined_contains, one_contains, none_contains};

    lemma_head(list);
    if let List::Cons(head, tail) = list {
        let rest = copied(&*tail);
        lemma_member_types(rest, event);
        assert(member_type_events(list) == type_events(head.type_) + member_type_events(rest));
    }
}

proof fn lemma_parameters(list: List<Member>, event: Event)
    ensures
        parameter_declarations(list).contains(event) <==> exists|element: Member| #[trigger]
            list@.contains(element)
                && event == (Event::Declare {
                name: element.identifier.name,
                span: element.identifier.span,
            }),
    decreases list,
{
    broadcast use {joined_contains, one_contains, none_contains};

    lemma_head(list);
    if let List::Cons(head, tail) = list {
        let rest = copied(&*tail);
        lemma_parameters(rest, event);
        assert(parameter_declarations(
            list,
        ) == seq![Event::Declare { name: head.identifier.name, span: head.identifier.span }]
            + parameter_declarations(rest));
    }
}

proof fn lemma_declarations(list: List<Identifier>, event: Event)
    ensures
        declarations(list).contains(event) <==> exists|element: Identifier| #[trigger]
            list@.contains(element)
                && seq![Event::Declare { name: element.name, span: element.span }].contains(event),
    decreases list,
{
    broadcast use {joined_contains, one_contains, none_contains};

    lemma_head(list);
    if let List::Cons(head, tail) = list {
        let rest = copied(&*tail);
        lemma_declarations(rest, event);
        assert(declarations(list) == seq![Event::Declare { name: head.name, span: head.span }]
            + declarations(rest));
    }
}

proof fn lemma_mappings(list: List<Mapping>, event: Event)
    ensures
        mappings_events(list).contains(event) <==> exists|element: Mapping| #[trigger]
            list@.contains(element) && mapping_events(element).contains(event),
    decreases list,
{
    broadcast use {joined_contains, one_contains, none_contains};

    lemma_head(list);
    if let List::Cons(head, tail) = list {
        let rest = copied(&*tail);
        lemma_mappings(rest, event);
        assert(mappings_events(list) == mapping_events(head) + mappings_events(rest));
    }
}

proof fn lemma_prototypes(list: List<FunctionPrototype>, event: Event)
    ensures
        prototypes_events(list).contains(event) <==> exists|element: FunctionPrototype| #[trigger]
            list@.contains(element) && prototype_events(element).contains(event),
    decreases list,
{
    broadcast use {joined_contains, one_contains, none_contains};

    lemma_head(list);
    if let List::Cons(head, tail) = list {
        let rest = copied(&*tail);
        lemma_prototypes(rest, event);
        assert(prototypes_events(list) == prototype_events(head) + prototypes_events(rest));
    }
}

proof fn lemma_interfaces(list: List<Interface>, event: Event)
    ensures
        interfaces_events(list).contains(event) <==> exists|element: Interface| #[trigger]
            list@.contains(element) && interface_events(element).contains(event),
    decreases list,
{
    broadcast use {joined_contains, one_contains, none_contains};

    lemma_head(list);
    if let List::Cons(head, tail) = list {
        let rest = copied(&*tail);
        lemma_interfaces(rest, event);
        assert(interfaces_events(list) == interface_events(head) + interfaces_events(rest));
    }
}

proof fn lemma_consts(list: List<ConstDeclaration>, event: Event)
    ensures
        consts_events(list).contains(event) <==> exists|element: ConstDeclaration| #[trigger]
            list@.contains(element) && const_events(element).contains(event),
    decreases list,
{
    broadcast use {joined_contains, one_contains, none_contains};

    lemma_head(list);
    if let List::Cons(head, tail) = list {
        let rest = copied(&*tail);
        lemma_consts(rest, event);
        assert(consts_events(list) == const_events(head) + consts_events(rest));
    }
}

proof fn lemma_functions(names: Texts, list: List<Function>, event: Event)
    ensures
        functions_events(names, list).contains(event) <==> exists|element: Function| #[trigger]
            list@.contains(element) && function_events(names, element).contains(event),
    decreases list,
{
    broadcast use {joined_contains, one_contains, none_contains};

    lemma_head(list);
    if let List::Cons(head, tail) = list {
        let rest = copied(&*tail);
        lemma_functions(names, rest, event);
        assert(functions_events(names, list) == function_events(names, head)
            + functions_events(names, rest));
    }
}

proof fn lemma_composites(unit: Symbol, prefix: List<Symbol>, list: List<Composite>, event: Event)
    ensures
        composites_events(
            unit,
            prefix,
            list,
        ).contains(event) <==> exists|element: Composite| #[trigger]
            list@.contains(element) && composite_events(unit, prefix, element).contains(event),
    decreases list,
{
    broadcast use {joined_contains, one_contains, none_contains};

    lemma_head(list);
    if let List::Cons(head, tail) = list {
        let rest = copied(&*tail);
        lemma_composites(unit, prefix, rest, event);
        assert(composites_events(unit, prefix, list) == composite_events(unit, prefix, head)
            + composites_events(unit, prefix, rest));
    }
}

proof fn lemma_structs(unit: Symbol, list: List<Composite>, event: Event)
    ensures
        library_structs_events(
            unit,
            list,
        ).contains(event) <==> exists|element: Composite| #[trigger]
            list@.contains(element) && library_struct_events(unit, element).contains(event),
    decreases list,
{
    broadcast use {joined_contains, one_contains, none_contains};

    lemma_head(list);
    if let List::Cons(head, tail) = list {
        let rest = copied(&*tail);
        lemma_structs(unit, rest, event);
        assert(library_structs_events(unit, list) == library_struct_events(unit, head)
            + library_structs_events(unit, rest));
    }
}

proof fn lemma_scopes(names: Texts, list: List<ProgramScope>, event: Event)
    ensures
        program_scopes_events(
            names,
            list,
        ).contains(event) <==> exists|element: ProgramScope| #[trigger]
            list@.contains(element) && program_scope_events(names, element).contains(event),
    decreases list,
{
    broadcast use {joined_contains, one_contains, none_contains};

    lemma_head(list);
    if let List::Cons(head, tail) = list {
        let rest = copied(&*tail);
        lemma_scopes(names, rest, event);
        assert(program_scopes_events(names, list) == program_scope_events(names, head)
            + program_scopes_events(names, rest));
    }
}

proof fn lemma_modules(names: Texts, list: List<Module>, event: Event)
    ensures
        modules_events(names, list).contains(event) <==> exists|element: Module| #[trigger]
            list@.contains(element) && module_events(names, element).contains(event),
    decreases list,
{
    broadcast use {joined_contains, one_contains, none_contains};

    lemma_head(list);
    if let List::Cons(head, tail) = list {
        let rest = copied(&*tail);
        lemma_modules(names, rest, event);
        assert(modules_events(names, list) == module_events(names, head)
            + modules_events(names, rest));
    }
}

/* Parts */

proof fn lemma_optional(expression: Option<Expression>, event: Event)
    ensures
        optional_events(expression).contains(event) <==> (expression matches Some(value)
            && expression_events(value).contains(event)),
{
    broadcast use {joined_contains, one_contains, none_contains};

    reveal(optional_events);
    reveal(expression_events);
}

proof fn lemma_kind(kind: DynamicOpKind, event: Event)
    ensures
        kind_events(kind).contains(event) <==> match kind {
            DynamicOpKind::Read { .. } => false,
            DynamicOpKind::Op { arguments, .. } => expressions_events(arguments).contains(event),
            DynamicOpKind::Call { arguments, .. } => expressions_events(arguments).contains(event),
        },
{
    broadcast use {joined_contains, one_contains, none_contains};

    reveal(kind_events);
    reveal(expressions_events);
}

proof fn lemma_path(path: Path, event: Event)
    requires
        is_about_name(event),
    ensures
        path_events(path).contains(event) == is_use_of(path, event),
{
    broadcast use {joined_contains, one_contains, none_contains};

}

/// Whether `event` stands in a part of `whole`.
pub open spec fn is_in_part(names: Texts, whole: Node, event: Event) -> bool {
    exists|part: Node| #[trigger] is_part(whole, part) && events_in(names, part).contains(event)
}

proof fn lemma_expression_down(names: Texts, expression: Expression, event: Event)
    requires
        is_about_name(event),
        expression_events(expression).contains(event),
    ensures
        is_own(names, Node::Expression(expression), event) || is_in_part(
            names,
            Node::Expression(expression),
            event,
        ),
{
    broadcast use {joined_contains, one_contains, none_contains};

    reveal(expression_events);
    reveal(expressions_events);
    reveal(optional_events);
    reveal(members_events);
    reveal(kind_events);
    reveal(type_events);
    reveal(type_parameters_events);
    reveal(moded_types_events);
    let whole = Node::Expression(expression);
    match expression {
        Expression::Array(input) => {
            let input = copied(&*input);
            lemma_expressions(input.elements, event);
            if expressions_events(input.elements).contains(event) {
                let element = choose|element: Expression| #[trigger]
                    input.elements@.contains(element) && expression_events(element).contains(event);
                assert(is_part(whole, Node::Expression(element)));
            }
        },
        Expression::ArrayAccess(input) => {
            let input = copied(&*input);
            assert(is_part(whole, Node::Expression(input.array)));
            assert(is_part(whole, Node::Expression(input.index)));
        },
        Expression::Binary(input) => {
            let input = copied(&*input);
            assert(is_part(whole, Node::Expression(input.left)));
            assert(is_part(whole, Node::Expression(input.right)));
        },
        Expression::Call(input) => {
            let input = copied(&*input);
            lemma_path(copied(&*input.function), event);
            lemma_expressions(input.const_arguments, event);
            if expressions_events(input.const_arguments).contains(event) {
                let element = choose|element: Expression| #[trigger]
                    input.const_arguments@.contains(element)
                        && expression_events(element).contains(event);
                assert(is_part(whole, Node::Expression(element)));
            }
            lemma_expressions(input.arguments, event);
            if expressions_events(input.arguments).contains(event) {
                let element = choose|element: Expression| #[trigger]
                    input.arguments@.contains(element)
                        && expression_events(element).contains(event);
                assert(is_part(whole, Node::Expression(element)));
            }
        },
        Expression::Cast(input) => {
            let input = copied(&*input);
            assert(is_part(whole, Node::Type(input.type_)));
            assert(is_part(whole, Node::Expression(input.expression)));
        },
        Expression::Composite(input) => {
            let input = copied(&*input);
            lemma_path(copied(&*input.path), event);
            lemma_expressions(input.const_arguments, event);
            if expressions_events(input.const_arguments).contains(event) {
                let element = choose|element: Expression| #[trigger]
                    input.const_arguments@.contains(element)
                        && expression_events(element).contains(event);
                assert(is_part(whole, Node::Expression(element)));
            }
            lemma_members(input.members, event);
            if members_events(input.members).contains(event) {
                let element = choose|element: FieldInitializer| #[trigger]
                    input.members@.contains(element)
                        && optional_events(element.expression).contains(event);
                lemma_optional(element.expression, event);
                if let Some(value) = element.expression {
                    assert(is_part(whole, Node::Expression(value)));
                }
            }
            lemma_optional(input.base, event);
            if let Some(value) = input.base {
                assert(is_part(whole, Node::Expression(value)));
            }
        },
        Expression::DynamicOp(input) => {
            let input = copied(&*input);
            assert(is_part(whole, Node::Type(input.interface)));
            assert(is_part(whole, Node::Expression(input.target_program)));
            lemma_optional(input.network, event);
            if let Some(value) = input.network {
                assert(is_part(whole, Node::Expression(value)));
            }
            lemma_kind(input.kind, event);
            match input.kind {
                DynamicOpKind::Op { arguments, .. } => {
                    lemma_expressions(arguments, event);
                    if expressions_events(arguments).contains(event) {
                        let element = choose|element: Expression| #[trigger]
                            arguments@.contains(element)
                                && expression_events(element).contains(event);
                        assert(is_part(whole, Node::Expression(element)));
                    }
                },
                DynamicOpKind::Call { arguments, .. } => {
                    lemma_expressions(arguments, event);
                    if expressions_events(arguments).contains(event) {
                        let element = choose|element: Expression| #[trigger]
                            arguments@.contains(element)
                                && expression_events(element).contains(event);
                        assert(is_part(whole, Node::Expression(element)));
                    }
                },
                _ => {},
            }
        },
        Expression::Intrinsic(input) => {
            let input = copied(&*input);
            lemma_type_parameters(input.type_parameters, event);
            if type_parameters_events(input.type_parameters).contains(event) {
                let element = choose|element: TypeParameter| #[trigger]
                    input.type_parameters@.contains(element)
                        && type_events(element.type_).contains(event);
                assert(is_part(whole, Node::Type(element.type_)));
            }
            lemma_moded_types(input.input_types, event);
            if moded_types_events(input.input_types).contains(event) {
                let element = choose|element: ModedType| #[trigger]
                    input.input_types@.contains(element)
                        && type_events(element.type_).contains(event);
                assert(is_part(whole, Node::Type(element.type_)));
            }
            lemma_moded_types(input.return_types, event);
            if moded_types_events(input.return_types).contains(event) {
                let element = choose|element: ModedType| #[trigger]
                    input.return_types@.contains(element)
                        && type_events(element.type_).contains(event);
                assert(is_part(whole, Node::Type(element.type_)));
            }
            lemma_expressions(input.arguments, event);
            if expressions_events(input.arguments).contains(event) {
                let element = choose|element: Expression| #[trigger]
                    input.arguments@.contains(element)
                        && expression_events(element).contains(event);
                assert(is_part(whole, Node::Expression(element)));
            }
        },
        Expression::MemberAccess(input) => {
            let input = copied(&*input);
            assert(is_part(whole, Node::Expression(input.inner)));
        },
        Expression::Path(input) => {
            let input = copied(&*input);
            lemma_path(input, event);
        },
        Expression::Repeat(input) => {
            let input = copied(&*input);
            assert(is_part(whole, Node::Expression(input.expr)));
            assert(is_part(whole, Node::Expression(input.count)));
        },
        Expression::Ternary(input) => {
            let input = copied(&*input);
            assert(is_part(whole, Node::Expression(input.condition)));
            assert(is_part(whole, Node::Expression(input.if_true)));
            assert(is_part(whole, Node::Expression(input.if_false)));
        },
        Expression::Tuple(input) => {
            let input = copied(&*input);
            lemma_expressions(input.elements, event);
            if expressions_events(input.elements).contains(event) {
                let element = choose|element: Expression| #[trigger]
                    input.elements@.contains(element) && expression_events(element).contains(event);
                assert(is_part(whole, Node::Expression(element)));
            }
        },
        Expression::TupleAccess(input) => {
            let input = copied(&*input);
            assert(is_part(whole, Node::Expression(input.tuple)));
        },
        Expression::Unary(input) => {
            let input = copied(&*input);
            assert(is_part(whole, Node::Expression(input.receiver)));
        },
        _ => {},
    }
}

proof fn lemma_expression_up(names: Texts, expression: Expression, part: Node, event: Event)
    requires
        is_about_name(event),
        is_own(names, Node::Expression(expression), event) || (is_part(
            Node::Expression(expression),
            part,
        ) && events_in(names, part).contains(event)),
    ensures
        expression_events(expression).contains(event),
{
    broadcast use {joined_contains, one_contains, none_contains};

    reveal(expression_events);
    reveal(expressions_events);
    reveal(optional_events);
    reveal(members_events);
    reveal(kind_events);
    reveal(type_events);
    reveal(type_parameters_events);
    reveal(moded_types_events);
    let whole = Node::Expression(expression);
    match expression {
        Expression::Array(input) => {
            let input = copied(&*input);
            lemma_expressions(input.elements, event);
        },
        Expression::ArrayAccess(input) => {
            let input = copied(&*input);
        },
        Expression::Binary(input) => {
            let input = copied(&*input);
        },
        Expression::Call(input) => {
            let input = copied(&*input);
            lemma_path(copied(&*input.function), event);
            lemma_expressions(input.const_arguments, event);
            lemma_expressions(input.arguments, event);
        },
        Expression::Cast(input) => {
            let input = copied(&*input);
        },
        Expression::Composite(input) => {
            let input = copied(&*input);
            lemma_path(copied(&*input.path), event);
            lemma_expressions(input.const_arguments, event);
            lemma_members(input.members, event);
            assert forall|value: Expression|
                optional_events(Some(value)).contains(event) == #[trigger] expression_events(
                    value,
                ).contains(event) by {
                lemma_optional(Some(value), event);
            }
            lemma_optional(input.base, event);
        },
        Expression::DynamicOp(input) => {
            let input = copied(&*input);
            lemma_optional(input.network, event);
            lemma_kind(input.kind, event);
            match input.kind {
                DynamicOpKind::Op { arguments, .. } => {
                    lemma_expressions(arguments, event);
                },
                DynamicOpKind::Call { arguments, .. } => {
                    lemma_expressions(arguments, event);
                },
                _ => {},
            }
        },
        Expression::Intrinsic(input) => {
            let input = copied(&*input);
            lemma_type_parameters(input.type_parameters, event);
            lemma_moded_types(input.input_types, event);
            lemma_moded_types(input.return_types, event);
            lemma_expressions(input.arguments, event);
        },
        Expression::MemberAccess(input) => {
            let input = copied(&*input);
        },
        Expression::Path(input) => {
            let input = copied(&*input);
            lemma_path(input, event);
        },
        Expression::Repeat(input) => {
            let input = copied(&*input);
        },
        Expression::Ternary(input) => {
            let input = copied(&*input);
        },
        Expression::Tuple(input) => {
            let input = copied(&*input);
            lemma_expressions(input.elements, event);
        },
        Expression::TupleAccess(input) => {
            let input = copied(&*input);
        },
        Expression::Unary(input) => {
            let input = copied(&*input);
        },
        _ => {},
    }
}

proof fn lemma_type_down(names: Texts, type_: Type, event: Event)
    requires
        is_about_name(event),
        type_events(type_).contains(event),
    ensures
        is_own(names, Node::Type(type_), event) || is_in_part(names, Node::Type(type_), event),
{
    broadcast use {joined_contains, one_contains, none_contains};

    reveal(type_events);
    reveal(types_events);
    reveal(expression_events);
    reveal(expressions_events);
    let whole = Node::Type(type_);
    match type_ {
        Type::Array(input) => {
            let input = copied(&*input);
            assert(is_part(whole, Node::Type(input.element_type)));
            assert(is_part(whole, Node::Expression(input.length)));
        },
        Type::Composite(input) => {
            let input = copied(&*input);
            lemma_path(copied(&*input.path), event);
            lemma_expressions(input.const_arguments, event);
            if expressions_events(input.const_arguments).contains(event) {
                let element = choose|element: Expression| #[trigger]
                    input.const_arguments@.contains(element)
                        && expression_events(element).contains(event);
                assert(is_part(whole, Node::Expression(element)));
            }
        },
        Type::Future(input) => {
            let input = copied(&*input);
            lemma_types(input.inputs, event);
            if types_events(input.inputs).contains(event) {
                let element = choose|element: Type| #[trigger]
                    input.inputs@.contains(element) && type_events(element).contains(event);
                assert(is_part(whole, Node::Type(element)));
            }
        },
        Type::Mapping(input) => {
            let input = copied(&*input);
            assert(is_part(whole, Node::Type(input.key)));
            assert(is_part(whole, Node::Type(input.value)));
        },
        Type::Optional(input) => {
            let input = copied(&*input);
            assert(is_part(whole, Node::Type(input)));
        },
        Type::Tuple(input) => {
            let input = copied(&*input);
            lemma_types(input, event);
            if types_events(input).contains(event) {
                let element = choose|element: Type| #[trigger]
                    input@.contains(element) && type_events(element).contains(event);
                assert(is_part(whole, Node::Type(element)));
            }
        },
        Type::Vector(input) => {
            let input = copied(&*input);
            assert(is_part(whole, Node::Type(input)));
        },
        _ => {},
    }
}

proof fn lemma_type_up(names: Texts, type_: Type, part: Node, event: Event)
    requires
        is_about_name(event),
        is_own(names, Node::Type(type_), event) || (is_part(Node::Type(type_), part) && events_in(
            names,
            part,
        ).contains(event)),
    ensures
        type_events(type_).contains(event),
{
    broadcast use {joined_contains, one_contains, none_contains};

    reveal(type_events);
    reveal(types_events);
    reveal(expression_events);
    reveal(expressions_events);
    let whole = Node::Type(type_);
    match type_ {
        Type::Array(input) => {
            let input = copied(&*input);
        },
        Type::Composite(input) => {
            let input = copied(&*input);
            lemma_path(copied(&*input.path), event);
            lemma_expressions(input.const_arguments, event);
        },
        Type::Future(input) => {
            let input = copied(&*input);
            lemma_types(input.inputs, event);
        },
        Type::Mapping(input) => {
            let input = copied(&*input);
        },
        Type::Optional(input) => {
            let input = copied(&*input);
        },
        Type::Tuple(input) => {
            let input = copied(&*input);
            lemma_types(input, event);
        },
        Type::Vector(input) => {
            let input = copied(&*input);
        },
        _ => {},
    }
}

proof fn lemma_place(place: Expression, event: Event)
    ensures
        place_events(place).contains(event) <==> exists|read: Expression| #[trigger]
            is_read_in_place(place, read) && expression_events(read).contains(event),
    decreases place,
{
    broadcast use {joined_contains, one_contains, none_contains};

    reveal(place_events);
    match place {
        Expression::Path(_) => {},
        Expression::MemberAccess(input) => {
            let inner = copied(&input.inner);
            lemma_place(inner, event);
            assert forall|read: Expression| #[trigger] is_read_in_place(
                place,
                read,
            ) == is_read_in_place(inner, read) by {}
            if place_events(inner).contains(event) {
                let read = choose|read: Expression| #[trigger]
                    is_read_in_place(inner, read) && expression_events(read).contains(event);
                assert(is_read_in_place(place, read));
            }
        },
        Expression::TupleAccess(input) => {
            let inner = copied(&input.tuple);
            lemma_place(inner, event);
            assert forall|read: Expression| #[trigger] is_read_in_place(
                place,
                read,
            ) == is_read_in_place(inner, read) by {}
            if place_events(inner).contains(event) {
                let read = choose|read: Expression| #[trigger]
                    is_read_in_place(inner, read) && expression_events(read).contains(event);
                assert(is_read_in_place(place, read));
            }
        },
        Expression::ArrayAccess(input) => {
            let inner = copied(&input.array);
            lemma_place(inner, event);
            assert forall|read: Expression| #[trigger] is_read_in_place(place, read) == (
            is_read_in_place(inner, read) || read == input.index) by {}
            assert(is_read_in_place(place, input.index));
            if place_events(inner).contains(event) {
                let read = choose|read: Expression| #[trigger]
                    is_read_in_place(inner, read) && expression_events(read).contains(event);
                assert(is_read_in_place(place, read));
            }
        },
        _ => {
            assert(is_read_in_place(place, place));
        },
    }
}

proof fn lemma_otherwise(otherwise: Option<Statement>, event: Event)
    ensures
        optional_statement_events(otherwise).contains(event) <==> (otherwise matches Some(statement)
            && statement_events(statement).contains(event)),
{
    broadcast use {joined_contains, one_contains, none_contains};

    reveal(optional_statement_events);
    reveal(statement_events);
}

proof fn lemma_statement_down(names: Texts, statement: Statement, event: Event)
    requires
        is_about_name(event),
        statement_events(statement).contains(event),
    ensures
        is_own(names, Node::Statement(statement), event)
            || is_in_part(names, Node::Statement(statement), event),
{
    broadcast use {joined_contains, one_contains, none_contains};

    reveal(statement_events);
    reveal(statements_events);
    reveal(optional_statement_events);
    let whole = Node::Statement(statement);
    match statement {
        Statement::Assert(input) => {
            let input = copied(&*input);
            match input.variant {
                AssertVariant::Assert(expression) => {
                    assert(is_part(whole, Node::Expression(expression)));
                },
                AssertVariant::AssertEq(left, right) => {
                    assert(is_part(whole, Node::Expression(left)));
                    assert(is_part(whole, Node::Expression(right)));
                },
                AssertVariant::AssertNeq(left, right) => {
                    assert(is_part(whole, Node::Expression(left)));
                    assert(is_part(whole, Node::Expression(right)));
                },
            }
        },
        Statement::Assign(input) => {
            let input = copied(&*input);
            lemma_place(input.place, event);
            if place_events(input.place).contains(event) {
                let read = choose|read: Expression| #[trigger]
                    is_read_in_place(input.place, read) && expression_events(read).contains(event);
                assert(is_part(whole, Node::Expression(read)));
            }
            assert(is_part(whole, Node::Expression(input.value)));
        },
        Statement::Block(input) => {
            let input = copied(&*input);
            lemma_statements(input.statements, event);
            if statements_events(input.statements).contains(event) {
                let element = choose|element: Statement| #[trigger]
                    input.statements@.contains(element)
                        && statement_events(element).contains(event);
                assert(is_part(whole, Node::Statement(element)));
            }
        },
        Statement::Conditional(input) => {
            let input = copied(&*input);
            assert(is_part(whole, Node::Expression(input.condition)));
            lemma_statements(input.then_block.statements, event);
            if statements_events(input.then_block.statements).contains(event) {
                let element = choose|element: Statement| #[trigger]
                    input.then_block.statements@.contains(element)
                        && statement_events(element).contains(event);
                assert(is_part(whole, Node::Statement(element)));
            }
            lemma_otherwise(input.otherwise, event);
            if let Some(otherwise) = input.otherwise {
                assert(is_part(whole, Node::Statement(otherwise)));
            }
        },
        Statement::Const(input) => {
            let input = copied(&*input);
            assert(is_part(whole, Node::Type(input.type_)));
            assert(is_part(whole, Node::Expression(input.value)));
        },
        Statement::Definition(input) => {
            let input = copied(&*input);
            if let Some(type_) = input.type_ {
                assert(is_part(whole, Node::Type(type_)));
            }
            assert(is_part(whole, Node::Expression(input.value)));
            if let DefinitionPlace::Multiple(identifiers) = input.place {
                lemma_declarations(identifiers, event);
            }
        },
        Statement::Expression(input) => {
            let input = copied(&*input);
            assert(is_part(whole, Node::Expression(input.expression)));
        },
        Statement::Iteration(input) => {
            let input = copied(&*input);
            if let Some(type_) = input.type_ {
                assert(is_part(whole, Node::Type(type_)));
            }
            assert(is_part(whole, Node::Expression(input.start)));
            assert(is_part(whole, Node::Expression(input.stop)));
            lemma_statements(input.block.statements, event);
            if statements_events(input.block.statements).contains(event) {
                let element = choose|element: Statement| #[trigger]
                    input.block.statements@.contains(element)
                        && statement_events(element).contains(event);
                assert(is_part(whole, Node::Statement(element)));
            }
        },
        Statement::Return(input) => {
            let input = copied(&*input);
            assert(is_part(whole, Node::Expression(input.expression)));
        },
    }
}

proof fn lemma_statement_up(names: Texts, statement: Statement, part: Node, event: Event)
    requires
        is_about_name(event),
        is_own(names, Node::Statement(statement), event)
            || (is_part(Node::Statement(statement), part) && events_in(
            names,
            part,
        ).contains(event)),
    ensures
        statement_events(statement).contains(event),
{
    broadcast use {joined_contains, one_contains, none_contains};

    reveal(statement_events);
    reveal(statements_events);
    reveal(optional_statement_events);
    let whole = Node::Statement(statement);
    match statement {
        Statement::Assert(input) => {
            let input = copied(&*input);
            match input.variant {
                AssertVariant::Assert(expression) => {
                    assert(is_part(whole, Node::Expression(expression)));
                },
                AssertVariant::AssertEq(left, right) => {
                    assert(is_part(whole, Node::Expression(left)));
                    assert(is_part(whole, Node::Expression(right)));
                },
                AssertVariant::AssertNeq(left, right) => {
                    assert(is_part(whole, Node::Expression(left)));
                    assert(is_part(whole, Node::Expression(right)));
                },
            }
        },
        Statement::Assign(input) => {
            let input = copied(&*input);
            lemma_place(input.place, event);
        },
        Statement::Block(input) => {
            let input = copied(&*input);
            lemma_statements(input.statements, event);
        },
        Statement::Conditional(input) => {
            let input = copied(&*input);
            lemma_statements(input.then_block.statements, event);
            lemma_otherwise(input.otherwise, event);
        },
        Statement::Const(input) => {
            let input = copied(&*input);
        },
        Statement::Definition(input) => {
            let input = copied(&*input);
            if let DefinitionPlace::Multiple(identifiers) = input.place {
                lemma_declarations(identifiers, event);
            }
        },
        Statement::Expression(input) => {
            let input = copied(&*input);
        },
        Statement::Iteration(input) => {
            let input = copied(&*input);
            lemma_statements(input.block.statements, event);
        },
        Statement::Return(input) => {
            let input = copied(&*input);
        },
    }
}

proof fn lemma_const_down(names: Texts, input: ConstDeclaration, event: Event)
    requires
        is_about_name(event),
        const_events(input).contains(event),
    ensures
        is_own(names, Node::Const(input), event) || is_in_part(names, Node::Const(input), event),
{
    broadcast use {joined_contains, one_contains, none_contains};

    let whole = Node::Const(input);
    assert(is_part(whole, Node::Type(input.type_)));
    assert(is_part(whole, Node::Expression(input.value)));
}

proof fn lemma_const_up(names: Texts, input: ConstDeclaration, part: Node, event: Event)
    requires
        is_about_name(event),
        is_own(names, Node::Const(input), event) || (is_part(Node::Const(input), part) && events_in(
            names,
            part,
        ).contains(event)),
    ensures
        const_events(input).contains(event),
{
    broadcast use {joined_contains, one_contains, none_contains};

    let whole = Node::Const(input);
}

proof fn lemma_function_down(names: Texts, input: Function, event: Event)
    requires
        is_about_name(event),
        function_events(names, input).contains(event),
    ensures
        is_own(names, Node::Function(input), event)
            || is_in_part(names, Node::Function(input), event),
{
    broadcast use {joined_contains, one_contains, none_contains};

    let whole = Node::Function(input);
    lemma_member_types(input.const_parameters, event);
    if member_type_events(input.const_parameters).contains(event) {
        let element = choose|element: Member| #[trigger]
            input.const_parameters@.contains(element) && type_events(element.type_).contains(event);
        assert(has_member_of(input.const_parameters, element.type_));
        assert(is_part(whole, Node::Type(element.type_)));
    }
    lemma_member_types(input.input, event);
    if member_type_events(input.input).contains(event) {
        let element = choose|element: Member| #[trigger]
            input.input@.contains(element) && type_events(element.type_).contains(event);
        assert(has_member_of(input.input, element.type_));
        assert(is_part(whole, Node::Type(element.type_)));
    }
    lemma_types(input.output, event);
    if types_events(input.output).contains(event) {
        let element = choose|element: Type| #[trigger]
            input.output@.contains(element) && type_events(element).contains(event);
        assert(is_part(whole, Node::Type(element)));
    }
    assert(is_part(whole, Node::Type(input.output_type)));
    lemma_statements(input.block.statements, event);
    if statements_events(input.block.statements).contains(event) {
        let element = choose|element: Statement| #[trigger]
            input.block.statements@.contains(element) && statement_events(element).contains(event);
        assert(is_part(whole, Node::Statement(element)));
    }
    lemma_parameters(input.const_parameters, event);
    lemma_parameters(input.input, event);
}

proof fn lemma_function_up(names: Texts, input: Function, part: Node, event: Event)
    requires
        is_about_name(event),
        is_own(names, Node::Function(input), event)
            || (is_part(Node::Function(input), part) && events_in(
            names,
            part,
        ).contains(event)),
    ensures
        function_events(names, input).contains(event),
{
    broadcast use {joined_contains, one_contains, none_contains};

    let whole = Node::Function(input);
    lemma_member_types(input.const_parameters, event);
    lemma_member_types(input.input, event);
    lemma_types(input.output, event);
    lemma_statements(input.block.statements, event);
    lemma_parameters(input.const_parameters, event);
    lemma_parameters(input.input, event);
}

proof fn lemma_composite_down(names: Texts, input: (Symbol, List<Symbol>, Composite), event: Event)
    requires
        is_about_name(event),
        composite_events(input.0, input.1, input.2).contains(event),
    ensures
        is_own(names, Node::Composite(input.0, input.1, input.2), event)
            || is_in_part(names, Node::Composite(input.0, input.1, input.2), event),
{
    broadcast use {joined_contains, one_contains, none_contains};

    let whole = Node::Composite(input.0, input.1, input.2);
    lemma_member_types(input.2.const_parameters, event);
    if member_type_events(input.2.const_parameters).contains(event) {
        let element = choose|element: Member| #[trigger]
            input.2.const_parameters@.contains(element)
                && type_events(element.type_).contains(event);
        assert(has_member_of(input.2.const_parameters, element.type_));
        assert(is_part(whole, Node::Type(element.type_)));
    }
    if input.2.is_record {
        lemma_member_types(input.2.members, event);
        if member_type_events(input.2.members).contains(event) {
            let element = choose|element: Member| #[trigger]
                input.2.members@.contains(element) && type_events(element.type_).contains(event);
            assert(has_member_of(input.2.members, element.type_));
            assert(is_part(whole, Node::Type(element.type_)));
        }
    }
}

proof fn lemma_composite_up(
    names: Texts,
    input: (Symbol, List<Symbol>, Composite),
    part: Node,
    event: Event,
)
    requires
        is_about_name(event),
        is_own(names, Node::Composite(input.0, input.1, input.2), event)
            || (is_part(Node::Composite(input.0, input.1, input.2), part) && events_in(
            names,
            part,
        ).contains(event)),
    ensures
        composite_events(input.0, input.1, input.2).contains(event),
{
    broadcast use {joined_contains, one_contains, none_contains};

    let whole = Node::Composite(input.0, input.1, input.2);
    lemma_member_types(input.2.const_parameters, event);
    if input.2.is_record {
        lemma_member_types(input.2.members, event);
    }
}

proof fn lemma_library_struct_down(names: Texts, input: (Symbol, Composite), event: Event)
    requires
        is_about_name(event),
        library_struct_events(input.0, input.1).contains(event),
    ensures
        is_own(names, Node::LibraryStruct(input.0, input.1), event)
            || is_in_part(names, Node::LibraryStruct(input.0, input.1), event),
{
    broadcast use {joined_contains, one_contains, none_contains};

    let whole = Node::LibraryStruct(input.0, input.1);
    assert(is_part(whole, Node::Composite(input.0, List::Nil, input.1)));
}

proof fn lemma_library_struct_up(names: Texts, input: (Symbol, Composite), part: Node, event: Event)
    requires
        is_about_name(event),
        is_own(names, Node::LibraryStruct(input.0, input.1), event)
            || (is_part(Node::LibraryStruct(input.0, input.1), part) && events_in(
            names,
            part,
        ).contains(event)),
    ensures
        library_struct_events(input.0, input.1).contains(event),
{
    broadcast use {joined_contains, one_contains, none_contains};

    let whole = Node::LibraryStruct(input.0, input.1);
    assert(is_part(whole, Node::Composite(input.0, List::Nil, input.1)));
}

proof fn lemma_mapping_down(names: Texts, input: Mapping, event: Event)
    requires
        is_about_name(event),
        mapping_events(input).contains(event),
    ensures
        is_own(names, Node::Mapping(input), event)
            || is_in_part(names, Node::Mapping(input), event),
{
    broadcast use {joined_contains, one_contains, none_contains};

    let whole = Node::Mapping(input);
    assert(is_part(whole, Node::Type(input.key_type)));
    assert(is_part(whole, Node::Type(input.value_type)));
}

proof fn lemma_mapping_up(names: Texts, input: Mapping, part: Node, event: Event)
    requires
        is_about_name(event),
        is_own(names, Node::Mapping(input), event)
            || (is_part(Node::Mapping(input), part) && events_in(
            names,
            part,
        ).contains(event)),
    ensures
        mapping_events(input).contains(event),
{
    broadcast use {joined_contains, one_contains, none_contains};

    let whole = Node::Mapping(input);
}

proof fn lemma_prototype_down(names: Texts, input: FunctionPrototype, event: Event)
    requires
        is_about_name(event),
        prototype_events(input).contains(event),
    ensures
        is_own(names, Node::Prototype(input), event)
            || is_in_part(names, Node::Prototype(input), event),
{
    broadcast use {joined_contains, one_contains, none_contains};

    let whole = Node::Prototype(input);
    lemma_member_types(input.const_parameters, event);
    if member_type_events(input.const_parameters).contains(event) {
        let element = choose|element: Member| #[trigger]
            input.const_parameters@.contains(element) && type_events(element.type_).contains(event);
        assert(has_member_of(input.const_parameters, element.type_));
        assert(is_part(whole, Node::Type(element.type_)));
    }
    lemma_member_types(input.input, event);
    if member_type_events(input.input).contains(event) {
        let element = choose|element: Member| #[trigger]
            input.input@.contains(element) && type_events(element.type_).contains(event);
        assert(has_member_of(input.input, element.type_));
        assert(is_part(whole, Node::Type(element.type_)));
    }
    lemma_types(input.output, event);
    if types_events(input.output).contains(event) {
        let element = choose|element: Type| #[trigger]
            input.output@.contains(element) && type_events(element).contains(event);
        assert(is_part(whole, Node::Type(element)));
    }
    assert(is_part(whole, Node::Type(input.output_type)));
}

proof fn lemma_prototype_up(names: Texts, input: FunctionPrototype, part: Node, event: Event)
    requires
        is_about_name(event),
        is_own(names, Node::Prototype(input), event)
            || (is_part(Node::Prototype(input), part) && events_in(
            names,
            part,
        ).contains(event)),
    ensures
        prototype_events(input).contains(event),
{
    broadcast use {joined_contains, one_contains, none_contains};

    let whole = Node::Prototype(input);
    lemma_member_types(input.const_parameters, event);
    lemma_member_types(input.input, event);
    lemma_types(input.output, event);
}

proof fn lemma_interface_down(names: Texts, input: Interface, event: Event)
    requires
        is_about_name(event),
        interface_events(input).contains(event),
    ensures
        is_own(names, Node::Interface(input), event)
            || is_in_part(names, Node::Interface(input), event),
{
    broadcast use {joined_contains, one_contains, none_contains};

    let whole = Node::Interface(input);
    lemma_prototypes(input.functions, event);
    if prototypes_events(input.functions).contains(event) {
        let element = choose|element: FunctionPrototype| #[trigger]
            input.functions@.contains(element) && prototype_events(element).contains(event);
        assert(is_part(whole, Node::Prototype(element)));
    }
    lemma_mappings(input.mappings, event);
    if mappings_events(input.mappings).contains(event) {
        let element = choose|element: Mapping| #[trigger]
            input.mappings@.contains(element) && mapping_events(element).contains(event);
        assert(is_part(whole, Node::Mapping(element)));
    }
    lemma_member_types(input.storages, event);
    if member_type_events(input.storages).contains(event) {
        let element = choose|element: Member| #[trigger]
            input.storages@.contains(element) && type_events(element.type_).contains(event);
        assert(has_member_of(input.storages, element.type_));
        assert(is_part(whole, Node::Type(element.type_)));
    }
}

proof fn lemma_interface_up(names: Texts, input: Interface, part: Node, event: Event)
    requires
        is_about_name(event),
        is_own(names, Node::Interface(input), event)
            || (is_part(Node::Interface(input), part) && events_in(
            names,
            part,
        ).contains(event)),
    ensures
        interface_events(input).contains(event),
{
    broadcast use {joined_contains, one_contains, none_contains};

    let whole = Node::Interface(input);
    lemma_prototypes(input.functions, event);
    lemma_mappings(input.mappings, event);
    lemma_member_types(input.storages, event);
}

proof fn lemma_scope_down(names: Texts, input: ProgramScope, event: Event)
    requires
        is_about_name(event),
        program_scope_events(names, input).contains(event),
    ensures
        is_own(names, Node::Scope(input), event) || is_in_part(names, Node::Scope(input), event),
{
    broadcast use {joined_contains, one_contains, none_contains};

    let whole = Node::Scope(input);
    let unit = input.program_id.symbol;
    let prefix = List::<Symbol>::Nil;
    lemma_consts(input.consts, event);
    if consts_events(input.consts).contains(event) {
        let element = choose|element: ConstDeclaration| #[trigger]
            input.consts@.contains(element) && const_events(element).contains(event);
        assert(is_part(whole, Node::Const(element)));
    }
    lemma_composites(unit, prefix, input.composites, event);
    if composites_events(unit, prefix, input.composites).contains(event) {
        let element = choose|element: Composite| #[trigger]
            input.composites@.contains(element)
                && composite_events(unit, prefix, element).contains(event);
        assert(is_part(whole, Node::Composite(unit, prefix, element)));
    }
    lemma_interfaces(input.interfaces, event);
    if interfaces_events(input.interfaces).contains(event) {
        let element = choose|element: Interface| #[trigger]
            input.interfaces@.contains(element) && interface_events(element).contains(event);
        assert(is_part(whole, Node::Interface(element)));
    }
    lemma_mappings(input.mappings, event);
    if mappings_events(input.mappings).contains(event) {
        let element = choose|element: Mapping| #[trigger]
            input.mappings@.contains(element) && mapping_events(element).contains(event);
        assert(is_part(whole, Node::Mapping(element)));
    }
    lemma_member_types(input.storage_variables, event);
    if member_type_events(input.storage_variables).contains(event) {
        let element = choose|element: Member| #[trigger]
            input.storage_variables@.contains(element)
                && type_events(element.type_).contains(event);
        assert(has_member_of(input.storage_variables, element.type_));
        assert(is_part(whole, Node::Type(element.type_)));
    }
    lemma_functions(names, input.functions, event);
    if functions_events(names, input.functions).contains(event) {
        let element = choose|element: Function| #[trigger]
            input.functions@.contains(element) && function_events(names, element).contains(event);
        assert(is_part(whole, Node::Function(element)));
    }
    if let Some(constructor) = input.constructor {
        lemma_statements(constructor.block.statements, event);
        if statements_events(constructor.block.statements).contains(event) {
            let element = choose|element: Statement| #[trigger]
                constructor.block.statements@.contains(element)
                    && statement_events(element).contains(event);
            assert(is_part(whole, Node::Statement(element)));
        }
    }
}

proof fn lemma_scope_up(names: Texts, input: ProgramScope, part: Node, event: Event)
    requires
        is_about_name(event),
        is_own(names, Node::Scope(input), event) || (is_part(Node::Scope(input), part) && events_in(
            names,
            part,
        ).contains(event)),
    ensures
        program_scope_events(names, input).contains(event),
{
    broadcast use {joined_contains, one_contains, none_contains};

    let whole = Node::Scope(input);
    let unit = input.program_id.symbol;
    let prefix = List::<Symbol>::Nil;
    lemma_consts(input.consts, event);
    lemma_composites(unit, prefix, input.composites, event);
    lemma_interfaces(input.interfaces, event);
    lemma_mappings(input.mappings, event);
    lemma_member_types(input.storage_variables, event);
    lemma_functions(names, input.functions, event);
    if let Some(constructor) = input.constructor {
        lemma_statements(constructor.block.statements, event);
    }
}

proof fn lemma_module_down(names: Texts, input: Module, event: Event)
    requires
        is_about_name(event),
        module_events(names, input).contains(event),
    ensures
        is_own(names, Node::Module(input), event) || is_in_part(names, Node::Module(input), event),
{
    broadcast use {joined_contains, one_contains, none_contains};

    let whole = Node::Module(input);
    let unit = input.unit_name;
    let prefix = input.path;
    lemma_consts(input.consts, event);
    if consts_events(input.consts).contains(event) {
        let element = choose|element: ConstDeclaration| #[trigger]
            input.consts@.contains(element) && const_events(element).contains(event);
        assert(is_part(whole, Node::Const(element)));
    }
    lemma_composites(unit, prefix, input.composites, event);
    if composites_events(unit, prefix, input.composites).contains(event) {
        let element = choose|element: Composite| #[trigger]
            input.composites@.contains(element)
                && composite_events(unit, prefix, element).contains(event);
        assert(is_part(whole, Node::Composite(unit, prefix, element)));
    }
    lemma_interfaces(input.interfaces, event);
    if interfaces_events(input.interfaces).contains(event) {
        let element = choose|element: Interface| #[trigger]
            input.interfaces@.contains(element) && interface_events(element).contains(event);
        assert(is_part(whole, Node::Interface(element)));
    }
    lemma_functions(names, input.functions, event);
    if functions_events(names, input.functions).contains(event) {
        let element = choose|element: Function| #[trigger]
            input.functions@.contains(element) && function_events(names, element).contains(event);
        assert(is_part(whole, Node::Function(element)));
    }
}

proof fn lemma_module_up(names: Texts, input: Module, part: Node, event: Event)
    requires
        is_about_name(event),
        is_own(names, Node::Module(input), event)
            || (is_part(Node::Module(input), part) && events_in(
            names,
            part,
        ).contains(event)),
    ensures
        module_events(names, input).contains(event),
{
    broadcast use {joined_contains, one_contains, none_contains};

    let whole = Node::Module(input);
    let unit = input.unit_name;
    let prefix = input.path;
    lemma_consts(input.consts, event);
    lemma_composites(unit, prefix, input.composites, event);
    lemma_interfaces(input.interfaces, event);
    lemma_functions(names, input.functions, event);
}

#[verifier::rlimit(60)]
proof fn lemma_unit_down(names: Texts, ast: Ast, event: Event)
    requires
        is_about_name(event),
        ast_events(names, ast).contains(event),
    ensures
        is_own(names, Node::Unit(ast), event) || is_in_part(names, Node::Unit(ast), event),
{
    broadcast use {joined_contains, one_contains, none_contains};

    let whole = Node::Unit(ast);
    match ast {
        Ast::Program(input) => {
            let input = copied(&*input);
            lemma_scopes(names, input.program_scopes, event);
            if program_scopes_events(names, input.program_scopes).contains(event) {
                let element = choose|element: ProgramScope| #[trigger]
                    input.program_scopes@.contains(element)
                        && program_scope_events(names, element).contains(event);
                assert(is_part(whole, Node::Scope(element)));
            }
            lemma_modules(names, input.modules, event);
            if modules_events(names, input.modules).contains(event) {
                let element = choose|element: Module| #[trigger]
                    input.modules@.contains(element)
                        && module_events(names, element).contains(event);
                assert(is_part(whole, Node::Module(element)));
            }
        },
        Ast::Library(input) => {
            let input = copied(&*input);
            let unit = input.name;
            lemma_consts(input.consts, event);
            if consts_events(input.consts).contains(event) {
                let element = choose|element: ConstDeclaration| #[trigger]
                    input.consts@.contains(element) && const_events(element).contains(event);
                assert(is_part(whole, Node::Const(element)));
            }
            lemma_structs(unit, input.structs, event);
            if library_structs_events(unit, input.structs).contains(event) {
                let element = choose|element: Composite| #[trigger]
                    input.structs@.contains(element)
                        && library_struct_events(unit, element).contains(event);
                assert(is_part(whole, Node::LibraryStruct(unit, element)));
            }
            lemma_functions(names, input.functions, event);
            if functions_events(names, input.functions).contains(event) {
                let element = choose|element: Function| #[trigger]
                    input.functions@.contains(element)
                        && function_events(names, element).contains(event);
                assert(is_part(whole, Node::Function(element)));
            }
            lemma_interfaces(input.interfaces, event);
            if interfaces_events(input.interfaces).contains(event) {
                let element = choose|element: Interface| #[trigger]
                    input.interfaces@.contains(element)
                        && interface_events(element).contains(event);
                assert(is_part(whole, Node::Interface(element)));
            }
            lemma_modules(names, input.modules, event);
            if modules_events(names, input.modules).contains(event) {
                let element = choose|element: Module| #[trigger]
                    input.modules@.contains(element)
                        && module_events(names, element).contains(event);
                assert(is_part(whole, Node::Module(element)));
            }
        },
    }
}

proof fn lemma_unit_up(names: Texts, ast: Ast, part: Node, event: Event)
    requires
        is_about_name(event),
        is_own(names, Node::Unit(ast), event) || (is_part(Node::Unit(ast), part) && events_in(
            names,
            part,
        ).contains(event)),
    ensures
        ast_events(names, ast).contains(event),
{
    broadcast use {joined_contains, one_contains, none_contains};

    let whole = Node::Unit(ast);
    match ast {
        Ast::Program(input) => {
            let input = copied(&*input);
            lemma_scopes(names, input.program_scopes, event);
            lemma_modules(names, input.modules, event);
        },
        Ast::Library(input) => {
            let input = copied(&*input);
            let unit = input.name;
            lemma_consts(input.consts, event);
            lemma_structs(unit, input.structs, event);
            lemma_functions(names, input.functions, event);
            lemma_interfaces(input.interfaces, event);
            lemma_modules(names, input.modules, event);
        },
    }
}

proof fn lemma_down(names: Texts, whole: Node, event: Event)
    requires
        is_about_name(event),
        events_in(names, whole).contains(event),
    ensures
        is_own(names, whole, event) || is_in_part(names, whole, event),
{
    match whole {
        Node::Expression(inner) => {
            lemma_expression_down(names, inner, event);
        },
        Node::Type(inner) => {
            lemma_type_down(names, inner, event);
        },
        Node::Statement(inner) => {
            lemma_statement_down(names, inner, event);
        },
        Node::Const(inner) => {
            lemma_const_down(names, inner, event);
        },
        Node::Function(inner) => {
            lemma_function_down(names, inner, event);
        },
        Node::Composite(unit, prefix, inner) => {
            lemma_composite_down(names, (unit, prefix, inner), event);
        },
        Node::LibraryStruct(unit, inner) => {
            lemma_library_struct_down(names, (unit, inner), event);
        },
        Node::Mapping(inner) => {
            lemma_mapping_down(names, inner, event);
        },
        Node::Prototype(inner) => {
            lemma_prototype_down(names, inner, event);
        },
        Node::Interface(inner) => {
            lemma_interface_down(names, inner, event);
        },
        Node::Scope(inner) => {
            lemma_scope_down(names, inner, event);
        },
        Node::Module(inner) => {
            lemma_module_down(names, inner, event);
        },
        Node::Unit(inner) => {
            lemma_unit_down(names, inner, event);
        },
    }
}

proof fn lemma_up(names: Texts, whole: Node, part: Node, event: Event)
    requires
        is_about_name(event),
        is_own(names, whole, event) || (is_part(whole, part) && events_in(names, part).contains(
            event,
        )),
    ensures
        events_in(names, whole).contains(event),
{
    match whole {
        Node::Expression(inner) => {
            lemma_expression_up(names, inner, part, event);
        },
        Node::Type(inner) => {
            lemma_type_up(names, inner, part, event);
        },
        Node::Statement(inner) => {
            lemma_statement_up(names, inner, part, event);
        },
        Node::Const(inner) => {
            lemma_const_up(names, inner, part, event);
        },
        Node::Function(inner) => {
            lemma_function_up(names, inner, part, event);
        },
        Node::Composite(unit, prefix, inner) => {
            lemma_composite_up(names, (unit, prefix, inner), part, event);
        },
        Node::LibraryStruct(unit, inner) => {
            lemma_library_struct_up(names, (unit, inner), part, event);
        },
        Node::Mapping(inner) => {
            lemma_mapping_up(names, inner, part, event);
        },
        Node::Prototype(inner) => {
            lemma_prototype_up(names, inner, part, event);
        },
        Node::Interface(inner) => {
            lemma_interface_up(names, inner, part, event);
        },
        Node::Scope(inner) => {
            lemma_scope_up(names, inner, part, event);
        },
        Node::Module(inner) => {
            lemma_module_up(names, inner, part, event);
        },
        Node::Unit(inner) => {
            lemma_unit_up(names, inner, part, event);
        },
    }
}

/* The laws */

/// A walk comes across a use or a declaration if and only if it stands in what is walked over:
/// there itself, or in one of its parts.
pub proof fn walks_come_across_parts(names: Texts, whole: Node, event: Event)
    requires
        is_about_name(event),
    ensures
        events_in(names, whole).contains(event) <==> is_own(names, whole, event) || is_in_part(
            names,
            whole,
            event,
        ),
{
    if events_in(names, whole).contains(event) {
        lemma_down(names, whole, event);
    }
    if is_own(names, whole, event) {
        lemma_up(names, whole, whole, event);
    }
    if is_in_part(names, whole, event) {
        let part = choose|part: Node| #[trigger]
            is_part(whole, part) && events_in(names, part).contains(event);
        lemma_up(names, whole, part, event);
    }
}

/// Whether each of `chain` is a part of the one before it.
pub open spec fn leads_down(chain: Seq<Node>) -> bool {
    forall|i: int| 0 < i < chain.len() ==> #[trigger] is_part(chain[i - 1], chain[i])
}

/// Whether `part` occurs in `whole`, however deep.
pub open spec fn occurs(whole: Node, part: Node) -> bool {
    exists|chain: Seq<Node>| #[trigger]
        leads_down(chain) && chain.len() > 0 && chain.first() == whole && chain.last() == part
}

proof fn lemma_chain(names: Texts, chain: Seq<Node>, event: Event)
    requires
        is_about_name(event),
        leads_down(chain),
        chain.len() > 0,
        events_in(names, chain.last()).contains(event),
    ensures
        events_in(names, chain.first()).contains(event),
    decreases chain.len(),
{
    if chain.len() > 1 {
        let shorter = chain.drop_last();
        let last = chain.len() - 1;
        assert(is_part(chain[last - 1], chain[last]));
        lemma_up(names, chain[last - 1], chain[last], event);
        assert forall|i: int| 0 < i < shorter.len() implies #[trigger] is_part(
            shorter[i - 1],
            shorter[i],
        ) by {
            assert(is_part(chain[i - 1], chain[i]));
        }
        lemma_chain(names, shorter, event);
    }
}

/// What a path names is used wherever the path occurs, in whatever position and however deep.
pub proof fn occurring_paths_are_used(
    names: Texts,
    whole: Node,
    part: Node,
    path: Path,
    event: Event,
)
    requires
        occurs(whole, part),
        named_path(part) == Some(path),
        is_use_of(path, event),
    ensures
        events_in(names, whole).contains(event),
{
    let chain = choose|chain: Seq<Node>| #[trigger]
        leads_down(chain) && chain.len() > 0 && chain.first() == whole && chain.last() == part;
    lemma_up(names, part, part, event);
    lemma_chain(names, chain, event);
}

/// A variable is read if its name occurs in one of the statements behind its declaration, other
/// than as the variable that is assigned to. So it is not warned of, unless the name is declared
/// again.
pub proof fn occurring_variables_are_read(
    names: Texts,
    start: Uses,
    statement: Statement,
    part: Node,
    path: Path,
)
    requires
        start.bindings.len() > 0,
        occurs(Node::Statement(statement), part),
        named_path(part) == Some(path),
        !(path.target is Global),
        path.identifier.name == start.bindings.last().name,
        !declares(statement_events(statement), start.bindings.last().name),
    ensures
        is_read(names, start, statement_events(statement), start.bindings.len() - 1),
{
    let event = Event::UseLocal { name: path.identifier.name };
    let body = statement_events(statement);
    occurring_paths_are_used(names, Node::Statement(statement), part, path, event);
    let i = choose|i: int| 0 <= i < body.len() && body[i] == event;
    assert(reads(body, path.identifier.name)) by {
        assert(body[i] == (Event::UseLocal { name: path.identifier.name }));
    }
    statements_balance(statement);
    names_stand_for_variables(names, start, body);
}

} // verus!
