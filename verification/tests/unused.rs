//! Warnings for what is never used.
use leo_passes::ast::{
    ArrayAccess, AssignStatement, Block, CallExpression, CompositeExpression, CompositeType,
    ConstDeclaration, DefinitionPlace, DefinitionStatement, Expression, ExpressionStatement,
    Identifier, IntegerType, IterationStatement, Location, Path, PathTarget, ProgramId, Span,
    Statement, Symbol, Type, UnitExpression,
};
use leo_passes::list::List;
use leo_passes::names::Names;
use leo_passes::state::Halt;
use leo_passes::unused_items::check::CallCount;
use leo_passes::unused_items::pass::{Handler, PassError, UnusedItems};
use leo_passes::unused_items::uses::WarningKind;
use leo_passes::units::{
    Annotation, Ast, Composite, Function, Import, Library, Member, Module, Program, ProgramScope,
    Variant,
};
use std::rc::Rc;

fn at(lo: u32) -> Span {
    Span { lo, hi: lo }
}

fn u32_type() -> Type {
    Type::Integer(IntegerType::U32)
}

struct Build {
    names: Names,
}

impl Build {
    fn new() -> Build {
        Build { names: Names::new() }
    }

    fn name(&mut self, text: &str) -> Symbol {
        self.names.intern(text)
    }

    fn identifier(&mut self, text: &str, lo: u32) -> Identifier {
        Identifier { name: self.name(text), span: at(lo), id: 0 }
    }

    fn path(&mut self, text: &str, target: PathTarget) -> Rc<Path> {
        Rc::new(Path {
            user_program: None,
            qualifier: List::Nil,
            identifier: self.identifier(text, 0),
            target,
            span: at(0),
            id: 0,
        })
    }

    fn local(&mut self, text: &str) -> Expression {
        let symbol = self.name(text);
        Expression::Path(self.path(text, PathTarget::Local(symbol)))
    }

    fn location(&mut self, text: &str) -> Location {
        Location { program: self.name("prog.aleo"), path: List::one(self.name(text)) }
    }

    fn global(&mut self, text: &str) -> Rc<Path> {
        let location = self.location(text);
        self.path(text, PathTarget::Global(Rc::new(location)))
    }

    fn composite_type(&mut self, text: &str) -> Type {
        let path = self.global(text);
        Type::Composite(Rc::new(CompositeType { path, const_arguments: List::Nil }))
    }

    fn define(&mut self, text: &str, lo: u32, value: Expression) -> Statement {
        Statement::Definition(Rc::new(DefinitionStatement {
            place: DefinitionPlace::Single(self.identifier(text, lo)),
            type_: None,
            value,
            span: at(0),
            id: 0,
        }))
    }

    fn constant(&mut self, text: &str, lo: u32) -> ConstDeclaration {
        ConstDeclaration {
            place: self.identifier(text, lo),
            type_: u32_type(),
            value: unit(),
            span: at(0),
            id: 0,
        }
    }

    fn function(&mut self, text: &str, lo: u32, statements: Vec<Statement>) -> Function {
        Function {
            annotations: List::Nil,
            variant: Variant::Fn,
            identifier: self.identifier(text, lo),
            const_parameters: List::Nil,
            input: List::Nil,
            output: List::Nil,
            output_type: Type::Unit,
            block: block(statements),
        }
    }

    fn composite(&mut self, text: &str, lo: u32, members: Vec<Type>) -> Composite {
        let members = members
            .into_iter()
            .map(|type_| Member { identifier: self.identifier("member", 0), type_ })
            .collect();
        Composite {
            identifier: self.identifier(text, lo),
            const_parameters: List::Nil,
            members: List::from_vec(members),
            is_record: false,
        }
    }

    fn program(&mut self, scope: ProgramScope) -> Program {
        Program { imports: List::Nil, program_scopes: List::one(scope), modules: List::Nil }
    }

    fn scope(&mut self) -> ProgramScope {
        ProgramScope {
            program_id: ProgramId { symbol: self.name("prog.aleo"), span: at(0) },
            consts: List::Nil,
            composites: List::Nil,
            interfaces: List::Nil,
            mappings: List::Nil,
            storage_variables: List::Nil,
            functions: List::Nil,
            constructor: None,
        }
    }

    /// The warnings for an entry point with the body `statements`.
    fn locals(&mut self, statements: Vec<Statement>) -> Vec<(WarningKind, String, u32)> {
        let mut main = self.function("main", 0, statements);
        main.variant = Variant::EntryPoint;
        let mut scope = self.scope();
        scope.functions = List::one(main);
        let program = self.program(scope);
        self.check(program, vec![])
    }

    fn check(
        &mut self,
        program: Program,
        counts: Vec<CallCount>,
    ) -> Vec<(WarningKind, String, u32)> {
        let ast = Ast::Program(Rc::new(program));
        let mut handler = Handler::new();
        let result = UnusedItems::do_pass(&ast, &self.names, &List::from_vec(counts), &mut handler);
        assert_eq!(result, Ok(()));
        self.shown(&handler)
    }

    fn shown(&self, handler: &Handler) -> Vec<(WarningKind, String, u32)> {
        handler
            .warnings
            .iter()
            .map(|warning| {
                let text: String = self.names.text(warning.name).into_iter().collect();
                (warning.kind, text, warning.span.lo)
            })
            .collect()
    }
}

fn unit() -> Expression {
    Expression::Unit(UnitExpression { span: at(0), id: 0 })
}

fn block(statements: Vec<Statement>) -> Block {
    Block { statements: List::from_vec(statements), span: at(0), id: 0 }
}

fn evaluate(expression: Expression) -> Statement {
    Statement::Expression(Rc::new(ExpressionStatement { expression, span: at(0), id: 0 }))
}

fn assign(place: Expression, value: Expression) -> Statement {
    Statement::Assign(Rc::new(AssignStatement { place, value, span: at(0), id: 0 }))
}

fn warned(kind: WarningKind, text: &str, lo: u32) -> (WarningKind, String, u32) {
    (kind, String::from(text), lo)
}

/* Local variables */

#[test]
fn unread_variables_are_warned_of_in_order() {
    let mut build = Build::new();
    let first = build.define("a", 1, unit());
    let second = build.define("b", 2, unit());
    let third = build.define("c", 3, unit());
    let read = build.local("b");
    assert_eq!(
        build.locals(vec![first, second, third, evaluate(read)]),
        vec![
            warned(WarningKind::UnusedVariable, "a", 1),
            warned(WarningKind::UnusedVariable, "c", 3),
        ]
    );
}

#[test]
fn written_but_unread_variables_are_unused() {
    let mut build = Build::new();
    let first = build.define("a", 1, unit());
    let place = build.local("a");
    assert_eq!(
        build.locals(vec![first, assign(place, unit())]),
        vec![warned(WarningKind::UnusedVariable, "a", 1)]
    );
}

#[test]
fn an_index_in_a_place_is_read() {
    let mut build = Build::new();
    let array = build.define("a", 1, unit());
    let index = build.define("i", 2, unit());
    let place = Expression::ArrayAccess(Rc::new(ArrayAccess {
        array: build.local("a"),
        index: build.local("i"),
        span: at(0),
        id: 0,
    }));
    assert_eq!(
        build.locals(vec![array, index, assign(place, unit())]),
        vec![warned(WarningKind::UnusedVariable, "a", 1)]
    );
}

#[test]
fn a_shadowing_definition_reads_the_outer_variable() {
    let mut build = Build::new();
    let outer = build.define("a", 1, unit());
    let read = build.local("a");
    let inner = build.define("a", 2, read);
    assert_eq!(
        build.locals(vec![outer, inner]),
        vec![warned(WarningKind::UnusedVariable, "a", 2)]
    );
}

#[test]
fn an_inner_declaration_takes_the_reads_of_its_name() {
    let mut build = Build::new();
    let first = build.define("b", 1, unit());
    let outer = build.define("a", 2, unit());
    let inner = build.define("a", 3, unit());
    let read = build.local("a");
    assert_eq!(
        build.locals(vec![
            first,
            outer,
            Statement::Block(Rc::new(block(vec![inner, evaluate(read)]))),
        ]),
        vec![
            warned(WarningKind::UnusedVariable, "b", 1),
            warned(WarningKind::UnusedVariable, "a", 2),
        ]
    );
    // A read behind the inner scope is one of the outer variable.
    let outer = build.define("a", 2, unit());
    let inner = build.define("a", 3, unit());
    let read = build.local("a");
    assert_eq!(
        build.locals(vec![
            outer,
            Statement::Block(Rc::new(block(vec![inner]))),
            evaluate(read),
        ]),
        vec![warned(WarningKind::UnusedVariable, "a", 3)]
    );
}

#[test]
fn a_later_scope_does_not_silence_an_earlier_one() {
    let mut build = Build::new();
    let first = build.define("a", 1, unit());
    let second = build.define("a", 2, unit());
    let read = build.local("a");
    assert_eq!(
        build.locals(vec![
            Statement::Block(Rc::new(block(vec![first]))),
            Statement::Block(Rc::new(block(vec![second, evaluate(read)]))),
        ]),
        vec![warned(WarningKind::UnusedVariable, "a", 1)]
    );
}

#[test]
fn an_underscore_silences_and_is_warned_of_once_when_read() {
    let mut build = Build::new();
    let quiet = build.define("_a", 1, unit());
    let loud = build.define("_b", 2, unit());
    let first = build.local("_b");
    let second = build.local("_b");
    assert_eq!(
        build.locals(vec![quiet, loud, evaluate(first), evaluate(second)]),
        vec![warned(WarningKind::UsedUnderscoreBinding, "_b", 2)]
    );
}

#[test]
fn local_constants_have_their_own_warning() {
    let mut build = Build::new();
    let constant = Statement::Const(Rc::new(build.constant("A", 4)));
    assert_eq!(build.locals(vec![constant]), vec![warned(WarningKind::UnusedConst, "A", 4)]);
}

#[test]
fn loop_variables_are_checked() {
    let mut build = Build::new();
    let repeat = Statement::Iteration(Rc::new(IterationStatement {
        variable: build.identifier("i", 3),
        type_: None,
        start: unit(),
        stop: unit(),
        inclusive: false,
        block: block(vec![]),
        span: at(0),
        id: 0,
    }));
    assert_eq!(build.locals(vec![repeat]), vec![warned(WarningKind::UnusedVariable, "i", 3)]);
}

#[test]
fn the_base_of_a_composite_is_read() {
    let mut build = Build::new();
    let point = build.composite("Point", 1, vec![]);
    let base = build.define("base", 2, unit());
    let path = build.global("Point");
    let update = Expression::Composite(Rc::new(CompositeExpression {
        path,
        const_arguments: List::Nil,
        members: List::Nil,
        base: Some(build.local("base")),
        span: at(0),
        id: 0,
    }));
    let mut main = build.function("main", 0, vec![base, evaluate(update)]);
    main.variant = Variant::EntryPoint;
    let mut scope = build.scope();
    scope.functions = List::one(main);
    scope.composites = List::one(point);
    let program = build.program(scope);
    assert_eq!(build.check(program, vec![]), vec![]);
}

/* Functions */

#[test]
fn parameters_of_entry_points_are_not_checked() {
    let mut build = Build::new();
    let parameter = |build: &mut Build| {
        List::one(Member { identifier: build.identifier("p", 9), type_: u32_type() })
    };
    let mut main = build.function("main", 1, vec![]);
    main.variant = Variant::EntryPoint;
    main.input = parameter(&mut build);
    let mut helper = build.function("helper", 2, vec![]);
    helper.input = parameter(&mut build);
    let mut scope = build.scope();
    scope.functions = List::two(main, helper);
    let program = build.program(scope);
    let counts = vec![CallCount { location: build.location("helper"), count: 1 }];
    assert_eq!(
        build.check(program, counts),
        vec![warned(WarningKind::UnusedVariable, "p", 9)]
    );
}

#[test]
fn uncalled_functions_are_warned_of() {
    let mut build = Build::new();
    let called = build.function("called", 1, vec![]);
    let uncalled = build.function("uncalled", 2, vec![]);
    let quiet = build.function("_quiet", 3, vec![]);
    let mut test = build.function("checks", 4, vec![]);
    test.annotations = List::one(Annotation { identifier: build.identifier("test", 0) });
    let mut scope = build.scope();
    scope.functions = List::from_vec(vec![called, uncalled, quiet, test]);
    let program = build.program(scope);
    let counts = vec![
        CallCount { location: build.location("called"), count: 2 },
        CallCount { location: build.location("uncalled"), count: 0 },
    ];
    assert_eq!(
        build.check(program, counts),
        vec![warned(WarningKind::UnusedFunction, "uncalled", 2)]
    );
}

#[test]
fn an_error_that_was_reported_before_is_returned() {
    let mut build = Build::new();
    let helper = build.function("helper", 2, vec![]);
    let counts = List::one(CallCount { location: build.location("helper"), count: 0 });
    let mut scope = build.scope();
    scope.functions = List::one(helper);
    let ast = Ast::Program(Rc::new(build.program(scope)));
    let mut handler = Handler::new();
    handler.last_error = Some(7);
    assert_eq!(
        UnusedItems::do_pass(&ast, &build.names, &counts, &mut handler),
        Err(PassError::Reported(7))
    );
    // The warnings are given all the same, behind those that were there.
    let expected = warned(WarningKind::UnusedFunction, "helper", 2);
    assert_eq!(build.shown(&handler), vec![expected.clone()]);
    handler.last_error = None;
    assert_eq!(UnusedItems::do_pass(&ast, &build.names, &counts, &mut handler), Ok(()));
    assert_eq!(build.shown(&handler), vec![expected.clone(), expected]);
}

#[test]
fn every_checked_function_has_a_count() {
    let mut build = Build::new();
    let helper = build.function("helper", 2, vec![]);
    let mut scope = build.scope();
    scope.functions = List::one(helper);
    let ast = Ast::Program(Rc::new(build.program(scope)));
    let mut handler = Handler::new();
    assert_eq!(
        UnusedItems::do_pass(&ast, &build.names, &List::Nil, &mut handler),
        Err(PassError::Halted(Halt::IllFormed))
    );
    assert_eq!(handler, Handler::new());
    assert_eq!(UnusedItems::NAME, "UnusedItems");
}

/* Composites */

#[test]
fn structs_are_used_through_records_only_if_something_is() {
    let mut build = Build::new();
    // `Token` is a record that holds an `Outer`, which holds an `Inner`. Nothing holds `Dead`,
    // which holds a `Deader`.
    let outer_type = build.composite_type("Outer");
    let inner_type = build.composite_type("Inner");
    let deader_type = build.composite_type("Deader");
    let mut token = build.composite("Token", 1, vec![outer_type]);
    token.is_record = true;
    let outer = build.composite("Outer", 2, vec![Type::Optional(Rc::new(inner_type))]);
    let inner = build.composite("Inner", 3, vec![u32_type()]);
    let dead = build.composite("Dead", 4, vec![deader_type]);
    let deader = build.composite("Deader", 5, vec![]);
    let mut scope = build.scope();
    scope.composites = List::from_vec(vec![token, outer, inner, dead, deader]);
    let program = build.program(scope);
    assert_eq!(
        build.check(program, vec![]),
        vec![
            warned(WarningKind::UnusedStruct, "Dead", 4),
            warned(WarningKind::UnusedStruct, "Deader", 5),
        ]
    );
}

#[test]
fn structs_that_hold_each_other_are_dead_together() {
    let mut build = Build::new();
    let a_type = build.composite_type("A");
    let b_type = build.composite_type("B");
    let a = build.composite("A", 1, vec![b_type]);
    let b = build.composite("B", 2, vec![a_type]);
    let mut scope = build.scope();
    scope.composites = List::two(a, b);
    let program = build.program(scope);
    assert_eq!(
        build.check(program, vec![]),
        vec![warned(WarningKind::UnusedStruct, "A", 1), warned(WarningKind::UnusedStruct, "B", 2)]
    );
}

/* Constants and imports */

#[test]
fn constants_are_used_by_their_paths() {
    let mut build = Build::new();
    let used = build.constant("USED", 1);
    let unused = build.constant("UNUSED", 2);
    let quiet = build.constant("_QUIET", 3);
    let read = Expression::Path(build.global("USED"));
    let mut main = build.function("main", 0, vec![evaluate(read)]);
    main.variant = Variant::EntryPoint;
    let mut scope = build.scope();
    scope.consts = List::from_vec(vec![used, unused, quiet]);
    scope.functions = List::one(main);
    let program = build.program(scope);
    assert_eq!(
        build.check(program, vec![]),
        vec![warned(WarningKind::UnusedConst, "UNUSED", 2)]
    );
}

#[test]
fn imports_are_used_by_the_paths_that_name_them() {
    let mut build = Build::new();
    let used = build.name("used.aleo");
    let unused = build.name("unused.aleo");
    let function = Rc::new(Path {
        user_program: Some(ProgramId { symbol: used, span: at(0) }),
        qualifier: List::Nil,
        identifier: build.identifier("f", 0),
        target: PathTarget::Global(Rc::new(Location {
            program: used,
            path: List::one(build.name("f")),
        })),
        span: at(0),
        id: 0,
    });
    let call = Expression::Call(Rc::new(CallExpression {
        function,
        const_arguments: List::Nil,
        arguments: List::Nil,
        span: at(0),
        id: 0,
    }));
    let mut main = build.function("main", 0, vec![evaluate(call)]);
    main.variant = Variant::EntryPoint;
    let mut scope = build.scope();
    scope.functions = List::one(main);
    let mut program = build.program(scope);
    program.imports = List::two(
        Import { name: used, program_id: ProgramId { symbol: used, span: at(7) } },
        Import { name: unused, program_id: ProgramId { symbol: unused, span: at(8) } },
    );
    assert_eq!(
        build.check(program, vec![]),
        vec![warned(WarningKind::UnusedImport, "unused.aleo", 8)]
    );
}

/* Order and libraries */

#[test]
fn functions_come_before_structs_and_structs_before_constants() {
    let mut build = Build::new();
    let constant = build.constant("C", 1);
    let composite = build.composite("S", 2, vec![]);
    let local = build.define("x", 4, unit());
    let function = build.function("f", 3, vec![local]);
    let mut scope = build.scope();
    scope.consts = List::one(constant);
    scope.composites = List::one(composite);
    scope.functions = List::one(function);
    let program = build.program(scope);
    let counts = vec![CallCount { location: build.location("f"), count: 0 }];
    assert_eq!(
        build.check(program, counts),
        vec![
            warned(WarningKind::UnusedVariable, "x", 4),
            warned(WarningKind::UnusedFunction, "f", 3),
            warned(WarningKind::UnusedStruct, "S", 2),
            warned(WarningKind::UnusedConst, "C", 1),
        ]
    );
}

#[test]
fn constants_and_modules_of_a_library_are_checked() {
    let mut build = Build::new();
    let top_const = build.constant("TOP", 1);
    let silenced = build.constant("_TOP", 5);
    let top_struct = build.composite("Top", 2, vec![]);
    let top_function = build.function("top", 3, vec![]);
    let inner_const = build.constant("INNER", 4);
    let unit_name = build.name("lib");
    let module = Module {
        unit_name,
        path: List::one(build.name("inner")),
        consts: List::one(inner_const),
        composites: List::Nil,
        interfaces: List::Nil,
        functions: List::Nil,
    };
    let ast = Ast::Library(Rc::new(Library {
        name: unit_name,
        consts: List::two(top_const, silenced),
        structs: List::one(top_struct),
        functions: List::one(top_function),
        interfaces: List::Nil,
        modules: List::one(module),
    }));
    let mut handler = Handler::new();
    assert_eq!(UnusedItems::do_pass(&ast, &build.names, &List::Nil, &mut handler), Ok(()));
    assert_eq!(
        build.shown(&handler),
        vec![
            warned(WarningKind::UnusedConst, "TOP", 1),
            warned(WarningKind::UnusedConst, "INNER", 4),
        ]
    );
}
