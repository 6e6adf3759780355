//! Lowering of storage, vectors and dynamic accesses to mappings.
use leo_passes::ast::{
    ArrayAccess, AssertStatement, AssertVariant, AssignStatement, BinaryExpression, BinaryOperation,
    Block, CallExpression, CompositeType, ConditionalStatement, DefinitionPlace,
    DefinitionStatement, DynamicOpExpression, DynamicOpKind, Expression, ExpressionStatement,
    Identifier, IntegerType, Intrinsic, IntrinsicExpression, IterationStatement, Literal,
    LiteralVariant, Location, MappingType, Path, PathTarget, ReturnStatement, Span, Statement,
    Symbol, TernaryExpression, Type, UnitExpression,
};
use leo_passes::list::List;
use leo_passes::state::{
    CompilerState, GlobalSymbol, Halt, InterfaceSymbol, StructSymbol, SymbolTable,
};
use leo_passes::purity::expression_can_be_discarded;
use leo_passes::storage_lowering::join::detect::contains_local_vector_join_op;
use leo_passes::storage_lowering::visitor::StorageLoweringVisitor;
use leo_passes::units::{Interface, Mapping, Member};
use std::rc::Rc;

fn no_span() -> Span {
    Span { lo: 0, hi: 0 }
}

fn u32_type() -> Type {
    Type::Integer(IntegerType::U32)
}

fn vector_of(element: Type) -> Type {
    Type::Vector(Rc::new(element))
}

fn optional_of(inner: Type) -> Type {
    Type::Optional(Rc::new(inner))
}

/* A program to lower */

/// The names that the tests use, in the order in which they are interned.
const NAMES: [&str; 16] = [
    "prog.aleo", "v", "w", "counter", "x", "y", "f", "i", "point", "a", "b", "Store", "box",
    "target", "get", "len",
];

fn name(text: &str) -> Symbol {
    match NAMES.iter().position(|known| *known == text) {
        Some(index) => Symbol { index },
        None => panic!("{} is not a name of the tests", text),
    }
}

fn at(item: &str) -> Location {
    Location { program: name("prog.aleo"), path: List::one(name(item)) }
}

fn member(text: &str, type_: Type) -> Member {
    Member { identifier: identifier(text, 0), type_ }
}

fn identifier(text: &str, id: u32) -> Identifier {
    Identifier { name: name(text), span: no_span(), id }
}

/// A program with two vectors, a storage variable, a struct and an interface.
fn lowering() -> StorageLoweringVisitor {
    let global = |item: &str, type_: Type| GlobalSymbol {
        viewer: name("prog.aleo"),
        location: at(item),
        type_: Some(type_),
    };
    let table = SymbolTable {
        globals: List::from_vec(vec![
            global("v", vector_of(u32_type())),
            global("w", vector_of(u32_type())),
            global("counter", optional_of(u32_type())),
        ]),
        structs: List::one(StructSymbol {
            viewer: name("prog.aleo"),
            location: at("point"),
            members: List::two(member("a", u32_type()), member("b", Type::Boolean)),
        }),
        interfaces: List::one(InterfaceSymbol {
            viewer: name("prog.aleo"),
            location: at("Store"),
            interface: Rc::new(Interface {
                identifier: identifier("Store", 0),
                functions: List::Nil,
                mappings: List::Nil,
                storages: List::two(
                    member("box", u32_type()),
                    member("w", vector_of(u32_type())),
                ),
            }),
        }),
    };
    let mut state = CompilerState::new(table);
    for text in NAMES {
        state.intern(text);
    }
    let mut lowering = StorageLoweringVisitor::new(state, name("prog.aleo"));
    for (mapping, key_type, value_type) in [
        ("v__", u32_type(), u32_type()),
        ("v__len__", Type::Boolean, u32_type()),
        ("w__", u32_type(), u32_type()),
        ("w__len__", Type::Boolean, u32_type()),
        ("counter__", Type::Boolean, u32_type()),
    ] {
        let symbol = lowering.state.intern(mapping);
        lowering.add_mapping(
            &Location { program: name("prog.aleo"), path: List::one(symbol) },
            Mapping {
                identifier: Identifier { name: symbol, span: no_span(), id: 0 },
                key_type,
                value_type,
            },
        );
    }
    lowering
}

/// Builds trees whose nodes are numbered and typed.
struct Build {
    lowering: StorageLoweringVisitor,
}

impl Build {
    fn new() -> Build {
        Build { lowering: lowering() }
    }

    fn id(&mut self) -> u32 {
        self.lowering.state.take_id()
    }

    fn typed(&mut self, type_: Type) -> u32 {
        self.lowering.state.take_typed_id(type_)
    }

    fn path(&mut self, text: &str, target: PathTarget, type_: Type) -> Expression {
        let id = self.typed(type_);
        Expression::Path(Rc::new(Path {
            user_program: None,
            qualifier: List::Nil,
            identifier: identifier(text, id),
            target,
            span: no_span(),
            id,
        }))
    }

    fn local(&mut self, text: &str) -> Expression {
        self.path(text, PathTarget::Local(name(text)), u32_type())
    }

    fn flag(&mut self, text: &str) -> Expression {
        self.path(text, PathTarget::Local(name(text)), Type::Boolean)
    }

    fn vector(&mut self, text: &str) -> Expression {
        self.path(text, PathTarget::Global(Rc::new(at(text))), vector_of(u32_type()))
    }

    fn storage(&mut self, text: &str) -> Expression {
        self.path(text, PathTarget::Global(Rc::new(at(text))), optional_of(u32_type()))
    }

    fn number(&mut self, text: &str) -> Expression {
        let symbol = self.lowering.state.intern(text);
        let id = self.typed(u32_type());
        Expression::Literal(Literal {
            variant: LiteralVariant::Integer(IntegerType::U32, symbol),
            span: no_span(),
            id,
        })
    }

    fn none(&mut self) -> Expression {
        let id = self.typed(optional_of(u32_type()));
        Expression::Literal(Literal { variant: LiteralVariant::Absent, span: no_span(), id })
    }

    fn call(&mut self, argument: Expression) -> Expression {
        let function = match self.local("f") {
            Expression::Path(path) => path,
            other => panic!("{:?}", other),
        };
        let id = self.typed(u32_type());
        Expression::Call(Rc::new(CallExpression {
            function,
            const_arguments: List::Nil,
            arguments: List::one(argument),
            span: no_span(),
            id,
        }))
    }

    fn add(&mut self, left: Expression, right: Expression) -> Expression {
        let id = self.typed(u32_type());
        Expression::Binary(Rc::new(BinaryExpression {
            left,
            right,
            op: BinaryOperation::AddWrapped,
            span: no_span(),
            id,
        }))
    }

    fn either(&mut self, if_true: Expression, if_false: Expression) -> Expression {
        let condition = self.flag("b");
        let id = self.typed(u32_type());
        Expression::Ternary(Rc::new(TernaryExpression {
            condition,
            if_true,
            if_false,
            span: no_span(),
            id,
        }))
    }

    fn intrinsic(&mut self, op: Intrinsic, arguments: Vec<Expression>, type_: Type) -> Expression {
        let id = self.typed(type_);
        Expression::Intrinsic(Rc::new(IntrinsicExpression {
            op,
            type_parameters: List::Nil,
            input_types: List::Nil,
            return_types: List::Nil,
            arguments: List::from_vec(arguments),
            span: no_span(),
            id,
        }))
    }

    fn len(&mut self, text: &str) -> Expression {
        let vector = self.vector(text);
        self.intrinsic(Intrinsic::VectorLen, vec![vector], u32_type())
    }

    fn pop(&mut self, text: &str) -> Expression {
        let vector = self.vector(text);
        self.intrinsic(Intrinsic::VectorPop, vec![vector], optional_of(u32_type()))
    }

    fn get(&mut self, text: &str, index: Expression) -> Expression {
        let vector = self.vector(text);
        self.intrinsic(Intrinsic::VectorGet, vec![vector, index], optional_of(u32_type()))
    }

    fn push(&mut self, text: &str, value: Expression) -> Expression {
        let vector = self.vector(text);
        self.intrinsic(Intrinsic::VectorPush, vec![vector, value], Type::Unit)
    }

    fn define(&mut self, text: &str, value: Expression) -> Statement {
        let place = self.id();
        let id = self.id();
        Statement::Definition(Rc::new(DefinitionStatement {
            place: DefinitionPlace::Single(identifier(text, place)),
            type_: None,
            value,
            span: no_span(),
            id,
        }))
    }

    fn evaluate(&mut self, expression: Expression) -> Statement {
        let id = self.id();
        Statement::Expression(Rc::new(ExpressionStatement { expression, span: no_span(), id }))
    }

    fn assign(&mut self, place: Expression, value: Expression) -> Statement {
        let id = self.id();
        Statement::Assign(Rc::new(AssignStatement { place, value, span: no_span(), id }))
    }

    fn dynamic(&mut self, kind: DynamicOpKind, type_: Type) -> Expression {
        let store = self.path("Store", PathTarget::Global(Rc::new(at("Store"))), Type::Error);
        let path = match store {
            Expression::Path(path) => path,
            other => panic!("{:?}", other),
        };
        let target_program = self.path("target", PathTarget::Local(name("target")), Type::Field);
        let id = self.typed(type_);
        Expression::DynamicOp(Rc::new(DynamicOpExpression {
            interface: Type::Composite(Rc::new(CompositeType {
                path,
                const_arguments: List::Nil,
            })),
            target_program,
            network: None,
            kind,
            span: no_span(),
            id,
        }))
    }

    /// The statements that `statements` are lowered to, one text each.
    fn lower(&mut self, statements: Vec<Statement>) -> Vec<String> {
        let list = List::from_vec(statements);
        match self.lowering.reconstruct_block_statements(&list) {
            Ok(lowered) => {
                lowered.to_vec().iter().map(|statement| self.show_statement(statement)).collect()
            }
            Err(halt) => panic!("{:?}", halt),
        }
    }

    fn text(&self, symbol: Symbol) -> String {
        self.lowering.state.names.text(symbol).into_iter().collect()
    }

    fn show_all(&self, expressions: &List<Expression>) -> String {
        let texts: Vec<String> =
            expressions.to_vec().iter().map(|expression| self.show(expression)).collect();
        texts.join(", ")
    }

    fn show(&self, expression: &Expression) -> String {
        match expression {
            Expression::Path(path) => self.text(path.identifier.name),
            Expression::Literal(literal) => match literal.variant {
                LiteralVariant::Boolean(value) => format!("{}", value),
                LiteralVariant::Integer(_, text) => format!("{}u32", self.text(text)),
                LiteralVariant::Identifier(text) => format!("'{}'", self.text(text)),
                LiteralVariant::Absent => String::from("none"),
                LiteralVariant::Field(text) => format!("{}field", self.text(text)),
                other => format!("{:?}", other),
            },
            Expression::Binary(input) => {
                format!("({} {:?} {})", self.show(&input.left), input.op, self.show(&input.right))
            }
            Expression::Ternary(input) => format!(
                "({} ? {} : {})",
                self.show(&input.condition),
                self.show(&input.if_true),
                self.show(&input.if_false)
            ),
            Expression::Intrinsic(input) => {
                format!("{:?}({})", input.op, self.show_all(&input.arguments))
            }
            Expression::Call(input) => format!(
                "{}({})",
                self.text(input.function.identifier.name),
                self.show_all(&input.arguments)
            ),
            Expression::Composite(input) => {
                let fields: Vec<String> = input
                    .members
                    .to_vec()
                    .iter()
                    .map(|field| {
                        let value = match &field.expression {
                            Some(value) => self.show(value),
                            None => String::from("?"),
                        };
                        format!("{}: {}", self.text(field.identifier.name), value)
                    })
                    .collect();
                format!("{} {{ {} }}", self.text(input.path.identifier.name), fields.join(", "))
            }
            Expression::Unit(_) => String::from("()"),
            other => format!("{:?}", other),
        }
    }

    fn show_block(&self, block: &Block) -> String {
        let texts: Vec<String> =
            block.statements.to_vec().iter().map(|inner| self.show_statement(inner)).collect();
        format!("{{ {} }}", texts.join(" "))
    }

    fn show_statement(&self, statement: &Statement) -> String {
        match statement {
            Statement::Definition(input) => match &input.place {
                DefinitionPlace::Single(identifier) => {
                    format!("let {} = {};", self.text(identifier.name), self.show(&input.value))
                }
                DefinitionPlace::Multiple(_) => format!("let .. = {};", self.show(&input.value)),
            },
            Statement::Expression(input) => format!("{};", self.show(&input.expression)),
            Statement::Assign(input) => {
                format!("{} = {};", self.show(&input.place), self.show(&input.value))
            }
            Statement::Assert(input) => match &input.variant {
                AssertVariant::Assert(condition) => format!("assert({});", self.show(condition)),
                other => format!("{:?};", other),
            },
            Statement::Return(input) => format!("return {};", self.show(&input.expression)),
            Statement::Block(block) => self.show_block(block),
            Statement::Conditional(input) => {
                let mut text = format!(
                    "if {} {}",
                    self.show(&input.condition),
                    self.show_block(&input.then_block)
                );
                if let Some(otherwise) = &input.otherwise {
                    text = format!("{} else {}", text, self.show_statement(otherwise));
                }
                text
            }
            Statement::Iteration(input) => format!(
                "for {} in {}..{} {}",
                self.text(input.variable.name),
                self.show(&input.start),
                self.show(&input.stop),
                self.show_block(&input.block)
            ),
            other => format!("{:?}", other),
        }
    }
}

/* Vectors */

#[test]
fn a_push_reads_the_length_and_writes_both_mappings() {
    let mut build = Build::new();
    let value = build.local("x");
    let push = build.push("v", value);
    let statement = build.evaluate(push);
    assert_eq!(
        build.lower(vec![statement]),
        vec![
            "let $len_var$0 = MappingGetOrUse(v__len__, false, 0u32);",
            "MappingSet(v__len__, false, ($len_var$0 Add 1u32));",
            "MappingSet(v__, $len_var$0, x);",
        ]
    );
}

#[test]
fn a_pushed_call_is_evaluated_before_the_length_is_read() {
    let mut build = Build::new();
    let argument = build.local("x");
    let value = build.call(argument);
    let push = build.push("v", value);
    let statement = build.evaluate(push);
    let lowered = build.lower(vec![statement]);
    assert_eq!(lowered.len(), 4);
    assert!(lowered[0].ends_with("= f(x);"));
    assert!(lowered[1].ends_with("= MappingGetOrUse(v__len__, false, 0u32);"));
    assert!(lowered[2].starts_with("MappingSet(v__len__, false, "));
    assert!(lowered[3].starts_with("MappingSet(v__, $len_var$"));
}

#[test]
fn a_length_is_a_read_of_the_length_mapping() {
    let mut build = Build::new();
    let len = build.len("v");
    let statement = build.define("x", len);
    assert_eq!(
        build.lower(vec![statement]),
        vec!["let x = MappingGetOrUse(v__len__, false, 0u32);"]
    );
}

#[test]
fn a_pop_shortens_the_vector_and_branches_on_its_length() {
    let mut build = Build::new();
    let pop = build.pop("v");
    match build.lowering.reconstruct_expression(&pop) {
        Ok((expression, statements)) => {
            assert_eq!(
                build.show(&expression),
                "(($len_var$0 Gt 0u32) ? MappingGetOrUse(v__, ($len_var$0 SubWrapped 1u32), 0u32) \
                 : none)"
            );
            let before: Vec<String> =
                statements.to_vec().iter().map(|inner| build.show_statement(inner)).collect();
            assert_eq!(
                before,
                vec![
                    "let $len_var$0 = MappingGetOrUse(v__len__, false, 0u32);",
                    "MappingSet(v__len__, false, (($len_var$0 Gt 0u32) ? ($len_var$0 SubWrapped \
                     1u32) : $len_var$0));",
                ]
            );
        }
        Err(halt) => panic!("{:?}", halt),
    }
}

#[test]
fn a_get_compares_the_index_with_the_length() {
    let mut build = Build::new();
    let index = build.local("i");
    let get = build.get("v", index);
    match build.lowering.reconstruct_expression(&get) {
        Ok((expression, statements)) => {
            assert_eq!(
                build.show(&expression),
                "((i Lt $len_var$0) ? MappingGetOrUse(v__, i, 0u32) : none)"
            );
            assert_eq!(statements.to_vec().len(), 1);
        }
        Err(halt) => panic!("{:?}", halt),
    }
}

#[test]
fn a_set_asserts_that_the_index_is_in_range() {
    let mut build = Build::new();
    let vector = build.vector("v");
    let index = build.local("i");
    let value = build.local("x");
    let set = build.intrinsic(Intrinsic::VectorSet, vec![vector, index, value], Type::Unit);
    let statement = build.evaluate(set);
    assert_eq!(
        build.lower(vec![statement]),
        vec![
            "let $len_var$0 = MappingGetOrUse(v__len__, false, 0u32);",
            "assert((i Lt $len_var$0));",
            "MappingSet(v__, i, x);",
        ]
    );
}

#[test]
fn a_cleared_vector_has_length_zero() {
    let mut build = Build::new();
    let vector = build.vector("v");
    let clear = build.intrinsic(Intrinsic::VectorClear, vec![vector], Type::Unit);
    let statement = build.evaluate(clear);
    assert_eq!(build.lower(vec![statement]), vec!["MappingSet(v__len__, false, 0u32);"]);
}

#[test]
fn a_swap_remove_moves_the_last_element() {
    let mut build = Build::new();
    let vector = build.vector("v");
    let index = build.local("i");
    let remove = build.intrinsic(Intrinsic::VectorSwapRemove, vec![vector, index], u32_type());
    let statement = build.define("x", remove);
    let lowered = build.lower(vec![statement]);
    assert_eq!(lowered[0], "let $len_var$0 = MappingGetOrUse(v__len__, false, 0u32);");
    assert!(lowered.contains(&String::from("assert((i Lt $len_var$0));")));
    assert!(lowered.iter().any(|text| text.contains("MappingSet(v__, i, ")));
    assert!(lowered.iter().any(|text| text.contains("MappingSet(v__len__, false, ")));
    assert!(lowered.iter().all(|text| !text.contains("Vector")));
}

/* Storage variables */

#[test]
fn a_read_of_storage_is_none_where_nothing_is_stored() {
    let mut build = Build::new();
    let counter = build.storage("counter");
    match build.lowering.reconstruct_expression(&counter) {
        Ok((expression, statements)) => {
            assert_eq!(
                build.show(&expression),
                "(MappingContains(counter__, false) ? MappingGetOrUse(counter__, false, 0u32) : \
                 none)"
            );
            assert!(statements.is_empty());
        }
        Err(halt) => panic!("{:?}", halt),
    }
}

#[test]
fn writes_of_storage_set_or_remove() {
    let mut build = Build::new();
    let place = build.storage("counter");
    let value = build.local("x");
    let write = build.assign(place, value);
    let place = build.storage("counter");
    let value = build.none();
    let remove = build.assign(place, value);
    assert_eq!(
        build.lower(vec![write, remove]),
        vec!["MappingSet(counter__, false, x);", "MappingRemove(counter__, false);"]
    );
}

#[test]
fn assignments_to_locals_stay() {
    let mut build = Build::new();
    let place = build.local("x");
    let value = build.number("7");
    let statement = build.assign(place, value);
    assert_eq!(build.lower(vec![statement]), vec!["x = 7u32;"]);
}

/* Branches */

#[test]
fn statements_of_an_arm_stay_in_its_branch() {
    let mut build = Build::new();
    let left = build.pop("v");
    let right = build.pop("w");
    let choice = build.either(left, right);
    let statement = build.evaluate(choice);
    let lowered = build.lower(vec![statement]);
    assert_eq!(lowered.len(), 1);
    assert!(lowered[0].starts_with("if b { let $len_var$"));
    let (taken, other) = match lowered[0].split_once(" else ") {
        Some(halves) => halves,
        None => panic!("{}", lowered[0]),
    };
    assert!(taken.contains("v__len__") && !taken.contains("w__len__"));
    assert!(other.contains("w__len__") && !other.contains("v__len__"));
}

#[test]
fn quiet_ternaries_stay_expressions() {
    let mut build = Build::new();
    let left = build.local("x");
    let right = build.local("y");
    let choice = build.either(left, right);
    let statement = build.define("a", choice);
    assert_eq!(build.lower(vec![statement]), vec!["let a = (b ? x : y);"]);
}

#[test]
fn what_uses_a_branch_value_is_replayed_in_each_branch() {
    let mut build = Build::new();
    let vector = build.vector("w");
    let index = build.local("i");
    let sum = build.intrinsic(Intrinsic::VectorSwapRemove, vec![vector, index], u32_type());
    let right = build.number("1");
    let choice = build.either(sum, right);
    let first = build.define("x", choice);
    let read = build.local("x");
    let second = build.define("y", read);
    let value = build.local("i");
    let third = build.push("v", value);
    let third = build.evaluate(third);
    let lowered = build.lower(vec![first, second, third]);
    // The definition of `y` stands in both branches; the push stands once, behind them.
    assert!(lowered[0].starts_with("if b {"));
    assert_eq!(lowered[0].matches("let y = x;").count(), 2);
    assert_eq!(lowered[0].matches("MappingSet(v__, ").count(), 0);
    assert_eq!(lowered.last().map(|text| text.contains("MappingSet(v__, ")), Some(true));
}

#[test]
fn conditionals_are_lowered_inside() {
    let mut build = Build::new();
    let value = build.local("x");
    let push = build.push("v", value);
    let inner = build.evaluate(push);
    let condition = build.flag("b");
    let statement = Statement::Conditional(Rc::new(ConditionalStatement {
        condition,
        then_block: Block { statements: List::one(inner), span: no_span(), id: 0 },
        otherwise: None,
        span: no_span(),
        id: 0,
    }));
    assert_eq!(
        build.lower(vec![statement]),
        vec![
            "if b { let $len_var$0 = MappingGetOrUse(v__len__, false, 0u32); \
             MappingSet(v__len__, false, ($len_var$0 Add 1u32)); MappingSet(v__, $len_var$0, x); }"
        ]
    );
}

fn repeat(build: &mut Build, stop: Expression) -> Statement {
    let value = build.local("i");
    let push = build.push("v", value);
    let inner = build.evaluate(push);
    let start = build.number("0");
    Statement::Iteration(Rc::new(IterationStatement {
        variable: identifier("i", 0),
        type_: None,
        start,
        stop,
        inclusive: false,
        block: Block { statements: List::one(inner), span: no_span(), id: 0 },
        span: no_span(),
        id: 0,
    }))
}

#[test]
fn loops_are_lowered_where_their_bounds_branch() {
    let mut build = Build::new();
    let remaining = build.len("w");
    let popped = build.pop("w");
    let stop = build.either(remaining, popped);
    let statement = repeat(&mut build, stop);
    let lowered = build.lower(vec![statement]);
    assert_eq!(lowered.len(), 1);
    assert!(lowered[0].contains("for i in 0u32..MappingGetOrUse(w__len__, false, 0u32) { let "));
    assert!(!lowered[0].contains("Vector"));
}

#[test]
fn other_loops_are_ill_formed() {
    let mut build = Build::new();
    let stop = build.number("3");
    let statement = repeat(&mut build, stop);
    let result = build.lowering.reconstruct_block_statements(&List::one(statement));
    assert_eq!(result, Err(Halt::IllFormed));
}

#[test]
fn returned_values_are_lowered() {
    let mut build = Build::new();
    let len = build.len("v");
    let result =
        Statement::Return(Rc::new(ReturnStatement { expression: len, span: no_span(), id: 0 }));
    assert_eq!(
        build.lower(vec![result]),
        vec!["return MappingGetOrUse(v__len__, false, 0u32);"]
    );
}

#[test]
fn assertions_are_lowered() {
    let mut build = Build::new();
    let len = build.len("v");
    let one = build.number("1");
    let id = build.typed(Type::Boolean);
    let condition = Expression::Binary(Rc::new(BinaryExpression {
        left: len,
        right: one,
        op: BinaryOperation::Eq,
        span: no_span(),
        id,
    }));
    let statement = Statement::Assert(Rc::new(AssertStatement {
        variant: AssertVariant::Assert(condition),
        span: no_span(),
        id: 0,
    }));
    assert_eq!(
        build.lower(vec![statement]),
        vec!["assert((MappingGetOrUse(v__len__, false, 0u32) Eq 1u32));"]
    );
}

#[test]
fn earlier_operands_are_bound_before_later_ones_emit() {
    let mut build = Build::new();
    let argument = build.local("y");
    let left = build.call(argument);
    let right = build.pop("v");
    let sum = build.add(left, right);
    let statement = build.define("x", sum);
    let lowered = build.lower(vec![statement]);
    assert!(lowered[0].ends_with("= f(y);"), "{:?}", lowered);
    assert!(lowered[1].ends_with("= MappingGetOrUse(v__len__, false, 0u32);"), "{:?}", lowered);
}

/* Other programs */

#[test]
fn a_dynamic_read_is_none_where_nothing_is_stored() {
    let mut build = Build::new();
    let storage = identifier("box", 0);
    let read = build.dynamic(DynamicOpKind::Read { storage }, optional_of(u32_type()));
    match build.lowering.reconstruct_expression(&read) {
        Ok((expression, _)) => assert_eq!(
            build.show(&expression),
            "(DynamicContains(target, 'aleo', 'box__', false) ? DynamicGetOrUse(target, 'aleo', \
             'box__', false, 0u32) : none)"
        ),
        Err(halt) => panic!("{:?}", halt),
    }
}

#[test]
fn a_dynamic_length_is_a_read_of_the_length_mapping() {
    let mut build = Build::new();
    let kind = DynamicOpKind::Op {
        member: identifier("w", 0),
        op: identifier("len", 0),
        arguments: List::Nil,
    };
    let len = build.dynamic(kind, u32_type());
    match build.lowering.reconstruct_expression(&len) {
        Ok((expression, _)) => assert_eq!(
            build.show(&expression),
            "DynamicGetOrUse(target, 'aleo', 'w__len__', false, 0u32)"
        ),
        Err(halt) => panic!("{:?}", halt),
    }
}

#[test]
fn a_dynamic_get_compares_the_index_with_the_length() {
    let mut build = Build::new();
    let index = build.local("i");
    let kind = DynamicOpKind::Op {
        member: identifier("w", 0),
        op: identifier("get", 0),
        arguments: List::one(index),
    };
    let get = build.dynamic(kind, optional_of(u32_type()));
    match build.lowering.reconstruct_expression(&get) {
        Ok((expression, _)) => {
            let text = build.show(&expression);
            assert!(text.contains("(i Lt "), "{}", text);
            assert!(text.contains("DynamicGetOrUse(target, 'aleo', 'w__', i, 0u32)"), "{}", text);
            assert!(text.ends_with(": none)"), "{}", text);
        }
        Err(halt) => panic!("{:?}", halt),
    }
}

/* Zero values */

#[test]
fn zero_values_follow_types() {
    let mut build = Build::new();
    let zero = |build: &mut Build, type_: &Type| match build.lowering.zero(type_) {
        Ok(expression) => build.show(&expression),
        Err(halt) => format!("{:?}", halt),
    };
    assert_eq!(zero(&mut build, &u32_type()), "0u32");
    assert_eq!(zero(&mut build, &Type::Boolean), "false");
    assert_eq!(zero(&mut build, &Type::Field), "0field");
    let point = match build.path("point", PathTarget::Global(Rc::new(at("point"))), Type::Error) {
        Expression::Path(path) => path,
        other => panic!("{:?}", other),
    };
    let composite =
        Type::Composite(Rc::new(CompositeType { path: point, const_arguments: List::Nil }));
    assert_eq!(zero(&mut build, &composite), "point { a: 0u32, b: false }");
    // Vectors have no zero value.
    assert_eq!(zero(&mut build, &vector_of(u32_type())), "IllFormed");
}

/* Failures */

#[test]
fn unresolved_names_are_ill_formed() {
    let mut build = Build::new();
    let unknown = build.path("y", PathTarget::Unresolved, u32_type());
    let statement = build.define("x", unknown);
    let result = build.lowering.reconstruct_block_statements(&List::one(statement));
    assert_eq!(result, Err(Halt::IllFormed));
}

#[test]
fn vector_operations_need_their_arguments() {
    let mut build = Build::new();
    let vector = build.vector("v");
    let push = build.intrinsic(Intrinsic::VectorPush, vec![vector], Type::Unit);
    assert_eq!(build.lowering.reconstruct_expression(&push), Err(Halt::IllFormed));
    let local = build.local("x");
    let len = build.intrinsic(Intrinsic::VectorLen, vec![local], u32_type());
    assert_eq!(build.lowering.reconstruct_expression(&len), Err(Halt::IllFormed));
}

#[test]
fn steps_nest_no_deeper_than_the_limit() {
    let statements = |build: &mut Build| {
        let left = build.pop("v");
        let right = build.pop("w");
        let choice = build.either(left, right);
        List::one(build.define("x", choice))
    };
    let mut shallow = Build::new();
    let list = statements(&mut shallow);
    assert_eq!(shallow.lowering.lower_statements(0, &list), Err(Halt::Depth));
    // Where a limit suffices, a greater one changes nothing, and neither does none at all.
    let mut enough = Build::new();
    let list = statements(&mut enough);
    let lowered = enough.lowering.lower_statements(50, &list);
    assert!(lowered.is_ok());
    let mut more = Build::new();
    let list = statements(&mut more);
    assert_eq!(more.lowering.lower_statements(500, &list), lowered);
    let mut unbounded = Build::new();
    let list = statements(&mut unbounded);
    assert_eq!(unbounded.lowering.reconstruct_block_statements(&list), lowered);
}

/// `Store@(target)::box.get()`, where `box` is no vector.
fn kept_access(build: &mut Build) -> Expression {
    let kind = DynamicOpKind::Op {
        member: identifier("box", 0),
        op: identifier("get", 0),
        arguments: List::Nil,
    };
    build.dynamic(kind, u32_type())
}

#[test]
fn an_access_that_is_handed_to_a_call_is_lowered_without_end() {
    for depth in [0, 1, 20, 200] {
        let mut build = Build::new();
        let access = kept_access(&mut build);
        let call = build.call(access);
        let list = List::one(build.evaluate(call));
        assert_eq!(build.lowering.lower_statements(depth, &list), Err(Halt::Depth));
    }
}

#[test]
fn an_access_that_is_handed_to_no_call_is_lowered() {
    // By itself, as an operand of an operator, as a value to push and as an index.
    let mut build = Build::new();
    let access = kept_access(&mut build);
    let list = List::one(build.define("x", access));
    assert!(build.lowering.lower_statements(50, &list).is_ok());
    let mut build = Build::new();
    let access = kept_access(&mut build);
    let popped = build.pop("v");
    let sum = build.add(popped, access);
    let list = List::one(build.define("x", sum));
    assert!(build.lowering.lower_statements(50, &list).is_ok());
    let mut build = Build::new();
    let access = kept_access(&mut build);
    let push = build.push("v", access);
    let list = List::one(build.evaluate(push));
    assert!(build.lowering.lower_statements(50, &list).is_ok());
    let mut build = Build::new();
    let access = kept_access(&mut build);
    let got = build.get("v", access);
    let call = build.call(got);
    let list = List::one(build.evaluate(call));
    assert!(build.lowering.lower_statements(100, &list).is_ok());
}

/* Tails */

#[test]
fn tails_split_behind_the_last_use() {
    let mut build = Build::new();
    let x = build.local("x");
    let one = build.define("a", x);
    let y = build.local("y");
    let two = build.define("i", y);
    let a = build.local("a");
    let three = build.evaluate(a);
    let i = build.local("i");
    let four = build.evaluate(i);
    let tail = List::from_vec(vec![one, two, three, four]);
    let (replayed, rest) =
        StorageLoweringVisitor::split_tail_after_last_local_use(&tail, name("x"));
    assert_eq!(replayed.to_vec().len() + rest.to_vec().len(), 4);
    // `a` is made of `x`, so its use is replayed, and what is between is too.
    assert_eq!(replayed, tail.take(4));
    let (replayed, rest) =
        StorageLoweringVisitor::split_tail_after_last_local_use(&tail, name("target"));
    assert!(replayed.is_empty());
    assert_eq!(rest, tail);
}

#[test]
fn lists_of_branch_symbols_hold_each_once() {
    let mut symbols = vec![name("x")];
    StorageLoweringVisitor::push_branch_local_symbol(&mut symbols, name("x"));
    StorageLoweringVisitor::push_branch_local_symbol(&mut symbols, name("y"));
    assert_eq!(symbols, vec![name("x"), name("y")]);
}

#[test]
fn units_are_left_alone() {
    let mut build = Build::new();
    let unit = Expression::Unit(UnitExpression { span: no_span(), id: 0 });
    let statement = build.evaluate(unit);
    assert_eq!(build.lower(vec![statement]), vec!["();"]);
}

/* Where statements go */

#[test]
fn expressions_that_branch_may_emit_and_take_their_tail() {
    let mut build = Build::new();
    let pop = build.pop("v");
    assert!(StorageLoweringVisitor::expression_requires_branch_cps(&pop));
    assert!(StorageLoweringVisitor::expression_may_emit_cps_statements(&pop));
    assert!(build.lowering.expression_requires_tail_cps(&pop));
    // A length is read in place.
    let len = build.len("v");
    assert!(!StorageLoweringVisitor::expression_requires_branch_cps(&len));
    assert!(StorageLoweringVisitor::expression_may_emit_cps_statements(&len));
    // A storage variable becomes a ternary.
    let counter = build.storage("counter");
    assert!(!StorageLoweringVisitor::expression_may_emit_cps_statements(&counter));
    assert!(build.lowering.expression_reconstructs_to_branch_cps(&counter));
    assert!(build.lowering.expression_may_emit_after_reconstruction(&counter));
    let x = build.local("x");
    assert!(!build.lowering.expression_may_emit_after_reconstruction(&x));
}

#[test]
fn quiet_expressions_need_no_statements() {
    let mut build = Build::new();
    let x = build.local("x");
    let y = build.number("2");
    let sum = build.add(x, y);
    assert!(!StorageLoweringVisitor::expression_may_emit_cps_statements(&sum));
    assert_eq!(build.lowering.reconstruct_expression(&sum), Ok((sum, List::Nil)));
}

#[test]
fn operands_are_bound_unless_they_can_wait() {
    let mut build = Build::new();
    let argument = build.local("y");
    let call = build.call(argument);
    match build.lowering.materialize_strict_prefix_expression(call) {
        Ok((value, statements)) => {
            assert_eq!(build.show(&value), "$eval$0");
            assert!(expression_can_be_discarded(&value, &build.lowering.state));
            let shown: Vec<String> =
                statements.to_vec().iter().map(|inner| build.show_statement(inner)).collect();
            assert_eq!(shown, vec!["let $eval$0 = f(y);"]);
        }
        Err(halt) => panic!("{:?}", halt),
    }
    let x = build.local("x");
    match build.lowering.materialize_strict_prefix_expression(x) {
        Ok((value, statements)) => {
            assert_eq!(build.show(&value), "x");
            assert!(statements.is_empty());
        }
        Err(halt) => panic!("{:?}", halt),
    }
}

#[test]
fn places_of_assignments_keep_their_variable() {
    let mut build = Build::new();
    let array = build.local("a");
    let index = build.len("v");
    let id = build.typed(u32_type());
    let place = Expression::ArrayAccess(Rc::new(ArrayAccess {
        array,
        index,
        span: no_span(),
        id,
    }));
    let value = build.pop("w");
    let statement = build.assign(place, value);
    let lowered = build.lower(vec![statement]);
    // The index is evaluated before the value.
    assert!(lowered[0].ends_with("= MappingGetOrUse(v__len__, false, 0u32);"), "{:?}", lowered);
    assert!(lowered[1].ends_with("= MappingGetOrUse(w__len__, false, 0u32);"), "{:?}", lowered);
    assert!(lowered.iter().all(|text| !text.contains("Vector")));
}

#[test]
fn local_vector_operations_are_found() {
    let mut build = Build::new();
    let pop = build.pop("v");
    assert!(contains_local_vector_join_op(&pop, name("prog.aleo")));
    assert!(!contains_local_vector_join_op(&pop, name("target")));
    let len = build.len("v");
    assert!(!contains_local_vector_join_op(&len, name("prog.aleo")));
    let one = build.number("1");
    let sum = build.add(one, pop);
    assert!(contains_local_vector_join_op(&sum, name("prog.aleo")));
}

/* Types */

#[test]
fn paths_to_added_mappings_have_their_types() {
    let mut build = Build::new();
    let symbol = build.lowering.state.intern("v__");
    let untyped = build.id();
    let path = |target: PathTarget| Path {
        user_program: None,
        qualifier: List::Nil,
        identifier: Identifier { name: symbol, span: no_span(), id: untyped },
        target,
        span: no_span(),
        id: untyped,
    };
    let location = Location { program: name("prog.aleo"), path: List::one(symbol) };
    let mapping = path(PathTarget::Global(Rc::new(location)));
    assert_eq!(
        build.lowering.path_type(&mapping),
        Some(Type::Mapping(Rc::new(MappingType { key: u32_type(), value: u32_type() })))
    );
    assert_eq!(build.lowering.path_type(&path(PathTarget::Local(symbol))), None);
    let held = build.lowering.mapping_value_type(&Expression::Path(Rc::new(mapping)));
    assert_eq!(held, Some(u32_type()));
}
