//! Lowered code, run on mappings.
use leo_passes::ast::{
    AssertVariant, BinaryOperation, DefinitionPlace, Expression, Identifier, IntegerType, Intrinsic,
    Literal, LiteralVariant, Location, Path, PathTarget, Span, Statement, Symbol, Type,
};
use leo_passes::list::List;
use leo_passes::state::{CompilerState, GlobalSymbol, SymbolTable};
use leo_passes::storage_lowering::visitor::StorageLoweringVisitor;
use std::collections::BTreeMap;
use std::rc::Rc;

const SPAN: Span = Span { lo: 0, hi: 0 };

const NAMES: [&str; 4] = ["prog.aleo", "v", "counter", "total"];

fn name(text: &str) -> Symbol {
    match NAMES.iter().position(|known| *known == text) {
        Some(index) => Symbol { index },
        None => panic!("{} is not a name of the tests", text),
    }
}

fn u32_type() -> Type {
    Type::Integer(IntegerType::U32)
}

#[derive(Clone, Copy, Debug, PartialEq, Eq, PartialOrd, Ord)]
enum Value {
    Truth(bool),
    Number(u32),
    Absent,
}

/// A program with a vector and two storage variables, and what it runs on.
struct Running {
    lowering: StorageLoweringVisitor,
    locals: BTreeMap<usize, Value>,
    mappings: BTreeMap<String, BTreeMap<Value, Value>>,
}

impl Running {
    fn new() -> Running {
        let global = |item: &str, type_: Type| GlobalSymbol {
            viewer: name("prog.aleo"),
            location: Location { program: name("prog.aleo"), path: List::one(name(item)) },
            type_: Some(type_),
        };
        let table = SymbolTable {
            globals: List::from_vec(vec![
                global("v", Type::Vector(Rc::new(u32_type()))),
                global("counter", Type::Optional(Rc::new(u32_type()))),
                global("total", Type::Optional(Rc::new(u32_type()))),
            ]),
            structs: List::Nil,
            interfaces: List::Nil,
        };
        let mut state = CompilerState::new(table);
        for text in NAMES {
            state.intern(text);
        }
        Running {
            lowering: StorageLoweringVisitor::new(state, name("prog.aleo")),
            locals: BTreeMap::new(),
            mappings: BTreeMap::new(),
        }
    }

    fn text(&self, symbol: Symbol) -> String {
        self.lowering.state.names.text(symbol).into_iter().collect()
    }

    fn path(&mut self, item: &str) -> Path {
        let id = self.lowering.state.take_id();
        Path {
            user_program: None,
            qualifier: List::Nil,
            identifier: Identifier { name: name(item), span: SPAN, id },
            target: PathTarget::Global(Rc::new(Location {
                program: name("prog.aleo"),
                path: List::one(name(item)),
            })),
            span: SPAN,
            id,
        }
    }

    fn number(&mut self, text: &str) -> Expression {
        let digits = self.lowering.state.intern(text);
        let id = self.lowering.state.take_typed_id(u32_type());
        Expression::Literal(Literal {
            variant: LiteralVariant::Integer(IntegerType::U32, digits),
            span: SPAN,
            id,
        })
    }

    fn none(&mut self) -> Expression {
        let id = self.lowering.state.take_id();
        Expression::Literal(Literal { variant: LiteralVariant::Absent, span: SPAN, id })
    }

    /* Running */

    fn mapping(&self, expression: &Expression) -> String {
        match expression {
            Expression::Path(path) => self.text(path.identifier.name),
            other => panic!("{:?}", other),
        }
    }

    fn held(&self, mapping: &Expression, key: &Expression) -> Option<Value> {
        let key = self.value(key)?;
        self.mappings.get(&self.mapping(mapping)).and_then(|held| held.get(&key)).copied()
    }

    /// The value of `expression`, unless evaluating it fails.
    fn value(&self, expression: &Expression) -> Option<Value> {
        match expression {
            Expression::Path(path) => match path.target {
                PathTarget::Local(symbol) => self.locals.get(&symbol.index).copied(),
                _ => None,
            },
            Expression::Literal(literal) => match &literal.variant {
                LiteralVariant::Boolean(value) => Some(Value::Truth(*value)),
                LiteralVariant::Integer(_, digits) => match self.text(*digits).parse() {
                    Ok(value) => Some(Value::Number(value)),
                    Err(_) => None,
                },
                LiteralVariant::Absent => Some(Value::Absent),
                _ => None,
            },
            Expression::Binary(input) => {
                let (left, right) = match (self.value(&input.left)?, self.value(&input.right)?) {
                    (Value::Number(left), Value::Number(right)) => (left, right),
                    _ => return None,
                };
                match input.op {
                    BinaryOperation::Add => left.checked_add(right).map(Value::Number),
                    BinaryOperation::Sub => left.checked_sub(right).map(Value::Number),
                    BinaryOperation::SubWrapped => Some(Value::Number(left.wrapping_sub(right))),
                    BinaryOperation::Gt => Some(Value::Truth(left > right)),
                    BinaryOperation::Lt => Some(Value::Truth(left < right)),
                    _ => None,
                }
            }
            Expression::Ternary(input) => {
                let if_true = self.value(&input.if_true)?;
                let if_false = self.value(&input.if_false)?;
                match self.value(&input.condition)? {
                    Value::Truth(true) => Some(if_true),
                    Value::Truth(false) => Some(if_false),
                    _ => None,
                }
            }
            Expression::Intrinsic(input) => {
                let arguments = input.arguments.to_vec();
                match input.op {
                    Intrinsic::MappingGetOrUse => {
                        let default = self.value(&arguments[2])?;
                        Some(self.held(&arguments[0], &arguments[1]).unwrap_or(default))
                    }
                    Intrinsic::MappingGet => self.held(&arguments[0], &arguments[1]),
                    Intrinsic::MappingContains => {
                        Some(Value::Truth(self.held(&arguments[0], &arguments[1]).is_some()))
                    }
                    _ => None,
                }
            }
            _ => None,
        }
    }

    /// Evaluates a write of a mapping. Says whether that went well.
    fn write(&mut self, expression: &Expression) -> bool {
        let input = match expression {
            Expression::Intrinsic(input) => input,
            _ => return false,
        };
        let arguments = input.arguments.to_vec();
        let mapping = self.mapping(&arguments[0]);
        let key = match self.value(&arguments[1]) {
            Some(key) => key,
            None => return false,
        };
        match input.op {
            Intrinsic::MappingSet => match self.value(&arguments[2]) {
                Some(value) => {
                    self.mappings.entry(mapping).or_default().insert(key, value);
                    true
                }
                None => false,
            },
            Intrinsic::MappingRemove => {
                self.mappings.entry(mapping).or_default().remove(&key);
                true
            }
            _ => false,
        }
    }

    fn step(&mut self, statement: &Statement) -> bool {
        match statement {
            Statement::Definition(input) => match (&input.place, self.value(&input.value)) {
                (DefinitionPlace::Single(identifier), Some(value)) => {
                    self.locals.insert(identifier.name.index, value);
                    true
                }
                _ => false,
            },
            Statement::Assert(input) => match &input.variant {
                AssertVariant::Assert(condition) => {
                    self.value(condition) == Some(Value::Truth(true))
                }
                _ => false,
            },
            Statement::Expression(input) => self.write(&input.expression),
            _ => false,
        }
    }

    fn run(&mut self, statements: &List<Statement>) -> bool {
        statements.to_vec().iter().all(|statement| self.step(statement))
    }

    /* The operations */

    fn push(&mut self, value: &str) -> bool {
        let path = self.path("v");
        let value = self.number(value);
        let (write, before) = self.lowering.push_value(&path, value, SPAN);
        self.run(&before) && self.write(&write)
    }

    fn pop(&mut self) -> Option<Value> {
        let path = self.path("v");
        match self.lowering.pop_value(&path, &u32_type(), SPAN) {
            Ok((popped, before)) => {
                assert!(self.run(&before));
                self.value(&popped)
            }
            Err(halt) => panic!("{:?}", halt),
        }
    }

    fn get(&mut self, index: &str) -> Option<Value> {
        let path = self.path("v");
        let index = self.number(index);
        match self.lowering.get_value(&path, &u32_type(), index, SPAN) {
            Ok((got, before)) => {
                assert!(self.run(&before));
                self.value(&got)
            }
            Err(halt) => panic!("{:?}", halt),
        }
    }

    fn set(&mut self, index: &str, value: &str) -> bool {
        let path = self.path("v");
        let index = self.number(index);
        let value = self.number(value);
        let (write, before) = self.lowering.set_value(&path, index, value, SPAN);
        self.run(&before) && self.write(&write)
    }

    fn swap_remove(&mut self, index: &str) -> Option<Value> {
        let path = self.path("v");
        let index = self.number(index);
        let (removed, before) = self.lowering.swap_remove_value(&path, index, SPAN);
        if self.run(&before) {
            self.value(&removed)
        } else {
            None
        }
    }

    fn clear(&mut self) {
        let path = self.path("v");
        let (write, before) = self.lowering.clear_vector(&path, SPAN);
        assert!(self.run(&before));
        assert!(self.write(&write));
    }

    fn len(&mut self) -> Option<Value> {
        let path = self.path("v");
        let (len, before) = self.lowering.vector_len(&path, SPAN);
        assert!(self.run(&before));
        self.value(&len)
    }

    fn elements(&mut self) -> Vec<Value> {
        let mut elements = Vec::new();
        let mut index = 0;
        while let Some(Value::Number(value)) = self.get(&format!("{}", index)) {
            elements.push(Value::Number(value));
            index += 1;
        }
        assert_eq!(self.len(), Some(Value::Number(index)));
        elements
    }

    fn store(&mut self, item: &str, value: Expression) {
        let mapping = self.lowering.state.suffixed_symbol(name(item), "__");
        let statement = self.lowering.write_storage(mapping, value, SPAN);
        assert!(self.step(&statement));
    }

    fn load(&mut self, item: &str) -> Option<Value> {
        let path = Rc::new(self.path(item));
        match self.lowering.reconstruct_path(&path) {
            Ok(read) => self.value(&read),
            Err(halt) => panic!("{:?}", halt),
        }
    }
}

fn numbers(values: &[u32]) -> Vec<Value> {
    values.iter().map(|value| Value::Number(*value)).collect()
}

fn filled() -> Running {
    let mut running = Running::new();
    for value in ["10", "20", "30"] {
        assert!(running.push(value));
    }
    running
}

#[test]
fn what_is_pushed_comes_last() {
    let mut running = Running::new();
    assert_eq!(running.elements(), numbers(&[]));
    assert!(running.push("7"));
    assert_eq!(running.elements(), numbers(&[7]));
    assert_eq!(filled().elements(), numbers(&[10, 20, 30]));
}

#[test]
fn what_is_popped_came_last() {
    let mut running = filled();
    assert_eq!(running.pop(), Some(Value::Number(30)));
    assert_eq!(running.elements(), numbers(&[10, 20]));
    assert_eq!(running.pop(), Some(Value::Number(20)));
    assert_eq!(running.pop(), Some(Value::Number(10)));
    assert_eq!(running.pop(), Some(Value::Absent));
    assert_eq!(running.len(), Some(Value::Number(0)));
}

#[test]
fn what_is_behind_the_end_is_none() {
    let mut running = filled();
    assert_eq!(running.get("2"), Some(Value::Number(30)));
    assert_eq!(running.get("3"), Some(Value::Absent));
    assert_eq!(running.pop(), Some(Value::Number(30)));
    assert_eq!(running.get("2"), Some(Value::Absent));
}

#[test]
fn what_is_set_is_read_back() {
    let mut running = filled();
    assert!(running.set("1", "99"));
    assert_eq!(running.elements(), numbers(&[10, 99, 30]));
    assert!(!running.set("3", "99"));
    assert_eq!(running.elements(), numbers(&[10, 99, 30]));
}

#[test]
fn what_is_swap_removed_is_filled_by_the_last() {
    let mut running = filled();
    assert_eq!(running.swap_remove("0"), Some(Value::Number(10)));
    assert_eq!(running.elements(), numbers(&[30, 20]));
    assert_eq!(running.swap_remove("1"), Some(Value::Number(20)));
    assert_eq!(running.elements(), numbers(&[30]));
    assert_eq!(running.swap_remove("1"), None);
    assert_eq!(running.elements(), numbers(&[30]));
}

#[test]
fn what_is_cleared_is_gone() {
    let mut running = filled();
    running.clear();
    assert_eq!(running.elements(), numbers(&[]));
    assert!(running.push("5"));
    assert_eq!(running.elements(), numbers(&[5]));
}

#[test]
fn what_is_stored_is_read_back() {
    let mut running = Running::new();
    assert_eq!(running.load("counter"), Some(Value::Absent));
    let value = running.number("41");
    running.store("counter", value);
    assert_eq!(running.load("counter"), Some(Value::Number(41)));
    assert_eq!(running.load("total"), Some(Value::Absent));
    let other = running.number("42");
    running.store("total", other);
    assert_eq!(running.load("counter"), Some(Value::Number(41)));
    let none = running.none();
    running.store("counter", none);
    assert_eq!(running.load("counter"), Some(Value::Absent));
    assert_eq!(running.load("total"), Some(Value::Number(42)));
}

#[test]
fn names_with_other_numbers_differ() {
    let mut running = Running::new();
    let mut made = Vec::new();
    for (stem, separator) in [("$x", "$"), ("$x", "$"), ("$x$1", "$"), ("y", "$join"), ("y", "$")] {
        made.push(running.lowering.state.unique_symbol(stem, separator));
    }
    for (index, symbol) in made.iter().enumerate() {
        assert!(!made[..index].contains(symbol));
    }
}
