//! Joins of branches: local values, cuts, plans and their cost.
use indexmap::IndexSet;
use leo_passes::ast::{
    AssignStatement, Block, ConditionalStatement, DefinitionPlace, DefinitionStatement, Expression,
    ExpressionStatement, Identifier, IntegerType, Literal, LiteralVariant, Path, PathTarget, Span,
    Statement, Symbol, Type, UnitExpression,
};
use leo_passes::list::List;
use leo_passes::state::{CompilerState, SymbolTable};
use leo_passes::storage_lowering::join::context::LoweringContext;
use leo_passes::storage_lowering::join::cost::{
    checked_materialization_cost, statement_nodes, statement_slice_nodes, JoinMaterializationCost,
};
use leo_passes::storage_lowering::join::cut::{
    dependent_cut, PlannedStatement, PlannedStatementKind,
};
use leo_passes::storage_lowering::join::environment::{BindingId, LexicalEnvironment, ValueId};
use leo_passes::storage_lowering::join::plan::{plan_statement, ArmMismatch, JoinPlan};
use leo_passes::units::Variant;
use std::rc::Rc;

fn no_span() -> Span {
    Span { lo: 0, hi: 0 }
}

fn unit() -> Expression {
    Expression::Unit(UnitExpression { span: no_span(), id: 0 })
}

fn unit_statement() -> Statement {
    Statement::Expression(Rc::new(ExpressionStatement {
        expression: unit(),
        span: no_span(),
        id: 0,
    }))
}

fn block(statements: Vec<Statement>) -> Block {
    Block { statements: List::from_vec(statements), span: no_span(), id: 0 }
}

fn identifier(name: Symbol) -> Identifier {
    Identifier { name, span: no_span(), id: 0 }
}

fn local(name: Symbol) -> Expression {
    Expression::Path(Rc::new(Path {
        user_program: None,
        qualifier: List::Nil,
        identifier: identifier(name),
        target: PathTarget::Local(name),
        span: no_span(),
        id: 0,
    }))
}

fn number(text: Symbol) -> Expression {
    Expression::Literal(Literal {
        variant: LiteralVariant::Integer(IntegerType::U32, text),
        span: no_span(),
        id: 0,
    })
}

fn define(name: Symbol, value: Expression) -> Statement {
    Statement::Definition(Rc::new(DefinitionStatement {
        place: DefinitionPlace::Single(identifier(name)),
        type_: None,
        value,
        span: no_span(),
        id: 0,
    }))
}

fn assign(name: Symbol, value: Expression) -> Statement {
    Statement::Assign(Rc::new(AssignStatement {
        place: local(name),
        value,
        span: no_span(),
        id: 0,
    }))
}

fn evaluate(expression: Expression) -> Statement {
    Statement::Expression(Rc::new(ExpressionStatement { expression, span: no_span(), id: 0 }))
}

fn symbol(index: usize) -> Symbol {
    Symbol { index }
}

fn u32_type() -> Type {
    Type::Integer(IntegerType::U32)
}

fn empty_state() -> CompilerState {
    CompilerState::new(SymbolTable {
        globals: List::Nil,
        structs: List::Nil,
        interfaces: List::Nil,
    })
}

fn planned(uses: IndexSet<ValueId>, defines: IndexSet<ValueId>) -> PlannedStatement {
    PlannedStatement {
        statement: unit_statement(),
        uses,
        defines,
        kind: PlannedStatementKind::Ordinary,
    }
}

#[test]
fn lexical_identity_includes_the_defining_scope() {
    let mut state = empty_state();
    let symbol = state.intern("value");
    assert_ne!(BindingId { scope: 1, symbol }, BindingId { scope: 2, symbol });

    let mut environment = LexicalEnvironment::default();
    environment.enter_scope(1);
    let first = environment.define_current(symbol).unwrap();
    let replay = environment.define_current(symbol).unwrap();
    assert_eq!(first.id, replay.id);
    assert_eq!(first.value, replay.value);
}

#[test]
fn dependent_cut_closes_over_interleaved_definitions() {
    let parameter: ValueId = 1;
    let derived: ValueId = 2;
    let statements = vec![
        PlannedStatement {
            statement: unit_statement(),
            uses: IndexSet::new(),
            defines: IndexSet::from([derived]),
            kind: PlannedStatementKind::Ordinary,
        },
        PlannedStatement {
            statement: unit_statement(),
            uses: IndexSet::from([parameter]),
            defines: IndexSet::new(),
            kind: PlannedStatementKind::Ordinary,
        },
        PlannedStatement {
            statement: unit_statement(),
            uses: IndexSet::from([derived]),
            defines: IndexSet::new(),
            kind: PlannedStatementKind::Ordinary,
        },
    ];
    assert_eq!(dependent_cut(&statements, &vec![parameter]), Some(2));
}

#[test]
fn materialization_cost_uses_checked_arithmetic() {
    assert_eq!(
        checked_materialization_cost(1, 2, 4, 5),
        Some(JoinMaterializationCost { top_level_statements: 3, statement_nodes: 9 })
    );
    assert_eq!(checked_materialization_cost(usize::MAX, 1, 0, 0), None);
    assert_eq!(checked_materialization_cost(0, 0, usize::MAX, 1), None);
}

#[test]
fn materialization_cost_counts_the_real_statement_tree() {
    let selected_region = vec![Statement::Conditional(Rc::new(ConditionalStatement {
        condition: unit(),
        then_block: block(vec![unit_statement(), unit_statement()]),
        otherwise: Some(Statement::Block(Rc::new(block(vec![unit_statement()])))),
        span: no_span(),
        id: 0,
    }))];
    assert_eq!(
        JoinMaterializationCost::from_materialized(&selected_region, &[unit_statement()]),
        Some(JoinMaterializationCost { top_level_statements: 2, statement_nodes: 6 })
    );
}

#[test]
fn nodes_are_counted_in_blocks_and_branches_only() {
    assert_eq!(statement_nodes(&unit_statement()), Some(1));
    assert_eq!(statement_nodes(&Statement::Block(Rc::new(block(vec![])))), Some(1));
    assert_eq!(statement_slice_nodes(&[]), Some(0));
    assert_eq!(statement_slice_nodes(&[unit_statement(), unit_statement()]), Some(2));
}

#[test]
fn cuts_follow_chains_of_values() {
    let statements = vec![
        planned(IndexSet::new(), IndexSet::from([4])),
        planned(IndexSet::from([4]), IndexSet::new()),
    ];
    // Nothing depends on the parameter.
    assert_eq!(dependent_cut(&statements, &vec![9]), None);
    assert_eq!(dependent_cut(&vec![], &vec![9]), None);
    // What a dependent statement defines makes the next one dependent.
    let chained = vec![
        planned(IndexSet::from([1]), IndexSet::from([2])),
        planned(IndexSet::from([2]), IndexSet::from([3])),
        planned(IndexSet::from([3]), IndexSet::new()),
        planned(IndexSet::new(), IndexSet::new()),
    ];
    assert_eq!(dependent_cut(&chained, &vec![1]), Some(2));
}

#[test]
fn inner_scopes_shadow_outer_ones() {
    let name = symbol(7);
    let mut environment = LexicalEnvironment::default();
    assert_eq!(environment.current_scope_id(), None);
    assert_eq!(environment.define_current(name), None);
    environment.enter_scope(1);
    let outer = environment.define_current(name).unwrap();
    environment.enter_scope(2);
    assert_eq!(environment.resolve(name), Some(outer));
    let inner = environment.define_current(name).unwrap();
    assert_ne!(inner.value, outer.value);
    assert_eq!(inner.id, BindingId { scope: 2, symbol: name });
    assert_eq!(environment.resolve(name), Some(inner));
    environment.exit_scope(2);
    assert_eq!(environment.resolve(name), Some(outer));
    assert_eq!(environment.current_scope_id(), Some(1));
    assert_eq!(environment.resolve(symbol(8)), None);
}

#[test]
fn assignments_make_new_values_of_the_same_binding() {
    let name = symbol(7);
    let mut environment = LexicalEnvironment::default();
    environment.enter_scope(1);
    let defined = environment.define_current(name).unwrap();
    environment.enter_scope(2);
    let assigned = environment.assign(name).unwrap();
    assert_eq!(assigned.id, defined.id);
    assert_ne!(assigned.value, defined.value);
    assert_eq!(environment.resolve(name), Some(assigned));
    assert_eq!(environment.assign(symbol(8)), None);
    // A copy goes its own way.
    let copy = environment.copy();
    environment.observe_statement(&assign(name, number(symbol(0))));
    assert_ne!(environment.resolve(name), copy.resolve(name));
    assert_eq!(copy.resolve(name), Some(assigned));
}

#[test]
fn plans_tell_direct_assignments_apart() {
    let (x, y) = (symbol(1), symbol(2));
    let mut environment = LexicalEnvironment::default();
    environment.enter_scope(5);
    let defined = environment.define_current(x).unwrap();
    let definition = plan_statement(&define(y, local(x)), &mut environment, 5).unwrap();
    assert_eq!(definition.kind, PlannedStatementKind::Ordinary);
    assert!(definition.uses.contains(&defined.value));
    let made = environment.resolve(y).unwrap();
    assert!(definition.defines.contains(&made.value));

    let assignment = plan_statement(&assign(x, local(y)), &mut environment, 5).unwrap();
    assert_eq!(assignment.kind, PlannedStatementKind::DirectAssignment { binding: defined.id });
    assert!(assignment.uses.contains(&made.value));
    // No join can stand behind a block.
    let nested = Statement::Block(Rc::new(block(vec![])));
    assert!(plan_statement(&nested, &mut environment, 5).is_none());
}

#[test]
fn joins_share_what_does_not_depend_on_the_branch() {
    let (x, y, z) = (symbol(1), symbol(2), symbol(3));
    let tail = List::from_vec(vec![
        define(y, local(x)),
        evaluate(local(y)),
        define(z, number(symbol(0))),
        evaluate(local(z)),
    ]);
    let mut environment = LexicalEnvironment::default();
    environment.enter_scope(5);
    let plan = JoinPlan::build(&mut environment, identifier(x), u32_type(), &tail).unwrap();
    assert_eq!(plan.shared_suffix().to_vec().len(), 2);
    assert_eq!(plan.shared_suffix(), &tail.skip(2));
    assert!(plan.has_branching_prefix(|statement| matches!(statement, Statement::Definition(_))));
    assert!(!plan.has_branching_prefix(|statement| matches!(statement, Statement::Return(_))));

    assert_eq!(plan.validate_arm(x, &u32_type()), Ok(()));
    assert_eq!(plan.validate_arm(y, &u32_type()), Err(ArmMismatch::Parameter));
    assert_eq!(plan.validate_arm(x, &Type::Boolean), Err(ArmMismatch::Type));
}

#[test]
fn joins_need_a_scope() {
    let mut environment = LexicalEnvironment::default();
    let plan = JoinPlan::build(&mut environment, identifier(symbol(1)), u32_type(), &List::Nil);
    assert!(plan.is_none());
}

#[test]
fn assigned_variables_become_variables_of_the_branch() {
    let mut state = empty_state();
    let x = state.intern("x");
    let y = state.intern("y");
    state.take_typed_id(u32_type());
    let mut environment = LexicalEnvironment::default();
    environment.enter_scope(5);
    let _ = environment.define_current(y);
    // y = x; y;
    let tail = List::from_vec(vec![assign(y, local(x)), evaluate(local(y)), evaluate(unit())]);
    let plan = JoinPlan::build(&mut environment, identifier(x), u32_type(), &tail).unwrap();
    assert_eq!(plan.shared_suffix(), &tail.skip(2));
    let prefix = plan.versioned_prefix(&mut state).unwrap();
    assert_eq!(prefix.len(), 2);
    let renamed = match &prefix[0] {
        Statement::Definition(input) => match &input.place {
            DefinitionPlace::Single(identifier) => identifier.name,
            _ => panic!("one variable is defined"),
        },
        other => panic!("the assignment becomes a definition, not {:?}", other),
    };
    assert_ne!(renamed, y);
    match &prefix[1] {
        Statement::Expression(input) => match &input.expression {
            Expression::Path(path) => assert_eq!(path.identifier.name, renamed),
            other => panic!("{:?}", other),
        },
        other => panic!("{:?}", other),
    }
}

#[test]
fn contexts_follow_variants() {
    assert_eq!(LoweringContext::from(Variant::Finalize), LoweringContext::Finalize);
    assert_eq!(LoweringContext::from(Variant::FinalFn), LoweringContext::FinalFn);
    assert_eq!(LoweringContext::from(Variant::View), LoweringContext::View);
    assert_eq!(LoweringContext::from(Variant::Fn), LoweringContext::Other);
    assert_eq!(LoweringContext::from(Variant::EntryPoint), LoweringContext::Other);
    assert_eq!(LoweringContext::default(), LoweringContext::Other);
}
