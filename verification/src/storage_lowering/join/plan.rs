//! Plans of joins.
use crate::ast::{DefinitionPlace, Expression, Identifier, NodeId, Path, Statement, Symbol, Type};
use crate::collections::{values_in, values_insert, values_new, with_element};
use crate::equality::same_type;
use crate::list::{copied, dropped, lemma_taken_dropped, List, Share};
use crate::names::text_of;
use crate::state::{
    simple_definition, type_of, with_id, with_typed_id, with_unique, CompilerState, Halt, State,
};
use crate::storage_lowering::join::cut::{
    cuts_are_minimal, dependent_cut, first_closed, is_closed, planned_all, Planned,
    PlannedStatement, PlannedStatementKind,
};
use crate::storage_lowering::join::environment::{
    assigned, assigned_variable, can_define, can_observe, defined, resolved, BindingId, Environment,
    LexicalEnvironment, ValueId,
};
use crate::storage_lowering::join::rename::{
    rename_expression, rename_statement, JoinPrefixVersioner, Renaming, Replacement,
};
use crate::walk::{
    collect_expression_paths, collect_statement_paths, expression_paths, statement_paths, Paths,
};
use indexmap::IndexSet;
use std::rc::Rc;
use vstd::prelude::*;

verus! {

/* What a statement needs and makes */

/// The value that a path reads, if it stands for a binding.
pub open spec fn read_value(environment: Environment, path: Path) -> Option<ValueId> {
    match path.spec_try_local_symbol() {
        None => None,
        Some(symbol) => match resolved(environment.scopes, symbol) {
            None => None,
            Some(state) => Some(state.value),
        },
    }
}

/// The values that `paths` read, each once, in the order in which they are first read.
pub open spec fn read_values(environment: Environment, paths: Paths) -> Seq<ValueId>
    decreases paths.len(),
{
    if paths.len() == 0 {
        Seq::empty()
    } else {
        let before = read_values(environment, paths.drop_last());
        match read_value(environment, *paths.last()) {
            None => before,
            Some(value) => with_element(before, value),
        }
    }
}

/// What `statement` needs and makes in `environment`, and the environment after it. `None` if a
/// join cannot stand behind it: it contains statements, defines several variables, or assigns to a
/// part of a variable or to a variable that is not of the scope `scope`.
pub open spec fn plan_of(
    environment: Environment,
    statement: Statement,
    scope: NodeId,
) -> Option<(Environment, Planned)> {
    match statement {
        Statement::Block(_) => None,
        Statement::Conditional(_) => None,
        Statement::Const(_) => None,
        Statement::Iteration(_) => None,
        Statement::Definition(input) => match input.place {
            DefinitionPlace::Multiple(_) => None,
            DefinitionPlace::Single(identifier) => match defined(environment, identifier.name) {
                (_, None) => None,
                (after, Some(state)) => Some(
                    (
                        after,
                        Planned {
                            statement,
                            uses: read_values(environment, expression_paths(input.value)),
                            defines: seq![state.value],
                            kind: PlannedStatementKind::Ordinary,
                        },
                    ),
                ),
            },
        },
        Statement::Assign(input) => match input.place {
            Expression::Path(path) => {
                let uses = read_values(environment, expression_paths(input.value));
                match path.spec_try_local_symbol() {
                    None => Some(
                        (
                            environment,
                            Planned {
                                statement,
                                uses,
                                defines: Seq::empty(),
                                kind: PlannedStatementKind::Ordinary,
                            },
                        ),
                    ),
                    Some(symbol) => match resolved(environment.scopes, symbol) {
                        None => None,
                        Some(state) => if state.id.scope != scope {
                            None
                        } else {
                            // The variable has to exist where it is overwritten: the value that it
                            // had counts as needed.
                            Some(
                                (
                                    assigned(environment, symbol).0,
                                    Planned {
                                        statement,
                                        uses: with_element(uses, state.value),
                                        defines: seq![environment.next_value],
                                        kind: PlannedStatementKind::DirectAssignment {
                                            binding: state.id,
                                        },
                                    },
                                ),
                            )
                        },
                    },
                }
            },
            _ => None,
        },
        _ => Some(
            (
                environment,
                Planned {
                    statement,
                    uses: read_values(environment, statement_paths(statement)),
                    defines: Seq::empty(),
                    kind: PlannedStatementKind::Ordinary,
                },
            ),
        ),
    }
}

/// Whether there are values left for what `statement` makes.
pub open spec fn can_plan(environment: Environment, statement: Statement, scope: NodeId) -> bool {
    plan_of(environment, statement, scope) is Some ==> can_observe(environment, statement)
}

/// The plans of all of `statements`, in order.
pub open spec fn plan_all(
    environment: Environment,
    statements: List<Statement>,
    scope: NodeId,
) -> Option<(Environment, Seq<Planned>)>
    decreases statements,
{
    match statements {
        List::Nil => Some((environment, Seq::empty())),
        List::Cons(first, rest) => match plan_of(environment, first, scope) {
            None => None,
            Some((after, planned)) => match plan_all(after, *rest, scope) {
                None => None,
                Some((last, more)) => Some((last, seq![planned] + more)),
            },
        },
    }
}

/// Whether there are values left for what `statements` make.
pub open spec fn can_plan_all(
    environment: Environment,
    statements: List<Statement>,
    scope: NodeId,
) -> bool
    decreases statements,
{
    match statements {
        List::Nil => true,
        List::Cons(first, rest) => {
            &&& can_plan(environment, first, scope)
            &&& plan_of(environment, first, scope) matches Some((after, _)) ==> can_plan_all(
                after,
                *rest,
                scope,
            )
        },
    }
}

fn collect_uses(paths: &Vec<Rc<Path>>, environment: &LexicalEnvironment) -> (r: IndexSet<ValueId>)
    ensures
        values_in(r) == read_values(environment@, paths@),
{
    let mut uses: IndexSet<ValueId> = values_new();
    let mut i: usize = 0;
    assert(paths@.take(0) =~= Seq::<Rc<Path>>::empty());
    while i < paths.len()
        invariant
            0 <= i <= paths.len(),
            values_in(uses) == read_values(environment@, paths@.take(i as int)),
        decreases paths.len() - i,
    {
        proof {
            assert(paths@.take(i + 1).drop_last() =~= paths@.take(i as int));
            assert(paths@.take(i + 1).last() == paths@[i as int]);
        }
        if let Some(symbol) = paths[i].try_local_symbol() {
            if let Some(state) = environment.resolve(symbol) {
                values_insert(&mut uses, state.value);
            }
        }
        i = i + 1;
    }
    assert(paths@.take(i as int) =~= paths@);
    uses
}

fn collect_expression_uses(expression: &Expression, environment: &LexicalEnvironment) -> (r:
    IndexSet<ValueId>)
    ensures
        values_in(r) == read_values(environment@, expression_paths(*expression)),
{
    let mut paths: Vec<Rc<Path>> = Vec::new();
    collect_expression_paths(expression, &mut paths);
    assert(paths@ =~= expression_paths(*expression));
    collect_uses(&paths, environment)
}

fn collect_statement_uses(statement: &Statement, environment: &LexicalEnvironment) -> (r: IndexSet<
    ValueId,
>)
    ensures
        values_in(r) == read_values(environment@, statement_paths(*statement)),
{
    let mut paths: Vec<Rc<Path>> = Vec::new();
    collect_statement_paths(statement, &mut paths);
    assert(paths@ =~= statement_paths(*statement));
    collect_uses(&paths, environment)
}

fn one_value(value: ValueId) -> (r: IndexSet<ValueId>)
    ensures
        values_in(r) == seq![value],
{
    let mut values: IndexSet<ValueId> = values_new();
    values_insert(&mut values, value);
    assert(values_in(values) =~= seq![value]);
    values
}

/// What `statement` needs and makes, if a join can stand behind it. The environment takes note of
/// what it makes.
pub fn plan_statement(
    statement: &Statement,
    environment: &mut LexicalEnvironment,
    source_scope: NodeId,
) -> (r: Option<PlannedStatement>)
    requires
        can_plan(old(environment)@, *statement, source_scope),
    ensures
        match (r, plan_of(old(environment)@, *statement, source_scope)) {
            (Some(planned), Some((after, wanted))) => planned@ == wanted && final(environment)@
                == after,
            (None, None) => final(environment)@ == old(environment)@,
            _ => false,
        },
{
    match statement {
        Statement::Block(_) | Statement::Conditional(_) | Statement::Const(_)
        | Statement::Iteration(_) => None,
        Statement::Definition(input) => match &input.place {
            DefinitionPlace::Multiple(_) => None,
            DefinitionPlace::Single(identifier) => {
                let uses = collect_expression_uses(&input.value, environment);
                match environment.define_current(identifier.name) {
                    None => None,
                    Some(state) => Some(
                        PlannedStatement {
                            statement: statement.share(),
                            uses,
                            defines: one_value(state.value),
                            kind: PlannedStatementKind::Ordinary,
                        },
                    ),
                }
            },
        },
        Statement::Assign(input) => match &input.place {
            Expression::Path(path) => {
                let mut uses = collect_expression_uses(&input.value, environment);
                match path.try_local_symbol() {
                    None => Some(
                        PlannedStatement {
                            statement: statement.share(),
                            uses,
                            defines: values_new(),
                            kind: PlannedStatementKind::Ordinary,
                        },
                    ),
                    Some(symbol) => match environment.resolve(symbol) {
                        None => None,
                        Some(state) => {
                            if state.id.scope != source_scope {
                                return None;
                            }
                            values_insert(&mut uses, state.value);
                            match environment.assign(symbol) {
                                None => None,
                                Some(after) => Some(
                                    PlannedStatement {
                                        statement: statement.share(),
                                        uses,
                                        defines: one_value(after.value),
                                        kind: PlannedStatementKind::DirectAssignment {
                                            binding: state.id,
                                        },
                                    },
                                ),
                            }
                        },
                    },
                }
            },
            _ => None,
        },
        Statement::Assert(_) | Statement::Expression(_) | Statement::Return(_) => Some(
            PlannedStatement {
                statement: statement.share(),
                uses: collect_statement_uses(statement, environment),
                defines: values_new(),
                kind: PlannedStatementKind::Ordinary,
            },
        ),
    }
}

fn plan_statements(
    statements: &List<Statement>,
    environment: &mut LexicalEnvironment,
    source_scope: NodeId,
    planned: &mut Vec<PlannedStatement>,
) -> (r: bool)
    requires
        can_plan_all(old(environment)@, *statements, source_scope),
    ensures
        match plan_all(old(environment)@, *statements, source_scope) {
            Some((after, more)) => r && final(environment)@ == after && planned_all(
                final(planned)@,
            ) == planned_all(old(planned)@) + more,
            None => !r,
        },
    decreases *statements,
{
    match statements {
        List::Nil => {
            assert(planned_all(planned@) =~= planned_all(old(planned)@) + Seq::<Planned>::empty());
            true
        },
        List::Cons(first, rest) => match plan_statement(first, environment, source_scope) {
            None => false,
            Some(step) => {
                let ghost wanted = step@;
                planned.push(step);
                let ghost pushed = planned@;
                assert(planned_all(pushed) =~= planned_all(old(planned)@).push(wanted));
                let ghost following = plan_all(environment@, copied(&**rest), source_scope);
                let done = plan_statements(rest, environment, source_scope, planned);
                proof {
                    if following is Some {
                        let more = (following->0).1;
                        assert(planned_all(pushed) + more =~= planned_all(old(planned)@) + (
                        seq![wanted] + more));
                    }
                }
                done
            },
        },
    }
}

/* Plans */

/// The local variable that carries the value of a branch to the join.
#[derive(Debug)]
pub struct JoinParameter {
    pub binding: BindingId,
    pub value: ValueId,
    pub type_: Type,
}

/// A join: the statements that depend on the parameter stand in each branch, the others once,
/// behind the branches.
#[verifier::ext_equal]
pub struct Join {
    pub parameter: JoinParameter,
    pub source_scope: NodeId,
    pub dependent_prefix: Seq<Planned>,
    pub shared_suffix: List<Statement>,
}

/// The join for a definition of `parameter` that `tail` follows. `None` if there is no scope or
/// some statement allows no join behind it.
pub open spec fn join_of(
    environment: Environment,
    parameter: Identifier,
    type_: Type,
    tail: List<Statement>,
) -> Option<Join> {
    match defined(environment, parameter.name) {
        (_, None) => None,
        (inside, Some(state)) => {
            let source_scope = environment.scopes.last().id;
            match plan_all(inside, tail, source_scope) {
                None => None,
                Some((_, planned)) => {
                    let count = first_closed(planned, seq![state.value], 0);
                    Some(
                        Join {
                            parameter: JoinParameter {
                                binding: state.id,
                                value: state.value,
                                type_,
                            },
                            source_scope,
                            dependent_prefix: planned.take(count as int),
                            shared_suffix: dropped(tail, count),
                        },
                    )
                },
            }
        },
    }
}

/// The environment after the join was planned: the parameter is defined, and the values that the
/// plan made are used up.
pub open spec fn after_join(
    environment: Environment,
    parameter: Identifier,
    tail: List<Statement>,
) -> Environment {
    let (inside, state) = defined(environment, parameter.name);
    if state is None {
        environment
    } else {
        match plan_all(inside, tail, environment.scopes.last().id) {
            None => inside,
            Some((last, _)) => Environment { next_value: last.next_value, ..inside },
        }
    }
}

/// Whether there are values left to plan the join.
pub open spec fn can_join(
    environment: Environment,
    parameter: Identifier,
    tail: List<Statement>,
) -> bool {
    &&& can_define(environment, parameter.name)
    &&& environment.scopes.len() > 0 ==> can_plan_all(
        defined(environment, parameter.name).0,
        tail,
        environment.scopes.last().id,
    )
}

proof fn lemma_plan_all(environment: Environment, statements: &List<Statement>, scope: NodeId)
    ensures
        plan_all(environment, *statements, scope) matches Some((_, planned)) ==> {
            &&& planned.len() == statements@.len()
            &&& forall|i: int|
                0 <= i < planned.len() ==> (#[trigger] planned[i]).statement == statements@[i]
        },
    decreases *statements,
{
    match statements {
        List::Nil => {},
        List::Cons(first, rest) => {
            if let Some((after, planned)) = plan_of(environment, *first, scope) {
                lemma_plan_all(after, rest, scope);
                assert(statements@ == seq![*first] + rest@);
            }
        },
    }
}

/// A join keeps every statement, in order. What stands behind the branches needs neither the
/// parameter nor anything made in front of it, and nothing more could stand there.
pub proof fn joins_split_the_tail(
    environment: Environment,
    parameter: Identifier,
    type_: Type,
    tail: &List<Statement>,
)
    ensures
        join_of(environment, parameter, type_, *tail) matches Some(join) ==> {
            let inside = defined(environment, parameter.name).0;
            let planned = (plan_all(inside, *tail, join.source_scope)->0).1;
            let count = join.dependent_prefix.len() as int;
            &&& count <= tail@.len()
            &&& join.dependent_prefix == planned.take(count)
            &&& join.shared_suffix@ == tail@.skip(count)
            &&& forall|i: int|
                0 <= i < count ==> (#[trigger] join.dependent_prefix[i]).statement == tail@[i]
            &&& is_closed(planned, seq![join.parameter.value], count)
            &&& forall|earlier: int|
                0 <= earlier < count ==> !(#[trigger] is_closed(
                    planned,
                    seq![join.parameter.value],
                    earlier,
                ))
        },
{
    if let Some(join) = join_of(environment, parameter, type_, *tail) {
        let inside = defined(environment, parameter.name).0;
        let planned = (plan_all(inside, *tail, join.source_scope)->0).1;
        let count = first_closed(planned, seq![join.parameter.value], 0);
        lemma_plan_all(inside, tail, join.source_scope);
        cuts_are_minimal(planned, seq![join.parameter.value]);
        lemma_taken_dropped(tail, count);
    }
}

/// Why an arm does not fit a join.
#[derive(Clone, Copy, Debug, PartialEq, Eq, Structural)]
pub enum ArmMismatch {
    /// It binds another variable than the parameter.
    Parameter,
    /// Its value is not of the parameter's type.
    Type,
}

/// A plan of a join.
#[derive(Debug)]
pub struct JoinPlan {
    parameter: JoinParameter,
    source_scope: NodeId,
    dependent_prefix: Vec<PlannedStatement>,
    shared_suffix: List<Statement>,
}

impl View for JoinPlan {
    type V = Join;

    closed spec fn view(&self) -> Join {
        Join {
            parameter: self.parameter,
            source_scope: self.source_scope,
            dependent_prefix: planned_all(self.dependent_prefix@),
            shared_suffix: self.shared_suffix,
        }
    }
}

/// What a statement of the dependent prefix becomes in a branch. A variable that is assigned gets
/// another one standing in for it from there on.
pub open spec fn version_step(renaming: Renaming, state: State, step: Planned) -> Result<
    (State, Renaming, Statement),
    Halt,
> {
    match step.kind {
        PlannedStatementKind::Ordinary => match rename_statement(renaming, state, step.statement) {
            Err(halt) => Err(halt),
            Ok((state, statement)) => Ok((state, renaming, statement)),
        },
        PlannedStatementKind::DirectAssignment { binding } => match step.statement {
            Statement::Assign(input) => match input.place {
                Expression::Path(place) => match rename_expression(renaming, state, input.value) {
                    Err(halt) => Err(halt),
                    Ok((state, value)) => match type_of(state.types, place.id) {
                        None => Err(Halt::IllFormed),
                        Some(type_) => Ok(
                            version_assignment(renaming, state, binding, *place, value, type_),
                        ),
                    },
                },
                _ => Err(Halt::IllFormed),
            },
            _ => Err(Halt::IllFormed),
        },
    }
}

/// `let <place>$join<number> = value;`, and the renaming in which that stands in for `binding`.
pub open spec fn version_assignment(
    renaming: Renaming,
    state: State,
    binding: BindingId,
    place: Path,
    value: Expression,
    type_: Type,
) -> (State, Renaming, Statement) {
    let (state, name) = with_unique(
        state,
        text_of(state.names, place.identifier.name),
        "$join"@,
    );
    let identifier = Identifier { name, span: place.identifier.span, id: state.next_id };
    let state = with_typed_id(state, type_);
    let statement = simple_definition(identifier, value, state.next_id);
    let replacement = Replacement { identifier, type_ };
    let renaming = Renaming {
        replacements: renaming.replacements.insert(
            (binding.scope, binding.symbol.index),
            replacement,
        ),
        ..renaming
    };
    (with_id(state), renaming, statement)
}

/// What the dependent prefix becomes in a branch.
pub open spec fn version_steps(renaming: Renaming, state: State, steps: Seq<Planned>) -> Result<
    (State, Renaming, Seq<Statement>),
    Halt,
>
    decreases steps.len(),
{
    if steps.len() == 0 {
        Ok((state, renaming, Seq::empty()))
    } else {
        match version_steps(renaming, state, steps.drop_last()) {
            Err(halt) => Err(halt),
            Ok((state, renaming, done)) => match version_step(renaming, state, steps.last()) {
                Err(halt) => Err(halt),
                Ok((state, renaming, statement)) => Ok((state, renaming, done.push(statement))),
            },
        }
    }
}

/// Whether a plan marks the assignment of a local variable, if `step` is one.
spec fn is_marked(step: Planned) -> bool {
    assigned_variable(step.statement) is Some ==> step.kind is DirectAssignment
}

proof fn lemma_marked(environment: Environment, statements: &List<Statement>, scope: NodeId)
    ensures
        plan_all(environment, *statements, scope) matches Some((_, planned)) ==> forall|i: int|
            0 <= i < planned.len() ==> is_marked(#[trigger] planned[i]),
    decreases *statements,
{
    match statements {
        List::Nil => {},
        List::Cons(first, rest) => {
            if let Some((after, planned)) = plan_of(environment, *first, scope) {
                assert(is_marked(planned));
                lemma_marked(after, rest, scope);
            }
        },
    }
}

proof fn lemma_version_step(renaming: Renaming, state: State, step: Planned)
    requires
        version_step(renaming, state, step) is Ok,
        is_marked(step),
    ensures
        assigned_variable(version_step(renaming, state, step)->Ok_0.2) is None,
        step.kind is DirectAssignment ==> version_step(
            renaming,
            state,
            step,
        )->Ok_0.2 is Definition,
{
    reveal(rename_statement);
    reveal(rename_expression);
}

proof fn lemma_version_steps(renaming: Renaming, state: State, steps: Seq<Planned>)
    requires
        version_steps(renaming, state, steps) is Ok,
        forall|i: int| 0 <= i < steps.len() ==> is_marked(#[trigger] steps[i]),
    ensures
        ({
            let versions = version_steps(renaming, state, steps)->Ok_0.2;
            &&& versions.len() == steps.len()
            &&& forall|i: int|
                0 <= i < steps.len() ==> assigned_variable(#[trigger] versions[i]) is None
            &&& forall|i: int|
                0 <= i < steps.len() && (#[trigger] steps[i]).kind is DirectAssignment
                    ==> versions[i] is Definition
        }),
    decreases steps.len(),
{
    if steps.len() > 0 {
        let earlier = steps.drop_last();
        assert forall|i: int| 0 <= i < earlier.len() implies is_marked(#[trigger] earlier[i]) by {
            assert(earlier[i] == steps[i]);
        }
        lemma_version_steps(renaming, state, earlier);
        let (after, renamed, done) = version_steps(renaming, state, earlier)->Ok_0;
        assert(is_marked(steps[steps.len() - 1]));
        lemma_version_step(renamed, after, steps.last());
        let versions = version_steps(renaming, state, steps)->Ok_0.2;
        assert(versions.drop_last() =~= done);
        assert forall|i: int|
            0 <= i < steps.len() && (#[trigger] steps[i]).kind is DirectAssignment implies
            versions[i] is Definition by {
            if i < earlier.len() {
                assert(earlier[i] == steps[i]);
                assert(versions[i] == done[i]);
            }
        }
        assert forall|i: int| 0 <= i < steps.len() implies assigned_variable(
            #[trigger] versions[i],
        ) is None by {
            if i < earlier.len() {
                assert(versions[i] == done[i]);
            }
        }
    }
}

/// What the prefix becomes in a branch is as long as the prefix and assigns no local variable:
/// where the prefix does, a new variable is defined.
pub proof fn versions_assign_nothing(
    environment: Environment,
    parameter: Identifier,
    type_: Type,
    tail: &List<Statement>,
    renaming: Renaming,
    state: State,
)
    requires
        join_of(environment, parameter, type_, *tail) is Some,
        version_steps(
            renaming,
            state,
            join_of(environment, parameter, type_, *tail)->0.dependent_prefix,
        ) is Ok,
    ensures
        ({
            let prefix = join_of(environment, parameter, type_, *tail)->0.dependent_prefix;
            let versions = version_steps(renaming, state, prefix)->Ok_0.2;
            &&& versions.len() == prefix.len()
            &&& forall|i: int|
                0 <= i < versions.len() ==> assigned_variable(#[trigger] versions[i]) is None
            &&& forall|i: int|
                0 <= i < prefix.len() && assigned_variable((#[trigger] prefix[i]).statement) is Some
                    ==> versions[i] is Definition
        }),
{
    let inside = defined(environment, parameter.name).0;
    let join = join_of(environment, parameter, type_, *tail)->0;
    let planned = (plan_all(inside, *tail, join.source_scope)->0).1;
    lemma_plan_all(inside, tail, join.source_scope);
    cuts_are_minimal(planned, seq![join.parameter.value]);
    lemma_marked(inside, tail, join.source_scope);
    assert forall|i: int| 0 <= i < join.dependent_prefix.len() implies is_marked(
        #[trigger] join.dependent_prefix[i],
    ) by {
        assert(join.dependent_prefix[i] == planned[i]);
    }
    lemma_version_steps(renaming, state, join.dependent_prefix);
}

impl JoinPlan {
    /// Plans the join for a definition of `parameter` that `tail` follows.
    pub fn build(
        environment: &mut LexicalEnvironment,
        parameter: Identifier,
        parameter_type: Type,
        tail: &List<Statement>,
    ) -> (r: Option<JoinPlan>)
        requires
            can_join(old(environment)@, parameter, *tail),
        ensures
            match (r, join_of(old(environment)@, parameter, parameter_type, *tail)) {
                (Some(plan), Some(join)) => plan@ == join,
                (None, None) => true,
                _ => false,
            },
            final(environment)@ == after_join(old(environment)@, parameter, *tail),
    {
        let source_scope: NodeId = match environment.current_scope_id() {
            Some(id) => id,
            None => {
                return None;
            },
        };
        let state = match environment.define_current(parameter.name) {
            Some(state) => state,
            None => {
                return None;
            },
        };
        let mut analysis = environment.copy();
        let mut statements: Vec<PlannedStatement> = Vec::new();
        assert(planned_all(statements@) =~= Seq::<Planned>::empty());
        let ghost empty = planned_all(statements@);
        if !plan_statements(tail, &mut analysis, source_scope, &mut statements) {
            return None;
        }
        environment.take_values(&analysis);
        let ghost planned = planned_all(statements@);
        let mut parameters: Vec<ValueId> = Vec::new();
        parameters.push(state.value);
        proof {
            let inside = defined(old(environment)@, parameter.name).0;
            let wanted = (plan_all(inside, *tail, source_scope)->0).1;
            assert(empty + wanted =~= wanted);
            assert(planned == wanted);
            assert(planned.len() == statements.len());
            assert(parameters@ =~= seq![state.value]);
            cuts_are_minimal(planned, parameters@);
        }
        let count: usize = match dependent_cut(&statements, &parameters) {
            Some(index) => index + 1,
            None => 0,
        };
        statements.truncate(count);
        assert(planned_all(statements@) =~= planned.take(count as int));
        Some(
            JoinPlan {
                parameter: JoinParameter {
                    binding: state.id,
                    value: state.value,
                    type_: parameter_type,
                },
                source_scope,
                dependent_prefix: statements,
                shared_suffix: tail.skip(count),
            },
        )
    }

    /// Whether an arm that binds `parameter_symbol` to a value of type `actual` fits the join.
    pub fn validate_arm(&self, parameter_symbol: Symbol, actual: &Type) -> (r: Result<
        (),
        ArmMismatch,
    >)
        ensures
            r == (if self@.parameter.binding.symbol != parameter_symbol {
                Err(ArmMismatch::Parameter)
            } else if self@.parameter.type_ != *actual {
                Err(ArmMismatch::Type)
            } else {
                Ok(())
            }),
    {
        if self.parameter.binding.symbol != parameter_symbol {
            Err(ArmMismatch::Parameter)
        } else if !same_type(&self.parameter.type_, actual) {
            Err(ArmMismatch::Type)
        } else {
            Ok(())
        }
    }

    /// The statements that stand once, behind the branches.
    pub fn shared_suffix(&self) -> (r: &List<Statement>)
        ensures
            *r == self@.shared_suffix,
    {
        &self.shared_suffix
    }

    /// Whether `predicate` holds of a statement of the dependent prefix.
    pub fn has_branching_prefix<F: Fn(&Statement) -> bool>(&self, predicate: F) -> (r: bool)
        requires
            forall|i: int|
                0 <= i < self@.dependent_prefix.len() ==> call_requires(
                    predicate,
                    (&(#[trigger] self@.dependent_prefix[i]).statement,),
                ),
        ensures
            r ==> exists|i: int|
                0 <= i < self@.dependent_prefix.len() && call_ensures(
                    predicate,
                    (&(#[trigger] self@.dependent_prefix[i]).statement,),
                    true,
                ),
            !r ==> forall|i: int|
                0 <= i < self@.dependent_prefix.len() ==> call_ensures(
                    predicate,
                    (&(#[trigger] self@.dependent_prefix[i]).statement,),
                    false,
                ),
    {
        let ghost prefix = self@.dependent_prefix;
        let mut i: usize = 0;
        while i < self.dependent_prefix.len()
            invariant
                prefix == self@.dependent_prefix,
                prefix.len() == self.dependent_prefix.len(),
                0 <= i <= self.dependent_prefix.len(),
                forall|j: int|
                    0 <= j < prefix.len() ==> call_requires(
                        predicate,
                        (&(#[trigger] prefix[j]).statement,),
                    ),
                forall|j: int|
                    0 <= j < i ==> call_ensures(
                        predicate,
                        (&(#[trigger] prefix[j]).statement,),
                        false,
                    ),
            decreases self.dependent_prefix.len() - i,
        {
            assert(prefix[i as int] == self.dependent_prefix@[i as int]@);
            if predicate(&self.dependent_prefix[i].statement) {
                return true;
            }
            i = i + 1;
        }
        false
    }

    /// The dependent prefix for one branch: variables that it assigns become variables of the
    /// branch.
    pub fn versioned_prefix(&self, state: &mut CompilerState) -> (r: Result<Vec<Statement>, Halt>)
        ensures
            match (
                r,
                version_steps(
                    Renaming { scope: self@.source_scope, replacements: Map::empty() },
                    old(state)@,
                    self@.dependent_prefix,
                ),
            ) {
                (Ok(statements), Ok((after, _, wanted))) => statements@ == wanted && final(state)@
                    == after,
                (Err(halt), Err(wanted)) => halt == wanted,
                _ => false,
            },
            final(state).symbol_table == old(state).symbol_table,
    {
        let mut versioner = JoinPrefixVersioner::new(self.source_scope);
        let ghost start = versioner.renaming();
        let mut statements: Vec<Statement> = Vec::new();
        let ghost steps = self@.dependent_prefix;
        let mut i: usize = 0;
        assert(steps.take(0) =~= Seq::<Planned>::empty());
        while i < self.dependent_prefix.len()
            invariant
                steps == self@.dependent_prefix,
                steps.len() == self.dependent_prefix.len(),
                start == (Renaming { scope: self@.source_scope, replacements: Map::empty() }),
                0 <= i <= steps.len(),
                state.symbol_table == old(state).symbol_table,
                version_steps(start, old(state)@, steps.take(i as int)) == Ok::<
                    (State, Renaming, Seq<Statement>),
                    Halt,
                >((state@, versioner.renaming(), statements@)),
            decreases steps.len() - i,
        {
            proof {
                assert(steps.take(i + 1).drop_last() =~= steps.take(i as int));
                assert(steps.take(i + 1).last() == self.dependent_prefix@[i as int]@);
            }
            let ghost before = statements@;
            match version_one(&mut versioner, state, &self.dependent_prefix[i]) {
                Ok(statement) => {
                    statements.push(statement);
                },
                Err(halt) => {
                    proof {
                        lemma_version_fails(start, old(state)@, steps, (i + 1) as nat);
                        assert(steps.take(steps.len() as int) =~= steps);
                    }
                    return Err(halt);
                },
            }
            i = i + 1;
        }
        assert(steps.take(i as int) =~= steps);
        Ok(statements)
    }
}

/// A failure in the first `count` steps is a failure of all.
proof fn lemma_version_fails(renaming: Renaming, state: State, steps: Seq<Planned>, count: nat)
    requires
        count <= steps.len(),
        version_steps(renaming, state, steps.take(count as int)) is Err,
    ensures
        version_steps(renaming, state, steps) == version_steps(
            renaming,
            state,
            steps.take(count as int),
        ),
    decreases steps.len() - count,
{
    if count == steps.len() {
        assert(steps.take(count as int) =~= steps);
    } else {
        assert(steps.take((count + 1) as int).drop_last() =~= steps.take(count as int));
        lemma_version_fails(renaming, state, steps, count + 1);
    }
}

fn version_one(
    versioner: &mut JoinPrefixVersioner,
    state: &mut CompilerState,
    step: &PlannedStatement,
) -> (r: Result<Statement, Halt>)
    ensures
        match (r, version_step(old(versioner).renaming(), old(state)@, step@)) {
            (Ok(statement), Ok((after, renaming, wanted))) => statement == wanted && final(state)@
                == after && final(versioner).renaming() == renaming,
            (Err(halt), Err(wanted)) => halt == wanted,
            _ => false,
        },
        final(state).symbol_table == old(state).symbol_table,
{
    match step.kind {
        PlannedStatementKind::Ordinary => versioner.rename_statement(state, &step.statement),
        PlannedStatementKind::DirectAssignment { binding } => match &step.statement {
            Statement::Assign(input) => match &input.place {
                Expression::Path(place) => {
                    let value = versioner.rename_expression(state, &input.value)?;
                    match state.get_type(place.id) {
                        None => Err(Halt::IllFormed),
                        Some(type_) => {
                            let name = state.unique_symbol_of(place.identifier.name, "$join");
                            let id: NodeId = state.take_typed_id(type_.share());
                            let identifier = Identifier { name, span: place.identifier.span, id };
                            let id: NodeId = state.take_id();
                            let statement = state.simple_definition(identifier, value, id);
                            versioner.bind(binding, identifier, type_);
                            Ok(statement)
                        },
                    }
                },
                _ => Err(Halt::IllFormed),
            },
            _ => Err(Halt::IllFormed),
        },
    }
}

} // verus!
