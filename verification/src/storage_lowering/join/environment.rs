//! Local variables: which binding a name stands for, and which value the binding holds.
use crate::ast::{DefinitionPlace, Expression, Identifier, NodeId, Statement, Symbol};
use crate::collections::{
    bindings_clone, bindings_get, bindings_in, bindings_insert, bindings_new, BindingTable,
};
use crate::list::List;
use indexmap::IndexMap;
use vstd::prelude::*;

verus! {

/// A value that a local variable holds. Every definition and every assignment makes a new one.
pub type ValueId = u32;

/// A local variable: its name and the scope that defines it.
#[derive(Clone, Copy, Debug, PartialEq, Eq, Structural)]
pub struct BindingId {
    pub scope: NodeId,
    pub symbol: Symbol,
}

/// A local variable and the value that it holds.
#[derive(Clone, Copy, Debug, PartialEq, Eq, Structural)]
pub struct BindingState {
    pub id: BindingId,
    pub value: ValueId,
}

/// What the local variables of a scope hold.
#[verifier::ext_equal]
pub struct Scope {
    pub id: NodeId,
    pub bindings: BindingTable,
}

/// The scopes that are open, outermost first, and the value that is made next.
#[verifier::ext_equal]
pub struct Environment {
    pub scopes: Seq<Scope>,
    pub next_value: ValueId,
}

/// The binding that `symbol` stands for: the one in the innermost scope that has one.
pub open spec fn resolved(scopes: Seq<Scope>, symbol: Symbol) -> Option<BindingState>
    decreases scopes.len(),
{
    if scopes.len() == 0 {
        None
    } else if scopes.last().bindings.contains_key(symbol.index) {
        Some(scopes.last().bindings[symbol.index])
    } else {
        resolved(scopes.drop_last(), symbol)
    }
}

/// `environment` in a new scope.
pub open spec fn entered(environment: Environment, id: NodeId) -> Environment {
    Environment {
        scopes: environment.scopes.push(Scope { id, bindings: BindingTable::empty() }),
        ..environment
    }
}

/// `environment` outside its innermost scope.
pub open spec fn exited(environment: Environment) -> Environment {
    Environment { scopes: environment.scopes.drop_last(), ..environment }
}

/// Whether defining `symbol` makes a value: there is a scope, and it has no such binding yet.
pub open spec fn defines_anew(environment: Environment, symbol: Symbol) -> bool {
    environment.scopes.len() > 0 && !environment.scopes.last().bindings.contains_key(symbol.index)
}

/// Whether there is a value left for a definition of `symbol`.
pub open spec fn can_define(environment: Environment, symbol: Symbol) -> bool {
    defines_anew(environment, symbol) ==> environment.next_value < u32::MAX
}

/// Defines `symbol` in the innermost scope. A definition that stands there already is the same
/// binding, with the value that it has.
pub open spec fn defined(environment: Environment, symbol: Symbol) -> (
    Environment,
    Option<BindingState>,
) {
    if environment.scopes.len() == 0 {
        (environment, None)
    } else if !defines_anew(environment, symbol) {
        (environment, Some(environment.scopes.last().bindings[symbol.index]))
    } else {
        let scope = environment.scopes.last();
        let state = BindingState {
            id: BindingId { scope: scope.id, symbol },
            value: environment.next_value,
        };
        let scope = Scope { bindings: scope.bindings.insert(symbol.index, state), ..scope };
        (
            Environment {
                scopes: environment.scopes.update(environment.scopes.len() - 1, scope),
                next_value: (environment.next_value + 1) as u32,
            },
            Some(state),
        )
    }
}

/// Whether there is a value left for an assignment to `symbol`.
pub open spec fn can_assign(environment: Environment, symbol: Symbol) -> bool {
    resolved(environment.scopes, symbol) is Some ==> environment.next_value < u32::MAX
}

/// The scopes after the binding that `symbol` stands for got the value `value`.
pub open spec fn assigned_scopes(scopes: Seq<Scope>, symbol: Symbol, value: ValueId) -> Seq<Scope>
    decreases scopes.len(),
{
    if scopes.len() == 0 {
        scopes
    } else if scopes.last().bindings.contains_key(symbol.index) {
        let scope = scopes.last();
        let state = BindingState { value, ..scope.bindings[symbol.index] };
        scopes.update(
            scopes.len() - 1,
            Scope { bindings: scope.bindings.insert(symbol.index, state), ..scope },
        )
    } else {
        assigned_scopes(scopes.drop_last(), symbol, value).push(scopes.last())
    }
}

/// Assigns to `symbol`: the binding that it stands for gets a new value.
pub open spec fn assigned(environment: Environment, symbol: Symbol) -> (
    Environment,
    Option<BindingState>,
) {
    match resolved(environment.scopes, symbol) {
        None => (environment, None),
        Some(state) => (
            Environment {
                scopes: assigned_scopes(environment.scopes, symbol, environment.next_value),
                next_value: (environment.next_value + 1) as u32,
            },
            Some(BindingState { value: environment.next_value, ..state }),
        ),
    }
}

/// Whether there are values left to define all of `identifiers`.
pub open spec fn can_define_all(environment: Environment, identifiers: List<Identifier>) -> bool
    decreases identifiers,
{
    match identifiers {
        List::Nil => true,
        List::Cons(first, rest) => {
            &&& can_define(environment, first.name)
            &&& can_define_all(defined(environment, first.name).0, *rest)
        },
    }
}

/// Defines all of `identifiers`, in order.
pub open spec fn defined_all(
    environment: Environment,
    identifiers: List<Identifier>,
) -> Environment
    decreases identifiers,
{
    match identifiers {
        List::Nil => environment,
        List::Cons(first, rest) => defined_all(defined(environment, first.name).0, *rest),
    }
}

/// The local variable that a statement assigns to as a whole.
pub open spec fn assigned_variable(statement: Statement) -> Option<Symbol> {
    match statement {
        Statement::Assign(input) => match input.place {
            Expression::Path(path) => path.spec_try_local_symbol(),
            _ => None,
        },
        _ => None,
    }
}

/// Whether there are values left for what `statement` defines or assigns.
pub open spec fn can_observe(environment: Environment, statement: Statement) -> bool {
    match statement {
        Statement::Definition(input) => match input.place {
            DefinitionPlace::Single(identifier) => can_define(environment, identifier.name),
            DefinitionPlace::Multiple(identifiers) => can_define_all(environment, identifiers),
        },
        _ => match assigned_variable(statement) {
            Some(symbol) => can_assign(environment, symbol),
            None => true,
        },
    }
}

/// `environment` after `statement`.
pub open spec fn observed(environment: Environment, statement: Statement) -> Environment {
    match statement {
        Statement::Definition(input) => match input.place {
            DefinitionPlace::Single(identifier) => defined(environment, identifier.name).0,
            DefinitionPlace::Multiple(identifiers) => defined_all(environment, identifiers),
        },
        _ => match assigned_variable(statement) {
            Some(symbol) => assigned(environment, symbol).0,
            None => environment,
        },
    }
}

#[derive(Debug)]
pub struct LexicalScope {
    id: NodeId,
    bindings: IndexMap<usize, BindingState>,
}

impl View for LexicalScope {
    type V = Scope;

    closed spec fn view(&self) -> Scope {
        Scope { id: self.id, bindings: bindings_in(self.bindings) }
    }
}

/// The scopes that are open and what their local variables hold.
#[derive(Debug)]
pub struct LexicalEnvironment {
    scopes: Vec<LexicalScope>,
    next_value: ValueId,
}

impl View for LexicalEnvironment {
    type V = Environment;

    closed spec fn view(&self) -> Environment {
        Environment {
            scopes: self.scopes@.map_values(|scope: LexicalScope| scope@),
            next_value: self.next_value,
        }
    }
}

impl Default for LexicalEnvironment {
    /// No scope, and no value made yet.
    fn default() -> (r: LexicalEnvironment)
        ensures
            r@ == (Environment { scopes: Seq::empty(), next_value: 0 }),
    {
        let environment = LexicalEnvironment { scopes: Vec::new(), next_value: 0 };
        assert(environment@.scopes =~= Seq::<Scope>::empty());
        environment
    }
}

impl LexicalEnvironment {
    /// A copy.
    pub fn copy(&self) -> (r: LexicalEnvironment)
        ensures
            r@ == self@,
    {
        let mut scopes: Vec<LexicalScope> = Vec::new();
        let mut i: usize = 0;
        while i < self.scopes.len()
            invariant
                0 <= i <= self.scopes.len(),
                scopes.len() == i,
                forall|j: int| 0 <= j < i ==> scopes@[j]@ == self.scopes@[j]@,
            decreases self.scopes.len() - i,
        {
            let scope = &self.scopes[i];
            scopes.push(LexicalScope { id: scope.id, bindings: bindings_clone(&scope.bindings) });
            i = i + 1;
        }
        let environment = LexicalEnvironment { scopes, next_value: self.next_value };
        assert(environment@.scopes =~= self@.scopes);
        environment
    }

    /// Opens the scope `id`.
    pub fn enter_scope(&mut self, id: NodeId)
        ensures
            final(self)@ == entered(old(self)@, id),
    {
        let scope = LexicalScope { id, bindings: bindings_new() };
        self.scopes.push(scope);
        assert(self@.scopes =~= entered(old(self)@, id).scopes);
    }

    /// Closes the scope `id`, which must be the innermost one.
    pub fn exit_scope(&mut self, id: NodeId)
        requires
            old(self)@.scopes.len() > 0,
            old(self)@.scopes.last().id == id,
        ensures
            final(self)@ == exited(old(self)@),
    {
        let _ = self.scopes.pop();
        assert(self@.scopes =~= exited(old(self)@).scopes);
    }

    /// The innermost scope.
    pub fn current_scope_id(&self) -> (r: Option<NodeId>)
        ensures
            r == (if self@.scopes.len() == 0 {
                None
            } else {
                Some(self@.scopes.last().id)
            }),
    {
        let count: usize = self.scopes.len();
        if count == 0 {
            None
        } else {
            assert(self@.scopes.last() == self.scopes@[count - 1]@);
            Some(self.scopes[count - 1].id)
        }
    }

    /// Defines `symbol` in the innermost scope, if there is one.
    pub fn define_current(&mut self, symbol: Symbol) -> (r: Option<BindingState>)
        requires
            can_define(old(self)@, symbol),
        ensures
            (final(self)@, r) == defined(old(self)@, symbol),
    {
        let count: usize = self.scopes.len();
        if count == 0 {
            return None;
        }
        assert(self@.scopes.last() == self.scopes@[count - 1]@);
        if let Some(state) = bindings_get(&self.scopes[count - 1].bindings, symbol.index) {
            return Some(state);
        }
        let id = BindingId { scope: self.scopes[count - 1].id, symbol };
        let state = BindingState { id, value: self.next_value };
        self.next_value = self.next_value + 1;
        bindings_insert(&mut self.scopes[count - 1].bindings, symbol.index, state);
        assert(self@.scopes =~= defined(old(self)@, symbol).0.scopes);
        Some(state)
    }

    fn define_all(&mut self, identifiers: &List<Identifier>)
        requires
            can_define_all(old(self)@, *identifiers),
        ensures
            final(self)@ == defined_all(old(self)@, *identifiers),
        decreases *identifiers,
    {
        match identifiers {
            List::Nil => {},
            List::Cons(first, rest) => {
                let _ = self.define_current(first.name);
                self.define_all(rest);
            },
        }
    }

    /// Assigns to `symbol`, if it stands for a binding.
    pub fn assign(&mut self, symbol: Symbol) -> (r: Option<BindingState>)
        requires
            can_assign(old(self)@, symbol),
        ensures
            (final(self)@, r) == assigned(old(self)@, symbol),
    {
        let ghost scopes = self@.scopes;
        let mut count: usize = self.scopes.len();
        assert(scopes.take(count as int) =~= scopes);
        while count > 0
            invariant
                *self == *old(self),
                scopes == self@.scopes,
                0 <= count <= self.scopes.len(),
                self.scopes.len() == scopes.len(),
                can_assign(old(self)@, symbol),
                resolved(scopes, symbol) == resolved(scopes.take(count as int), symbol),
                assigned_scopes(scopes, symbol, self.next_value) == assigned_scopes(
                    scopes.take(count as int),
                    symbol,
                    self.next_value,
                ) + scopes.skip(count as int),
            decreases count,
        {
            let ghost inner = scopes.take(count as int);
            proof {
                assert(inner.last() == self.scopes@[count - 1]@);
                assert(inner.drop_last() =~= scopes.take(count - 1));
            }
            if let Some(found) = bindings_get(&self.scopes[count - 1].bindings, symbol.index) {
                let state = BindingState { id: found.id, value: self.next_value };
                let ghost value = self.next_value;
                self.next_value = self.next_value + 1;
                bindings_insert(&mut self.scopes[count - 1].bindings, symbol.index, state);
                proof {
                    assert(self@.scopes =~= assigned_scopes(scopes, symbol, value));
                }
                return Some(state);
            }
            proof {
                assert(assigned_scopes(inner, symbol, self.next_value) + scopes.skip(count as int)
                    =~= assigned_scopes(scopes.take(count - 1), symbol, self.next_value)
                    + scopes.skip(count - 1));
            }
            count = count - 1;
        }
        None
    }

    /// The binding that `symbol` stands for.
    pub fn resolve(&self, symbol: Symbol) -> (r: Option<BindingState>)
        ensures
            r == resolved(self@.scopes, symbol),
    {
        let ghost scopes = self@.scopes;
        let mut count: usize = self.scopes.len();
        assert(scopes.take(count as int) =~= scopes);
        while count > 0
            invariant
                scopes == self@.scopes,
                0 <= count <= self.scopes.len(),
                self.scopes.len() == scopes.len(),
                resolved(scopes, symbol) == resolved(scopes.take(count as int), symbol),
            decreases count,
        {
            proof {
                let inner = scopes.take(count as int);
                assert(inner.last() == self.scopes@[count - 1]@);
                assert(inner.drop_last() =~= scopes.take(count - 1));
            }
            if let Some(found) = bindings_get(&self.scopes[count - 1].bindings, symbol.index) {
                return Some(found);
            }
            count = count - 1;
        }
        None
    }

    /// Takes note of what `statement` defines or assigns.
    pub fn observe_statement(&mut self, statement: &Statement)
        requires
            can_observe(old(self)@, *statement),
        ensures
            final(self)@ == observed(old(self)@, *statement),
    {
        match statement {
            Statement::Definition(input) => match &input.place {
                DefinitionPlace::Single(identifier) => {
                    let _ = self.define_current(identifier.name);
                },
                DefinitionPlace::Multiple(identifiers) => self.define_all(identifiers),
            },
            Statement::Assign(input) => if let Expression::Path(path) = &input.place {
                if let Some(symbol) = path.try_local_symbol() {
                    let _ = self.assign(symbol);
                }
            },
            _ => {},
        }
    }

    /// Takes over the values that `other` made.
    pub(crate) fn take_values(&mut self, other: &LexicalEnvironment)
        ensures
            final(self)@ == (Environment { next_value: other@.next_value, ..old(self)@ }),
    {
        self.next_value = other.next_value;
    }
}

/// Defining a name twice in a scope is defining it once: the second time gives the same binding
/// with the same value, and changes nothing.
pub proof fn definitions_can_be_replayed(environment: Environment, symbol: Symbol)
    requires
        can_define(environment, symbol),
    ensures
        ({
            let (after, binding) = defined(environment, symbol);
            defined(after, symbol) == (after, binding)
        }),
{
}

/// A name that is defined stands for the binding that its definition gave, and the binding knows
/// the scope that defines it.
pub proof fn definitions_resolve(environment: Environment, symbol: Symbol)
    requires
        environment.scopes.len() > 0,
        can_define(environment, symbol),
        defines_anew(environment, symbol),
    ensures
        ({
            let (after, binding) = defined(environment, symbol);
            &&& resolved(after.scopes, symbol) == binding
            &&& binding == Some(
                BindingState {
                    id: BindingId { scope: environment.scopes.last().id, symbol },
                    value: environment.next_value,
                },
            )
        }),
{
}

/// What is defined in a scope is gone when the scope is left; the values made there stay made.
pub proof fn scopes_nest(environment: Environment, id: NodeId, symbol: Symbol)
    requires
        environment.next_value < u32::MAX,
    ensures
        exited(entered(environment, id)) == environment,
        exited(defined(entered(environment, id), symbol).0) == (Environment {
            next_value: (environment.next_value + 1) as u32,
            ..environment
        }),
{
    assert(exited(entered(environment, id)).scopes =~= environment.scopes);
    assert(exited(defined(entered(environment, id), symbol).0).scopes =~= environment.scopes);
}

/// An assignment keeps the binding and gives it a value that it did not have before.
pub proof fn assignments_keep_bindings(environment: Environment, symbol: Symbol)
    requires
        can_assign(environment, symbol),
        resolved(environment.scopes, symbol) is Some,
    ensures
        ({
            let before = resolved(environment.scopes, symbol)->0;
            let (after, binding) = assigned(environment, symbol);
            &&& resolved(after.scopes, symbol) == binding
            &&& binding == Some(BindingState { id: before.id, value: environment.next_value })
        }),
{
    lemma_assigned_resolves(environment.scopes, symbol, environment.next_value);
}

proof fn lemma_assigned_resolves(scopes: Seq<Scope>, symbol: Symbol, value: ValueId)
    requires
        resolved(scopes, symbol) is Some,
    ensures
        resolved(assigned_scopes(scopes, symbol, value), symbol) == Some(
            BindingState { value, ..resolved(scopes, symbol)->0 },
        ),
    decreases scopes.len(),
{
    let after = assigned_scopes(scopes, symbol, value);
    if !scopes.last().bindings.contains_key(symbol.index) {
        lemma_assigned_resolves(scopes.drop_last(), symbol, value);
        assert(after.drop_last() =~= assigned_scopes(scopes.drop_last(), symbol, value));
    }
}

} // verus!
