//! The last steps of lowering operations on vectors, once their arguments have been lowered.
use crate::ast::{
    local_path, make_local_path, no_span, AssertStatement, AssertVariant, BinaryOperation,
    DefinitionPlace, DefinitionStatement, Expression, NodeId, Path, Span, Statement, Type,
};
use crate::list::{appended, one, two, List, Share};
use crate::purity::{can_be_discarded, expression_can_be_discarded};
use crate::state::{simple_definition, type_of, with_id, with_type, Halt, State};
use crate::storage_lowering::builders::{
    binary_expr, bind_value, expression_statement, fresh_identifier, generate_vector_mapping_exprs,
    get_mapping_expr, get_or_use_mapping_expr, get_vector_len_expr, literal_false,
    literal_none_optional, literal_one_u32, literal_zero_u32, set_mapping_expr, ternary_expr,
};
use crate::storage_lowering::visitor::{
    expression_type_for_materialization, ran, Context, Step, StorageLoweringVisitor,
};
use crate::storage_lowering::zero::zero;
use std::rc::Rc;
use vstd::prelude::*;

verus! {

/// What an expression is lowered to, and the statements that have to run before it.
pub type Lowered = (Expression, List<Statement>);

/// Binds `expression` to a name, unless it may as well be evaluated later: it is then left as it
/// is.
#[verifier::opaque]
pub open spec fn materialize_strict_prefix_expression(
    cx: Context,
    state: State,
    expression: Expression,
) -> Step<Lowered> {
    if can_be_discarded(state.types, expression) {
        Ok((state, (expression, List::Nil)))
    } else {
        match expression_type_for_materialization(cx, state.types, expression) {
            None => Err(Halt::IllFormed),
            Some(type_) => {
                let (state, (variable, definition)) = bind_value(
                    state,
                    "$eval"@,
                    expression,
                    type_,
                );
                Ok((state, (variable, one(definition))))
            },
        }
    }
}

/// The vector that `argument` stands for, with the type of its elements: it must be a path that is
/// known to be a vector.
pub open spec fn vector_argument(state: State, argument: Expression) -> Option<(Path, Type)> {
    match (argument, type_of(state.types, argument.spec_id())) {
        (Expression::Path(path), Some(Type::Vector(element))) => Some((*path, *element)),
        _ => None,
    }
}

/// The mappings behind a vector and its length, read once.
pub struct BoundVector {
    pub values: Expression,
    pub length: Expression,
    /// The variable that holds the length.
    pub len_var: Expression,
    /// `let $len_var = _mapping_get_or_use(length, false, 0u32);`
    pub len_stmt: Statement,
}

/// Reads the length of the vector `path`.
#[verifier::opaque]
pub open spec fn bind_vector(cx: Context, state: State, path: Path, span: Span) -> (
    State,
    BoundVector,
) {
    let (state, (values, length)) = generate_vector_mapping_exprs(cx, state, path);
    let (state, identifier) = fresh_identifier(state, "$len_var"@);
    let (state, read) = get_vector_len_expr(state, length, span);
    (
        with_id(state),
        BoundVector {
            values,
            length,
            len_var: local_path(identifier),
            len_stmt: simple_definition(identifier, read, state.next_id),
        },
    )
}

/// `Vector::push(path, value)`:
///
/// ```text
/// let $len_var = _mapping_get_or_use(<path>__len__, false, 0u32);
/// _mapping_set(<path>__len__, false, $len_var + 1u32);
/// _mapping_set(<path>__, $len_var, value)
/// ```
#[verifier::opaque]
pub open spec fn push_value(
    cx: Context,
    state: State,
    path: Path,
    value: Expression,
    span: Span,
) -> (State, Lowered) {
    let (state, vector) = bind_vector(cx, state, path, span);
    let (state, one_literal) = literal_one_u32(state);
    let (state, increment) = binary_expr(
        cx,
        state,
        vector.len_var,
        BinaryOperation::Add,
        one_literal,
    );
    let (state, set_value) = set_mapping_expr(state, vector.values, vector.len_var, value, span);
    let (state, key) = literal_false(state);
    let (state, set_len) = set_mapping_expr(state, vector.length, key, increment, span);
    let (state, set_len_stmt) = expression_statement(state, set_len, span);
    (state, (set_value, two(vector.len_stmt, set_len_stmt)))
}

/// `Vector::len(path)`: `_mapping_get_or_use(<path>__len__, false, 0u32)`
#[verifier::opaque]
pub open spec fn vector_len(cx: Context, state: State, path: Path, span: Span) -> (
    State,
    Lowered,
) {
    let (state, (_, length)) = generate_vector_mapping_exprs(cx, state, path);
    let (state, read) = get_vector_len_expr(state, length, span);
    (state, (read, List::Nil))
}

/// `Vector::pop(path)`:
///
/// ```text
/// let $len_var = _mapping_get_or_use(<path>__len__, false, 0u32);
/// _mapping_set(<path>__len__, false, $len_var > 0u32 ? $len_var - 1u32 : $len_var);
/// $len_var > 0u32 ? _mapping_get_or_use(<path>__, $len_var - 1u32, zero) : none
/// ```
#[verifier::opaque]
pub open spec fn pop_value(
    cx: Context,
    state: State,
    path: Path,
    element: Type,
    span: Span,
) -> Step<Lowered> {
    let (state, vector) = bind_vector(cx, state, path, span);
    let (state, zero_literal) = literal_zero_u32(state);
    let (state, is_filled) = binary_expr(
        cx,
        state,
        vector.len_var,
        BinaryOperation::Gt,
        zero_literal,
    );
    let (state, one_literal) = literal_one_u32(state);
    let (state, decrement) = binary_expr(
        cx,
        state,
        vector.len_var,
        BinaryOperation::SubWrapped,
        one_literal,
    );
    let (state, new_len) = ternary_expr(cx, state, is_filled, decrement, vector.len_var, span);
    let (state, key) = literal_false(state);
    let (state, set_len) = set_mapping_expr(state, vector.length, key, new_len, span);
    let (state, set_len_stmt) = expression_statement(state, set_len, span);
    match zero(cx, state, element) {
        Err(halt) => Err(halt),
        Ok((state, default)) => {
            let (state, get_or_use) = get_or_use_mapping_expr(
                cx,
                state,
                vector.values,
                decrement,
                default,
                span,
            );
            let (state, none) = literal_none_optional(state, element);
            let (state, popped) = ternary_expr(cx, state, is_filled, get_or_use, none, span);
            Ok((state, (popped, two(vector.len_stmt, set_len_stmt))))
        },
    }
}

/// `Vector::get(path, index)`:
///
/// ```text
/// let $len_var = _mapping_get_or_use(<path>__len__, false, 0u32);
/// index < $len_var ? _mapping_get_or_use(<path>__, index, zero) : none
/// ```
#[verifier::opaque]
pub open spec fn get_value(
    cx: Context,
    state: State,
    path: Path,
    element: Type,
    index: Expression,
    span: Span,
) -> Step<Lowered> {
    let (state, vector) = bind_vector(cx, state, path, span);
    let (state, in_bounds) = binary_expr(cx, state, index, BinaryOperation::Lt, vector.len_var);
    match zero(cx, state, element) {
        Err(halt) => Err(halt),
        Ok((state, default)) => {
            let (state, get_or_use) = get_or_use_mapping_expr(
                cx,
                state,
                vector.values,
                index,
                default,
                span,
            );
            let (state, none) = literal_none_optional(state, element);
            let (state, got) = ternary_expr(cx, state, in_bounds, get_or_use, none, span);
            Ok((state, (got, one(vector.len_stmt))))
        },
    }
}

/// `assert(condition);`
pub open spec fn assert_statement(state: State, condition: Expression, span: Span) -> (
    State,
    Statement,
) {
    (
        with_id(state),
        Statement::Assert(
            Rc::new(
                AssertStatement {
                    variant: AssertVariant::Assert(condition),
                    span,
                    id: state.next_id,
                },
            ),
        ),
    )
}

/// `Vector::set(path, index, value)`:
///
/// ```text
/// let $len_var = _mapping_get_or_use(<path>__len__, false, 0u32);
/// assert(index < $len_var);
/// _mapping_set(<path>__, index, value)
/// ```
#[verifier::opaque]
pub open spec fn set_value(
    cx: Context,
    state: State,
    path: Path,
    index: Expression,
    value: Expression,
    span: Span,
) -> (State, Lowered) {
    let (state, vector) = bind_vector(cx, state, path, span);
    let (state, in_bounds) = binary_expr(cx, state, index, BinaryOperation::Lt, vector.len_var);
    let (state, set) = set_mapping_expr(state, vector.values, index, value, span);
    let (state, assertion) = assert_statement(state, in_bounds, no_span());
    (state, (set, two(vector.len_stmt, assertion)))
}

/// `Vector::clear(path)`: `_mapping_set(<path>__len__, false, 0u32)`
#[verifier::opaque]
pub open spec fn clear_vector(cx: Context, state: State, path: Path, span: Span) -> (
    State,
    Lowered,
) {
    let (state, (_, length)) = generate_vector_mapping_exprs(cx, state, path);
    let (state, key) = literal_false(state);
    let (state, zero_literal) = literal_zero_u32(state);
    let (state, set) = set_mapping_expr(state, length, key, zero_literal, span);
    (state, (set, List::Nil))
}

/// `Vector::swap_remove(path, index)`:
///
/// ```text
/// let $len_var = _mapping_get_or_use(<path>__len__, false, 0u32);
/// assert(index < $len_var);
/// let $removed = _mapping_get(<path>__, index);
/// _mapping_set(<path>__, index, _mapping_get(<path>__, $len_var - 1u32));
/// _mapping_set(<path>__len__, false, $len_var - 1u32);
/// $removed
/// ```
#[verifier::opaque]
pub open spec fn swap_remove_value(
    cx: Context,
    state: State,
    path: Path,
    index: Expression,
    span: Span,
) -> (State, Lowered) {
    let (state, vector) = bind_vector(cx, state, path, span);
    let (state, in_bounds) = binary_expr(cx, state, index, BinaryOperation::Lt, vector.len_var);
    let (state, assertion) = assert_statement(state, in_bounds, span);
    let (state, get) = get_mapping_expr(cx, state, vector.values, index, span);
    let (state, removed) = fresh_identifier(state, "$removed"@);
    let removed_stmt = Statement::Definition(
        Rc::new(
            DefinitionStatement {
                place: DefinitionPlace::Single(removed),
                type_: None,
                value: get,
                span,
                id: state.next_id,
            },
        ),
    );
    let state = with_id(state);
    let (state, one_literal) = literal_one_u32(state);
    let (state, decrement) = binary_expr(
        cx,
        state,
        vector.len_var,
        BinaryOperation::Sub,
        one_literal,
    );
    let (state, get_last) = get_mapping_expr(cx, state, vector.values, decrement, span);
    let (state, set_swap) = set_mapping_expr(state, vector.values, index, get_last, span);
    let (state, set_swap_stmt) = expression_statement(state, set_swap, span);
    let (state, key) = literal_false(state);
    let (state, set_len) = set_mapping_expr(state, vector.length, key, decrement, span);
    let (state, set_len_stmt) = expression_statement(state, set_len, span);
    (
        state,
        (
            local_path(removed),
            appended(
                two(vector.len_stmt, assertion),
                List::Cons(removed_stmt, Rc::new(two(set_swap_stmt, set_len_stmt))),
            ),
        ),
    )
}

/* Operands */

/// How an operand that has to be evaluated exactly once is lowered: its type, which must be known,
/// and whether it has to be bound to a name.
pub open spec fn once_plan(state: State, argument: Expression) -> Result<(Type, bool), Halt> {
    match type_of(state.types, argument.spec_id()) {
        None => Err(Halt::IllFormed),
        Some(type_) => Ok((type_, !can_be_discarded(state.types, argument))),
    }
}

/// `lowered`, known to have the type that `plan` says, and bound to a name that starts with `stem`
/// if `plan` says so.
#[verifier::opaque]
pub open spec fn bind_once(
    state: State,
    plan: (Type, bool),
    lowered: Lowered,
    stem: Seq<char>,
) -> (State, Lowered) {
    let (value, statements) = lowered;
    let state = with_type(state, value.spec_id(), plan.0);
    if plan.1 {
        let (state, (variable, definition)) = bind_value(state, stem, value, plan.0);
        (state, (variable, appended(statements, one(definition))))
    } else {
        (state, (value, statements))
    }
}

/// The operand `argument` of an operation that started in `before`, once it was lowered to
/// `lowered`.
#[verifier::opaque]
pub open spec fn finish_once(
    before: State,
    argument: Expression,
    stem: Seq<char>,
    lowered: Step<Lowered>,
) -> Step<Lowered> {
    match once_plan(before, argument) {
        Err(halt) => Err(halt),
        Ok(plan) => match lowered {
            Err(halt) => Err(halt),
            Ok((state, lowered)) => Ok(bind_once(state, plan, lowered, stem)),
        },
    }
}

/// An operand that was lowered to `lowered`, bound to a name unless it may as well be evaluated
/// later.
#[verifier::opaque]
pub open spec fn finish_strict(cx: Context, lowered: Step<Lowered>) -> Step<Lowered> {
    match lowered {
        Err(halt) => Err(halt),
        Ok((state, (value, statements))) => match materialize_strict_prefix_expression(
            cx,
            state,
            value,
        ) {
            Err(halt) => Err(halt),
            Ok((state, (value, more))) => Ok((state, (value, appended(statements, more)))),
        },
    }
}

/// `Vector::push(vector, value)` in `before`, once `value` was lowered to `lowered`.
#[verifier::opaque]
pub open spec fn finish_push(
    cx: Context,
    before: State,
    vector: Expression,
    value: Expression,
    lowered: Step<Lowered>,
    span: Span,
) -> Step<Lowered> {
    match vector_argument(before, vector) {
        None => Err(Halt::IllFormed),
        Some((path, _)) => match finish_once(before, value, "$push_value"@, lowered) {
            Err(halt) => Err(halt),
            Ok((state, (value, statements))) => {
                let (state, (pushed, more)) = push_value(cx, state, path, value, span);
                Ok((state, (pushed, appended(statements, more))))
            },
        },
    }
}

/// `Vector::get(vector, index)` in `before`, once `index` was lowered to `lowered`.
#[verifier::opaque]
pub open spec fn finish_get(
    cx: Context,
    before: State,
    vector: Expression,
    index: Expression,
    lowered: Step<Lowered>,
    span: Span,
) -> Step<Lowered> {
    match vector_argument(before, vector) {
        None => Err(Halt::IllFormed),
        Some((path, element)) => match finish_once(before, index, "$index"@, lowered) {
            Err(halt) => Err(halt),
            Ok((state, (index, statements))) => match get_value(
                cx,
                state,
                path,
                element,
                index,
                span,
            ) {
                Err(halt) => Err(halt),
                Ok((state, (got, more))) => Ok((state, (got, appended(statements, more)))),
            },
        },
    }
}

/// `Vector::set(vector, index, value)` in `before`, once the index and then the value were
/// lowered.
#[verifier::opaque]
pub open spec fn finish_set(
    cx: Context,
    before: State,
    vector: Expression,
    index: Lowered,
    value: Step<Lowered>,
    span: Span,
) -> Step<Lowered> {
    match vector_argument(before, vector) {
        None => Err(Halt::IllFormed),
        Some((path, _)) => match value {
            Err(halt) => Err(halt),
            Ok((state, (value, statements))) => {
                let (state, (set, more)) = set_value(cx, state, path, index.0, value, span);
                Ok((state, (set, appended(appended(index.1, statements), more))))
            },
        },
    }
}

/// `Vector::swap_remove(vector, index)` in `before`, once the index was lowered.
#[verifier::opaque]
pub open spec fn finish_swap_remove(
    cx: Context,
    before: State,
    vector: Expression,
    index: Step<Lowered>,
    span: Span,
) -> Step<Lowered> {
    match vector_argument(before, vector) {
        None => Err(Halt::IllFormed),
        Some((path, _)) => match index {
            Err(halt) => Err(halt),
            Ok((state, (index, statements))) => {
                let (state, (removed, more)) = swap_remove_value(cx, state, path, index, span);
                Ok((state, (removed, appended(statements, more))))
            },
        },
    }
}

fn find_vector(type_: Option<Type>, argument: &Expression) -> (r: Option<(Rc<Path>, Type)>)
    ensures
        match (r, argument, type_) {
            (Some((path, element)), Expression::Path(wanted), Some(Type::Vector(inner))) => path
                == wanted && element == *inner,
            (None, Expression::Path(_), Some(Type::Vector(_))) => false,
            (result, _, _) => result is None,
        },
{
    match (argument, type_) {
        (Expression::Path(path), Some(Type::Vector(element))) => Some(
            (path.clone(), element.share()),
        ),
        _ => None,
    }
}

impl StorageLoweringVisitor {
    /// How an operand that has to be evaluated exactly once is lowered.
    pub(crate) fn plan_once(&self, argument: &Expression) -> (r: Result<(Type, bool), Halt>)
        ensures
            r == once_plan(self.st(), *argument),
    {
        match self.state.get_type(argument.id()) {
            None => Err(Halt::IllFormed),
            Some(type_) => Ok((type_, !expression_can_be_discarded(argument, &self.state))),
        }
    }

    pub(crate) fn bind_once(&mut self, plan: (Type, bool), lowered: Lowered, stem: &str) -> (r:
        Lowered)
        ensures
            (final(self).st(), r) == bind_once(old(self).st(), plan, lowered, stem@),
            final(self).cx() == old(self).cx(),
    {
        proof {
            reveal(bind_once);
        }
        let (type_, bind) = plan;
        let (value, statements) = lowered;
        self.state.set_type(value.id(), type_.share());
        if bind {
            let (variable, definition) = self.bind_value(stem, value, type_);
            (variable, statements.push(definition))
        } else {
            (value, statements)
        }
    }

    /// The vector that `argument` stands for; it must stand for one.
    pub(crate) fn expect_vector(&self, argument: &Expression) -> (r: Result<(Rc<Path>, Type), Halt>)
        ensures
            match (r, vector_argument(self.st(), *argument)) {
                (Ok((path, element)), Some((wanted, inner))) => *path == wanted && element == inner,
                (Err(halt), None) => halt == Halt::IllFormed,
                _ => false,
            },
    {
        match self.vector_argument(argument) {
            Some(found) => Ok(found),
            None => Err(Halt::IllFormed),
        }
    }

    /// Binds `expression` to a name, unless it may as well be evaluated later.
    pub fn materialize_strict_prefix_expression(&mut self, expression: Expression) -> (r: Result<
        Lowered,
        Halt,
    >)
        ensures
            ran(
                *old(self),
                *final(self),
                r,
                materialize_strict_prefix_expression(old(self).cx(), old(self).st(), expression),
            ),
    {
        proof {
            reveal(materialize_strict_prefix_expression);
        }
        if expression_can_be_discarded(&expression, &self.state) {
            return Ok((expression, List::Nil));
        }
        match self.expression_type_for_materialization(&expression) {
            None => Err(Halt::IllFormed),
            Some(type_) => {
                let (variable, definition) = self.bind_value("$eval", expression, type_);
                Ok((variable, List::one(definition)))
            },
        }
    }

    /// The vector that `argument` stands for, with the type of its elements.
    pub fn vector_argument(&self, argument: &Expression) -> (r: Option<(Rc<Path>, Type)>)
        ensures
            match (r, vector_argument(self.st(), *argument)) {
                (Some((path, element)), Some((wanted, inner))) => *path == wanted && element
                    == inner,
                (None, None) => true,
                _ => false,
            },
    {
        find_vector(self.state.get_type(argument.id()), argument)
    }

    /// Reads the length of the vector `path`.
    pub fn bind_vector(&mut self, path: &Path, span: Span) -> (r: BoundVector)
        ensures
            (final(self).st(), r) == bind_vector(old(self).cx(), old(self).st(), *path, span),
            final(self).cx() == old(self).cx(),
    {
        proof {
            reveal(bind_vector);
        }
        let (values, length) = self.generate_vector_mapping_exprs(path);
        let identifier = self.fresh_identifier("$len_var");
        let read = self.get_vector_len_expr(length.share(), span);
        let id: NodeId = self.state.take_id();
        BoundVector {
            values,
            length,
            len_var: make_local_path(identifier),
            len_stmt: self.state.simple_definition(identifier, read, id),
        }
    }

    /// `Vector::push(path, value)`
    pub fn push_value(&mut self, path: &Path, value: Expression, span: Span) -> (r: Lowered)
        ensures
            (final(self).st(), r) == push_value(old(self).cx(), old(self).st(), *path, value, span),
            final(self).cx() == old(self).cx(),
    {
        proof {
            reveal(push_value);
        }
        let vector = self.bind_vector(path, span);
        let one_literal = self.literal_one_u32();
        let increment = self.binary_expr(
            vector.len_var.share(),
            BinaryOperation::Add,
            one_literal,
        );
        let set_value = self.set_mapping_expr(vector.values, vector.len_var, value, span);
        let key = self.literal_false();
        let set_len = self.set_mapping_expr(vector.length, key, increment, span);
        let set_len_stmt = self.expression_statement(set_len, span);
        (set_value, List::two(vector.len_stmt, set_len_stmt))
    }

    /// `Vector::len(path)`
    pub fn vector_len(&mut self, path: &Path, span: Span) -> (r: Lowered)
        ensures
            (final(self).st(), r) == vector_len(old(self).cx(), old(self).st(), *path, span),
            final(self).cx() == old(self).cx(),
    {
        proof {
            reveal(vector_len);
        }
        let (_, length) = self.generate_vector_mapping_exprs(path);
        let read = self.get_vector_len_expr(length, span);
        (read, List::Nil)
    }

    /// `Vector::pop(path)`
    pub fn pop_value(&mut self, path: &Path, element: &Type, span: Span) -> (r: Result<
        Lowered,
        Halt,
    >)
        ensures
            ran(
                *old(self),
                *final(self),
                r,
                pop_value(old(self).cx(), old(self).st(), *path, *element, span),
            ),
    {
        proof {
            reveal(pop_value);
        }
        let vector = self.bind_vector(path, span);
        let zero_literal = self.literal_zero_u32();
        let is_filled = self.binary_expr(
            vector.len_var.share(),
            BinaryOperation::Gt,
            zero_literal,
        );
        let one_literal = self.literal_one_u32();
        let decrement = self.binary_expr(
            vector.len_var.share(),
            BinaryOperation::SubWrapped,
            one_literal,
        );
        let new_len = self.ternary_expr(
            is_filled.share(),
            decrement.share(),
            vector.len_var,
            span,
        );
        let key = self.literal_false();
        let set_len = self.set_mapping_expr(vector.length, key, new_len, span);
        let set_len_stmt = self.expression_statement(set_len, span);
        let default = self.zero(element)?;
        let get_or_use = self.get_or_use_mapping_expr(vector.values, decrement, default, span);
        let none = self.literal_none_optional(element.share());
        let popped = self.ternary_expr(is_filled, get_or_use, none, span);
        Ok((popped, List::two(vector.len_stmt, set_len_stmt)))
    }

    /// `Vector::get(path, index)`
    pub fn get_value(&mut self, path: &Path, element: &Type, index: Expression, span: Span) -> (r:
        Result<Lowered, Halt>)
        ensures
            ran(
                *old(self),
                *final(self),
                r,
                get_value(old(self).cx(), old(self).st(), *path, *element, index, span),
            ),
    {
        proof {
            reveal(get_value);
        }
        let vector = self.bind_vector(path, span);
        let in_bounds = self.binary_expr(index.share(), BinaryOperation::Lt, vector.len_var);
        let default = self.zero(element)?;
        let get_or_use = self.get_or_use_mapping_expr(vector.values, index, default, span);
        let none = self.literal_none_optional(element.share());
        let got = self.ternary_expr(in_bounds, get_or_use, none, span);
        Ok((got, List::one(vector.len_stmt)))
    }

    fn assert_statement(&mut self, condition: Expression, span: Span) -> (r: Statement)
        ensures
            (final(self).st(), r) == assert_statement(old(self).st(), condition, span),
            final(self).cx() == old(self).cx(),
    {
        let id: NodeId = self.state.take_id();
        Statement::Assert(
            Rc::new(AssertStatement { variant: AssertVariant::Assert(condition), span, id }),
        )
    }

    /// `Vector::set(path, index, value)`
    pub fn set_value(
        &mut self,
        path: &Path,
        index: Expression,
        value: Expression,
        span: Span,
    ) -> (r:
        Lowered)
        ensures
            (final(self).st(), r) == set_value(
                old(self).cx(),
                old(self).st(),
                *path,
                index,
                value,
                span,
            ),
            final(self).cx() == old(self).cx(),
    {
        proof {
            reveal(set_value);
        }
        let vector = self.bind_vector(path, span);
        let in_bounds = self.binary_expr(index.share(), BinaryOperation::Lt, vector.len_var);
        let set = self.set_mapping_expr(vector.values, index, value, span);
        let assertion = self.assert_statement(in_bounds, Span::none());
        (set, List::two(vector.len_stmt, assertion))
    }

    /// `Vector::clear(path)`. The elements stay in the mapping behind the vector.
    pub fn clear_vector(&mut self, path: &Path, span: Span) -> (r: Lowered)
        ensures
            (final(self).st(), r) == clear_vector(old(self).cx(), old(self).st(), *path, span),
            final(self).cx() == old(self).cx(),
    {
        proof {
            reveal(clear_vector);
        }
        let (_, length) = self.generate_vector_mapping_exprs(path);
        let key = self.literal_false();
        let zero_literal = self.literal_zero_u32();
        let set = self.set_mapping_expr(length, key, zero_literal, span);
        (set, List::Nil)
    }

    /// `Vector::swap_remove(path, index)`
    pub fn swap_remove_value(&mut self, path: &Path, index: Expression, span: Span) -> (r: Lowered)
        ensures
            (final(self).st(), r) == swap_remove_value(
                old(self).cx(),
                old(self).st(),
                *path,
                index,
                span,
            ),
            final(self).cx() == old(self).cx(),
    {
        proof {
            reveal(swap_remove_value);
        }
        let vector = self.bind_vector(path, span);
        let in_bounds = self.binary_expr(
            index.share(),
            BinaryOperation::Lt,
            vector.len_var.share(),
        );
        let assertion = self.assert_statement(in_bounds, span);
        let get = self.get_mapping_expr(vector.values.share(), index.share(), span);
        let removed = self.fresh_identifier("$removed");
        let id: NodeId = self.state.take_id();
        let removed_stmt = Statement::Definition(
            Rc::new(
                DefinitionStatement {
                    place: DefinitionPlace::Single(removed),
                    type_: None,
                    value: get,
                    span,
                    id,
                },
            ),
        );
        let one_literal = self.literal_one_u32();
        let decrement = self.binary_expr(vector.len_var, BinaryOperation::Sub, one_literal);
        let get_last = self.get_mapping_expr(vector.values.share(), decrement.share(), span);
        let set_swap = self.set_mapping_expr(vector.values, index, get_last, span);
        let set_swap_stmt = self.expression_statement(set_swap, span);
        let key = self.literal_false();
        let set_len = self.set_mapping_expr(vector.length, key, decrement, span);
        let set_len_stmt = self.expression_statement(set_len, span);
        (
            make_local_path(removed),
            List::two(vector.len_stmt, assertion).append(
                &List::cons(removed_stmt, List::two(set_swap_stmt, set_len_stmt)),
            ),
        )
    }
}

} // verus!
