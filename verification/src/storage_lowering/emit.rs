//! Lowering with a view to what follows: a branch that an expression is lowered to contains
//! everything that consumes the value of the branch.
use crate::ast::{
    local_path, no_span, ArrayAccess, ArrayExpression, AssertStatement, AssertVariant,
    AssignStatement, BinaryExpression, Block, CallExpression, CastExpression, CompositeExpression,
    ConditionalStatement, ConstDeclaration, DefinitionPlace, DefinitionStatement,
    DynamicOpExpression, DynamicOpKind, Expression, ExpressionStatement, FieldInitializer,
    Identifier, Intrinsic, IntrinsicExpression, IterationStatement, MemberAccess, NodeId,
    RepeatExpression, ReturnStatement, Span, Statement, TernaryExpression, TupleAccess,
    TupleExpression, Type, UnaryExpression, UnitExpression,
};
use crate::list::{appended, one, List};
use crate::purity::can_be_discarded;
use crate::state::{type_of, with_id, with_suffixed, with_type, with_unique, Halt, State};
use crate::storage_lowering::builders::fresh_identifier;
use crate::storage_lowering::continuation::{
    Continuation, ListContinuation, ListFrame, OperandFrame, PlaceFrame, StatementFrame,
};
use crate::storage_lowering::predicates::{
    any_may_emit_after, expression_may_emit_after_reconstruction, expression_requires_branch_cps,
    statement_requires_tail_cps,
};
use crate::storage_lowering::reconstruct::{
    reconstruct_call, reconstruct_dynamic_op, reconstruct_expression, reconstruct_intrinsic,
    reconstruct_type,
};
use crate::storage_lowering::statements::{
    is_legal_statement, reconstruct_assert, reconstruct_assign, reconstruct_const,
    reconstruct_definition, reconstruct_expression_statement, reconstruct_given_type,
    reconstruct_return, write_storage, written_storage, LoweredStatement,
};
use crate::storage_lowering::tail::split_tail;
use crate::storage_lowering::vectors::{materialize_strict_prefix_expression, Lowered};
use crate::storage_lowering::visitor::{Context, Step};
use std::rc::Rc;
use vstd::prelude::*;

verus! {

/// The statements that something is lowered to.
pub type Emitted = Step<List<Statement>>;

/* Parts */

/// `emitted`, with `statements` in front.
pub open spec fn preceded(statements: List<Statement>, emitted: Emitted) -> Emitted {
    match emitted {
        Err(halt) => Err(halt),
        Ok((state, more)) => Ok((state, appended(statements, more))),
    }
}

/// `to` gets the type that is known of `from`.
pub open spec fn copy_expression_type(state: State, from: NodeId, to: NodeId) -> State {
    match type_of(state.types, from) {
        Some(type_) => if from != to {
            with_type(state, to, type_)
        } else {
            state
        },
        None => state,
    }
}

/// Binds `expression` to a name if `strict` says that something emits statements before it is
/// used, unless it may as well be evaluated later.
pub open spec fn materialize_if(
    cx: Context,
    state: State,
    expression: Expression,
    strict: bool,
) -> Step<Lowered> {
    if strict {
        materialize_strict_prefix_expression(cx, state, expression)
    } else {
        Ok((state, (expression, List::Nil)))
    }
}

/// Binds the value of an arm of a ternary to a name of the ternary's optional type.
pub open spec fn bind_optional_ternary_branch(
    state: State,
    expression: Expression,
    optional_type: Type,
    span: Span,
) -> (State, (Expression, Statement)) {
    let (state, identifier) = fresh_identifier(state, "$ternary_branch"@);
    let state = with_type(state, identifier.id, optional_type);
    let definition = Statement::Definition(
        Rc::new(
            DefinitionStatement {
                place: DefinitionPlace::Single(identifier),
                type_: Some(optional_type),
                value: expression,
                span,
                id: state.next_id,
            },
        ),
    );
    let state = with_type(with_id(state), identifier.id, optional_type);
    (state, (local_path(identifier), definition))
}

/// The type of the ternary `id`, if that is an optional.
pub open spec fn optional_type_of(state: State, id: NodeId) -> Option<Type> {
    match type_of(state.types, id) {
        Some(Type::Optional(inner)) => Some(Type::Optional(inner)),
        _ => None,
    }
}

/// Whether the first argument of `op` is a vector, which is not evaluated.
pub open spec fn takes_vector(op: Intrinsic) -> bool {
    match op {
        Intrinsic::VectorPush => true,
        Intrinsic::VectorLen => true,
        Intrinsic::VectorPop => true,
        Intrinsic::VectorGet => true,
        Intrinsic::VectorSet => true,
        Intrinsic::VectorClear => true,
        Intrinsic::VectorSwapRemove => true,
        _ => false,
    }
}

/// The statement that an expression statement becomes once its value is known.
pub open spec fn value_statement(state: State, keep: bool, value: Expression, span: Span) -> (
    State,
    Statement,
) {
    if is_legal_statement(value) {
        (
            with_id(state),
            Statement::Expression(
                Rc::new(ExpressionStatement { expression: value, span, id: state.next_id }),
            ),
        )
    } else if keep {
        let (state, name) = with_unique(state, "$discard"@, "$"@);
        let identifier = Identifier { name, span, id: state.next_id };
        let state = with_id(state);
        let state = match type_of(state.types, value.spec_id()) {
            Some(type_) => with_type(state, identifier.id, type_),
            None => state,
        };
        (
            with_id(state),
            Statement::Definition(
                Rc::new(
                    DefinitionStatement {
                        place: DefinitionPlace::Single(identifier),
                        type_: None,
                        value,
                        span,
                        id: state.next_id,
                    },
                ),
            ),
        )
    } else {
        let unit = Expression::Unit(UnitExpression { span, id: state.next_id });
        let state = with_id(state);
        (
            with_id(state),
            Statement::Expression(
                Rc::new(ExpressionStatement { expression: unit, span, id: state.next_id }),
            ),
        )
    }
}

/// The smallest span that covers all of `statements`.
pub open spec fn joined_span(statements: List<Statement>) -> Span
    decreases statements,
{
    match statements {
        List::Nil => no_span(),
        List::Cons(first, rest) => spanned(first.spec_span(), *rest),
    }
}

/// The smallest span that covers `span` and all of `statements`.
pub open spec fn spanned(span: Span, statements: List<Statement>) -> Span
    decreases statements,
{
    match statements {
        List::Nil => span,
        List::Cons(first, rest) => spanned(span.spec_join(first.spec_span()), *rest),
    }
}

/// `statements` as one statement.
pub open spec fn as_statement(state: State, statements: List<Statement>) -> (State, Statement) {
    if statements@.len() == 1 {
        (state, statements@[0])
    } else {
        (
            with_id(state),
            Statement::Block(
                Rc::new(Block { statements, span: joined_span(statements), id: state.next_id }),
            ),
        )
    }
}

/// The last of `statements`, and those before it.
pub open spec fn split_emitted_statement(statements: List<Statement>) -> Option<LoweredStatement>
    decreases statements,
{
    match statements {
        List::Nil => None,
        List::Cons(first, rest) => match split_emitted_statement(*rest) {
            None => Some((first, List::Nil)),
            Some((last, before)) => Some((last, List::Cons(first, Rc::new(before)))),
        },
    }
}

/* Expressions */

/// Lowers `expression` and hands its value to `continuation`. Statements in the arms of a ternary
/// stay in the arms, together with what consumes their values:
///
/// ```text
/// emit(c ? t : f, k) = emit(c, |c'| if c' { emit(t, k) } else { emit(f, k) })
/// ```
///
/// `depth` bounds how deep the steps nest.
#[verifier::opaque]
pub open spec fn emit(
    cx: Context,
    depth: nat,
    state: State,
    expression: Expression,
    continuation: Continuation,
) -> Emitted
    decreases depth, 0int, state,
{
    if depth == 0 {
        Err(Halt::Depth)
    } else {
        emit_step(cx, (depth - 1) as nat, state, expression, continuation)
    }
}

#[verifier::opaque]
pub open spec fn emit_step(
    cx: Context,
    depth: nat,
    state: State,
    expression: Expression,
    continuation: Continuation,
) -> Emitted
    decreases depth, 9int, state,
{
    let next = Rc::new(continuation);
    match expression {
        Expression::Array(input) => emit_list(
            cx,
            depth,
            state,
            input.elements,
            List::Nil,
            ListContinuation { frame: ListFrame::Array { input }, next },
        ),
        Expression::ArrayAccess(input) => emit(
            cx,
            depth,
            state,
            input.array,
            Continuation::Operand(OperandFrame::AccessArray { input }, next),
        ),
        Expression::Binary(input) => emit(
            cx,
            depth,
            state,
            input.left,
            Continuation::Operand(OperandFrame::BinaryLeft { input }, next),
        ),
        Expression::Call(input) => emit_list(
            cx,
            depth,
            state,
            input.const_arguments,
            List::Nil,
            ListContinuation { frame: ListFrame::CallConst { input }, next },
        ),
        Expression::Cast(input) => emit(
            cx,
            depth,
            state,
            input.expression,
            Continuation::Operand(OperandFrame::Cast { input }, next),
        ),
        Expression::Composite(input) => emit_list(
            cx,
            depth,
            state,
            input.const_arguments,
            List::Nil,
            ListContinuation { frame: ListFrame::CompositeConst { input }, next },
        ),
        Expression::DynamicOp(input) => emit(
            cx,
            depth,
            state,
            input.target_program,
            Continuation::Operand(OperandFrame::DynamicTarget { input }, next),
        ),
        Expression::Intrinsic(input) => if takes_vector(input.op) {
            match input.arguments {
                List::Nil => Err(Halt::IllFormed),
                List::Cons(vector, values) => emit_list(
                    cx,
                    depth,
                    state,
                    *values,
                    List::Nil,
                    ListContinuation {
                        frame: ListFrame::Intrinsic { input, first: one(vector) },
                        next,
                    },
                ),
            }
        } else {
            emit_list(
                cx,
                depth,
                state,
                input.arguments,
                List::Nil,
                ListContinuation {
                    frame: ListFrame::Intrinsic { input, first: List::Nil },
                    next,
                },
            )
        },
        Expression::MemberAccess(input) => emit(
            cx,
            depth,
            state,
            input.inner,
            Continuation::Operand(OperandFrame::MemberAccess { input }, next),
        ),
        Expression::Repeat(input) => emit(
            cx,
            depth,
            state,
            input.expr,
            Continuation::Operand(OperandFrame::RepeatElement { input }, next),
        ),
        Expression::Ternary(input) => emit(
            cx,
            depth,
            state,
            input.condition,
            Continuation::Operand(
                OperandFrame::TernaryCondition {
                    input,
                    optional_type: optional_type_of(state, input.id),
                },
                next,
            ),
        ),
        Expression::Tuple(input) => emit_list(
            cx,
            depth,
            state,
            input.elements,
            List::Nil,
            ListContinuation { frame: ListFrame::Tuple { input }, next },
        ),
        Expression::TupleAccess(input) => emit(
            cx,
            depth,
            state,
            input.tuple,
            Continuation::Operand(OperandFrame::TupleAccess { input }, next),
        ),
        Expression::Unary(input) => emit(
            cx,
            depth,
            state,
            input.receiver,
            Continuation::Operand(OperandFrame::Unary { input }, next),
        ),
        _ => emit_lowered(
            cx,
            depth,
            reconstruct_expression(cx, state, expression),
            expression.spec_id(),
            false,
            continuation,
        ),
    }
}

/// Hands what the node `source` was lowered to, behind its statements, to `continuation`; first
/// lowers it once more if it became a branch. A dynamic access that stays one is not lowered
/// again: `keeps_dynamic` says so.
#[verifier::opaque]
pub open spec fn emit_lowered(
    cx: Context,
    depth: nat,
    lowered: Step<Lowered>,
    source: NodeId,
    keeps_dynamic: bool,
    continuation: Continuation,
) -> Emitted
    decreases depth, 1int, lowered,
{
    match lowered {
        Err(halt) => Err(halt),
        Ok((state, (expression, statements))) => {
            let state = copy_expression_type(state, source, expression.spec_id());
            if expression_requires_branch_cps(expression) && !(keeps_dynamic
                && expression is DynamicOp) {
                preceded(statements, emit(cx, depth, state, expression, continuation))
            } else {
                preceded(statements, resume(cx, depth, state, continuation, expression))
            }
        },
    }
}

/// Lowers the expressions that `remaining` holds, from left to right, and hands all values, behind
/// those in `rebuilt`, to `continuation`.
#[verifier::opaque]
pub open spec fn emit_list(
    cx: Context,
    depth: nat,
    state: State,
    remaining: List<Expression>,
    rebuilt: List<Expression>,
    continuation: ListContinuation,
) -> Emitted
    decreases depth, 1int, state,
{
    match remaining {
        List::Nil => resume_list(cx, depth, state, continuation, rebuilt),
        List::Cons(expression, rest) => emit(
            cx,
            depth,
            state,
            expression,
            Continuation::Element { rest: *rest, rebuilt, next: Rc::new(continuation) },
        ),
    }
}

/// A conditional statement whose branches each lower an arm of a ternary and what consumes it.
#[verifier::opaque]
pub open spec fn emit_branches(
    cx: Context,
    depth: nat,
    state: State,
    condition: Expression,
    if_true: Lowered,
    if_false: Lowered,
    optional_type: Option<Type>,
    span: Span,
    continuation: Continuation,
) -> Emitted
    decreases depth, 1int, state,
{
    let arm = Continuation::Operand(
        OperandFrame::TernaryArm { optional_type, span },
        Rc::new(continuation),
    );
    match preceded(if_true.1, emit(cx, depth, state, if_true.0, arm)) {
        Err(halt) => Err(halt),
        Ok((state, then_statements)) => match preceded(
            if_false.1,
            emit(cx, depth, state, if_false.0, arm),
        ) {
            Err(halt) => Err(halt),
            Ok((state, else_statements)) => {
                let (state, statement) = branch_statement(
                    state,
                    condition,
                    then_statements,
                    else_statements,
                    span,
                );
                Ok((state, one(statement)))
            },
        },
    }
}

/// `if condition { then_statements } else { else_statements }`
pub open spec fn branch_statement(
    state: State,
    condition: Expression,
    then_statements: List<Statement>,
    else_statements: List<Statement>,
    span: Span,
) -> (State, Statement) {
    let then_block = Block { statements: then_statements, span, id: state.next_id };
    let state = with_id(state);
    let otherwise = Statement::Block(
        Rc::new(Block { statements: else_statements, span, id: state.next_id }),
    );
    let state = with_id(state);
    (
        with_id(state),
        Statement::Conditional(
            Rc::new(
                ConditionalStatement {
                    condition,
                    then_block,
                    otherwise: Some(otherwise),
                    span,
                    id: state.next_id,
                },
            ),
        ),
    )
}

/// Lowers the arguments of a dynamic access whose target was lowered.
#[verifier::opaque]
pub open spec fn emit_dynamic_arguments(
    cx: Context,
    depth: nat,
    state: State,
    input: DynamicOpExpression,
    continuation: Continuation,
) -> Emitted
    decreases depth, 2int, state,
{
    match input.kind {
        DynamicOpKind::Read { .. } => emit_lowered(
            cx,
            depth,
            reconstruct_dynamic_op(cx, state, input),
            input.id,
            true,
            continuation,
        ),
        DynamicOpKind::Op { arguments, .. } => emit_list(
            cx,
            depth,
            state,
            arguments,
            List::Nil,
            ListContinuation {
                frame: ListFrame::DynamicArguments { input: Rc::new(input) },
                next: Rc::new(continuation),
            },
        ),
        DynamicOpKind::Call { arguments, .. } => emit_list(
            cx,
            depth,
            state,
            arguments,
            List::Nil,
            ListContinuation {
                frame: ListFrame::DynamicArguments { input: Rc::new(input) },
                next: Rc::new(continuation),
            },
        ),
    }
}

/// Lowers the fields of a composite from `rest` on, behind those in `done`, and then its base.
/// Fields without a value stay as they are.
#[verifier::opaque]
pub open spec fn emit_composite_members(
    cx: Context,
    depth: nat,
    state: State,
    input: CompositeExpression,
    done: List<FieldInitializer>,
    rest: List<FieldInitializer>,
    continuation: Continuation,
) -> Emitted
    decreases depth, 3int, rest,
{
    match rest {
        List::Nil => emit_composite_base(
            cx,
            depth,
            state,
            CompositeExpression { members: done, ..input },
            continuation,
        ),
        List::Cons(member, rest) => match member.expression {
            None => emit_composite_members(
                cx,
                depth,
                state,
                input,
                appended(done, one(member)),
                *rest,
                continuation,
            ),
            Some(value) => emit(
                cx,
                depth,
                state,
                value,
                Continuation::Operand(
                    OperandFrame::CompositeMember {
                        input: Rc::new(input),
                        done,
                        member,
                        rest: *rest,
                    },
                    Rc::new(continuation),
                ),
            ),
        },
    }
}

/// Lowers the base of a composite, if it has one.
#[verifier::opaque]
pub open spec fn emit_composite_base(
    cx: Context,
    depth: nat,
    state: State,
    input: CompositeExpression,
    continuation: Continuation,
) -> Emitted
    decreases depth, 2int, state,
{
    match input.base {
        None => resume(cx, depth, state, continuation, Expression::Composite(Rc::new(input))),
        Some(base) => emit(
            cx,
            depth,
            state,
            base,
            Continuation::Operand(
                OperandFrame::CompositeBase { input: Rc::new(input) },
                Rc::new(continuation),
            ),
        ),
    }
}

/// Lowers the indices in the place of an assignment, from left to right. The variable itself stays
/// as it is.
#[verifier::opaque]
pub open spec fn emit_assign_place(
    cx: Context,
    depth: nat,
    state: State,
    place: Expression,
    continuation: Continuation,
) -> Emitted
    decreases depth, 1int, place,
{
    match place {
        Expression::ArrayAccess(input) => emit_assign_place(
            cx,
            depth,
            state,
            input.array,
            Continuation::Place(PlaceFrame::Array { input }, Rc::new(continuation)),
        ),
        Expression::MemberAccess(input) => emit_assign_place(
            cx,
            depth,
            state,
            input.inner,
            Continuation::Place(PlaceFrame::Member { input }, Rc::new(continuation)),
        ),
        Expression::TupleAccess(input) => emit_assign_place(
            cx,
            depth,
            state,
            input.tuple,
            Continuation::Place(PlaceFrame::Tuple { input }, Rc::new(continuation)),
        ),
        _ => resume(cx, depth, state, continuation, place),
    }
}

/* Continuations */

/// Goes on with `continuation` now that the value is known.
#[verifier::opaque]
pub open spec fn resume(
    cx: Context,
    depth: nat,
    state: State,
    continuation: Continuation,
    value: Expression,
) -> Emitted
    decreases depth, 0int, state,
{
    if depth == 0 {
        Err(Halt::Depth)
    } else {
        resume_step(cx, (depth - 1) as nat, state, continuation, value)
    }
}

#[verifier::opaque]
pub open spec fn resume_step(
    cx: Context,
    depth: nat,
    state: State,
    continuation: Continuation,
    value: Expression,
) -> Emitted
    decreases depth, 11int, state,
{
    match continuation {
        Continuation::Operand(frame, next) => resume_operand(cx, depth, state, frame, *next, value),
        Continuation::Element { rest, rebuilt, next } => match materialize_if(
            cx,
            state,
            value,
            any_may_emit_after(cx, rest),
        ) {
            Err(halt) => Err(halt),
            Ok((state, (value, statements))) => preceded(
                statements,
                emit_list(cx, depth, state, rest, appended(rebuilt, one(value)), *next),
            ),
        },
        Continuation::Place(frame, next) => resume_place(cx, depth, state, frame, *next, value),
        Continuation::Statement(frame) => resume_statement(cx, depth, state, frame, value),
    }
}

/// Goes on with the expression that the value is an operand of. An operand is bound to a name
/// where the operands after it emit statements.
#[verifier::opaque]
pub open spec fn resume_operand(
    cx: Context,
    depth: nat,
    state: State,
    frame: OperandFrame,
    next: Continuation,
    value: Expression,
) -> Emitted
    decreases depth, 10int, state,
{
    match frame {
        OperandFrame::AccessArray { input } => match materialize_if(
            cx,
            state,
            value,
            expression_may_emit_after_reconstruction(cx, input.index),
        ) {
            Err(halt) => Err(halt),
            Ok((state, (array, statements))) => {
                let frame = OperandFrame::AccessIndex { array, input };
                let next = Continuation::Operand(frame, Rc::new(next));
                preceded(statements, emit(cx, depth, state, input.index, next))
            },
        },
        OperandFrame::AccessIndex { array, input } => {
            let access = ArrayAccess { array, index: value, ..*input };
            resume(cx, depth, state, next, Expression::ArrayAccess(Rc::new(access)))
        },
        OperandFrame::BinaryLeft { input } => match materialize_if(
            cx,
            state,
            value,
            expression_may_emit_after_reconstruction(cx, input.right),
        ) {
            Err(halt) => Err(halt),
            Ok((state, (left, statements))) => {
                let frame = OperandFrame::BinaryRight { left, input };
                let next = Continuation::Operand(frame, Rc::new(next));
                preceded(statements, emit(cx, depth, state, input.right, next))
            },
        },
        OperandFrame::BinaryRight { left, input } => {
            let binary = BinaryExpression { left, right: value, ..*input };
            resume(cx, depth, state, next, Expression::Binary(Rc::new(binary)))
        },
        OperandFrame::Cast { input } => {
            let cast = CastExpression { expression: value, ..*input };
            resume(cx, depth, state, next, Expression::Cast(Rc::new(cast)))
        },
        OperandFrame::MemberAccess { input } => {
            let access = MemberAccess { inner: value, ..*input };
            resume(cx, depth, state, next, Expression::MemberAccess(Rc::new(access)))
        },
        OperandFrame::RepeatElement { input } => match materialize_if(
            cx,
            state,
            value,
            expression_may_emit_after_reconstruction(cx, input.count),
        ) {
            Err(halt) => Err(halt),
            Ok((state, (expr, statements))) => {
                let frame = OperandFrame::RepeatCount { expr, input };
                let next = Continuation::Operand(frame, Rc::new(next));
                preceded(statements, emit(cx, depth, state, input.count, next))
            },
        },
        OperandFrame::RepeatCount { expr, input } => {
            let repeat = RepeatExpression { expr, count: value, ..*input };
            resume(cx, depth, state, next, Expression::Repeat(Rc::new(repeat)))
        },
        OperandFrame::TernaryCondition { input, optional_type } => resume_ternary(
            cx,
            depth,
            state,
            *input,
            optional_type,
            next,
            value,
        ),
        OperandFrame::TernaryArm { optional_type, span } => match optional_type {
            None => resume(cx, depth, state, next, value),
            Some(optional_type) => {
                let (state, (variable, definition)) = bind_optional_ternary_branch(
                    state,
                    value,
                    optional_type,
                    span,
                );
                preceded(one(definition), resume(cx, depth, state, next, variable))
            },
        },
        OperandFrame::TupleAccess { input } => {
            let access = TupleAccess { tuple: value, ..*input };
            resume(cx, depth, state, next, Expression::TupleAccess(Rc::new(access)))
        },
        OperandFrame::Unary { input } => {
            let unary = UnaryExpression { receiver: value, ..*input };
            resume(cx, depth, state, next, Expression::Unary(Rc::new(unary)))
        },
        OperandFrame::DynamicTarget { input } => match materialize_strict_prefix_expression(
            cx,
            state,
            value,
        ) {
            Err(halt) => Err(halt),
            Ok((state, (target_program, statements))) => {
                let access = DynamicOpExpression { target_program, ..*input };
                match input.network {
                    None => preceded(
                        statements,
                        emit_dynamic_arguments(cx, depth, state, access, next),
                    ),
                    Some(network) => {
                        let frame = OperandFrame::DynamicNetwork { input: Rc::new(access) };
                        let next = Continuation::Operand(frame, Rc::new(next));
                        preceded(statements, emit(cx, depth, state, network, next))
                    },
                }
            },
        },
        OperandFrame::DynamicNetwork { input } => match materialize_strict_prefix_expression(
            cx,
            state,
            value,
        ) {
            Err(halt) => Err(halt),
            Ok((state, (network, statements))) => {
                let access = DynamicOpExpression { network: Some(network), ..*input };
                preceded(statements, emit_dynamic_arguments(cx, depth, state, access, next))
            },
        },
        OperandFrame::CompositeMember {
            input,
            done,
            member,
            rest,
        } => match materialize_strict_prefix_expression(cx, state, value) {
            Err(halt) => Err(halt),
            Ok((state, (value, statements))) => {
                let member = FieldInitializer { expression: Some(value), ..member };
                preceded(
                    statements,
                    emit_composite_members(
                        cx,
                        depth,
                        state,
                        *input,
                        appended(done, one(member)),
                        rest,
                        next,
                    ),
                )
            },
        },
        OperandFrame::CompositeBase { input } => {
            let composite = CompositeExpression { base: Some(value), ..*input };
            resume(cx, depth, state, next, Expression::Composite(Rc::new(composite)))
        },
    }
}

/// Goes on with a ternary whose condition is known. If no arm needs statements of its own the
/// ternary stays one; otherwise it becomes a conditional statement.
#[verifier::opaque]
pub open spec fn resume_ternary(
    cx: Context,
    depth: nat,
    state: State,
    input: TernaryExpression,
    optional_type: Option<Type>,
    next: Continuation,
    condition: Expression,
) -> Emitted
    decreases depth, 9int, state,
{
    if expression_may_emit_after_reconstruction(cx, input.if_true)
        || expression_may_emit_after_reconstruction(cx, input.if_false) {
        emit_branches(
            cx,
            depth,
            state,
            condition,
            (input.if_true, List::Nil),
            (input.if_false, List::Nil),
            optional_type,
            input.span,
            next,
        )
    } else {
        match reconstruct_expression(cx, state, input.if_true) {
            Err(halt) => Err(halt),
            Ok((state, if_true)) => match reconstruct_expression(cx, state, input.if_false) {
                Err(halt) => Err(halt),
                Ok((state, if_false)) => if if_true.1 == List::<Statement>::Nil && if_false.1
                    == List::<Statement>::Nil && !expression_requires_branch_cps(if_true.0)
                    && !expression_requires_branch_cps(if_false.0) {
                    let ternary = TernaryExpression {
                        condition,
                        if_true: if_true.0,
                        if_false: if_false.0,
                        ..input
                    };
                    resume(cx, depth, state, next, Expression::Ternary(Rc::new(ternary)))
                } else {
                    emit_branches(
                        cx,
                        depth,
                        state,
                        condition,
                        if_true,
                        if_false,
                        optional_type,
                        input.span,
                        next,
                    )
                },
            },
        }
    }
}

/// Goes on with the place of an assignment.
#[verifier::opaque]
pub open spec fn resume_place(
    cx: Context,
    depth: nat,
    state: State,
    frame: PlaceFrame,
    next: Continuation,
    value: Expression,
) -> Emitted
    decreases depth, 10int, state,
{
    match frame {
        PlaceFrame::Array { input } => {
            let frame = PlaceFrame::Index { array: value, input };
            let next = Continuation::Place(frame, Rc::new(next));
            emit(cx, depth, state, input.index, next)
        },
        PlaceFrame::Index { array, input } => match materialize_strict_prefix_expression(
            cx,
            state,
            value,
        ) {
            Err(halt) => Err(halt),
            Ok((state, (index, statements))) => {
                let access = ArrayAccess { array, index, ..*input };
                preceded(
                    statements,
                    resume(cx, depth, state, next, Expression::ArrayAccess(Rc::new(access))),
                )
            },
        },
        PlaceFrame::Member { input } => {
            let access = MemberAccess { inner: value, ..*input };
            resume(cx, depth, state, next, Expression::MemberAccess(Rc::new(access)))
        },
        PlaceFrame::Tuple { input } => {
            let access = TupleAccess { tuple: value, ..*input };
            resume(cx, depth, state, next, Expression::TupleAccess(Rc::new(access)))
        },
    }
}

/// Goes on with `continuation` now that the values are known.
#[verifier::opaque]
pub open spec fn resume_list(
    cx: Context,
    depth: nat,
    state: State,
    continuation: ListContinuation,
    values: List<Expression>,
) -> Emitted
    decreases depth, 0int, state,
{
    if depth == 0 {
        Err(Halt::Depth)
    } else {
        resume_list_step(cx, (depth - 1) as nat, state, continuation, values)
    }
}

#[verifier::opaque]
pub open spec fn resume_list_step(
    cx: Context,
    depth: nat,
    state: State,
    continuation: ListContinuation,
    values: List<Expression>,
) -> Emitted
    decreases depth, 9int, state,
{
    let next = *continuation.next;
    match continuation.frame {
        ListFrame::Array { input } => {
            let array = ArrayExpression { elements: values, ..*input };
            resume(cx, depth, state, next, Expression::Array(Rc::new(array)))
        },
        ListFrame::CallConst { input } => emit_list(
            cx,
            depth,
            state,
            input.arguments,
            List::Nil,
            ListContinuation {
                frame: ListFrame::CallArguments { input, const_arguments: values },
                next: continuation.next,
            },
        ),
        ListFrame::CallArguments { input, const_arguments } => {
            let call = CallExpression { const_arguments, arguments: values, ..*input };
            emit_lowered(cx, depth, reconstruct_call(cx, state, call), input.id, false, next)
        },
        ListFrame::CompositeConst { input } => {
            let composite = CompositeExpression { const_arguments: values, ..*input };
            emit_composite_members(cx, depth, state, composite, List::Nil, input.members, next)
        },
        ListFrame::DynamicArguments { input } => {
            let kind = match input.kind {
                DynamicOpKind::Read { storage } => DynamicOpKind::Read { storage },
                DynamicOpKind::Op { member, op, arguments: _ } => DynamicOpKind::Op {
                    member,
                    op,
                    arguments: values,
                },
                DynamicOpKind::Call { function, arguments: _ } => DynamicOpKind::Call {
                    function,
                    arguments: values,
                },
            };
            let access = DynamicOpExpression { kind, ..*input };
            emit_lowered(
                cx,
                depth,
                reconstruct_dynamic_op(cx, state, access),
                input.id,
                true,
                next,
            )
        },
        ListFrame::Intrinsic { input, first } => {
            let operation = IntrinsicExpression { arguments: appended(first, values), ..*input };
            emit_lowered(
                cx,
                depth,
                reconstruct_intrinsic(cx, state, operation),
                input.id,
                false,
                next,
            )
        },
        ListFrame::Tuple { input } => {
            let tuple = TupleExpression { elements: values, ..*input };
            resume(cx, depth, state, next, Expression::Tuple(Rc::new(tuple)))
        },
    }
}

/// Makes the statement that the value is for.
#[verifier::opaque]
pub open spec fn resume_statement(
    cx: Context,
    depth: nat,
    state: State,
    frame: StatementFrame,
    value: Expression,
) -> Emitted
    decreases depth, 10int, state,
{
    match frame {
        StatementFrame::Const { input, type_, tail } => {
            let statement = Statement::Const(
                Rc::new(ConstDeclaration { type_, value, ..*input }),
            );
            preceded(one(statement), nested(cx, depth, state, tail))
        },
        StatementFrame::Definition { input, type_, tail } => {
            let statement = Statement::Definition(
                Rc::new(DefinitionStatement { type_, value, id: state.next_id, ..*input }),
            );
            preceded(one(statement), nested(cx, depth, with_id(state), tail))
        },
        StatementFrame::Assert { span } => {
            let variant = AssertVariant::Assert(value);
            let statement = Statement::Assert(
                Rc::new(AssertStatement { variant, span, id: state.next_id }),
            );
            Ok((with_id(state), one(statement)))
        },
        StatementFrame::AssertLeft { equal, right, span } => match materialize_if(
            cx,
            state,
            value,
            expression_may_emit_after_reconstruction(cx, right),
        ) {
            Err(halt) => Err(halt),
            Ok((state, (left, statements))) => {
                let frame = StatementFrame::AssertRight { equal, left, span };
                preceded(
                    statements,
                    emit(cx, depth, state, right, Continuation::Statement(frame)),
                )
            },
        },
        StatementFrame::AssertRight { equal, left, span } => {
            let variant = if equal {
                AssertVariant::AssertEq(left, value)
            } else {
                AssertVariant::AssertNeq(left, value)
            };
            let statement = Statement::Assert(
                Rc::new(AssertStatement { variant, span, id: state.next_id }),
            );
            Ok((with_id(state), one(statement)))
        },
        StatementFrame::StorageValue { mapping, span } => {
            let (state, statement) = write_storage(cx, state, mapping, value, span);
            Ok((state, one(statement)))
        },
        StatementFrame::AssignPlace { value: assigned, span } => {
            let frame = StatementFrame::AssignValue { place: value, span };
            emit(cx, depth, state, assigned, Continuation::Statement(frame))
        },
        StatementFrame::AssignValue { place, span } => {
            let statement = Statement::Assign(
                Rc::new(AssignStatement { place, value, span, id: state.next_id }),
            );
            Ok((with_id(state), one(statement)))
        },
        StatementFrame::Expression { keep, span } => {
            let (state, statement) = value_statement(state, keep, value, span);
            Ok((state, one(statement)))
        },
        StatementFrame::Conditional { input } => match reconstruct_block(
            cx,
            depth,
            state,
            input.then_block,
        ) {
            Err(halt) => Err(halt),
            Ok((state, then_block)) => match reconstruct_otherwise(
                cx,
                depth,
                state,
                input.otherwise,
            ) {
                Err(halt) => Err(halt),
                Ok((state, otherwise)) => {
                    let statement = Statement::Conditional(
                        Rc::new(
                            ConditionalStatement {
                                condition: value,
                                then_block,
                                otherwise,
                                span: input.span,
                                id: state.next_id,
                            },
                        ),
                    );
                    Ok((with_id(state), one(statement)))
                },
            },
        },
        StatementFrame::IterationStart { input, type_ } => {
            match materialize_strict_prefix_expression(cx, state, value) {
                Err(halt) => Err(halt),
                Ok((state, (start, statements))) => {
                    let frame = StatementFrame::IterationStop { input, type_, start };
                    preceded(
                        statements,
                        emit(cx, depth, state, input.stop, Continuation::Statement(frame)),
                    )
                },
            }
        },
        StatementFrame::IterationStop { input, type_, start } => match reconstruct_block(
            cx,
            depth,
            state,
            input.block,
        ) {
            Err(halt) => Err(halt),
            Ok((state, block)) => {
                let statement = Statement::Iteration(
                    Rc::new(
                        IterationStatement {
                            type_,
                            start,
                            stop: value,
                            block,
                            id: state.next_id,
                            ..*input
                        },
                    ),
                );
                Ok((with_id(state), one(statement)))
            },
        },
        StatementFrame::Return { span } => {
            let statement = Statement::Return(
                Rc::new(ReturnStatement { expression: value, span, id: state.next_id }),
            );
            Ok((with_id(state), one(statement)))
        },
    }
}

/* Statements */

/// Lowers `statements`, which stand inside something that is being lowered.
#[verifier::opaque]
pub open spec fn nested(
    cx: Context,
    depth: nat,
    state: State,
    statements: List<Statement>,
) -> Emitted
    decreases depth, 1int, state,
{
    if depth == 0 {
        Err(Halt::Depth)
    } else {
        reconstruct_block_statements(cx, (depth - 1) as nat, state, statements)
    }
}

/// Lowers `statements` in order. The first one that needs it is lowered together with all that
/// follow it.
#[verifier::opaque]
pub open spec fn reconstruct_block_statements(
    cx: Context,
    depth: nat,
    state: State,
    statements: List<Statement>,
) -> Emitted
    decreases depth, 8int, statements,
{
    match statements {
        List::Nil => Ok((state, List::Nil)),
        List::Cons(first, rest) => if statement_requires_tail_cps(cx, first) {
            reconstruct_statement_with_tail(cx, depth, state, first, *rest)
        } else {
            match reconstruct_statement(cx, depth, state, first) {
                Err(halt) => Err(halt),
                Ok((state, (statement, before))) => preceded(
                    appended(before, one(statement)),
                    reconstruct_block_statements(cx, depth, state, *rest),
                ),
            }
        },
    }
}

/// Lowers a block. Nothing has to run before it.
#[verifier::opaque]
pub open spec fn reconstruct_block(cx: Context, depth: nat, state: State, block: Block) -> Step<
    Block,
>
    decreases depth, 2int, state,
{
    match nested(cx, depth, state, block.statements) {
        Err(halt) => Err(halt),
        Ok((state, statements)) => Ok(
            (with_id(state), Block { statements, span: block.span, id: state.next_id }),
        ),
    }
}

/// Lowers the branch that is taken if a condition does not hold.
#[verifier::opaque]
pub open spec fn reconstruct_otherwise(
    cx: Context,
    depth: nat,
    state: State,
    otherwise: Option<Statement>,
) -> Step<Option<Statement>>
    decreases depth, 8int, state,
{
    match otherwise {
        None => Ok((state, None)),
        Some(statement) => match reconstruct_statement_with_tail(
            cx,
            depth,
            state,
            statement,
            List::Nil,
        ) {
            Err(halt) => Err(halt),
            Ok((state, statements)) => {
                let (state, statement) = as_statement(state, statements);
                Ok((state, Some(statement)))
            },
        },
    }
}

/// Lowers a statement by itself.
#[verifier::opaque]
pub open spec fn reconstruct_statement(
    cx: Context,
    depth: nat,
    state: State,
    statement: Statement,
) -> Step<LoweredStatement>
    decreases depth, 7int, state,
{
    match statement {
        Statement::Assert(input) => reconstruct_assert(cx, state, *input),
        Statement::Assign(input) => reconstruct_assign(cx, state, *input),
        Statement::Block(block) => match reconstruct_block(cx, depth, state, *block) {
            Err(halt) => Err(halt),
            Ok((state, block)) => Ok((state, (Statement::Block(Rc::new(block)), List::Nil))),
        },
        Statement::Conditional(input) => match reconstruct_conditional_with_tail(
            cx,
            depth,
            state,
            *input,
            List::Nil,
        ) {
            Err(halt) => Err(halt),
            Ok((state, statements)) => match split_emitted_statement(statements) {
                None => Err(Halt::IllFormed),
                Some(lowered) => Ok((state, lowered)),
            },
        },
        Statement::Const(input) => reconstruct_const(cx, state, *input),
        Statement::Definition(input) => reconstruct_definition(cx, state, *input),
        Statement::Expression(input) => reconstruct_expression_statement(cx, state, *input),
        // Iterations are unrolled before storage is lowered.
        Statement::Iteration(_) => Err(Halt::IllFormed),
        Statement::Return(input) => reconstruct_return(cx, state, *input),
    }
}

/// Lowers `statement` together with the statements that follow it.
#[verifier::opaque]
pub open spec fn reconstruct_statement_with_tail(
    cx: Context,
    depth: nat,
    state: State,
    statement: Statement,
    tail: List<Statement>,
) -> Emitted
    decreases depth, 7int, state,
{
    match statement {
        Statement::Assert(input) => reconstruct_assert_with_tail(cx, depth, state, *input, tail),
        Statement::Assign(input) => reconstruct_assign_with_tail(cx, depth, state, *input, tail),
        Statement::Block(block) => match reconstruct_block(cx, depth, state, *block) {
            Err(halt) => Err(halt),
            Ok((state, block)) => preceded(
                one(Statement::Block(Rc::new(block))),
                nested(cx, depth, state, tail),
            ),
        },
        Statement::Conditional(input) => reconstruct_conditional_with_tail(
            cx,
            depth,
            state,
            *input,
            tail,
        ),
        Statement::Const(input) => match reconstruct_type(cx, state, input.type_) {
            Err(halt) => Err(halt),
            Ok((state, (type_, statements))) => {
                let frame = StatementFrame::Const { input, type_, tail };
                preceded(
                    statements,
                    emit(cx, depth, state, input.value, Continuation::Statement(frame)),
                )
            },
        },
        Statement::Definition(input) => reconstruct_definition_with_tail(
            cx,
            depth,
            state,
            *input,
            tail,
        ),
        Statement::Expression(input) => {
            let frame = StatementFrame::Expression {
                keep: !can_be_discarded(state.types, input.expression),
                span: input.span,
            };
            emitted_then_tail(
                cx,
                depth,
                emit(cx, depth, state, input.expression, Continuation::Statement(frame)),
                tail,
            )
        },
        Statement::Iteration(input) => match reconstruct_given_type(cx, state, input.type_) {
            Err(halt) => Err(halt),
            Ok((state, type_)) => {
                let frame = StatementFrame::IterationStart { input, type_ };
                emitted_then_tail(
                    cx,
                    depth,
                    emit(cx, depth, state, input.start, Continuation::Statement(frame)),
                    tail,
                )
            },
        },
        // What follows a return is never reached.
        Statement::Return(input) => {
            let frame = StatementFrame::Return { span: input.span };
            emit(cx, depth, state, input.expression, Continuation::Statement(frame))
        },
    }
}

/// What was emitted, followed by `tail`.
#[verifier::opaque]
pub open spec fn emitted_then_tail(
    cx: Context,
    depth: nat,
    emitted: Emitted,
    tail: List<Statement>,
) -> Emitted
    decreases depth, 2int, emitted,
{
    match emitted {
        Err(halt) => Err(halt),
        Ok((state, statements)) => preceded(statements, nested(cx, depth, state, tail)),
    }
}

/// An assertion is made inside the branches of its operands; the statements that follow it are
/// not.
#[verifier::opaque]
pub open spec fn reconstruct_assert_with_tail(
    cx: Context,
    depth: nat,
    state: State,
    input: AssertStatement,
    tail: List<Statement>,
) -> Emitted
    decreases depth, 6int, state,
{
    let span = input.span;
    let emitted = match input.variant {
        AssertVariant::Assert(expression) => {
            let frame = StatementFrame::Assert { span };
            emit(cx, depth, state, expression, Continuation::Statement(frame))
        },
        AssertVariant::AssertEq(left, right) => {
            let frame = StatementFrame::AssertLeft { equal: true, right, span };
            emit(cx, depth, state, left, Continuation::Statement(frame))
        },
        AssertVariant::AssertNeq(left, right) => {
            let frame = StatementFrame::AssertLeft { equal: false, right, span };
            emit(cx, depth, state, left, Continuation::Statement(frame))
        },
    };
    emitted_then_tail(cx, depth, emitted, tail)
}

/// An assignment is made inside the branches of its value; the statements that follow it are not.
#[verifier::opaque]
pub open spec fn reconstruct_assign_with_tail(
    cx: Context,
    depth: nat,
    state: State,
    input: AssignStatement,
    tail: List<Statement>,
) -> Emitted
    decreases depth, 6int, state,
{
    match written_storage(cx, input.place) {
        Err(halt) => Err(halt),
        Ok(Some(name)) => {
            let (state, mapping) = with_suffixed(state, name, "__"@);
            let frame = StatementFrame::StorageValue { mapping, span: input.span };
            emitted_then_tail(
                cx,
                depth,
                emit(cx, depth, state, input.value, Continuation::Statement(frame)),
                tail,
            )
        },
        Ok(None) => {
            let frame = StatementFrame::AssignPlace { value: input.value, span: input.span };
            emitted_then_tail(
                cx,
                depth,
                emit_assign_place(cx, depth, state, input.place, Continuation::Statement(frame)),
                tail,
            )
        },
    }
}

/// The conditional statement stands inside the branches of its condition; the statements that
/// follow it do not.
#[verifier::opaque]
pub open spec fn reconstruct_conditional_with_tail(
    cx: Context,
    depth: nat,
    state: State,
    input: ConditionalStatement,
    tail: List<Statement>,
) -> Emitted
    decreases depth, 6int, state,
{
    let frame = StatementFrame::Conditional { input: Rc::new(input) };
    emitted_then_tail(
        cx,
        depth,
        emit(cx, depth, state, input.condition, Continuation::Statement(frame)),
        tail,
    )
}

/// A definition is made inside the branches of its value, together with the statements that depend
/// on it. Those behind the last one that does follow the branches.
#[verifier::opaque]
pub open spec fn reconstruct_definition_with_tail(
    cx: Context,
    depth: nat,
    state: State,
    input: DefinitionStatement,
    tail: List<Statement>,
) -> Emitted
    decreases depth, 6int, state,
{
    match reconstruct_given_type(cx, state, input.type_) {
        Err(halt) => Err(halt),
        Ok((state, type_)) => match input.place {
            DefinitionPlace::Single(identifier) => {
                let (branch_tail, remaining_tail) = split_tail(tail, identifier.name);
                let frame = StatementFrame::Definition {
                    input: Rc::new(input),
                    type_,
                    tail: branch_tail,
                };
                emitted_then_tail(
                    cx,
                    depth,
                    emit(cx, depth, state, input.value, Continuation::Statement(frame)),
                    remaining_tail,
                )
            },
            DefinitionPlace::Multiple(_) => {
                let frame = StatementFrame::Definition { input: Rc::new(input), type_, tail };
                emit(cx, depth, state, input.value, Continuation::Statement(frame))
            },
        },
    }
}

} // verus!
