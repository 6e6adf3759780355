//! What statements are lowered to holds no storage.
use crate::ast::{
    ArrayAccess, ArrayExpression, AssertStatement, AssertVariant, AssignStatement, BinaryExpression,
    Block, CallExpression, CastExpression, CompositeExpression, ConditionalStatement,
    ConstDeclaration, DefinitionPlace, DefinitionStatement, DynamicOpExpression, DynamicOpKind,
    Expression, ExpressionStatement, FieldInitializer, IntrinsicExpression, MemberAccess, NodeId,
    RepeatExpression, ReturnStatement, Span, Statement, Symbol, TernaryExpression, TupleAccess,
    TupleExpression, Type, UnaryExpression,
};
use crate::list::{appended, copied, one, List};
use crate::purity::can_be_discarded;
use crate::state::{with_id, with_suffixed, State};
use crate::storage_lowering::continuation::{
    Continuation, ListContinuation, ListFrame, OperandFrame, PlaceFrame, StatementFrame,
};
use crate::storage_lowering::emit::{
    as_statement, bind_optional_ternary_branch, copy_expression_type, emit, emit_assign_place,
    emit_branches, emit_composite_base, emit_composite_members, emit_dynamic_arguments, emit_list,
    emit_lowered, emit_step, emitted_then_tail, materialize_if, nested, optional_type_of,
    reconstruct_assert_with_tail, reconstruct_assign_with_tail, reconstruct_block,
    reconstruct_block_statements, reconstruct_conditional_with_tail,
    reconstruct_definition_with_tail, reconstruct_otherwise, reconstruct_statement,
    reconstruct_statement_with_tail, resume, resume_list, resume_list_step, resume_operand,
    resume_place, resume_statement, resume_step, resume_ternary, split_emitted_statement,
    takes_vector, Emitted,
};
use crate::storage_lowering::lowered::{
    all_assign_soundly, are_lowered, assigns_soundly, fields_are_lowered, group_lowered,
    has_sound_place, is_lowered, is_rooted, lemma_sound, lemma_sound_list, lemma_sound_nil,
    lemma_sound_otherwise, lemma_sound_parts, option_is_lowered, otherwise_assigns_soundly,
    otherwise_is_lowered, statement_is_lowered, statements_are_lowered,
};
use crate::storage_lowering::lowered_continuations::{
    continuation_is_lowered, frame_is_lowered, group_continuations, list_continuation_is_lowered,
    operand_is_lowered, place_is_lowered,
};
use crate::storage_lowering::lowered_values::{
    expressions_are_lowered, gives_lowered, lemma_call, lemma_dynamic, lemma_intrinsic,
    lemma_materialize, lemma_type,
};
use crate::storage_lowering::predicates::{
    any_may_emit_after, expression_may_emit_after_reconstruction, statement_requires_tail_cps,
};
use crate::storage_lowering::reconstruct::{
    reconstruct_call, reconstruct_dynamic_op, reconstruct_expression, reconstruct_intrinsic,
    reconstruct_type,
};
use crate::storage_lowering::statements::{
    reconstruct_assert, reconstruct_assign, reconstruct_const, reconstruct_definition,
    reconstruct_expression_statement, reconstruct_given_type, reconstruct_return, write_storage,
    written_storage, LoweredStatement,
};
use crate::storage_lowering::tail::{first_cut, split_tail};
use crate::storage_lowering::vectors::{materialize_strict_prefix_expression, Lowered};
use crate::storage_lowering::visitor::{Context, Step};
use std::rc::Rc;
use vstd::prelude::*;

verus! {

broadcast use {group_lowered, group_continuations};

/// Whether the statements that something is lowered to, if it is, are lowered.
pub open spec fn emits_lowered(cx: Context, emitted: Emitted) -> bool {
    emitted is Ok ==> statements_are_lowered(cx, emitted->Ok_0.1)
}

spec fn gives_lowered_block(cx: Context, step: Step<Block>) -> bool {
    step is Ok ==> statements_are_lowered(cx, step->Ok_0.1.statements)
}

spec fn gives_lowered_otherwise(cx: Context, step: Step<Option<Statement>>) -> bool {
    step is Ok ==> otherwise_is_lowered(cx, step->Ok_0.1)
}

spec fn gives_lowered_statement(cx: Context, step: Step<LoweredStatement>) -> bool {
    step is Ok ==> statement_is_lowered(cx, step->Ok_0.1.0) && statements_are_lowered(
        cx,
        step->Ok_0.1.1,
    )
}

/* Statements by themselves */

proof fn lemma_write(cx: Context, state: State, mapping: Symbol, value: Expression, span: Span)
    requires
        is_lowered(cx, value),
    ensures
        statement_is_lowered(cx, write_storage(cx, state, mapping, value, span).1),
{
    reveal(write_storage);
}

proof fn lemma_assert(cx: Context, state: State, input: AssertStatement)
    ensures
        gives_lowered_statement(cx, reconstruct_assert(cx, state, input)),
{
    reveal(reconstruct_assert);
    match input.variant {
        AssertVariant::Assert(expression) => {
            expressions_are_lowered(cx, state, expression);
        },
        AssertVariant::AssertEq(left, right) => {
            expressions_are_lowered(cx, state, left);
            if let Ok((state, _)) = reconstruct_expression(cx, state, left) {
                expressions_are_lowered(cx, state, right);
            }
        },
        AssertVariant::AssertNeq(left, right) => {
            expressions_are_lowered(cx, state, left);
            if let Ok((state, _)) = reconstruct_expression(cx, state, left) {
                expressions_are_lowered(cx, state, right);
            }
        },
    }
}

proof fn lemma_assign(cx: Context, state: State, input: AssignStatement)
    ensures
        gives_lowered_statement(cx, reconstruct_assign(cx, state, input)),
{
    reveal(reconstruct_assign);
    match written_storage(cx, input.place) {
        Err(_) => {},
        Ok(Some(name)) => {
            expressions_are_lowered(cx, state, input.value);
            if let Ok((state, (value, _))) = reconstruct_expression(cx, state, input.value) {
                let (state, mapping) = with_suffixed(state, name, "__"@);
                lemma_write(cx, state, mapping, value, input.span);
            }
        },
        Ok(None) => {
            expressions_are_lowered(cx, state, input.place);
            if let Ok((state, _)) = reconstruct_expression(cx, state, input.place) {
                expressions_are_lowered(cx, state, input.value);
            }
        },
    }
}

proof fn lemma_const(cx: Context, state: State, input: ConstDeclaration)
    ensures
        gives_lowered_statement(cx, reconstruct_const(cx, state, input)),
{
    reveal(reconstruct_const);
    lemma_type(cx, state, input.type_);
    if let Ok((state, _)) = reconstruct_type(cx, state, input.type_) {
        expressions_are_lowered(cx, state, input.value);
    }
}

proof fn lemma_definition(cx: Context, state: State, input: DefinitionStatement)
    ensures
        gives_lowered_statement(cx, reconstruct_definition(cx, state, input)),
{
    reveal(reconstruct_definition);
    expressions_are_lowered(cx, state, input.value);
}

proof fn lemma_expression_statement(cx: Context, state: State, input: ExpressionStatement)
    ensures
        gives_lowered_statement(cx, reconstruct_expression_statement(cx, state, input)),
{
    reveal(reconstruct_expression_statement);
    expressions_are_lowered(cx, state, input.expression);
}

proof fn lemma_return(cx: Context, state: State, input: ReturnStatement)
    ensures
        gives_lowered_statement(cx, reconstruct_return(cx, state, input)),
{
    reveal(reconstruct_return);
    expressions_are_lowered(cx, state, input.expression);
}

proof fn lemma_split(cx: Context, statements: &List<Statement>)
    requires
        statements_are_lowered(cx, *statements),
    ensures
        split_emitted_statement(*statements) matches Some((last, before))
            ==> statement_is_lowered(cx, last) && statements_are_lowered(cx, before),
    decreases *statements,
{
    reveal(statements_are_lowered);
    reveal(statement_is_lowered);
    match statements {
        List::Nil => {},
        List::Cons(_, rest) => {
            lemma_split(cx, rest);
        },
    }
}

proof fn lemma_as_statement(cx: Context, state: State, statements: List<Statement>)
    requires
        statements_are_lowered(cx, statements),
    ensures
        statement_is_lowered(cx, as_statement(state, statements).1),
{
    match statements {
        List::Nil => {},
        List::Cons(first, rest) => {
            assert(statements@[0] == first);
            assert(statements_are_lowered(cx, List::Cons(first, rest)));
        },
    }
}

proof fn lemma_split_tail(cx: Context, tail: List<Statement>, symbol: Symbol)
    requires
        all_assign_soundly(cx, tail),
    ensures
        all_assign_soundly(cx, split_tail(tail, symbol).0),
        all_assign_soundly(cx, split_tail(tail, symbol).1),
{
    lemma_sound_parts(cx, &tail, first_cut(tail@, symbol, 0));
}

/* Lowering with a view to what follows */

proof fn lowered_emit(
    cx: Context,
    depth: nat,
    state: State,
    expression: Expression,
    continuation: Continuation,
)
    requires
        continuation_is_lowered(cx, continuation),
    ensures
        emits_lowered(cx, emit(cx, depth, state, expression, continuation)),
    decreases depth, 0int, state,
{
    reveal(emit);
    reveal(emit_step);
    if depth > 0 {
        lowered_emit_step(cx, (depth - 1) as nat, state, expression, continuation);
    }
}

proof fn lowered_emit_step(
    cx: Context,
    depth: nat,
    state: State,
    expression: Expression,
    continuation: Continuation,
)
    requires
        continuation_is_lowered(cx, continuation),
    ensures
        emits_lowered(cx, emit_step(cx, depth, state, expression, continuation)),
    decreases depth, 9int, state,
{
    reveal(emit_step);
    reveal(emit);
    reveal(emit_list);
    reveal(emit_lowered);
    let next = Rc::new(continuation);
    match expression {
        Expression::Array(input) => {
            let k = ListContinuation { frame: ListFrame::Array { input }, next };
            lowered_list(cx, depth, state, copied(&input.elements), List::Nil, k);
        },
        Expression::ArrayAccess(input) => {
            let k = Continuation::Operand(OperandFrame::AccessArray { input }, next);
            lowered_emit(cx, depth, state, copied(&input.array), k);
        },
        Expression::Binary(input) => {
            let k = Continuation::Operand(OperandFrame::BinaryLeft { input }, next);
            lowered_emit(cx, depth, state, copied(&input.left), k);
        },
        Expression::Call(input) => {
            let k = ListContinuation { frame: ListFrame::CallConst { input }, next };
            lowered_list(cx, depth, state, copied(&input.const_arguments), List::Nil, k);
        },
        Expression::Cast(input) => {
            let k = Continuation::Operand(OperandFrame::Cast { input }, next);
            lowered_emit(cx, depth, state, copied(&input.expression), k);
        },
        Expression::Composite(input) => {
            let k = ListContinuation { frame: ListFrame::CompositeConst { input }, next };
            lowered_list(cx, depth, state, copied(&input.const_arguments), List::Nil, k);
        },
        Expression::DynamicOp(input) => {
            let k = Continuation::Operand(OperandFrame::DynamicTarget { input }, next);
            lowered_emit(cx, depth, state, copied(&input.target_program), k);
        },
        Expression::Intrinsic(input) => {
            if takes_vector(input.op) {
                if let List::Cons(vector, values) = &input.arguments {
                    let first = one(copied(vector));
                    let k = ListContinuation { frame: ListFrame::Intrinsic { input, first }, next };
                    lowered_list(cx, depth, state, copied(&**values), List::Nil, k);
                }
            } else {
                let first = List::Nil;
                let k = ListContinuation { frame: ListFrame::Intrinsic { input, first }, next };
                lowered_list(cx, depth, state, copied(&input.arguments), List::Nil, k);
            }
        },
        Expression::MemberAccess(input) => {
            let k = Continuation::Operand(OperandFrame::MemberAccess { input }, next);
            lowered_emit(cx, depth, state, copied(&input.inner), k);
        },
        Expression::Repeat(input) => {
            let k = Continuation::Operand(OperandFrame::RepeatElement { input }, next);
            lowered_emit(cx, depth, state, copied(&input.expr), k);
        },
        Expression::Ternary(input) => {
            let optional_type = optional_type_of(state, input.id);
            let frame = OperandFrame::TernaryCondition { input, optional_type };
            let k = Continuation::Operand(frame, next);
            lowered_emit(cx, depth, state, copied(&input.condition), k);
        },
        Expression::Tuple(input) => {
            let k = ListContinuation { frame: ListFrame::Tuple { input }, next };
            lowered_list(cx, depth, state, copied(&input.elements), List::Nil, k);
        },
        Expression::TupleAccess(input) => {
            let k = Continuation::Operand(OperandFrame::TupleAccess { input }, next);
            lowered_emit(cx, depth, state, copied(&input.tuple), k);
        },
        Expression::Unary(input) => {
            let k = Continuation::Operand(OperandFrame::Unary { input }, next);
            lowered_emit(cx, depth, state, copied(&input.receiver), k);
        },
        _ => {
            let lowered = reconstruct_expression(cx, state, expression);
            expressions_are_lowered(cx, state, expression);
            lowered_lowered(cx, depth, lowered, expression.spec_id(), false, continuation);
        },
    }
}

proof fn lowered_lowered(
    cx: Context,
    depth: nat,
    lowered: Step<Lowered>,
    source: NodeId,
    keeps_dynamic: bool,
    continuation: Continuation,
)
    requires
        gives_lowered(cx, lowered),
        continuation_is_lowered(cx, continuation),
    ensures
        emits_lowered(cx, emit_lowered(cx, depth, lowered, source, keeps_dynamic, continuation)),
    decreases depth, 1int, lowered,
{
    reveal(emit_lowered);
    reveal(emit);
    reveal(resume);
    if let Ok((state, (expression, _))) = lowered {
        let state = copy_expression_type(state, source, expression.spec_id());
        lowered_emit(cx, depth, state, expression, continuation);
        lowered_resume(cx, depth, state, continuation, expression);
    }
}

proof fn lowered_list(
    cx: Context,
    depth: nat,
    state: State,
    remaining: List<Expression>,
    rebuilt: List<Expression>,
    continuation: ListContinuation,
)
    requires
        are_lowered(cx, rebuilt),
        list_continuation_is_lowered(cx, continuation),
    ensures
        emits_lowered(cx, emit_list(cx, depth, state, remaining, rebuilt, continuation)),
    decreases depth, 1int, state,
{
    reveal(emit_list);
    reveal(emit);
    reveal(resume_list);
    match remaining {
        List::Nil => {
            lowered_resume_list(cx, depth, state, continuation, rebuilt);
        },
        List::Cons(expression, rest) => {
            let k = Continuation::Element {
                rest: copied(&*rest),
                rebuilt,
                next: Rc::new(continuation),
            };
            lowered_emit(cx, depth, state, expression, k);
        },
    }
}

proof fn lowered_branches(
    cx: Context,
    depth: nat,
    state: State,
    condition: Expression,
    if_true: Lowered,
    if_false: Lowered,
    optional_type: Option<Type>,
    span: Span,
    continuation: Continuation,
)
    requires
        is_lowered(cx, condition),
        statements_are_lowered(cx, if_true.1),
        statements_are_lowered(cx, if_false.1),
        continuation_is_lowered(cx, continuation),
    ensures
        emits_lowered(
            cx,
            emit_branches(
                cx,
                depth,
                state,
                condition,
                if_true,
                if_false,
                optional_type,
                span,
                continuation,
            ),
        ),
    decreases depth, 1int, state,
{
    reveal(emit_branches);
    reveal(emit);
    let arm = Continuation::Operand(
        OperandFrame::TernaryArm { optional_type, span },
        Rc::new(continuation),
    );
    lowered_emit(cx, depth, state, if_true.0, arm);
    if let Ok((state, _)) = emit(cx, depth, state, if_true.0, arm) {
        lowered_emit(cx, depth, state, if_false.0, arm);
    }
}

proof fn lowered_dynamic_arguments(
    cx: Context,
    depth: nat,
    state: State,
    input: DynamicOpExpression,
    continuation: Continuation,
)
    requires
        continuation_is_lowered(cx, continuation),
    ensures
        emits_lowered(cx, emit_dynamic_arguments(cx, depth, state, input, continuation)),
    decreases depth, 2int, state,
{
    reveal(emit_dynamic_arguments);
    reveal(emit_lowered);
    reveal(emit_list);
    let k = ListContinuation {
        frame: ListFrame::DynamicArguments { input: Rc::new(input) },
        next: Rc::new(continuation),
    };
    match input.kind {
        DynamicOpKind::Read { .. } => {
            let lowered = reconstruct_dynamic_op(cx, state, input);
            lemma_dynamic(cx, state, input);
            lowered_lowered(cx, depth, lowered, input.id, true, continuation);
        },
        DynamicOpKind::Op { arguments, .. } => {
            lowered_list(cx, depth, state, arguments, List::Nil, k);
        },
        DynamicOpKind::Call { arguments, .. } => {
            lowered_list(cx, depth, state, arguments, List::Nil, k);
        },
    }
}

proof fn lowered_composite_members(
    cx: Context,
    depth: nat,
    state: State,
    input: CompositeExpression,
    done: List<FieldInitializer>,
    rest: List<FieldInitializer>,
    continuation: Continuation,
)
    requires
        fields_are_lowered(cx, done),
        continuation_is_lowered(cx, continuation),
    ensures
        emits_lowered(
            cx,
            emit_composite_members(cx, depth, state, input, done, rest, continuation),
        ),
    decreases depth, 3int, rest,
{
    reveal(emit_composite_members);
    reveal(emit_composite_base);
    reveal(emit);
    match rest {
        List::Nil => {
            let composite = CompositeExpression { members: done, ..input };
            lowered_composite_base(cx, depth, state, composite, continuation);
        },
        List::Cons(member, rest) => match &member.expression {
            None => {
                let done = appended(done, one(member));
                lowered_composite_members(
                    cx,
                    depth,
                    state,
                    input,
                    done,
                    copied(&*rest),
                    continuation,
                );
            },
            Some(value) => {
                let frame = OperandFrame::CompositeMember {
                    input: Rc::new(input),
                    done,
                    member,
                    rest: copied(&*rest),
                };
                let k = Continuation::Operand(frame, Rc::new(continuation));
                lowered_emit(cx, depth, state, copied(value), k);
            },
        },
    }
}

proof fn lowered_composite_base(
    cx: Context,
    depth: nat,
    state: State,
    input: CompositeExpression,
    continuation: Continuation,
)
    requires
        fields_are_lowered(cx, input.members),
        continuation_is_lowered(cx, continuation),
    ensures
        emits_lowered(cx, emit_composite_base(cx, depth, state, input, continuation)),
    decreases depth, 2int, state,
{
    reveal(emit_composite_base);
    reveal(emit);
    reveal(resume);
    match input.base {
        None => {
            assert(option_is_lowered(cx, None));
            let value = Expression::Composite(Rc::new(input));
            lowered_resume(cx, depth, state, continuation, value);
        },
        Some(base) => {
            let frame = OperandFrame::CompositeBase { input: Rc::new(input) };
            let k = Continuation::Operand(frame, Rc::new(continuation));
            lowered_emit(cx, depth, state, base, k);
        },
    }
}

proof fn lowered_assign_place(
    cx: Context,
    depth: nat,
    state: State,
    place: &Expression,
    continuation: Continuation,
)
    requires
        is_rooted(cx, *place),
        continuation_is_lowered(cx, continuation),
    ensures
        emits_lowered(cx, emit_assign_place(cx, depth, state, *place, continuation)),
    decreases depth, 1int, *place,
{
    reveal(emit_assign_place);
    reveal(resume);
    let next = Rc::new(continuation);
    match place {
        Expression::ArrayAccess(input) => {
            let k = Continuation::Place(PlaceFrame::Array { input: copied(input) }, next);
            lowered_assign_place(cx, depth, state, &input.array, k);
        },
        Expression::MemberAccess(input) => {
            let k = Continuation::Place(PlaceFrame::Member { input: copied(input) }, next);
            lowered_assign_place(cx, depth, state, &input.inner, k);
        },
        Expression::TupleAccess(input) => {
            let k = Continuation::Place(PlaceFrame::Tuple { input: copied(input) }, next);
            lowered_assign_place(cx, depth, state, &input.tuple, k);
        },
        _ => {
            lowered_resume(cx, depth, state, continuation, copied(place));
        },
    }
}

proof fn lowered_resume(
    cx: Context,
    depth: nat,
    state: State,
    continuation: Continuation,
    value: Expression,
)
    requires
        continuation_is_lowered(cx, continuation),
        is_lowered(cx, value),
    ensures
        emits_lowered(cx, resume(cx, depth, state, continuation, value)),
    decreases depth, 0int, state,
{
    reveal(resume);
    reveal(resume_step);
    if depth > 0 {
        lowered_resume_step(cx, (depth - 1) as nat, state, continuation, value);
    }
}

proof fn lowered_resume_step(
    cx: Context,
    depth: nat,
    state: State,
    continuation: Continuation,
    value: Expression,
)
    requires
        continuation_is_lowered(cx, continuation),
        is_lowered(cx, value),
    ensures
        emits_lowered(cx, resume_step(cx, depth, state, continuation, value)),
    decreases depth, 11int, state,
{
    reveal(resume_step);
    reveal(emit_list);
    reveal(resume_operand);
    reveal(resume_place);
    reveal(resume_statement);
    match continuation {
        Continuation::Operand(frame, next) => {
            lowered_resume_operand(cx, depth, state, frame, copied(&*next), value);
        },
        Continuation::Element { rest, rebuilt, next } => {
            lemma_materialize(cx, state, value);
            if let Ok((state, (value, _))) = materialize_if(
                cx,
                state,
                value,
                any_may_emit_after(cx, rest),
            ) {
                let rebuilt = appended(rebuilt, one(value));
                lowered_list(cx, depth, state, rest, rebuilt, copied(&*next));
            }
        },
        Continuation::Place(frame, next) => {
            lowered_resume_place(cx, depth, state, frame, copied(&*next), value);
        },
        Continuation::Statement(frame) => {
            lowered_resume_statement(cx, depth, state, frame, value);
        },
    }
}

proof fn lowered_resume_operand(
    cx: Context,
    depth: nat,
    state: State,
    frame: OperandFrame,
    next: Continuation,
    value: Expression,
)
    requires
        operand_is_lowered(cx, frame),
        continuation_is_lowered(cx, next),
        is_lowered(cx, value),
    ensures
        emits_lowered(cx, resume_operand(cx, depth, state, frame, next, value)),
    decreases depth, 10int, state,
{
    reveal(resume_operand);
    reveal(emit);
    reveal(resume);
    reveal(resume_ternary);
    reveal(emit_dynamic_arguments);
    reveal(emit_composite_members);
    let after = Rc::new(next);
    match frame {
        OperandFrame::AccessArray { input } => {
            let index = copied(&input.index);
            let strict = expression_may_emit_after_reconstruction(cx, index);
            lemma_materialize(cx, state, value);
            if let Ok((state, (array, _))) = materialize_if(cx, state, value, strict) {
                let frame = OperandFrame::AccessIndex { array, input };
                lowered_emit(cx, depth, state, index, Continuation::Operand(frame, after));
            }
        },
        OperandFrame::AccessIndex { array, input } => {
            let access = ArrayAccess { array, index: value, ..copied(&*input) };
            lowered_resume(cx, depth, state, next, Expression::ArrayAccess(Rc::new(access)));
        },
        OperandFrame::BinaryLeft { input } => {
            let right = copied(&input.right);
            let strict = expression_may_emit_after_reconstruction(cx, right);
            lemma_materialize(cx, state, value);
            if let Ok((state, (left, _))) = materialize_if(cx, state, value, strict) {
                let frame = OperandFrame::BinaryRight { left, input };
                lowered_emit(cx, depth, state, right, Continuation::Operand(frame, after));
            }
        },
        OperandFrame::BinaryRight { left, input } => {
            let binary = BinaryExpression { left, right: value, ..copied(&*input) };
            lowered_resume(cx, depth, state, next, Expression::Binary(Rc::new(binary)));
        },
        OperandFrame::Cast { input } => {
            let cast = CastExpression { expression: value, ..copied(&*input) };
            lowered_resume(cx, depth, state, next, Expression::Cast(Rc::new(cast)));
        },
        OperandFrame::MemberAccess { input } => {
            let access = MemberAccess { inner: value, ..copied(&*input) };
            lowered_resume(cx, depth, state, next, Expression::MemberAccess(Rc::new(access)));
        },
        OperandFrame::RepeatElement { input } => {
            let count = copied(&input.count);
            let strict = expression_may_emit_after_reconstruction(cx, count);
            lemma_materialize(cx, state, value);
            if let Ok((state, (expr, _))) = materialize_if(cx, state, value, strict) {
                let frame = OperandFrame::RepeatCount { expr, input };
                lowered_emit(cx, depth, state, count, Continuation::Operand(frame, after));
            }
        },
        OperandFrame::RepeatCount { expr, input } => {
            let repeat = RepeatExpression { expr, count: value, ..copied(&*input) };
            lowered_resume(cx, depth, state, next, Expression::Repeat(Rc::new(repeat)));
        },
        OperandFrame::TernaryCondition { input, optional_type } => {
            lowered_resume_ternary(cx, depth, state, copied(&*input), optional_type, next, value);
        },
        OperandFrame::TernaryArm { optional_type, span } => {
            lowered_resume(cx, depth, state, next, value);
            if let Some(optional_type) = optional_type {
                let (state, (variable, _)) = bind_optional_ternary_branch(
                    state,
                    value,
                    optional_type,
                    span,
                );
                lowered_resume(cx, depth, state, next, variable);
            }
        },
        OperandFrame::TupleAccess { input } => {
            let access = TupleAccess { tuple: value, ..copied(&*input) };
            lowered_resume(cx, depth, state, next, Expression::TupleAccess(Rc::new(access)));
        },
        OperandFrame::Unary { input } => {
            let unary = UnaryExpression { receiver: value, ..copied(&*input) };
            lowered_resume(cx, depth, state, next, Expression::Unary(Rc::new(unary)));
        },
        OperandFrame::DynamicTarget { input } => {
            lemma_materialize(cx, state, value);
            if let Ok((state, (target_program, _))) = materialize_strict_prefix_expression(
                cx,
                state,
                value,
            ) {
                let access = DynamicOpExpression { target_program, ..copied(&*input) };
                lowered_dynamic_arguments(cx, depth, state, access, next);
                if let Some(network) = &input.network {
                    let frame = OperandFrame::DynamicNetwork { input: Rc::new(access) };
                    let k = Continuation::Operand(frame, after);
                    lowered_emit(cx, depth, state, copied(network), k);
                }
            }
        },
        OperandFrame::DynamicNetwork { input } => {
            lemma_materialize(cx, state, value);
            if let Ok((state, (network, _))) = materialize_strict_prefix_expression(
                cx,
                state,
                value,
            ) {
                let access = DynamicOpExpression { network: Some(network), ..copied(&*input) };
                lowered_dynamic_arguments(cx, depth, state, access, next);
            }
        },
        OperandFrame::CompositeMember { input, done, member, rest } => {
            lemma_materialize(cx, state, value);
            if let Ok((state, (value, _))) = materialize_strict_prefix_expression(
                cx,
                state,
                value,
            ) {
                let member = FieldInitializer { expression: Some(value), ..member };
                let done = appended(done, one(member));
                lowered_composite_members(cx, depth, state, copied(&*input), done, rest, next);
            }
        },
        OperandFrame::CompositeBase { input } => {
            let composite = CompositeExpression { base: Some(value), ..copied(&*input) };
            lowered_resume(cx, depth, state, next, Expression::Composite(Rc::new(composite)));
        },
    }
}

proof fn lowered_resume_ternary(
    cx: Context,
    depth: nat,
    state: State,
    input: TernaryExpression,
    optional_type: Option<Type>,
    next: Continuation,
    condition: Expression,
)
    requires
        continuation_is_lowered(cx, next),
        is_lowered(cx, condition),
    ensures
        emits_lowered(cx, resume_ternary(cx, depth, state, input, optional_type, next, condition)),
    decreases depth, 9int, state,
{
    reveal(resume_ternary);
    reveal(emit_branches);
    reveal(resume);
    let if_true = (input.if_true, List::Nil);
    let if_false = (input.if_false, List::Nil);
    let span = input.span;
    lowered_branches(cx, depth, state, condition, if_true, if_false, optional_type, span, next);
    expressions_are_lowered(cx, state, input.if_true);
    if let Ok((state, if_true)) = reconstruct_expression(cx, state, input.if_true) {
        expressions_are_lowered(cx, state, input.if_false);
        if let Ok((state, if_false)) = reconstruct_expression(cx, state, input.if_false) {
            let ternary = TernaryExpression {
                condition,
                if_true: if_true.0,
                if_false: if_false.0,
                ..input
            };
            lowered_resume(cx, depth, state, next, Expression::Ternary(Rc::new(ternary)));
            lowered_branches(
                cx,
                depth,
                state,
                condition,
                if_true,
                if_false,
                optional_type,
                span,
                next,
            );
        }
    }
}

proof fn lowered_resume_place(
    cx: Context,
    depth: nat,
    state: State,
    frame: PlaceFrame,
    next: Continuation,
    value: Expression,
)
    requires
        place_is_lowered(cx, frame),
        continuation_is_lowered(cx, next),
        is_lowered(cx, value),
    ensures
        emits_lowered(cx, resume_place(cx, depth, state, frame, next, value)),
    decreases depth, 10int, state,
{
    reveal(resume_place);
    reveal(emit);
    reveal(resume);
    match frame {
        PlaceFrame::Array { input } => {
            let frame = PlaceFrame::Index { array: value, input };
            let k = Continuation::Place(frame, Rc::new(next));
            lowered_emit(cx, depth, state, copied(&input.index), k);
        },
        PlaceFrame::Index { array, input } => {
            lemma_materialize(cx, state, value);
            if let Ok((state, (index, _))) = materialize_strict_prefix_expression(
                cx,
                state,
                value,
            ) {
                let access = ArrayAccess { array, index, ..copied(&*input) };
                lowered_resume(cx, depth, state, next, Expression::ArrayAccess(Rc::new(access)));
            }
        },
        PlaceFrame::Member { input } => {
            let access = MemberAccess { inner: value, ..copied(&*input) };
            lowered_resume(cx, depth, state, next, Expression::MemberAccess(Rc::new(access)));
        },
        PlaceFrame::Tuple { input } => {
            let access = TupleAccess { tuple: value, ..copied(&*input) };
            lowered_resume(cx, depth, state, next, Expression::TupleAccess(Rc::new(access)));
        },
    }
}

proof fn lowered_resume_list(
    cx: Context,
    depth: nat,
    state: State,
    continuation: ListContinuation,
    values: List<Expression>,
)
    requires
        list_continuation_is_lowered(cx, continuation),
        are_lowered(cx, values),
    ensures
        emits_lowered(cx, resume_list(cx, depth, state, continuation, values)),
    decreases depth, 0int, state,
{
    reveal(resume_list);
    reveal(resume_list_step);
    if depth > 0 {
        lowered_resume_list_step(cx, (depth - 1) as nat, state, continuation, values);
    }
}

proof fn lowered_resume_list_step(
    cx: Context,
    depth: nat,
    state: State,
    continuation: ListContinuation,
    values: List<Expression>,
)
    requires
        list_continuation_is_lowered(cx, continuation),
        are_lowered(cx, values),
    ensures
        emits_lowered(cx, resume_list_step(cx, depth, state, continuation, values)),
    decreases depth, 9int, state,
{
    reveal(resume_list_step);
    reveal(resume);
    reveal(emit_list);
    reveal(emit_lowered);
    reveal(emit_composite_members);
    let next = copied(&*continuation.next);
    match continuation.frame {
        ListFrame::Array { input } => {
            let array = ArrayExpression { elements: values, ..copied(&*input) };
            lowered_resume(cx, depth, state, next, Expression::Array(Rc::new(array)));
        },
        ListFrame::CallConst { input } => {
            let frame = ListFrame::CallArguments { input, const_arguments: values };
            let k = ListContinuation { frame, next: continuation.next };
            lowered_list(cx, depth, state, copied(&input.arguments), List::Nil, k);
        },
        ListFrame::CallArguments { input, const_arguments } => {
            let call = CallExpression {
                const_arguments,
                arguments: values,
                ..copied(&*input)
            };
            let lowered = reconstruct_call(cx, state, call);
            lemma_call(cx, state, call);
            lowered_lowered(cx, depth, lowered, input.id, false, next);
        },
        ListFrame::CompositeConst { input } => {
            let composite = CompositeExpression { const_arguments: values, ..copied(&*input) };
            let members = copied(&input.members);
            lowered_composite_members(cx, depth, state, composite, List::Nil, members, next);
        },
        ListFrame::DynamicArguments { input } => {
            let kind = match copied(&input.kind) {
                DynamicOpKind::Read { storage } => DynamicOpKind::Read { storage },
                DynamicOpKind::Op { member, op, arguments: _ } => DynamicOpKind::Op {
                    member,
                    op,
                    arguments: values,
                },
                DynamicOpKind::Call { function, arguments: _ } => DynamicOpKind::Call {
                    function,
                    arguments: values,
                },
            };
            let access = DynamicOpExpression { kind, ..copied(&*input) };
            let lowered = reconstruct_dynamic_op(cx, state, access);
            lemma_dynamic(cx, state, access);
            lowered_lowered(cx, depth, lowered, input.id, true, next);
        },
        ListFrame::Intrinsic { input, first } => {
            let arguments = appended(first, values);
            let operation = IntrinsicExpression { arguments, ..copied(&*input) };
            let lowered = reconstruct_intrinsic(cx, state, operation);
            lemma_intrinsic(cx, state, operation);
            lowered_lowered(cx, depth, lowered, input.id, false, next);
        },
        ListFrame::Tuple { input } => {
            let tuple = TupleExpression { elements: values, ..copied(&*input) };
            lowered_resume(cx, depth, state, next, Expression::Tuple(Rc::new(tuple)));
        },
    }
}

proof fn lowered_resume_statement(
    cx: Context,
    depth: nat,
    state: State,
    frame: StatementFrame,
    value: Expression,
)
    requires
        frame_is_lowered(cx, frame),
        is_lowered(cx, value),
    ensures
        emits_lowered(cx, resume_statement(cx, depth, state, frame, value)),
    decreases depth, 10int, state,
{
    reveal(resume_statement);
    reveal(emit);
    reveal(nested);
    reveal(reconstruct_block);
    reveal(reconstruct_otherwise);
    match frame {
        StatementFrame::Const { input: _, type_: _, tail } => {
            lowered_nested(cx, depth, state, tail);
        },
        StatementFrame::Definition { input: _, type_: _, tail } => {
            lowered_nested(cx, depth, with_id(state), tail);
        },
        StatementFrame::AssertLeft { equal, right, span } => {
            let strict = expression_may_emit_after_reconstruction(cx, right);
            lemma_materialize(cx, state, value);
            if let Ok((state, (left, _))) = materialize_if(cx, state, value, strict) {
                let frame = StatementFrame::AssertRight { equal, left, span };
                lowered_emit(cx, depth, state, right, Continuation::Statement(frame));
            }
        },
        StatementFrame::StorageValue { mapping, span } => {
            lemma_write(cx, state, mapping, value, span);
        },
        StatementFrame::AssignPlace { value: assigned, span } => {
            let frame = StatementFrame::AssignValue { place: value, span };
            lowered_emit(cx, depth, state, assigned, Continuation::Statement(frame));
        },
        StatementFrame::Conditional { input } => {
            let then_block = copied(&input.then_block);
            lowered_block(cx, depth, state, then_block);
            if let Ok((state, _)) = reconstruct_block(cx, depth, state, then_block) {
                lowered_otherwise(cx, depth, state, copied(&input.otherwise));
            }
        },
        StatementFrame::IterationStart { input, type_ } => {
            lemma_materialize(cx, state, value);
            if let Ok((state, (start, _))) = materialize_strict_prefix_expression(
                cx,
                state,
                value,
            ) {
                let frame = StatementFrame::IterationStop { input, type_, start };
                lowered_emit(
                    cx,
                    depth,
                    state,
                    copied(&input.stop),
                    Continuation::Statement(frame),
                );
            }
        },
        StatementFrame::IterationStop { input, type_: _, start: _ } => {
            lowered_block(cx, depth, state, copied(&input.block));
        },
        _ => {},
    }
}

proof fn lowered_nested(cx: Context, depth: nat, state: State, statements: List<Statement>)
    requires
        all_assign_soundly(cx, statements),
    ensures
        emits_lowered(cx, nested(cx, depth, state, statements)),
    decreases depth, 1int, statements,
{
    reveal(nested);
    reveal(reconstruct_block_statements);
    if depth > 0 {
        lowered_block_statements(cx, (depth - 1) as nat, state, &statements);
    }
}

proof fn lowered_block_statements(
    cx: Context,
    depth: nat,
    state: State,
    statements: &List<Statement>,
)
    requires
        all_assign_soundly(cx, *statements),
    ensures
        emits_lowered(cx, reconstruct_block_statements(cx, depth, state, *statements)),
    decreases depth, 8int, *statements,
{
    reveal(reconstruct_block_statements);
    reveal(reconstruct_statement);
    reveal(reconstruct_statement_with_tail);
    match statements {
        List::Nil => {},
        List::Cons(first, rest) => {
            lemma_sound_list(cx, copied(first), copied(&**rest));
            if statement_requires_tail_cps(cx, copied(first)) {
                lemma_sound(cx, copied(first));
                lowered_statement_with_tail(cx, depth, state, copied(first), copied(&**rest));
            }
            lowered_statement(cx, depth, state, copied(first));
            if let Ok((state, _)) = reconstruct_statement(cx, depth, state, copied(first)) {
                lowered_block_statements(cx, depth, state, rest);
            }
        },
    }
}

proof fn lowered_block(cx: Context, depth: nat, state: State, block: Block)
    requires
        all_assign_soundly(cx, block.statements),
    ensures
        gives_lowered_block(cx, reconstruct_block(cx, depth, state, block)),
    decreases depth, 2int, block,
{
    reveal(reconstruct_block);
    reveal(nested);
    lowered_nested(cx, depth, state, block.statements);
}

proof fn lowered_otherwise(cx: Context, depth: nat, state: State, otherwise: Option<Statement>)
    requires
        otherwise_assigns_soundly(cx, otherwise),
    ensures
        gives_lowered_otherwise(cx, reconstruct_otherwise(cx, depth, state, otherwise)),
    decreases depth, 8int, otherwise,
{
    reveal(reconstruct_otherwise);
    reveal(reconstruct_statement_with_tail);
    lemma_sound_nil(cx);
    if let Some(statement) = otherwise {
        lemma_sound_otherwise(cx, statement);
        lowered_statement_with_tail(cx, depth, state, statement, List::Nil);
        if let Ok((state, statements)) = reconstruct_statement_with_tail(
            cx,
            depth,
            state,
            statement,
            List::Nil,
        ) {
            lemma_as_statement(cx, state, statements);
        }
    }
}

proof fn lowered_statement(cx: Context, depth: nat, state: State, statement: Statement)
    requires
        assigns_soundly(cx, statement),
    ensures
        gives_lowered_statement(cx, reconstruct_statement(cx, depth, state, statement)),
    decreases depth, 7int, statement,
{
    reveal(reconstruct_statement);
    reveal(reconstruct_block);
    reveal(reconstruct_conditional_with_tail);
    lemma_sound(cx, statement);
    lemma_sound_nil(cx);
    match statement {
        Statement::Assert(input) => {
            lemma_assert(cx, state, copied(&*input));
        },
        Statement::Assign(input) => {
            lemma_assign(cx, state, copied(&*input));
        },
        Statement::Block(block) => {
            lowered_block(cx, depth, state, copied(&*block));
        },
        Statement::Conditional(input) => {
            lowered_conditional(cx, depth, state, copied(&*input), List::Nil);
            if let Ok((_, statements)) = reconstruct_conditional_with_tail(
                cx,
                depth,
                state,
                copied(&*input),
                List::Nil,
            ) {
                lemma_split(cx, &statements);
            }
        },
        Statement::Const(input) => {
            lemma_const(cx, state, copied(&*input));
        },
        Statement::Definition(input) => {
            lemma_definition(cx, state, copied(&*input));
        },
        Statement::Expression(input) => {
            lemma_expression_statement(cx, state, copied(&*input));
        },
        Statement::Iteration(_) => {},
        Statement::Return(input) => {
            lemma_return(cx, state, copied(&*input));
        },
    }
}

proof fn lowered_then_tail(cx: Context, depth: nat, emitted: Emitted, tail: List<Statement>)
    requires
        emits_lowered(cx, emitted),
        all_assign_soundly(cx, tail),
    ensures
        emits_lowered(cx, emitted_then_tail(cx, depth, emitted, tail)),
    decreases depth, 2int, tail,
{
    reveal(emitted_then_tail);
    reveal(nested);
    if let Ok((state, _)) = emitted {
        lowered_nested(cx, depth, state, tail);
    }
}

proof fn lowered_conditional(
    cx: Context,
    depth: nat,
    state: State,
    input: ConditionalStatement,
    tail: List<Statement>,
)
    requires
        all_assign_soundly(cx, input.then_block.statements),
        otherwise_assigns_soundly(cx, input.otherwise),
        all_assign_soundly(cx, tail),
    ensures
        emits_lowered(cx, reconstruct_conditional_with_tail(cx, depth, state, input, tail)),
    decreases depth, 6int, state,
{
    reveal(reconstruct_conditional_with_tail);
    reveal(emit);
    reveal(emitted_then_tail);
    let k = Continuation::Statement(StatementFrame::Conditional { input: Rc::new(input) });
    lowered_emit(cx, depth, state, input.condition, k);
    lowered_then_tail(cx, depth, emit(cx, depth, state, input.condition, k), tail);
}

proof fn lowered_assert(
    cx: Context,
    depth: nat,
    state: State,
    input: AssertStatement,
    tail: List<Statement>,
)
    requires
        all_assign_soundly(cx, tail),
    ensures
        emits_lowered(cx, reconstruct_assert_with_tail(cx, depth, state, input, tail)),
    decreases depth, 6int, state,
{
    reveal(reconstruct_assert_with_tail);
    reveal(emit);
    reveal(emitted_then_tail);
    let span = input.span;
    match input.variant {
        AssertVariant::Assert(expression) => {
            let k = Continuation::Statement(StatementFrame::Assert { span });
            lowered_emit(cx, depth, state, expression, k);
            lowered_then_tail(cx, depth, emit(cx, depth, state, expression, k), tail);
        },
        AssertVariant::AssertEq(left, right) => {
            let frame = StatementFrame::AssertLeft { equal: true, right, span };
            let k = Continuation::Statement(frame);
            lowered_emit(cx, depth, state, left, k);
            lowered_then_tail(cx, depth, emit(cx, depth, state, left, k), tail);
        },
        AssertVariant::AssertNeq(left, right) => {
            let frame = StatementFrame::AssertLeft { equal: false, right, span };
            let k = Continuation::Statement(frame);
            lowered_emit(cx, depth, state, left, k);
            lowered_then_tail(cx, depth, emit(cx, depth, state, left, k), tail);
        },
    }
}

proof fn lowered_assign(
    cx: Context,
    depth: nat,
    state: State,
    input: AssignStatement,
    tail: List<Statement>,
)
    requires
        input.place is Path || is_rooted(cx, input.place),
        all_assign_soundly(cx, tail),
    ensures
        emits_lowered(cx, reconstruct_assign_with_tail(cx, depth, state, input, tail)),
    decreases depth, 6int, state,
{
    reveal(reconstruct_assign_with_tail);
    reveal(emit);
    reveal(emit_assign_place);
    reveal(emitted_then_tail);
    match written_storage(cx, input.place) {
        Err(_) => {},
        Ok(Some(name)) => {
            let (state, mapping) = with_suffixed(state, name, "__"@);
            let frame = StatementFrame::StorageValue { mapping, span: input.span };
            let k = Continuation::Statement(frame);
            lowered_emit(cx, depth, state, input.value, k);
            lowered_then_tail(cx, depth, emit(cx, depth, state, input.value, k), tail);
        },
        Ok(None) => {
            let frame = StatementFrame::AssignPlace { value: input.value, span: input.span };
            let k = Continuation::Statement(frame);
            lowered_assign_place(cx, depth, state, &input.place, k);
            lowered_then_tail(cx, depth, emit_assign_place(cx, depth, state, input.place, k), tail);
        },
    }
}

proof fn lowered_definition(
    cx: Context,
    depth: nat,
    state: State,
    input: DefinitionStatement,
    tail: List<Statement>,
)
    requires
        all_assign_soundly(cx, tail),
    ensures
        emits_lowered(cx, reconstruct_definition_with_tail(cx, depth, state, input, tail)),
    decreases depth, 6int, state,
{
    reveal(reconstruct_definition_with_tail);
    reveal(emit);
    reveal(emitted_then_tail);
    if let DefinitionPlace::Single(identifier) = input.place {
        lemma_split_tail(cx, tail, identifier.name);
    }
    if let Ok((state, type_)) = reconstruct_given_type(cx, state, input.type_) {
        match input.place {
            DefinitionPlace::Single(identifier) => {
                let (branch_tail, rest) = split_tail(tail, identifier.name);
                let frame = StatementFrame::Definition {
                    input: Rc::new(input),
                    type_,
                    tail: branch_tail,
                };
                let k = Continuation::Statement(frame);
                lowered_emit(cx, depth, state, input.value, k);
                lowered_then_tail(cx, depth, emit(cx, depth, state, input.value, k), rest);
            },
            DefinitionPlace::Multiple(_) => {
                let frame = StatementFrame::Definition { input: Rc::new(input), type_, tail };
                lowered_emit(cx, depth, state, input.value, Continuation::Statement(frame));
            },
        }
    }
}

proof fn lowered_statement_with_tail(
    cx: Context,
    depth: nat,
    state: State,
    statement: Statement,
    tail: List<Statement>,
)
    requires
        assigns_soundly(cx, statement),
        has_sound_place(cx, statement),
        all_assign_soundly(cx, tail),
    ensures
        emits_lowered(cx, reconstruct_statement_with_tail(cx, depth, state, statement, tail)),
    decreases depth, 7int, state,
{
    reveal(reconstruct_statement_with_tail);
    reveal(reconstruct_assert_with_tail);
    reveal(reconstruct_assign_with_tail);
    reveal(reconstruct_block);
    reveal(nested);
    reveal(reconstruct_conditional_with_tail);
    reveal(emit);
    reveal(reconstruct_definition_with_tail);
    reveal(emitted_then_tail);
    lemma_sound(cx, statement);
    match statement {
        Statement::Assert(input) => {
            lowered_assert(cx, depth, state, copied(&*input), tail);
        },
        Statement::Assign(input) => {
            lowered_assign(cx, depth, state, copied(&*input), tail);
        },
        Statement::Block(block) => {
            lowered_block(cx, depth, state, copied(&*block));
            if let Ok((state, _)) = reconstruct_block(cx, depth, state, copied(&*block)) {
                lowered_nested(cx, depth, state, tail);
            }
        },
        Statement::Conditional(input) => {
            lowered_conditional(cx, depth, state, copied(&*input), tail);
        },
        Statement::Const(input) => {
            lemma_type(cx, state, copied(&input.type_));
            if let Ok((state, (type_, _))) = reconstruct_type(cx, state, copied(&input.type_)) {
                let k = Continuation::Statement(StatementFrame::Const { input, type_, tail });
                lowered_emit(cx, depth, state, copied(&input.value), k);
            }
        },
        Statement::Definition(input) => {
            lowered_definition(cx, depth, state, copied(&*input), tail);
        },
        Statement::Expression(input) => {
            let expression = copied(&input.expression);
            let frame = StatementFrame::Expression {
                keep: !can_be_discarded(state.types, expression),
                span: input.span,
            };
            let k = Continuation::Statement(frame);
            lowered_emit(cx, depth, state, expression, k);
            lowered_then_tail(cx, depth, emit(cx, depth, state, expression, k), tail);
        },
        Statement::Iteration(input) => {
            if let Ok((state, type_)) = reconstruct_given_type(cx, state, copied(&input.type_)) {
                let start = copied(&input.start);
                let k = Continuation::Statement(StatementFrame::IterationStart { input, type_ });
                lowered_emit(cx, depth, state, start, k);
                lowered_then_tail(cx, depth, emit(cx, depth, state, start, k), tail);
            }
        },
        Statement::Return(input) => {
            let k = Continuation::Statement(StatementFrame::Return { span: input.span });
            lowered_emit(cx, depth, state, copied(&input.expression), k);
        },
    }
}

/// Lowered blocks hold no storage: they read no storage variable, of this program or of another
/// one, and hold no operation on a vector. What was one is an operation on mappings. Assignments
/// to a part of a storage variable that are lowered into branches are left out: such a place stays
/// as it is.
pub proof fn lowered_blocks_hold_no_storage(cx: Context, depth: nat, state: State, block: Block)
    requires
        all_assign_soundly(cx, block.statements),
    ensures
        reconstruct_block(cx, depth, state, block) matches Ok((_, lowered))
            ==> statements_are_lowered(cx, lowered.statements),
{
    lowered_block(cx, depth, state, block);
}

} // verus!
