//! Lowering code only adds names.
use crate::ast::{
    ArrayAccess, ArrayExpression, AssertStatement, AssertVariant, AssignStatement, BinaryExpression,
    Block, CallExpression, CastExpression, CompositeExpression, ConditionalStatement,
    DefinitionPlace, DefinitionStatement, DynamicOpExpression, DynamicOpKind, Expression,
    FieldInitializer, IntrinsicExpression, MemberAccess, NodeId, RepeatExpression, Span, Statement,
    TernaryExpression, TupleAccess, TupleExpression, Type, UnaryExpression,
};
use crate::names::Texts;
use crate::list::{appended, copied, one, List};
use crate::purity::can_be_discarded;
use crate::state::{with_id, with_suffixed, State};
use crate::storage_lowering::continuation::{
    Continuation, ListContinuation, ListFrame, OperandFrame, PlaceFrame, StatementFrame,
};
use crate::storage_lowering::emit::{
    bind_optional_ternary_branch, copy_expression_type, emit, emit_assign_place, emit_branches,
    emit_composite_base, emit_composite_members, emit_dynamic_arguments, emit_list, emit_lowered,
    emit_step, emitted_then_tail, materialize_if, nested, optional_type_of,
    reconstruct_assert_with_tail, reconstruct_assign_with_tail, reconstruct_block,
    reconstruct_block_statements, reconstruct_conditional_with_tail,
    reconstruct_definition_with_tail, reconstruct_otherwise, reconstruct_statement,
    reconstruct_statement_with_tail, resume, resume_list, resume_list_step, resume_operand,
    resume_place, resume_statement, resume_step, resume_ternary, takes_vector, Emitted,
};
use crate::storage_lowering::predicates::{
    any_may_emit_after, expression_may_emit_after_reconstruction,
};
use crate::storage_lowering::reconstruct::{
    reconstruct_call, reconstruct_dynamic_op, reconstruct_expression, reconstruct_intrinsic,
    reconstruct_type,
};
use crate::storage_lowering::statements::{
    reconstruct_assert, reconstruct_assign, reconstruct_const, reconstruct_definition,
    reconstruct_expression_statement, reconstruct_given_type, reconstruct_return, write_storage,
    written_storage,
};
use crate::storage_lowering::tail::split_tail;
use crate::storage_lowering::vectors::{materialize_strict_prefix_expression, Lowered};
use crate::storage_lowering::visitor::{Context, Step};
use crate::storage_lowering::growing::{gives_grown, grown, interning_grows};
use crate::storage_lowering::growing_facts::lemma_facts;
use std::rc::Rc;
use vstd::prelude::*;

verus! {

broadcast use interning_grows;

pub proof fn grow_emit(
    base: Texts,
    cx: Context,
    depth: nat,
    state: State,
    expression: Expression,
    continuation: Continuation,
)
    requires
        grown(base, state.names),
    ensures
        gives_grown(base, emit(cx, depth, state, expression, continuation)),
    decreases depth, 0int, state,
{
    lemma_facts(base, cx);
    reveal(emit);
    reveal(emit_step);
    if depth > 0 {
        grow_emit_step(base, cx, (depth - 1) as nat, state, expression, continuation);
    }
}

pub proof fn grow_emit_step(
    base: Texts,
    cx: Context,
    depth: nat,
    state: State,
    expression: Expression,
    continuation: Continuation,
)
    requires
        grown(base, state.names),
    ensures
        gives_grown(base, emit_step(cx, depth, state, expression, continuation)),
    decreases depth, 9int, state,
{
    lemma_facts(base, cx);
    reveal(emit_step);
    reveal(emit);
    reveal(emit_list);
    reveal(emit_lowered);
    let next = Rc::new(continuation);
    match expression {
        Expression::Array(input) => {
            let k = ListContinuation { frame: ListFrame::Array { input }, next };
            grow_list(base, cx, depth, state, copied(&input.elements), List::Nil, k);
        },
        Expression::ArrayAccess(input) => {
            let k = Continuation::Operand(OperandFrame::AccessArray { input }, next);
            grow_emit(base, cx, depth, state, copied(&input.array), k);
        },
        Expression::Binary(input) => {
            let k = Continuation::Operand(OperandFrame::BinaryLeft { input }, next);
            grow_emit(base, cx, depth, state, copied(&input.left), k);
        },
        Expression::Call(input) => {
            let k = ListContinuation { frame: ListFrame::CallConst { input }, next };
            grow_list(base, cx, depth, state, copied(&input.const_arguments), List::Nil, k);
        },
        Expression::Cast(input) => {
            let k = Continuation::Operand(OperandFrame::Cast { input }, next);
            grow_emit(base, cx, depth, state, copied(&input.expression), k);
        },
        Expression::Composite(input) => {
            let k = ListContinuation { frame: ListFrame::CompositeConst { input }, next };
            grow_list(base, cx, depth, state, copied(&input.const_arguments), List::Nil, k);
        },
        Expression::DynamicOp(input) => {
            let k = Continuation::Operand(OperandFrame::DynamicTarget { input }, next);
            grow_emit(base, cx, depth, state, copied(&input.target_program), k);
        },
        Expression::Intrinsic(input) => {
            if takes_vector(input.op) {
                if let List::Cons(vector, values) = &input.arguments {
                    let first = one(copied(vector));
                    let k = ListContinuation { frame: ListFrame::Intrinsic { input, first }, next };
                    grow_list(base, cx, depth, state, copied(&**values), List::Nil, k);
                }
            } else {
                let first = List::Nil;
                let k = ListContinuation { frame: ListFrame::Intrinsic { input, first }, next };
                grow_list(base, cx, depth, state, copied(&input.arguments), List::Nil, k);
            }
        },
        Expression::MemberAccess(input) => {
            let k = Continuation::Operand(OperandFrame::MemberAccess { input }, next);
            grow_emit(base, cx, depth, state, copied(&input.inner), k);
        },
        Expression::Repeat(input) => {
            let k = Continuation::Operand(OperandFrame::RepeatElement { input }, next);
            grow_emit(base, cx, depth, state, copied(&input.expr), k);
        },
        Expression::Ternary(input) => {
            let optional_type = optional_type_of(state, input.id);
            let frame = OperandFrame::TernaryCondition { input, optional_type };
            let k = Continuation::Operand(frame, next);
            grow_emit(base, cx, depth, state, copied(&input.condition), k);
        },
        Expression::Tuple(input) => {
            let k = ListContinuation { frame: ListFrame::Tuple { input }, next };
            grow_list(base, cx, depth, state, copied(&input.elements), List::Nil, k);
        },
        Expression::TupleAccess(input) => {
            let k = Continuation::Operand(OperandFrame::TupleAccess { input }, next);
            grow_emit(base, cx, depth, state, copied(&input.tuple), k);
        },
        Expression::Unary(input) => {
            let k = Continuation::Operand(OperandFrame::Unary { input }, next);
            grow_emit(base, cx, depth, state, copied(&input.receiver), k);
        },
        _ => {
            let lowered = reconstruct_expression(cx, state, expression);
            grow_lowered(base, cx, depth, lowered, expression.spec_id(), false, continuation);
        },
    }
}

pub proof fn grow_lowered(
    base: Texts,
    cx: Context,
    depth: nat,
    lowered: Step<Lowered>,
    source: NodeId,
    keeps_dynamic: bool,
    continuation: Continuation,
)
    requires
        gives_grown(base, lowered),
    ensures
        gives_grown(base, emit_lowered(cx, depth, lowered, source, keeps_dynamic, continuation)),
    decreases depth, 1int, lowered,
{
    lemma_facts(base, cx);
    reveal(emit_lowered);
    reveal(emit);
    reveal(resume);
    if let Ok((state, (expression, _))) = lowered {
        let state = copy_expression_type(state, source, expression.spec_id());
        grow_emit(base, cx, depth, state, expression, continuation);
        grow_resume(base, cx, depth, state, continuation, expression);
    }
}

pub proof fn grow_list(
    base: Texts,
    cx: Context,
    depth: nat,
    state: State,
    remaining: List<Expression>,
    rebuilt: List<Expression>,
    continuation: ListContinuation,
)
    requires
        grown(base, state.names),
    ensures
        gives_grown(base, emit_list(cx, depth, state, remaining, rebuilt, continuation)),
    decreases depth, 1int, state,
{
    lemma_facts(base, cx);
    reveal(emit_list);
    reveal(emit);
    reveal(resume_list);
    match remaining {
        List::Nil => {
            grow_resume_list(base, cx, depth, state, continuation, rebuilt);
        },
        List::Cons(expression, rest) => {
            let k = Continuation::Element {
                rest: copied(&*rest),
                rebuilt,
                next: Rc::new(continuation),
            };
            grow_emit(base, cx, depth, state, expression, k);
        },
    }
}

pub proof fn grow_branches(
    base: Texts,
    cx: Context,
    depth: nat,
    state: State,
    condition: Expression,
    if_true: Lowered,
    if_false: Lowered,
    optional_type: Option<Type>,
    span: Span,
    continuation: Continuation,
)
    requires
        grown(base, state.names),
    ensures
        gives_grown(base, emit_branches(
                cx,
                depth,
                state,
                condition,
                if_true,
                if_false,
                optional_type,
                span,
                continuation,
            )),
    decreases depth, 1int, state,
{
    lemma_facts(base, cx);
    reveal(emit_branches);
    reveal(emit);
    let arm = Continuation::Operand(
        OperandFrame::TernaryArm { optional_type, span },
        Rc::new(continuation),
    );
    grow_emit(base, cx, depth, state, if_true.0, arm);
    if let Ok((state, _)) = emit(cx, depth, state, if_true.0, arm) {
        grow_emit(base, cx, depth, state, if_false.0, arm);
    }
}

pub proof fn grow_dynamic_arguments(
    base: Texts,
    cx: Context,
    depth: nat,
    state: State,
    input: DynamicOpExpression,
    continuation: Continuation,
)
    requires
        grown(base, state.names),
    ensures
        gives_grown(base, emit_dynamic_arguments(cx, depth, state, input, continuation)),
    decreases depth, 2int, state,
{
    lemma_facts(base, cx);
    reveal(emit_dynamic_arguments);
    reveal(emit_lowered);
    reveal(emit_list);
    let k = ListContinuation {
        frame: ListFrame::DynamicArguments { input: Rc::new(input) },
        next: Rc::new(continuation),
    };
    match input.kind {
        DynamicOpKind::Read { .. } => {
            let lowered = reconstruct_dynamic_op(cx, state, input);
            grow_lowered(base, cx, depth, lowered, input.id, true, continuation);
        },
        DynamicOpKind::Op { arguments, .. } => {
            grow_list(base, cx, depth, state, arguments, List::Nil, k);
        },
        DynamicOpKind::Call { arguments, .. } => {
            grow_list(base, cx, depth, state, arguments, List::Nil, k);
        },
    }
}

pub proof fn grow_composite_members(
    base: Texts,
    cx: Context,
    depth: nat,
    state: State,
    input: CompositeExpression,
    done: List<FieldInitializer>,
    rest: List<FieldInitializer>,
    continuation: Continuation,
)
    requires
        grown(base, state.names),
    ensures
        gives_grown(
            base,
            emit_composite_members(cx, depth, state, input, done, rest, continuation),
        ),
    decreases depth, 3int, rest,
{
    lemma_facts(base, cx);
    reveal(emit_composite_members);
    reveal(emit_composite_base);
    reveal(emit);
    match rest {
        List::Nil => {
            let composite = CompositeExpression { members: done, ..input };
            grow_composite_base(base, cx, depth, state, composite, continuation);
        },
        List::Cons(member, rest) => match &member.expression {
            None => {
                let done = appended(done, one(member));
                grow_composite_members(base, cx,
                    depth,
                    state,
                    input,
                    done,
                    copied(&*rest),
                    continuation,
                );
            },
            Some(value) => {
                let frame = OperandFrame::CompositeMember {
                    input: Rc::new(input),
                    done,
                    member,
                    rest: copied(&*rest),
                };
                let k = Continuation::Operand(frame, Rc::new(continuation));
                grow_emit(base, cx, depth, state, copied(value), k);
            },
        },
    }
}

pub proof fn grow_composite_base(
    base: Texts,
    cx: Context,
    depth: nat,
    state: State,
    input: CompositeExpression,
    continuation: Continuation,
)
    requires
        grown(base, state.names),
    ensures
        gives_grown(base, emit_composite_base(cx, depth, state, input, continuation)),
    decreases depth, 2int, state,
{
    lemma_facts(base, cx);
    reveal(emit_composite_base);
    reveal(emit);
    reveal(resume);
    grow_resume(base, cx, depth, state, continuation, Expression::Composite(Rc::new(input)));
    if let Some(source) = input.base {
        let frame = OperandFrame::CompositeBase { input: Rc::new(input) };
        let k = Continuation::Operand(frame, Rc::new(continuation));
        grow_emit(base, cx, depth, state, source, k);
    }
}

pub proof fn grow_assign_place(
    base: Texts,
    cx: Context,
    depth: nat,
    state: State,
    place: &Expression,
    continuation: Continuation,
)
    requires
        grown(base, state.names),
    ensures
        gives_grown(base, emit_assign_place(cx, depth, state, *place, continuation)),
    decreases depth, 1int, *place,
{
    lemma_facts(base, cx);
    reveal(emit_assign_place);
    reveal(resume);
    let next = Rc::new(continuation);
    match place {
        Expression::ArrayAccess(input) => {
            let k = Continuation::Place(PlaceFrame::Array { input: copied(input) }, next);
            grow_assign_place(base, cx, depth, state, &input.array, k);
        },
        Expression::MemberAccess(input) => {
            let k = Continuation::Place(PlaceFrame::Member { input: copied(input) }, next);
            grow_assign_place(base, cx, depth, state, &input.inner, k);
        },
        Expression::TupleAccess(input) => {
            let k = Continuation::Place(PlaceFrame::Tuple { input: copied(input) }, next);
            grow_assign_place(base, cx, depth, state, &input.tuple, k);
        },
        _ => {
            grow_resume(base, cx, depth, state, continuation, copied(place));
        },
    }
}

pub proof fn grow_resume(
    base: Texts,
    cx: Context,
    depth: nat,
    state: State,
    continuation: Continuation,
    value: Expression,
)
    requires
        grown(base, state.names),
    ensures
        gives_grown(base, resume(cx, depth, state, continuation, value)),
    decreases depth, 0int, state,
{
    lemma_facts(base, cx);
    reveal(resume);
    reveal(resume_step);
    if depth > 0 {
        grow_resume_step(base, cx, (depth - 1) as nat, state, continuation, value);
    }
}

pub proof fn grow_resume_step(
    base: Texts,
    cx: Context,
    depth: nat,
    state: State,
    continuation: Continuation,
    value: Expression,
)
    requires
        grown(base, state.names),
    ensures
        gives_grown(base, resume_step(cx, depth, state, continuation, value)),
    decreases depth, 11int, state,
{
    lemma_facts(base, cx);
    reveal(resume_step);
    reveal(emit_list);
    reveal(resume_operand);
    reveal(resume_place);
    reveal(resume_statement);
    reveal(write_storage);
    match continuation {
        Continuation::Operand(frame, next) => {
            grow_resume_operand(base, cx, depth, state, frame, copied(&*next), value);
        },
        Continuation::Element { rest, rebuilt, next } => {
            if let Ok((state, (value, _))) = materialize_if(
                cx,
                state,
                value,
                any_may_emit_after(cx, rest),
            ) {
                let rebuilt = appended(rebuilt, one(value));
                grow_list(base, cx, depth, state, rest, rebuilt, copied(&*next));
            }
        },
        Continuation::Place(frame, next) => {
            grow_resume_place(base, cx, depth, state, frame, copied(&*next), value);
        },
        Continuation::Statement(frame) => {
            grow_resume_statement(base, cx, depth, state, frame, value);
        },
    }
}

pub proof fn grow_resume_operand(
    base: Texts,
    cx: Context,
    depth: nat,
    state: State,
    frame: OperandFrame,
    next: Continuation,
    value: Expression,
)
    requires
        grown(base, state.names),
    ensures
        gives_grown(base, resume_operand(cx, depth, state, frame, next, value)),
    decreases depth, 10int, state,
{
    lemma_facts(base, cx);
    reveal(resume_operand);
    reveal(emit);
    reveal(resume);
    reveal(resume_ternary);
    reveal(emit_dynamic_arguments);
    reveal(emit_composite_members);
    let after = Rc::new(next);
    match frame {
        OperandFrame::AccessArray { input } => {
            let index = copied(&input.index);
            let strict = expression_may_emit_after_reconstruction(cx, index);
            if let Ok((state, (array, _))) = materialize_if(cx, state, value, strict) {
                let frame = OperandFrame::AccessIndex { array, input };
                grow_emit(base, cx, depth, state, index, Continuation::Operand(frame, after));
            }
        },
        OperandFrame::AccessIndex { array, input } => {
            let access = ArrayAccess { array, index: value, ..copied(&*input) };
            grow_resume(base, cx, depth, state, next, Expression::ArrayAccess(Rc::new(access)));
        },
        OperandFrame::BinaryLeft { input } => {
            let right = copied(&input.right);
            let strict = expression_may_emit_after_reconstruction(cx, right);
            if let Ok((state, (left, _))) = materialize_if(cx, state, value, strict) {
                let frame = OperandFrame::BinaryRight { left, input };
                grow_emit(base, cx, depth, state, right, Continuation::Operand(frame, after));
            }
        },
        OperandFrame::BinaryRight { left, input } => {
            let binary = BinaryExpression { left, right: value, ..copied(&*input) };
            grow_resume(base, cx, depth, state, next, Expression::Binary(Rc::new(binary)));
        },
        OperandFrame::Cast { input } => {
            let cast = CastExpression { expression: value, ..copied(&*input) };
            grow_resume(base, cx, depth, state, next, Expression::Cast(Rc::new(cast)));
        },
        OperandFrame::MemberAccess { input } => {
            let access = MemberAccess { inner: value, ..copied(&*input) };
            grow_resume(base, cx, depth, state, next, Expression::MemberAccess(Rc::new(access)));
        },
        OperandFrame::RepeatElement { input } => {
            let count = copied(&input.count);
            let strict = expression_may_emit_after_reconstruction(cx, count);
            if let Ok((state, (expr, _))) = materialize_if(cx, state, value, strict) {
                let frame = OperandFrame::RepeatCount { expr, input };
                grow_emit(base, cx, depth, state, count, Continuation::Operand(frame, after));
            }
        },
        OperandFrame::RepeatCount { expr, input } => {
            let repeat = RepeatExpression { expr, count: value, ..copied(&*input) };
            grow_resume(base, cx, depth, state, next, Expression::Repeat(Rc::new(repeat)));
        },
        OperandFrame::TernaryCondition { input, optional_type } => {
            grow_resume_ternary(
                base,
                cx,
                depth,
                state,
                copied(&*input),
                optional_type,
                next,
                value,
            );
        },
        OperandFrame::TernaryArm { optional_type, span } => {
            grow_resume(base, cx, depth, state, next, value);
            if let Some(optional_type) = optional_type {
                let (state, (variable, _)) = bind_optional_ternary_branch(
                    state,
                    value,
                    optional_type,
                    span,
                );
                grow_resume(base, cx, depth, state, next, variable);
            }
        },
        OperandFrame::TupleAccess { input } => {
            let access = TupleAccess { tuple: value, ..copied(&*input) };
            grow_resume(base, cx, depth, state, next, Expression::TupleAccess(Rc::new(access)));
        },
        OperandFrame::Unary { input } => {
            let unary = UnaryExpression { receiver: value, ..copied(&*input) };
            grow_resume(base, cx, depth, state, next, Expression::Unary(Rc::new(unary)));
        },
        OperandFrame::DynamicTarget { input } => {
            if let Ok((state, (target_program, _))) = materialize_strict_prefix_expression(
                cx,
                state,
                value,
            ) {
                let access = DynamicOpExpression { target_program, ..copied(&*input) };
                grow_dynamic_arguments(base, cx, depth, state, access, next);
                if let Some(network) = &input.network {
                    let frame = OperandFrame::DynamicNetwork { input: Rc::new(access) };
                    let k = Continuation::Operand(frame, after);
                    grow_emit(base, cx, depth, state, copied(network), k);
                }
            }
        },
        OperandFrame::DynamicNetwork { input } => {
            if let Ok((state, (network, _))) = materialize_strict_prefix_expression(
                cx,
                state,
                value,
            ) {
                let access = DynamicOpExpression { network: Some(network), ..copied(&*input) };
                grow_dynamic_arguments(base, cx, depth, state, access, next);
            }
        },
        OperandFrame::CompositeMember { input, done, member, rest } => {
            if let Ok((state, (value, _))) = materialize_strict_prefix_expression(
                cx,
                state,
                value,
            ) {
                let member = FieldInitializer { expression: Some(value), ..member };
                let done = appended(done, one(member));
                grow_composite_members(base, cx, depth, state, copied(&*input), done, rest, next);
            }
        },
        OperandFrame::CompositeBase { input } => {
            let composite = CompositeExpression { base: Some(value), ..copied(&*input) };
            grow_resume(base, cx, depth, state, next, Expression::Composite(Rc::new(composite)));
        },
    }
}

pub proof fn grow_resume_ternary(
    base: Texts,
    cx: Context,
    depth: nat,
    state: State,
    input: TernaryExpression,
    optional_type: Option<Type>,
    next: Continuation,
    condition: Expression,
)
    requires
        grown(base, state.names),
    ensures
        gives_grown(base, resume_ternary(cx, depth, state, input, optional_type, next, condition)),
    decreases depth, 9int, state,
{
    lemma_facts(base, cx);
    reveal(resume_ternary);
    reveal(emit_branches);
    reveal(resume);
    let if_true = (input.if_true, List::Nil);
    let if_false = (input.if_false, List::Nil);
    let span = input.span;
    grow_branches(base, cx, depth, state, condition, if_true, if_false, optional_type, span, next);
    if let Ok((state, if_true)) = reconstruct_expression(cx, state, input.if_true) {
        if let Ok((state, if_false)) = reconstruct_expression(cx, state, input.if_false) {
            let ternary = TernaryExpression {
                condition,
                if_true: if_true.0,
                if_false: if_false.0,
                ..input
            };
            grow_resume(base, cx, depth, state, next, Expression::Ternary(Rc::new(ternary)));
            grow_branches(base, cx,
                depth,
                state,
                condition,
                if_true,
                if_false,
                optional_type,
                span,
                next,
            );
        }
    }
}

pub proof fn grow_resume_place(
    base: Texts,
    cx: Context,
    depth: nat,
    state: State,
    frame: PlaceFrame,
    next: Continuation,
    value: Expression,
)
    requires
        grown(base, state.names),
    ensures
        gives_grown(base, resume_place(cx, depth, state, frame, next, value)),
    decreases depth, 10int, state,
{
    lemma_facts(base, cx);
    reveal(resume_place);
    reveal(emit);
    reveal(resume);
    match frame {
        PlaceFrame::Array { input } => {
            let frame = PlaceFrame::Index { array: value, input };
            let k = Continuation::Place(frame, Rc::new(next));
            grow_emit(base, cx, depth, state, copied(&input.index), k);
        },
        PlaceFrame::Index { array, input } => {
            if let Ok((state, (index, _))) = materialize_strict_prefix_expression(
                cx,
                state,
                value,
            ) {
                let access = ArrayAccess { array, index, ..copied(&*input) };
                grow_resume(base, cx, depth, state, next, Expression::ArrayAccess(Rc::new(access)));
            }
        },
        PlaceFrame::Member { input } => {
            let access = MemberAccess { inner: value, ..copied(&*input) };
            grow_resume(base, cx, depth, state, next, Expression::MemberAccess(Rc::new(access)));
        },
        PlaceFrame::Tuple { input } => {
            let access = TupleAccess { tuple: value, ..copied(&*input) };
            grow_resume(base, cx, depth, state, next, Expression::TupleAccess(Rc::new(access)));
        },
    }
}

pub proof fn grow_resume_list(
    base: Texts,
    cx: Context,
    depth: nat,
    state: State,
    continuation: ListContinuation,
    values: List<Expression>,
)
    requires
        grown(base, state.names),
    ensures
        gives_grown(base, resume_list(cx, depth, state, continuation, values)),
    decreases depth, 0int, state,
{
    lemma_facts(base, cx);
    reveal(resume_list);
    reveal(resume_list_step);
    if depth > 0 {
        grow_resume_list_step(base, cx, (depth - 1) as nat, state, continuation, values);
    }
}

pub proof fn grow_resume_list_step(
    base: Texts,
    cx: Context,
    depth: nat,
    state: State,
    continuation: ListContinuation,
    values: List<Expression>,
)
    requires
        grown(base, state.names),
    ensures
        gives_grown(base, resume_list_step(cx, depth, state, continuation, values)),
    decreases depth, 9int, state,
{
    lemma_facts(base, cx);
    reveal(resume_list_step);
    reveal(resume);
    reveal(emit_list);
    reveal(emit_lowered);
    reveal(emit_composite_members);
    let next = copied(&*continuation.next);
    match continuation.frame {
        ListFrame::Array { input } => {
            let array = ArrayExpression { elements: values, ..copied(&*input) };
            grow_resume(base, cx, depth, state, next, Expression::Array(Rc::new(array)));
        },
        ListFrame::CallConst { input } => {
            let frame = ListFrame::CallArguments { input, const_arguments: values };
            let k = ListContinuation { frame, next: continuation.next };
            grow_list(base, cx, depth, state, copied(&input.arguments), List::Nil, k);
        },
        ListFrame::CallArguments { input, const_arguments } => {
            let call = CallExpression {
                const_arguments,
                arguments: values,
                ..copied(&*input)
            };
            let lowered = reconstruct_call(cx, state, call);
            grow_lowered(base, cx, depth, lowered, input.id, false, next);
        },
        ListFrame::CompositeConst { input } => {
            let composite = CompositeExpression { const_arguments: values, ..copied(&*input) };
            let members = copied(&input.members);
            grow_composite_members(base, cx, depth, state, composite, List::Nil, members, next);
        },
        ListFrame::DynamicArguments { input } => {
            let kind = match copied(&input.kind) {
                DynamicOpKind::Read { storage } => DynamicOpKind::Read { storage },
                DynamicOpKind::Op { member, op, arguments: _ } => DynamicOpKind::Op {
                    member,
                    op,
                    arguments: values,
                },
                DynamicOpKind::Call { function, arguments: _ } => DynamicOpKind::Call {
                    function,
                    arguments: values,
                },
            };
            let access = DynamicOpExpression { kind, ..copied(&*input) };
            let lowered = reconstruct_dynamic_op(cx, state, access);
            grow_lowered(base, cx, depth, lowered, input.id, true, next);
        },
        ListFrame::Intrinsic { input, first } => {
            let arguments = appended(first, values);
            let operation = IntrinsicExpression { arguments, ..copied(&*input) };
            let lowered = reconstruct_intrinsic(cx, state, operation);
            grow_lowered(base, cx, depth, lowered, input.id, false, next);
        },
        ListFrame::Tuple { input } => {
            let tuple = TupleExpression { elements: values, ..copied(&*input) };
            grow_resume(base, cx, depth, state, next, Expression::Tuple(Rc::new(tuple)));
        },
    }
}

pub proof fn grow_resume_statement(
    base: Texts,
    cx: Context,
    depth: nat,
    state: State,
    frame: StatementFrame,
    value: Expression,
)
    requires
        grown(base, state.names),
    ensures
        gives_grown(base, resume_statement(cx, depth, state, frame, value)),
    decreases depth, 10int, state,
{
    lemma_facts(base, cx);
    reveal(resume_statement);
    reveal(write_storage);
    reveal(emit);
    reveal(nested);
    reveal(reconstruct_block);
    reveal(reconstruct_otherwise);
    match frame {
        StatementFrame::Const { input: _, type_: _, tail } => {
            grow_nested(base, cx, depth, state, tail);
        },
        StatementFrame::Definition { input: _, type_: _, tail } => {
            grow_nested(base, cx, depth, with_id(state), tail);
        },
        StatementFrame::AssertLeft { equal, right, span } => {
            let strict = expression_may_emit_after_reconstruction(cx, right);
            if let Ok((state, (left, _))) = materialize_if(cx, state, value, strict) {
                let frame = StatementFrame::AssertRight { equal, left, span };
                grow_emit(base, cx, depth, state, right, Continuation::Statement(frame));
            }
        },
        StatementFrame::AssignPlace { value: assigned, span } => {
            let frame = StatementFrame::AssignValue { place: value, span };
            grow_emit(base, cx, depth, state, assigned, Continuation::Statement(frame));
        },
        StatementFrame::Conditional { input } => {
            let then_block = copied(&input.then_block);
            grow_block(base, cx, depth, state, then_block);
            if let Ok((state, _)) = reconstruct_block(cx, depth, state, then_block) {
                grow_otherwise(base, cx, depth, state, copied(&input.otherwise));
            }
        },
        StatementFrame::IterationStart { input, type_ } => {
            if let Ok((state, (start, _))) = materialize_strict_prefix_expression(
                cx,
                state,
                value,
            ) {
                let frame = StatementFrame::IterationStop { input, type_, start };
                grow_emit(base, cx,
                    depth,
                    state,
                    copied(&input.stop),
                    Continuation::Statement(frame),
                );
            }
        },
        StatementFrame::IterationStop { input, type_: _, start: _ } => {
            grow_block(base, cx, depth, state, copied(&input.block));
        },
        _ => {},
    }
}

pub proof fn grow_nested(
    base: Texts,
    cx: Context,
    depth: nat,
    state: State,
    statements: List<Statement>,
)
    requires
        grown(base, state.names),
    ensures
        gives_grown(base, nested(cx, depth, state, statements)),
    decreases depth, 1int, statements,
{
    lemma_facts(base, cx);
    reveal(nested);
    reveal(reconstruct_block_statements);
    if depth > 0 {
        grow_block_statements(base, cx, (depth - 1) as nat, state, &statements);
    }
}

pub proof fn grow_block_statements(
    base: Texts,
    cx: Context,
    depth: nat,
    state: State,
    statements: &List<Statement>,
)
    requires
        grown(base, state.names),
    ensures
        gives_grown(base, reconstruct_block_statements(cx, depth, state, *statements)),
    decreases depth, 8int, *statements,
{
    lemma_facts(base, cx);
    reveal(reconstruct_block_statements);
    reveal(reconstruct_statement);
    reveal(reconstruct_statement_with_tail);
    match statements {
        List::Nil => {},
        List::Cons(first, rest) => {
            grow_statement_with_tail(base, cx, depth, state, copied(first), copied(&**rest));
            grow_statement(base, cx, depth, state, copied(first));
            if let Ok((state, _)) = reconstruct_statement(cx, depth, state, copied(first)) {
                grow_block_statements(base, cx, depth, state, rest);
            }
        },
    }
}

pub proof fn grow_block(base: Texts, cx: Context, depth: nat, state: State, block: Block)
    requires
        grown(base, state.names),
    ensures
        gives_grown(base, reconstruct_block(cx, depth, state, block)),
    decreases depth, 2int, block,
{
    lemma_facts(base, cx);
    reveal(reconstruct_block);
    reveal(nested);
    grow_nested(base, cx, depth, state, block.statements);
}

pub proof fn grow_otherwise(
    base: Texts,
    cx: Context,
    depth: nat,
    state: State,
    otherwise: Option<Statement>,
)
    requires
        grown(base, state.names),
    ensures
        gives_grown(base, reconstruct_otherwise(cx, depth, state, otherwise)),
    decreases depth, 8int, otherwise,
{
    lemma_facts(base, cx);
    reveal(reconstruct_otherwise);
    reveal(reconstruct_statement_with_tail);
    if let Some(statement) = otherwise {
        grow_statement_with_tail(base, cx, depth, state, statement, List::Nil);
    }
}

pub proof fn grow_statement(
    base: Texts,
    cx: Context,
    depth: nat,
    state: State,
    statement: Statement,
)
    requires
        grown(base, state.names),
    ensures
        gives_grown(base, reconstruct_statement(cx, depth, state, statement)),
    decreases depth, 7int, statement,
{
    lemma_facts(base, cx);
    reveal(reconstruct_statement);
    grow_simple(base, cx, state, statement);
    reveal(reconstruct_block);
    reveal(reconstruct_conditional_with_tail);
    match statement {
        Statement::Block(block) => {
            grow_block(base, cx, depth, state, copied(&*block));
        },
        Statement::Conditional(input) => {
            grow_conditional(base, cx, depth, state, copied(&*input), List::Nil);
        },
        _ => {},
    }
}

pub proof fn grow_then_tail(
    base: Texts,
    cx: Context,
    depth: nat,
    emitted: Emitted,
    tail: List<Statement>,
)
    requires
        gives_grown(base, emitted),
    ensures
        gives_grown(base, emitted_then_tail(cx, depth, emitted, tail)),
    decreases depth, 2int, tail,
{
    lemma_facts(base, cx);
    reveal(emitted_then_tail);
    reveal(nested);
    if let Ok((state, _)) = emitted {
        grow_nested(base, cx, depth, state, tail);
    }
}

pub proof fn grow_conditional(
    base: Texts,
    cx: Context,
    depth: nat,
    state: State,
    input: ConditionalStatement,
    tail: List<Statement>,
)
    requires
        grown(base, state.names),
    ensures
        gives_grown(base, reconstruct_conditional_with_tail(cx, depth, state, input, tail)),
    decreases depth, 6int, state,
{
    lemma_facts(base, cx);
    reveal(reconstruct_conditional_with_tail);
    reveal(emit);
    reveal(emitted_then_tail);
    let k = Continuation::Statement(StatementFrame::Conditional { input: Rc::new(input) });
    grow_emit(base, cx, depth, state, input.condition, k);
    grow_then_tail(base, cx, depth, emit(cx, depth, state, input.condition, k), tail);
}

pub proof fn grow_assert(
    base: Texts,
    cx: Context,
    depth: nat,
    state: State,
    input: AssertStatement,
    tail: List<Statement>,
)
    requires
        grown(base, state.names),
    ensures
        gives_grown(base, reconstruct_assert_with_tail(cx, depth, state, input, tail)),
    decreases depth, 6int, state,
{
    lemma_facts(base, cx);
    reveal(reconstruct_assert_with_tail);
    reveal(emit);
    reveal(emitted_then_tail);
    let span = input.span;
    match input.variant {
        AssertVariant::Assert(expression) => {
            let k = Continuation::Statement(StatementFrame::Assert { span });
            grow_emit(base, cx, depth, state, expression, k);
            grow_then_tail(base, cx, depth, emit(cx, depth, state, expression, k), tail);
        },
        AssertVariant::AssertEq(left, right) => {
            let frame = StatementFrame::AssertLeft { equal: true, right, span };
            let k = Continuation::Statement(frame);
            grow_emit(base, cx, depth, state, left, k);
            grow_then_tail(base, cx, depth, emit(cx, depth, state, left, k), tail);
        },
        AssertVariant::AssertNeq(left, right) => {
            let frame = StatementFrame::AssertLeft { equal: false, right, span };
            let k = Continuation::Statement(frame);
            grow_emit(base, cx, depth, state, left, k);
            grow_then_tail(base, cx, depth, emit(cx, depth, state, left, k), tail);
        },
    }
}

pub proof fn grow_assign(
    base: Texts,
    cx: Context,
    depth: nat,
    state: State,
    input: AssignStatement,
    tail: List<Statement>,
)
    requires
        grown(base, state.names),
    ensures
        gives_grown(base, reconstruct_assign_with_tail(cx, depth, state, input, tail)),
    decreases depth, 6int, state,
{
    lemma_facts(base, cx);
    reveal(reconstruct_assign_with_tail);
    reveal(emit);
    reveal(emit_assign_place);
    reveal(emitted_then_tail);
    match written_storage(cx, input.place) {
        Err(_) => {},
        Ok(Some(name)) => {
            let (state, mapping) = with_suffixed(state, name, "__"@);
            let frame = StatementFrame::StorageValue { mapping, span: input.span };
            let k = Continuation::Statement(frame);
            grow_emit(base, cx, depth, state, input.value, k);
            grow_then_tail(base, cx, depth, emit(cx, depth, state, input.value, k), tail);
        },
        Ok(None) => {
            let frame = StatementFrame::AssignPlace { value: input.value, span: input.span };
            let k = Continuation::Statement(frame);
            grow_assign_place(base, cx, depth, state, &input.place, k);
            grow_then_tail(
                base,
                cx,
                depth,
                emit_assign_place(cx, depth, state, input.place, k),
                tail,
            );
        },
    }
}

pub proof fn grow_definition(
    base: Texts,
    cx: Context,
    depth: nat,
    state: State,
    input: DefinitionStatement,
    tail: List<Statement>,
)
    requires
        grown(base, state.names),
    ensures
        gives_grown(base, reconstruct_definition_with_tail(cx, depth, state, input, tail)),
    decreases depth, 6int, state,
{
    lemma_facts(base, cx);
    reveal(reconstruct_definition_with_tail);
    reveal(emit);
    reveal(emitted_then_tail);
    if let Ok((state, type_)) = reconstruct_given_type(cx, state, input.type_) {
        match input.place {
            DefinitionPlace::Single(identifier) => {
                let (branch_tail, rest) = split_tail(tail, identifier.name);
                let frame = StatementFrame::Definition {
                    input: Rc::new(input),
                    type_,
                    tail: branch_tail,
                };
                let k = Continuation::Statement(frame);
                grow_emit(base, cx, depth, state, input.value, k);
                grow_then_tail(base, cx, depth, emit(cx, depth, state, input.value, k), rest);
            },
            DefinitionPlace::Multiple(_) => {
                let frame = StatementFrame::Definition { input: Rc::new(input), type_, tail };
                grow_emit(base, cx, depth, state, input.value, Continuation::Statement(frame));
            },
        }
    }
}

pub proof fn grow_statement_with_tail(
    base: Texts,
    cx: Context,
    depth: nat,
    state: State,
    statement: Statement,
    tail: List<Statement>,
)
    requires
        grown(base, state.names),
    ensures
        gives_grown(base, reconstruct_statement_with_tail(cx, depth, state, statement, tail)),
    decreases depth, 7int, state,
{
    lemma_facts(base, cx);
    reveal(reconstruct_statement_with_tail);
    reveal(reconstruct_assert_with_tail);
    reveal(reconstruct_assign_with_tail);
    reveal(reconstruct_block);
    reveal(nested);
    reveal(reconstruct_conditional_with_tail);
    reveal(emit);
    reveal(reconstruct_definition_with_tail);
    reveal(emitted_then_tail);
    match statement {
        Statement::Assert(input) => {
            grow_assert(base, cx, depth, state, copied(&*input), tail);
        },
        Statement::Assign(input) => {
            grow_assign(base, cx, depth, state, copied(&*input), tail);
        },
        Statement::Block(block) => {
            grow_block(base, cx, depth, state, copied(&*block));
            if let Ok((state, _)) = reconstruct_block(cx, depth, state, copied(&*block)) {
                grow_nested(base, cx, depth, state, tail);
            }
        },
        Statement::Conditional(input) => {
            grow_conditional(base, cx, depth, state, copied(&*input), tail);
        },
        Statement::Const(input) => {
            if let Ok((state, (type_, _))) = reconstruct_type(cx, state, copied(&input.type_)) {
                let k = Continuation::Statement(StatementFrame::Const { input, type_, tail });
                grow_emit(base, cx, depth, state, copied(&input.value), k);
            }
        },
        Statement::Definition(input) => {
            grow_definition(base, cx, depth, state, copied(&*input), tail);
        },
        Statement::Expression(input) => {
            let expression = copied(&input.expression);
            let frame = StatementFrame::Expression {
                keep: !can_be_discarded(state.types, expression),
                span: input.span,
            };
            let k = Continuation::Statement(frame);
            grow_emit(base, cx, depth, state, expression, k);
            grow_then_tail(base, cx, depth, emit(cx, depth, state, expression, k), tail);
        },
        Statement::Iteration(input) => {
            if let Ok((state, type_)) = reconstruct_given_type(cx, state, copied(&input.type_)) {
                let start = copied(&input.start);
                let k = Continuation::Statement(StatementFrame::IterationStart { input, type_ });
                grow_emit(base, cx, depth, state, start, k);
                grow_then_tail(base, cx, depth, emit(cx, depth, state, start, k), tail);
            }
        },
        Statement::Return(input) => {
            let k = Continuation::Statement(StatementFrame::Return { span: input.span });
            grow_emit(base, cx, depth, state, copied(&input.expression), k);
        },
    }
}

pub proof fn grow_simple(base: Texts, cx: Context, state: State, statement: Statement)
    requires
        grown(base, state.names),
    ensures
        match statement {
            Statement::Assert(input) => gives_grown(base, reconstruct_assert(cx, state, *input)),
            Statement::Assign(input) => gives_grown(base, reconstruct_assign(cx, state, *input)),
            Statement::Const(input) => gives_grown(base, reconstruct_const(cx, state, *input)),
            Statement::Definition(input) => gives_grown(
                base,
                reconstruct_definition(cx, state, *input),
            ),
            Statement::Expression(input) => gives_grown(
                base,
                reconstruct_expression_statement(cx, state, *input),
            ),
            Statement::Return(input) => gives_grown(base, reconstruct_return(cx, state, *input)),
            _ => true,
        },
{
    lemma_facts(base, cx);
    match statement {
        Statement::Assert(_) => {
            reveal(reconstruct_assert);
        },
        Statement::Assign(_) => {
            reveal(reconstruct_assign);
            reveal(write_storage);
        },
        Statement::Const(_) => {
            reveal(reconstruct_const);
        },
        Statement::Definition(_) => {
            reveal(reconstruct_definition);
        },
        Statement::Expression(_) => {
            reveal(reconstruct_expression_statement);
        },
        Statement::Return(_) => {
            reveal(reconstruct_return);
        },
        _ => {},
    }
}

} // verus!
