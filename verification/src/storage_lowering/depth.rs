//! The bound on the depth of lowering: it only ever cuts lowering short.
use crate::ast::{
    ArrayAccess, ArrayExpression, AssertStatement, AssertVariant, AssignStatement, BinaryExpression,
    Block, CallExpression, CastExpression, CompositeExpression, ConditionalStatement,
    DefinitionPlace, DefinitionStatement, DynamicOpExpression, DynamicOpKind, Expression,
    FieldInitializer, IntrinsicExpression, MemberAccess, NodeId, RepeatExpression, Span, Statement,
    TernaryExpression, TupleAccess, TupleExpression, Type, UnaryExpression,
};
use crate::list::{appended, copied, one, List};
use crate::purity::can_be_discarded;
use crate::state::{with_id, with_suffixed, Halt, State};
use crate::storage_lowering::continuation::{
    Continuation, ListContinuation, ListFrame, OperandFrame, PlaceFrame, StatementFrame,
};
use crate::storage_lowering::emit::{
    bind_optional_ternary_branch, copy_expression_type, emit, emit_assign_place, emit_branches,
    emit_composite_base, emit_composite_members, emit_dynamic_arguments, emit_list, emit_lowered,
    emit_step, emitted_then_tail, materialize_if, nested, optional_type_of,
    reconstruct_assert_with_tail, reconstruct_assign_with_tail, reconstruct_block,
    reconstruct_block_statements, reconstruct_conditional_with_tail,
    reconstruct_definition_with_tail, reconstruct_otherwise, reconstruct_statement,
    reconstruct_statement_with_tail, resume, resume_list, resume_list_step, resume_operand,
    resume_place, resume_statement, resume_step, resume_ternary, takes_vector, Emitted,
};
use crate::storage_lowering::predicates::{
    any_may_emit_after, expression_may_emit_after_reconstruction,
};
use crate::storage_lowering::reconstruct::{
    reconstruct_call, reconstruct_dynamic_op, reconstruct_expression, reconstruct_intrinsic,
    reconstruct_type,
};
use crate::storage_lowering::statements::{
    reconstruct_given_type, written_storage, LoweredStatement,
};
use crate::storage_lowering::tail::split_tail;
use crate::storage_lowering::vectors::{materialize_strict_prefix_expression, Lowered};
use crate::storage_lowering::visitor::{Context, Step};
use std::rc::Rc;
use vstd::prelude::*;

verus! {

/// Whether the result at a greater depth is the one at a smaller depth, unless that one ran out of
/// depth.
pub open spec fn settled<T>(shallow: Step<T>, deep: Step<T>) -> bool {
    shallow == Err::<(State, T), Halt>(Halt::Depth) || deep == shallow
}


proof fn depth_emit(
    cx: Context,
    depth: nat,
    state: State,
    expression: Expression,
    continuation: Continuation,
)
    ensures
        settled(
            emit(cx, depth, state, expression, continuation),
            emit(cx, depth + 1, state, expression, continuation),
        ),
    decreases depth, 0int, state,
{
    reveal(emit);
    reveal(emit_step);
    if depth > 0 {
        depth_emit_step(cx, (depth - 1) as nat, state, expression, continuation);
    }
}

proof fn depth_emit_step(
    cx: Context,
    depth: nat,
    state: State,
    expression: Expression,
    continuation: Continuation,
)
    ensures
        settled(
            emit_step(cx, depth, state, expression, continuation),
            emit_step(cx, depth + 1, state, expression, continuation),
        ),
    decreases depth, 9int, state,
{
    reveal(emit_step);
    reveal(emit);
    reveal(emit_list);
    reveal(emit_lowered);
    let next = Rc::new(continuation);
    match expression {
        Expression::Array(input) => {
            let k = ListContinuation { frame: ListFrame::Array { input }, next };
            depth_list(cx, depth, state, copied(&input.elements), List::Nil, k);
        },
        Expression::ArrayAccess(input) => {
            let k = Continuation::Operand(OperandFrame::AccessArray { input }, next);
            depth_emit(cx, depth, state, copied(&input.array), k);
        },
        Expression::Binary(input) => {
            let k = Continuation::Operand(OperandFrame::BinaryLeft { input }, next);
            depth_emit(cx, depth, state, copied(&input.left), k);
        },
        Expression::Call(input) => {
            let k = ListContinuation { frame: ListFrame::CallConst { input }, next };
            depth_list(cx, depth, state, copied(&input.const_arguments), List::Nil, k);
        },
        Expression::Cast(input) => {
            let k = Continuation::Operand(OperandFrame::Cast { input }, next);
            depth_emit(cx, depth, state, copied(&input.expression), k);
        },
        Expression::Composite(input) => {
            let k = ListContinuation { frame: ListFrame::CompositeConst { input }, next };
            depth_list(cx, depth, state, copied(&input.const_arguments), List::Nil, k);
        },
        Expression::DynamicOp(input) => {
            let k = Continuation::Operand(OperandFrame::DynamicTarget { input }, next);
            depth_emit(cx, depth, state, copied(&input.target_program), k);
        },
        Expression::Intrinsic(input) => {
            if takes_vector(input.op) {
                if let List::Cons(vector, values) = &input.arguments {
                    let first = one(copied(vector));
                    let k = ListContinuation { frame: ListFrame::Intrinsic { input, first }, next };
                    depth_list(cx, depth, state, copied(&**values), List::Nil, k);
                }
            } else {
                let first = List::Nil;
                let k = ListContinuation { frame: ListFrame::Intrinsic { input, first }, next };
                depth_list(cx, depth, state, copied(&input.arguments), List::Nil, k);
            }
        },
        Expression::MemberAccess(input) => {
            let k = Continuation::Operand(OperandFrame::MemberAccess { input }, next);
            depth_emit(cx, depth, state, copied(&input.inner), k);
        },
        Expression::Repeat(input) => {
            let k = Continuation::Operand(OperandFrame::RepeatElement { input }, next);
            depth_emit(cx, depth, state, copied(&input.expr), k);
        },
        Expression::Ternary(input) => {
            let optional_type = optional_type_of(state, input.id);
            let frame = OperandFrame::TernaryCondition { input, optional_type };
            let k = Continuation::Operand(frame, next);
            depth_emit(cx, depth, state, copied(&input.condition), k);
        },
        Expression::Tuple(input) => {
            let k = ListContinuation { frame: ListFrame::Tuple { input }, next };
            depth_list(cx, depth, state, copied(&input.elements), List::Nil, k);
        },
        Expression::TupleAccess(input) => {
            let k = Continuation::Operand(OperandFrame::TupleAccess { input }, next);
            depth_emit(cx, depth, state, copied(&input.tuple), k);
        },
        Expression::Unary(input) => {
            let k = Continuation::Operand(OperandFrame::Unary { input }, next);
            depth_emit(cx, depth, state, copied(&input.receiver), k);
        },
        _ => {
            let lowered = reconstruct_expression(cx, state, expression);
            depth_lowered(cx, depth, lowered, expression.spec_id(), false, continuation);
        },
    }
}

proof fn depth_lowered(
    cx: Context,
    depth: nat,
    lowered: Step<Lowered>,
    source: NodeId,
    keeps_dynamic: bool,
    continuation: Continuation,
)
    ensures
        settled(
            emit_lowered(cx, depth, lowered, source, keeps_dynamic, continuation),
            emit_lowered(cx, depth + 1, lowered, source, keeps_dynamic, continuation),
        ),
    decreases depth, 1int, lowered,
{
    reveal(emit_lowered);
    reveal(emit);
    reveal(resume);
    if let Ok((state, (expression, _))) = lowered {
        let state = copy_expression_type(state, source, expression.spec_id());
        depth_emit(cx, depth, state, expression, continuation);
        depth_resume(cx, depth, state, continuation, expression);
    }
}

proof fn depth_list(
    cx: Context,
    depth: nat,
    state: State,
    remaining: List<Expression>,
    rebuilt: List<Expression>,
    continuation: ListContinuation,
)
    ensures
        settled(
            emit_list(cx, depth, state, remaining, rebuilt, continuation),
            emit_list(cx, depth + 1, state, remaining, rebuilt, continuation),
        ),
    decreases depth, 1int, state,
{
    reveal(emit_list);
    reveal(emit);
    reveal(resume_list);
    match remaining {
        List::Nil => {
            depth_resume_list(cx, depth, state, continuation, rebuilt);
        },
        List::Cons(expression, rest) => {
            let k = Continuation::Element {
                rest: copied(&*rest),
                rebuilt,
                next: Rc::new(continuation),
            };
            depth_emit(cx, depth, state, expression, k);
        },
    }
}

proof fn depth_branches(
    cx: Context,
    depth: nat,
    state: State,
    condition: Expression,
    if_true: Lowered,
    if_false: Lowered,
    optional_type: Option<Type>,
    span: Span,
    continuation: Continuation,
)
    ensures
        settled(
            emit_branches(
                cx,
                depth,
                state,
                condition,
                if_true,
                if_false,
                optional_type,
                span,
                continuation,
            ),
            emit_branches(
                cx,
                depth + 1,
                state,
                condition,
                if_true,
                if_false,
                optional_type,
                span,
                continuation,
            ),
        ),
    decreases depth, 1int, state,
{
    reveal(emit_branches);
    reveal(emit);
    let arm = Continuation::Operand(
        OperandFrame::TernaryArm { optional_type, span },
        Rc::new(continuation),
    );
    depth_emit(cx, depth, state, if_true.0, arm);
    if let Ok((state, _)) = emit(cx, depth, state, if_true.0, arm) {
        depth_emit(cx, depth, state, if_false.0, arm);
    }
}

proof fn depth_dynamic_arguments(
    cx: Context,
    depth: nat,
    state: State,
    input: DynamicOpExpression,
    continuation: Continuation,
)
    ensures
        settled(
            emit_dynamic_arguments(cx, depth, state, input, continuation),
            emit_dynamic_arguments(cx, depth + 1, state, input, continuation),
        ),
    decreases depth, 2int, state,
{
    reveal(emit_dynamic_arguments);
    reveal(emit_lowered);
    reveal(emit_list);
    let k = ListContinuation {
        frame: ListFrame::DynamicArguments { input: Rc::new(input) },
        next: Rc::new(continuation),
    };
    match input.kind {
        DynamicOpKind::Read { .. } => {
            let lowered = reconstruct_dynamic_op(cx, state, input);
            depth_lowered(cx, depth, lowered, input.id, true, continuation);
        },
        DynamicOpKind::Op { arguments, .. } => {
            depth_list(cx, depth, state, arguments, List::Nil, k);
        },
        DynamicOpKind::Call { arguments, .. } => {
            depth_list(cx, depth, state, arguments, List::Nil, k);
        },
    }
}

proof fn depth_composite_members(
    cx: Context,
    depth: nat,
    state: State,
    input: CompositeExpression,
    done: List<FieldInitializer>,
    rest: List<FieldInitializer>,
    continuation: Continuation,
)
    ensures
        settled(
            emit_composite_members(cx, depth, state, input, done, rest, continuation),
            emit_composite_members(cx, depth + 1, state, input, done, rest, continuation),
        ),
    decreases depth, 3int, rest,
{
    reveal(emit_composite_members);
    reveal(emit_composite_base);
    reveal(emit);
    match rest {
        List::Nil => {
            let composite = CompositeExpression { members: done, ..input };
            depth_composite_base(cx, depth, state, composite, continuation);
        },
        List::Cons(member, rest) => match &member.expression {
            None => {
                let done = appended(done, one(member));
                depth_composite_members(
                    cx,
                    depth,
                    state,
                    input,
                    done,
                    copied(&*rest),
                    continuation,
                );
            },
            Some(value) => {
                let frame = OperandFrame::CompositeMember {
                    input: Rc::new(input),
                    done,
                    member,
                    rest: copied(&*rest),
                };
                let k = Continuation::Operand(frame, Rc::new(continuation));
                depth_emit(cx, depth, state, copied(value), k);
            },
        },
    }
}

proof fn depth_composite_base(
    cx: Context,
    depth: nat,
    state: State,
    input: CompositeExpression,
    continuation: Continuation,
)
    ensures
        settled(
            emit_composite_base(cx, depth, state, input, continuation),
            emit_composite_base(cx, depth + 1, state, input, continuation),
        ),
    decreases depth, 2int, state,
{
    reveal(emit_composite_base);
    reveal(emit);
    reveal(resume);
    depth_resume(cx, depth, state, continuation, Expression::Composite(Rc::new(input)));
    if let Some(base) = input.base {
        let frame = OperandFrame::CompositeBase { input: Rc::new(input) };
        let k = Continuation::Operand(frame, Rc::new(continuation));
        depth_emit(cx, depth, state, base, k);
    }
}

proof fn depth_assign_place(
    cx: Context,
    depth: nat,
    state: State,
    place: &Expression,
    continuation: Continuation,
)
    ensures
        settled(
            emit_assign_place(cx, depth, state, *place, continuation),
            emit_assign_place(cx, depth + 1, state, *place, continuation),
        ),
    decreases depth, 1int, *place,
{
    reveal(emit_assign_place);
    reveal(resume);
    let next = Rc::new(continuation);
    match place {
        Expression::ArrayAccess(input) => {
            let k = Continuation::Place(PlaceFrame::Array { input: copied(input) }, next);
            depth_assign_place(cx, depth, state, &input.array, k);
        },
        Expression::MemberAccess(input) => {
            let k = Continuation::Place(PlaceFrame::Member { input: copied(input) }, next);
            depth_assign_place(cx, depth, state, &input.inner, k);
        },
        Expression::TupleAccess(input) => {
            let k = Continuation::Place(PlaceFrame::Tuple { input: copied(input) }, next);
            depth_assign_place(cx, depth, state, &input.tuple, k);
        },
        _ => {
            depth_resume(cx, depth, state, continuation, copied(place));
        },
    }
}

proof fn depth_resume(
    cx: Context,
    depth: nat,
    state: State,
    continuation: Continuation,
    value: Expression,
)
    ensures
        settled(
            resume(cx, depth, state, continuation, value),
            resume(cx, depth + 1, state, continuation, value),
        ),
    decreases depth, 0int, state,
{
    reveal(resume);
    reveal(resume_step);
    if depth > 0 {
        depth_resume_step(cx, (depth - 1) as nat, state, continuation, value);
    }
}

proof fn depth_resume_step(
    cx: Context,
    depth: nat,
    state: State,
    continuation: Continuation,
    value: Expression,
)
    ensures
        settled(
            resume_step(cx, depth, state, continuation, value),
            resume_step(cx, depth + 1, state, continuation, value),
        ),
    decreases depth, 11int, state,
{
    reveal(resume_step);
    reveal(emit_list);
    reveal(resume_operand);
    reveal(resume_place);
    reveal(resume_statement);
    match continuation {
        Continuation::Operand(frame, next) => {
            depth_resume_operand(cx, depth, state, frame, copied(&*next), value);
        },
        Continuation::Element { rest, rebuilt, next } => {
            if let Ok((state, (value, _))) = materialize_if(
                cx,
                state,
                value,
                any_may_emit_after(cx, rest),
            ) {
                let rebuilt = appended(rebuilt, one(value));
                depth_list(cx, depth, state, rest, rebuilt, copied(&*next));
            }
        },
        Continuation::Place(frame, next) => {
            depth_resume_place(cx, depth, state, frame, copied(&*next), value);
        },
        Continuation::Statement(frame) => {
            depth_resume_statement(cx, depth, state, frame, value);
        },
    }
}

proof fn depth_resume_operand(
    cx: Context,
    depth: nat,
    state: State,
    frame: OperandFrame,
    next: Continuation,
    value: Expression,
)
    ensures
        settled(
            resume_operand(cx, depth, state, frame, next, value),
            resume_operand(cx, depth + 1, state, frame, next, value),
        ),
    decreases depth, 10int, state,
{
    reveal(resume_operand);
    reveal(emit);
    reveal(resume);
    reveal(resume_ternary);
    reveal(emit_dynamic_arguments);
    reveal(emit_composite_members);
    let after = Rc::new(next);
    match frame {
        OperandFrame::AccessArray { input } => {
            let index = copied(&input.index);
            let strict = expression_may_emit_after_reconstruction(cx, index);
            if let Ok((state, (array, _))) = materialize_if(cx, state, value, strict) {
                let frame = OperandFrame::AccessIndex { array, input };
                depth_emit(cx, depth, state, index, Continuation::Operand(frame, after));
            }
        },
        OperandFrame::AccessIndex { array, input } => {
            let access = ArrayAccess { array, index: value, ..copied(&*input) };
            depth_resume(cx, depth, state, next, Expression::ArrayAccess(Rc::new(access)));
        },
        OperandFrame::BinaryLeft { input } => {
            let right = copied(&input.right);
            let strict = expression_may_emit_after_reconstruction(cx, right);
            if let Ok((state, (left, _))) = materialize_if(cx, state, value, strict) {
                let frame = OperandFrame::BinaryRight { left, input };
                depth_emit(cx, depth, state, right, Continuation::Operand(frame, after));
            }
        },
        OperandFrame::BinaryRight { left, input } => {
            let binary = BinaryExpression { left, right: value, ..copied(&*input) };
            depth_resume(cx, depth, state, next, Expression::Binary(Rc::new(binary)));
        },
        OperandFrame::Cast { input } => {
            let cast = CastExpression { expression: value, ..copied(&*input) };
            depth_resume(cx, depth, state, next, Expression::Cast(Rc::new(cast)));
        },
        OperandFrame::MemberAccess { input } => {
            let access = MemberAccess { inner: value, ..copied(&*input) };
            depth_resume(cx, depth, state, next, Expression::MemberAccess(Rc::new(access)));
        },
        OperandFrame::RepeatElement { input } => {
            let count = copied(&input.count);
            let strict = expression_may_emit_after_reconstruction(cx, count);
            if let Ok((state, (expr, _))) = materialize_if(cx, state, value, strict) {
                let frame = OperandFrame::RepeatCount { expr, input };
                depth_emit(cx, depth, state, count, Continuation::Operand(frame, after));
            }
        },
        OperandFrame::RepeatCount { expr, input } => {
            let repeat = RepeatExpression { expr, count: value, ..copied(&*input) };
            depth_resume(cx, depth, state, next, Expression::Repeat(Rc::new(repeat)));
        },
        OperandFrame::TernaryCondition { input, optional_type } => {
            depth_resume_ternary(cx, depth, state, copied(&*input), optional_type, next, value);
        },
        OperandFrame::TernaryArm { optional_type, span } => {
            depth_resume(cx, depth, state, next, value);
            if let Some(optional_type) = optional_type {
                let (state, (variable, _)) = bind_optional_ternary_branch(
                    state,
                    value,
                    optional_type,
                    span,
                );
                depth_resume(cx, depth, state, next, variable);
            }
        },
        OperandFrame::TupleAccess { input } => {
            let access = TupleAccess { tuple: value, ..copied(&*input) };
            depth_resume(cx, depth, state, next, Expression::TupleAccess(Rc::new(access)));
        },
        OperandFrame::Unary { input } => {
            let unary = UnaryExpression { receiver: value, ..copied(&*input) };
            depth_resume(cx, depth, state, next, Expression::Unary(Rc::new(unary)));
        },
        OperandFrame::DynamicTarget { input } => {
            if let Ok((state, (target_program, _))) = materialize_strict_prefix_expression(
                cx,
                state,
                value,
            ) {
                let access = DynamicOpExpression { target_program, ..copied(&*input) };
                depth_dynamic_arguments(cx, depth, state, access, next);
                if let Some(network) = &input.network {
                    let frame = OperandFrame::DynamicNetwork { input: Rc::new(access) };
                    let k = Continuation::Operand(frame, after);
                    depth_emit(cx, depth, state, copied(network), k);
                }
            }
        },
        OperandFrame::DynamicNetwork { input } => {
            if let Ok((state, (network, _))) = materialize_strict_prefix_expression(
                cx,
                state,
                value,
            ) {
                let access = DynamicOpExpression { network: Some(network), ..copied(&*input) };
                depth_dynamic_arguments(cx, depth, state, access, next);
            }
        },
        OperandFrame::CompositeMember { input, done, member, rest } => {
            if let Ok((state, (value, _))) = materialize_strict_prefix_expression(
                cx,
                state,
                value,
            ) {
                let member = FieldInitializer { expression: Some(value), ..member };
                let done = appended(done, one(member));
                depth_composite_members(cx, depth, state, copied(&*input), done, rest, next);
            }
        },
        OperandFrame::CompositeBase { input } => {
            let composite = CompositeExpression { base: Some(value), ..copied(&*input) };
            depth_resume(cx, depth, state, next, Expression::Composite(Rc::new(composite)));
        },
    }
}

proof fn depth_resume_ternary(
    cx: Context,
    depth: nat,
    state: State,
    input: TernaryExpression,
    optional_type: Option<Type>,
    next: Continuation,
    condition: Expression,
)
    ensures
        settled(
            resume_ternary(cx, depth, state, input, optional_type, next, condition),
            resume_ternary(cx, depth + 1, state, input, optional_type, next, condition),
        ),
    decreases depth, 9int, state,
{
    reveal(resume_ternary);
    reveal(emit_branches);
    reveal(resume);
    let if_true = (input.if_true, List::Nil);
    let if_false = (input.if_false, List::Nil);
    let span = input.span;
    depth_branches(cx, depth, state, condition, if_true, if_false, optional_type, span, next);
    if let Ok((state, if_true)) = reconstruct_expression(cx, state, input.if_true) {
        if let Ok((state, if_false)) = reconstruct_expression(cx, state, input.if_false) {
            let ternary = TernaryExpression {
                condition,
                if_true: if_true.0,
                if_false: if_false.0,
                ..input
            };
            depth_resume(cx, depth, state, next, Expression::Ternary(Rc::new(ternary)));
            depth_branches(
                cx,
                depth,
                state,
                condition,
                if_true,
                if_false,
                optional_type,
                span,
                next,
            );
        }
    }
}

proof fn depth_resume_place(
    cx: Context,
    depth: nat,
    state: State,
    frame: PlaceFrame,
    next: Continuation,
    value: Expression,
)
    ensures
        settled(
            resume_place(cx, depth, state, frame, next, value),
            resume_place(cx, depth + 1, state, frame, next, value),
        ),
    decreases depth, 10int, state,
{
    reveal(resume_place);
    reveal(emit);
    reveal(resume);
    match frame {
        PlaceFrame::Array { input } => {
            let frame = PlaceFrame::Index { array: value, input };
            let k = Continuation::Place(frame, Rc::new(next));
            depth_emit(cx, depth, state, copied(&input.index), k);
        },
        PlaceFrame::Index { array, input } => {
            if let Ok((state, (index, _))) = materialize_strict_prefix_expression(
                cx,
                state,
                value,
            ) {
                let access = ArrayAccess { array, index, ..copied(&*input) };
                depth_resume(cx, depth, state, next, Expression::ArrayAccess(Rc::new(access)));
            }
        },
        PlaceFrame::Member { input } => {
            let access = MemberAccess { inner: value, ..copied(&*input) };
            depth_resume(cx, depth, state, next, Expression::MemberAccess(Rc::new(access)));
        },
        PlaceFrame::Tuple { input } => {
            let access = TupleAccess { tuple: value, ..copied(&*input) };
            depth_resume(cx, depth, state, next, Expression::TupleAccess(Rc::new(access)));
        },
    }
}

proof fn depth_resume_list(
    cx: Context,
    depth: nat,
    state: State,
    continuation: ListContinuation,
    values: List<Expression>,
)
    ensures
        settled(
            resume_list(cx, depth, state, continuation, values),
            resume_list(cx, depth + 1, state, continuation, values),
        ),
    decreases depth, 0int, state,
{
    reveal(resume_list);
    reveal(resume_list_step);
    if depth > 0 {
        depth_resume_list_step(cx, (depth - 1) as nat, state, continuation, values);
    }
}

proof fn depth_resume_list_step(
    cx: Context,
    depth: nat,
    state: State,
    continuation: ListContinuation,
    values: List<Expression>,
)
    ensures
        settled(
            resume_list_step(cx, depth, state, continuation, values),
            resume_list_step(cx, depth + 1, state, continuation, values),
        ),
    decreases depth, 9int, state,
{
    reveal(resume_list_step);
    reveal(resume);
    reveal(emit_list);
    reveal(emit_lowered);
    reveal(emit_composite_members);
    let next = copied(&*continuation.next);
    match continuation.frame {
        ListFrame::Array { input } => {
            let array = ArrayExpression { elements: values, ..copied(&*input) };
            depth_resume(cx, depth, state, next, Expression::Array(Rc::new(array)));
        },
        ListFrame::CallConst { input } => {
            let frame = ListFrame::CallArguments { input, const_arguments: values };
            let k = ListContinuation { frame, next: continuation.next };
            depth_list(cx, depth, state, copied(&input.arguments), List::Nil, k);
        },
        ListFrame::CallArguments { input, const_arguments } => {
            let call = CallExpression {
                const_arguments,
                arguments: values,
                ..copied(&*input)
            };
            let lowered = reconstruct_call(cx, state, call);
            depth_lowered(cx, depth, lowered, input.id, false, next);
        },
        ListFrame::CompositeConst { input } => {
            let composite = CompositeExpression { const_arguments: values, ..copied(&*input) };
            let members = copied(&input.members);
            depth_composite_members(cx, depth, state, composite, List::Nil, members, next);
        },
        ListFrame::DynamicArguments { input } => {
            let kind = match copied(&input.kind) {
                DynamicOpKind::Read { storage } => DynamicOpKind::Read { storage },
                DynamicOpKind::Op { member, op, arguments: _ } => DynamicOpKind::Op {
                    member,
                    op,
                    arguments: values,
                },
                DynamicOpKind::Call { function, arguments: _ } => DynamicOpKind::Call {
                    function,
                    arguments: values,
                },
            };
            let access = DynamicOpExpression { kind, ..copied(&*input) };
            let lowered = reconstruct_dynamic_op(cx, state, access);
            depth_lowered(cx, depth, lowered, input.id, true, next);
        },
        ListFrame::Intrinsic { input, first } => {
            let arguments = appended(first, values);
            let operation = IntrinsicExpression { arguments, ..copied(&*input) };
            let lowered = reconstruct_intrinsic(cx, state, operation);
            depth_lowered(cx, depth, lowered, input.id, false, next);
        },
        ListFrame::Tuple { input } => {
            let tuple = TupleExpression { elements: values, ..copied(&*input) };
            depth_resume(cx, depth, state, next, Expression::Tuple(Rc::new(tuple)));
        },
    }
}

proof fn depth_resume_statement(
    cx: Context,
    depth: nat,
    state: State,
    frame: StatementFrame,
    value: Expression,
)
    ensures
        settled(
            resume_statement(cx, depth, state, frame, value),
            resume_statement(cx, depth + 1, state, frame, value),
        ),
    decreases depth, 10int, state,
{
    reveal(resume_statement);
    reveal(emit);
    reveal(nested);
    reveal(reconstruct_block);
    reveal(reconstruct_otherwise);
    match frame {
        StatementFrame::Const { input: _, type_: _, tail } => {
            depth_nested(cx, depth, state, tail);
        },
        StatementFrame::Definition { input: _, type_: _, tail } => {
            depth_nested(cx, depth, with_id(state), tail);
        },
        StatementFrame::AssertLeft { equal, right, span } => {
            let strict = expression_may_emit_after_reconstruction(cx, right);
            if let Ok((state, (left, _))) = materialize_if(cx, state, value, strict) {
                let frame = StatementFrame::AssertRight { equal, left, span };
                depth_emit(cx, depth, state, right, Continuation::Statement(frame));
            }
        },
        StatementFrame::AssignPlace { value: assigned, span } => {
            let frame = StatementFrame::AssignValue { place: value, span };
            depth_emit(cx, depth, state, assigned, Continuation::Statement(frame));
        },
        StatementFrame::Conditional { input } => {
            let then_block = copied(&input.then_block);
            depth_block(cx, depth, state, then_block);
            if let Ok((state, _)) = reconstruct_block(cx, depth, state, then_block) {
                depth_otherwise(cx, depth, state, copied(&input.otherwise));
            }
        },
        StatementFrame::IterationStart { input, type_ } => {
            if let Ok((state, (start, _))) = materialize_strict_prefix_expression(
                cx,
                state,
                value,
            ) {
                let frame = StatementFrame::IterationStop { input, type_, start };
                depth_emit(
                    cx,
                    depth,
                    state,
                    copied(&input.stop),
                    Continuation::Statement(frame),
                );
            }
        },
        StatementFrame::IterationStop { input, type_: _, start: _ } => {
            depth_block(cx, depth, state, copied(&input.block));
        },
        _ => {},
    }
}

proof fn depth_nested(cx: Context, depth: nat, state: State, statements: List<Statement>)
    ensures
        settled(nested(cx, depth, state, statements), nested(cx, depth + 1, state, statements)),
    decreases depth, 1int, statements,
{
    reveal(nested);
    reveal(reconstruct_block_statements);
    if depth > 0 {
        depth_block_statements(cx, (depth - 1) as nat, state, &statements);
    }
}

proof fn depth_block_statements(
    cx: Context,
    depth: nat,
    state: State,
    statements: &List<Statement>,
)
    ensures
        settled(
            reconstruct_block_statements(cx, depth, state, *statements),
            reconstruct_block_statements(cx, depth + 1, state, *statements),
        ),
    decreases depth, 8int, *statements,
{
    reveal(reconstruct_block_statements);
    reveal(reconstruct_statement);
    reveal(reconstruct_statement_with_tail);
    match statements {
        List::Nil => {},
        List::Cons(first, rest) => {
            depth_statement_with_tail(cx, depth, state, copied(first), copied(&**rest));
            depth_statement(cx, depth, state, copied(first));
            if let Ok((state, _)) = reconstruct_statement(cx, depth, state, copied(first)) {
                depth_block_statements(cx, depth, state, rest);
            }
        },
    }
}

proof fn depth_block(cx: Context, depth: nat, state: State, block: Block)
    ensures
        settled(
            reconstruct_block(cx, depth, state, block),
            reconstruct_block(cx, depth + 1, state, block),
        ),
    decreases depth, 2int, block,
{
    reveal(reconstruct_block);
    reveal(nested);
    depth_nested(cx, depth, state, block.statements);
}

proof fn depth_otherwise(cx: Context, depth: nat, state: State, otherwise: Option<Statement>)
    ensures
        settled(
            reconstruct_otherwise(cx, depth, state, otherwise),
            reconstruct_otherwise(cx, depth + 1, state, otherwise),
        ),
    decreases depth, 8int, otherwise,
{
    reveal(reconstruct_otherwise);
    reveal(reconstruct_statement_with_tail);
    if let Some(statement) = otherwise {
        depth_statement_with_tail(cx, depth, state, statement, List::Nil);
    }
}

proof fn depth_statement(cx: Context, depth: nat, state: State, statement: Statement)
    ensures
        settled(
            reconstruct_statement(cx, depth, state, statement),
            reconstruct_statement(cx, depth + 1, state, statement),
        ),
    decreases depth, 7int, statement,
{
    reveal(reconstruct_statement);
    reveal(reconstruct_block);
    reveal(reconstruct_conditional_with_tail);
    match statement {
        Statement::Block(block) => {
            depth_block(cx, depth, state, copied(&*block));
        },
        Statement::Conditional(input) => {
            depth_conditional(cx, depth, state, copied(&*input), List::Nil);
        },
        _ => {},
    }
}

proof fn depth_then_tail(cx: Context, depth: nat, emitted: Emitted, tail: List<Statement>)
    ensures
        settled(
            emitted_then_tail(cx, depth, emitted, tail),
            emitted_then_tail(cx, depth + 1, emitted, tail),
        ),
    decreases depth, 2int, tail,
{
    reveal(emitted_then_tail);
    reveal(nested);
    if let Ok((state, _)) = emitted {
        depth_nested(cx, depth, state, tail);
    }
}

proof fn depth_conditional(
    cx: Context,
    depth: nat,
    state: State,
    input: ConditionalStatement,
    tail: List<Statement>,
)
    ensures
        settled(
            reconstruct_conditional_with_tail(cx, depth, state, input, tail),
            reconstruct_conditional_with_tail(cx, depth + 1, state, input, tail),
        ),
    decreases depth, 6int, state,
{
    reveal(reconstruct_conditional_with_tail);
    reveal(emit);
    reveal(emitted_then_tail);
    let k = Continuation::Statement(StatementFrame::Conditional { input: Rc::new(input) });
    depth_emit(cx, depth, state, input.condition, k);
    depth_then_tail(cx, depth, emit(cx, depth, state, input.condition, k), tail);
}

proof fn depth_assert(
    cx: Context,
    depth: nat,
    state: State,
    input: AssertStatement,
    tail: List<Statement>,
)
    ensures
        settled(
            reconstruct_assert_with_tail(cx, depth, state, input, tail),
            reconstruct_assert_with_tail(cx, depth + 1, state, input, tail),
        ),
    decreases depth, 6int, state,
{
    reveal(reconstruct_assert_with_tail);
    reveal(emit);
    reveal(emitted_then_tail);
    let span = input.span;
    match input.variant {
        AssertVariant::Assert(expression) => {
            let k = Continuation::Statement(StatementFrame::Assert { span });
            depth_emit(cx, depth, state, expression, k);
            depth_then_tail(cx, depth, emit(cx, depth, state, expression, k), tail);
        },
        AssertVariant::AssertEq(left, right) => {
            let frame = StatementFrame::AssertLeft { equal: true, right, span };
            let k = Continuation::Statement(frame);
            depth_emit(cx, depth, state, left, k);
            depth_then_tail(cx, depth, emit(cx, depth, state, left, k), tail);
        },
        AssertVariant::AssertNeq(left, right) => {
            let frame = StatementFrame::AssertLeft { equal: false, right, span };
            let k = Continuation::Statement(frame);
            depth_emit(cx, depth, state, left, k);
            depth_then_tail(cx, depth, emit(cx, depth, state, left, k), tail);
        },
    }
}

proof fn depth_assign(
    cx: Context,
    depth: nat,
    state: State,
    input: AssignStatement,
    tail: List<Statement>,
)
    ensures
        settled(
            reconstruct_assign_with_tail(cx, depth, state, input, tail),
            reconstruct_assign_with_tail(cx, depth + 1, state, input, tail),
        ),
    decreases depth, 6int, state,
{
    reveal(reconstruct_assign_with_tail);
    reveal(emit);
    reveal(emit_assign_place);
    reveal(emitted_then_tail);
    match written_storage(cx, input.place) {
        Err(_) => {},
        Ok(Some(name)) => {
            let (state, mapping) = with_suffixed(state, name, "__"@);
            let frame = StatementFrame::StorageValue { mapping, span: input.span };
            let k = Continuation::Statement(frame);
            depth_emit(cx, depth, state, input.value, k);
            depth_then_tail(cx, depth, emit(cx, depth, state, input.value, k), tail);
        },
        Ok(None) => {
            let frame = StatementFrame::AssignPlace { value: input.value, span: input.span };
            let k = Continuation::Statement(frame);
            depth_assign_place(cx, depth, state, &input.place, k);
            depth_then_tail(cx, depth, emit_assign_place(cx, depth, state, input.place, k), tail);
        },
    }
}

proof fn depth_definition(
    cx: Context,
    depth: nat,
    state: State,
    input: DefinitionStatement,
    tail: List<Statement>,
)
    ensures
        settled(
            reconstruct_definition_with_tail(cx, depth, state, input, tail),
            reconstruct_definition_with_tail(cx, depth + 1, state, input, tail),
        ),
    decreases depth, 6int, state,
{
    reveal(reconstruct_definition_with_tail);
    reveal(emit);
    reveal(emitted_then_tail);
    if let Ok((state, type_)) = reconstruct_given_type(cx, state, input.type_) {
        match input.place {
            DefinitionPlace::Single(identifier) => {
                let (branch_tail, rest) = split_tail(tail, identifier.name);
                let frame = StatementFrame::Definition {
                    input: Rc::new(input),
                    type_,
                    tail: branch_tail,
                };
                let k = Continuation::Statement(frame);
                depth_emit(cx, depth, state, input.value, k);
                depth_then_tail(cx, depth, emit(cx, depth, state, input.value, k), rest);
            },
            DefinitionPlace::Multiple(_) => {
                let frame = StatementFrame::Definition { input: Rc::new(input), type_, tail };
                depth_emit(cx, depth, state, input.value, Continuation::Statement(frame));
            },
        }
    }
}

proof fn depth_statement_with_tail(
    cx: Context,
    depth: nat,
    state: State,
    statement: Statement,
    tail: List<Statement>,
)
    ensures
        settled(
            reconstruct_statement_with_tail(cx, depth, state, statement, tail),
            reconstruct_statement_with_tail(cx, depth + 1, state, statement, tail),
        ),
    decreases depth, 7int, state,
{
    reveal(reconstruct_statement_with_tail);
    reveal(reconstruct_assert_with_tail);
    reveal(reconstruct_assign_with_tail);
    reveal(reconstruct_block);
    reveal(nested);
    reveal(reconstruct_conditional_with_tail);
    reveal(emit);
    reveal(reconstruct_definition_with_tail);
    reveal(emitted_then_tail);
    match statement {
        Statement::Assert(input) => {
            depth_assert(cx, depth, state, copied(&*input), tail);
        },
        Statement::Assign(input) => {
            depth_assign(cx, depth, state, copied(&*input), tail);
        },
        Statement::Block(block) => {
            depth_block(cx, depth, state, copied(&*block));
            if let Ok((state, _)) = reconstruct_block(cx, depth, state, copied(&*block)) {
                depth_nested(cx, depth, state, tail);
            }
        },
        Statement::Conditional(input) => {
            depth_conditional(cx, depth, state, copied(&*input), tail);
        },
        Statement::Const(input) => {
            if let Ok((state, (type_, _))) = reconstruct_type(cx, state, copied(&input.type_)) {
                let k = Continuation::Statement(StatementFrame::Const { input, type_, tail });
                depth_emit(cx, depth, state, copied(&input.value), k);
            }
        },
        Statement::Definition(input) => {
            depth_definition(cx, depth, state, copied(&*input), tail);
        },
        Statement::Expression(input) => {
            let expression = copied(&input.expression);
            let frame = StatementFrame::Expression {
                keep: !can_be_discarded(state.types, expression),
                span: input.span,
            };
            let k = Continuation::Statement(frame);
            depth_emit(cx, depth, state, expression, k);
            depth_then_tail(cx, depth, emit(cx, depth, state, expression, k), tail);
        },
        Statement::Iteration(input) => {
            if let Ok((state, type_)) = reconstruct_given_type(cx, state, copied(&input.type_)) {
                let start = copied(&input.start);
                let k = Continuation::Statement(StatementFrame::IterationStart { input, type_ });
                depth_emit(cx, depth, state, start, k);
                depth_then_tail(cx, depth, emit(cx, depth, state, start, k), tail);
            }
        },
        Statement::Return(input) => {
            let k = Continuation::Statement(StatementFrame::Return { span: input.span });
            depth_emit(cx, depth, state, copied(&input.expression), k);
        },
    }
}

/// The same holds of an expression.
pub proof fn lemma_greater_emit(
    cx: Context,
    depth: nat,
    greater: nat,
    state: State,
    expression: Expression,
    continuation: Continuation,
)
    requires
        depth <= greater,
        emit(cx, depth, state, expression, continuation) != Err::<(State, List<Statement>), Halt>(
            Halt::Depth,
        ),
    ensures
        emit(cx, greater, state, expression, continuation) == emit(
            cx,
            depth,
            state,
            expression,
            continuation,
        ),
    decreases greater - depth,
{
    if depth < greater {
        depth_emit(cx, depth, state, expression, continuation);
        lemma_greater_emit(cx, depth + 1, greater, state, expression, continuation);
    }
}

pub proof fn lemma_greater_place(
    cx: Context,
    depth: nat,
    greater: nat,
    state: State,
    place: Expression,
    continuation: Continuation,
)
    requires
        depth <= greater,
        emit_assign_place(cx, depth, state, place, continuation) != Err::<
            (State, List<Statement>),
            Halt,
        >(Halt::Depth),
    ensures
        emit_assign_place(cx, greater, state, place, continuation) == emit_assign_place(
            cx,
            depth,
            state,
            place,
            continuation,
        ),
    decreases greater - depth,
{
    if depth < greater {
        depth_assign_place(cx, depth, state, &place, continuation);
        lemma_greater_place(cx, depth + 1, greater, state, place, continuation);
    }
}

pub proof fn lemma_greater_nested(
    cx: Context,
    depth: nat,
    greater: nat,
    state: State,
    statements: List<Statement>,
)
    requires
        depth <= greater,
        nested(cx, depth, state, statements) != Err::<(State, List<Statement>), Halt>(Halt::Depth),
    ensures
        nested(cx, greater, state, statements) == nested(cx, depth, state, statements),
    decreases greater - depth,
{
    if depth < greater {
        depth_nested(cx, depth, state, statements);
        lemma_greater_nested(cx, depth + 1, greater, state, statements);
    }
}

pub proof fn lemma_greater_otherwise(
    cx: Context,
    depth: nat,
    greater: nat,
    state: State,
    otherwise: Option<Statement>,
)
    requires
        depth <= greater,
        reconstruct_otherwise(cx, depth, state, otherwise) != Err::<
            (State, Option<Statement>),
            Halt,
        >(Halt::Depth),
    ensures
        reconstruct_otherwise(cx, greater, state, otherwise) == reconstruct_otherwise(
            cx,
            depth,
            state,
            otherwise,
        ),
    decreases greater - depth,
{
    if depth < greater {
        depth_otherwise(cx, depth, state, otherwise);
        lemma_greater_otherwise(cx, depth + 1, greater, state, otherwise);
    }
}

/// The bound on the depth only cuts lowering short: what a block is lowered to within some bound
/// is what it is lowered to within any greater one. In the same way a failure that is not for want
/// of depth stays.
pub proof fn greater_depth_changes_nothing(
    cx: Context,
    depth: nat,
    greater: nat,
    state: State,
    block: Block,
)
    requires
        depth <= greater,
        reconstruct_block(cx, depth, state, block) != Err::<(State, Block), Halt>(Halt::Depth),
    ensures
        reconstruct_block(cx, greater, state, block) == reconstruct_block(cx, depth, state, block),
    decreases greater - depth,
{
    if depth < greater {
        depth_block(cx, depth, state, block);
        greater_depth_changes_nothing(cx, depth + 1, greater, state, block);
    }
}

/// What `block` is lowered to, however deep the steps nest, unless they nest without end.
pub open spec fn block_lowering(cx: Context, state: State, block: Block) -> Step<Block> {
    let depth = choose|depth: nat| #[trigger]
        reconstruct_block(cx, depth, state, block) != Err::<(State, Block), Halt>(Halt::Depth);
    reconstruct_block(cx, depth, state, block)
}

/// Every bound on the depth that is not run out of gives the same: what `block` is lowered to
/// without one.
pub proof fn blocks_need_no_limit(cx: Context, depth: nat, state: State, block: Block)
    requires
        reconstruct_block(cx, depth, state, block) != Err::<(State, Block), Halt>(Halt::Depth),
    ensures
        block_lowering(cx, state, block) == reconstruct_block(cx, depth, state, block),
{
    let other = choose|other: nat| #[trigger]
        reconstruct_block(cx, other, state, block) != Err::<(State, Block), Halt>(Halt::Depth);
    if other <= depth {
        greater_depth_changes_nothing(cx, other, depth, state, block);
    } else {
        greater_depth_changes_nothing(cx, depth, other, state, block);
    }
}

pub proof fn lemma_greater_statements(
    cx: Context,
    depth: nat,
    greater: nat,
    state: State,
    statements: &List<Statement>,
)
    requires
        depth <= greater,
        reconstruct_block_statements(
            cx,
            depth,
            state,
            *statements,
        ) != Err::<(State, List<Statement>), Halt>(Halt::Depth),
    ensures
        reconstruct_block_statements(
            cx,
            greater,
            state,
            *statements,
        ) == reconstruct_block_statements(cx, depth, state, *statements),
    decreases greater - depth,
{
    if depth < greater {
        depth_block_statements(cx, depth, state, statements);
        lemma_greater_statements(cx, depth + 1, greater, state, statements);
    }
}

/// What `statements` are lowered to, however deep the steps nest, unless they nest without end.
pub open spec fn statements_lowering(
    cx: Context,
    state: State,
    statements: List<Statement>,
) -> Step<List<Statement>> {
    let depth = choose|depth: nat| #[trigger]
        reconstruct_block_statements(
            cx,
            depth,
            state,
            statements,
        ) != Err::<(State, List<Statement>), Halt>(Halt::Depth);
    reconstruct_block_statements(cx, depth, state, statements)
}

/// Every bound on the depth that is not run out of gives the same: what `statements` are lowered to
/// without one.
pub proof fn statements_need_no_limit(
    cx: Context,
    depth: nat,
    state: State,
    statements: &List<Statement>,
)
    requires
        reconstruct_block_statements(
            cx,
            depth,
            state,
            *statements,
        ) != Err::<(State, List<Statement>), Halt>(Halt::Depth),
    ensures
        statements_lowering(cx, state, *statements) == reconstruct_block_statements(
            cx,
            depth,
            state,
            *statements,
        ),
{
    let other = choose|other: nat| #[trigger]
        reconstruct_block_statements(
            cx,
            other,
            state,
            *statements,
        ) != Err::<(State, List<Statement>), Halt>(Halt::Depth);
    if other <= depth {
        lemma_greater_statements(cx, other, depth, state, statements);
    } else {
        lemma_greater_statements(cx, depth, other, state, statements);
    }
}

pub proof fn lemma_greater_statement(
    cx: Context,
    depth: nat,
    greater: nat,
    state: State,
    statement: Statement,
)
    requires
        depth <= greater,
        reconstruct_statement(
            cx,
            depth,
            state,
            statement,
        ) != Err::<(State, LoweredStatement), Halt>(Halt::Depth),
    ensures
        reconstruct_statement(
            cx,
            greater,
            state,
            statement,
        ) == reconstruct_statement(cx, depth, state, statement),
    decreases greater - depth,
{
    if depth < greater {
        depth_statement(cx, depth, state, statement);
        lemma_greater_statement(cx, depth + 1, greater, state, statement);
    }
}

/// What `statement` is lowered to, however deep the steps nest, unless they nest without end.
pub open spec fn statement_lowering(
    cx: Context,
    state: State,
    statement: Statement,
) -> Step<LoweredStatement> {
    let depth = choose|depth: nat| #[trigger]
        reconstruct_statement(
            cx,
            depth,
            state,
            statement,
        ) != Err::<(State, LoweredStatement), Halt>(Halt::Depth);
    reconstruct_statement(cx, depth, state, statement)
}

/// Every bound on the depth that is not run out of gives the same: what `statement` is lowered to
/// without one.
pub proof fn statement_needs_no_limit(cx: Context, depth: nat, state: State, statement: Statement)
    requires
        reconstruct_statement(
            cx,
            depth,
            state,
            statement,
        ) != Err::<(State, LoweredStatement), Halt>(Halt::Depth),
    ensures
        statement_lowering(cx, state, statement) == reconstruct_statement(
            cx,
            depth,
            state,
            statement,
        ),
{
    let other = choose|other: nat| #[trigger]
        reconstruct_statement(
            cx,
            other,
            state,
            statement,
        ) != Err::<(State, LoweredStatement), Halt>(Halt::Depth);
    if other <= depth {
        lemma_greater_statement(cx, other, depth, state, statement);
    } else {
        lemma_greater_statement(cx, depth, other, state, statement);
    }
}

} // verus!
