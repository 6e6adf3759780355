//! Lowering for a continuation hands on what has nothing to do with storage as it is.
use crate::ast::{
    ArrayAccess, ArrayExpression, BinaryExpression, CallExpression, CastExpression,
    CompositeExpression, Expression, FieldInitializer, IntrinsicExpression, MemberAccess,
    RepeatExpression, Statement, TernaryExpression, TupleAccess, TupleExpression, UnaryExpression,
};
use crate::names::Texts;
use crate::list::{appended, copied, one, List};
use crate::purity::can_be_discarded;
use crate::state::State;
use crate::storage_lowering::continuation::{
    Continuation, ListContinuation, ListFrame, OperandFrame,
};
use crate::storage_lowering::emit::{
    copy_expression_type, emit, emit_composite_base, emit_composite_members, emit_list,
    emit_lowered, emit_step, materialize_if, optional_type_of, preceded, resume, resume_list,
    resume_list_step, resume_operand, resume_step, resume_ternary, Emitted,
};
use crate::storage_lowering::growing::grown;
use crate::storage_lowering::laws::branches_emit;
use crate::storage_lowering::orderly::{
    are_orderly, fields_are_inert, fields_are_orderly, is_orderly, lemma_orderly_field,
    lemma_orderly_first, lemma_orderly_option, option_is_orderly,
};
use crate::storage_lowering::plain::{
    are_plain, fields_are_plain, group_plain, is_plain, is_regular_state, option_is_plain,
};
use crate::storage_lowering::predicates::{
    any_may_emit, any_may_emit_after, any_member_may_emit, any_member_reconstructs,
    any_reconstructs, expression_may_emit_after_reconstruction,
};
use crate::storage_lowering::reconstruct::{
    reconstruct_call, reconstruct_expression, reconstruct_intrinsic,
};
use crate::storage_lowering::staying::{lemma_call, lemma_intrinsic, plain_expressions_stay};
use crate::storage_lowering::vectors::materialize_strict_prefix_expression;
use crate::storage_lowering::visitor::Context;
use std::rc::Rc;
use vstd::prelude::*;

verus! {

broadcast use group_plain;

/// Whether lowering gave the statements `out`, and all names that it made are among `names`.
pub open spec fn gave(names: Texts, emitted: Emitted, out: List<Statement>) -> bool {
    emitted matches Ok((state, statements)) && statements == out && grown(state.names, names)
}

/// Whether `expression` has nothing to do with storage, and is evaluated in order.
pub open spec fn is_quiet(cx: Context, expression: Expression) -> bool {
    &&& is_plain(cx, false, expression)
    &&& is_orderly(cx, expression)
    &&& !expression_may_emit_after_reconstruction(cx, expression)
}

pub open spec fn are_quiet(cx: Context, expressions: List<Expression>) -> bool {
    &&& are_plain(cx, false, expressions)
    &&& are_orderly(cx, expressions)
    &&& !any_may_emit_after(cx, expressions)
}

pub proof fn lemma_any_after(cx: Context, expressions: List<Expression>)
    ensures
        any_may_emit_after(cx, expressions) == (any_may_emit(expressions) || any_reconstructs(
            cx,
            expressions,
        )),
    decreases expressions,
{
    if let List::Cons(_, rest) = expressions {
        lemma_any_after(cx, copied(&*rest));
    }
}

pub proof fn lemma_appended_more<T>(first: List<T>, middle: T, rest: List<T>)
    ensures
        appended(appended(first, one(middle)), rest) == appended(
            first,
            List::Cons(middle, Rc::new(rest)),
        ),
    decreases first,
{
    reveal_with_fuel(appended, 2);
    if let List::Cons(_, tail) = first {
        lemma_appended_more(copied(&*tail), middle, rest);
    }
}

pub proof fn lemma_appended_nil<T>(first: List<T>)
    ensures
        appended(first, List::Nil) == first,
    decreases first,
{
    if let List::Cons(_, tail) = first {
        lemma_appended_nil(copied(&*tail));
    }
}

/* Single steps */

/// Lowering an expression is a step of it.
pub proof fn lemma_emit_steps(
    cx: Context,
    names: Texts,
    depth: nat,
    state: State,
    expression: Expression,
    next: Continuation,
    out: List<Statement>,
)
    requires
        gave(names, emit(cx, depth, state, expression, next), out),
    ensures
        depth > 0,
        gave(names, emit_step(cx, (depth - 1) as nat, state, expression, next), out),
{
    reveal(emit);
    reveal(emit_step);
}

pub proof fn lemma_resume_steps(
    cx: Context,
    names: Texts,
    depth: nat,
    state: State,
    frame: OperandFrame,
    next: Continuation,
    value: Expression,
    out: List<Statement>,
)
    requires
        gave(
            names,
            resume(cx, depth, state, Continuation::Operand(frame, Rc::new(next)), value),
            out,
        ),
    ensures
        depth > 0,
        gave(names, resume_operand(cx, (depth - 1) as nat, state, frame, next, value), out),
{
    reveal(resume);
    reveal(resume_step);
    reveal(resume_operand);
    let k = Continuation::Operand(frame, Rc::new(next));
    assert(resume(cx, depth, state, k, value) == resume_step(
        cx,
        (depth - 1) as nat,
        state,
        k,
        value,
    ));
}

pub proof fn lemma_element_steps(
    cx: Context,
    names: Texts,
    depth: nat,
    state: State,
    rest: List<Expression>,
    rebuilt: List<Expression>,
    next: ListContinuation,
    value: Expression,
    out: List<Statement>,
)
    requires
        gave(names, 
            resume(
                cx,
                depth,
                state,
                Continuation::Element { rest, rebuilt, next: Rc::new(next) },
                value,
            ),
            out,
        ),
    ensures
        depth > 0,
        materialize_if(cx, state, value, any_may_emit_after(cx, rest)) matches Ok(
            (after, (bound, statements)),
        ) && gave(names, 
            preceded(
                statements,
                emit_list(
                    cx,
                    (depth - 1) as nat,
                    after,
                    rest,
                    appended(rebuilt, one(bound)),
                    next,
                ),
            ),
            out,
        ),
{
    reveal(resume);
    reveal(resume_step);
    reveal(emit_list);
    let k = Continuation::Element { rest, rebuilt, next: Rc::new(next) };
    assert(resume(cx, depth, state, k, value) == resume_step(
        cx,
        (depth - 1) as nat,
        state,
        k,
        value,
    ));
}

pub proof fn lemma_list_steps(
    cx: Context,
    names: Texts,
    depth: nat,
    state: State,
    continuation: ListContinuation,
    values: List<Expression>,
    out: List<Statement>,
)
    requires
        gave(names, resume_list(cx, depth, state, continuation, values), out),
    ensures
        depth > 0,
        gave(names, resume_list_step(cx, (depth - 1) as nat, state, continuation, values), out),
{
    reveal(resume_list);
    reveal(resume_list_step);
}

/* Expressions */

proof fn lemma_nothing_precedes(names: Texts, emitted: Emitted, out: List<Statement>)
    ensures
        gave(names, preceded(List::Nil, emitted), out) == gave(names, emitted, out),
{
}

/// What is handed on, and in which state, if an expression that has nothing to do with storage is
/// lowered: the expression.
pub proof fn lemma_quiet(
    cx: Context,
    names: Texts,
    depth: nat,
    state: State,
    expression: Expression,
    next: Continuation,
    out: List<Statement>,
) -> (at: (nat, State))
    requires
        is_regular_state(cx, state),
        is_quiet(cx, expression),
        gave(names, emit(cx, depth, state, expression, next), out),
    ensures
        at.0 < depth,
        is_regular_state(cx, at.1),
        gave(names, resume(cx, at.0, at.1, next, expression), out),
    decreases depth, 1int,
{
    match expression {
        Expression::Array(input) => lemma_quiet_array(cx, names, depth, state, input, next, out),
        Expression::ArrayAccess(input) => lemma_quiet_array_access(
            cx,
            names,
            depth,
            state,
            input,
            next,
            out,
        ),
        Expression::Binary(input) => lemma_quiet_binary(cx, names, depth, state, input, next, out),
        Expression::Call(input) => lemma_quiet_call(cx, names, depth, state, input, next, out),
        Expression::Cast(input) => lemma_quiet_cast(cx, names, depth, state, input, next, out),
        Expression::Composite(input) => lemma_quiet_composite(
            cx,
            names,
            depth,
            state,
            input,
            next,
            out,
        ),
        Expression::Intrinsic(input) => lemma_quiet_intrinsic(
            cx,
            names,
            depth,
            state,
            input,
            next,
            out,
        ),
        Expression::MemberAccess(input) => lemma_quiet_member_access(
            cx,
            names,
            depth,
            state,
            input,
            next,
            out,
        ),
        Expression::Repeat(input) => lemma_quiet_repeat(cx, names, depth, state, input, next, out),
        Expression::Ternary(input) => lemma_quiet_ternary(
            cx,
            names,
            depth,
            state,
            input,
            next,
            out,
        ),
        Expression::Tuple(input) => lemma_quiet_tuple(cx, names, depth, state, input, next, out),
        Expression::TupleAccess(input) => lemma_quiet_tuple_access(
            cx,
            names,
            depth,
            state,
            input,
            next,
            out,
        ),
        Expression::Unary(input) => lemma_quiet_unary(cx, names, depth, state, input, next, out),
        _ => {
            lemma_emit_steps(cx, names, depth, state, expression, next, out);
            reveal(emit_step);
            reveal(emit_lowered);
            reveal(resume);
            reveal(is_plain);
            plain_expressions_stay(cx, false, state, expression);
            branches_emit(&expression);
            let id = expression.spec_id();
            let lowered = reconstruct_expression(cx, state, expression);
            assert(gave(names, 
                emit_lowered(cx, (depth - 1) as nat, lowered, id, false, next),
                out,
            ));
            ((depth - 1) as nat, copy_expression_type(state, id, id))
        },
    }
}

proof fn lemma_quiet_cast(
    cx: Context,
    names: Texts,
    depth: nat,
    state: State,
    input: Rc<CastExpression>,
    next: Continuation,
    out: List<Statement>,
) -> (at: (nat, State))
    requires
        is_regular_state(cx, state),
        is_quiet(cx, Expression::Cast(input)),
        gave(names, emit(cx, depth, state, Expression::Cast(input), next), out),
    ensures
        at.0 < depth,
        is_regular_state(cx, at.1),
        gave(names, resume(cx, at.0, at.1, next, Expression::Cast(input)), out),
    decreases depth, 0int,
{
    let expression = Expression::Cast(input);
    lemma_emit_steps(cx, names, depth, state, expression, next, out);
    reveal(is_orderly);
    reveal(are_orderly);
    reveal(is_plain);
    reveal(emit_step);
    reveal(emit);
    reveal(resume_operand);
    reveal(resume);
    let frame = OperandFrame::Cast { input };
    let k = Continuation::Operand(frame, Rc::new(next));
    let operand = copied(&input.expression);
    let (d, s) = lemma_quiet(cx, names, (depth - 1) as nat, state, operand, k, out);
    lemma_resume_steps(cx, names, d, s, frame, next, operand, out);
    ((d - 1) as nat, s)
}

proof fn lemma_quiet_member_access(
    cx: Context,
    names: Texts,
    depth: nat,
    state: State,
    input: Rc<MemberAccess>,
    next: Continuation,
    out: List<Statement>,
) -> (at: (nat, State))
    requires
        is_regular_state(cx, state),
        is_quiet(cx, Expression::MemberAccess(input)),
        gave(names, emit(cx, depth, state, Expression::MemberAccess(input), next), out),
    ensures
        at.0 < depth,
        is_regular_state(cx, at.1),
        gave(names, resume(cx, at.0, at.1, next, Expression::MemberAccess(input)), out),
    decreases depth, 0int,
{
    let expression = Expression::MemberAccess(input);
    lemma_emit_steps(cx, names, depth, state, expression, next, out);
    reveal(is_orderly);
    reveal(are_orderly);
    reveal(is_plain);
    reveal(emit_step);
    reveal(emit);
    reveal(resume_operand);
    reveal(resume);
    let frame = OperandFrame::MemberAccess { input };
    let k = Continuation::Operand(frame, Rc::new(next));
    let operand = copied(&input.inner);
    let (d, s) = lemma_quiet(cx, names, (depth - 1) as nat, state, operand, k, out);
    lemma_resume_steps(cx, names, d, s, frame, next, operand, out);
    ((d - 1) as nat, s)
}

proof fn lemma_quiet_tuple_access(
    cx: Context,
    names: Texts,
    depth: nat,
    state: State,
    input: Rc<TupleAccess>,
    next: Continuation,
    out: List<Statement>,
) -> (at: (nat, State))
    requires
        is_regular_state(cx, state),
        is_quiet(cx, Expression::TupleAccess(input)),
        gave(names, emit(cx, depth, state, Expression::TupleAccess(input), next), out),
    ensures
        at.0 < depth,
        is_regular_state(cx, at.1),
        gave(names, resume(cx, at.0, at.1, next, Expression::TupleAccess(input)), out),
    decreases depth, 0int,
{
    let expression = Expression::TupleAccess(input);
    lemma_emit_steps(cx, names, depth, state, expression, next, out);
    reveal(is_orderly);
    reveal(are_orderly);
    reveal(is_plain);
    reveal(emit_step);
    reveal(emit);
    reveal(resume_operand);
    reveal(resume);
    let frame = OperandFrame::TupleAccess { input };
    let k = Continuation::Operand(frame, Rc::new(next));
    let operand = copied(&input.tuple);
    let (d, s) = lemma_quiet(cx, names, (depth - 1) as nat, state, operand, k, out);
    lemma_resume_steps(cx, names, d, s, frame, next, operand, out);
    ((d - 1) as nat, s)
}

proof fn lemma_quiet_unary(
    cx: Context,
    names: Texts,
    depth: nat,
    state: State,
    input: Rc<UnaryExpression>,
    next: Continuation,
    out: List<Statement>,
) -> (at: (nat, State))
    requires
        is_regular_state(cx, state),
        is_quiet(cx, Expression::Unary(input)),
        gave(names, emit(cx, depth, state, Expression::Unary(input), next), out),
    ensures
        at.0 < depth,
        is_regular_state(cx, at.1),
        gave(names, resume(cx, at.0, at.1, next, Expression::Unary(input)), out),
    decreases depth, 0int,
{
    let expression = Expression::Unary(input);
    lemma_emit_steps(cx, names, depth, state, expression, next, out);
    reveal(is_orderly);
    reveal(are_orderly);
    reveal(is_plain);
    reveal(emit_step);
    reveal(emit);
    reveal(resume_operand);
    reveal(resume);
    let frame = OperandFrame::Unary { input };
    let k = Continuation::Operand(frame, Rc::new(next));
    let operand = copied(&input.receiver);
    let (d, s) = lemma_quiet(cx, names, (depth - 1) as nat, state, operand, k, out);
    lemma_resume_steps(cx, names, d, s, frame, next, operand, out);
    ((d - 1) as nat, s)
}

proof fn lemma_quiet_array_access(
    cx: Context,
    names: Texts,
    depth: nat,
    state: State,
    input: Rc<ArrayAccess>,
    next: Continuation,
    out: List<Statement>,
) -> (at: (nat, State))
    requires
        is_regular_state(cx, state),
        is_quiet(cx, Expression::ArrayAccess(input)),
        gave(names, emit(cx, depth, state, Expression::ArrayAccess(input), next), out),
    ensures
        at.0 < depth,
        is_regular_state(cx, at.1),
        gave(names, resume(cx, at.0, at.1, next, Expression::ArrayAccess(input)), out),
    decreases depth, 0int,
{
    let expression = Expression::ArrayAccess(input);
    lemma_emit_steps(cx, names, depth, state, expression, next, out);
    reveal(is_orderly);
    reveal(are_orderly);
    reveal(is_plain);
    reveal(emit_step);
    reveal(emit);
    reveal(resume_operand);
    reveal(resume);
    let first = copied(&input.array);
    let second = copied(&input.index);
    let frame = OperandFrame::AccessArray { input };
    let k = Continuation::Operand(frame, Rc::new(next));
    let (d, s) = lemma_quiet(cx, names, (depth - 1) as nat, state, first, k, out);
    lemma_resume_steps(cx, names, d, s, frame, next, first, out);
    let frame = OperandFrame::AccessIndex { array: first, input };
    let k = Continuation::Operand(frame, Rc::new(next));
    let (d, s) = lemma_quiet(cx, names, (d - 1) as nat, s, second, k, out);
    lemma_resume_steps(cx, names, d, s, frame, next, second, out);
    ((d - 1) as nat, s)
}

proof fn lemma_quiet_binary(
    cx: Context,
    names: Texts,
    depth: nat,
    state: State,
    input: Rc<BinaryExpression>,
    next: Continuation,
    out: List<Statement>,
) -> (at: (nat, State))
    requires
        is_regular_state(cx, state),
        is_quiet(cx, Expression::Binary(input)),
        gave(names, emit(cx, depth, state, Expression::Binary(input), next), out),
    ensures
        at.0 < depth,
        is_regular_state(cx, at.1),
        gave(names, resume(cx, at.0, at.1, next, Expression::Binary(input)), out),
    decreases depth, 0int,
{
    let expression = Expression::Binary(input);
    lemma_emit_steps(cx, names, depth, state, expression, next, out);
    reveal(is_orderly);
    reveal(are_orderly);
    reveal(is_plain);
    reveal(emit_step);
    reveal(emit);
    reveal(resume_operand);
    reveal(resume);
    let first = copied(&input.left);
    let second = copied(&input.right);
    let frame = OperandFrame::BinaryLeft { input };
    let k = Continuation::Operand(frame, Rc::new(next));
    let (d, s) = lemma_quiet(cx, names, (depth - 1) as nat, state, first, k, out);
    lemma_resume_steps(cx, names, d, s, frame, next, first, out);
    let frame = OperandFrame::BinaryRight { left: first, input };
    let k = Continuation::Operand(frame, Rc::new(next));
    let (d, s) = lemma_quiet(cx, names, (d - 1) as nat, s, second, k, out);
    lemma_resume_steps(cx, names, d, s, frame, next, second, out);
    ((d - 1) as nat, s)
}

proof fn lemma_quiet_repeat(
    cx: Context,
    names: Texts,
    depth: nat,
    state: State,
    input: Rc<RepeatExpression>,
    next: Continuation,
    out: List<Statement>,
) -> (at: (nat, State))
    requires
        is_regular_state(cx, state),
        is_quiet(cx, Expression::Repeat(input)),
        gave(names, emit(cx, depth, state, Expression::Repeat(input), next), out),
    ensures
        at.0 < depth,
        is_regular_state(cx, at.1),
        gave(names, resume(cx, at.0, at.1, next, Expression::Repeat(input)), out),
    decreases depth, 0int,
{
    let expression = Expression::Repeat(input);
    lemma_emit_steps(cx, names, depth, state, expression, next, out);
    reveal(is_orderly);
    reveal(are_orderly);
    reveal(is_plain);
    reveal(emit_step);
    reveal(emit);
    reveal(resume_operand);
    reveal(resume);
    let first = copied(&input.expr);
    let second = copied(&input.count);
    let frame = OperandFrame::RepeatElement { input };
    let k = Continuation::Operand(frame, Rc::new(next));
    let (d, s) = lemma_quiet(cx, names, (depth - 1) as nat, state, first, k, out);
    lemma_resume_steps(cx, names, d, s, frame, next, first, out);
    let frame = OperandFrame::RepeatCount { expr: first, input };
    let k = Continuation::Operand(frame, Rc::new(next));
    let (d, s) = lemma_quiet(cx, names, (d - 1) as nat, s, second, k, out);
    lemma_resume_steps(cx, names, d, s, frame, next, second, out);
    ((d - 1) as nat, s)
}

proof fn lemma_quiet_array(
    cx: Context,
    names: Texts,
    depth: nat,
    state: State,
    input: Rc<ArrayExpression>,
    next: Continuation,
    out: List<Statement>,
) -> (at: (nat, State))
    requires
        is_regular_state(cx, state),
        is_quiet(cx, Expression::Array(input)),
        gave(names, emit(cx, depth, state, Expression::Array(input), next), out),
    ensures
        at.0 < depth,
        is_regular_state(cx, at.1),
        gave(names, resume(cx, at.0, at.1, next, Expression::Array(input)), out),
    decreases depth, 0int,
{
    let expression = Expression::Array(input);
    lemma_emit_steps(cx, names, depth, state, expression, next, out);
    reveal(is_orderly);
    reveal(are_orderly);
    reveal(is_plain);
    reveal(emit_step);
    reveal(emit_list);
    reveal(resume_list_step);
    reveal(resume);
    let list = ListContinuation { frame: ListFrame::Array { input }, next: Rc::new(next) };
    let elements = copied(&input.elements);
    lemma_any_after(cx, elements);
    let (d, s) = lemma_quiet_list(
        cx, names,
        (depth - 1) as nat,
        state,
        elements,
        List::Nil,
        list,
        out,
    );
    lemma_list_steps(cx, names, d, s, list, elements, out);
    ((d - 1) as nat, s)
}

proof fn lemma_quiet_tuple(
    cx: Context,
    names: Texts,
    depth: nat,
    state: State,
    input: Rc<TupleExpression>,
    next: Continuation,
    out: List<Statement>,
) -> (at: (nat, State))
    requires
        is_regular_state(cx, state),
        is_quiet(cx, Expression::Tuple(input)),
        gave(names, emit(cx, depth, state, Expression::Tuple(input), next), out),
    ensures
        at.0 < depth,
        is_regular_state(cx, at.1),
        gave(names, resume(cx, at.0, at.1, next, Expression::Tuple(input)), out),
    decreases depth, 0int,
{
    let expression = Expression::Tuple(input);
    lemma_emit_steps(cx, names, depth, state, expression, next, out);
    reveal(is_orderly);
    reveal(are_orderly);
    reveal(is_plain);
    reveal(emit_step);
    reveal(emit_list);
    reveal(resume_list_step);
    reveal(resume);
    let list = ListContinuation { frame: ListFrame::Tuple { input }, next: Rc::new(next) };
    let elements = copied(&input.elements);
    lemma_any_after(cx, elements);
    let (d, s) = lemma_quiet_list(
        cx, names,
        (depth - 1) as nat,
        state,
        elements,
        List::Nil,
        list,
        out,
    );
    lemma_list_steps(cx, names, d, s, list, elements, out);
    ((d - 1) as nat, s)
}

proof fn lemma_quiet_call(
    cx: Context,
    names: Texts,
    depth: nat,
    state: State,
    input: Rc<CallExpression>,
    next: Continuation,
    out: List<Statement>,
) -> (at: (nat, State))
    requires
        is_regular_state(cx, state),
        is_quiet(cx, Expression::Call(input)),
        gave(names, emit(cx, depth, state, Expression::Call(input), next), out),
    ensures
        at.0 < depth,
        is_regular_state(cx, at.1),
        gave(names, resume(cx, at.0, at.1, next, Expression::Call(input)), out),
    decreases depth, 0int,
{
    let expression = Expression::Call(input);
    lemma_emit_steps(cx, names, depth, state, expression, next, out);
    reveal(is_orderly);
    reveal(are_orderly);
    reveal(is_plain);
    reveal(emit_step);
    reveal(emit_list);
    reveal(resume_list_step);
    reveal(emit_lowered);
    reveal(resume);
    let const_arguments = copied(&input.const_arguments);
    let arguments = copied(&input.arguments);
    lemma_any_after(cx, const_arguments);
    lemma_any_after(cx, arguments);
    let frame = ListFrame::CallConst { input };
    let list = ListContinuation { frame, next: Rc::new(next) };
    let (d, s) = lemma_quiet_list(
        cx, names,
        (depth - 1) as nat,
        state,
        const_arguments,
        List::Nil,
        list,
        out,
    );
    lemma_list_steps(cx, names, d, s, list, const_arguments, out);
    let frame = ListFrame::CallArguments { input, const_arguments };
    let list = ListContinuation { frame, next: Rc::new(next) };
    let (d, s) = lemma_quiet_list(cx, names, (d - 1) as nat, s, arguments, List::Nil, list, out);
    lemma_list_steps(cx, names, d, s, list, arguments, out);
    lemma_call(cx, s, copied(&*input));
    branches_emit(&expression);
    let call = CallExpression { const_arguments, arguments, ..copied(&*input) };
    assert(call == *input);
    assert(gave(names, 
        emit_lowered(cx, (d - 1) as nat, reconstruct_call(cx, s, call), input.id, false, next),
        out,
    ));
    ((d - 1) as nat, copy_expression_type(s, input.id, input.id))
}

proof fn lemma_quiet_intrinsic(
    cx: Context,
    names: Texts,
    depth: nat,
    state: State,
    input: Rc<IntrinsicExpression>,
    next: Continuation,
    out: List<Statement>,
) -> (at: (nat, State))
    requires
        is_regular_state(cx, state),
        is_quiet(cx, Expression::Intrinsic(input)),
        gave(names, emit(cx, depth, state, Expression::Intrinsic(input), next), out),
    ensures
        at.0 < depth,
        is_regular_state(cx, at.1),
        gave(names, resume(cx, at.0, at.1, next, Expression::Intrinsic(input)), out),
    decreases depth, 0int,
{
    let expression = Expression::Intrinsic(input);
    lemma_emit_steps(cx, names, depth, state, expression, next, out);
    reveal(is_orderly);
    reveal(are_orderly);
    reveal(is_plain);
    reveal(emit_step);
    reveal(emit_list);
    reveal(resume_list_step);
    reveal(emit_lowered);
    reveal(resume);
    let arguments = copied(&input.arguments);
    lemma_any_after(cx, arguments);
    let frame = ListFrame::Intrinsic { input, first: List::Nil };
    let list = ListContinuation { frame, next: Rc::new(next) };
    let (d, s) = lemma_quiet_list(
        cx, names,
        (depth - 1) as nat,
        state,
        arguments,
        List::Nil,
        list,
        out,
    );
    lemma_list_steps(cx, names, d, s, list, arguments, out);
    lemma_intrinsic(cx, s, copied(&*input));
    branches_emit(&expression);
    let operation = IntrinsicExpression {
        arguments: appended(List::Nil, arguments),
        ..copied(&*input)
    };
    assert(operation == *input);
    assert(gave(names, 
        emit_lowered(
            cx,
            (d - 1) as nat,
            reconstruct_intrinsic(cx, s, operation),
            input.id,
            false,
            next,
        ),
        out,
    ));
    ((d - 1) as nat, copy_expression_type(s, input.id, input.id))
}

proof fn lemma_quiet_composite(
    cx: Context,
    names: Texts,
    depth: nat,
    state: State,
    input: Rc<CompositeExpression>,
    next: Continuation,
    out: List<Statement>,
) -> (at: (nat, State))
    requires
        is_regular_state(cx, state),
        is_quiet(cx, Expression::Composite(input)),
        gave(names, emit(cx, depth, state, Expression::Composite(input), next), out),
    ensures
        at.0 < depth,
        is_regular_state(cx, at.1),
        gave(names, resume(cx, at.0, at.1, next, Expression::Composite(input)), out),
    decreases depth, 0int,
{
    let expression = Expression::Composite(input);
    lemma_emit_steps(cx, names, depth, state, expression, next, out);
    reveal(is_orderly);
    reveal(are_orderly);
    reveal(is_plain);
    reveal(emit_step);
    reveal(emit_list);
    reveal(resume_list_step);
    reveal(emit_composite_members);
    reveal(resume);
    let const_arguments = copied(&input.const_arguments);
    lemma_any_after(cx, const_arguments);
    let frame = ListFrame::CompositeConst { input };
    let list = ListContinuation { frame, next: Rc::new(next) };
    let (d, s) = lemma_quiet_list(
        cx, names,
        (depth - 1) as nat,
        state,
        const_arguments,
        List::Nil,
        list,
        out,
    );
    lemma_list_steps(cx, names, d, s, list, const_arguments, out);
    let composite = CompositeExpression { const_arguments, ..copied(&*input) };
    assert(composite == *input);
    let members = copied(&input.members);
    lemma_quiet_members(cx, names, (d - 1) as nat, s, composite, List::Nil, members, next, out)
}

proof fn lemma_quiet_ternary(
    cx: Context,
    names: Texts,
    depth: nat,
    state: State,
    input: Rc<TernaryExpression>,
    next: Continuation,
    out: List<Statement>,
) -> (at: (nat, State))
    requires
        is_regular_state(cx, state),
        is_quiet(cx, Expression::Ternary(input)),
        gave(names, emit(cx, depth, state, Expression::Ternary(input), next), out),
    ensures
        at.0 < depth,
        is_regular_state(cx, at.1),
        gave(names, resume(cx, at.0, at.1, next, Expression::Ternary(input)), out),
    decreases depth, 0int,
{
    let expression = Expression::Ternary(input);
    lemma_emit_steps(cx, names, depth, state, expression, next, out);
    reveal(is_orderly);
    reveal(are_orderly);
    reveal(is_plain);
    reveal(emit_step);
    reveal(emit);
    reveal(resume_operand);
    reveal(resume_ternary);
    reveal(resume);
    let optional_type = optional_type_of(state, input.id);
    let frame = OperandFrame::TernaryCondition { input, optional_type };
    let k = Continuation::Operand(frame, Rc::new(next));
    let condition = copied(&input.condition);
    let (d, s) = lemma_quiet(cx, names, (depth - 1) as nat, state, condition, k, out);
    lemma_resume_steps(cx, names, d, s, frame, next, condition, out);
    plain_expressions_stay(cx, false, s, copied(&input.if_true));
    plain_expressions_stay(cx, false, s, copied(&input.if_false));
    branches_emit(&input.if_true);
    branches_emit(&input.if_false);
    assert(gave(names, 
        resume_ternary(
            cx,
            (d - 1) as nat,
            s,
            copied(&*input),
            optional_type,
            next,
            condition,
        ),
        out,
    ));
    let ternary = TernaryExpression { condition, ..copied(&*input) };
    assert(ternary == *input);
    ((d - 1) as nat, s)
}

pub proof fn lemma_quiet_list(
    cx: Context,
    names: Texts,
    depth: nat,
    state: State,
    remaining: List<Expression>,
    rebuilt: List<Expression>,
    next: ListContinuation,
    out: List<Statement>,
) -> (at: (nat, State))
    requires
        is_regular_state(cx, state),
        are_quiet(cx, remaining),
        gave(names, emit_list(cx, depth, state, remaining, rebuilt, next), out),
    ensures
        at.0 <= depth,
        is_regular_state(cx, at.1),
        gave(names, resume_list(cx, at.0, at.1, next, appended(rebuilt, remaining)), out),
    decreases depth, 2int,
{
    reveal(emit_list);
    reveal(emit);
    reveal(resume_list);
    match remaining {
        List::Nil => {
            lemma_appended_nil(rebuilt);
            (depth, state)
        },
        List::Cons(first, rest) => {
            let rest = copied(&*rest);
            lemma_orderly_first(cx, first, rest);
            let k = Continuation::Element { rest, rebuilt, next: Rc::new(next) };
            let (d, s) = lemma_quiet(cx, names, depth, state, first, k, out);
            lemma_element_steps(cx, names, d, s, rest, rebuilt, next, first, out);
            let more = appended(rebuilt, one(first));
            lemma_appended_more(rebuilt, first, rest);
            lemma_nothing_precedes(names, emit_list(cx, (d - 1) as nat, s, rest, more, next), out);
            lemma_quiet_list(cx, names, (d - 1) as nat, s, rest, more, next, out)
        },
    }
}

proof fn lemma_quiet_members(
    cx: Context,
    names: Texts,
    depth: nat,
    state: State,
    input: CompositeExpression,
    done: List<FieldInitializer>,
    rest: List<FieldInitializer>,
    next: Continuation,
    out: List<Statement>,
) -> (at: (nat, State))
    requires
        is_regular_state(cx, state),
        fields_are_plain(cx, false, rest),
        fields_are_orderly(cx, rest),
        fields_are_inert(rest),
        !any_member_may_emit(rest),
        !any_member_reconstructs(cx, rest),
        option_is_plain(cx, false, input.base),
        option_is_orderly(cx, input.base),
        input.base matches Some(base) ==> !expression_may_emit_after_reconstruction(cx, base),
        gave(names, emit_composite_members(cx, depth, state, input, done, rest, next), out),
    ensures
        at.0 <= depth,
        is_regular_state(cx, at.1),
        gave(names, 
            resume(
                cx,
                at.0,
                at.1,
                next,
                Expression::Composite(
                    Rc::new(CompositeExpression { members: appended(done, rest), ..input }),
                ),
            ),
            out,
        ),
    decreases depth, 2int, rest,
{
    reveal(emit_composite_members);
    reveal(emit_composite_base);
    reveal(emit);
    reveal(resume);
    reveal(resume_operand);
    match rest {
        List::Nil => {
            lemma_appended_nil(done);
            let composite = CompositeExpression { members: done, ..input };
            assert(gave(names, emit_composite_base(cx, depth, state, composite, next), out));
            match &input.base {
                None => (depth, state),
                Some(base) => {
                    let base = copied(base);
                    lemma_orderly_option(cx, base);
                    assert(option_is_plain(cx, false, Some(base)));
                    let frame = OperandFrame::CompositeBase { input: Rc::new(composite) };
                    let k = Continuation::Operand(frame, Rc::new(next));
                    let (d, s) = lemma_quiet(cx, names, depth, state, base, k, out);
                    lemma_resume_steps(cx, names, d, s, frame, next, base, out);
                    assert(CompositeExpression { base: Some(base), ..composite } == composite);
                    ((d - 1) as nat, s)
                },
            }
        },
        List::Cons(member, others) => {
            let others = copied(&*others);
            lemma_orderly_field(cx, member, others);
            lemma_appended_more(done, member, others);
            let more = appended(done, one(member));
            match &member.expression {
                None => lemma_quiet_members(
                    cx,
                    names,
                    depth,
                    state,
                    input,
                    more,
                    others,
                    next,
                    out,
                ),
                Some(value) => {
                    let value = copied(value);
                    assert(option_is_plain(cx, false, Some(value)));
                    let frame = OperandFrame::CompositeMember {
                        input: Rc::new(input),
                        done,
                        member,
                        rest: others,
                    };
                    let k = Continuation::Operand(frame, Rc::new(next));
                    let (d, s) = lemma_quiet(cx, names, depth, state, value, k, out);
                    lemma_resume_steps(cx, names, d, s, frame, next, value, out);
                    reveal(materialize_strict_prefix_expression);
                    assert(can_be_discarded(s.types, value));
                    assert(FieldInitializer { expression: Some(value), ..member } == member);
                    lemma_nothing_precedes(
                        names,
                        emit_composite_members(
                            cx,
                            (d - 1) as nat,
                            s,
                            input,
                            more,
                            others,
                            next,
                        ),
                        out,
                    );
                    lemma_quiet_members(
                        cx,
                        names,
                        (d - 1) as nat,
                        s,
                        input,
                        more,
                        others,
                        next,
                        out,
                    )
                },
            }
        },
    }
}

} // verus!
