//! What continuations hold of lowered trees.
use crate::ast::Expression;
use crate::list::List;
use crate::storage_lowering::continuation::{
    Continuation, ListContinuation, OperandFrame, PlaceFrame, StatementFrame,
};
use crate::storage_lowering::lowered::{
    all_assign_soundly, are_lowered, fields_are_lowered, is_lowered, otherwise_assigns_soundly,
};
use crate::storage_lowering::visitor::Context;
use std::rc::Rc;
use vstd::prelude::*;

verus! {

/// Whether the operands that `frame` keeps are lowered.
pub open spec fn operand_is_lowered(cx: Context, frame: OperandFrame) -> bool {
    match frame {
        OperandFrame::AccessIndex { array, .. } => is_lowered(cx, array),
        OperandFrame::BinaryRight { left, .. } => is_lowered(cx, left),
        OperandFrame::RepeatCount { expr, .. } => is_lowered(cx, expr),
        OperandFrame::CompositeMember { done, .. } => fields_are_lowered(cx, done),
        OperandFrame::CompositeBase { input } => fields_are_lowered(cx, input.members),
        _ => true,
    }
}

/// Whether the part of a place that `frame` keeps is lowered.
pub open spec fn place_is_lowered(cx: Context, frame: PlaceFrame) -> bool {
    match frame {
        PlaceFrame::Index { array, .. } => is_lowered(cx, array),
        _ => true,
    }
}

/// Whether the operands that `frame` keeps are lowered, and the statements that it keeps assign
/// soundly.
pub open spec fn frame_is_lowered(cx: Context, frame: StatementFrame) -> bool {
    match frame {
        StatementFrame::Const { tail, .. } => all_assign_soundly(cx, tail),
        StatementFrame::Definition { tail, .. } => all_assign_soundly(cx, tail),
        StatementFrame::AssertRight { left, .. } => is_lowered(cx, left),
        StatementFrame::AssignValue { place, .. } => is_lowered(cx, place),
        StatementFrame::Conditional { input } => {
            &&& all_assign_soundly(cx, input.then_block.statements)
            &&& otherwise_assigns_soundly(cx, input.otherwise)
        },
        StatementFrame::IterationStart { input, .. } => all_assign_soundly(
            cx,
            input.block.statements,
        ),
        StatementFrame::IterationStop { input, start, .. } => {
            &&& is_lowered(cx, start)
            &&& all_assign_soundly(cx, input.block.statements)
        },
        _ => true,
    }
}

/// Whether everything lowered that `continuation` keeps is lowered indeed.
#[verifier::opaque]
pub open spec fn continuation_is_lowered(cx: Context, continuation: Continuation) -> bool
    decreases continuation,
{
    match continuation {
        Continuation::Operand(frame, next) => operand_is_lowered(cx, frame)
            && continuation_is_lowered(cx, *next),
        Continuation::Element { rebuilt, next, .. } => are_lowered(cx, rebuilt)
            && list_continuation_is_lowered(cx, *next),
        Continuation::Place(frame, next) => place_is_lowered(cx, frame) && continuation_is_lowered(
            cx,
            *next,
        ),
        Continuation::Statement(frame) => frame_is_lowered(cx, frame),
    }
}

#[verifier::opaque]
pub open spec fn list_continuation_is_lowered(cx: Context, continuation: ListContinuation) -> bool
    decreases continuation,
{
    continuation_is_lowered(cx, *continuation.next)
}

pub broadcast proof fn lowered_operand(cx: Context, frame: OperandFrame, next: Continuation)
    ensures
        #[trigger] continuation_is_lowered(cx, Continuation::Operand(frame, Rc::new(next))) == (
        operand_is_lowered(cx, frame) && continuation_is_lowered(cx, next)),
{
    reveal(continuation_is_lowered);
}

pub broadcast proof fn lowered_element(
    cx: Context,
    rest: List<Expression>,
    rebuilt: List<Expression>,
    next: ListContinuation,
)
    ensures
        #[trigger] continuation_is_lowered(
            cx,
            Continuation::Element { rest, rebuilt, next: Rc::new(next) },
        ) == (are_lowered(cx, rebuilt) && list_continuation_is_lowered(cx, next)),
{
    reveal(continuation_is_lowered);
    reveal(list_continuation_is_lowered);
}

pub broadcast proof fn lowered_place(cx: Context, frame: PlaceFrame, next: Continuation)
    ensures
        #[trigger] continuation_is_lowered(cx, Continuation::Place(frame, Rc::new(next))) == (
        place_is_lowered(cx, frame) && continuation_is_lowered(cx, next)),
{
    reveal(continuation_is_lowered);
}

pub broadcast proof fn lowered_frame(cx: Context, frame: StatementFrame)
    ensures
        #[trigger] continuation_is_lowered(cx, Continuation::Statement(frame))
            == frame_is_lowered(cx, frame),
{
    reveal(continuation_is_lowered);
}

pub broadcast proof fn lowered_list_continuation(cx: Context, continuation: ListContinuation)
    ensures
        #[trigger] list_continuation_is_lowered(cx, continuation) == continuation_is_lowered(
            cx,
            *continuation.next,
        ),
{
    reveal(list_continuation_is_lowered);
    reveal(continuation_is_lowered);
}

pub broadcast group group_continuations {
    lowered_operand,
    lowered_element,
    lowered_place,
    lowered_frame,
    lowered_list_continuation,
}

} // verus!
