//! Lowering of regular expressions ends.
use crate::ast::{
    ArrayAccess, ArrayExpression, BinaryExpression, CallExpression, CastExpression,
    CompositeExpression, DynamicOpExpression, DynamicOpKind, Expression, FieldInitializer,
    IntrinsicExpression, MemberAccess, NodeId, RepeatExpression, Span, Statement, TernaryExpression,
    TupleAccess, TupleExpression, Type, UnaryExpression,
};
use crate::list::{appended, copied, one, List};
use crate::state::{Halt, State};
use crate::storage_lowering::continuation::{
    Continuation, ListContinuation, ListFrame, OperandFrame,
};
use crate::storage_lowering::depth::lemma_greater_emit;
use crate::storage_lowering::emit::{
    bind_optional_ternary_branch, copy_expression_type, emit, emit_branches, emit_composite_base,
    emit_composite_members, emit_dynamic_arguments, emit_list, emit_lowered, emit_step,
    materialize_if, optional_type_of, resume, resume_list, resume_list_step, resume_operand,
    resume_step, resume_ternary, takes_vector, Emitted,
};
use crate::storage_lowering::laws::{branches_emit, quiet_expressions_have_no_statements};
use crate::storage_lowering::plain::{
    are_direct, are_plain, are_regular, fields_are_plain, fields_are_regular, group_plain,
    is_direct, is_plain, is_regular, is_regular_state, kind_is_direct, kind_is_plain,
    kind_is_regular, moded_are_plain, option_is_direct, option_is_plain, option_is_regular,
    parameters_are_plain, type_is_plain,
};
use crate::storage_lowering::plain_order::{
    lemma_direct, lemma_direct_list, lemma_opens, lemma_regular, lemma_regular_list,
    lemma_regular_option, lemma_settled,
};
use crate::storage_lowering::plain_values;
use crate::storage_lowering::plain_values::{
    all_rest, branches_appended, lemma_again, lemma_call, lemma_intrinsic, lemma_materialize,
    member_branches_appended, rests,
};
use crate::storage_lowering::predicates::{
    any_may_emit_after, any_member_requires_branch, any_requires_branch,
    expression_may_emit_after_reconstruction, expression_may_emit_cps_statements,
    expression_requires_branch_cps,
};
use crate::storage_lowering::reconstruct::{
    reconstruct_call, reconstruct_dynamic_op, reconstruct_expression, reconstruct_intrinsic,
};
use crate::storage_lowering::direct_values;
use crate::storage_lowering::direct_values::lemma_source;
use crate::storage_lowering::shallow;
use crate::storage_lowering::shallow::expressions_need_no_depth;
use crate::storage_lowering::vectors::{materialize_strict_prefix_expression, Lowered};
use crate::storage_lowering::visitor::{Context, Step};
use std::rc::Rc;
use vstd::prelude::*;

verus! {

broadcast use {group_plain, branches_appended, member_branches_appended};

/// Whether lowering did not run out of depth, and left storage and types in order.
pub open spec fn ended(cx: Context, emitted: Emitted) -> bool {
    &&& emitted != Err::<(State, List<Statement>), Halt>(Halt::Depth)
    &&& emitted matches Ok((state, _)) ==> is_regular_state(cx, state)
}

/// Whether lowering `expression` for `continuation` ends.
pub open spec fn emits(
    cx: Context,
    state: State,
    expression: Expression,
    continuation: Continuation,
) -> bool {
    exists|depth: nat| ended(cx, #[trigger] emit(cx, depth, state, expression, continuation))
}

/// Whether going on with `value` ends.
pub open spec fn resumes(
    cx: Context,
    state: State,
    continuation: Continuation,
    value: Expression,
) -> bool {
    exists|depth: nat| ended(cx, #[trigger] resume(cx, depth, state, continuation, value))
}

pub open spec fn resumes_list(
    cx: Context,
    state: State,
    continuation: ListContinuation,
    values: List<Expression>,
) -> bool {
    exists|depth: nat| ended(cx, #[trigger] resume_list(cx, depth, state, continuation, values))
}

/// Whether going on ends with every value that rests.
pub open spec fn accepts(cx: Context, open: bool, continuation: Continuation) -> bool {
    forall|state: State, value: Expression|
        is_regular_state(cx, state) && rests(cx, open, value) ==> #[trigger] resumes(
            cx,
            state,
            continuation,
            value,
        )
}

pub open spec fn accepts_all(cx: Context, open: bool, continuation: ListContinuation) -> bool {
    forall|state: State, values: List<Expression>|
        is_regular_state(cx, state) && all_rest(cx, open, values) ==> #[trigger] resumes_list(
            cx,
            state,
            continuation,
            values,
        )
}

/// Whether lowering plain expressions ends.
#[verifier::opaque]
pub open spec fn plain_ends(cx: Context) -> bool {
    forall|state: State, expression: Expression, continuation: Continuation|
        is_regular_state(cx, state) && is_plain(cx, false, expression) && accepts(
            cx,
            false,
            continuation,
        ) ==> #[trigger] emits(cx, state, expression, continuation)
}

/* Sources */

/// Whether `expression` is regular, and plain as long as `fully` does not say that plain
/// expressions were dealt with.
pub open spec fn is_source(cx: Context, fully: bool, open: bool, expression: Expression) -> bool {
    &&& is_regular(cx, open, expression)
    &&& fully || (!open && is_plain(cx, false, expression))
}

pub open spec fn are_sources(
    cx: Context,
    fully: bool,
    open: bool,
    expressions: List<Expression>,
) -> bool {
    &&& are_regular(cx, open, expressions)
    &&& fully || (!open && are_plain(cx, false, expressions))
}

pub open spec fn fields_are_sources(
    cx: Context,
    fully: bool,
    open: bool,
    fields: List<FieldInitializer>,
) -> bool {
    &&& fields_are_regular(cx, open, fields)
    &&& fully || (!open && fields_are_plain(cx, false, fields))
}

pub open spec fn option_is_source(
    cx: Context,
    fully: bool,
    open: bool,
    expression: Option<Expression>,
) -> bool {
    &&& option_is_regular(cx, open, expression)
    &&& fully || (!open && option_is_plain(cx, false, expression))
}

pub open spec fn kind_is_source(
    cx: Context,
    fully: bool,
    open: bool,
    interface: Type,
    kind: DynamicOpKind,
) -> bool {
    &&& kind_is_regular(cx, open, interface, kind)
    &&& fully || (!open && kind_is_plain(cx, false, interface, kind))
}

pub open spec fn types_are_fine(cx: Context, input: IntrinsicExpression) -> bool {
    &&& parameters_are_plain(cx, input.type_parameters)
    &&& moded_are_plain(cx, input.input_types)
    &&& moded_are_plain(cx, input.return_types)
}

/// The parts of a source are sources.
pub proof fn lemma_parts(cx: Context, fully: bool, open: bool, expression: Expression)
    requires
        is_source(cx, fully, open, expression),
    ensures
        match expression {
            Expression::Array(input) => are_sources(cx, fully, open, input.elements),
            Expression::ArrayAccess(input) => is_source(cx, fully, open, input.array) && is_source(
                cx,
                fully,
                open,
                input.index,
            ),
            Expression::Binary(input) => is_source(cx, fully, open, input.left) && is_source(
                cx,
                fully,
                open,
                input.right,
            ),
            Expression::Call(input) => are_sources(cx, fully, false, input.const_arguments)
                && are_sources(cx, fully, false, input.arguments),
            Expression::Cast(input) => is_source(cx, fully, open, input.expression),
            Expression::Composite(input) => {
                &&& are_sources(cx, fully, open, input.const_arguments)
                &&& fields_are_sources(cx, fully, open, input.members)
                &&& option_is_source(cx, fully, open, input.base)
            },
            Expression::DynamicOp(input) => {
                &&& is_source(cx, fully, fully, input.target_program)
                &&& option_is_source(cx, fully, fully, input.network)
                &&& kind_is_source(cx, fully, open, input.interface, input.kind)
            },
            Expression::Intrinsic(input) => {
                &&& types_are_fine(cx, *input)
                &&& takes_vector(input.op) ==> {
                    &&& fully
                    &&& input.arguments matches List::Cons(_, values) ==> are_sources(
                        cx,
                        fully,
                        true,
                        *values,
                    )
                }
                &&& !takes_vector(input.op) ==> are_sources(cx, fully, false, input.arguments)
            },
            Expression::MemberAccess(input) => is_source(cx, fully, open, input.inner),
            Expression::Repeat(input) => is_source(cx, fully, open, input.expr) && is_source(
                cx,
                fully,
                open,
                input.count,
            ),
            Expression::Ternary(input) => {
                &&& is_source(cx, fully, open, input.condition)
                &&& is_source(cx, fully, open, input.if_true)
                &&& is_source(cx, fully, open, input.if_false)
            },
            Expression::Tuple(input) => are_sources(cx, fully, open, input.elements),
            Expression::TupleAccess(input) => is_source(cx, fully, open, input.tuple),
            Expression::Unary(input) => is_source(cx, fully, open, input.receiver),
            _ => true,
        },
{
    reveal(is_regular);
    reveal(are_regular);
    reveal(option_is_regular);
    reveal(kind_is_regular);
    reveal(fields_are_regular);
    reveal(is_plain);
    reveal(are_plain);
    reveal(option_is_plain);
    reveal(kind_is_plain);
    reveal(fields_are_plain);
    reveal(parameters_are_plain);
    reveal(moded_are_plain);
    match expression {
        Expression::Call(input) => {
            lemma_regular_list(cx, false, copied(&input.const_arguments));
        },
        Expression::DynamicOp(input) => {
            if !fully {
                lemma_regular(cx, false, copied(&input.target_program));
                lemma_regular_option(cx, false, copied(&input.network));
            }
        },
        _ => {},
    }
}

/* Single steps */

/// Going on with an operand takes one step more than what it leads to.
proof fn lemma_operand(
    cx: Context,
    depth: nat,
    state: State,
    frame: OperandFrame,
    next: Continuation,
    value: Expression,
)
    requires
        ended(cx, resume_operand(cx, depth, state, frame, next, value)),
    ensures
        resumes(cx, state, Continuation::Operand(frame, Rc::new(next)), value),
{
    reveal(resume);
    reveal(resume_step);
    reveal(resume_operand);
    let continuation = Continuation::Operand(frame, Rc::new(next));
    assert(resume(cx, depth + 1, state, continuation, value) == resume_operand(
        cx,
        depth,
        state,
        frame,
        next,
        value,
    ));
}

proof fn lemma_list_step(
    cx: Context,
    depth: nat,
    state: State,
    continuation: ListContinuation,
    values: List<Expression>,
)
    requires
        ended(cx, resume_list_step(cx, depth, state, continuation, values)),
    ensures
        resumes_list(cx, state, continuation, values),
{
    reveal(resume_list);
    reveal(resume_list_step);
    assert(resume_list(cx, depth + 1, state, continuation, values) == resume_list_step(
        cx,
        depth,
        state,
        continuation,
        values,
    ));
}

proof fn lemma_step(
    cx: Context,
    depth: nat,
    state: State,
    expression: Expression,
    continuation: Continuation,
)
    requires
        ended(cx, emit_step(cx, depth, state, expression, continuation)),
    ensures
        emits(cx, state, expression, continuation),
{
    reveal(emit);
    reveal(emit_step);
    assert(emit(cx, depth + 1, state, expression, continuation) == emit_step(
        cx,
        depth,
        state,
        expression,
        continuation,
    ));
}

/* Operands that end an expression */

pub proof fn lemma_index_accepts(
    cx: Context,
    open: bool,
    array: Expression,
    input: Rc<ArrayAccess>,
    next: Continuation,
)
    requires
        accepts(cx, open, next),
        rests(cx, open, array),
    ensures
        accepts(
            cx,
            open,
            Continuation::Operand(OperandFrame::AccessIndex { array, input }, Rc::new(next)),
        ),
{
    let frame = OperandFrame::AccessIndex { array, input };
    let continuation = Continuation::Operand(frame, Rc::new(next));
    assert forall|state: State, value: Expression|
        is_regular_state(cx, state) && rests(cx, open, value) implies #[trigger] resumes(
        cx,
        state,
        continuation,
        value,
    ) by {
        reveal(resume_operand);
        reveal(resume);
        let node = Expression::ArrayAccess(
            Rc::new(ArrayAccess { array, index: value, ..copied(&*input) }),
        );
        assert(rests(cx, open, node));
        assert(resumes(cx, state, next, node));
        let depth = choose|depth: nat| ended(cx, #[trigger] resume(cx, depth, state, next, node));
        lemma_operand(cx, depth, state, frame, next, value);
    }
}

pub proof fn lemma_right_accepts(
    cx: Context,
    open: bool,
    left: Expression,
    input: Rc<BinaryExpression>,
    next: Continuation,
)
    requires
        accepts(cx, open, next),
        rests(cx, open, left),
    ensures
        accepts(
            cx,
            open,
            Continuation::Operand(OperandFrame::BinaryRight { left, input }, Rc::new(next)),
        ),
{
    let frame = OperandFrame::BinaryRight { left, input };
    let continuation = Continuation::Operand(frame, Rc::new(next));
    assert forall|state: State, value: Expression|
        is_regular_state(cx, state) && rests(cx, open, value) implies #[trigger] resumes(
        cx,
        state,
        continuation,
        value,
    ) by {
        reveal(resume_operand);
        reveal(resume);
        let node = Expression::Binary(
            Rc::new(BinaryExpression { left, right: value, ..copied(&*input) }),
        );
        assert(rests(cx, open, node));
        assert(resumes(cx, state, next, node));
        let depth = choose|depth: nat| ended(cx, #[trigger] resume(cx, depth, state, next, node));
        lemma_operand(cx, depth, state, frame, next, value);
    }
}

pub proof fn lemma_cast_accepts(
    cx: Context,
    open: bool,
    input: Rc<CastExpression>,
    next: Continuation,
)
    requires
        accepts(cx, open, next),
    ensures
        accepts(cx, open, Continuation::Operand(OperandFrame::Cast { input }, Rc::new(next))),
{
    let frame = OperandFrame::Cast { input };
    let continuation = Continuation::Operand(frame, Rc::new(next));
    assert forall|state: State, value: Expression|
        is_regular_state(cx, state) && rests(cx, open, value) implies #[trigger] resumes(
        cx,
        state,
        continuation,
        value,
    ) by {
        reveal(resume_operand);
        reveal(resume);
        let node = Expression::Cast(
            Rc::new(CastExpression { expression: value, ..copied(&*input) }),
        );
        assert(rests(cx, open, node));
        assert(resumes(cx, state, next, node));
        let depth = choose|depth: nat| ended(cx, #[trigger] resume(cx, depth, state, next, node));
        lemma_operand(cx, depth, state, frame, next, value);
    }
}

pub proof fn lemma_member_access_accepts(
    cx: Context,
    open: bool,
    input: Rc<MemberAccess>,
    next: Continuation,
)
    requires
        accepts(cx, open, next),
    ensures
        accepts(
            cx,
            open,
            Continuation::Operand(OperandFrame::MemberAccess { input }, Rc::new(next)),
        ),
{
    let frame = OperandFrame::MemberAccess { input };
    let continuation = Continuation::Operand(frame, Rc::new(next));
    assert forall|state: State, value: Expression|
        is_regular_state(cx, state) && rests(cx, open, value) implies #[trigger] resumes(
        cx,
        state,
        continuation,
        value,
    ) by {
        reveal(resume_operand);
        reveal(resume);
        let node = Expression::MemberAccess(
            Rc::new(MemberAccess { inner: value, ..copied(&*input) }),
        );
        assert(rests(cx, open, node));
        assert(resumes(cx, state, next, node));
        let depth = choose|depth: nat| ended(cx, #[trigger] resume(cx, depth, state, next, node));
        lemma_operand(cx, depth, state, frame, next, value);
    }
}

pub proof fn lemma_count_accepts(
    cx: Context,
    open: bool,
    expr: Expression,
    input: Rc<RepeatExpression>,
    next: Continuation,
)
    requires
        accepts(cx, open, next),
        rests(cx, open, expr),
    ensures
        accepts(
            cx,
            open,
            Continuation::Operand(OperandFrame::RepeatCount { expr, input }, Rc::new(next)),
        ),
{
    let frame = OperandFrame::RepeatCount { expr, input };
    let continuation = Continuation::Operand(frame, Rc::new(next));
    assert forall|state: State, value: Expression|
        is_regular_state(cx, state) && rests(cx, open, value) implies #[trigger] resumes(
        cx,
        state,
        continuation,
        value,
    ) by {
        reveal(resume_operand);
        reveal(resume);
        let node = Expression::Repeat(
            Rc::new(RepeatExpression { expr, count: value, ..copied(&*input) }),
        );
        assert(rests(cx, open, node));
        assert(resumes(cx, state, next, node));
        let depth = choose|depth: nat| ended(cx, #[trigger] resume(cx, depth, state, next, node));
        lemma_operand(cx, depth, state, frame, next, value);
    }
}

pub proof fn lemma_tuple_access_accepts(
    cx: Context,
    open: bool,
    input: Rc<TupleAccess>,
    next: Continuation,
)
    requires
        accepts(cx, open, next),
    ensures
        accepts(
            cx,
            open,
            Continuation::Operand(OperandFrame::TupleAccess { input }, Rc::new(next)),
        ),
{
    let frame = OperandFrame::TupleAccess { input };
    let continuation = Continuation::Operand(frame, Rc::new(next));
    assert forall|state: State, value: Expression|
        is_regular_state(cx, state) && rests(cx, open, value) implies #[trigger] resumes(
        cx,
        state,
        continuation,
        value,
    ) by {
        reveal(resume_operand);
        reveal(resume);
        let node = Expression::TupleAccess(
            Rc::new(TupleAccess { tuple: value, ..copied(&*input) }),
        );
        assert(rests(cx, open, node));
        assert(resumes(cx, state, next, node));
        let depth = choose|depth: nat| ended(cx, #[trigger] resume(cx, depth, state, next, node));
        lemma_operand(cx, depth, state, frame, next, value);
    }
}

pub proof fn lemma_unary_accepts(
    cx: Context,
    open: bool,
    input: Rc<UnaryExpression>,
    next: Continuation,
)
    requires
        accepts(cx, open, next),
    ensures
        accepts(cx, open, Continuation::Operand(OperandFrame::Unary { input }, Rc::new(next))),
{
    let frame = OperandFrame::Unary { input };
    let continuation = Continuation::Operand(frame, Rc::new(next));
    assert forall|state: State, value: Expression|
        is_regular_state(cx, state) && rests(cx, open, value) implies #[trigger] resumes(
        cx,
        state,
        continuation,
        value,
    ) by {
        reveal(resume_operand);
        reveal(resume);
        let node = Expression::Unary(
            Rc::new(UnaryExpression { receiver: value, ..copied(&*input) }),
        );
        assert(rests(cx, open, node));
        assert(resumes(cx, state, next, node));
        let depth = choose|depth: nat| ended(cx, #[trigger] resume(cx, depth, state, next, node));
        lemma_operand(cx, depth, state, frame, next, value);
    }
}

pub proof fn lemma_base_accepts(
    cx: Context,
    open: bool,
    input: Rc<CompositeExpression>,
    next: Continuation,
)
    requires
        accepts(cx, open, next),
        all_rest(cx, open, input.const_arguments),
        fields_are_plain(cx, open, input.members),
        open || !any_member_requires_branch(input.members),
    ensures
        accepts(
            cx,
            open,
            Continuation::Operand(OperandFrame::CompositeBase { input }, Rc::new(next)),
        ),
{
    let frame = OperandFrame::CompositeBase { input };
    let continuation = Continuation::Operand(frame, Rc::new(next));
    assert forall|state: State, value: Expression|
        is_regular_state(cx, state) && rests(cx, open, value) implies #[trigger] resumes(
        cx,
        state,
        continuation,
        value,
    ) by {
        reveal(resume_operand);
        reveal(resume);
        let node = Expression::Composite(
            Rc::new(CompositeExpression { base: Some(value), ..copied(&*input) }),
        );
        assert(rests(cx, open, node));
        assert(resumes(cx, state, next, node));
        let depth = choose|depth: nat| ended(cx, #[trigger] resume(cx, depth, state, next, node));
        lemma_operand(cx, depth, state, frame, next, value);
    }
}

pub proof fn lemma_arm_accepts(
    cx: Context,
    open: bool,
    optional_type: Option<Type>,
    span: Span,
    next: Continuation,
)
    requires
        optional_type matches Some(type_) ==> type_is_plain(cx, type_),
        accepts(cx, open, next),
    ensures
        accepts(
            cx,
            open,
            Continuation::Operand(OperandFrame::TernaryArm { optional_type, span }, Rc::new(next)),
        ),
{
    let frame = OperandFrame::TernaryArm { optional_type, span };
    let continuation = Continuation::Operand(frame, Rc::new(next));
    assert forall|state: State, value: Expression|
        is_regular_state(cx, state) && rests(cx, open, value) implies #[trigger] resumes(
        cx,
        state,
        continuation,
        value,
    ) by {
        reveal(resume_operand);
        reveal(resume);
        match optional_type {
            None => {
                assert(resumes(cx, state, next, value));
                let depth = choose|depth: nat| ended(
                    cx,
                    #[trigger] resume(cx, depth, state, next, value),
                );
                lemma_operand(cx, depth, state, frame, next, value);
            },
            Some(type_) => {
                let (bound, (variable, _)) = bind_optional_ternary_branch(
                    state,
                    value,
                    type_,
                    span,
                );
                assert(rests(cx, open, variable));
                assert(resumes(cx, bound, next, variable));
                let depth = choose|depth: nat| ended(
                    cx,
                    #[trigger] resume(cx, depth, bound, next, variable),
                );
                lemma_operand(cx, depth, state, frame, next, value);
            },
        }
    }
}

/// What was lowered is handed on if it rests, and lowered again if it does not.
proof fn lemma_lowered_ends(
    cx: Context,
    fully: bool,
    open: bool,
    lowered: Step<Lowered>,
    source: NodeId,
    keeps_dynamic: bool,
    continuation: Continuation,
)
    requires
        fully ==> plain_ends(cx),
        accepts(cx, open, continuation),
        lowered matches Ok((state, (expression, _))) ==> {
            &&& is_regular_state(cx, state)
            &&& if keeps_dynamic && expression is DynamicOp {
                rests(cx, open, expression)
            } else {
                is_plain(cx, false, expression) && (fully || !expression_requires_branch_cps(
                    expression,
                ))
            }
        },
        lowered != Err::<(State, Lowered), Halt>(Halt::Depth),
    ensures
        exists|depth: nat|
            ended(
                cx,
                #[trigger] emit_lowered(cx, depth, lowered, source, keeps_dynamic, continuation),
            ),
{
    reveal(emit_lowered);
    reveal(resume);
    reveal(emit);
    match lowered {
        Err(_) => {
            assert(ended(cx, emit_lowered(cx, 0, lowered, source, keeps_dynamic, continuation)));
        },
        Ok((state, (expression, _))) => {
            let known = copy_expression_type(state, source, expression.spec_id());
            assert(is_regular_state(cx, known));
            if expression_requires_branch_cps(expression) && !(keeps_dynamic
                && expression is DynamicOp) {
                lemma_narrowed(cx, open, continuation);
                lemma_plain_ends(cx, known, expression, continuation);
                let depth = choose|depth: nat| ended(
                    cx,
                    #[trigger] emit(cx, depth, known, expression, continuation),
                );
                assert(ended(
                    cx,
                    emit_lowered(cx, depth, lowered, source, keeps_dynamic, continuation),
                ));
            } else {
                if is_plain(cx, false, expression) {
                    lemma_opens(cx, expression);
                }
                assert(resumes(cx, known, continuation, expression));
                let depth = choose|depth: nat| ended(
                    cx,
                    #[trigger] resume(cx, depth, known, continuation, expression),
                );
                assert(ended(
                    cx,
                    emit_lowered(cx, depth, lowered, source, keeps_dynamic, continuation),
                ));
            }
        },
    }
}

/// What accepts values with dynamic accesses accepts values without them.
pub proof fn lemma_narrowed(cx: Context, open: bool, continuation: Continuation)
    requires
        accepts(cx, open, continuation),
    ensures
        accepts(cx, false, continuation),
{
    assert forall|state: State, value: Expression|
        is_regular_state(cx, state) && rests(cx, false, value) implies #[trigger] resumes(
        cx,
        state,
        continuation,
        value,
    ) by {
        lemma_opens(cx, value);
    }
}

proof fn lemma_plain_ends(
    cx: Context,
    state: State,
    expression: Expression,
    continuation: Continuation,
)
    requires
        plain_ends(cx),
        is_regular_state(cx, state),
        is_plain(cx, false, expression),
        accepts(cx, false, continuation),
    ensures
        emits(cx, state, expression, continuation),
{
    reveal(plain_ends);
}

/* Expressions */

/// Lowering a source ends if going on with its value does.
pub proof fn expressions_end(
    cx: Context,
    fully: bool,
    open: bool,
    state: State,
    expression: Expression,
    continuation: Continuation,
)
    requires
        fully ==> plain_ends(cx),
        open ==> fully,
        is_regular_state(cx, state),
        is_source(cx, fully, open, expression),
        accepts(cx, open, continuation),
    ensures
        emits(cx, state, expression, continuation),
    decreases expression, 2int,
{
    lemma_parts(cx, fully, open, expression);
    match expression {
        Expression::Array(input) => {
            let list = ListContinuation {
                frame: ListFrame::Array { input },
                next: Rc::new(continuation),
            };
            lemma_array_accepts(cx, open, input, continuation);
            lemma_list_ends(cx, fully, open, state, copied(&input.elements), List::Nil, list);
            lemma_emitted_list(cx, state, expression, continuation, list);
        },
        Expression::ArrayAccess(input) => {
            let frame = OperandFrame::AccessArray { input };
            let k = Continuation::Operand(frame, Rc::new(continuation));
            lemma_access_array_accepts(cx, fully, open, input, continuation);
            expressions_end(cx, fully, open, state, copied(&input.array), k);
            let depth = choose|depth: nat| ended(
                cx,
                #[trigger] emit(cx, depth, state, copied(&input.array), k),
            );
            reveal(emit_step);
            reveal(emit);
            lemma_step(cx, depth, state, expression, continuation);
        },
        Expression::Binary(input) => {
            let frame = OperandFrame::BinaryLeft { input };
            let k = Continuation::Operand(frame, Rc::new(continuation));
            lemma_left_accepts(cx, fully, open, input, continuation);
            expressions_end(cx, fully, open, state, copied(&input.left), k);
            let depth = choose|depth: nat| ended(
                cx,
                #[trigger] emit(cx, depth, state, copied(&input.left), k),
            );
            reveal(emit_step);
            reveal(emit);
            lemma_step(cx, depth, state, expression, continuation);
        },
        Expression::Cast(input) => {
            let frame = OperandFrame::Cast { input };
            let k = Continuation::Operand(frame, Rc::new(continuation));
            lemma_cast_accepts(cx, open, input, continuation);
            expressions_end(cx, fully, open, state, copied(&input.expression), k);
            let depth = choose|depth: nat| ended(
                cx,
                #[trigger] emit(cx, depth, state, copied(&input.expression), k),
            );
            reveal(emit_step);
            reveal(emit);
            lemma_step(cx, depth, state, expression, continuation);
        },
        Expression::MemberAccess(input) => {
            let frame = OperandFrame::MemberAccess { input };
            let k = Continuation::Operand(frame, Rc::new(continuation));
            lemma_member_access_accepts(cx, open, input, continuation);
            expressions_end(cx, fully, open, state, copied(&input.inner), k);
            let depth = choose|depth: nat| ended(
                cx,
                #[trigger] emit(cx, depth, state, copied(&input.inner), k),
            );
            reveal(emit_step);
            reveal(emit);
            lemma_step(cx, depth, state, expression, continuation);
        },
        Expression::Repeat(input) => {
            let frame = OperandFrame::RepeatElement { input };
            let k = Continuation::Operand(frame, Rc::new(continuation));
            lemma_element_accepts(cx, fully, open, input, continuation);
            expressions_end(cx, fully, open, state, copied(&input.expr), k);
            let depth = choose|depth: nat| ended(
                cx,
                #[trigger] emit(cx, depth, state, copied(&input.expr), k),
            );
            reveal(emit_step);
            reveal(emit);
            lemma_step(cx, depth, state, expression, continuation);
        },
        Expression::TupleAccess(input) => {
            let frame = OperandFrame::TupleAccess { input };
            let k = Continuation::Operand(frame, Rc::new(continuation));
            lemma_tuple_access_accepts(cx, open, input, continuation);
            expressions_end(cx, fully, open, state, copied(&input.tuple), k);
            let depth = choose|depth: nat| ended(
                cx,
                #[trigger] emit(cx, depth, state, copied(&input.tuple), k),
            );
            reveal(emit_step);
            reveal(emit);
            lemma_step(cx, depth, state, expression, continuation);
        },
        Expression::Unary(input) => {
            let frame = OperandFrame::Unary { input };
            let k = Continuation::Operand(frame, Rc::new(continuation));
            lemma_unary_accepts(cx, open, input, continuation);
            expressions_end(cx, fully, open, state, copied(&input.receiver), k);
            let depth = choose|depth: nat| ended(
                cx,
                #[trigger] emit(cx, depth, state, copied(&input.receiver), k),
            );
            reveal(emit_step);
            reveal(emit);
            lemma_step(cx, depth, state, expression, continuation);
        },
        Expression::DynamicOp(input) => {
            let frame = OperandFrame::DynamicTarget { input };
            let k = Continuation::Operand(frame, Rc::new(continuation));
            lemma_target_accepts(cx, fully, open, input, continuation);
            lemma_narrowed(cx, true, k);
            expressions_end(cx, fully, fully, state, copied(&input.target_program), k);
            let depth = choose|depth: nat| ended(
                cx,
                #[trigger] emit(cx, depth, state, copied(&input.target_program), k),
            );
            reveal(emit_step);
            reveal(emit);
            lemma_step(cx, depth, state, expression, continuation);
        },
        Expression::Call(input) => {
            let list = ListContinuation {
                frame: ListFrame::CallConst { input },
                next: Rc::new(continuation),
            };
            lemma_call_const_accepts(cx, fully, open, input, continuation);
            lemma_list_ends(
                cx,
                fully,
                false,
                state,
                copied(&input.const_arguments),
                List::Nil,
                list,
            );
            lemma_emitted_list(cx, state, expression, continuation, list);
        },
        Expression::Composite(input) => {
            let list = ListContinuation {
                frame: ListFrame::CompositeConst { input },
                next: Rc::new(continuation),
            };
            lemma_composite_const_accepts(cx, fully, open, input, continuation);
            lemma_list_ends(
                cx,
                fully,
                open,
                state,
                copied(&input.const_arguments),
                List::Nil,
                list,
            );
            lemma_emitted_list(cx, state, expression, continuation, list);
        },
        Expression::Intrinsic(input) => {
            if takes_vector(input.op) {
                lemma_vector_ends(cx, open, state, input, continuation);
            } else {
                let list = ListContinuation {
                    frame: ListFrame::Intrinsic { input, first: List::Nil },
                    next: Rc::new(continuation),
                };
                lemma_intrinsic_accepts(cx, fully, open, input, continuation);
                lemma_list_ends(cx, fully, false, state, copied(&input.arguments), List::Nil, list);
                lemma_emitted_list(cx, state, expression, continuation, list);
            }
        },
        Expression::Ternary(input) => {
            let optional_type = optional_type_of(state, input.id);
            let frame = OperandFrame::TernaryCondition { input, optional_type };
            let k = Continuation::Operand(frame, Rc::new(continuation));
            lemma_condition_accepts(cx, fully, open, input, optional_type, continuation);
            expressions_end(cx, fully, open, state, copied(&input.condition), k);
            let depth = choose|depth: nat| ended(
                cx,
                #[trigger] emit(cx, depth, state, copied(&input.condition), k),
            );
            reveal(emit_step);
            reveal(emit);
            lemma_step(cx, depth, state, expression, continuation);
        },
        Expression::Tuple(input) => {
            let list = ListContinuation {
                frame: ListFrame::Tuple { input },
                next: Rc::new(continuation),
            };
            lemma_tuple_accepts(cx, open, input, continuation);
            lemma_list_ends(cx, fully, open, state, copied(&input.elements), List::Nil, list);
            lemma_emitted_list(cx, state, expression, continuation, list);
        },
        _ => {
            let lowered = reconstruct_expression(cx, state, expression);
            expressions_need_no_depth(cx, state, expression);
            assert(is_direct(cx, false, expression)) by {
                reveal(is_direct);
            }
            reveal(reconstruct_expression);
            lemma_source(cx, false, state, expression);
            if !fully {
                lemma_again(cx, false, state, expression);
            }
            let id = expression.spec_id();
            lemma_lowered_ends(cx, fully, open, lowered, id, false, continuation);
            let depth = choose|depth: nat| ended(
                cx,
                #[trigger] emit_lowered(cx, depth, lowered, id, false, continuation),
            );
            reveal(emit_step);
            reveal(emit_lowered);
            lemma_step(cx, depth, state, expression, continuation);
        },
    }
}

/// The list of operands that an expression starts with.
spec fn first_operands(expression: Expression) -> List<Expression> {
    match expression {
        Expression::Array(input) => input.elements,
        Expression::Call(input) => input.const_arguments,
        Expression::Composite(input) => input.const_arguments,
        Expression::Intrinsic(input) => input.arguments,
        Expression::Tuple(input) => input.elements,
        _ => List::Nil,
    }
}

/// What is done with them.
spec fn first_list(expression: Expression, continuation: Continuation) -> Option<
    ListContinuation,
> {
    let next = Rc::new(continuation);
    match expression {
        Expression::Array(input) => Some(
            ListContinuation { frame: ListFrame::Array { input }, next },
        ),
        Expression::Call(input) => Some(
            ListContinuation { frame: ListFrame::CallConst { input }, next },
        ),
        Expression::Composite(input) => Some(
            ListContinuation { frame: ListFrame::CompositeConst { input }, next },
        ),
        Expression::Intrinsic(input) => Some(
            ListContinuation { frame: ListFrame::Intrinsic { input, first: List::Nil }, next },
        ),
        Expression::Tuple(input) => Some(
            ListContinuation { frame: ListFrame::Tuple { input }, next },
        ),
        _ => None,
    }
}

proof fn lemma_emitted_list(
    cx: Context,
    state: State,
    expression: Expression,
    continuation: Continuation,
    list: ListContinuation,
)
    requires
        expression matches Expression::Intrinsic(input) ==> !takes_vector(input.op),
        first_list(expression, continuation) == Some(list),
        lists(cx, state, first_operands(expression), List::Nil, list),
    ensures
        emits(cx, state, expression, continuation),
{
    reveal(emit_step);
    reveal(emit_list);
    let operands = first_operands(expression);
    let depth = choose|depth: nat| ended(
        cx,
        #[trigger] emit_list(cx, depth, state, operands, List::Nil, list),
    );
    lemma_step(cx, depth, state, expression, continuation);
}

/// Lowering an operation on a vector ends.
proof fn lemma_vector_ends(
    cx: Context,
    open: bool,
    state: State,
    input: Rc<IntrinsicExpression>,
    continuation: Continuation,
)
    requires
        plain_ends(cx),
        is_regular_state(cx, state),
        takes_vector(input.op),
        types_are_fine(cx, *input),
        input.arguments matches List::Cons(_, values) ==> are_regular(cx, true, *values),
        accepts(cx, open, continuation),
    ensures
        emits(cx, state, Expression::Intrinsic(input), continuation),
    decreases *input, 1int,
{
    reveal(emit_step);
    reveal(emit_list);
    let expression = Expression::Intrinsic(input);
    match &input.arguments {
        List::Nil => {
            lemma_step(cx, 0, state, expression, continuation);
        },
        List::Cons(vector, values) => {
            let vector = copied(vector);
            let values = copied(&**values);
            let list = ListContinuation {
                frame: ListFrame::Intrinsic { input, first: one(vector) },
                next: Rc::new(continuation),
            };
            lemma_vector_accepts(cx, open, input, vector, continuation);
            lemma_list_ends(cx, true, true, state, values, List::Nil, list);
            let depth = choose|depth: nat| ended(
                cx,
                #[trigger] emit_list(cx, depth, state, values, List::Nil, list),
            );
            lemma_step(cx, depth, state, expression, continuation);
        },
    }
}

pub proof fn lemma_vector_accepts(
    cx: Context,
    open: bool,
    input: Rc<IntrinsicExpression>,
    vector: Expression,
    next: Continuation,
)
    requires
        plain_ends(cx),
        takes_vector(input.op),
        types_are_fine(cx, *input),
        accepts(cx, open, next),
    ensures
        accepts_all(
            cx,
            true,
            ListContinuation {
                frame: ListFrame::Intrinsic { input, first: one(vector) },
                next: Rc::new(next),
            },
        ),
{
    let frame = ListFrame::Intrinsic { input, first: one(vector) };
    let list = ListContinuation { frame, next: Rc::new(next) };
    assert forall|state: State, values: List<Expression>|
        is_regular_state(cx, state) && all_rest(cx, true, values) implies #[trigger] resumes_list(
        cx,
        state,
        list,
        values,
    ) by {
        reveal(resume_list_step);
        reveal(emit_lowered);
        let operation = IntrinsicExpression {
            arguments: appended(one(vector), values),
            ..copied(&*input)
        };
        assert(operation.arguments == List::Cons(vector, Rc::new(values))) by {
            reveal_with_fuel(appended, 2);
        }
        lemma_direct_list(cx, true, values);
        let lowered = reconstruct_intrinsic(cx, state, operation);
        direct_values::lemma_intrinsic(cx, false, state, operation);
        shallow::lemma_intrinsic(cx, state, operation);
        lemma_lowered_ends(cx, true, open, lowered, input.id, false, next);
        let depth = choose|depth: nat| ended(
            cx,
            #[trigger] emit_lowered(cx, depth, lowered, input.id, false, next),
        );
        lemma_list_step(cx, depth, state, list, values);
    }
}

/* Operands that others follow */

pub proof fn lemma_access_array_accepts(
    cx: Context,
    fully: bool,
    open: bool,
    input: Rc<ArrayAccess>,
    next: Continuation,
)
    requires
        fully ==> plain_ends(cx),
        open ==> fully,
        is_source(cx, fully, open, input.index),
        accepts(cx, open, next),
    ensures
        accepts(
            cx,
            open,
            Continuation::Operand(OperandFrame::AccessArray { input }, Rc::new(next)),
        ),
    decreases *input, 1int,
{
    let frame = OperandFrame::AccessArray { input };
    let continuation = Continuation::Operand(frame, Rc::new(next));
    assert forall|state: State, value: Expression|
        is_regular_state(cx, state) && rests(cx, open, value) implies #[trigger] resumes(
        cx,
        state,
        continuation,
        value,
    ) by {
        reveal(resume_operand);
        reveal(emit);
        reveal(materialize_strict_prefix_expression);
        let index = copied(&input.index);
        let strict = expression_may_emit_after_reconstruction(cx, index);
        lemma_materialize(cx, open, state, value);
        match materialize_if(cx, state, value, strict) {
            Err(_) => {
                lemma_operand(cx, 0, state, frame, next, value);
            },
            Ok((after, (array, _))) => {
                let k = Continuation::Operand(
                    OperandFrame::AccessIndex { array, input },
                    Rc::new(next),
                );
                lemma_index_accepts(cx, open, array, input, next);
                expressions_end(cx, fully, open, after, index, k);
                let depth = choose|depth: nat| ended(
                    cx,
                    #[trigger] emit(cx, depth, after, index, k),
                );
                lemma_operand(cx, depth, state, frame, next, value);
            },
        }
    }
}

pub proof fn lemma_left_accepts(
    cx: Context,
    fully: bool,
    open: bool,
    input: Rc<BinaryExpression>,
    next: Continuation,
)
    requires
        fully ==> plain_ends(cx),
        open ==> fully,
        is_source(cx, fully, open, input.right),
        accepts(cx, open, next),
    ensures
        accepts(cx, open, Continuation::Operand(OperandFrame::BinaryLeft { input }, Rc::new(next))),
    decreases *input, 1int,
{
    let frame = OperandFrame::BinaryLeft { input };
    let continuation = Continuation::Operand(frame, Rc::new(next));
    assert forall|state: State, value: Expression|
        is_regular_state(cx, state) && rests(cx, open, value) implies #[trigger] resumes(
        cx,
        state,
        continuation,
        value,
    ) by {
        reveal(resume_operand);
        reveal(emit);
        reveal(materialize_strict_prefix_expression);
        let right = copied(&input.right);
        let strict = expression_may_emit_after_reconstruction(cx, right);
        lemma_materialize(cx, open, state, value);
        match materialize_if(cx, state, value, strict) {
            Err(_) => {
                lemma_operand(cx, 0, state, frame, next, value);
            },
            Ok((after, (left, _))) => {
                let k = Continuation::Operand(
                    OperandFrame::BinaryRight { left, input },
                    Rc::new(next),
                );
                lemma_right_accepts(cx, open, left, input, next);
                expressions_end(cx, fully, open, after, right, k);
                let depth = choose|depth: nat| ended(
                    cx,
                    #[trigger] emit(cx, depth, after, right, k),
                );
                lemma_operand(cx, depth, state, frame, next, value);
            },
        }
    }
}

pub proof fn lemma_element_accepts(
    cx: Context,
    fully: bool,
    open: bool,
    input: Rc<RepeatExpression>,
    next: Continuation,
)
    requires
        fully ==> plain_ends(cx),
        open ==> fully,
        is_source(cx, fully, open, input.count),
        accepts(cx, open, next),
    ensures
        accepts(
            cx,
            open,
            Continuation::Operand(OperandFrame::RepeatElement { input }, Rc::new(next)),
        ),
    decreases *input, 1int,
{
    let frame = OperandFrame::RepeatElement { input };
    let continuation = Continuation::Operand(frame, Rc::new(next));
    assert forall|state: State, value: Expression|
        is_regular_state(cx, state) && rests(cx, open, value) implies #[trigger] resumes(
        cx,
        state,
        continuation,
        value,
    ) by {
        reveal(resume_operand);
        reveal(emit);
        reveal(materialize_strict_prefix_expression);
        let count = copied(&input.count);
        let strict = expression_may_emit_after_reconstruction(cx, count);
        lemma_materialize(cx, open, state, value);
        match materialize_if(cx, state, value, strict) {
            Err(_) => {
                lemma_operand(cx, 0, state, frame, next, value);
            },
            Ok((after, (expr, _))) => {
                let k = Continuation::Operand(
                    OperandFrame::RepeatCount { expr, input },
                    Rc::new(next),
                );
                lemma_count_accepts(cx, open, expr, input, next);
                expressions_end(cx, fully, open, after, count, k);
                let depth = choose|depth: nat| ended(
                    cx,
                    #[trigger] emit(cx, depth, after, count, k),
                );
                lemma_operand(cx, depth, state, frame, next, value);
            },
        }
    }
}

pub proof fn lemma_condition_accepts(
    cx: Context,
    fully: bool,
    open: bool,
    input: Rc<TernaryExpression>,
    optional_type: Option<Type>,
    next: Continuation,
)
    requires
        fully ==> plain_ends(cx),
        open ==> fully,
        is_source(cx, fully, open, input.if_true),
        is_source(cx, fully, open, input.if_false),
        accepts(cx, open, next),
        optional_type matches Some(type_) ==> type_is_plain(cx, type_),
    ensures
        accepts(
            cx,
            open,
            Continuation::Operand(
                OperandFrame::TernaryCondition { input, optional_type },
                Rc::new(next),
            ),
        ),
    decreases *input, 1int,
{
    let frame = OperandFrame::TernaryCondition { input, optional_type };
    let continuation = Continuation::Operand(frame, Rc::new(next));
    assert forall|state: State, value: Expression|
        is_regular_state(cx, state) && rests(cx, open, value) implies #[trigger] resumes(
        cx,
        state,
        continuation,
        value,
    ) by {
        reveal(resume_operand);
        reveal(resume_ternary);
        lemma_ternary_ends(cx, fully, open, state, copied(&*input), optional_type, next, value);
        let depth = choose|depth: nat| ended(
            cx,
            #[trigger] resume_ternary(
                cx,
                depth,
                state,
                copied(&*input),
                optional_type,
                next,
                value,
            ),
        );
        lemma_operand(cx, depth, state, frame, next, value);
    }
}

proof fn lemma_ternary_ends(
    cx: Context,
    fully: bool,
    open: bool,
    state: State,
    input: TernaryExpression,
    optional_type: Option<Type>,
    next: Continuation,
    condition: Expression,
)
    requires
        fully ==> plain_ends(cx),
        open ==> fully,
        is_regular_state(cx, state),
        is_source(cx, fully, open, input.if_true),
        is_source(cx, fully, open, input.if_false),
        rests(cx, open, condition),
        accepts(cx, open, next),
        optional_type matches Some(type_) ==> type_is_plain(cx, type_),
    ensures
        exists|depth: nat|
            ended(
                cx,
                #[trigger] resume_ternary(
                    cx,
                    depth,
                    state,
                    input,
                    optional_type,
                    next,
                    condition,
                ),
            ),
    decreases input, 0int,
{
    reveal(resume_ternary);
    reveal(emit_branches);
    reveal(emit);
    reveal(resume);
    if expression_may_emit_after_reconstruction(cx, input.if_true)
        || expression_may_emit_after_reconstruction(cx, input.if_false) {
        let arm = Continuation::Operand(
            OperandFrame::TernaryArm { optional_type, span: input.span },
            Rc::new(next),
        );
        lemma_arm_accepts(cx, open, optional_type, input.span, next);
        expressions_end(cx, fully, open, state, input.if_true, arm);
        let first = choose|depth: nat| ended(
            cx,
            #[trigger] emit(cx, depth, state, input.if_true, arm),
        );
        match emit(cx, first, state, input.if_true, arm) {
            Err(_) => {
                assert(ended(
                    cx,
                    resume_ternary(cx, first, state, input, optional_type, next, condition),
                ));
            },
            Ok((after, _)) => {
                expressions_end(cx, fully, open, after, input.if_false, arm);
                let second = choose|depth: nat| ended(
                    cx,
                    #[trigger] emit(cx, depth, after, input.if_false, arm),
                );
                let depth = if first < second {
                    second
                } else {
                    first
                };
                lemma_greater_emit(cx, first, depth, state, input.if_true, arm);
                lemma_greater_emit(cx, second, depth, after, input.if_false, arm);
                assert(ended(
                    cx,
                    resume_ternary(cx, depth, state, input, optional_type, next, condition),
                ));
            },
        }
    } else {
        lemma_quiet(input.if_true);
        lemma_quiet(input.if_false);
        lemma_settled(cx, open, input.if_true);
        lemma_settled(cx, open, input.if_false);
        lemma_direct(cx, false, input.if_true);
        lemma_direct(cx, false, input.if_false);
        quiet_expressions_have_no_statements(cx, state, &input.if_true);
        lemma_again(cx, false, state, input.if_true);
        lemma_source(cx, false, state, input.if_true);
        expressions_need_no_depth(cx, state, input.if_true);
        match reconstruct_expression(cx, state, input.if_true) {
            Err(_) => {
                assert(ended(
                    cx,
                    resume_ternary(cx, 0, state, input, optional_type, next, condition),
                ));
            },
            Ok((middle, if_true)) => {
                quiet_expressions_have_no_statements(cx, middle, &input.if_false);
                lemma_again(cx, false, middle, input.if_false);
                lemma_source(cx, false, middle, input.if_false);
                expressions_need_no_depth(cx, middle, input.if_false);
                match reconstruct_expression(cx, middle, input.if_false) {
                    Err(_) => {
                        assert(ended(
                            cx,
                            resume_ternary(cx, 0, state, input, optional_type, next, condition),
                        ));
                    },
                    Ok((after, if_false)) => {
                        let ternary = Expression::Ternary(
                            Rc::new(
                                TernaryExpression {
                                    condition,
                                    if_true: if_true.0,
                                    if_false: if_false.0,
                                    ..input
                                },
                            ),
                        );
                        lemma_opens(cx, if_true.0);
                        lemma_opens(cx, if_false.0);
                        assert(rests(cx, open, ternary));
                        assert(resumes(cx, after, next, ternary));
                        let depth = choose|depth: nat| ended(
                            cx,
                            #[trigger] resume(cx, depth, after, next, ternary),
                        );
                        assert(ended(
                            cx,
                            resume_ternary(
                                cx,
                                depth,
                                state,
                                input,
                                optional_type,
                                next,
                                condition,
                            ),
                        ));
                    },
                }
            },
        }
    }
}

/// What needs branches may emit statements.
proof fn lemma_quiet(expression: Expression)
    ensures
        expression_requires_branch_cps(expression) ==> expression_may_emit_cps_statements(
            expression,
        ),
{
    branches_emit(&expression);
}

/* Lists */

/// Whether lowering a list ends.
pub open spec fn lists(
    cx: Context,
    state: State,
    remaining: List<Expression>,
    rebuilt: List<Expression>,
    continuation: ListContinuation,
) -> bool {
    exists|depth: nat|
        ended(cx, #[trigger] emit_list(cx, depth, state, remaining, rebuilt, continuation))
}

pub proof fn lemma_list_ends(
    cx: Context,
    fully: bool,
    open: bool,
    state: State,
    remaining: List<Expression>,
    rebuilt: List<Expression>,
    continuation: ListContinuation,
)
    requires
        fully ==> plain_ends(cx),
        open ==> fully,
        is_regular_state(cx, state),
        are_sources(cx, fully, open, remaining),
        all_rest(cx, open, rebuilt),
        accepts_all(cx, open, continuation),
    ensures
        lists(cx, state, remaining, rebuilt, continuation),
    decreases remaining, 0int,
{
    reveal(emit_list);
    reveal(emit);
    reveal(resume_list);
    match remaining {
        List::Nil => {
            assert(resumes_list(cx, state, continuation, rebuilt));
            let depth = choose|depth: nat| ended(
                cx,
                #[trigger] resume_list(cx, depth, state, continuation, rebuilt),
            );
            assert(ended(cx, emit_list(cx, depth, state, remaining, rebuilt, continuation)));
        },
        List::Cons(first, rest) => {
            lemma_first(cx, fully, open, first, copied(&*rest));
            let k = Continuation::Element {
                rest: copied(&*rest),
                rebuilt,
                next: Rc::new(continuation),
            };
            assert forall|other: State, value: Expression|
        is_regular_state(cx, other)
            && rests(cx, open, value) implies #[trigger] resumes(cx, other, k, value) by {
                lemma_element_of_list(
                    cx,
                    fully,
                    open,
                    other,
                    copied(&*rest),
                    rebuilt,
                    continuation,
                    value,
                );
            }
            expressions_end(cx, fully, open, state, first, k);
            let depth = choose|depth: nat| ended(cx, #[trigger] emit(cx, depth, state, first, k));
            assert(ended(cx, emit_list(cx, depth, state, remaining, rebuilt, continuation)));
        },
    }
}

pub proof fn lemma_first(
    cx: Context,
    fully: bool,
    open: bool,
    first: Expression,
    rest: List<Expression>,
)
    requires
        are_sources(cx, fully, open, List::Cons(first, Rc::new(rest))),
    ensures
        is_source(cx, fully, open, first),
        are_sources(cx, fully, open, rest),
{
    reveal(are_regular);
    reveal(is_regular);
    reveal(are_plain);
    reveal(is_plain);
}

pub proof fn lemma_element_of_list(
    cx: Context,
    fully: bool,
    open: bool,
    state: State,
    rest: List<Expression>,
    rebuilt: List<Expression>,
    next: ListContinuation,
    value: Expression,
)
    requires
        fully ==> plain_ends(cx),
        open ==> fully,
        is_regular_state(cx, state),
        are_sources(cx, fully, open, rest),
        all_rest(cx, open, rebuilt),
        accepts_all(cx, open, next),
        rests(cx, open, value),
    ensures
        resumes(cx, state, Continuation::Element { rest, rebuilt, next: Rc::new(next) }, value),
    decreases rest, 1int,
{
    reveal(resume);
    reveal(resume_step);
    reveal(emit_list);
    reveal(materialize_strict_prefix_expression);
    let k = Continuation::Element { rest, rebuilt, next: Rc::new(next) };
    lemma_materialize(cx, open, state, value);
    match materialize_if(cx, state, value, any_may_emit_after(cx, rest)) {
        Err(_) => {
            assert(ended(cx, resume(cx, 1, state, k, value)));
        },
        Ok((after, (value_after, _))) => {
            let rebuilt_after = appended(rebuilt, one(value_after));
            assert(all_rest(cx, open, one(value_after))) by {
                reveal_with_fuel(any_requires_branch, 2);
            }
            lemma_list_ends(cx, fully, open, after, rest, rebuilt_after, next);
            let depth = choose|depth: nat| ended(
                cx,
                #[trigger] emit_list(cx, depth, after, rest, rebuilt_after, next),
            );
            assert(ended(cx, resume(cx, depth + 1, state, k, value)));
        },
    }
}

pub proof fn lemma_array_accepts(
    cx: Context,
    open: bool,
    input: Rc<ArrayExpression>,
    next: Continuation,
)
    requires
        accepts(cx, open, next),
    ensures
        accepts_all(
            cx,
            open,
            ListContinuation { frame: ListFrame::Array { input }, next: Rc::new(next) },
        ),
{
    let list = ListContinuation { frame: ListFrame::Array { input }, next: Rc::new(next) };
    assert forall|state: State, values: List<Expression>|
        is_regular_state(cx, state)
            && all_rest(cx, open, values) implies #[trigger] resumes_list(
                cx,
                state,
                list,
                values,
            ) by {
        reveal(resume_list_step);
        reveal(resume);
        let node = Expression::Array(
            Rc::new(ArrayExpression { elements: values, ..copied(&*input) }),
        );
        assert(rests(cx, open, node));
        assert(resumes(cx, state, next, node));
        let depth = choose|depth: nat| ended(cx, #[trigger] resume(cx, depth, state, next, node));
        lemma_list_step(cx, depth, state, list, values);
    }
}

pub proof fn lemma_tuple_accepts(
    cx: Context,
    open: bool,
    input: Rc<TupleExpression>,
    next: Continuation,
)
    requires
        accepts(cx, open, next),
    ensures
        accepts_all(
            cx,
            open,
            ListContinuation { frame: ListFrame::Tuple { input }, next: Rc::new(next) },
        ),
{
    let list = ListContinuation { frame: ListFrame::Tuple { input }, next: Rc::new(next) };
    assert forall|state: State, values: List<Expression>|
        is_regular_state(cx, state)
            && all_rest(cx, open, values) implies #[trigger] resumes_list(
                cx,
                state,
                list,
                values,
            ) by {
        reveal(resume_list_step);
        reveal(resume);
        let node = Expression::Tuple(
            Rc::new(TupleExpression { elements: values, ..copied(&*input) }),
        );
        assert(rests(cx, open, node));
        assert(resumes(cx, state, next, node));
        let depth = choose|depth: nat| ended(cx, #[trigger] resume(cx, depth, state, next, node));
        lemma_list_step(cx, depth, state, list, values);
    }
}

pub proof fn lemma_call_const_accepts(
    cx: Context,
    fully: bool,
    open: bool,
    input: Rc<CallExpression>,
    next: Continuation,
)
    requires
        fully ==> plain_ends(cx),
        open ==> fully,
        are_sources(cx, fully, false, input.arguments),
        accepts(cx, open, next),
    ensures
        accepts_all(
            cx,
            false,
            ListContinuation { frame: ListFrame::CallConst { input }, next: Rc::new(next) },
        ),
    decreases *input, 1int,
{
    let list = ListContinuation { frame: ListFrame::CallConst { input }, next: Rc::new(next) };
    assert forall|state: State, values: List<Expression>|
        is_regular_state(cx, state)
            && all_rest(cx, false, values) implies #[trigger] resumes_list(
                cx,
                state,
                list,
                values,
            ) by {
        reveal(resume_list_step);
        reveal(emit_list);
        let frame = ListFrame::CallArguments { input, const_arguments: values };
        let last = ListContinuation { frame, next: Rc::new(next) };
        lemma_call_arguments_accepts(cx, fully, open, input, values, next);
        let arguments = copied(&input.arguments);
        lemma_list_ends(cx, fully, false, state, arguments, List::Nil, last);
        let depth = choose|depth: nat| ended(
            cx,
            #[trigger] emit_list(cx, depth, state, arguments, List::Nil, last),
        );
        lemma_list_step(cx, depth, state, list, values);
    }
}

pub proof fn lemma_call_arguments_accepts(
    cx: Context,
    fully: bool,
    open: bool,
    input: Rc<CallExpression>,
    const_arguments: List<Expression>,
    next: Continuation,
)
    requires
        fully ==> plain_ends(cx),
        open ==> fully,
        all_rest(cx, false, const_arguments),
        accepts(cx, open, next),
    ensures
        accepts_all(
            cx,
            false,
            ListContinuation {
                frame: ListFrame::CallArguments { input, const_arguments },
                next: Rc::new(next),
            },
        ),
{
    let frame = ListFrame::CallArguments { input, const_arguments };
    let list = ListContinuation { frame, next: Rc::new(next) };
    assert forall|state: State, values: List<Expression>|
        is_regular_state(cx, state)
            && all_rest(cx, false, values) implies #[trigger] resumes_list(
                cx,
                state,
                list,
                values,
            ) by {
        reveal(resume_list_step);
        reveal(emit_lowered);
        let call = CallExpression { const_arguments, arguments: values, ..copied(&*input) };
        let lowered = reconstruct_call(cx, state, call);
        lemma_call(cx, state, call);
        lemma_direct_list(cx, false, values);
        direct_values::lemma_call(cx, false, state, call);
        assert(!expression_requires_branch_cps(Expression::Call(Rc::new(call))));
        shallow::lemma_call(cx, state, call);
        lemma_lowered_ends(cx, fully, open, lowered, input.id, false, next);
        let depth = choose|depth: nat| ended(
            cx,
            #[trigger] emit_lowered(cx, depth, lowered, input.id, false, next),
        );
        lemma_list_step(cx, depth, state, list, values);
    }
}

pub proof fn lemma_intrinsic_accepts(
    cx: Context,
    fully: bool,
    open: bool,
    input: Rc<IntrinsicExpression>,
    next: Continuation,
)
    requires
        fully ==> plain_ends(cx),
        open ==> fully,
        !takes_vector(input.op),
        types_are_fine(cx, *input),
        accepts(cx, open, next),
    ensures
        accepts_all(
            cx,
            false,
            ListContinuation {
                frame: ListFrame::Intrinsic { input, first: List::Nil },
                next: Rc::new(next),
            },
        ),
{
    let frame = ListFrame::Intrinsic { input, first: List::Nil };
    let list = ListContinuation { frame, next: Rc::new(next) };
    assert forall|state: State, values: List<Expression>|
        is_regular_state(cx, state)
            && all_rest(cx, false, values) implies #[trigger] resumes_list(
                cx,
                state,
                list,
                values,
            ) by {
        reveal(resume_list_step);
        reveal(emit_lowered);
        let operation = IntrinsicExpression {
            arguments: appended(List::Nil, values),
            ..copied(&*input)
        };
        assert(operation.arguments == values);
        let lowered = reconstruct_intrinsic(cx, state, operation);
        lemma_intrinsic(cx, state, operation);
        lemma_direct_list(cx, false, values);
        direct_values::lemma_intrinsic(cx, false, state, operation);
        shallow::lemma_intrinsic(cx, state, operation);
        assert(!expression_requires_branch_cps(Expression::Intrinsic(Rc::new(operation))));
        lemma_lowered_ends(cx, fully, open, lowered, input.id, false, next);
        let depth = choose|depth: nat| ended(
            cx,
            #[trigger] emit_lowered(cx, depth, lowered, input.id, false, next),
        );
        lemma_list_step(cx, depth, state, list, values);
    }
}

/* Dynamic accesses */

/// Whether lowering the list `arguments` ends if going on with its values does.
pub open spec fn arguments_end(cx: Context, open: bool, arguments: List<Expression>) -> bool {
    forall|state: State, continuation: ListContinuation|
        is_regular_state(cx, state) && accepts_all(cx, open, continuation) ==> #[trigger] lists(
            cx,
            state,
            arguments,
            List::Nil,
            continuation,
        )
}

/// Whether dynamic accesses may stay in the arguments of an access.
pub open spec fn stays_open(open: bool, kind: DynamicOpKind) -> bool {
    open || kind is Op
}

/// Whether the target and the network of `access` rest, and lowering its arguments ends.
pub open spec fn is_ready(
    cx: Context,
    fully: bool,
    open: bool,
    access: DynamicOpExpression,
) -> bool {
    &&& rests(cx, false, access.target_program)
    &&& access.network matches Some(network) ==> rests(cx, false, network)
    &&& kind_is_regular(cx, open, access.interface, access.kind)
    &&& fully || access.kind is Call
    &&& match access.kind {
        DynamicOpKind::Read { .. } => true,
        DynamicOpKind::Op { arguments, .. } => arguments_end(cx, true, arguments),
        DynamicOpKind::Call { arguments, .. } => arguments_end(cx, open, arguments),
    }
}

/// Lowering an access whose operands rest ends.
pub proof fn lemma_access_ends(
    cx: Context,
    fully: bool,
    open: bool,
    state: State,
    access: DynamicOpExpression,
    id: NodeId,
    next: Continuation,
)
    requires
        fully ==> plain_ends(cx),
        open ==> fully,
        is_regular_state(cx, state),
        rests(cx, false, access.target_program),
        access.network matches Some(network) ==> rests(cx, false, network),
        kind_is_direct(cx, open, access.interface, access.kind),
        fully || access.kind is Call,
        access.kind matches DynamicOpKind::Call { arguments, .. } ==> all_rest(cx, open, arguments),
        accepts(cx, open, next),
    ensures
        exists|depth: nat|
            ended(
                cx,
                #[trigger] emit_lowered(
                    cx,
                    depth,
                    reconstruct_dynamic_op(cx, state, access),
                    id,
                    true,
                    next,
                ),
            ),
{
    let lowered = reconstruct_dynamic_op(cx, state, access);
    lemma_direct(cx, false, access.target_program);
    assert(option_is_direct(cx, false, access.network)) by {
        reveal(option_is_direct);
        reveal(is_direct);
        if let Some(network) = access.network {
            lemma_direct(cx, false, network);
        }
    }
    direct_values::lemma_dynamic(cx, open, state, access);
    shallow::lemma_dynamic(cx, state, access);
    if access.kind is Call {
        assert(kind_is_plain(cx, open, access.interface, access.kind)) by {
            reveal(kind_is_plain);
            reveal(are_plain);
        }
        assert(option_is_plain(cx, false, access.network)) by {
            reveal(option_is_plain);
            reveal(is_plain);
        }
        plain_values::lemma_dynamic(cx, open, state, access);
        if !open {
            assert(!expression_requires_branch_cps(Expression::DynamicOp(Rc::new(access))));
        }
    }
    lemma_lowered_ends(cx, fully, open, lowered, id, true, next);
}

pub proof fn lemma_dynamic_arguments_accept(
    cx: Context,
    fully: bool,
    open: bool,
    access: DynamicOpExpression,
    next: Continuation,
)
    requires
        fully ==> plain_ends(cx),
        open ==> fully,
        is_ready(cx, fully, open, access),
        !(access.kind is Read),
        accepts(cx, open, next),
    ensures
        accepts_all(
            cx,
            stays_open(open, access.kind),
            ListContinuation {
                frame: ListFrame::DynamicArguments { input: Rc::new(access) },
                next: Rc::new(next),
            },
        ),
{
    let frame = ListFrame::DynamicArguments { input: Rc::new(access) };
    let list = ListContinuation { frame, next: Rc::new(next) };
    let inner = stays_open(open, access.kind);
    assert forall|state: State, values: List<Expression>|
        is_regular_state(cx, state) && all_rest(cx, inner, values) implies #[trigger] resumes_list(
        cx,
        state,
        list,
        values,
    ) by {
        reveal(resume_list_step);
        reveal(emit_lowered);
        let kind = match access.kind {
            DynamicOpKind::Read { storage } => DynamicOpKind::Read { storage },
            DynamicOpKind::Op { member, op, arguments: _ } => DynamicOpKind::Op {
                member,
                op,
                arguments: values,
            },
            DynamicOpKind::Call { function, arguments: _ } => DynamicOpKind::Call {
                function,
                arguments: values,
            },
        };
        let filled = DynamicOpExpression { kind, ..access };
        lemma_direct_list(cx, inner, values);
        assert(kind_is_direct(cx, open, filled.interface, kind)) by {
            reveal(kind_is_regular);
            reveal(kind_is_direct);
            reveal(are_direct);
        }
        lemma_access_ends(cx, fully, open, state, filled, access.id, next);
        let depth = choose|depth: nat| ended(
            cx,
            #[trigger] emit_lowered(
                cx,
                depth,
                reconstruct_dynamic_op(cx, state, filled),
                access.id,
                true,
                next,
            ),
        );
        lemma_list_step(cx, depth, state, list, values);
    }
}

pub proof fn lemma_arguments_end(
    cx: Context,
    fully: bool,
    open: bool,
    state: State,
    access: DynamicOpExpression,
    next: Continuation,
)
    requires
        fully ==> plain_ends(cx),
        open ==> fully,
        is_regular_state(cx, state),
        is_ready(cx, fully, open, access),
        accepts(cx, open, next),
    ensures
        exists|depth: nat|
            ended(cx, #[trigger] emit_dynamic_arguments(cx, depth, state, access, next)),
{
    reveal(emit_dynamic_arguments);
    reveal(emit_list);
    reveal(emit_lowered);
    let frame = ListFrame::DynamicArguments { input: Rc::new(access) };
    let list = ListContinuation { frame, next: Rc::new(next) };
    match access.kind {
        DynamicOpKind::Read { .. } => {
            assert(kind_is_direct(cx, open, access.interface, access.kind)) by {
                reveal(kind_is_direct);
            }
            lemma_access_ends(cx, fully, open, state, access, access.id, next);
            let depth = choose|depth: nat| ended(
                cx,
                #[trigger] emit_lowered(
                    cx,
                    depth,
                    reconstruct_dynamic_op(cx, state, access),
                    access.id,
                    true,
                    next,
                ),
            );
            assert(ended(cx, emit_dynamic_arguments(cx, depth, state, access, next)));
        },
        DynamicOpKind::Op { arguments, .. } => {
            lemma_dynamic_arguments_accept(cx, fully, open, access, next);
            assert(lists(cx, state, arguments, List::Nil, list));
            let depth = choose|depth: nat| ended(
                cx,
                #[trigger] emit_list(cx, depth, state, arguments, List::Nil, list),
            );
            assert(ended(cx, emit_dynamic_arguments(cx, depth, state, access, next)));
        },
        DynamicOpKind::Call { arguments, .. } => {
            lemma_dynamic_arguments_accept(cx, fully, open, access, next);
            assert(lists(cx, state, arguments, List::Nil, list));
            let depth = choose|depth: nat| ended(
                cx,
                #[trigger] emit_list(cx, depth, state, arguments, List::Nil, list),
            );
            assert(ended(cx, emit_dynamic_arguments(cx, depth, state, access, next)));
        },
    }
}

pub proof fn lemma_network_accepts(
    cx: Context,
    fully: bool,
    open: bool,
    access: DynamicOpExpression,
    next: Continuation,
)
    requires
        fully ==> plain_ends(cx),
        open ==> fully,
        is_ready(cx, fully, open, DynamicOpExpression { network: None, ..access }),
        accepts(cx, open, next),
    ensures
        accepts(
            cx,
            true,
            Continuation::Operand(
                OperandFrame::DynamicNetwork { input: Rc::new(access) },
                Rc::new(next),
            ),
        ),
{
    let frame = OperandFrame::DynamicNetwork { input: Rc::new(access) };
    let continuation = Continuation::Operand(frame, Rc::new(next));
    assert forall|state: State, value: Expression|
        is_regular_state(cx, state) && rests(cx, true, value) implies #[trigger] resumes(
        cx,
        state,
        continuation,
        value,
    ) by {
        reveal(resume_operand);
        reveal(emit_dynamic_arguments);
        reveal(materialize_strict_prefix_expression);
        lemma_materialize(cx, true, state, value);
        match materialize_strict_prefix_expression(cx, state, value) {
            Err(_) => {
                lemma_operand(cx, 0, state, frame, next, value);
            },
            Ok((after, (network, _))) => {
                let ready = DynamicOpExpression { network: Some(network), ..access };
                lemma_arguments_end(cx, fully, open, after, ready, next);
                let depth = choose|depth: nat| ended(
                    cx,
                    #[trigger] emit_dynamic_arguments(cx, depth, after, ready, next),
                );
                lemma_operand(cx, depth, state, frame, next, value);
            },
        }
    }
}

pub proof fn lemma_target_accepts(
    cx: Context,
    fully: bool,
    open: bool,
    input: Rc<DynamicOpExpression>,
    next: Continuation,
)
    requires
        fully ==> plain_ends(cx),
        open ==> fully,
        option_is_source(cx, fully, fully, input.network),
        kind_is_source(cx, fully, open, input.interface, input.kind),
        accepts(cx, open, next),
    ensures
        accepts(
            cx,
            true,
            Continuation::Operand(OperandFrame::DynamicTarget { input }, Rc::new(next)),
        ),
    decreases *input, 2int,
{
    let frame = OperandFrame::DynamicTarget { input };
    let continuation = Continuation::Operand(frame, Rc::new(next));
    let inner = stays_open(open, copied(&input.kind));
    match &input.kind {
        DynamicOpKind::Read { .. } => {
            assert(fully) by {
                reveal(kind_is_plain);
            }
        },
        DynamicOpKind::Op { arguments, .. } => {
            let arguments = copied(arguments);
            assert(fully && are_regular(cx, true, arguments)) by {
                reveal(kind_is_plain);
                reveal(kind_is_regular);
                reveal(are_regular);
            }
            assert forall|state: State, list: ListContinuation|
                is_regular_state(cx, state) && accepts_all(
                    cx,
                    true,
                    list,
                ) implies #[trigger] lists(cx, state, arguments, List::Nil, list) by {
                lemma_list_ends(cx, fully, true, state, arguments, List::Nil, list);
            }
            assert(arguments_end(cx, true, arguments));
        },
        DynamicOpKind::Call { arguments, .. } => {
            let arguments = copied(arguments);
            assert(are_sources(cx, fully, open, arguments)) by {
                reveal(kind_is_plain);
                reveal(are_plain);
                reveal(kind_is_regular);
                reveal(are_regular);
            }
            assert forall|state: State, list: ListContinuation|
                is_regular_state(cx, state) && accepts_all(
                    cx,
                    open,
                    list,
                ) implies #[trigger] lists(cx, state, arguments, List::Nil, list) by {
                lemma_list_ends(cx, fully, open, state, arguments, List::Nil, list);
            }
            assert(arguments_end(cx, open, arguments));
        },
    }
    assert forall|state: State, value: Expression|
        is_regular_state(cx, state) && rests(cx, true, value) implies #[trigger] resumes(
        cx,
        state,
        continuation,
        value,
    ) by {
        reveal(resume_operand);
        reveal(emit);
        reveal(emit_dynamic_arguments);
        reveal(materialize_strict_prefix_expression);
        lemma_materialize(cx, true, state, value);
        match materialize_strict_prefix_expression(cx, state, value) {
            Err(_) => {
                lemma_operand(cx, 0, state, frame, next, value);
            },
            Ok((after, (target_program, _))) => {
                let access = DynamicOpExpression { target_program, ..copied(&*input) };
                match &input.network {
                    None => {
                        lemma_arguments_end(cx, fully, open, after, access, next);
                        let depth = choose|depth: nat| ended(
                            cx,
                            #[trigger] emit_dynamic_arguments(cx, depth, after, access, next),
                        );
                        lemma_operand(cx, depth, state, frame, next, value);
                    },
                    Some(network) => {
                        let network = copied(network);
                        assert(is_source(cx, fully, fully, network)) by {
                            reveal(option_is_plain);
                            reveal(is_plain);
                            reveal(option_is_regular);
                            reveal(is_regular);
                        }
                        let second = OperandFrame::DynamicNetwork { input: Rc::new(access) };
                        let k = Continuation::Operand(second, Rc::new(next));
                        lemma_network_accepts(cx, fully, open, access, next);
                        lemma_narrowed(cx, true, k);
                        expressions_end(cx, fully, fully, after, network, k);
                        let depth = choose|depth: nat| ended(
                            cx,
                            #[trigger] emit(cx, depth, after, network, k),
                        );
                        lemma_operand(cx, depth, state, frame, next, value);
                    },
                }
            },
        }
    }
}

/* Composites */

/// Whether lowering `base` ends if going on with its value does.
pub open spec fn base_ends(cx: Context, open: bool, base: Option<Expression>) -> bool {
    base matches Some(base) ==> forall|state: State, continuation: Continuation|
        is_regular_state(cx, state)
            && accepts(cx, open, continuation) ==> #[trigger] emits(cx, state, base, continuation)
}

pub proof fn lemma_composite_const_accepts(
    cx: Context,
    fully: bool,
    open: bool,
    input: Rc<CompositeExpression>,
    next: Continuation,
)
    requires
        fully ==> plain_ends(cx),
        open ==> fully,
        fields_are_sources(cx, fully, open, input.members),
        option_is_source(cx, fully, open, input.base),
        accepts(cx, open, next),
    ensures
        accepts_all(
            cx,
            open,
            ListContinuation { frame: ListFrame::CompositeConst { input }, next: Rc::new(next) },
        ),
    decreases *input, 1int,
{
    let list = ListContinuation { frame: ListFrame::CompositeConst { input }, next: Rc::new(next) };
    if let Some(base) = &input.base {
        let base = copied(base);
        assert(is_source(cx, fully, open, base)) by {
            reveal(option_is_plain);
            reveal(is_plain);
            reveal(option_is_regular);
            reveal(is_regular);
        }
        assert forall|state: State, continuation: Continuation|
            is_regular_state(cx, state)
                && accepts(cx, open, continuation) implies #[trigger] emits(
                    cx,
                    state,
                    base,
                    continuation,
                ) by {
            expressions_end(cx, fully, open, state, base, continuation);
        }
    }
    assert(base_ends(cx, open, input.base));
    assert forall|state: State, values: List<Expression>|
        is_regular_state(cx, state)
            && all_rest(cx, open, values) implies #[trigger] resumes_list(
                cx,
                state,
                list,
                values,
            ) by {
        reveal(resume_list_step);
        reveal(emit_composite_members);
        let composite = CompositeExpression { const_arguments: values, ..copied(&*input) };
        let members = copied(&input.members);
        lemma_members_end(cx, fully, open, state, composite, List::Nil, members, next);
        let depth = choose|depth: nat| ended(
            cx,
            #[trigger] emit_composite_members(
                cx,
                depth,
                state,
                composite,
                List::Nil,
                members,
                next,
            ),
        );
        lemma_list_step(cx, depth, state, list, values);
    }
}

pub proof fn lemma_base_ends(
    cx: Context,
    open: bool,
    state: State,
    input: CompositeExpression,
    next: Continuation,
)
    requires
        is_regular_state(cx, state),
        all_rest(cx, open, input.const_arguments),
        fields_are_plain(cx, open, input.members),
        open || !any_member_requires_branch(input.members),
        base_ends(cx, open, input.base),
        accepts(cx, open, next),
    ensures
        exists|depth: nat| ended(cx, #[trigger] emit_composite_base(cx, depth, state, input, next)),
{
    reveal(emit_composite_base);
    reveal(emit);
    reveal(resume);
    match &input.base {
        None => {
            let node = Expression::Composite(Rc::new(input));
            assert(rests(cx, open, node));
            assert(resumes(cx, state, next, node));
            let depth = choose|depth: nat| ended(
                cx,
                #[trigger] resume(cx, depth, state, next, node),
            );
            assert(ended(cx, emit_composite_base(cx, depth, state, input, next)));
        },
        Some(base) => {
            let base = copied(base);
            let frame = OperandFrame::CompositeBase { input: Rc::new(input) };
            let k = Continuation::Operand(frame, Rc::new(next));
            lemma_base_accepts(cx, open, Rc::new(input), next);
            assert(emits(cx, state, base, k));
            let depth = choose|depth: nat| ended(cx, #[trigger] emit(cx, depth, state, base, k));
            assert(ended(cx, emit_composite_base(cx, depth, state, input, next)));
        },
    }
}

pub proof fn lemma_members_end(
    cx: Context,
    fully: bool,
    open: bool,
    state: State,
    input: CompositeExpression,
    done: List<FieldInitializer>,
    rest: List<FieldInitializer>,
    next: Continuation,
)
    requires
        fully ==> plain_ends(cx),
        open ==> fully,
        is_regular_state(cx, state),
        all_rest(cx, open, input.const_arguments),
        fields_are_plain(cx, open, done),
        open || !any_member_requires_branch(done),
        fields_are_sources(cx, fully, open, rest),
        base_ends(cx, open, input.base),
        accepts(cx, open, next),
    ensures
        exists|depth: nat|
            ended(
                cx,
                #[trigger] emit_composite_members(cx, depth, state, input, done, rest, next),
            ),
    decreases rest, 0int,
{
    reveal(emit_composite_members);
    reveal(emit_composite_base);
    reveal(emit);
    match rest {
        List::Nil => {
            let composite = CompositeExpression { members: done, ..input };
            lemma_base_ends(cx, open, state, composite, next);
            let depth = choose|depth: nat| ended(
                cx,
                #[trigger] emit_composite_base(cx, depth, state, composite, next),
            );
            assert(ended(cx, emit_composite_members(cx, depth, state, input, done, rest, next)));
        },
        List::Cons(member, others) => {
            lemma_first_field(cx, fully, open, member, copied(&*others));
            let others = copied(&*others);
            match &member.expression {
                None => {
                    let more = appended(done, one(member));
                    assert(fields_are_plain(cx, open, one(member)) && !any_member_requires_branch(
                        one(member),
                    )) by {
                        reveal_with_fuel(any_member_requires_branch, 2);
                    }
                    lemma_members_end(cx, fully, open, state, input, more, others, next);
                    let depth = choose|depth: nat| ended(
                        cx,
                        #[trigger] emit_composite_members(
                            cx,
                            depth,
                            state,
                            input,
                            more,
                            others,
                            next,
                        ),
                    );
                    assert(ended(
                        cx,
                        emit_composite_members(cx, depth, state, input, done, rest, next),
                    ));
                },
                Some(value) => {
                    let value = copied(value);
                    let frame = OperandFrame::CompositeMember {
                        input: Rc::new(input),
                        done,
                        member,
                        rest: others,
                    };
                    let k = Continuation::Operand(frame, Rc::new(next));
                    assert forall|other: State, bound: Expression|
        is_regular_state(cx, other)
            && rests(cx, open, bound) implies #[trigger] resumes(cx, other, k, bound) by {
                        lemma_member_ends(cx, fully, open, other,
                            input,
                            done,
                            member,
                            others,
                            next,
                            bound,
                        );
                    }
                    expressions_end(cx, fully, open, state, value, k);
                    let depth = choose|depth: nat| ended(
                        cx,
                        #[trigger] emit(cx, depth, state, value, k),
                    );
                    assert(ended(
                        cx,
                        emit_composite_members(cx, depth, state, input, done, rest, next),
                    ));
                },
            }
        },
    }
}

pub proof fn lemma_first_field(
    cx: Context,
    fully: bool,
    open: bool,
    first: FieldInitializer,
    rest: List<FieldInitializer>,
)
    requires
        fields_are_sources(cx, fully, open, List::Cons(first, Rc::new(rest))),
    ensures
        first.expression matches Some(value) ==> is_source(cx, fully, open, value),
        fields_are_sources(cx, fully, open, rest),
{
    reveal(fields_are_regular);
    reveal(option_is_regular);
    reveal(is_regular);
    reveal(fields_are_plain);
    reveal(option_is_plain);
    reveal(is_plain);
    if first.expression is Some {
        assert(option_is_source(cx, fully, open, first.expression));
    }
}

pub proof fn lemma_member_ends(
    cx: Context,
    fully: bool,
    open: bool,
    state: State,
    input: CompositeExpression,
    done: List<FieldInitializer>,
    member: FieldInitializer,
    rest: List<FieldInitializer>,
    next: Continuation,
    value: Expression,
)
    requires
        fully ==> plain_ends(cx),
        open ==> fully,
        is_regular_state(cx, state),
        all_rest(cx, open, input.const_arguments),
        fields_are_plain(cx, open, done),
        open || !any_member_requires_branch(done),
        fields_are_sources(cx, fully, open, rest),
        base_ends(cx, open, input.base),
        accepts(cx, open, next),
        rests(cx, open, value),
    ensures
        resumes(
            cx,
            state,
            Continuation::Operand(
                OperandFrame::CompositeMember { input: Rc::new(input), done, member, rest },
                Rc::new(next),
            ),
            value,
        ),
    decreases rest, 1int,
{
    reveal(resume_operand);
    reveal(emit_composite_members);
    reveal(materialize_strict_prefix_expression);
    let frame = OperandFrame::CompositeMember { input: Rc::new(input), done, member, rest };
    lemma_materialize(cx, open, state, value);
    match materialize_strict_prefix_expression(cx, state, value) {
        Err(_) => {
            lemma_operand(cx, 0, state, frame, next, value);
        },
        Ok((after, (bound, _))) => {
            let field = FieldInitializer { expression: Some(bound), ..member };
            let more = appended(done, one(field));
            assert(fields_are_plain(cx, open, one(field)) && !any_member_requires_branch(
                one(field),
            )) by {
                reveal_with_fuel(any_member_requires_branch, 2);
            }
            lemma_members_end(cx, fully, open, after, input, more, rest, next);
            let depth = choose|depth: nat| ended(
                cx,
                #[trigger] emit_composite_members(cx, depth, after, input, more, rest, next),
            );
            lemma_operand(cx, depth, state, frame, next, value);
        },
    }
}

/* All expressions */

/// Lowering plain expressions ends if going on with their values does.
pub proof fn plain_expressions_end(cx: Context)
    ensures
        plain_ends(cx),
{
    reveal(plain_ends);
    assert forall|state: State, expression: Expression, continuation: Continuation|
        is_regular_state(cx, state) && is_plain(cx, false, expression) && accepts(
            cx,
            false,
            continuation,
        ) implies #[trigger] emits(cx, state, expression, continuation) by {
        lemma_regular(cx, false, expression);
        expressions_end(cx, false, false, state, expression, continuation);
    }
}

/// Lowering a regular expression ends if going on with its value does.
pub proof fn regular_expressions_end(
    cx: Context,
    state: State,
    expression: Expression,
    continuation: Continuation,
)
    requires
        is_regular_state(cx, state),
        is_regular(cx, true, expression),
        accepts(cx, true, continuation),
    ensures
        emits(cx, state, expression, continuation),
{
    plain_expressions_end(cx);
    expressions_end(cx, true, true, state, expression, continuation);
}

} // verus!
