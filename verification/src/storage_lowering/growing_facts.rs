//! What lowering expressions and types does to the names, as facts at hand.
use crate::ast::{CallExpression, DynamicOpExpression, Expression, IntrinsicExpression, Type};
use crate::names::Texts;
use crate::state::State;
use crate::storage_lowering::growing::{
    gives_grown, grown, lemma_call, lemma_dynamic, lemma_intrinsic,
    lemma_materialize_strict_prefix_expression, lemma_source, lemma_type,
};
use crate::storage_lowering::reconstruct::{
    reconstruct_call, reconstruct_dynamic_op, reconstruct_expression, reconstruct_intrinsic,
    reconstruct_type,
};
use crate::storage_lowering::vectors::materialize_strict_prefix_expression;
use crate::storage_lowering::visitor::Context;
use vstd::prelude::*;

verus! {

/// Lowering expressions and types only adds names.
pub proof fn lemma_facts(base: Texts, cx: Context)
    ensures
        forall|state: State, expression: Expression|
            grown(base, state.names) ==> gives_grown(
                base,
                #[trigger] reconstruct_expression(cx, state, expression),
            ),
        forall|state: State, input: CallExpression|
            grown(base, state.names) ==> gives_grown(
                base,
                #[trigger] reconstruct_call(cx, state, input),
            ),
        forall|state: State, input: IntrinsicExpression|
            grown(base, state.names) ==> gives_grown(
                base,
                #[trigger] reconstruct_intrinsic(cx, state, input),
            ),
        forall|state: State, input: DynamicOpExpression|
            grown(base, state.names) ==> gives_grown(
                base,
                #[trigger] reconstruct_dynamic_op(cx, state, input),
            ),
        forall|state: State, type_: Type|
            grown(base, state.names) ==> gives_grown(
                base,
                #[trigger] reconstruct_type(cx, state, type_),
            ),
        forall|state: State, value: Expression|
            grown(base, state.names) ==> gives_grown(
                base,
                #[trigger] materialize_strict_prefix_expression(cx, state, value),
            ),
{
    assert forall|state: State, expression: Expression| grown(
        base,
        state.names,
    ) implies gives_grown(
        base,
        #[trigger] reconstruct_expression(cx, state, expression),
    ) by {
        lemma_source(base, cx, state, expression);
    }
    assert forall|state: State, input: CallExpression| grown(base, state.names) implies gives_grown(
        base,
        #[trigger] reconstruct_call(cx, state, input),
    ) by {
        lemma_call(base, cx, state, input);
    }
    assert forall|state: State, input: IntrinsicExpression| grown(
        base,
        state.names,
    ) implies gives_grown(
        base,
        #[trigger] reconstruct_intrinsic(cx, state, input),
    ) by {
        lemma_intrinsic(base, cx, state, input);
    }
    assert forall|state: State, input: DynamicOpExpression| grown(
        base,
        state.names,
    ) implies gives_grown(
        base,
        #[trigger] reconstruct_dynamic_op(cx, state, input),
    ) by {
        lemma_dynamic(base, cx, state, input);
    }
    assert forall|state: State, type_: Type| grown(base, state.names) implies gives_grown(
        base,
        #[trigger] reconstruct_type(cx, state, type_),
    ) by {
        lemma_type(base, cx, state, type_);
    }
    assert forall|state: State, value: Expression| grown(base, state.names) implies gives_grown(
        base,
        #[trigger] materialize_strict_prefix_expression(cx, state, value),
    ) by {
        lemma_materialize_strict_prefix_expression(base, cx, state, value);
    }
}

} // verus!
