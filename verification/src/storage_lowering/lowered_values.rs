//! What expressions are lowered to holds no storage.
use crate::ast::{
    CallExpression, CompositeExpression, DynamicOpExpression, DynamicOpKind, Expression,
    FieldInitializer, Identifier, Intrinsic, IntrinsicExpression, Path, Span, Statement, Symbol,
    Type,
};
use crate::list::{copied, one, List};
use crate::names::text_of;
use crate::state::{struct_in, with_id, with_suffixed, with_type, State, StructSymbol};
use crate::storage_lowering::builders::{
    bind_value, fresh_identifier, generate_vector_mapping_exprs, get_vector_len_expr,
};
use crate::storage_lowering::dynamic::{
    dynamic_len, finish_dynamic_operands, finish_dynamic_read, finish_dynamic_vector_get,
    finish_dynamic_vector_len, get_dynamic, read_dynamic, target_network, vector_of_member, Target,
};
use crate::storage_lowering::emit::takes_vector;
use crate::storage_lowering::lowered::{
    are_lowered, avoids_storage, behind_mapping_are_lowered, fields_are_lowered, group_lowered,
    is_lowered, kind_is_lowered, option_is_lowered, statement_is_lowered, statements_are_lowered,
};
use crate::storage_lowering::reconstruct::{
    only_vector, reconstruct_call, reconstruct_composite_init, reconstruct_dynamic_op,
    reconstruct_expression, reconstruct_intrinsic, reconstruct_list, reconstruct_members,
    reconstruct_moded_types, reconstruct_optional, reconstruct_other_intrinsic, reconstruct_target,
    reconstruct_type, reconstruct_type_parameters, reconstruct_vector_get, reconstruct_vector_push,
    reconstruct_vector_set, reconstruct_vector_swap_remove,
};
use crate::storage_lowering::vectors::{
    bind_once, bind_vector, clear_vector, finish_get, finish_once, finish_push, finish_set,
    finish_strict, finish_swap_remove, get_value, materialize_strict_prefix_expression, once_plan,
    pop_value, push_value, set_value, swap_remove_value, vector_argument, vector_len, BoundVector,
    Lowered,
};
use crate::storage_lowering::visitor::{expression_type_for_materialization, Context, Step};
use crate::storage_lowering::zero::{read_storage, reconstruct_path, zero, zero_members, zero_value};
use crate::units::Member;
use vstd::prelude::*;

verus! {

broadcast use group_lowered;

/// Whether an expression and the statements that run before it are lowered.
pub open spec fn both_are_lowered(cx: Context, lowered: Lowered) -> bool {
    is_lowered(cx, lowered.0) && statements_are_lowered(cx, lowered.1)
}

/// Whether what `step` gives, if anything, is lowered.
pub open spec fn gives_lowered(cx: Context, step: Step<Lowered>) -> bool {
    step is Ok ==> both_are_lowered(cx, step->Ok_0.1)
}

/* Zero values and names */

proof fn lemma_zero_value(cx: Context, nesting: List<StructSymbol>, state: State, type_: Type)
    ensures
        zero_value(cx, nesting, state, type_) matches Ok((_, value)) ==> is_lowered(cx, value),
    decreases nesting, 0int, type_,
{
    reveal(zero_value);
    reveal(zero_members);
    match type_ {
        Type::Array(array) => {
            lemma_zero_value(
                cx,
                nesting,
                with_id(state),
                copied(&array.element_type),
            );
        },
        Type::Composite(composite) => {
            if let List::Cons(_, rest) = nesting {
                if let Some(location) = copied(&*composite.path).spec_try_global_location() {
                    if let Some(members) = struct_in(
                        cx.table.structs,
                        cx.program,
                        location,
                    ) {
                        lemma_zero_members(
                            cx,
                            copied(&*rest),
                            with_id(state),
                            members,
                        );
                    }
                }
            }
        },
        _ => {},
    }
}

proof fn lemma_zero_members(
    cx: Context,
    nesting: List<StructSymbol>,
    state: State,
    members: List<Member>,
)
    ensures
        zero_members(cx, nesting, state, members) matches Ok((_, fields)) ==> fields_are_lowered(
            cx,
            fields,
        ),
    decreases nesting, 1int, members,
{
    reveal(zero_members);
    reveal(zero_value);
    match members {
        List::Nil => {},
        List::Cons(member, rest) => {
            let started = with_id(state);
            lemma_zero_value(cx, nesting, started, copied(&member.type_));
            if let Ok((state, _)) = zero_value(cx, nesting, started, copied(&member.type_)) {
                lemma_zero_members(cx, nesting, with_id(state), copied(&*rest));
            }
        },
    }
}

proof fn lemma_zero(cx: Context, state: State, type_: Type)
    ensures
        zero(cx, state, type_) matches Ok((_, value)) ==> is_lowered(cx, value),
{
    reveal(zero);
    lemma_zero_value(cx, cx.table.structs, state, type_);
}

/* Vectors */

proof fn lemma_mappings(cx: Context, state: State, path: Path)
    ensures
        ({
            let (_, (values, length)) = generate_vector_mapping_exprs(cx, state, path);
            values is Path && length is Path
        }),
{
    reveal(generate_vector_mapping_exprs);
}

proof fn lemma_vector_len_expr(cx: Context, state: State, length: Expression, span: Span)
    requires
        length is Path,
    ensures
        is_lowered(cx, get_vector_len_expr(state, length, span).1),
{
    reveal(get_vector_len_expr);
}

proof fn lemma_bind_value(
    cx: Context,
    state: State,
    stem: Seq<char>,
    value: Expression,
    type_: Type,
)
    requires
        is_lowered(cx, value),
    ensures
        ({
            let (_, (variable, definition)) = bind_value(state, stem, value, type_);
            is_lowered(cx, variable) && statements_are_lowered(
                cx,
                one(definition),
            )
        }),
{
    reveal(bind_value);
}

pub proof fn lemma_materialize(cx: Context, state: State, expression: Expression)
    requires
        is_lowered(cx, expression),
    ensures
        gives_lowered(cx, materialize_strict_prefix_expression(cx, state, expression)),
{
    reveal(materialize_strict_prefix_expression);
    if let Some(type_) = expression_type_for_materialization(
        cx,
        state.types,
        expression,
    ) {
        lemma_bind_value(cx, state, "$eval"@, expression, type_);
    }
}

spec fn vector_is_lowered(cx: Context, vector: BoundVector) -> bool {
    &&& vector.values is Path
    &&& vector.length is Path
    &&& is_lowered(cx, vector.len_var)
    &&& statement_is_lowered(cx, vector.len_stmt)
}

proof fn lemma_bind_vector(cx: Context, state: State, path: Path, span: Span)
    ensures
        vector_is_lowered(cx, bind_vector(cx, state, path, span).1),
{
    reveal(bind_vector);
    lemma_mappings(cx, state, path);
    let (state, (_, length)) = generate_vector_mapping_exprs(cx, state, path);
    let (state, _) = fresh_identifier(state, "$len_var"@);
    lemma_vector_len_expr(cx, state, length, span);
}

proof fn lemma_push(cx: Context, state: State, path: Path, value: Expression, span: Span)
    requires
        is_lowered(cx, value),
    ensures
        both_are_lowered(cx, push_value(cx, state, path, value, span).1),
{
    reveal(push_value);
    lemma_bind_vector(cx, state, path, span);
}

proof fn lemma_len(cx: Context, state: State, path: Path, span: Span)
    ensures
        both_are_lowered(cx, vector_len(cx, state, path, span).1),
{
    reveal(vector_len);
    lemma_mappings(cx, state, path);
    let (state, (_, length)) = generate_vector_mapping_exprs(cx, state, path);
    lemma_vector_len_expr(cx, state, length, span);
}

proof fn lemma_zeros(cx: Context)
    ensures
        forall|state: State, type_: Type|
            (#[trigger] zero(cx, state, type_)) matches Ok((_, value)) ==> is_lowered(cx, value),
{
    assert forall|state: State, type_: Type|
        (#[trigger] zero(cx, state, type_)) matches Ok((_, value)) ==> is_lowered(cx, value) by {
        lemma_zero(cx, state, type_);
    }
}

proof fn lemma_pop(cx: Context, state: State, path: Path, element: Type, span: Span)
    ensures
        gives_lowered(cx, pop_value(cx, state, path, element, span)),
{
    reveal(pop_value);
    lemma_bind_vector(cx, state, path, span);
    lemma_zeros(cx);
}

proof fn lemma_get(
    cx: Context,
    state: State,
    path: Path,
    element: Type,
    index: Expression,
    span: Span,
)
    requires
        is_lowered(cx, index),
    ensures
        gives_lowered(cx, get_value(cx, state, path, element, index, span)),
{
    reveal(get_value);
    lemma_bind_vector(cx, state, path, span);
    lemma_zeros(cx);
}

proof fn lemma_set(
    cx: Context,
    state: State,
    path: Path,
    index: Expression,
    value: Expression,
    span: Span,
)
    requires
        is_lowered(cx, index),
        is_lowered(cx, value),
    ensures
        both_are_lowered(cx, set_value(cx, state, path, index, value, span).1),
{
    reveal(set_value);
    lemma_bind_vector(cx, state, path, span);
}

proof fn lemma_clear(cx: Context, state: State, path: Path, span: Span)
    ensures
        both_are_lowered(cx, clear_vector(cx, state, path, span).1),
{
    reveal(clear_vector);
    lemma_mappings(cx, state, path);
}

proof fn lemma_swap_remove(cx: Context, state: State, path: Path, index: Expression, span: Span)
    requires
        is_lowered(cx, index),
    ensures
        both_are_lowered(cx, swap_remove_value(cx, state, path, index, span).1),
{
    reveal(swap_remove_value);
    lemma_bind_vector(cx, state, path, span);
}

/* Operands */

proof fn lemma_once(
    cx: Context,
    before: State,
    argument: Expression,
    stem: Seq<char>,
    lowered: Step<Lowered>,
)
    requires
        gives_lowered(cx, lowered),
    ensures
        gives_lowered(cx, finish_once(before, argument, stem, lowered)),
{
    reveal(finish_once);
    reveal(bind_once);
    if let Ok((state, (value, _))) = lowered {
        if let Ok(plan) = once_plan(before, argument) {
            let state = with_type(state, value.spec_id(), plan.0);
            lemma_bind_value(cx, state, stem, value, plan.0);
        }
    }
}

proof fn lemma_strict(cx: Context, lowered: Step<Lowered>)
    requires
        gives_lowered(cx, lowered),
    ensures
        gives_lowered(cx, finish_strict(cx, lowered)),
{
    reveal(finish_strict);
    if let Ok((state, (value, _))) = lowered {
        lemma_materialize(cx, state, value);
    }
}

proof fn lemma_finish_push(
    cx: Context,
    before: State,
    vector: Expression,
    value: Expression,
    lowered: Step<Lowered>,
    span: Span,
)
    requires
        gives_lowered(cx, lowered),
    ensures
        gives_lowered(cx, finish_push(cx, before, vector, value, lowered, span)),
{
    reveal(finish_push);
    lemma_once(cx, before, value, "$push_value"@, lowered);
    if let Some((path, _)) = vector_argument(before, vector) {
        if let Ok((state, (value, _))) = finish_once(before, value, "$push_value"@, lowered) {
            lemma_push(cx, state, path, value, span);
        }
    }
}

proof fn lemma_finish_get(
    cx: Context,
    before: State,
    vector: Expression,
    index: Expression,
    lowered: Step<Lowered>,
    span: Span,
)
    requires
        gives_lowered(cx, lowered),
    ensures
        gives_lowered(cx, finish_get(cx, before, vector, index, lowered, span)),
{
    reveal(finish_get);
    lemma_once(cx, before, index, "$index"@, lowered);
    if let Some((path, element)) = vector_argument(
        before,
        vector,
    ) {
        if let Ok((state, (index, _))) = finish_once(before, index, "$index"@, lowered) {
            lemma_get(cx, state, path, element, index, span);
        }
    }
}

proof fn lemma_finish_set(
    cx: Context,
    before: State,
    vector: Expression,
    index: Lowered,
    value: Step<Lowered>,
    span: Span,
)
    requires
        both_are_lowered(cx, index),
        gives_lowered(cx, value),
    ensures
        gives_lowered(cx, finish_set(cx, before, vector, index, value, span)),
{
    reveal(finish_set);
    if let Some((path, _)) = vector_argument(before, vector) {
        if let Ok((state, (value, _))) = value {
            lemma_set(cx, state, path, index.0, value, span);
        }
    }
}

proof fn lemma_finish_swap_remove(
    cx: Context,
    before: State,
    vector: Expression,
    index: Step<Lowered>,
    span: Span,
)
    requires
        gives_lowered(cx, index),
    ensures
        gives_lowered(cx, finish_swap_remove(cx, before, vector, index, span)),
{
    reveal(finish_swap_remove);
    if let Some((path, _)) = vector_argument(before, vector) {
        if let Ok((state, (index, _))) = index {
            lemma_swap_remove(cx, state, path, index, span);
        }
    }
}

/* Variables */

proof fn lemma_path(cx: Context, state: State, path: Path)
    ensures
        reconstruct_path(cx, state, path) matches Ok((_, expression)) ==> is_lowered(
            cx,
            expression,
        ),
{
    reveal(reconstruct_path);
    reveal(read_storage);
    lemma_zeros(cx);
}

/* Dynamic access */

spec fn target_is_lowered(cx: Context, target: Target) -> bool {
    &&& is_lowered(cx, target.program)
    &&& option_is_lowered(cx, target.network)
    &&& statements_are_lowered(cx, target.statements)
}

proof fn lemma_network(cx: Context, state: State, target: Target)
    requires
        target_is_lowered(cx, target),
    ensures
        is_lowered(cx, target_network(state, target).1),
{
    match target.network {
        None => {},
        Some(network) => {
            assert(option_is_lowered(cx, Some(network)));
        },
    }
}

proof fn lemma_dynamic_len(
    cx: Context,
    state: State,
    program: Expression,
    network: Expression,
    mapping: Symbol,
    span: Span,
)
    requires
        is_lowered(cx, program),
        is_lowered(cx, network),
    ensures
        is_lowered(cx, dynamic_len(state, program, network, mapping, span).1),
{
    reveal(dynamic_len);
}

proof fn lemma_dynamic_read(
    cx: Context,
    state: State,
    target: Target,
    interface: Type,
    storage: Identifier,
    span: Span,
)
    requires
        target_is_lowered(cx, target),
    ensures
        gives_lowered(cx, finish_dynamic_read(cx, state, target, interface, storage, span)),
{
    reveal(finish_dynamic_read);
    reveal(read_dynamic);
    lemma_network(cx, state, target);
    lemma_zeros(cx);
}

proof fn lemma_dynamic_get(
    cx: Context,
    before: State,
    target: Target,
    network: Expression,
    member: Identifier,
    element: Type,
    index: Expression,
    lowered: Step<Lowered>,
    span: Span,
)
    requires
        target_is_lowered(cx, target),
        is_lowered(cx, network),
        gives_lowered(cx, lowered),
    ensures
        gives_lowered(
            cx,
            finish_dynamic_vector_get(
                cx,
                before,
                target,
                network,
                member,
                element,
                index,
                lowered,
                span,
            ),
        ),
{
    reveal(finish_dynamic_vector_get);
    reveal(get_dynamic);
    reveal(dynamic_len);
    lemma_once(cx, before, index, "$index"@, lowered);
    lemma_zeros(cx);
}

proof fn lemma_dynamic_vector_len(
    cx: Context,
    state: State,
    target: Target,
    member: Identifier,
    span: Span,
)
    requires
        target_is_lowered(cx, target),
    ensures
        both_are_lowered(cx, finish_dynamic_vector_len(state, target, member, span).1),
{
    reveal(finish_dynamic_vector_len);
    lemma_network(cx, state, target);
    let (state, network) = target_network(state, target);
    let (state, length) = with_suffixed(state, member.name, "__len__"@);
    lemma_dynamic_len(cx, state, target.program, network, length, span);
}

proof fn lemma_dynamic_operands(
    cx: Context,
    input: DynamicOpExpression,
    target: Target,
    lowered: Step<(List<Expression>, List<Statement>)>,
)
    requires
        avoids_storage(cx, input),
        target_is_lowered(cx, target),
        lowered matches Ok((_, (arguments, statements))) ==> are_lowered(cx, arguments)
            && statements_are_lowered(cx, statements),
    ensures
        gives_lowered(cx, finish_dynamic_operands(input, target, lowered)),
{
    reveal(finish_dynamic_operands);
    reveal(kind_is_lowered);
    reveal(are_lowered);
}

/* Expressions */

/// What an expression is lowered to holds no storage, and neither do the statements that run
/// before it.
pub proof fn expressions_are_lowered(cx: Context, state: State, expression: Expression)
    ensures
        gives_lowered(cx, reconstruct_expression(cx, state, expression)),
    decreases expression, 0int,
{
    reveal(reconstruct_expression);
    reveal(reconstruct_list);
    reveal(reconstruct_call);
    reveal(reconstruct_composite_init);
    reveal(reconstruct_dynamic_op);
    reveal(reconstruct_intrinsic);
    match expression {
        Expression::Array(input) => {
            lemma_list(cx, state, copied(&input.elements));
        },
        Expression::ArrayAccess(input) => {
            expressions_are_lowered(cx, state, copied(&input.array));
            if let Ok((state, _)) = reconstruct_expression(cx, state, copied(&input.array)) {
                expressions_are_lowered(cx, state, copied(&input.index));
            }
        },
        Expression::Binary(input) => {
            expressions_are_lowered(cx, state, copied(&input.left));
            if let Ok((state, _)) = reconstruct_expression(cx, state, copied(&input.left)) {
                expressions_are_lowered(cx, state, copied(&input.right));
            }
        },
        Expression::Call(input) => {
            lemma_call(cx, state, copied(&*input));
        },
        Expression::Cast(input) => {
            expressions_are_lowered(cx, state, copied(&input.expression));
        },
        Expression::Composite(input) => {
            lemma_composite(cx, state, copied(&*input));
        },
        Expression::DynamicOp(input) => {
            lemma_dynamic(cx, state, copied(&*input));
        },
        Expression::Intrinsic(input) => {
            lemma_intrinsic(cx, state, copied(&*input));
        },
        Expression::MemberAccess(input) => {
            expressions_are_lowered(cx, state, copied(&input.inner));
        },
        Expression::Path(path) => {
            lemma_path(cx, state, copied(&*path));
        },
        Expression::Repeat(input) => {
            expressions_are_lowered(cx, state, copied(&input.expr));
            if let Ok((state, _)) = reconstruct_expression(cx, state, copied(&input.expr)) {
                expressions_are_lowered(cx, state, copied(&input.count));
            }
        },
        Expression::Ternary(input) => {
            expressions_are_lowered(cx, state, copied(&input.condition));
            if let Ok((state, _)) = reconstruct_expression(cx, state, copied(&input.condition)) {
                expressions_are_lowered(cx, state, copied(&input.if_true));
                if let Ok((state, _)) = reconstruct_expression(cx, state, copied(&input.if_true)) {
                    expressions_are_lowered(cx, state, copied(&input.if_false));
                }
            }
        },
        Expression::Tuple(input) => {
            lemma_list(cx, state, copied(&input.elements));
        },
        Expression::TupleAccess(input) => {
            expressions_are_lowered(cx, state, copied(&input.tuple));
        },
        Expression::Unary(input) => {
            expressions_are_lowered(cx, state, copied(&input.receiver));
        },
        _ => {
            assert(is_lowered(cx, expression)) by {
                reveal(is_lowered);
            }
        },
    }
}

proof fn lemma_list(cx: Context, state: State, expressions: List<Expression>)
    ensures
        reconstruct_list(cx, state, expressions) matches Ok((_, (lowered, statements)))
            ==> are_lowered(cx, lowered) && statements_are_lowered(cx, statements),
    decreases expressions, 0int,
{
    reveal(reconstruct_list);
    reveal(reconstruct_expression);
    match expressions {
        List::Nil => {},
        List::Cons(first, rest) => {
            expressions_are_lowered(cx, state, first);
            if let Ok((state, _)) = reconstruct_expression(cx, state, first) {
                lemma_list(cx, state, copied(&*rest));
            }
        },
    }
}

proof fn lemma_members(cx: Context, state: State, members: List<FieldInitializer>)
    ensures
        reconstruct_members(cx, state, members) matches Ok((_, (lowered, statements)))
            ==> fields_are_lowered(cx, lowered) && statements_are_lowered(cx, statements),
    decreases members, 0int,
{
    reveal(reconstruct_members);
    reveal(reconstruct_expression);
    match members {
        List::Nil => {},
        List::Cons(first, rest) => {
            if let Some(value) = &first.expression {
                expressions_are_lowered(cx, state, copied(value));
                if let Ok((state, _)) = reconstruct_expression(cx, state, copied(value)) {
                    lemma_members(cx, state, copied(&*rest));
                }
            }
        },
    }
}

pub proof fn lemma_call(cx: Context, state: State, input: CallExpression)
    ensures
        gives_lowered(cx, reconstruct_call(cx, state, input)),
    decreases input, 0int,
{
    reveal(reconstruct_call);
    reveal(reconstruct_list);
    lemma_list(cx, state, input.arguments);
}

proof fn lemma_optional(cx: Context, state: State, expression: Option<Expression>)
    ensures
        reconstruct_optional(cx, state, expression) matches Ok((_, (lowered, statements)))
            ==> option_is_lowered(cx, lowered) && statements_are_lowered(cx, statements),
    decreases expression, 1int,
{
    reveal(reconstruct_optional);
    reveal(reconstruct_expression);
    if let Some(expression) = expression {
        expressions_are_lowered(cx, state, expression);
    }
}

proof fn lemma_composite(cx: Context, state: State, input: CompositeExpression)
    ensures
        gives_lowered(cx, reconstruct_composite_init(cx, state, input)),
    decreases input, 0int,
{
    reveal(reconstruct_composite_init);
    reveal(reconstruct_list);
    reveal(reconstruct_members);
    reveal(reconstruct_optional);
    lemma_list(cx, state, input.const_arguments);
    if let Ok((state, _)) = reconstruct_list(cx, state, input.const_arguments) {
        lemma_members(cx, state, input.members);
        if let Ok((state, _)) = reconstruct_members(cx, state, input.members) {
            lemma_optional(cx, state, input.base);
        }
    }
}

proof fn lemma_target(cx: Context, state: State, input: DynamicOpExpression)
    ensures
        reconstruct_target(cx, state, input) matches Ok((_, target)) ==> target_is_lowered(
            cx,
            target,
        ),
    decreases input, 0int,
{
    reveal(reconstruct_target);
    reveal(reconstruct_expression);
    expressions_are_lowered(cx, state, input.target_program);
    if let Ok((state, _)) = reconstruct_expression(cx, state, input.target_program) {
        if let Some(network) = input.network {
            expressions_are_lowered(cx, state, network);
        }
    }
}

pub proof fn lemma_dynamic(cx: Context, state: State, input: DynamicOpExpression)
    ensures
        gives_lowered(cx, reconstruct_dynamic_op(cx, state, input)),
    decreases input, 1int,
{
    reveal(reconstruct_dynamic_op);
    reveal(reconstruct_target);
    reveal(reconstruct_expression);
    reveal(reconstruct_list);
    lemma_target(cx, state, input);
    if let Ok((state, target)) = reconstruct_target(cx, state, input) {
        match input.kind {
            DynamicOpKind::Read { storage } => {
                lemma_dynamic_read(cx, state, target, input.interface, storage, input.span);
            },
            DynamicOpKind::Op { member, op, arguments } => {
                match vector_of_member(cx, input.interface, member) {
                    Err(_) => {},
                    Ok(Some(element)) => {
                        if text_of(state.names, op.name) == "get"@ {
                            if let List::Cons(index, _) = arguments {
                                lemma_network(cx, state, target);
                                let (state, network) = target_network(state, target);
                                expressions_are_lowered(cx, state, index);
                                lemma_dynamic_get(
                                    cx,
                                    state,
                                    target,
                                    network,
                                    member,
                                    element,
                                    index,
                                    reconstruct_expression(cx, state, index),
                                    input.span,
                                );
                            }
                        } else {
                            lemma_dynamic_vector_len(cx, state, target, member, input.span);
                        }
                    },
                    Ok(None) => {
                        lemma_list(cx, state, arguments);
                        let lowered = reconstruct_list(cx, state, arguments);
                        lemma_dynamic_operands(cx, input, target, lowered);
                    },
                }
            },
            DynamicOpKind::Call { function: _, arguments } => {
                lemma_list(cx, state, arguments);
                let lowered = reconstruct_list(cx, state, arguments);
                lemma_dynamic_operands(cx, input, target, lowered);
            },
        }
    }
}

/// The statements that a type needs to run hold no storage.
pub proof fn lemma_type(cx: Context, state: State, type_: Type)
    ensures
        reconstruct_type(cx, state, type_) matches Ok((_, (_, statements)))
            ==> statements_are_lowered(cx, statements),
{
    reveal(reconstruct_type);
    reveal(reconstruct_expression);
    reveal(reconstruct_list);
    match type_ {
        Type::Array(array) => {
            expressions_are_lowered(cx, state, copied(&array.length));
        },
        Type::Composite(composite) => {
            lemma_list(cx, state, copied(&composite.const_arguments));
        },
        _ => {},
    }
}

/* Built-in operations */

proof fn lemma_vector_push(cx: Context, state: State, input: IntrinsicExpression)
    ensures
        gives_lowered(cx, reconstruct_vector_push(cx, state, input)),
    decreases input, 0int,
{
    reveal(reconstruct_vector_push);
    reveal(reconstruct_expression);
    if let List::Cons(vector, rest) = &input.arguments {
        if let List::Cons(value, _) = &**rest {
            let value = copied(value);
            let lowered = reconstruct_expression(cx, state, value);
            expressions_are_lowered(cx, state, value);
            lemma_finish_push(cx, state, copied(vector), value, lowered, input.span);
        }
    }
}

proof fn lemma_vector_get(cx: Context, state: State, input: IntrinsicExpression)
    ensures
        gives_lowered(cx, reconstruct_vector_get(cx, state, input)),
    decreases input, 0int,
{
    reveal(reconstruct_vector_get);
    reveal(reconstruct_expression);
    if let List::Cons(vector, rest) = &input.arguments {
        if let List::Cons(index, _) = &**rest {
            let index = copied(index);
            let lowered = reconstruct_expression(cx, state, index);
            expressions_are_lowered(cx, state, index);
            lemma_finish_get(cx, state, copied(vector), index, lowered, input.span);
        }
    }
}

proof fn lemma_vector_set(cx: Context, state: State, input: IntrinsicExpression)
    ensures
        gives_lowered(cx, reconstruct_vector_set(cx, state, input)),
    decreases input, 0int,
{
    reveal(reconstruct_vector_set);
    reveal(reconstruct_expression);
    if let List::Cons(vector, rest) = &input.arguments {
        if let List::Cons(index, rest) = &**rest {
            if let List::Cons(value, _) = &**rest {
                let index = copied(index);
                let value = copied(value);
                let first = reconstruct_expression(cx, state, index);
                expressions_are_lowered(cx, state, index);
                lemma_strict(cx, first);
                if let Ok((after, bound)) = finish_strict(cx, first) {
                    let second = reconstruct_expression(cx, after, value);
                    expressions_are_lowered(cx, after, value);
                    lemma_strict(cx, second);
                    let second = finish_strict(cx, second);
                    lemma_finish_set(cx, state, copied(vector), bound, second, input.span);
                }
            }
        }
    }
}

proof fn lemma_vector_swap_remove(cx: Context, state: State, input: IntrinsicExpression)
    ensures
        gives_lowered(cx, reconstruct_vector_swap_remove(cx, state, input)),
    decreases input, 0int,
{
    reveal(reconstruct_vector_swap_remove);
    reveal(reconstruct_expression);
    if let List::Cons(vector, rest) = &input.arguments {
        if let List::Cons(index, _) = &**rest {
            let index = copied(index);
            let lowered = reconstruct_expression(cx, state, index);
            expressions_are_lowered(cx, state, index);
            lemma_strict(cx, lowered);
            let lowered = finish_strict(cx, lowered);
            lemma_finish_swap_remove(cx, state, copied(vector), lowered, input.span);
        }
    }
}

proof fn lemma_other(cx: Context, state: State, input: IntrinsicExpression)
    requires
        !takes_vector(input.op),
    ensures
        gives_lowered(cx, reconstruct_other_intrinsic(cx, state, input)),
    decreases input, 0int,
{
    reveal(reconstruct_other_intrinsic);
    reveal(reconstruct_type_parameters);
    reveal(reconstruct_moded_types);
    reveal(reconstruct_list);
    if let Ok((state, _)) = reconstruct_type_parameters(cx, state, input.type_parameters) {
        if let Ok((state, _)) = reconstruct_moded_types(cx, state, input.input_types) {
            if let Ok((state, _)) = reconstruct_moded_types(cx, state, input.return_types) {
                lemma_list(cx, state, input.arguments);
                if let Ok((_, (arguments, _))) = reconstruct_list(cx, state, input.arguments) {
                    lemma_behind_mapping(cx, arguments);
                }
            }
        }
    }
}

proof fn lemma_behind_mapping(cx: Context, arguments: List<Expression>)
    requires
        are_lowered(cx, arguments),
    ensures
        behind_mapping_are_lowered(cx, arguments),
{
    reveal(behind_mapping_are_lowered);
    reveal(are_lowered);
    reveal(is_lowered);
}

pub proof fn lemma_intrinsic(cx: Context, state: State, input: IntrinsicExpression)
    ensures
        gives_lowered(cx, reconstruct_intrinsic(cx, state, input)),
    decreases input, 1int,
{
    reveal(reconstruct_intrinsic);
    reveal(reconstruct_vector_push);
    reveal(reconstruct_vector_get);
    reveal(reconstruct_vector_set);
    reveal(reconstruct_vector_swap_remove);
    reveal(reconstruct_other_intrinsic);
    match input.op {
        Intrinsic::VectorPush => {
            lemma_vector_push(cx, state, input);
        },
        Intrinsic::VectorLen => {
            if let Some((path, _)) = only_vector(
                state,
                input.arguments,
            ) {
                lemma_len(cx, state, path, input.span);
            }
        },
        Intrinsic::VectorPop => {
            if let Some((path, element)) = only_vector(
                state,
                input.arguments,
            ) {
                lemma_pop(cx, state, path, element, input.span);
            }
        },
        Intrinsic::VectorGet => {
            lemma_vector_get(cx, state, input);
        },
        Intrinsic::VectorSet => {
            lemma_vector_set(cx, state, input);
        },
        Intrinsic::VectorClear => {
            if let Some((path, _)) = only_vector(
                state,
                input.arguments,
            ) {
                lemma_clear(cx, state, path, input.span);
            }
        },
        Intrinsic::VectorSwapRemove => {
            lemma_vector_swap_remove(cx, state, input);
        },
        _ => {
            lemma_other(cx, state, input);
        },
    }
}

} // verus!
