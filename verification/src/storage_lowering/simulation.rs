//! Lowering for a continuation keeps what expressions mean.
use crate::ast::{
    ArrayAccess, ArrayExpression, BinaryExpression, CallExpression, CastExpression,
    CompositeExpression, DefinitionPlace, DynamicOpExpression, DynamicOpKind, Expression,
    FieldInitializer, IntrinsicExpression, MemberAccess, NodeId, Path, RepeatExpression, Span,
    Statement, Symbol, TernaryExpression, TupleAccess, TupleExpression, Type, UnaryExpression,
};
use crate::names::{keeps, Texts};
use crate::list::{appended, copied, one, List};
use crate::purity::{all_can_be_discarded, can_be_discarded};
use crate::state::{Halt, State};
use crate::storage_lowering::builders::{bind_value, get_vector_len_expr};
use crate::storage_lowering::continuation::{
    Continuation, ListContinuation, ListFrame, OperandFrame,
};
use crate::storage_lowering::depth::lemma_greater_emit;
use crate::storage_lowering::direct_values;
use crate::storage_lowering::dynamic::vector_of_member;
use crate::storage_lowering::emit::{
    bind_optional_ternary_branch, branch_statement, copy_expression_type, emit, emit_branches,
    emit_composite_base, emit_composite_members, emit_dynamic_arguments, emit_list, emit_lowered,
    emit_step, materialize_if, optional_type_of, preceded, resume, resume_list, resume_list_step,
    resume_operand, resume_ternary, takes_vector, Emitted,
};
use crate::storage_lowering::ending_values::{
    accepts, accepts_all, base_ends, emits, ended, expressions_end, fields_are_sources, is_ready,
    lemma_access_array_accepts, lemma_arm_accepts, lemma_array_accepts, lemma_base_accepts,
    lemma_call_arguments_accepts, lemma_call_const_accepts, lemma_cast_accepts,
    lemma_condition_accepts, lemma_count_accepts, lemma_dynamic_arguments_accept,
    lemma_element_accepts, lemma_element_of_list, lemma_first, lemma_first_field,
    lemma_index_accepts, lemma_intrinsic_accepts, lemma_left_accepts, lemma_list_ends,
    lemma_member_access_accepts, lemma_member_ends, lemma_narrowed, lemma_network_accepts,
    lemma_parts, lemma_right_accepts, lemma_target_accepts, lemma_tuple_accepts,
    lemma_tuple_access_accepts, lemma_unary_accepts, lemma_vector_accepts, lists, option_is_source,
    plain_ends, plain_expressions_end, resumes, stays_open,
};
use crate::storage_lowering::growing::grown;
use crate::storage_lowering::growing_code::{grow_emit, grow_resume};
use crate::storage_lowering::laws::branches_emit;
use crate::storage_lowering::orderly::{
    are_inert, are_orderly, fields_are_orderly, is_orderly, kind_is_orderly, lemma_orderly_field,
    lemma_orderly_first, lemma_orderly_option, option_is_orderly,
};
use crate::storage_lowering::plain::{
    are_direct, are_plain, are_regular, fields_are_plain, group_plain, is_direct, is_plain,
    is_regular, is_regular_state, kind_is_direct, kind_is_plain, kind_is_regular, option_is_direct,
    option_is_plain, option_is_regular, type_is_plain,
};
use crate::storage_lowering::plain_order::{
    lemma_direct, lemma_direct_list, lemma_opens, lemma_opens_list, lemma_regular, lemma_settled,
};
use crate::storage_lowering::plain_values::{
    all_rest, branches_appended, lemma_materialize, member_branches_appended, rests,
};
use crate::storage_lowering::predicates::{
    any_may_emit_after, any_member_requires_branch, any_requires_branch,
    expression_may_emit_after_reconstruction, expression_requires_branch_cps,
    path_reconstructs_to_branch_cps,
};
use crate::storage_lowering::quiet::{
    are_quiet, gave, lemma_appended_more, lemma_appended_nil, lemma_element_steps, lemma_emit_steps,
    lemma_list_steps, lemma_quiet, lemma_quiet_list, lemma_resume_steps,
};
use crate::storage_lowering::reconstruct::{
    reconstruct_call, reconstruct_dynamic_op, reconstruct_expression, reconstruct_intrinsic,
    reconstruct_vector_get, reconstruct_vector_push, reconstruct_vector_set,
    reconstruct_vector_swap_remove,
};
use crate::storage_lowering::running::{
    acted, applied, blank_members, eval, eval_all, eval_kind, eval_members, eval_option, head, run,
    run_all, Model, Outcome,
};
use crate::storage_lowering::running_facts::{
    all_define_anew, defined_by, defines_anew, lemma_anew_first, lemma_eval_appended,
    lemma_eval_cons, lemma_eval_field, lemma_eval_members_appended, lemma_eval_one, lemma_eval_some,
    lemma_fixed, lemma_fixed_all, lemma_followed, lemma_more, lemma_more_all, lemma_more_kind,
    lemma_more_members, lemma_more_option,
};
use crate::storage_lowering::staying;
use crate::storage_lowering::staying::plain_expressions_stay;
use crate::storage_lowering::vectors::{
    clear_vector, finish_get, finish_push, finish_set, finish_swap_remove, get_value,
    materialize_strict_prefix_expression, pop_value, push_value, set_value, swap_remove_value,
    vector_len,
};
use crate::storage_lowering::visitor::Context;
use crate::storage_lowering::zero::{read_storage, reconstruct_path};
use std::rc::Rc;
use vstd::prelude::*;

verus! {

broadcast use {group_plain, branches_appended, member_branches_appended};

/* Single operations */

/// Whether running `code` and then evaluating `value` gives `result`. Local variables are only
/// added.
pub open spec fn does<V, S>(
    cx: Context,
    model: Model<V, S>,
    locals: Map<Symbol, V>,
    store: S,
    code: List<Statement>,
    value: Expression,
    result: (S, V),
) -> bool {
    run_all(cx, model, locals, store, code) matches Outcome::Goes(later, after) && locals.submap_of(
        later,
    ) && eval(cx, model, later, after, value) == Some(result)
}

/// Whether `expression` is a single operation on storage, of operands that were lowered: a read of
/// a storage variable, an operation on a vector, or an access to storage of another program.
pub open spec fn is_operation(cx: Context, expression: Expression) -> bool {
    match expression {
        Expression::Path(path) => path_reconstructs_to_branch_cps(cx, *path),
        Expression::Intrinsic(input) => takes_vector(input.op)
            && (input.arguments matches List::Cons(
            _,
            values,
        ) ==> all_rest(cx, true, *values)),
        Expression::DynamicOp(input) => {
            &&& rests(cx, false, input.target_program)
            &&& input.network matches Some(network) ==> rests(cx, false, network)
            &&& match input.kind {
                DynamicOpKind::Read { .. } => true,
                DynamicOpKind::Op { member, arguments, .. } => all_rest(cx, true, arguments)
                    && !(vector_of_member(cx, input.interface, member) == Ok::<Option<Type>, Halt>(
                    None,
                )),
                DynamicOpKind::Call { .. } => false,
            }
        },
        _ => false,
    }
}

/// Whether a single operation is lowered to code that does what the operation does. The names in it
/// are those of `names`.
pub open spec fn operation_is_sound<V, S>(
    cx: Context,
    names: Texts,
    model: Model<V, S>,
    state: State,
    expression: Expression,
    locals: Map<Symbol, V>,
    store: S,
) -> bool {
    match (
        reconstruct_expression(cx, state, expression),
        eval(cx, model, locals, store, expression),
    ) {
        (Ok((after, (value, code))), Some(result)) => keeps(after.names, names) && all_define_anew(
            locals.dom(),
            code,
        ) ==> does(cx, model, locals, store, code, value, result) && is_orderly(cx, value),
        _ => true,
    }
}

/// Whether every single operation is lowered to code that does what the operation does in `model`.
#[verifier::opaque]
pub open spec fn operations_are_sound<V, S>(
    cx: Context,
    names: Texts,
    model: Model<V, S>,
) -> bool {
    forall|state: State, expression: Expression, locals: Map<Symbol, V>, store: S|
        is_regular_state(cx, state) && is_operation(cx, expression)
            ==> #[trigger] operation_is_sound(cx, names, model, state, expression, locals, store)
}

/// The store after an evaluation that did not fail.
pub open spec fn store_in<V, S>(evaluated: Option<(S, V)>) -> S {
    match evaluated {
        Some((store, _)) => store,
        None => arbitrary(),
    }
}

/// The value that it gave.
pub open spec fn value_in<V, S>(evaluated: Option<(S, V)>) -> V {
    match evaluated {
        Some((_, value)) => value,
        None => arbitrary(),
    }
}

/* What is handed on */

/// Where lowering hands on a value: what is left of the depth, the state, the value, the statements
/// that are made of it, and what these run on.
pub struct Handed<V, S> {
    pub depth: nat,
    pub state: State,
    pub value: Expression,
    pub rest: List<Statement>,
    pub locals: Map<Symbol, V>,
    pub store: S,
}

pub struct HandedAll<V, S> {
    pub depth: nat,
    pub state: State,
    pub values: List<Expression>,
    pub rest: List<Statement>,
    pub locals: Map<Symbol, V>,
    pub store: S,
}

/// Whether running `out` comes to `handed`: to the statements that `next` makes of a value that
/// gives `result`.
pub open spec fn comes_to<V, S>(
    cx: Context,
    names: Texts,
    model: Model<V, S>,
    open: bool,
    next: Continuation,
    locals: Map<Symbol, V>,
    store: S,
    out: List<Statement>,
    result: (S, V),
    handed: Handed<V, S>,
) -> bool {
    &&& is_regular_state(cx, handed.state)
    &&& rests(cx, open, handed.value)
    &&& gave(names, resume(cx, handed.depth, handed.state, next, handed.value), handed.rest)
    &&& locals.submap_of(handed.locals)
    &&& all_define_anew(handed.locals.dom(), handed.rest)
    &&& eval(cx, model, handed.locals, handed.store, handed.value) == Some(result)
    &&& run_all(cx, model, locals, store, out) == run_all(
        cx,
        model,
        handed.locals,
        handed.store,
        handed.rest,
    )
}

pub open spec fn all_come_to<V, S>(
    cx: Context,
    names: Texts,
    model: Model<V, S>,
    open: bool,
    next: ListContinuation,
    locals: Map<Symbol, V>,
    store: S,
    out: List<Statement>,
    result: (S, Seq<V>),
    handed: HandedAll<V, S>,
) -> bool {
    &&& is_regular_state(cx, handed.state)
    &&& all_rest(cx, open, handed.values)
    &&& gave(names, resume_list(cx, handed.depth, handed.state, next, handed.values), handed.rest)
    &&& locals.submap_of(handed.locals)
    &&& all_define_anew(handed.locals.dom(), handed.rest)
    &&& eval_all(cx, model, handed.locals, handed.store, handed.values) == Some(result)
    &&& run_all(cx, model, locals, store, out) == run_all(
        cx,
        model,
        handed.locals,
        handed.store,
        handed.rest,
    )
}

/// What holds of everything that is lowered.
pub open spec fn is_set<V, S>(
    cx: Context,
    names: Texts,
    model: Model<V, S>,
    state: State,
    locals: Map<Symbol, V>,
    out: List<Statement>,
) -> bool {
    &&& plain_ends(cx)
    &&& operations_are_sound(cx, names, model)
    &&& is_regular_state(cx, state)
    &&& all_define_anew(locals.dom(), out)
}

/// Whether `expression` has the value `value` whenever it is evaluated, and leaves the store alone.
pub open spec fn is_fixed<V, S>(
    cx: Context,
    model: Model<V, S>,
    locals: Map<Symbol, V>,
    expression: Expression,
    value: V,
) -> bool {
    forall|later: Map<Symbol, V>, store: S|
        locals.submap_of(later) ==> #[trigger] eval(cx, model, later, store, expression) == Some(
            (store, value),
        )
}

pub open spec fn are_fixed<V, S>(
    cx: Context,
    model: Model<V, S>,
    locals: Map<Symbol, V>,
    expressions: List<Expression>,
    values: Seq<V>,
) -> bool {
    forall|later: Map<Symbol, V>, store: S|
        locals.submap_of(later) ==> #[trigger] eval_all(cx, model, later, store, expressions)
            == Some((store, values))
}

pub proof fn lemma_preceded(
    names: Texts,
    statements: List<Statement>,
    emitted: Emitted,
    out: List<Statement>,
) -> (rest:
    List<Statement>)
    requires
        gave(names, preceded(statements, emitted), out),
    ensures
        gave(names, emitted, rest),
        out == appended(statements, rest),
{
    emitted->Ok_0.1
}

/// A value is bound to a name, or can be evaluated later.
pub proof fn lemma_bind<V, S>(
    cx: Context,
    model: Model<V, S>,
    open: bool,
    state: State,
    value: Expression,
    after: State,
    bound: Expression,
    statements: List<Statement>,
    locals: Map<Symbol, V>,
    store: S,
    rest: List<Statement>,
) -> (later: Map<Symbol, V>)
    requires
        is_regular_state(cx, state),
        is_plain(cx, open, value),
        materialize_strict_prefix_expression(cx, state, value) == Ok::<_, Halt>(
            (after, (bound, statements)),
        ),
        eval(cx, model, locals, store, value) is Some,
        all_define_anew(locals.dom(), appended(statements, rest)),
    ensures
        is_regular_state(cx, after),
        rests(cx, false, bound),
        rests(cx, true, bound),
        locals.submap_of(later),
        all_define_anew(later.dom(), rest),
        is_fixed(cx, model, later, bound, value_in(eval(cx, model, locals, store, value))),
        run_all(cx, model, locals, store, appended(statements, rest)) == run_all(
            cx,
            model,
            later,
            store_in(eval(cx, model, locals, store, value)),
            rest,
        ),
{
    lemma_materialize(cx, open, state, value);
    reveal(materialize_strict_prefix_expression);
    let (store_after, result) = eval(cx, model, locals, store, value)->0;
    if can_be_discarded(state.types, value) {
        if !open {
            lemma_opens(cx, value);
        }
        lemma_fixed(cx, model, state.types, locals, locals, store, store, value);
        assert forall|later: Map<Symbol, V>, other: S|
            locals.submap_of(later) implies #[trigger] eval(cx, model, later, other, value)
            == Some((other, result)) by {
            lemma_fixed(cx, model, state.types, locals, later, store, other, value);
        }
        locals
    } else {
        reveal(bind_value);
        let name = match statements {
            List::Cons(Statement::Definition(input), _) => match copied(&input.place) {
                DefinitionPlace::Single(identifier) => identifier.name,
                _ => arbitrary(),
            },
            _ => arbitrary(),
        };
        let later = locals.insert(name, result);
        let definition = match statements {
            List::Cons(first, _) => first,
            _ => arbitrary(),
        };
        assert(run(cx, model, locals, store, definition) == Outcome::Goes(later, store_after)) by {
            reveal(run);
        }
        assert(run_all(cx, model, locals, store, statements) == Outcome::Goes(
            later,
            store_after,
        )) by {
            lemma_run_one(cx, model, locals, store, definition);
        }
        lemma_followed(cx, model, locals, store, statements, rest, later, store_after);
        assert(!locals.contains_key(name)) by {
            lemma_anew_first(locals.dom(), statements, rest);
            reveal(all_define_anew);
            assert(defines_anew(locals.dom(), definition));
            assert(defined_by(definition).contains(name));
        }
        assert forall|more: Map<Symbol, V>, other: S|
            later.submap_of(more) implies #[trigger] eval(cx, model, more, other, bound) == Some(
            (other, result),
        ) by {
            reveal(eval);
            assert(later.contains_key(name) && later[name] == result);
        }
        later
    }
}

pub proof fn lemma_run_one<V, S>(
    cx: Context,
    model: Model<V, S>,
    locals: Map<Symbol, V>,
    store: S,
    statement: Statement,
)
    ensures
        run_all(cx, model, locals, store, one(statement)) == run(
            cx,
            model,
            locals,
            store,
            statement,
        ),
{
    reveal(run_all);
    reveal(run);
    if let Outcome::Goes(locals, store) = run(cx, model, locals, store, statement) {
        assert(run_all(cx, model, locals, store, List::Nil) == Outcome::Goes(locals, store));
    }
}

/// A value is bound to a name where `strict` says so.
pub proof fn lemma_bind_if<V, S>(
    cx: Context,
    model: Model<V, S>,
    open: bool,
    state: State,
    value: Expression,
    strict: bool,
    after: State,
    bound: Expression,
    statements: List<Statement>,
    locals: Map<Symbol, V>,
    store: S,
    rest: List<Statement>,
) -> (on: (Map<Symbol, V>, S))
    requires
        is_regular_state(cx, state),
        rests(cx, open, value),
        materialize_if(cx, state, value, strict) == Ok::<_, Halt>((after, (bound, statements))),
        eval(cx, model, locals, store, value) is Some,
        all_define_anew(locals.dom(), appended(statements, rest)),
    ensures
        is_regular_state(cx, after),
        rests(cx, open, bound),
        locals.submap_of(on.0),
        all_define_anew(on.0.dom(), rest),
        eval(cx, model, on.0, on.1, bound) == eval(cx, model, locals, store, value),
        strict ==> on.1 == store_in(eval(cx, model, locals, store, value)) && is_fixed(
            cx,
            model,
            on.0,
            bound,
            value_in(eval(cx, model, locals, store, value)),
        ),
        run_all(cx, model, locals, store, appended(statements, rest)) == run_all(
            cx,
            model,
            on.0,
            on.1,
            rest,
        ),
{
    if strict {
        let later = lemma_bind(
            cx,
            model,
            open,
            state,
            value,
            after,
            bound,
            statements,
            locals,
            store,
            rest,
        );
        (later, store_in(eval(cx, model, locals, store, value)))
    } else {
        (locals, store)
    }
}

/// The state after lowering is regular.
proof fn lemma_left(
    cx: Context,
    open: bool,
    depth: nat,
    state: State,
    expression: Expression,
    next: Continuation,
)
    requires
        plain_ends(cx),
        is_regular_state(cx, state),
        is_regular(cx, open, expression),
        accepts(cx, open, next),
    ensures
        emit(cx, depth, state, expression, next) matches Ok((after, _)) ==> is_regular_state(
            cx,
            after,
        ),
{
    expressions_end(cx, true, open, state, expression, next);
    let other = choose|other: nat| ended(
        cx,
        #[trigger] emit(cx, other, state, expression, next),
    );
    if emit(cx, depth, state, expression, next) is Ok {
        if other <= depth {
            lemma_greater_emit(cx, other, depth, state, expression, next);
        } else {
            lemma_greater_emit(cx, depth, other, state, expression, next);
        }
    }
}

/* Expressions */

/// Lowering an expression for a continuation keeps its meaning: running what it is lowered to comes
/// to what the continuation makes of a value that gives what the expression gives.
pub proof fn lemma_emit<V, S>(
    cx: Context,
    names: Texts,
    model: Model<V, S>,
    open: bool,
    depth: nat,
    state: State,
    expression: Expression,
    next: Continuation,
    locals: Map<Symbol, V>,
    store: S,
    out: List<Statement>,
) -> (handed: Handed<V, S>)
    requires
        is_set(cx, names, model, state, locals, out),
        is_regular(cx, open, expression),
        is_orderly(cx, expression),
        accepts(cx, open, next),
        gave(names, emit(cx, depth, state, expression, next), out),
        eval(cx, model, locals, store, expression) is Some,
    ensures
        handed.depth < depth,
        comes_to(
            cx, names,
            model,
            open,
            next,
            locals,
            store,
            out,
            eval(cx, model, locals, store, expression)->0,
            handed,
        ),
    decreases depth, 2int,
{
    match expression {
        Expression::Array(input) => lemma_array(
            cx, names,
            model,
            open,
            depth,
            state,
            input,
            next,
            locals,
            store,
            out,
        ),
        Expression::ArrayAccess(input) => lemma_array_access(
            cx, names,
            model,
            open,
            depth,
            state,
            input,
            next,
            locals,
            store,
            out,
        ),
        Expression::Binary(input) => lemma_binary(
            cx, names,
            model,
            open,
            depth,
            state,
            input,
            next,
            locals,
            store,
            out,
        ),
        Expression::Call(input) => lemma_call(
            cx, names,
            model,
            open,
            depth,
            state,
            input,
            next,
            locals,
            store,
            out,
        ),
        Expression::Cast(input) => lemma_cast(
            cx, names,
            model,
            open,
            depth,
            state,
            input,
            next,
            locals,
            store,
            out,
        ),
        Expression::Composite(input) => lemma_composite(
            cx, names,
            model,
            open,
            depth,
            state,
            input,
            next,
            locals,
            store,
            out,
        ),
        Expression::DynamicOp(input) => lemma_dynamic_op(
            cx, names,
            model,
            open,
            depth,
            state,
            input,
            next,
            locals,
            store,
            out,
        ),
        Expression::Intrinsic(input) => lemma_intrinsic(
            cx, names,
            model,
            open,
            depth,
            state,
            input,
            next,
            locals,
            store,
            out,
        ),
        Expression::MemberAccess(input) => lemma_member_access(
            cx, names,
            model,
            open,
            depth,
            state,
            input,
            next,
            locals,
            store,
            out,
        ),
        Expression::Path(input) => lemma_path(
            cx, names,
            model,
            open,
            depth,
            state,
            input,
            next,
            locals,
            store,
            out,
        ),
        Expression::Repeat(input) => lemma_repeat(
            cx, names,
            model,
            open,
            depth,
            state,
            input,
            next,
            locals,
            store,
            out,
        ),
        Expression::Ternary(input) => lemma_ternary(
            cx, names,
            model,
            open,
            depth,
            state,
            input,
            next,
            locals,
            store,
            out,
        ),
        Expression::Tuple(input) => lemma_tuple(
            cx, names,
            model,
            open,
            depth,
            state,
            input,
            next,
            locals,
            store,
            out,
        ),
        Expression::TupleAccess(input) => lemma_tuple_access(
            cx, names,
            model,
            open,
            depth,
            state,
            input,
            next,
            locals,
            store,
            out,
        ),
        Expression::Unary(input) => lemma_unary(
            cx, names,
            model,
            open,
            depth,
            state,
            input,
            next,
            locals,
            store,
            out,
        ),
        _ => {
            lemma_emit_steps(cx, names, depth, state, expression, next, out);
            assert(is_plain(cx, false, expression) && is_plain(cx, true, expression)) by {
                reveal(is_plain);
            }
            plain_expressions_stay(cx, false, state, expression);
            let id = expression.spec_id();
            let lowered = reconstruct_expression(cx, state, expression);
            let below = (depth - 1) as nat;
            assert(gave(names, emit_lowered(cx, below, lowered, id, false, next), out)) by {
                reveal(emit_step);
                reveal(emit_lowered);
            }
            let known = copy_expression_type(state, id, id);
            assert(gave(names, resume(cx, below, known, next, expression), out)) by {
                reveal(emit_lowered);
                reveal(resume);
            }
            Handed { depth: below, state: known, value: expression, rest: out, locals, store }
        },
    }
}

proof fn lemma_cast<V, S>(
    cx: Context,
    names: Texts,
    model: Model<V, S>,
    open: bool,
    depth: nat,
    state: State,
    input: Rc<CastExpression>,
    next: Continuation,
    locals: Map<Symbol, V>,
    store: S,
    out: List<Statement>,
) -> (handed: Handed<V, S>)
    requires
        is_set(cx, names, model, state, locals, out),
        is_regular(cx, open, Expression::Cast(input)),
        is_orderly(cx, Expression::Cast(input)),
        accepts(cx, open, next),
        gave(names, emit(cx, depth, state, Expression::Cast(input), next), out),
        eval(cx, model, locals, store, Expression::Cast(input)) is Some,
    ensures
        handed.depth < depth,
        comes_to(
            cx, names,
            model,
            open,
            next,
            locals,
            store,
            out,
            eval(cx, model, locals, store, Expression::Cast(input))->0,
            handed,
        ),
    decreases depth, 1int,
{
    let expression = Expression::Cast(input);
    lemma_emit_steps(cx, names, depth, state, expression, next, out);
    lemma_parts(cx, true, open, expression);
    reveal(is_orderly);
    reveal(eval);
    let below = (depth - 1) as nat;
    let frame = OperandFrame::Cast { input };
    let k = Continuation::Operand(frame, Rc::new(next));
    let operand = copied(&input.expression);
    lemma_cast_accepts(cx, open, input, next);
    assert(gave(names, emit(cx, below, state, operand, k), out)) by {
        reveal(emit_step);
        reveal(emit);
    }
    let first = lemma_emit(cx, names, model, open, below, state, operand, k, locals, store, out);
    lemma_resume_steps(cx, names, first.depth, first.state, frame, next, first.value, first.rest);
    let node = Expression::Cast(
        Rc::new(CastExpression { expression: first.value, ..copied(&*input) }),
    );
    let d = (first.depth - 1) as nat;
    assert(gave(names, resume(cx, d, first.state, next, node), first.rest)) by {
        reveal(resume_operand);
        reveal(resume);
    }
    assert(head(node) == head(expression));
    Handed { depth: d, value: node, ..first }
}

proof fn lemma_member_access<V, S>(
    cx: Context,
    names: Texts,
    model: Model<V, S>,
    open: bool,
    depth: nat,
    state: State,
    input: Rc<MemberAccess>,
    next: Continuation,
    locals: Map<Symbol, V>,
    store: S,
    out: List<Statement>,
) -> (handed: Handed<V, S>)
    requires
        is_set(cx, names, model, state, locals, out),
        is_regular(cx, open, Expression::MemberAccess(input)),
        is_orderly(cx, Expression::MemberAccess(input)),
        accepts(cx, open, next),
        gave(names, emit(cx, depth, state, Expression::MemberAccess(input), next), out),
        eval(cx, model, locals, store, Expression::MemberAccess(input)) is Some,
    ensures
        handed.depth < depth,
        comes_to(
            cx, names,
            model,
            open,
            next,
            locals,
            store,
            out,
            eval(cx, model, locals, store, Expression::MemberAccess(input))->0,
            handed,
        ),
    decreases depth, 1int,
{
    let expression = Expression::MemberAccess(input);
    lemma_emit_steps(cx, names, depth, state, expression, next, out);
    lemma_parts(cx, true, open, expression);
    reveal(is_orderly);
    reveal(eval);
    let below = (depth - 1) as nat;
    let frame = OperandFrame::MemberAccess { input };
    let k = Continuation::Operand(frame, Rc::new(next));
    let operand = copied(&input.inner);
    lemma_member_access_accepts(cx, open, input, next);
    assert(gave(names, emit(cx, below, state, operand, k), out)) by {
        reveal(emit_step);
        reveal(emit);
    }
    let first = lemma_emit(cx, names, model, open, below, state, operand, k, locals, store, out);
    lemma_resume_steps(cx, names, first.depth, first.state, frame, next, first.value, first.rest);
    let node = Expression::MemberAccess(
        Rc::new(MemberAccess { inner: first.value, ..copied(&*input) }),
    );
    let d = (first.depth - 1) as nat;
    assert(gave(names, resume(cx, d, first.state, next, node), first.rest)) by {
        reveal(resume_operand);
        reveal(resume);
    }
    assert(head(node) == head(expression));
    Handed { depth: d, value: node, ..first }
}

proof fn lemma_tuple_access<V, S>(
    cx: Context,
    names: Texts,
    model: Model<V, S>,
    open: bool,
    depth: nat,
    state: State,
    input: Rc<TupleAccess>,
    next: Continuation,
    locals: Map<Symbol, V>,
    store: S,
    out: List<Statement>,
) -> (handed: Handed<V, S>)
    requires
        is_set(cx, names, model, state, locals, out),
        is_regular(cx, open, Expression::TupleAccess(input)),
        is_orderly(cx, Expression::TupleAccess(input)),
        accepts(cx, open, next),
        gave(names, emit(cx, depth, state, Expression::TupleAccess(input), next), out),
        eval(cx, model, locals, store, Expression::TupleAccess(input)) is Some,
    ensures
        handed.depth < depth,
        comes_to(
            cx, names,
            model,
            open,
            next,
            locals,
            store,
            out,
            eval(cx, model, locals, store, Expression::TupleAccess(input))->0,
            handed,
        ),
    decreases depth, 1int,
{
    let expression = Expression::TupleAccess(input);
    lemma_emit_steps(cx, names, depth, state, expression, next, out);
    lemma_parts(cx, true, open, expression);
    reveal(is_orderly);
    reveal(eval);
    let below = (depth - 1) as nat;
    let frame = OperandFrame::TupleAccess { input };
    let k = Continuation::Operand(frame, Rc::new(next));
    let operand = copied(&input.tuple);
    lemma_tuple_access_accepts(cx, open, input, next);
    assert(gave(names, emit(cx, below, state, operand, k), out)) by {
        reveal(emit_step);
        reveal(emit);
    }
    let first = lemma_emit(cx, names, model, open, below, state, operand, k, locals, store, out);
    lemma_resume_steps(cx, names, first.depth, first.state, frame, next, first.value, first.rest);
    let node = Expression::TupleAccess(
        Rc::new(TupleAccess { tuple: first.value, ..copied(&*input) }),
    );
    let d = (first.depth - 1) as nat;
    assert(gave(names, resume(cx, d, first.state, next, node), first.rest)) by {
        reveal(resume_operand);
        reveal(resume);
    }
    assert(head(node) == head(expression));
    Handed { depth: d, value: node, ..first }
}

proof fn lemma_unary<V, S>(
    cx: Context,
    names: Texts,
    model: Model<V, S>,
    open: bool,
    depth: nat,
    state: State,
    input: Rc<UnaryExpression>,
    next: Continuation,
    locals: Map<Symbol, V>,
    store: S,
    out: List<Statement>,
) -> (handed: Handed<V, S>)
    requires
        is_set(cx, names, model, state, locals, out),
        is_regular(cx, open, Expression::Unary(input)),
        is_orderly(cx, Expression::Unary(input)),
        accepts(cx, open, next),
        gave(names, emit(cx, depth, state, Expression::Unary(input), next), out),
        eval(cx, model, locals, store, Expression::Unary(input)) is Some,
    ensures
        handed.depth < depth,
        comes_to(
            cx, names,
            model,
            open,
            next,
            locals,
            store,
            out,
            eval(cx, model, locals, store, Expression::Unary(input))->0,
            handed,
        ),
    decreases depth, 1int,
{
    let expression = Expression::Unary(input);
    lemma_emit_steps(cx, names, depth, state, expression, next, out);
    lemma_parts(cx, true, open, expression);
    reveal(is_orderly);
    reveal(eval);
    let below = (depth - 1) as nat;
    let frame = OperandFrame::Unary { input };
    let k = Continuation::Operand(frame, Rc::new(next));
    let operand = copied(&input.receiver);
    lemma_unary_accepts(cx, open, input, next);
    assert(gave(names, emit(cx, below, state, operand, k), out)) by {
        reveal(emit_step);
        reveal(emit);
    }
    let first = lemma_emit(cx, names, model, open, below, state, operand, k, locals, store, out);
    lemma_resume_steps(cx, names, first.depth, first.state, frame, next, first.value, first.rest);
    let node = Expression::Unary(
        Rc::new(UnaryExpression { receiver: first.value, ..copied(&*input) }),
    );
    let d = (first.depth - 1) as nat;
    assert(gave(names, resume(cx, d, first.state, next, node), first.rest)) by {
        reveal(resume_operand);
        reveal(resume);
    }
    assert(head(node) == head(expression));
    Handed { depth: d, value: node, ..first }
}

proof fn lemma_array_access<V, S>(
    cx: Context,
    names: Texts,
    model: Model<V, S>,
    open: bool,
    depth: nat,
    state: State,
    input: Rc<ArrayAccess>,
    next: Continuation,
    locals: Map<Symbol, V>,
    store: S,
    out: List<Statement>,
) -> (handed: Handed<V, S>)
    requires
        is_set(cx, names, model, state, locals, out),
        is_regular(cx, open, Expression::ArrayAccess(input)),
        is_orderly(cx, Expression::ArrayAccess(input)),
        accepts(cx, open, next),
        gave(names, emit(cx, depth, state, Expression::ArrayAccess(input), next), out),
        eval(cx, model, locals, store, Expression::ArrayAccess(input)) is Some,
    ensures
        handed.depth < depth,
        comes_to(
            cx, names,
            model,
            open,
            next,
            locals,
            store,
            out,
            eval(cx, model, locals, store, Expression::ArrayAccess(input))->0,
            handed,
        ),
    decreases depth, 1int,
{
    let expression = Expression::ArrayAccess(input);
    lemma_emit_steps(cx, names, depth, state, expression, next, out);
    lemma_parts(cx, true, open, expression);
    reveal(is_orderly);
    reveal(eval);
    let below = (depth - 1) as nat;
    let first = copied(&input.array);
    let second = copied(&input.index);
    let (store_between, _) = eval(cx, model, locals, store, first)->0;
    let frame = OperandFrame::AccessArray { input };
    let k = Continuation::Operand(frame, Rc::new(next));
    lemma_access_array_accepts(cx, true, open, input, next);
    assert(gave(names, emit(cx, below, state, first, k), out)) by {
        reveal(emit_step);
        reveal(emit);
    }
    let one = lemma_emit(cx, names, model, open, below, state, first, k, locals, store, out);
    lemma_resume_steps(cx, names, one.depth, one.state, frame, next, one.value, one.rest);
    let d = (one.depth - 1) as nat;
    let strict = expression_may_emit_after_reconstruction(cx, second);
    let bound_step = materialize_if(cx, one.state, one.value, strict);
    assert(bound_step is Ok) by {
        reveal(resume_operand);
        reveal(emit);
    }
    let (after, (bound, statements)) = bound_step->Ok_0;
    let frame = OperandFrame::AccessIndex { array: bound, input };
    let k = Continuation::Operand(frame, Rc::new(next));
    let emitted = emit(cx, d, after, second, k);
    assert(gave(names, preceded(statements, emitted), one.rest)) by {
        reveal(resume_operand);
        reveal(emit);
    }
    let rest = lemma_preceded(names, statements, emitted, one.rest);
    let (later, now) = lemma_bind_if(
        cx,
        model,
        open,
        one.state,
        one.value,
        strict,
        after,
        bound,
        statements,
        one.locals,
        one.store,
        rest,
    );
    lemma_submaps(locals, one.locals, later);
    lemma_more(cx, model, locals, later, store_between, second);
    if strict {
        lemma_index_accepts(cx, open, bound, input, next);
        let two = lemma_emit(cx, names, model, open, d, after, second, k, later, now, rest);
        lemma_resume_steps(cx, names, two.depth, two.state, frame, next, two.value, two.rest);
        lemma_submaps(locals, later, two.locals);
        let node = Expression::ArrayAccess(
            Rc::new(ArrayAccess { array: bound, index: two.value, ..copied(&*input) }),
        );
        let d = (two.depth - 1) as nat;
        assert(gave(names, resume(cx, d, two.state, next, node), two.rest)) by {
            reveal(resume_operand);
            reveal(resume);
        }
        assert(head(node) == head(expression));
        assert(store_in(eval(cx, model, two.locals, two.store, bound)) == two.store);
        Handed { depth: d, value: node, ..two }
    } else {
        lemma_settled(cx, open, second);
        lemma_opens(cx, second);
        let (d, s) = lemma_quiet(cx, names, d, after, second, k, rest);
        lemma_resume_steps(cx, names, d, s, frame, next, second, rest);
        let node = Expression::ArrayAccess(
            Rc::new(ArrayAccess { array: bound, index: second, ..copied(&*input) }),
        );
        let d = (d - 1) as nat;
        assert(gave(names, resume(cx, d, s, next, node), rest)) by {
            reveal(resume_operand);
            reveal(resume);
        }
        assert(head(node) == head(expression));
        branches_emit(&second);
        Handed { depth: d, state: s, value: node, rest, locals: later, store: now }
    }
}

proof fn lemma_binary<V, S>(
    cx: Context,
    names: Texts,
    model: Model<V, S>,
    open: bool,
    depth: nat,
    state: State,
    input: Rc<BinaryExpression>,
    next: Continuation,
    locals: Map<Symbol, V>,
    store: S,
    out: List<Statement>,
) -> (handed: Handed<V, S>)
    requires
        is_set(cx, names, model, state, locals, out),
        is_regular(cx, open, Expression::Binary(input)),
        is_orderly(cx, Expression::Binary(input)),
        accepts(cx, open, next),
        gave(names, emit(cx, depth, state, Expression::Binary(input), next), out),
        eval(cx, model, locals, store, Expression::Binary(input)) is Some,
    ensures
        handed.depth < depth,
        comes_to(
            cx, names,
            model,
            open,
            next,
            locals,
            store,
            out,
            eval(cx, model, locals, store, Expression::Binary(input))->0,
            handed,
        ),
    decreases depth, 1int,
{
    let expression = Expression::Binary(input);
    lemma_emit_steps(cx, names, depth, state, expression, next, out);
    lemma_parts(cx, true, open, expression);
    reveal(is_orderly);
    reveal(eval);
    let below = (depth - 1) as nat;
    let first = copied(&input.left);
    let second = copied(&input.right);
    let (store_between, _) = eval(cx, model, locals, store, first)->0;
    let frame = OperandFrame::BinaryLeft { input };
    let k = Continuation::Operand(frame, Rc::new(next));
    lemma_left_accepts(cx, true, open, input, next);
    assert(gave(names, emit(cx, below, state, first, k), out)) by {
        reveal(emit_step);
        reveal(emit);
    }
    let one = lemma_emit(cx, names, model, open, below, state, first, k, locals, store, out);
    lemma_resume_steps(cx, names, one.depth, one.state, frame, next, one.value, one.rest);
    let d = (one.depth - 1) as nat;
    let strict = expression_may_emit_after_reconstruction(cx, second);
    let bound_step = materialize_if(cx, one.state, one.value, strict);
    assert(bound_step is Ok) by {
        reveal(resume_operand);
        reveal(emit);
    }
    let (after, (bound, statements)) = bound_step->Ok_0;
    let frame = OperandFrame::BinaryRight { left: bound, input };
    let k = Continuation::Operand(frame, Rc::new(next));
    let emitted = emit(cx, d, after, second, k);
    assert(gave(names, preceded(statements, emitted), one.rest)) by {
        reveal(resume_operand);
        reveal(emit);
    }
    let rest = lemma_preceded(names, statements, emitted, one.rest);
    let (later, now) = lemma_bind_if(
        cx,
        model,
        open,
        one.state,
        one.value,
        strict,
        after,
        bound,
        statements,
        one.locals,
        one.store,
        rest,
    );
    lemma_submaps(locals, one.locals, later);
    lemma_more(cx, model, locals, later, store_between, second);
    if strict {
        lemma_right_accepts(cx, open, bound, input, next);
        let two = lemma_emit(cx, names, model, open, d, after, second, k, later, now, rest);
        lemma_resume_steps(cx, names, two.depth, two.state, frame, next, two.value, two.rest);
        lemma_submaps(locals, later, two.locals);
        let node = Expression::Binary(
            Rc::new(BinaryExpression { left: bound, right: two.value, ..copied(&*input) }),
        );
        let d = (two.depth - 1) as nat;
        assert(gave(names, resume(cx, d, two.state, next, node), two.rest)) by {
            reveal(resume_operand);
            reveal(resume);
        }
        assert(head(node) == head(expression));
        assert(store_in(eval(cx, model, two.locals, two.store, bound)) == two.store);
        Handed { depth: d, value: node, ..two }
    } else {
        lemma_settled(cx, open, second);
        lemma_opens(cx, second);
        let (d, s) = lemma_quiet(cx, names, d, after, second, k, rest);
        lemma_resume_steps(cx, names, d, s, frame, next, second, rest);
        let node = Expression::Binary(
            Rc::new(BinaryExpression { left: bound, right: second, ..copied(&*input) }),
        );
        let d = (d - 1) as nat;
        assert(gave(names, resume(cx, d, s, next, node), rest)) by {
            reveal(resume_operand);
            reveal(resume);
        }
        assert(head(node) == head(expression));
        branches_emit(&second);
        Handed { depth: d, state: s, value: node, rest, locals: later, store: now }
    }
}

proof fn lemma_repeat<V, S>(
    cx: Context,
    names: Texts,
    model: Model<V, S>,
    open: bool,
    depth: nat,
    state: State,
    input: Rc<RepeatExpression>,
    next: Continuation,
    locals: Map<Symbol, V>,
    store: S,
    out: List<Statement>,
) -> (handed: Handed<V, S>)
    requires
        is_set(cx, names, model, state, locals, out),
        is_regular(cx, open, Expression::Repeat(input)),
        is_orderly(cx, Expression::Repeat(input)),
        accepts(cx, open, next),
        gave(names, emit(cx, depth, state, Expression::Repeat(input), next), out),
        eval(cx, model, locals, store, Expression::Repeat(input)) is Some,
    ensures
        handed.depth < depth,
        comes_to(
            cx, names,
            model,
            open,
            next,
            locals,
            store,
            out,
            eval(cx, model, locals, store, Expression::Repeat(input))->0,
            handed,
        ),
    decreases depth, 1int,
{
    let expression = Expression::Repeat(input);
    lemma_emit_steps(cx, names, depth, state, expression, next, out);
    lemma_parts(cx, true, open, expression);
    reveal(is_orderly);
    reveal(eval);
    let below = (depth - 1) as nat;
    let first = copied(&input.expr);
    let second = copied(&input.count);
    let (store_between, _) = eval(cx, model, locals, store, first)->0;
    let frame = OperandFrame::RepeatElement { input };
    let k = Continuation::Operand(frame, Rc::new(next));
    lemma_element_accepts(cx, true, open, input, next);
    assert(gave(names, emit(cx, below, state, first, k), out)) by {
        reveal(emit_step);
        reveal(emit);
    }
    let one = lemma_emit(cx, names, model, open, below, state, first, k, locals, store, out);
    lemma_resume_steps(cx, names, one.depth, one.state, frame, next, one.value, one.rest);
    let d = (one.depth - 1) as nat;
    let strict = expression_may_emit_after_reconstruction(cx, second);
    let bound_step = materialize_if(cx, one.state, one.value, strict);
    assert(bound_step is Ok) by {
        reveal(resume_operand);
        reveal(emit);
    }
    let (after, (bound, statements)) = bound_step->Ok_0;
    let frame = OperandFrame::RepeatCount { expr: bound, input };
    let k = Continuation::Operand(frame, Rc::new(next));
    let emitted = emit(cx, d, after, second, k);
    assert(gave(names, preceded(statements, emitted), one.rest)) by {
        reveal(resume_operand);
        reveal(emit);
    }
    let rest = lemma_preceded(names, statements, emitted, one.rest);
    let (later, now) = lemma_bind_if(
        cx,
        model,
        open,
        one.state,
        one.value,
        strict,
        after,
        bound,
        statements,
        one.locals,
        one.store,
        rest,
    );
    lemma_submaps(locals, one.locals, later);
    lemma_more(cx, model, locals, later, store_between, second);
    if strict {
        lemma_count_accepts(cx, open, bound, input, next);
        let two = lemma_emit(cx, names, model, open, d, after, second, k, later, now, rest);
        lemma_resume_steps(cx, names, two.depth, two.state, frame, next, two.value, two.rest);
        lemma_submaps(locals, later, two.locals);
        let node = Expression::Repeat(
            Rc::new(RepeatExpression { expr: bound, count: two.value, ..copied(&*input) }),
        );
        let d = (two.depth - 1) as nat;
        assert(gave(names, resume(cx, d, two.state, next, node), two.rest)) by {
            reveal(resume_operand);
            reveal(resume);
        }
        assert(head(node) == head(expression));
        assert(store_in(eval(cx, model, two.locals, two.store, bound)) == two.store);
        Handed { depth: d, value: node, ..two }
    } else {
        lemma_settled(cx, open, second);
        lemma_opens(cx, second);
        let (d, s) = lemma_quiet(cx, names, d, after, second, k, rest);
        lemma_resume_steps(cx, names, d, s, frame, next, second, rest);
        let node = Expression::Repeat(
            Rc::new(RepeatExpression { expr: bound, count: second, ..copied(&*input) }),
        );
        let d = (d - 1) as nat;
        assert(gave(names, resume(cx, d, s, next, node), rest)) by {
            reveal(resume_operand);
            reveal(resume);
        }
        assert(head(node) == head(expression));
        branches_emit(&second);
        Handed { depth: d, state: s, value: node, rest, locals: later, store: now }
    }
}

proof fn lemma_array<V, S>(
    cx: Context,
    names: Texts,
    model: Model<V, S>,
    open: bool,
    depth: nat,
    state: State,
    input: Rc<ArrayExpression>,
    next: Continuation,
    locals: Map<Symbol, V>,
    store: S,
    out: List<Statement>,
) -> (handed: Handed<V, S>)
    requires
        is_set(cx, names, model, state, locals, out),
        is_regular(cx, open, Expression::Array(input)),
        is_orderly(cx, Expression::Array(input)),
        accepts(cx, open, next),
        gave(names, emit(cx, depth, state, Expression::Array(input), next), out),
        eval(cx, model, locals, store, Expression::Array(input)) is Some,
    ensures
        handed.depth < depth,
        comes_to(
            cx, names,
            model,
            open,
            next,
            locals,
            store,
            out,
            eval(cx, model, locals, store, Expression::Array(input))->0,
            handed,
        ),
    decreases depth, 1int,
{
    let expression = Expression::Array(input);
    lemma_emit_steps(cx, names, depth, state, expression, next, out);
    lemma_parts(cx, true, open, expression);
    reveal(is_orderly);
    reveal(eval);
    reveal(are_orderly);
    reveal(eval_all);
    let below = (depth - 1) as nat;
    let elements = copied(&input.elements);
    let frame = ListFrame::Array { input };
    let list = ListContinuation { frame, next: Rc::new(next) };
    lemma_array_accepts(cx, open, input, next);
    assert(gave(names, emit_list(cx, below, state, elements, List::Nil, list), out)) by {
        reveal(emit_step);
        reveal(emit_list);
    }
    let all = lemma_whole_list(
        cx,
        names,
        model,
        open,
        below,
        state,
        elements,
        list,
        locals,
        store,
        out,
    );
    lemma_list_steps(cx, names, all.depth, all.state, list, all.values, all.rest);
    let node = Expression::Array(
        Rc::new(ArrayExpression { elements: all.values, ..copied(&*input) }),
    );
    let d = (all.depth - 1) as nat;
    assert(gave(names, resume(cx, d, all.state, next, node), all.rest)) by {
        reveal(resume_list_step);
        reveal(resume);
    }
    assert(head(node) == head(expression));
    Handed {
        depth: d,
        state: all.state,
        value: node,
        rest: all.rest,
        locals: all.locals,
        store: all.store,
    }
}

proof fn lemma_tuple<V, S>(
    cx: Context,
    names: Texts,
    model: Model<V, S>,
    open: bool,
    depth: nat,
    state: State,
    input: Rc<TupleExpression>,
    next: Continuation,
    locals: Map<Symbol, V>,
    store: S,
    out: List<Statement>,
) -> (handed: Handed<V, S>)
    requires
        is_set(cx, names, model, state, locals, out),
        is_regular(cx, open, Expression::Tuple(input)),
        is_orderly(cx, Expression::Tuple(input)),
        accepts(cx, open, next),
        gave(names, emit(cx, depth, state, Expression::Tuple(input), next), out),
        eval(cx, model, locals, store, Expression::Tuple(input)) is Some,
    ensures
        handed.depth < depth,
        comes_to(
            cx, names,
            model,
            open,
            next,
            locals,
            store,
            out,
            eval(cx, model, locals, store, Expression::Tuple(input))->0,
            handed,
        ),
    decreases depth, 1int,
{
    let expression = Expression::Tuple(input);
    lemma_emit_steps(cx, names, depth, state, expression, next, out);
    lemma_parts(cx, true, open, expression);
    reveal(is_orderly);
    reveal(eval);
    reveal(are_orderly);
    reveal(eval_all);
    let below = (depth - 1) as nat;
    let elements = copied(&input.elements);
    let frame = ListFrame::Tuple { input };
    let list = ListContinuation { frame, next: Rc::new(next) };
    lemma_tuple_accepts(cx, open, input, next);
    assert(gave(names, emit_list(cx, below, state, elements, List::Nil, list), out)) by {
        reveal(emit_step);
        reveal(emit_list);
    }
    let all = lemma_whole_list(
        cx,
        names,
        model,
        open,
        below,
        state,
        elements,
        list,
        locals,
        store,
        out,
    );
    lemma_list_steps(cx, names, all.depth, all.state, list, all.values, all.rest);
    let node = Expression::Tuple(
        Rc::new(TupleExpression { elements: all.values, ..copied(&*input) }),
    );
    let d = (all.depth - 1) as nat;
    assert(gave(names, resume(cx, d, all.state, next, node), all.rest)) by {
        reveal(resume_list_step);
        reveal(resume);
    }
    assert(head(node) == head(expression));
    Handed {
        depth: d,
        state: all.state,
        value: node,
        rest: all.rest,
        locals: all.locals,
        store: all.store,
    }
}

pub proof fn lemma_submaps<V>(
    first: Map<Symbol, V>,
    second: Map<Symbol, V>,
    third: Map<Symbol, V>,
)
    requires
        first.submap_of(second),
        second.submap_of(third),
    ensures
        first.submap_of(third),
{
    assert forall|symbol: Symbol| #[trigger] first.dom().contains(
        symbol,
    ) implies third.dom().contains(
        symbol,
    ) && first[symbol] == third[symbol] by {
        assert(second.dom().contains(symbol));
    }
}

/* Lists */

proof fn lemma_whole_list<V, S>(
    cx: Context,
    names: Texts,
    model: Model<V, S>,
    open: bool,
    depth: nat,
    state: State,
    elements: List<Expression>,
    next: ListContinuation,
    locals: Map<Symbol, V>,
    store: S,
    out: List<Statement>,
) -> (handed: HandedAll<V, S>)
    requires
        is_set(cx, names, model, state, locals, out),
        are_regular(cx, open, elements),
        are_orderly(cx, elements),
        accepts_all(cx, open, next),
        gave(names, emit_list(cx, depth, state, elements, List::Nil, next), out),
        eval_all(cx, model, locals, store, elements) is Some,
    ensures
        handed.depth <= depth,
        all_come_to(
            cx, names,
            model,
            open,
            next,
            locals,
            store,
            out,
            eval_all(cx, model, locals, store, elements)->0,
            handed,
        ),
    decreases depth, 5int,
{
    let none = List::<Expression>::Nil;
    assert forall|later: Map<Symbol, V>, other: S|
        locals.submap_of(later) implies #[trigger] eval_all(cx, model, later, other, none) == Some(
        (other, Seq::<V>::empty()),
    ) by {
        reveal(eval_all);
    }
    let (last, values) = eval_all(cx, model, locals, store, elements)->0;
    assert(Seq::<V>::empty() + values =~= values);
    lemma_list(
        cx, names,
        model,
        open,
        depth,
        state,
        elements,
        none,
        next,
        locals,
        store,
        store,
        Seq::empty(),
        out,
    )
}

/// Values that were lowered wait in `rebuilt`. What is left of their evaluation brings the store
/// from `now` to `store`; if statements follow, nothing is left of it.
proof fn lemma_list<V, S>(
    cx: Context,
    names: Texts,
    model: Model<V, S>,
    open: bool,
    depth: nat,
    state: State,
    remaining: List<Expression>,
    rebuilt: List<Expression>,
    next: ListContinuation,
    locals: Map<Symbol, V>,
    now: S,
    store: S,
    before: Seq<V>,
    out: List<Statement>,
) -> (handed: HandedAll<V, S>)
    requires
        is_set(cx, names, model, state, locals, out),
        are_regular(cx, open, remaining),
        are_orderly(cx, remaining),
        all_rest(cx, open, rebuilt),
        accepts_all(cx, open, next),
        gave(names, emit_list(cx, depth, state, remaining, rebuilt, next), out),
        eval_all(cx, model, locals, now, rebuilt) == Some((store, before)),
        eval_all(cx, model, locals, store, remaining) is Some,
        any_may_emit_after(cx, remaining) ==> now == store && are_fixed(
            cx,
            model,
            locals,
            rebuilt,
            before,
        ),
    ensures
        handed.depth <= depth,
        all_come_to(
            cx, names,
            model,
            open,
            next,
            locals,
            now,
            out,
            (
                store_in(eval_all(cx, model, locals, store, remaining)),
                before + value_in(eval_all(cx, model, locals, store, remaining)),
            ),
            handed,
        ),
    decreases depth, 4int,
{
    match remaining {
        List::Nil => {
            reveal(emit_list);
            reveal(resume_list);
            reveal(eval_all);
            assert(before + Seq::<V>::empty() =~= before);
            HandedAll { depth, state, values: rebuilt, rest: out, locals, store: now }
        },
        List::Cons(first, rest) => {
            let rest = copied(&*rest);
            assert(remaining == List::Cons(first, Rc::new(rest)));
            if any_may_emit_after(cx, remaining) {
                lemma_list_emits(
                    cx, names,
                    model,
                    open,
                    depth,
                    state,
                    first,
                    rest,
                    rebuilt,
                    next,
                    locals,
                    store,
                    before,
                    out,
                )
            } else {
                lemma_settled_list(cx, open, remaining);
                let (d, s) = lemma_quiet_list(
                    cx,
                    names,
                    depth,
                    state,
                    remaining,
                    rebuilt,
                    next,
                    out,
                );
                lemma_eval_appended(cx, model, locals, now, rebuilt, remaining);
                if open {
                    lemma_opens_list(cx, remaining);
                }
                HandedAll {
                    depth: d,
                    state: s,
                    values: appended(rebuilt, remaining),
                    rest: out,
                    locals,
                    store: now,
                }
            }
        },
    }
}

proof fn lemma_settled_list(cx: Context, open: bool, expressions: List<Expression>)
    requires
        are_regular(cx, open, expressions),
        are_orderly(cx, expressions),
        !any_may_emit_after(cx, expressions),
    ensures
        are_quiet(cx, expressions),
        !any_requires_branch(expressions),
    decreases expressions,
{
    if let List::Cons(first, rest) = expressions {
        let rest = copied(&*rest);
        lemma_orderly_first(cx, first, rest);
        lemma_first(cx, true, open, first, rest);
        lemma_settled(cx, open, first);
        branches_emit(&first);
        lemma_settled_list(cx, open, rest);
    }
}

proof fn lemma_list_emits<V, S>(
    cx: Context,
    names: Texts,
    model: Model<V, S>,
    open: bool,
    depth: nat,
    state: State,
    first: Expression,
    rest: List<Expression>,
    rebuilt: List<Expression>,
    next: ListContinuation,
    locals: Map<Symbol, V>,
    store: S,
    before: Seq<V>,
    out: List<Statement>,
) -> (handed: HandedAll<V, S>)
    requires
        is_set(cx, names, model, state, locals, out),
        are_regular(cx, open, List::Cons(first, Rc::new(rest))),
        are_orderly(cx, List::Cons(first, Rc::new(rest))),
        all_rest(cx, open, rebuilt),
        accepts_all(cx, open, next),
        gave(names, 
            emit_list(cx, depth, state, List::Cons(first, Rc::new(rest)), rebuilt, next),
            out,
        ),
        eval_all(cx, model, locals, store, List::Cons(first, Rc::new(rest))) is Some,
        are_fixed(cx, model, locals, rebuilt, before),
    ensures
        handed.depth <= depth,
        all_come_to(
            cx, names,
            model,
            open,
            next,
            locals,
            store,
            out,
            (
                store_in(eval_all(cx, model, locals, store, List::Cons(first, Rc::new(rest)))),
                before
                    + value_in(
                        eval_all(cx, model, locals, store, List::Cons(first, Rc::new(rest))),
                    ),
            ),
            handed,
        ),
    decreases depth, 3int,
{
    lemma_orderly_first(cx, first, rest);
    lemma_first(cx, true, open, first, rest);
    let k = Continuation::Element { rest, rebuilt, next: Rc::new(next) };
    assert forall|other: State, value: Expression|
        is_regular_state(cx, other) && rests(cx, open, value) implies #[trigger] resumes(
        cx,
        other,
        k,
        value,
    ) by {
        lemma_element_of_list(cx, true, open, other, rest, rebuilt, next, value);
    }
    assert(gave(names, emit(cx, depth, state, first, k), out)) by {
        reveal(emit_list);
        reveal(emit);
    }
    lemma_eval_cons(cx, model, locals, store, first, rest);
    let (between, value) = eval(cx, model, locals, store, first)->0;
    let (last, values) = eval_all(cx, model, locals, between, rest)->0;
    let got = lemma_emit(cx, names, model, open, depth, state, first, k, locals, store, out);
    lemma_element_steps(
        cx, names,
        got.depth,
        got.state,
        rest,
        rebuilt,
        next,
        got.value,
        got.rest,
    );
    let strict = any_may_emit_after(cx, rest);
    let (after, (bound, statements)) = materialize_if(cx, got.state, got.value, strict)->Ok_0;
    let d = (got.depth - 1) as nat;
    let more = appended(rebuilt, one(bound));
    let emitted = emit_list(cx, d, after, rest, more, next);
    let tail = lemma_preceded(names, statements, emitted, got.rest);
    let (later, now) = lemma_bind_if(
        cx,
        model,
        open,
        got.state,
        got.value,
        strict,
        after,
        bound,
        statements,
        got.locals,
        got.store,
        tail,
    );
    lemma_submaps(locals, got.locals, later);
    lemma_more_all(cx, model, locals, later, between, rest);
    lemma_eval_appended(cx, model, later, now, rebuilt, one(bound));
    lemma_eval_one(cx, model, later, now, bound);
    assert(eval_all(cx, model, later, now, rebuilt) == Some((now, before)));
    assert(all_rest(cx, open, one(bound))) by {
        reveal_with_fuel(any_requires_branch, 2);
    }
    let with_it = before + seq![value];
    assert(eval_all(cx, model, later, now, more) == Some((between, with_it)));
    if strict {
        assert forall|even: Map<Symbol, V>, other: S|
            later.submap_of(even) implies #[trigger] eval_all(cx, model, even, other, more) == Some(
            (other, with_it),
        ) by {
            lemma_submaps(locals, later, even);
            lemma_eval_appended(cx, model, even, other, rebuilt, one(bound));
            lemma_eval_one(cx, model, even, other, bound);
            assert(eval_all(cx, model, even, other, rebuilt) == Some((other, before)));
            assert(eval(cx, model, even, other, bound) == Some((other, value)));
        }
    }
    let handed = lemma_list(
        cx, names,
        model,
        open,
        d,
        after,
        rest,
        more,
        next,
        later,
        now,
        between,
        with_it,
        tail,
    );
    lemma_submaps(locals, later, handed.locals);
    assert(with_it + values =~= before + (seq![value] + values));
    handed
}

/* Operations */

pub proof fn lemma_grown(first: Texts, second: Texts, third: Texts)
    requires
        grown(first, second),
        grown(second, third),
    ensures
        grown(first, third),
{
    reveal(grown);
    assert forall|i: int| 0 <= i < first.len() implies #[trigger] third[i] == first[i] by {
        assert(second[i] == first[i]);
    }
}

/// What a single operation was lowered to does what the operation does, and its value is handed on,
/// or lowered first.
proof fn lemma_operation<V, S>(
    cx: Context,
    names: Texts,
    model: Model<V, S>,
    open: bool,
    depth: nat,
    state: State,
    operation: Expression,
    after: State,
    value: Expression,
    code: List<Statement>,
    source: NodeId,
    keeps_dynamic: bool,
    next: Continuation,
    locals: Map<Symbol, V>,
    store: S,
    out: List<Statement>,
) -> (handed: Handed<V, S>)
    requires
        is_set(cx, names, model, state, locals, out),
        is_operation(cx, operation),
        reconstruct_expression(cx, state, operation) == Ok::<_, Halt>((after, (value, code))),
        is_regular_state(cx, after),
        is_plain(cx, false, value),
        !(value is DynamicOp),
        accepts(cx, open, next),
        gave(names, 
            emit_lowered(
                cx,
                depth,
                Ok((after, (value, code))),
                source,
                keeps_dynamic,
                next,
            ),
            out,
        ),
        eval(cx, model, locals, store, operation) is Some,
    ensures
        handed.depth <= depth,
        comes_to(
            cx, names,
            model,
            open,
            next,
            locals,
            store,
            out,
            eval(cx, model, locals, store, operation)->0,
            handed,
        ),
    decreases depth, 3int,
{
    let result = eval(cx, model, locals, store, operation)->0;
    let known = copy_expression_type(after, source, value.spec_id());
    let branches = expression_requires_branch_cps(value);
    let emitted = if branches {
        emit(cx, depth, known, value, next)
    } else {
        resume(cx, depth, known, next, value)
    };
    assert(gave(names, preceded(code, emitted), out)) by {
        reveal(emit_lowered);
        reveal(emit);
        reveal(resume);
    }
    let rest = lemma_preceded(names, code, emitted, out);
    lemma_anew_first(locals.dom(), code, rest);
    assert(keeps(after.names, names)) by {
        assert(grown(known.names, known.names)) by {
            reveal(grown);
        }
        grow_emit(known.names, cx, depth, known, value, next);
        grow_resume(known.names, cx, depth, known, next, value);
        lemma_grown(known.names, emitted->Ok_0.0.names, names);
        reveal(grown);
    }
    assert(operation_is_sound(cx, names, model, state, operation, locals, store)) by {
        reveal(operations_are_sound);
    }
    let (later, now) = match run_all(cx, model, locals, store, code) {
        Outcome::Goes(later, now) => (later, now),
        _ => arbitrary(),
    };
    lemma_followed(cx, model, locals, store, code, rest, later, now);
    lemma_opens(cx, value);
    if branches {
        lemma_regular(cx, false, value);
        lemma_narrowed(cx, open, next);
        let handed = lemma_emit(
            cx,
            names,
            model,
            false,
            depth,
            known,
            value,
            next,
            later,
            now,
            rest,
        );
        lemma_submaps(locals, later, handed.locals);
        lemma_opens(cx, handed.value);
        handed
    } else {
        Handed { depth, state: known, value, rest, locals: later, store: now }
    }
}

proof fn lemma_path<V, S>(
    cx: Context,
    names: Texts,
    model: Model<V, S>,
    open: bool,
    depth: nat,
    state: State,
    input: Rc<Path>,
    next: Continuation,
    locals: Map<Symbol, V>,
    store: S,
    out: List<Statement>,
) -> (handed: Handed<V, S>)
    requires
        is_set(cx, names, model, state, locals, out),
        is_regular(cx, open, Expression::Path(input)),
        is_orderly(cx, Expression::Path(input)),
        accepts(cx, open, next),
        gave(names, emit(cx, depth, state, Expression::Path(input), next), out),
        eval(cx, model, locals, store, Expression::Path(input)) is Some,
    ensures
        handed.depth < depth,
        comes_to(
            cx, names,
            model,
            open,
            next,
            locals,
            store,
            out,
            eval(cx, model, locals, store, Expression::Path(input))->0,
            handed,
        ),
    decreases depth, 1int,
{
    let expression = Expression::Path(input);
    lemma_emit_steps(cx, names, depth, state, expression, next, out);
    lemma_parts(cx, true, open, expression);
    reveal(is_orderly);
    reveal(eval);
    let below = (depth - 1) as nat;
    let lowered = reconstruct_expression(cx, state, expression);
    let id = input.id;
    assert(gave(names, emit_lowered(cx, below, lowered, id, false, next), out)) by {
        reveal(emit_step);
        reveal(emit_lowered);
    }
    assert(lowered is Ok) by {
        reveal(emit_lowered);
    }
    let (after, (value, code)) = lowered->Ok_0;
    if path_reconstructs_to_branch_cps(cx, copied(&*input)) {
        assert(is_direct(cx, false, expression)) by {
            reveal(is_direct);
        }
        direct_values::lemma_source(cx, false, state, expression);
        lemma_path_value(cx, state, copied(&*input));
        lemma_operation(
            cx, names,
            model,
            open,
            below,
            state,
            expression,
            after,
            value,
            code,
            id,
            false,
            next,
            locals,
            store,
            out,
        )
    } else {
        assert(is_plain(cx, false, expression) && is_plain(cx, true, expression));
        plain_expressions_stay(cx, false, state, expression);
        let known = copy_expression_type(state, id, id);
        assert(gave(names, resume(cx, below, known, next, expression), out)) by {
            reveal(emit_lowered);
            reveal(resume);
        }
        Handed { depth: below, state: known, value: expression, rest: out, locals, store }
    }
}

proof fn lemma_path_value(cx: Context, state: State, path: Path)
    ensures
        reconstruct_expression(cx, state, Expression::Path(Rc::new(path))) matches Ok(
            (_, (value, _)),
        ) ==> !(value is DynamicOp),
{
    reveal(reconstruct_expression);
    reveal(reconstruct_path);
    reveal(read_storage);
}

proof fn lemma_call<V, S>(
    cx: Context,
    names: Texts,
    model: Model<V, S>,
    open: bool,
    depth: nat,
    state: State,
    input: Rc<CallExpression>,
    next: Continuation,
    locals: Map<Symbol, V>,
    store: S,
    out: List<Statement>,
) -> (handed: Handed<V, S>)
    requires
        is_set(cx, names, model, state, locals, out),
        is_regular(cx, open, Expression::Call(input)),
        is_orderly(cx, Expression::Call(input)),
        accepts(cx, open, next),
        gave(names, emit(cx, depth, state, Expression::Call(input), next), out),
        eval(cx, model, locals, store, Expression::Call(input)) is Some,
    ensures
        handed.depth < depth,
        comes_to(
            cx, names,
            model,
            open,
            next,
            locals,
            store,
            out,
            eval(cx, model, locals, store, Expression::Call(input))->0,
            handed,
        ),
    decreases depth, 1int,
{
    let expression = Expression::Call(input);
    lemma_emit_steps(cx, names, depth, state, expression, next, out);
    lemma_parts(cx, true, open, expression);
    reveal(is_orderly);
    reveal(eval);
    reveal(are_orderly);
    reveal(eval_all);
    let below = (depth - 1) as nat;
    let const_arguments = copied(&input.const_arguments);
    let arguments = copied(&input.arguments);
    let (between, _) = eval_all(cx, model, locals, store, const_arguments)->0;
    let frame = ListFrame::CallConst { input };
    let list = ListContinuation { frame, next: Rc::new(next) };
    lemma_call_const_accepts(cx, true, open, input, next);
    assert(gave(names, emit_list(cx, below, state, const_arguments, List::Nil, list), out)) by {
        reveal(emit_step);
        reveal(emit_list);
    }
    assert(are_orderly(cx, const_arguments) && are_orderly(cx, arguments)) by {
        reveal(are_orderly);
    }
    lemma_settled_list(cx, false, const_arguments);
    lemma_opens_list(cx, const_arguments);
    let (d, s) = lemma_quiet_list(cx, names, below, state, const_arguments, List::Nil, list, out);
    lemma_list_steps(cx, names, d, s, list, const_arguments, out);
    let d = (d - 1) as nat;
    let frame = ListFrame::CallArguments { input, const_arguments };
    let list = ListContinuation { frame, next: Rc::new(next) };
    assert(gave(names, emit_list(cx, d, s, arguments, List::Nil, list), out)) by {
        reveal(resume_list_step);
        reveal(emit_list);
    }
    lemma_call_arguments_accepts(cx, true, open, input, const_arguments, next);
    lemma_inert_values(cx, model, locals, locals, store, store, const_arguments);
    let all = lemma_whole_list(cx, names, model, false, d, s, arguments, list, locals, store, out);
    lemma_list_steps(cx, names, all.depth, all.state, list, all.values, all.rest);
    let d = (all.depth - 1) as nat;
    let call = CallExpression { const_arguments, arguments: all.values, ..copied(&*input) };
    let node = Expression::Call(Rc::new(call));
    let lowered = reconstruct_call(cx, all.state, call);
    assert(gave(names, emit_lowered(cx, d, lowered, input.id, false, next), all.rest)) by {
        reveal(resume_list_step);
        reveal(emit_lowered);
    }
    assert(lowered is Ok) by {
        reveal(emit_lowered);
    }
    staying::lemma_call(cx, all.state, call);
    let known = copy_expression_type(all.state, input.id, input.id);
    assert(gave(names, resume(cx, d, known, next, node), all.rest)) by {
        reveal(emit_lowered);
        reveal(resume);
    }
    lemma_inert_values(cx, model, locals, all.locals, store, all.store, const_arguments);
    assert(head(node) == head(expression));
    assert(is_plain(cx, open, node));
    Handed {
        depth: d,
        state: known,
        value: node,
        rest: all.rest,
        locals: all.locals,
        store: all.store,
    }
}

/// Inert expressions have the same values whenever they are evaluated.
proof fn lemma_inert_values<V, S>(
    cx: Context,
    model: Model<V, S>,
    locals: Map<Symbol, V>,
    later: Map<Symbol, V>,
    store: S,
    other: S,
    expressions: List<Expression>,
)
    requires
        are_inert(expressions),
        are_plain(cx, true, expressions),
        locals.submap_of(later),
        eval_all(cx, model, locals, store, expressions) is Some,
    ensures
        store_in(eval_all(cx, model, locals, store, expressions)) == store,
        eval_all(cx, model, later, other, expressions) == Some(
            (other, value_in(eval_all(cx, model, locals, store, expressions))),
        ),
{
    let types = Map::<NodeId, Type>::empty();
    lemma_all_inert(types, expressions);
    lemma_fixed_all(cx, model, types, locals, later, store, other, expressions);
}

proof fn lemma_all_inert(types: Map<NodeId, Type>, expressions: List<Expression>)
    requires
        are_inert(expressions),
    ensures
        all_can_be_discarded(types, expressions),
    decreases expressions,
{
    reveal(all_can_be_discarded);
    reveal(can_be_discarded);
    if let List::Cons(first, rest) = expressions {
        assert(can_be_discarded(types, first));
        lemma_all_inert(types, copied(&*rest));
    }
}

proof fn lemma_intrinsic<V, S>(
    cx: Context,
    names: Texts,
    model: Model<V, S>,
    open: bool,
    depth: nat,
    state: State,
    input: Rc<IntrinsicExpression>,
    next: Continuation,
    locals: Map<Symbol, V>,
    store: S,
    out: List<Statement>,
) -> (handed: Handed<V, S>)
    requires
        is_set(cx, names, model, state, locals, out),
        is_regular(cx, open, Expression::Intrinsic(input)),
        is_orderly(cx, Expression::Intrinsic(input)),
        accepts(cx, open, next),
        gave(names, emit(cx, depth, state, Expression::Intrinsic(input), next), out),
        eval(cx, model, locals, store, Expression::Intrinsic(input)) is Some,
    ensures
        handed.depth < depth,
        comes_to(
            cx, names,
            model,
            open,
            next,
            locals,
            store,
            out,
            eval(cx, model, locals, store, Expression::Intrinsic(input))->0,
            handed,
        ),
    decreases depth, 1int,
{
    let expression = Expression::Intrinsic(input);
    lemma_emit_steps(cx, names, depth, state, expression, next, out);
    lemma_parts(cx, true, open, expression);
    reveal(is_orderly);
    reveal(eval);
    reveal(are_orderly);
    reveal(eval_all);
    let below = (depth - 1) as nat;
    reveal(are_orderly);
    if takes_vector(input.op) {
        lemma_vector(cx, names, model, open, depth, state, input, next, locals, store, out)
    } else {
        let arguments = copied(&input.arguments);
        let frame = ListFrame::Intrinsic { input, first: List::Nil };
        let list = ListContinuation { frame, next: Rc::new(next) };
        lemma_intrinsic_accepts(cx, true, open, input, next);
        assert(gave(names, emit_list(cx, below, state, arguments, List::Nil, list), out)) by {
            reveal(emit_step);
            reveal(emit_list);
        }
        let all = lemma_whole_list(
            cx, names,
            model,
            false,
            below,
            state,
            arguments,
            list,
            locals,
            store,
            out,
        );
        lemma_list_steps(cx, names, all.depth, all.state, list, all.values, all.rest);
        let d = (all.depth - 1) as nat;
        let operation = IntrinsicExpression {
            arguments: appended(List::Nil, all.values),
            ..copied(&*input)
        };
        let node = Expression::Intrinsic(Rc::new(operation));
        let lowered = reconstruct_intrinsic(cx, all.state, operation);
        assert(gave(names, emit_lowered(cx, d, lowered, input.id, false, next), all.rest)) by {
            reveal(resume_list_step);
            reveal(emit_lowered);
        }
        assert(lowered is Ok) by {
            reveal(emit_lowered);
        }
        staying::lemma_intrinsic(cx, all.state, operation);
        let known = copy_expression_type(all.state, input.id, input.id);
        assert(gave(names, resume(cx, d, known, next, node), all.rest)) by {
            reveal(emit_lowered);
            reveal(resume);
        }
        assert(head(node) == head(expression));
        assert(is_plain(cx, open, node));
        Handed {
            depth: d,
            state: known,
            value: node,
            rest: all.rest,
            locals: all.locals,
            store: all.store,
        }
    }
}

proof fn lemma_vector<V, S>(
    cx: Context,
    names: Texts,
    model: Model<V, S>,
    open: bool,
    depth: nat,
    state: State,
    input: Rc<IntrinsicExpression>,
    next: Continuation,
    locals: Map<Symbol, V>,
    store: S,
    out: List<Statement>,
) -> (handed: Handed<V, S>)
    requires
        is_set(cx, names, model, state, locals, out),
        takes_vector(input.op),
        is_regular(cx, open, Expression::Intrinsic(input)),
        is_orderly(cx, Expression::Intrinsic(input)),
        accepts(cx, open, next),
        gave(names, emit(cx, depth, state, Expression::Intrinsic(input), next), out),
        eval(cx, model, locals, store, Expression::Intrinsic(input)) is Some,
    ensures
        handed.depth < depth,
        comes_to(
            cx, names,
            model,
            open,
            next,
            locals,
            store,
            out,
            eval(cx, model, locals, store, Expression::Intrinsic(input))->0,
            handed,
        ),
    decreases depth, 0int,
{
    let expression = Expression::Intrinsic(input);
    lemma_emit_steps(cx, names, depth, state, expression, next, out);
    lemma_parts(cx, true, open, expression);
    reveal(is_orderly);
    reveal(eval);
    reveal(are_orderly);
    reveal(eval_all);
    let below = (depth - 1) as nat;
    reveal(are_orderly);
    assert(!(input.arguments is Nil)) by {
        reveal(emit_step);
        reveal(emit_list);
    }
    let (vector, values) = match copied(&input.arguments) {
        List::Cons(vector, values) => (vector, copied(&*values)),
        _ => arbitrary(),
    };
    let frame = ListFrame::Intrinsic { input, first: one(vector) };
    let list = ListContinuation { frame, next: Rc::new(next) };
    lemma_vector_accepts(cx, open, input, vector, next);
    assert(gave(names, emit_list(cx, below, state, values, List::Nil, list), out)) by {
        reveal(emit_step);
        reveal(emit_list);
    }
    assert(are_orderly(cx, input.arguments));
    lemma_orderly_first(cx, vector, values);
    let all = lemma_whole_list(
        cx,
        names,
        model,
        true,
        below,
        state,
        values,
        list,
        locals,
        store,
        out,
    );
    lemma_list_steps(cx, names, all.depth, all.state, list, all.values, all.rest);
    let d = (all.depth - 1) as nat;
    let operation = IntrinsicExpression {
        arguments: appended(one(vector), all.values),
        ..copied(&*input)
    };
    assert(operation.arguments == List::Cons(vector, Rc::new(all.values))) by {
        reveal_with_fuel(appended, 2);
    }
    let node = Expression::Intrinsic(Rc::new(operation));
    let lowered = reconstruct_intrinsic(cx, all.state, operation);
    assert(gave(names, emit_lowered(cx, d, lowered, input.id, false, next), all.rest)) by {
        reveal(resume_list_step);
        reveal(emit_lowered);
    }
    assert(lowered is Ok) by {
        reveal(emit_lowered);
    }
    let (after, (value, code)) = lowered->Ok_0;
    lemma_direct_list(cx, true, all.values);
    direct_values::lemma_intrinsic(cx, false, all.state, operation);
    assert(reconstruct_expression(cx, all.state, node) == lowered) by {
        reveal(reconstruct_expression);
        reveal(reconstruct_intrinsic);
    }
    lemma_intrinsic_value(cx, all.state, operation);
    assert(head(node) == head(expression));
    let handed = lemma_operation(
        cx, names,
        model,
        open,
        d,
        all.state,
        node,
        after,
        value,
        code,
        input.id,
        false,
        next,
        all.locals,
        all.store,
        all.rest,
    );
    lemma_submaps(locals, all.locals, handed.locals);
    handed
}

proof fn lemma_intrinsic_value(cx: Context, state: State, input: IntrinsicExpression)
    requires
        takes_vector(input.op),
    ensures
        reconstruct_intrinsic(cx, state, input) matches Ok((_, (value, _))) ==> !(
        value is DynamicOp),
{
    reveal(reconstruct_intrinsic);
    reveal(reconstruct_vector_push);
    reveal(reconstruct_vector_get);
    reveal(reconstruct_vector_set);
    reveal(reconstruct_vector_swap_remove);
    reveal(finish_push);
    reveal(finish_get);
    reveal(finish_set);
    reveal(finish_swap_remove);
    reveal(push_value);
    reveal(vector_len);
    reveal(pop_value);
    reveal(get_value);
    reveal(set_value);
    reveal(clear_vector);
    reveal(swap_remove_value);
    reveal(get_vector_len_expr);
}

proof fn lemma_ternary<V, S>(
    cx: Context,
    names: Texts,
    model: Model<V, S>,
    open: bool,
    depth: nat,
    state: State,
    input: Rc<TernaryExpression>,
    next: Continuation,
    locals: Map<Symbol, V>,
    store: S,
    out: List<Statement>,
) -> (handed: Handed<V, S>)
    requires
        is_set(cx, names, model, state, locals, out),
        is_regular(cx, open, Expression::Ternary(input)),
        is_orderly(cx, Expression::Ternary(input)),
        accepts(cx, open, next),
        gave(names, emit(cx, depth, state, Expression::Ternary(input), next), out),
        eval(cx, model, locals, store, Expression::Ternary(input)) is Some,
    ensures
        handed.depth < depth,
        comes_to(
            cx, names,
            model,
            open,
            next,
            locals,
            store,
            out,
            eval(cx, model, locals, store, Expression::Ternary(input))->0,
            handed,
        ),
    decreases depth, 1int,
{
    let expression = Expression::Ternary(input);
    lemma_emit_steps(cx, names, depth, state, expression, next, out);
    lemma_parts(cx, true, open, expression);
    reveal(is_orderly);
    reveal(eval);
    let below = (depth - 1) as nat;
    let optional_type = optional_type_of(state, input.id);
    let frame = OperandFrame::TernaryCondition { input, optional_type };
    let k = Continuation::Operand(frame, Rc::new(next));
    let condition = copied(&input.condition);
    let if_true = copied(&input.if_true);
    let if_false = copied(&input.if_false);
    let (between, chosen) = eval(cx, model, locals, store, condition)->0;
    lemma_condition_accepts(cx, true, open, input, optional_type, next);
    assert(gave(names, emit(cx, below, state, condition, k), out)) by {
        reveal(emit_step);
        reveal(emit);
    }
    let first = lemma_emit(cx, names, model, open, below, state, condition, k, locals, store, out);
    lemma_resume_steps(cx, names, first.depth, first.state, frame, next, first.value, first.rest);
    let d = (first.depth - 1) as nat;
    assert(gave(names, 
        resume_ternary(
            cx,
            d,
            first.state,
            copied(&*input),
            optional_type,
            next,
            first.value,
        ),
        first.rest,
    )) by {
        reveal(resume_operand);
        reveal(resume_ternary);
    }
    if expression_may_emit_after_reconstruction(cx, if_true)
        || expression_may_emit_after_reconstruction(cx, if_false) {
        assert(gave(names, 
            emit_branches(
                cx,
                d,
                first.state,
                first.value,
                (if_true, List::Nil),
                (if_false, List::Nil),
                optional_type,
                input.span,
                next,
            ),
            first.rest,
        )) by {
            reveal(resume_ternary);
            reveal(emit_branches);
        }
        lemma_more(cx, model, locals, first.locals, between, if_true);
        lemma_more(cx, model, locals, first.locals, between, if_false);
        let handed = lemma_branches(
            cx, names,
            model,
            open,
            d,
            first.state,
            first.value,
            if_true,
            if_false,
            optional_type,
            input.span,
            next,
            first.locals,
            first.store,
            first.rest,
        );
        lemma_submaps(locals, first.locals, handed.locals);
        handed
    } else {
        lemma_settled(cx, open, if_true);
        lemma_settled(cx, open, if_false);
        lemma_opens(cx, if_true);
        lemma_opens(cx, if_false);
        plain_expressions_stay(cx, false, first.state, if_true);
        plain_expressions_stay(cx, false, first.state, if_false);
        branches_emit(&if_true);
        branches_emit(&if_false);
        let node = Expression::Ternary(
            Rc::new(TernaryExpression { condition: first.value, ..copied(&*input) }),
        );
        assert(gave(names, resume(cx, d, first.state, next, node), first.rest)) by {
            reveal(resume_ternary);
            reveal(resume);
        }
        lemma_more(cx, model, locals, first.locals, between, if_true);
        if let Some((store, _)) = eval(cx, model, locals, between, if_true) {
            lemma_more(cx, model, locals, first.locals, store, if_false);
        }
        Handed { depth: d, value: node, ..first }
    }
}

/// Of the branches that a ternary is lowered to, the one that is selected runs.
proof fn lemma_branches<V, S>(
    cx: Context,
    names: Texts,
    model: Model<V, S>,
    open: bool,
    depth: nat,
    state: State,
    condition: Expression,
    if_true: Expression,
    if_false: Expression,
    optional_type: Option<Type>,
    span: Span,
    next: Continuation,
    locals: Map<Symbol, V>,
    store: S,
    out: List<Statement>,
) -> (handed: Handed<V, S>)
    requires
        is_set(cx, names, model, state, locals, out),
        is_regular(cx, open, if_true),
        is_regular(cx, open, if_false),
        is_orderly(cx, if_true),
        is_orderly(cx, if_false),
        accepts(cx, open, next),
        optional_type matches Some(type_) ==> type_is_plain(cx, type_),
        gave(names, 
            emit_branches(
                cx,
                depth,
                state,
                condition,
                (if_true, List::Nil),
                (if_false, List::Nil),
                optional_type,
                span,
                next,
            ),
            out,
        ),
        eval(cx, model, locals, store, condition) matches Some((between, chosen)) && (model.truth)(
            chosen,
        ) matches Some(truth) && eval(
            cx,
            model,
            locals,
            between,
            if truth {
                if_true
            } else {
                if_false
            },
        ) is Some,
    ensures
        handed.depth <= depth,
        comes_to(
            cx, names,
            model,
            open,
            next,
            locals,
            store,
            out,
            ({
                let (between, chosen) = eval(cx, model, locals, store, condition)->0;
                let arm = if (model.truth)(chosen)->0 {
                    if_true
                } else {
                    if_false
                };
                eval(cx, model, locals, between, arm)->0
            }),
            handed,
        ),
    decreases depth, 3int,
{
    let (between, chosen) = eval(cx, model, locals, store, condition)->0;
    let truth = (model.truth)(chosen)->0;
    let frame = OperandFrame::TernaryArm { optional_type, span };
    let k = Continuation::Operand(frame, Rc::new(next));
    lemma_arm_accepts(cx, open, optional_type, span, next);
    let first = emit(cx, depth, state, if_true, k);
    assert(first is Ok) by {
        reveal(emit_branches);
        reveal(emit);
    }
    let (middle, then_statements) = first->Ok_0;
    lemma_left(cx, open, depth, state, if_true, k);
    let second = emit(cx, depth, middle, if_false, k);
    assert(second is Ok) by {
        reveal(emit_branches);
        reveal(emit);
    }
    let (last, else_statements) = second->Ok_0;
    assert(grown(last.names, names)) by {
        reveal(emit_branches);
        reveal(emit);
    }
    assert(grown(middle.names, names)) by {
        assert(grown(middle.names, middle.names)) by {
            reveal(grown);
        }
        grow_emit(middle.names, cx, depth, middle, if_false, k);
        lemma_grown(middle.names, last.names, names);
    }
    let statement = branch_statement(last, condition, then_statements, else_statements, span).1;
    assert(out == one(statement)) by {
        reveal(emit_branches);
        reveal(emit);
    }
    lemma_run_one(cx, model, locals, store, statement);
    let (from, arm, chosen_out) = if truth {
        (state, if_true, then_statements)
    } else {
        (middle, if_false, else_statements)
    };
    assert(run_all(cx, model, locals, store, out) == run_all(
        cx,
        model,
        locals,
        between,
        chosen_out,
    )) by {
        reveal(run);
        reveal(run_all);
        if let Statement::Conditional(input) = statement {
            if let Some(otherwise) = copied(&input.otherwise) {
                assert(run(cx, model, locals, between, otherwise) == run_all(
                    cx,
                    model,
                    locals,
                    between,
                    else_statements,
                ));
            }
        }
    }
    assert(all_define_anew(locals.dom(), chosen_out)) by {
        reveal(all_define_anew);
        reveal_with_fuel(defines_anew, 2);
        assert(defines_anew(locals.dom(), statement));
    }
    let got = lemma_emit(cx, names, model, open, depth, from, arm, k, locals, between, chosen_out);
    lemma_resume_steps(cx, names, got.depth, got.state, frame, next, got.value, got.rest);
    let d = (got.depth - 1) as nat;
    match optional_type {
        None => {
            assert(gave(names, resume(cx, d, got.state, next, got.value), got.rest)) by {
                reveal(resume_operand);
                reveal(resume);
            }
            Handed { depth: d, ..got }
        },
        Some(type_) => {
            let (bound, (variable, definition)) = bind_optional_ternary_branch(
                got.state,
                got.value,
                type_,
                span,
            );
            let emitted = resume(cx, d, bound, next, variable);
            assert(gave(names, preceded(one(definition), emitted), got.rest)) by {
                reveal(resume_operand);
                reveal(resume);
            }
            let rest = lemma_preceded(names, one(definition), emitted, got.rest);
            let (after, value) = eval(cx, model, got.locals, got.store, got.value)->0;
            let name = match definition {
                Statement::Definition(input) => match copied(&input.place) {
                    DefinitionPlace::Single(identifier) => identifier.name,
                    _ => arbitrary(),
                },
                _ => arbitrary(),
            };
            let later = got.locals.insert(name, value);
            lemma_run_one(cx, model, got.locals, got.store, definition);
            assert(run(cx, model, got.locals, got.store, definition) == Outcome::Goes(
                later,
                after,
            )) by {
                reveal(run);
            }
            lemma_followed(
                cx,
                model,
                got.locals,
                got.store,
                one(definition),
                rest,
                later,
                after,
            );
            assert(!got.locals.contains_key(name)) by {
                lemma_anew_first(got.locals.dom(), one(definition), rest);
                reveal(all_define_anew);
                assert(defines_anew(got.locals.dom(), definition));
                assert(defined_by(definition).contains(name));
            }
            lemma_submaps(locals, got.locals, later);
            assert(eval(cx, model, later, after, variable) == Some((after, value))) by {
                reveal(eval);
            }
            Handed { depth: d, state: bound, value: variable, rest, locals: later, store: after }
        },
    }
}

proof fn lemma_composite<V, S>(
    cx: Context,
    names: Texts,
    model: Model<V, S>,
    open: bool,
    depth: nat,
    state: State,
    input: Rc<CompositeExpression>,
    next: Continuation,
    locals: Map<Symbol, V>,
    store: S,
    out: List<Statement>,
) -> (handed: Handed<V, S>)
    requires
        is_set(cx, names, model, state, locals, out),
        is_regular(cx, open, Expression::Composite(input)),
        is_orderly(cx, Expression::Composite(input)),
        accepts(cx, open, next),
        gave(names, emit(cx, depth, state, Expression::Composite(input), next), out),
        eval(cx, model, locals, store, Expression::Composite(input)) is Some,
    ensures
        handed.depth < depth,
        comes_to(
            cx, names,
            model,
            open,
            next,
            locals,
            store,
            out,
            eval(cx, model, locals, store, Expression::Composite(input))->0,
            handed,
        ),
    decreases depth, 1int,
{
    let expression = Expression::Composite(input);
    lemma_emit_steps(cx, names, depth, state, expression, next, out);
    lemma_parts(cx, true, open, expression);
    reveal(is_orderly);
    reveal(eval);
    reveal(are_orderly);
    reveal(eval_all);
    reveal(eval_members);
    reveal(eval_option);
    reveal(option_is_orderly);
    reveal(fields_are_orderly);
    let below = (depth - 1) as nat;
    let const_arguments = copied(&input.const_arguments);
    let members = copied(&input.members);
    let frame = ListFrame::CompositeConst { input };
    let list = ListContinuation { frame, next: Rc::new(next) };
    assert(gave(names, emit_list(cx, below, state, const_arguments, List::Nil, list), out)) by {
        reveal(emit_step);
        reveal(emit_list);
    }
    assert(are_orderly(cx, const_arguments)) by {
        reveal(are_orderly);
    }
    lemma_settled_list(cx, open, const_arguments);
    lemma_opens_list(cx, const_arguments);
    let (d, s) = lemma_quiet_list(cx, names, below, state, const_arguments, List::Nil, list, out);
    lemma_list_steps(cx, names, d, s, list, const_arguments, out);
    let d = (d - 1) as nat;
    let composite = CompositeExpression { const_arguments, ..copied(&*input) };
    assert(composite == *input);
    assert(gave(names, 
        emit_composite_members(cx, d, s, composite, List::Nil, members, next),
        out,
    )) by {
        reveal(resume_list_step);
        reveal(emit_composite_members);
    }
    let (_, values) = eval_all(cx, model, locals, store, const_arguments)->0;
    assert forall|later: Map<Symbol, V>, other: S|
        locals.submap_of(later) implies #[trigger] eval_all(
        cx,
        model,
        later,
        other,
        const_arguments,
    ) == Some((other, values)) by {
        lemma_inert_values(cx, model, locals, later, store, other, const_arguments);
    }
    let none = List::<FieldInitializer>::Nil;
    assert forall|later: Map<Symbol, V>, other: S|
        locals.submap_of(later) implies #[trigger] eval_members(cx, model, later, other, none)
        == Some((other, Seq::<V>::empty())) by {
        reveal(eval_members);
    }
    if let Some(base) = &input.base {
        let base = copied(base);
        assert(is_regular(cx, open, base)) by {
            reveal(option_is_regular);
            reveal(is_regular);
        }
        assert forall|other: State, continuation: Continuation|
            is_regular_state(cx, other) && accepts(
                cx,
                open,
                continuation,
            ) implies #[trigger] emits(cx, other, base, continuation) by {
            expressions_end(cx, true, open, other, base, continuation);
        }
    }
    assert(base_ends(cx, open, input.base));
    assert(appended(none, members) == members);
    assert(option_is_orderly(cx, input.base) && fields_are_orderly(cx, members)) by {
        reveal(option_is_orderly);
        reveal(fields_are_orderly);
    }
    lemma_members(
        cx, names,
        model,
        open,
        d,
        s,
        composite,
        none,
        members,
        next,
        locals,
        store,
        values,
        Seq::empty(),
        out,
    )
}

/// `input` with the fields `done` and then `rest`.
spec fn whole(
    input: CompositeExpression,
    done: List<FieldInitializer>,
    rest: List<FieldInitializer>,
) -> Expression {
    Expression::Composite(
        Rc::new(CompositeExpression { members: appended(done, rest), ..input }),
    )
}

spec fn members_are_fixed<V, S>(
    cx: Context,
    model: Model<V, S>,
    locals: Map<Symbol, V>,
    members: List<FieldInitializer>,
    values: Seq<V>,
) -> bool {
    forall|later: Map<Symbol, V>, store: S|
        locals.submap_of(later) ==> #[trigger] eval_members(cx, model, later, store, members)
            == Some((store, values))
}

proof fn lemma_blank_appended(
    first: List<FieldInitializer>,
    second: List<FieldInitializer>,
)
    ensures
        blank_members(appended(first, second)) == appended(
            blank_members(first),
            blank_members(second),
        ),
    decreases first,
{
    if let List::Cons(_, rest) = first {
        lemma_blank_appended(copied(&*rest), second);
    }
}

/// Fields that were lowered are evaluated before those that are left.
proof fn lemma_done<V, S>(
    cx: Context,
    model: Model<V, S>,
    input: CompositeExpression,
    done: List<FieldInitializer>,
    rest: List<FieldInitializer>,
    locals: Map<Symbol, V>,
    store: S,
    values: Seq<V>,
    fields: Seq<V>,
)
    requires
        are_fixed(cx, model, locals, input.const_arguments, values),
        members_are_fixed(cx, model, locals, done, fields),
    ensures
        eval(cx, model, locals, store, whole(input, done, rest)) == match eval_members(
            cx,
            model,
            locals,
            store,
            rest,
        ) {
            None => None,
            Some((store, more)) => match eval_option(cx, model, locals, store, input.base) {
                None => None,
                Some((store, base)) => applied(
                    model,
                    whole(input, done, rest),
                    Some((store, seq![values, fields + more, base])),
                ),
            },
        },
{
    reveal(eval);
    reveal(eval_members);
    reveal(eval_all);
    reveal(eval_option);
    assert(eval_all(cx, model, locals, store, input.const_arguments) == Some((store, values)));
    assert(eval_members(cx, model, locals, store, done) == Some((store, fields)));
    lemma_eval_members_appended(cx, model, locals, store, done, rest);
}

proof fn lemma_members<V, S>(
    cx: Context,
    names: Texts,
    model: Model<V, S>,
    open: bool,
    depth: nat,
    state: State,
    input: CompositeExpression,
    done: List<FieldInitializer>,
    rest: List<FieldInitializer>,
    next: Continuation,
    locals: Map<Symbol, V>,
    store: S,
    values: Seq<V>,
    fields: Seq<V>,
    out: List<Statement>,
) -> (handed: Handed<V, S>)
    requires
        is_set(cx, names, model, state, locals, out),
        all_rest(cx, open, input.const_arguments),
        are_fixed(cx, model, locals, input.const_arguments, values),
        fields_are_plain(cx, open, done),
        open || !any_member_requires_branch(done),
        members_are_fixed(cx, model, locals, done, fields),
        fields_are_sources(cx, true, open, rest),
        fields_are_orderly(cx, rest),
        option_is_source(cx, true, open, input.base),
        option_is_orderly(cx, input.base),
        base_ends(cx, open, input.base),
        accepts(cx, open, next),
        gave(names, emit_composite_members(cx, depth, state, input, done, rest, next), out),
        eval(cx, model, locals, store, whole(input, done, rest)) is Some,
    ensures
        handed.depth <= depth,
        comes_to(
            cx, names,
            model,
            open,
            next,
            locals,
            store,
            out,
            eval(cx, model, locals, store, whole(input, done, rest))->0,
            handed,
        ),
    decreases depth, 4int, rest,
{
    lemma_done(cx, model, input, done, rest, locals, store, values, fields);
    match rest {
        List::Nil => {
            lemma_appended_nil(done);
            let composite = CompositeExpression { members: done, ..input };
            let node = Expression::Composite(Rc::new(composite));
            assert(gave(names, emit_composite_base(cx, depth, state, composite, next), out)) by {
                reveal(emit_composite_members);
                reveal(emit_composite_base);
            }
            match &input.base {
                None => {
                    assert(gave(names, resume(cx, depth, state, next, node), out)) by {
                        reveal(emit_composite_base);
                        reveal(resume);
                    }
                    Handed { depth, state, value: node, rest: out, locals, store }
                },
                Some(base) => {
                    let base = copied(base);
                    lemma_orderly_option(cx, base);
                    assert(is_regular(cx, open, base)) by {
                        reveal(option_is_regular);
                        reveal(is_regular);
                    }
                    let frame = OperandFrame::CompositeBase { input: Rc::new(composite) };
                    let k = Continuation::Operand(frame, Rc::new(next));
                    lemma_base_accepts(cx, open, Rc::new(composite), next);
                    assert(gave(names, emit(cx, depth, state, base, k), out)) by {
                        reveal(emit_composite_base);
                        reveal(emit);
                    }
                    assert(eval_members(cx, model, locals, store, rest) == Some(
                        (store, Seq::<V>::empty()),
                    )) by {
                        reveal(eval_members);
                    }
                    lemma_eval_some(cx, model, locals, store, base);
                    let got = lemma_emit(
                        cx, names,
                        model,
                        open,
                        depth,
                        state,
                        base,
                        k,
                        locals,
                        store,
                        out,
                    );
                    lemma_resume_steps(
                        cx, names,
                        got.depth,
                        got.state,
                        frame,
                        next,
                        got.value,
                        got.rest,
                    );
                    let d = (got.depth - 1) as nat;
                    let last = CompositeExpression { base: Some(got.value), ..composite };
                    let node = Expression::Composite(Rc::new(last));
                    assert(gave(names, resume(cx, d, got.state, next, node), got.rest)) by {
                        reveal(resume_operand);
                        reveal(resume);
                    }
                    lemma_kept(cx, model, locals, got.locals, last, done, values, fields);
                    lemma_done(
                        cx,
                        model,
                        last,
                        done,
                        List::Nil,
                        got.locals,
                        got.store,
                        values,
                        fields,
                    );
                    assert(eval_members(
                        cx,
                        model,
                        got.locals,
                        got.store,
                        List::<FieldInitializer>::Nil,
                    ) == Some((got.store, Seq::<V>::empty()))) by {
                        reveal(eval_members);
                    }
                    lemma_eval_some(cx, model, got.locals, got.store, got.value);
                    assert(whole(last, done, List::Nil) == node);
                    assert(head(node) == head(whole(input, done, rest)));
                    Handed { depth: d, value: node, ..got }
                },
            }
        },
        List::Cons(member, others) => {
            let others = copied(&*others);
            assert(rest == List::Cons(member, Rc::new(others)));
            lemma_orderly_field(cx, member, others);
            lemma_first_field(cx, true, open, member, others);
            match &member.expression {
                None => {
                    let more = appended(done, one(member));
                    lemma_appended_more(done, member, others);
                    assert(fields_are_plain(cx, open, one(member)) && !any_member_requires_branch(
                        one(member),
                    )) by {
                        reveal_with_fuel(any_member_requires_branch, 2);
                    }
                    assert(gave(names, 
                        emit_composite_members(cx, depth, state, input, more, others, next),
                        out,
                    )) by {
                        reveal(emit_composite_members);
                    }
                    assert forall|later: Map<Symbol, V>, other: S|
                        locals.submap_of(later) implies #[trigger] eval_members(
                        cx,
                        model,
                        later,
                        other,
                        more,
                    ) == Some((other, fields)) by {
                        lemma_eval_members_appended(cx, model, later, other, done, one(member));
                        assert(eval_members(cx, model, later, other, done) == Some(
                            (other, fields),
                        ));
                        lemma_field_value(cx, model, later, other, member);
                        assert(fields + Seq::<V>::empty() =~= fields);
                    }
                    lemma_members(
                        cx, names,
                        model,
                        open,
                        depth,
                        state,
                        input,
                        more,
                        others,
                        next,
                        locals,
                        store,
                        values,
                        fields,
                        out,
                    )
                },
                Some(value) => {
                    let value = copied(value);
                    lemma_member(
                        cx, names,
                        model,
                        open,
                        depth,
                        state,
                        input,
                        done,
                        member,
                        value,
                        others,
                        next,
                        locals,
                        store,
                        values,
                        fields,
                        out,
                    )
                },
            }
        },
    }
}

/// More local variables keep what was fixed.
proof fn lemma_kept<V, S>(
    cx: Context,
    model: Model<V, S>,
    locals: Map<Symbol, V>,
    later: Map<Symbol, V>,
    input: CompositeExpression,
    done: List<FieldInitializer>,
    values: Seq<V>,
    fields: Seq<V>,
)
    requires
        locals.submap_of(later),
        are_fixed(cx, model, locals, input.const_arguments, values),
        members_are_fixed(cx, model, locals, done, fields),
    ensures
        are_fixed(cx, model, later, input.const_arguments, values),
        members_are_fixed(cx, model, later, done, fields),
{
    assert forall|even: Map<Symbol, V>, store: S|
        later.submap_of(even) implies #[trigger] eval_all(
        cx,
        model,
        even,
        store,
        input.const_arguments,
    ) == Some((store, values)) by {
        lemma_submaps(locals, later, even);
    }
    assert forall|even: Map<Symbol, V>, store: S|
        later.submap_of(even) implies #[trigger] eval_members(cx, model, even, store, done) == Some(
        (store, fields),
    ) by {
        lemma_submaps(locals, later, even);
    }
}

proof fn lemma_field_value<V, S>(
    cx: Context,
    model: Model<V, S>,
    locals: Map<Symbol, V>,
    store: S,
    member: FieldInitializer,
)
    ensures
        eval_members(cx, model, locals, store, one(member)) == match member.expression {
            None => Some((store, Seq::<V>::empty())),
            Some(value) => match eval(cx, model, locals, store, value) {
                None => None,
                Some((store, value)) => Some((store, seq![value])),
            },
        },
{
    reveal(eval_members);
    reveal(eval_option);
    reveal(eval);
    assert(Seq::<V>::empty() + Seq::<V>::empty() =~= Seq::<V>::empty());
    let first = eval_option(cx, model, locals, store, member.expression);
    if let Some((after, values)) = first {
        assert(eval_members(cx, model, locals, after, List::<FieldInitializer>::Nil) == Some(
            (after, Seq::<V>::empty()),
        ));
        assert(values + Seq::<V>::empty() =~= values);
    }
}

proof fn lemma_member<V, S>(
    cx: Context,
    names: Texts,
    model: Model<V, S>,
    open: bool,
    depth: nat,
    state: State,
    input: CompositeExpression,
    done: List<FieldInitializer>,
    member: FieldInitializer,
    value: Expression,
    others: List<FieldInitializer>,
    next: Continuation,
    locals: Map<Symbol, V>,
    store: S,
    values: Seq<V>,
    fields: Seq<V>,
    out: List<Statement>,
) -> (handed: Handed<V, S>)
    requires
        is_set(cx, names, model, state, locals, out),
        member.expression == Some(value),
        all_rest(cx, open, input.const_arguments),
        are_fixed(cx, model, locals, input.const_arguments, values),
        fields_are_plain(cx, open, done),
        open || !any_member_requires_branch(done),
        members_are_fixed(cx, model, locals, done, fields),
        is_regular(cx, open, value),
        is_orderly(cx, value),
        fields_are_sources(cx, true, open, others),
        fields_are_orderly(cx, others),
        option_is_source(cx, true, open, input.base),
        option_is_orderly(cx, input.base),
        base_ends(cx, open, input.base),
        accepts(cx, open, next),
        gave(names, 
            emit_composite_members(
                cx,
                depth,
                state,
                input,
                done,
                List::Cons(member, Rc::new(others)),
                next,
            ),
            out,
        ),
        eval(
            cx,
            model,
            locals,
            store,
            whole(input, done, List::Cons(member, Rc::new(others))),
        ) is Some,
    ensures
        handed.depth <= depth,
        comes_to(
            cx, names,
            model,
            open,
            next,
            locals,
            store,
            out,
            eval(
                cx,
                model,
                locals,
                store,
                whole(input, done, List::Cons(member, Rc::new(others))),
            )->0,
            handed,
        ),
    decreases depth, 3int, others,
{
    let rest = List::Cons(member, Rc::new(others));
    lemma_done(cx, model, input, done, rest, locals, store, values, fields);
    lemma_eval_field(cx, model, locals, store, member, others);
    lemma_eval_some(cx, model, locals, store, value);
    let (between, first) = eval(cx, model, locals, store, value)->0;
    assert(eval_option(cx, model, locals, store, member.expression) == Some(
        (between, seq![first]),
    ));
    let frame = OperandFrame::CompositeMember { input: Rc::new(input), done, member, rest: others };
    let k = Continuation::Operand(frame, Rc::new(next));
    assert forall|other: State, bound: Expression|
        is_regular_state(cx, other) && rests(cx, open, bound) implies #[trigger] resumes(
        cx,
        other,
        k,
        bound,
    ) by {
        lemma_member_ends(cx, true, open, other, input, done, member, others, next, bound);
    }
    assert(gave(names, emit(cx, depth, state, value, k), out)) by {
        reveal(emit_composite_members);
        reveal(emit);
    }
    let got = lemma_emit(cx, names, model, open, depth, state, value, k, locals, store, out);
    lemma_resume_steps(cx, names, got.depth, got.state, frame, next, got.value, got.rest);
    let d = (got.depth - 1) as nat;
    let step = materialize_strict_prefix_expression(cx, got.state, got.value);
    assert(step is Ok) by {
        reveal(resume_operand);
        reveal(emit_composite_members);
    }
    let (after, (bound, statements)) = step->Ok_0;
    let field = FieldInitializer { expression: Some(bound), ..member };
    let more = appended(done, one(field));
    let emitted = emit_composite_members(cx, d, after, input, more, others, next);
    assert(gave(names, preceded(statements, emitted), got.rest)) by {
        reveal(resume_operand);
        reveal(emit_composite_members);
    }
    let tail = lemma_preceded(names, statements, emitted, got.rest);
    let later = lemma_bind(
        cx,
        model,
        open,
        got.state,
        got.value,
        after,
        bound,
        statements,
        got.locals,
        got.store,
        tail,
    );
    lemma_submaps(locals, got.locals, later);
    lemma_kept(cx, model, locals, later, input, done, values, fields);
    let with_it = fields + seq![first];
    assert forall|even: Map<Symbol, V>, other: S|
        later.submap_of(even) implies #[trigger] eval_members(cx, model, even, other, more) == Some(
        (other, with_it),
    ) by {
        lemma_eval_members_appended(cx, model, even, other, done, one(field));
        assert(eval_members(cx, model, even, other, done) == Some((other, fields)));
        lemma_field_value(cx, model, even, other, field);
        assert(eval(cx, model, even, other, bound) == Some((other, first)));
    }
    assert(fields_are_plain(cx, open, one(field)) && !any_member_requires_branch(one(field))) by {
        reveal_with_fuel(any_member_requires_branch, 2);
    }
    lemma_done(cx, model, input, more, others, later, between, values, with_it);
    lemma_more_members(cx, model, locals, later, between, others);
    if let Some((store, rest_values)) = eval_members(cx, model, locals, between, others) {
        lemma_more_option(cx, model, locals, later, store, input.base);
        assert(fields + (seq![first] + rest_values) =~= with_it + rest_values);
    }
    assert(head(whole(input, more, others)) == head(whole(input, done, rest))) by {
        lemma_blank_appended(more, others);
        lemma_blank_appended(done, one(field));
        lemma_blank_appended(done, rest);
        reveal_with_fuel(blank_members, 2);
        let blank_field = match blank_members(one(field)) {
            List::Cons(blank_field, _) => blank_field,
            _ => arbitrary(),
        };
        lemma_appended_more(blank_members(done), blank_field, blank_members(others));
    }
    let handed = lemma_members(
        cx, names,
        model,
        open,
        d,
        after,
        input,
        more,
        others,
        next,
        later,
        between,
        values,
        with_it,
        tail,
    );
    lemma_submaps(locals, later, handed.locals);
    handed
}

/* Accesses to other programs */

/// Lowering the arguments of an access ends.
proof fn lemma_is_ready(cx: Context, open: bool, access: DynamicOpExpression)
    requires
        plain_ends(cx),
        rests(cx, false, access.target_program),
        access.network matches Some(network) ==> rests(cx, false, network),
        kind_is_regular(cx, open, access.interface, access.kind),
    ensures
        is_ready(cx, true, open, access),
{
    reveal(kind_is_regular);
    match access.kind {
        DynamicOpKind::Read { .. } => {},
        DynamicOpKind::Op { arguments, .. } => {
            assert(are_regular(cx, true, arguments)) by {
                reveal(are_regular);
            }
            assert forall|state: State, list: ListContinuation|
                is_regular_state(cx, state) && accepts_all(
                    cx,
                    true,
                    list,
                ) implies #[trigger] lists(cx, state, arguments, List::Nil, list) by {
                lemma_list_ends(cx, true, true, state, arguments, List::Nil, list);
            }
        },
        DynamicOpKind::Call { arguments, .. } => {
            assert(are_regular(cx, open, arguments)) by {
                reveal(are_regular);
            }
            assert forall|state: State, list: ListContinuation|
                is_regular_state(cx, state) && accepts_all(
                    cx,
                    open,
                    list,
                ) implies #[trigger] lists(cx, state, arguments, List::Nil, list) by {
                lemma_list_ends(cx, true, open, state, arguments, List::Nil, list);
            }
        },
    }
}

proof fn lemma_dynamic_op<V, S>(
    cx: Context,
    names: Texts,
    model: Model<V, S>,
    open: bool,
    depth: nat,
    state: State,
    input: Rc<DynamicOpExpression>,
    next: Continuation,
    locals: Map<Symbol, V>,
    store: S,
    out: List<Statement>,
) -> (handed: Handed<V, S>)
    requires
        is_set(cx, names, model, state, locals, out),
        is_regular(cx, open, Expression::DynamicOp(input)),
        is_orderly(cx, Expression::DynamicOp(input)),
        accepts(cx, open, next),
        gave(names, emit(cx, depth, state, Expression::DynamicOp(input), next), out),
        eval(cx, model, locals, store, Expression::DynamicOp(input)) is Some,
    ensures
        handed.depth < depth,
        comes_to(
            cx, names,
            model,
            open,
            next,
            locals,
            store,
            out,
            eval(cx, model, locals, store, Expression::DynamicOp(input))->0,
            handed,
        ),
    decreases depth, 1int,
{
    let expression = Expression::DynamicOp(input);
    lemma_emit_steps(cx, names, depth, state, expression, next, out);
    lemma_parts(cx, true, open, expression);
    reveal(is_orderly);
    reveal(eval);
    reveal(eval_option);
    reveal(eval_kind);
    reveal(option_is_orderly);
    reveal(kind_is_orderly);
    let below = (depth - 1) as nat;
    let target = copied(&input.target_program);
    let frame = OperandFrame::DynamicTarget { input };
    let k = Continuation::Operand(frame, Rc::new(next));
    lemma_target_accepts(cx, true, open, input, next);
    assert(gave(names, emit(cx, below, state, target, k), out)) by {
        reveal(emit_step);
        reveal(emit);
    }
    let first = lemma_emit(cx, names, model, true, below, state, target, k, locals, store, out);
    lemma_resume_steps(cx, names, first.depth, first.state, frame, next, first.value, first.rest);
    let d = (first.depth - 1) as nat;
    let step = materialize_strict_prefix_expression(cx, first.state, first.value);
    assert(step is Ok) by {
        reveal(resume_operand);
        reveal(emit);
        reveal(emit_dynamic_arguments);
    }
    let (after, (bound, statements)) = step->Ok_0;
    let access = DynamicOpExpression { target_program: bound, ..copied(&*input) };
    let (between, program) = eval(cx, model, locals, store, target)->0;
    assert(kind_is_orderly(cx, input.kind) && option_is_orderly(cx, input.network)) by {
        reveal(kind_is_orderly);
        reveal(option_is_orderly);
    }
    match &input.network {
        None => {
            let emitted = emit_dynamic_arguments(cx, d, after, access, next);
            assert(gave(names, preceded(statements, emitted), first.rest)) by {
                reveal(resume_operand);
                reveal(emit_dynamic_arguments);
            }
            let rest = lemma_preceded(names, statements, emitted, first.rest);
            let later = lemma_bind(
                cx,
                model,
                true,
                first.state,
                first.value,
                after,
                bound,
                statements,
                first.locals,
                first.store,
                rest,
            );
            lemma_submaps(locals, first.locals, later);
            lemma_more_option(cx, model, locals, later, between, copied(&input.network));
            if let Some((store, _)) = eval_option(
                cx,
                model,
                locals,
                between,
                copied(&input.network),
            ) {
                lemma_more_kind(cx, model, locals, later, store, copied(&input.kind));
            }
            assert(eval(cx, model, later, between, bound) == Some((between, program)));
            assert(head(Expression::DynamicOp(Rc::new(access))) == head(expression));
            let handed = lemma_arguments(
                cx, names,
                model,
                open,
                d,
                after,
                access,
                next,
                later,
                between,
                program,
                Seq::empty(),
                rest,
            );
            lemma_submaps(locals, later, handed.locals);
            handed
        },
        Some(network) => {
            let network = copied(network);
            lemma_orderly_option(cx, network);
            assert(is_regular(cx, true, network)) by {
                reveal(option_is_regular);
                reveal(is_regular);
            }
            let frame = OperandFrame::DynamicNetwork { input: Rc::new(access) };
            let k = Continuation::Operand(frame, Rc::new(next));
            let emitted = emit(cx, d, after, network, k);
            assert(gave(names, preceded(statements, emitted), first.rest)) by {
                reveal(resume_operand);
                reveal(emit);
            }
            let rest = lemma_preceded(names, statements, emitted, first.rest);
            let later = lemma_bind(
                cx,
                model,
                true,
                first.state,
                first.value,
                after,
                bound,
                statements,
                first.locals,
                first.store,
                rest,
            );
            lemma_submaps(locals, first.locals, later);
            lemma_is_ready(cx, open, DynamicOpExpression { network: None, ..access });
            lemma_network_accepts(cx, true, open, access, next);
            reveal(eval_option);
            assert(eval_option(cx, model, locals, between, input.network) is Some);
            lemma_more(cx, model, locals, later, between, network);
            let (beyond, on) = eval(cx, model, locals, between, network)->0;
            let second = lemma_emit(
                cx,
                names,
                model,
                true,
                d,
                after,
                network,
                k,
                later,
                between,
                rest,
            );
            lemma_resume_steps(
                cx, names,
                second.depth,
                second.state,
                frame,
                next,
                second.value,
                second.rest,
            );
            let d = (second.depth - 1) as nat;
            let step = materialize_strict_prefix_expression(cx, second.state, second.value);
            assert(step is Ok) by {
                reveal(resume_operand);
                reveal(emit_dynamic_arguments);
            }
            let (after, (bound_network, statements)) = step->Ok_0;
            let ready = DynamicOpExpression { network: Some(bound_network), ..access };
            let emitted = emit_dynamic_arguments(cx, d, after, ready, next);
            assert(gave(names, preceded(statements, emitted), second.rest)) by {
                reveal(resume_operand);
                reveal(emit_dynamic_arguments);
            }
            let rest = lemma_preceded(names, statements, emitted, second.rest);
            let even = lemma_bind(
                cx,
                model,
                true,
                second.state,
                second.value,
                after,
                bound_network,
                statements,
                second.locals,
                second.store,
                rest,
            );
            lemma_submaps(later, second.locals, even);
            lemma_submaps(locals, later, even);
            lemma_more_kind(cx, model, locals, even, beyond, copied(&input.kind));
            assert(eval(cx, model, even, beyond, bound) == Some((beyond, program)));
            assert(eval(cx, model, even, beyond, bound_network) == Some((beyond, on)));
            assert(eval_option(cx, model, even, beyond, Some(bound_network)) == Some(
                (beyond, seq![on]),
            ));
            assert(head(Expression::DynamicOp(Rc::new(ready))) == head(expression));
            assert forall|most: Map<Symbol, V>, other: S|
                even.submap_of(most) implies #[trigger] eval(cx, model, most, other, bound) == Some(
                (other, program),
            ) by {
                lemma_submaps(later, even, most);
            }
            let handed = lemma_arguments(
                cx, names,
                model,
                open,
                d,
                after,
                ready,
                next,
                even,
                beyond,
                program,
                seq![on],
                rest,
            );
            lemma_submaps(locals, even, handed.locals);
            handed
        },
    }
}

spec fn network_is_fixed<V, S>(
    cx: Context,
    model: Model<V, S>,
    locals: Map<Symbol, V>,
    network: Option<Expression>,
    on: Seq<V>,
) -> bool {
    match network {
        None => on == Seq::<V>::empty(),
        Some(network) => on.len() == 1 && on == seq![on[0]] && is_fixed(
            cx,
            model,
            locals,
            network,
            on[0],
        ),
    }
}

/// The program and the network are as they were; what is left to evaluate are the arguments.
proof fn lemma_access_value<V, S>(
    cx: Context,
    model: Model<V, S>,
    access: DynamicOpExpression,
    locals: Map<Symbol, V>,
    later: Map<Symbol, V>,
    store: S,
    program: V,
    on: Seq<V>,
)
    requires
        locals.submap_of(later),
        is_fixed(cx, model, locals, access.target_program, program),
        network_is_fixed(cx, model, locals, access.network, on),
    ensures
        eval(cx, model, later, store, Expression::DynamicOp(Rc::new(access))) == match eval_kind(
            cx,
            model,
            later,
            store,
            access.kind,
        ) {
            None => None,
            Some((store, values)) => acted(
                model,
                Expression::DynamicOp(Rc::new(access)),
                Some((store, seq![seq![program], on, values])),
            ),
        },
{
    reveal(eval);
    reveal(eval_option);
    reveal(eval_kind);
    assert(eval(cx, model, later, store, access.target_program) == Some((store, program)));
    if let Some(network) = access.network {
        assert(eval(cx, model, later, store, network) == Some((store, on[0])));
    }
    assert(eval_option(cx, model, later, store, access.network) == Some((store, on)));
}

proof fn lemma_arguments<V, S>(
    cx: Context,
    names: Texts,
    model: Model<V, S>,
    open: bool,
    depth: nat,
    state: State,
    access: DynamicOpExpression,
    next: Continuation,
    locals: Map<Symbol, V>,
    store: S,
    program: V,
    on: Seq<V>,
    out: List<Statement>,
) -> (handed: Handed<V, S>)
    requires
        is_set(cx, names, model, state, locals, out),
        rests(cx, false, access.target_program),
        is_fixed(cx, model, locals, access.target_program, program),
        access.network matches Some(network) ==> rests(cx, false, network),
        network_is_fixed(cx, model, locals, access.network, on),
        kind_is_regular(cx, open, access.interface, access.kind),
        kind_is_orderly(cx, access.kind),
        accepts(cx, open, next),
        gave(names, emit_dynamic_arguments(cx, depth, state, access, next), out),
        eval(cx, model, locals, store, Expression::DynamicOp(Rc::new(access))) is Some,
    ensures
        handed.depth <= depth,
        comes_to(
            cx, names,
            model,
            open,
            next,
            locals,
            store,
            out,
            eval(cx, model, locals, store, Expression::DynamicOp(Rc::new(access)))->0,
            handed,
        ),
    decreases depth, 7int,
{
    let expression = Expression::DynamicOp(Rc::new(access));
    lemma_access_value(cx, model, access, locals, locals, store, program, on);
    match access.kind {
        DynamicOpKind::Read { .. } => {
            assert(kind_is_direct(cx, open, access.interface, access.kind)) by {
                reveal(kind_is_direct);
            }
            assert(gave(names, 
                emit_lowered(
                    cx,
                    depth,
                    reconstruct_dynamic_op(cx, state, access),
                    access.id,
                    true,
                    next,
                ),
                out,
            )) by {
                reveal(emit_dynamic_arguments);
                reveal(emit_lowered);
            }
            lemma_access(
                cx, names,
                model,
                open,
                depth,
                state,
                access,
                access.id,
                next,
                locals,
                store,
                out,
            )
        },
        DynamicOpKind::Op { member, op, arguments } => {
            let kind = access.kind;
            lemma_arguments_list(
                cx, names,
                model,
                open,
                true,
                depth,
                state,
                access,
                arguments,
                next,
                locals,
                store,
                program,
                on,
                out,
            )
        },
        DynamicOpKind::Call { function, arguments } => {
            lemma_arguments_list(
                cx, names,
                model,
                open,
                open,
                depth,
                state,
                access,
                arguments,
                next,
                locals,
                store,
                program,
                on,
                out,
            )
        },
    }
}

/// `kind` with the arguments `values`.
spec fn filled(kind: DynamicOpKind, values: List<Expression>) -> DynamicOpKind {
    match kind {
        DynamicOpKind::Read { storage } => DynamicOpKind::Read { storage },
        DynamicOpKind::Op { member, op, arguments: _ } => DynamicOpKind::Op {
            member,
            op,
            arguments: values,
        },
        DynamicOpKind::Call { function, arguments: _ } => DynamicOpKind::Call {
            function,
            arguments: values,
        },
    }
}

proof fn lemma_arguments_list<V, S>(
    cx: Context,
    names: Texts,
    model: Model<V, S>,
    open: bool,
    inner: bool,
    depth: nat,
    state: State,
    access: DynamicOpExpression,
    arguments: List<Expression>,
    next: Continuation,
    locals: Map<Symbol, V>,
    store: S,
    program: V,
    on: Seq<V>,
    out: List<Statement>,
) -> (handed: Handed<V, S>)
    requires
        is_set(cx, names, model, state, locals, out),
        rests(cx, false, access.target_program),
        is_fixed(cx, model, locals, access.target_program, program),
        access.network matches Some(network) ==> rests(cx, false, network),
        network_is_fixed(cx, model, locals, access.network, on),
        !(access.kind is Read),
        inner == stays_open(open, access.kind),
        access.kind == filled(access.kind, arguments),
        kind_is_regular(cx, open, access.interface, access.kind),
        kind_is_orderly(cx, access.kind),
        accepts(cx, open, next),
        gave(names, emit_dynamic_arguments(cx, depth, state, access, next), out),
        eval(cx, model, locals, store, Expression::DynamicOp(Rc::new(access))) is Some,
    ensures
        handed.depth <= depth,
        comes_to(
            cx, names,
            model,
            open,
            next,
            locals,
            store,
            out,
            eval(cx, model, locals, store, Expression::DynamicOp(Rc::new(access)))->0,
            handed,
        ),
    decreases depth, 6int,
{
    let expression = Expression::DynamicOp(Rc::new(access));
    lemma_access_value(cx, model, access, locals, locals, store, program, on);
    let frame = ListFrame::DynamicArguments { input: Rc::new(access) };
    let list = ListContinuation { frame, next: Rc::new(next) };
    lemma_is_ready(cx, open, access);
    lemma_dynamic_arguments_accept(cx, true, open, access, next);
    assert(are_regular(cx, inner, arguments)) by {
        reveal(kind_is_regular);
        reveal(are_regular);
    }
    assert(are_orderly(cx, arguments)) by {
        reveal(kind_is_orderly);
        reveal(are_orderly);
    }
    assert(gave(names, emit_list(cx, depth, state, arguments, List::Nil, list), out)) by {
        reveal(emit_dynamic_arguments);
        reveal(emit_list);
    }
    assert(eval_kind(cx, model, locals, store, access.kind) == eval_all(
        cx,
        model,
        locals,
        store,
        arguments,
    )) by {
        reveal(eval_kind);
        reveal(eval_all);
    }
    let all = lemma_whole_list(
        cx, names,
        model,
        inner,
        depth,
        state,
        arguments,
        list,
        locals,
        store,
        out,
    );
    lemma_list_steps(cx, names, all.depth, all.state, list, all.values, all.rest);
    let d = (all.depth - 1) as nat;
    let kind = filled(access.kind, all.values);
    let ready = DynamicOpExpression { kind, ..access };
    assert(gave(names, 
        emit_lowered(
            cx,
            d,
            reconstruct_dynamic_op(cx, all.state, ready),
            access.id,
            true,
            next,
        ),
        all.rest,
    )) by {
        reveal(resume_list_step);
        reveal(emit_lowered);
    }
    lemma_direct_list(cx, inner, all.values);
    assert(kind_is_direct(cx, open, ready.interface, kind)) by {
        reveal(kind_is_regular);
        reveal(kind_is_direct);
        reveal(are_direct);
    }
    assert(eval_kind(cx, model, all.locals, all.store, kind) == eval_all(
        cx,
        model,
        all.locals,
        all.store,
        all.values,
    )) by {
        reveal(eval_kind);
        reveal(eval_all);
    }
    lemma_access_value(cx, model, ready, locals, all.locals, all.store, program, on);
    assert(head(Expression::DynamicOp(Rc::new(ready))) == head(expression));
    let handed = lemma_access(
        cx, names,
        model,
        open,
        d,
        all.state,
        ready,
        access.id,
        next,
        all.locals,
        all.store,
        all.rest,
    );
    lemma_submaps(locals, all.locals, handed.locals);
    handed
}

proof fn lemma_access<V, S>(
    cx: Context,
    names: Texts,
    model: Model<V, S>,
    open: bool,
    depth: nat,
    state: State,
    access: DynamicOpExpression,
    id: NodeId,
    next: Continuation,
    locals: Map<Symbol, V>,
    store: S,
    out: List<Statement>,
) -> (handed: Handed<V, S>)
    requires
        is_set(cx, names, model, state, locals, out),
        rests(cx, false, access.target_program),
        access.network matches Some(network) ==> rests(cx, false, network),
        kind_is_direct(cx, open, access.interface, access.kind),
        match access.kind {
            DynamicOpKind::Read { .. } => true,
            DynamicOpKind::Op { arguments, .. } => all_rest(cx, true, arguments),
            DynamicOpKind::Call { arguments, .. } => all_rest(cx, open, arguments),
        },
        accepts(cx, open, next),
        gave(names, 
            emit_lowered(
                cx,
                depth,
                reconstruct_dynamic_op(cx, state, access),
                id,
                true,
                next,
            ),
            out,
        ),
        id == access.id,
        eval(cx, model, locals, store, Expression::DynamicOp(Rc::new(access))) is Some,
    ensures
        handed.depth <= depth,
        comes_to(
            cx, names,
            model,
            open,
            next,
            locals,
            store,
            out,
            eval(cx, model, locals, store, Expression::DynamicOp(Rc::new(access)))->0,
            handed,
        ),
    decreases depth, 4int,
{
    let node = Expression::DynamicOp(Rc::new(access));
    let lowered = reconstruct_dynamic_op(cx, state, access);
    assert(lowered is Ok) by {
        reveal(emit_lowered);
    }
    assert(option_is_plain(cx, false, access.network)) by {
        reveal(option_is_plain);
        reveal(is_plain);
    }
    let stays = match access.kind {
        DynamicOpKind::Read { .. } => false,
        DynamicOpKind::Op { member, .. } => vector_of_member(cx, access.interface, member) == Ok::<
            Option<Type>,
            Halt,
        >(None),
        DynamicOpKind::Call { .. } => true,
    };
    if stays {
        assert(kind_is_plain(cx, open, access.interface, access.kind)) by {
            reveal(kind_is_plain);
            reveal(kind_is_direct);
            reveal(are_plain);
        }
        assert(access.kind is Op ==> open) by {
            reveal(kind_is_direct);
        }
        staying::lemma_dynamic(cx, open, state, access);
        let known = copy_expression_type(state, id, id);
        assert(gave(names, resume(cx, depth, known, next, node), out)) by {
            reveal(emit_lowered);
            reveal(resume);
        }
        assert(rests(cx, open, node));
        Handed { depth, state: known, value: node, rest: out, locals, store }
    } else {
        let (after, (value, code)) = lowered->Ok_0;
        lemma_direct(cx, false, access.target_program);
        assert(option_is_direct(cx, false, access.network)) by {
            reveal(option_is_direct);
            reveal(is_direct);
            if let Some(network) = access.network {
                lemma_direct(cx, false, network);
            }
        }
        assert(kind_is_direct(cx, false, access.interface, access.kind)) by {
            reveal(kind_is_direct);
            reveal(are_direct);
        }
        direct_values::lemma_dynamic(cx, false, state, access);
        assert(reconstruct_expression(cx, state, node) == lowered) by {
            reveal(reconstruct_expression);
            reveal(reconstruct_dynamic_op);
        }
        lemma_operation(
            cx, names,
            model,
            open,
            depth,
            state,
            node,
            after,
            value,
            code,
            id,
            true,
            next,
            locals,
            store,
            out,
        )
    }
}

/* The law */

/// Lowering an expression for a continuation keeps its meaning, if it keeps that of single
/// operations on storage. Running what the expression is lowered to comes to what the continuation
/// makes of some value. There the value evaluates to what the expression evaluates to, to the same
/// store, and all local variables are as they were.
pub proof fn lowering_keeps_meaning<V, S>(
    cx: Context,
    names: Texts,
    model: Model<V, S>,
    depth: nat,
    state: State,
    expression: Expression,
    next: Continuation,
    locals: Map<Symbol, V>,
    store: S,
    out: List<Statement>,
)
    requires
        operations_are_sound(cx, names, model),
        is_regular_state(cx, state),
        is_regular(cx, true, expression),
        is_orderly(cx, expression),
        accepts(cx, true, next),
        gave(names, emit(cx, depth, state, expression, next), out),
        all_define_anew(locals.dom(), out),
        eval(cx, model, locals, store, expression) is Some,
    ensures
        exists|handed: Handed<V, S>| #[trigger]
            comes_to(
                cx,
                names,
                model,
                true,
                next,
                locals,
                store,
                out,
                eval(cx, model, locals, store, expression)->0,
                handed,
            ),
{
    plain_expressions_end(cx);
    let handed = lemma_emit(
        cx,
        names,
        model,
        true,
        depth,
        state,
        expression,
        next,
        locals,
        store,
        out,
    );
}

} // verus!
