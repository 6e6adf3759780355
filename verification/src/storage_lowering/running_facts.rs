//! What evaluating and running depend on.
use crate::ast::{
    DefinitionPlace, DynamicOpKind, Expression, FieldInitializer, Identifier, NodeId, Statement,
    Symbol, Type,
};
use crate::list::{appended, copied, one, List};
use crate::purity::{all_can_be_discarded, can_be_discarded, members_can_be_discarded};
use crate::storage_lowering::emit::takes_vector;
use crate::storage_lowering::plain::{
    are_plain, fields_are_plain, group_plain, is_plain, option_is_plain,
};
use crate::storage_lowering::running::{
    eval, eval_all, eval_kind, eval_members, eval_option, run, run_all, with_parts, Model, Outcome,
};
use crate::storage_lowering::visitor::Context;
use std::rc::Rc;
use vstd::prelude::*;

verus! {

broadcast use group_plain;

/// More local variables change nothing.
pub proof fn lemma_more<V, S>(
    cx: Context,
    model: Model<V, S>,
    locals: Map<Symbol, V>,
    more: Map<Symbol, V>,
    store: S,
    expression: Expression,
)
    requires
        locals.submap_of(more),
    ensures
        eval(
            cx,
            model,
            locals,
            store,
            expression,
        ) is Some ==> eval(cx, model, more, store, expression)
            == eval(cx, model, locals, store, expression),
    decreases expression,
{
    reveal(eval);
    reveal(eval_all);
    reveal(eval_members);
    reveal(eval_option);
    reveal(eval_kind);
    match expression {
        Expression::Array(input) => {
            lemma_more_all(cx, model, locals, more, store, copied(&input.elements));
        },
        Expression::ArrayAccess(input) => {
            lemma_more(cx, model, locals, more, store, copied(&input.array));
            if let Some((store, _)) = eval(cx, model, locals, store, copied(&input.array)) {
                lemma_more(cx, model, locals, more, store, copied(&input.index));
            }
        },
        Expression::Binary(input) => {
            lemma_more(cx, model, locals, more, store, copied(&input.left));
            if let Some((store, _)) = eval(cx, model, locals, store, copied(&input.left)) {
                lemma_more(cx, model, locals, more, store, copied(&input.right));
            }
        },
        Expression::Call(input) => {
            lemma_more_all(cx, model, locals, more, store, copied(&input.const_arguments));
            if let Some((store, _)) = eval_all(
                cx,
                model,
                locals,
                store,
                copied(&input.const_arguments),
            ) {
                lemma_more_all(cx, model, locals, more, store, copied(&input.arguments));
            }
        },
        Expression::Cast(input) => {
            lemma_more(cx, model, locals, more, store, copied(&input.expression));
        },
        Expression::Composite(input) => {
            lemma_more_all(cx, model, locals, more, store, copied(&input.const_arguments));
            if let Some((store, _)) = eval_all(
                cx,
                model,
                locals,
                store,
                copied(&input.const_arguments),
            ) {
                lemma_more_members(cx, model, locals, more, store, copied(&input.members));
                if let Some((store, _)) = eval_members(
                    cx,
                    model,
                    locals,
                    store,
                    copied(&input.members),
                ) {
                    lemma_more_option(cx, model, locals, more, store, copied(&input.base));
                }
            }
        },
        Expression::DynamicOp(input) => {
            lemma_more(cx, model, locals, more, store, copied(&input.target_program));
            if let Some((store, _)) = eval(
                cx,
                model,
                locals,
                store,
                copied(&input.target_program),
            ) {
                lemma_more_option(cx, model, locals, more, store, copied(&input.network));
                if let Some((store, _)) = eval_option(
                    cx,
                    model,
                    locals,
                    store,
                    copied(&input.network),
                ) {
                    lemma_more_kind(cx, model, locals, more, store, copied(&input.kind));
                }
            }
        },
        Expression::Intrinsic(input) => {
            if takes_vector(input.op) {
                if let List::Cons(_, values) = &input.arguments {
                    lemma_more_all(cx, model, locals, more, store, copied(&**values));
                }
            } else {
                lemma_more_all(cx, model, locals, more, store, copied(&input.arguments));
            }
        },
        Expression::MemberAccess(input) => {
            lemma_more(cx, model, locals, more, store, copied(&input.inner));
        },
        Expression::Repeat(input) => {
            lemma_more(cx, model, locals, more, store, copied(&input.expr));
            if let Some((store, _)) = eval(cx, model, locals, store, copied(&input.expr)) {
                lemma_more(cx, model, locals, more, store, copied(&input.count));
            }
        },
        Expression::Tuple(input) => {
            lemma_more_all(cx, model, locals, more, store, copied(&input.elements));
        },
        Expression::TupleAccess(input) => {
            lemma_more(cx, model, locals, more, store, copied(&input.tuple));
        },
        Expression::Unary(input) => {
            lemma_more(cx, model, locals, more, store, copied(&input.receiver));
        },
        Expression::Ternary(input) => {
            lemma_more(cx, model, locals, more, store, copied(&input.condition));
            if let Some((store, _)) = eval(cx, model, locals, store, copied(&input.condition)) {
                lemma_more(cx, model, locals, more, store, copied(&input.if_true));
                lemma_more(cx, model, locals, more, store, copied(&input.if_false));
                if let Some((store, _)) = eval(cx, model, locals, store, copied(&input.if_true)) {
                    lemma_more(cx, model, locals, more, store, copied(&input.if_false));
                }
            }
        },
        _ => {},
    }
}

pub proof fn lemma_more_all<V, S>(
    cx: Context,
    model: Model<V, S>,
    locals: Map<Symbol, V>,
    more: Map<Symbol, V>,
    store: S,
    expressions: List<Expression>,
)
    requires
        locals.submap_of(more),
    ensures
        eval_all(
            cx,
            model,
            locals,
            store,
            expressions,
        ) is Some ==> eval_all(cx, model, more, store, expressions)
            == eval_all(cx, model, locals, store, expressions),
    decreases expressions,
{
    reveal(eval);
    reveal(eval_all);
    reveal(eval_members);
    reveal(eval_option);
    reveal(eval_kind);
    if let List::Cons(first, rest) = expressions {
        lemma_more(cx, model, locals, more, store, first);
        if let Some((store, _)) = eval(cx, model, locals, store, first) {
            lemma_more_all(cx, model, locals, more, store, copied(&*rest));
        }
    }
}

pub proof fn lemma_more_members<V, S>(
    cx: Context,
    model: Model<V, S>,
    locals: Map<Symbol, V>,
    more: Map<Symbol, V>,
    store: S,
    members: List<FieldInitializer>,
)
    requires
        locals.submap_of(more),
    ensures
        eval_members(
            cx,
            model,
            locals,
            store,
            members,
        ) is Some ==> eval_members(cx, model, more, store, members)
            == eval_members(cx, model, locals, store, members),
    decreases members,
{
    reveal(eval);
    reveal(eval_all);
    reveal(eval_members);
    reveal(eval_option);
    reveal(eval_kind);
    if let List::Cons(first, rest) = members {
        lemma_more_option(cx, model, locals, more, store, first.expression);
        if let Some((store, _)) = eval_option(cx, model, locals, store, first.expression) {
            lemma_more_members(cx, model, locals, more, store, copied(&*rest));
        }
    }
}

pub proof fn lemma_more_option<V, S>(
    cx: Context,
    model: Model<V, S>,
    locals: Map<Symbol, V>,
    more: Map<Symbol, V>,
    store: S,
    expression: Option<Expression>,
)
    requires
        locals.submap_of(more),
    ensures
        eval_option(
            cx,
            model,
            locals,
            store,
            expression,
        ) is Some ==> eval_option(cx, model, more, store, expression)
            == eval_option(cx, model, locals, store, expression),
    decreases expression,
{
    reveal(eval);
    reveal(eval_all);
    reveal(eval_members);
    reveal(eval_option);
    reveal(eval_kind);
    if let Some(value) = expression {
        lemma_more(cx, model, locals, more, store, value);
    }
}

pub proof fn lemma_more_kind<V, S>(
    cx: Context,
    model: Model<V, S>,
    locals: Map<Symbol, V>,
    more: Map<Symbol, V>,
    store: S,
    kind: DynamicOpKind,
)
    requires
        locals.submap_of(more),
    ensures
        eval_kind(
            cx,
            model,
            locals,
            store,
            kind,
        ) is Some ==> eval_kind(cx, model, more, store, kind)
            == eval_kind(cx, model, locals, store, kind),
    decreases kind,
{
    reveal(eval);
    reveal(eval_all);
    reveal(eval_members);
    reveal(eval_option);
    reveal(eval_kind);
    match kind {
        DynamicOpKind::Read { .. } => {},
        DynamicOpKind::Op { arguments, .. } => {
            lemma_more_all(cx, model, locals, more, store, arguments);
        },
        DynamicOpKind::Call { arguments, .. } => {
            lemma_more_all(cx, model, locals, more, store, arguments);
        },
    }
}

/// What can be discarded has the same value whenever it is evaluated, and leaves the store alone.
pub proof fn lemma_fixed<V, S>(
    cx: Context,
    model: Model<V, S>,
    types: Map<NodeId, Type>,
    locals: Map<Symbol, V>,
    more: Map<Symbol, V>,
    store: S,
    other: S,
    expression: Expression,
)
    requires
        locals.submap_of(more),
        can_be_discarded(types, expression),
        is_plain(cx, true, expression),
    ensures
        eval(cx, model, locals, store, expression) matches Some((after, value)) ==> after == store
            && eval(
            cx,
            model,
            more,
            other,
            expression,
        ) == Some((other, value)),
    decreases expression,
{
    reveal(eval);
    reveal(eval_all);
    reveal(eval_members);
    reveal(eval_option);
    reveal(eval_kind);
    reveal(can_be_discarded);
    reveal(all_can_be_discarded);
    reveal(members_can_be_discarded);
    reveal(is_plain);
    reveal(are_plain);
    reveal(fields_are_plain);
    reveal(option_is_plain);
    match expression {
        Expression::Array(input) => {
            lemma_fixed_all(cx, model, types, locals, more, store, other, copied(&input.elements));
        },
        Expression::ArrayAccess(input) => {
            lemma_fixed(cx, model, types, locals, more, store, other, copied(&input.array));
            if let Some((store, _)) = eval(cx, model, locals, store, copied(&input.array)) {
                lemma_fixed(cx, model, types, locals, more, store, other, copied(&input.index));
            }
        },
        Expression::Binary(input) => {
            lemma_fixed(cx, model, types, locals, more, store, other, copied(&input.left));
            if let Some((store, _)) = eval(cx, model, locals, store, copied(&input.left)) {
                lemma_fixed(cx, model, types, locals, more, store, other, copied(&input.right));
            }
        },
        Expression::Composite(input) => {
            lemma_fixed_all(
                cx,
                model,
                types,
                locals,
                more,
                store,
                other,
                copied(&input.const_arguments),
            );
            if let Some((store, _)) = eval_all(
                cx,
                model,
                locals,
                store,
                copied(&input.const_arguments),
            ) {
                lemma_fixed_members(
                    cx,
                    model,
                    types,
                    locals,
                    more,
                    store,
                    other,
                    copied(&input.members),
                );
                if let Some((store, _)) = eval_members(
                    cx,
                    model,
                    locals,
                    store,
                    copied(&input.members),
                ) {
                    lemma_fixed_option(
                        cx,
                        model,
                        types,
                        locals,
                        more,
                        store,
                        other,
                        copied(&input.base),
                    );
                }
            }
        },
        Expression::MemberAccess(input) => {
            lemma_fixed(cx, model, types, locals, more, store, other, copied(&input.inner));
        },
        Expression::Repeat(input) => {
            lemma_fixed(cx, model, types, locals, more, store, other, copied(&input.expr));
            if let Some((store, _)) = eval(cx, model, locals, store, copied(&input.expr)) {
                lemma_fixed(cx, model, types, locals, more, store, other, copied(&input.count));
            }
        },
        Expression::Tuple(input) => {
            lemma_fixed_all(cx, model, types, locals, more, store, other, copied(&input.elements));
        },
        Expression::TupleAccess(input) => {
            lemma_fixed(cx, model, types, locals, more, store, other, copied(&input.tuple));
        },
        Expression::Unary(input) => {
            lemma_fixed(cx, model, types, locals, more, store, other, copied(&input.receiver));
        },
        Expression::Ternary(input) => {
            lemma_fixed(cx, model, types, locals, more, store, other, copied(&input.condition));
            if let Some((store, _)) = eval(cx, model, locals, store, copied(&input.condition)) {
                lemma_fixed(cx, model, types, locals, more, store, other, copied(&input.if_true));
                lemma_fixed(cx, model, types, locals, more, store, other, copied(&input.if_false));
                if let Some((store, _)) = eval(cx, model, locals, store, copied(&input.if_true)) {
                    lemma_fixed(
                        cx,
                        model,
                        types,
                        locals,
                        more,
                        store,
                        other,
                        copied(&input.if_false),
                    );
                }
            }
        },
        _ => {},
    }
}

pub proof fn lemma_fixed_all<V, S>(
    cx: Context,
    model: Model<V, S>,
    types: Map<NodeId, Type>,
    locals: Map<Symbol, V>,
    more: Map<Symbol, V>,
    store: S,
    other: S,
    expressions: List<Expression>,
)
    requires
        locals.submap_of(more),
        all_can_be_discarded(types, expressions),
        are_plain(cx, true, expressions),
    ensures
        eval_all(
            cx,
            model,
            locals,
            store,
            expressions,
        ) matches Some((after, value)) ==> after == store
            && eval_all(
            cx,
            model,
            more,
            other,
            expressions,
        ) == Some((other, value)),
    decreases expressions,
{
    reveal(eval);
    reveal(eval_all);
    reveal(eval_members);
    reveal(eval_option);
    reveal(eval_kind);
    reveal(can_be_discarded);
    reveal(all_can_be_discarded);
    reveal(members_can_be_discarded);
    reveal(is_plain);
    reveal(are_plain);
    reveal(fields_are_plain);
    reveal(option_is_plain);
    if let List::Cons(first, rest) = expressions {
        lemma_fixed(cx, model, types, locals, more, store, other, first);
        if let Some((store, _)) = eval(cx, model, locals, store, first) {
            lemma_fixed_all(cx, model, types, locals, more, store, other, copied(&*rest));
        }
    }
}

proof fn lemma_fixed_members<V, S>(
    cx: Context,
    model: Model<V, S>,
    types: Map<NodeId, Type>,
    locals: Map<Symbol, V>,
    more: Map<Symbol, V>,
    store: S,
    other: S,
    members: List<FieldInitializer>,
)
    requires
        locals.submap_of(more),
        members_can_be_discarded(types, members),
        fields_are_plain(cx, true, members),
    ensures
        eval_members(
            cx,
            model,
            locals,
            store,
            members,
        ) matches Some((after, value)) ==> after == store
            && eval_members(
            cx,
            model,
            more,
            other,
            members,
        ) == Some((other, value)),
    decreases members,
{
    reveal(eval);
    reveal(eval_all);
    reveal(eval_members);
    reveal(eval_option);
    reveal(eval_kind);
    reveal(can_be_discarded);
    reveal(all_can_be_discarded);
    reveal(members_can_be_discarded);
    reveal(is_plain);
    reveal(are_plain);
    reveal(fields_are_plain);
    reveal(option_is_plain);
    if let List::Cons(first, rest) = members {
        lemma_fixed_option(cx, model, types, locals, more, store, other, first.expression);
        if let Some((store, _)) = eval_option(cx, model, locals, store, first.expression) {
            lemma_fixed_members(cx, model, types, locals, more, store, other, copied(&*rest));
        }
    }
}

proof fn lemma_fixed_option<V, S>(
    cx: Context,
    model: Model<V, S>,
    types: Map<NodeId, Type>,
    locals: Map<Symbol, V>,
    more: Map<Symbol, V>,
    store: S,
    other: S,
    expression: Option<Expression>,
)
    requires
        locals.submap_of(more),
        expression matches Some(value) ==> can_be_discarded(types, value),
        option_is_plain(cx, true, expression),
    ensures
        eval_option(
            cx,
            model,
            locals,
            store,
            expression,
        ) matches Some((after, value)) ==> after == store
            && eval_option(
            cx,
            model,
            more,
            other,
            expression,
        ) == Some((other, value)),
    decreases expression,
{
    reveal(eval);
    reveal(eval_all);
    reveal(eval_members);
    reveal(eval_option);
    reveal(eval_kind);
    reveal(can_be_discarded);
    reveal(all_can_be_discarded);
    reveal(members_can_be_discarded);
    reveal(is_plain);
    reveal(are_plain);
    reveal(fields_are_plain);
    reveal(option_is_plain);
    if let Some(value) = expression {
        lemma_fixed(cx, model, types, locals, more, store, other, value);
    }
}

/* Lists */

pub proof fn lemma_eval_appended<V, S>(
    cx: Context,
    model: Model<V, S>,
    locals: Map<Symbol, V>,
    store: S,
    first: List<Expression>,
    second: List<Expression>,
)
    ensures
        eval_all(cx, model, locals, store, appended(first, second)) == match eval_all(
            cx,
            model,
            locals,
            store,
            first,
        ) {
            None => None,
            Some((store, values)) => match eval_all(cx, model, locals, store, second) {
                None => None,
                Some((store, more)) => Some((store, values + more)),
            },
        },
    decreases first,
{
    reveal(eval_all);
    reveal(eval);
    match first {
        List::Nil => {
            if let Some((_, more)) = eval_all(cx, model, locals, store, second) {
                assert(Seq::<V>::empty() + more =~= more);
            }
        },
        List::Cons(head, tail) => {
            if let Some((store, value)) = eval(cx, model, locals, store, head) {
                lemma_eval_appended(cx, model, locals, store, copied(&*tail), second);
                if let Some((store, values)) = eval_all(cx, model, locals, store, copied(&*tail)) {
                    if let Some((_, more)) = eval_all(cx, model, locals, store, second) {
                        assert((seq![value] + values) + more =~= seq![value] + (values + more));
                    }
                }
            }
        },
    }
}

pub proof fn lemma_eval_members_appended<V, S>(
    cx: Context,
    model: Model<V, S>,
    locals: Map<Symbol, V>,
    store: S,
    first: List<FieldInitializer>,
    second: List<FieldInitializer>,
)
    ensures
        eval_members(cx, model, locals, store, appended(first, second)) == match eval_members(
            cx,
            model,
            locals,
            store,
            first,
        ) {
            None => None,
            Some((store, values)) => match eval_members(cx, model, locals, store, second) {
                None => None,
                Some((store, more)) => Some((store, values + more)),
            },
        },
    decreases first,
{
    reveal(eval_members);
    reveal(eval_option);
    match first {
        List::Nil => {
            if let Some((_, more)) = eval_members(cx, model, locals, store, second) {
                assert(Seq::<V>::empty() + more =~= more);
            }
        },
        List::Cons(head, tail) => {
            let rest = copied(&*tail);
            if let Some((store, value)) = eval_option(cx, model, locals, store, head.expression) {
                lemma_eval_members_appended(cx, model, locals, store, rest, second);
                if let Some((store, values)) = eval_members(cx, model, locals, store, rest) {
                    if let Some((_, more)) = eval_members(cx, model, locals, store, second) {
                        assert((value + values) + more =~= value + (values + more));
                    }
                }
            }
        },
    }
}

pub proof fn lemma_eval_one<V, S>(
    cx: Context,
    model: Model<V, S>,
    locals: Map<Symbol, V>,
    store: S,
    expression: Expression,
)
    ensures
        eval_all(cx, model, locals, store, one(expression)) == match eval(
            cx,
            model,
            locals,
            store,
            expression,
        ) {
            None => None,
            Some((store, value)) => Some((store, seq![value])),
        },
{
    reveal(eval_all);
    reveal(eval);
    if let Some((after, value)) = eval(cx, model, locals, store, expression) {
        assert(eval_all(cx, model, locals, after, List::Nil) == Some((after, Seq::<V>::empty())));
        assert(seq![value] + Seq::<V>::empty() =~= seq![value]);
    }
}

pub proof fn lemma_eval_cons<V, S>(
    cx: Context,
    model: Model<V, S>,
    locals: Map<Symbol, V>,
    store: S,
    first: Expression,
    rest: List<Expression>,
)
    ensures
        eval_all(cx, model, locals, store, List::Cons(first, Rc::new(rest))) == match eval(
            cx,
            model,
            locals,
            store,
            first,
        ) {
            None => None,
            Some((store, value)) => match eval_all(cx, model, locals, store, rest) {
                None => None,
                Some((store, values)) => Some((store, seq![value] + values)),
            },
        },
{
    reveal(eval_all);
    reveal(eval);
}

pub proof fn lemma_eval_some<V, S>(
    cx: Context,
    model: Model<V, S>,
    locals: Map<Symbol, V>,
    store: S,
    expression: Expression,
)
    ensures
        eval_option(cx, model, locals, store, Some(expression)) == match eval(
            cx,
            model,
            locals,
            store,
            expression,
        ) {
            None => None,
            Some((store, value)) => Some((store, seq![value])),
        },
{
    reveal(eval_option);
    reveal(eval);
}

pub proof fn lemma_eval_field<V, S>(
    cx: Context,
    model: Model<V, S>,
    locals: Map<Symbol, V>,
    store: S,
    first: FieldInitializer,
    rest: List<FieldInitializer>,
)
    ensures
        eval_members(
            cx,
            model,
            locals,
            store,
            List::Cons(first, Rc::new(rest)),
        ) == match eval_option(
            cx,
            model,
            locals,
            store,
            first.expression,
        ) {
            None => None,
            Some((store, values)) => match eval_members(cx, model, locals, store, rest) {
                None => None,
                Some((store, more)) => Some((store, values + more)),
            },
        },
{
    reveal(eval_members);
    reveal(eval_option);
}

/* Names that are defined */

/// The names that running `statement` may define.
pub open spec fn defined_by(statement: Statement) -> Set<Symbol>
    decreases statement,
{
    match statement {
        Statement::Block(block) => defined_by_all(block.statements),
        Statement::Conditional(input) => defined_by_all(input.then_block.statements).union(
            match input.otherwise {
                Some(otherwise) => defined_by(otherwise),
                None => Set::empty(),
            },
        ),
        Statement::Const(input) => set![input.place.name],
        Statement::Definition(input) => match input.place {
            DefinitionPlace::Single(identifier) => set![identifier.name],
            DefinitionPlace::Multiple(identifiers) => named_by(identifiers@),
        },
        _ => Set::empty(),
    }
}

pub open spec fn defined_by_all(statements: List<Statement>) -> Set<Symbol>
    decreases statements,
{
    match statements {
        List::Nil => Set::empty(),
        List::Cons(first, rest) => defined_by(first).union(defined_by_all(*rest)),
    }
}

/// The names of `identifiers`.
pub open spec fn named_by(identifiers: Seq<Identifier>) -> Set<Symbol> {
    Set::new(
        |symbol: Symbol|
            exists|i: int| 0 <= i < identifiers.len() && #[trigger] identifiers[i].name == symbol,
    )
}

/// Whether `statement` defines no name that is in `taken`.
pub open spec fn defines_anew(taken: Set<Symbol>, statement: Statement) -> bool
    decreases statement,
{
    match statement {
        Statement::Block(block) => all_define_anew(taken, block.statements),
        Statement::Conditional(input) => all_define_anew(taken, input.then_block.statements)
            && match input.otherwise {
            Some(otherwise) => defines_anew(taken, otherwise),
            None => true,
        },
        _ => defined_by(statement).disjoint(taken),
    }
}

/// Whether none of `statements` defines a name that is in `taken`, or that one before it defines.
#[verifier::opaque]
pub open spec fn all_define_anew(taken: Set<Symbol>, statements: List<Statement>) -> bool
    decreases statements,
{
    match statements {
        List::Nil => true,
        List::Cons(first, rest) => defines_anew(taken, first) && all_define_anew(
            taken.union(defined_by(first)),
            *rest,
        ),
    }
}

proof fn lemma_fewer(taken: Set<Symbol>, fewer: Set<Symbol>, statement: Statement)
    requires
        defines_anew(taken, statement),
        fewer.subset_of(taken),
    ensures
        defines_anew(fewer, statement),
    decreases statement,
{
    reveal(all_define_anew);
    match statement {
        Statement::Block(block) => {
            lemma_fewer_taken(taken, fewer, copied(&block.statements));
        },
        Statement::Conditional(input) => {
            lemma_fewer_taken(taken, fewer, copied(&input.then_block.statements));
            if let Some(otherwise) = &input.otherwise {
                lemma_fewer(taken, fewer, copied(otherwise));
            }
        },
        _ => {},
    }
}

pub proof fn lemma_fewer_taken(
    taken: Set<Symbol>,
    fewer: Set<Symbol>,
    statements: List<Statement>,
)
    requires
        all_define_anew(taken, statements),
        fewer.subset_of(taken),
    ensures
        all_define_anew(fewer, statements),
    decreases statements,
{
    reveal(all_define_anew);
    if let List::Cons(first, rest) = statements {
        lemma_fewer(taken, fewer, first);
        lemma_fewer_taken(
            taken.union(defined_by(first)),
            fewer.union(defined_by(first)),
            copied(&*rest),
        );
    }
}

proof fn lemma_parts_defined<V>(
    locals: Map<Symbol, V>,
    names: Seq<Identifier>,
    values: Seq<V>,
)
    ensures
        with_parts(locals, names, values) matches Some(after) ==> after.dom().subset_of(
            locals.dom().union(named_by(names)),
        ),
    decreases names.len(),
{
    if names.len() == values.len() && names.len() > 0 {
        let fewer = names.drop_last();
        lemma_parts_defined(locals, fewer, values.drop_last());
        assert forall|symbol: Symbol| named_by(fewer).contains(symbol) implies named_by(
            names,
        ).contains(symbol) by {
            let i = choose|i: int| 0 <= i < fewer.len() && #[trigger] fewer[i].name == symbol;
            assert(names[i].name == symbol);
        }
        assert(names[names.len() - 1].name == names.last().name);
    }
}

/// Running defines no other names.
pub proof fn lemma_defined<V, S>(
    cx: Context,
    model: Model<V, S>,
    locals: Map<Symbol, V>,
    store: S,
    statement: Statement,
)
    ensures
        run(cx, model, locals, store, statement) matches Outcome::Goes(after, _)
            ==> after.dom().subset_of(locals.dom().union(defined_by(statement))),
    decreases statement,
{
    reveal(run);
    reveal(run_all);
    match statement {
        Statement::Block(block) => {
            lemma_all_defined(cx, model, locals, store, copied(&block.statements));
        },
        Statement::Conditional(input) => {
            if let Some((store, _)) = eval(cx, model, locals, store, copied(&input.condition)) {
                lemma_all_defined(
                    cx,
                    model,
                    locals,
                    store,
                    copied(&input.then_block.statements),
                );
                if let Some(otherwise) = &input.otherwise {
                    lemma_defined(cx, model, locals, store, copied(otherwise));
                }
            }
        },
        Statement::Definition(input) => {
            if let Some((_, value)) = eval(cx, model, locals, store, copied(&input.value)) {
                if let DefinitionPlace::Multiple(identifiers) = &input.place {
                    lemma_parts_defined(locals, copied(identifiers)@, (model.parts)(value));
                }
            }
        },
        _ => {},
    }
}

pub proof fn lemma_all_defined<V, S>(
    cx: Context,
    model: Model<V, S>,
    locals: Map<Symbol, V>,
    store: S,
    statements: List<Statement>,
)
    ensures
        run_all(cx, model, locals, store, statements) matches Outcome::Goes(after, _)
            ==> after.dom().subset_of(locals.dom().union(defined_by_all(statements))),
    decreases statements,
{
    reveal(run_all);
    reveal(run);
    if let List::Cons(first, rest) = statements {
        lemma_defined(cx, model, locals, store, first);
        if let Outcome::Goes(locals, store) = run(cx, model, locals, store, first) {
            lemma_all_defined(cx, model, locals, store, copied(&*rest));
        }
    }
}

/* Statements that follow others */

/// What follows runs on what was left to it.
pub proof fn lemma_run_appended<V, S>(
    cx: Context,
    model: Model<V, S>,
    locals: Map<Symbol, V>,
    store: S,
    first: List<Statement>,
    second: List<Statement>,
)
    ensures
        run_all(cx, model, locals, store, appended(first, second)) == match run_all(
            cx,
            model,
            locals,
            store,
            first,
        ) {
            Outcome::Goes(locals, store) => run_all(cx, model, locals, store, second),
            other => other,
        },
    decreases first,
{
    reveal(run_all);
    reveal(run);
    if let List::Cons(head, tail) = first {
        if let Outcome::Goes(locals, store) = run(cx, model, locals, store, head) {
            lemma_run_appended(cx, model, locals, store, copied(&*tail), second);
        }
    }
}

proof fn lemma_anew_appended(
    taken: Set<Symbol>,
    first: List<Statement>,
    second: List<Statement>,
)
    requires
        all_define_anew(taken, appended(first, second)),
    ensures
        all_define_anew(taken, first),
        all_define_anew(taken.union(defined_by_all(first)), second),
    decreases first,
{
    reveal(all_define_anew);
    match first {
        List::Nil => {
            assert(taken.union(defined_by_all(first)) =~= taken);
        },
        List::Cons(head, tail) => {
            let rest = copied(&*tail);
            lemma_anew_appended(taken.union(defined_by(head)), rest, second);
            assert(taken.union(defined_by(head)).union(defined_by_all(rest)) =~= taken.union(
                defined_by_all(first),
            ));
        },
    }
}

pub proof fn lemma_anew_first(
    taken: Set<Symbol>,
    first: List<Statement>,
    second: List<Statement>,
)
    requires
        all_define_anew(taken, appended(first, second)),
    ensures
        all_define_anew(taken, first),
{
    lemma_anew_appended(taken, first, second);
}

/// Once the first statements ran, those that follow still define names anew.
pub proof fn lemma_followed<V, S>(
    cx: Context,
    model: Model<V, S>,
    locals: Map<Symbol, V>,
    store: S,
    first: List<Statement>,
    second: List<Statement>,
    later: Map<Symbol, V>,
    after: S,
)
    requires
        all_define_anew(locals.dom(), appended(first, second)),
        run_all(cx, model, locals, store, first) == Outcome::Goes(later, after),
    ensures
        run_all(cx, model, locals, store, appended(first, second)) == run_all(
            cx,
            model,
            later,
            after,
            second,
        ),
        all_define_anew(later.dom(), second),
{
    lemma_run_appended(cx, model, locals, store, first, second);
    lemma_anew_appended(locals.dom(), first, second);
    lemma_all_defined(cx, model, locals, store, first);
    lemma_fewer_taken(locals.dom().union(defined_by_all(first)), later.dom(), second);
}

} // verus!
