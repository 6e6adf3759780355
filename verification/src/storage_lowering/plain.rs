//! Expressions that are lowered to branches only where a ternary is.
use crate::ast::{
    ArrayAccess, ArrayExpression, ArrayType, BinaryExpression, BinaryOperation, CallExpression,
    CastExpression, CompositeExpression, CompositeType, DynamicOpExpression, DynamicOpKind,
    Expression, FieldInitializer, FutureType, IntegerType, IntrinsicExpression, Literal, Location,
    MappingType, MemberAccess, ModedType, NodeId, Path, ProgramId, RepeatExpression, Span, Symbol,
    TernaryExpression, TupleAccess, TupleExpression, Type, TypeParameter, UnaryExpression,
    UnitExpression,
};
use crate::list::{appended, copied, one, List};
use crate::names::{interned, lemma_position, text_of, Texts};
use crate::state::{global_in, struct_in, with_id, with_type, State};
use crate::storage_lowering::builders::{
    binary_expr, get_mapping_expr, get_or_use_mapping_expr, mapping_path, ternary_expr,
};
use crate::storage_lowering::dynamic::vector_of_member;
use crate::storage_lowering::emit::takes_vector;
use crate::storage_lowering::predicates::path_reconstructs_to_branch_cps;
use crate::storage_lowering::visitor::{binary_type, expression_type_for_materialization, Context};
use crate::storage_lowering::zero::lookup_interface_from_type;
use crate::units::Member;
use std::rc::Rc;
use vstd::prelude::*;

verus! {

/* Expressions and types */

/// Whether `expression` reads no storage variable, and holds neither an operation on a vector nor
/// a dynamic access that is lowered to something else. A dynamic access to a member that is no
/// vector may stay where `open` says so, though not in an argument of a call or of an operation.
/// The types in the expression must be plain, too.
#[verifier::opaque]
pub open spec fn is_plain(cx: Context, open: bool, expression: Expression) -> bool
    decreases expression,
{
    match expression {
        Expression::Array(input) => are_plain(cx, open, input.elements),
        Expression::ArrayAccess(input) => is_plain(cx, open, input.array)
            && is_plain(cx, open, input.index),
        Expression::Binary(input) => is_plain(cx, open, input.left)
            && is_plain(cx, open, input.right),
        Expression::Call(input) => are_plain(cx, false, input.const_arguments)
            && are_plain(cx, false, input.arguments),
        Expression::Cast(input) => is_plain(cx, open, input.expression),
        Expression::Composite(input) => are_plain(cx, open, input.const_arguments)
            && fields_are_plain(cx, open, input.members)
            && option_is_plain(cx, open, input.base),
        Expression::DynamicOp(input) => is_plain(cx, false, input.target_program)
            && option_is_plain(cx, false, input.network)
            && kind_is_plain(cx, open, input.interface, input.kind),
        Expression::Intrinsic(input) => !takes_vector(input.op)
            && parameters_are_plain(cx, input.type_parameters)
            && moded_are_plain(cx, input.input_types)
            && moded_are_plain(cx, input.return_types)
            && are_plain(cx, false, input.arguments),
        Expression::MemberAccess(input) => is_plain(cx, open, input.inner),
        Expression::Path(input) => !path_reconstructs_to_branch_cps(cx, *input),
        Expression::Repeat(input) => is_plain(cx, open, input.expr)
            && is_plain(cx, open, input.count),
        Expression::Ternary(input) => is_plain(cx, open, input.condition)
            && is_plain(cx, open, input.if_true)
            && is_plain(cx, open, input.if_false),
        Expression::Tuple(input) => are_plain(cx, open, input.elements),
        Expression::TupleAccess(input) => is_plain(cx, open, input.tuple),
        Expression::Unary(input) => is_plain(cx, open, input.receiver),
        _ => true,
    }
}

#[verifier::opaque]
pub open spec fn are_plain(cx: Context, open: bool, expressions: List<Expression>) -> bool
    decreases expressions,
{
    match expressions {
        List::Nil => true,
        List::Cons(first, rest) => is_plain(cx, open, first) && are_plain(cx, open, *rest),
    }
}

#[verifier::opaque]
pub open spec fn option_is_plain(cx: Context, open: bool, expression: Option<Expression>) -> bool
    decreases expression,
{
    match expression {
        None => true,
        Some(expression) => is_plain(cx, open, expression),
    }
}

#[verifier::opaque]
pub open spec fn kind_is_plain(
    cx: Context,
    open: bool,
    interface: Type,
    kind: DynamicOpKind,
) -> bool
    decreases kind,
{
    match kind {
        DynamicOpKind::Read { .. } => false,
        DynamicOpKind::Op { member, arguments, .. } => match vector_of_member(
            cx,
            interface,
            member,
        ) {
            Ok(None) => open && are_plain(cx, true, arguments),
            _ => false,
        },
        DynamicOpKind::Call { arguments, .. } => are_plain(cx, open, arguments),
    }
}

#[verifier::opaque]
pub open spec fn fields_are_plain(
    cx: Context,
    open: bool,
    fields: List<FieldInitializer>,
) -> bool
    decreases fields,
{
    match fields {
        List::Nil => true,
        List::Cons(first, rest) => option_is_plain(cx, open, first.expression) && fields_are_plain(
            cx,
            open,
            *rest,
        ),
    }
}

/// Whether the lengths of arrays and the const arguments in `type_` are plain.
#[verifier::opaque]
pub open spec fn type_is_plain(cx: Context, type_: Type) -> bool
    decreases type_,
{
    match type_ {
        Type::Array(input) => is_plain(cx, false, input.length)
            && type_is_plain(cx, input.element_type),
        Type::Composite(input) => are_plain(cx, false, input.const_arguments),
        Type::Future(input) => types_are_plain(cx, input.inputs),
        Type::Mapping(input) => type_is_plain(cx, input.key) && type_is_plain(cx, input.value),
        Type::Optional(input) => type_is_plain(cx, *input),
        Type::Tuple(input) => types_are_plain(cx, *input),
        Type::Vector(input) => type_is_plain(cx, *input),
        _ => true,
    }
}

#[verifier::opaque]
pub open spec fn types_are_plain(cx: Context, types: List<Type>) -> bool
    decreases types,
{
    match types {
        List::Nil => true,
        List::Cons(first, rest) => type_is_plain(cx, first) && types_are_plain(cx, *rest),
    }
}

#[verifier::opaque]
pub open spec fn parameters_are_plain(cx: Context, parameters: List<TypeParameter>) -> bool
    decreases parameters,
{
    match parameters {
        List::Nil => true,
        List::Cons(first, rest) => type_is_plain(cx, first.type_)
            && parameters_are_plain(cx, *rest),
    }
}

#[verifier::opaque]
pub open spec fn moded_are_plain(cx: Context, types: List<ModedType>) -> bool
    decreases types,
{
    match types {
        List::Nil => true,
        List::Cons(first, rest) => type_is_plain(cx, first.type_) && moded_are_plain(cx, *rest),
    }
}

pub open spec fn members_are_plain(cx: Context, members: List<Member>) -> bool
    decreases members,
{
    match members {
        List::Nil => true,
        List::Cons(first, rest) => type_is_plain(cx, first.type_) && members_are_plain(cx, *rest),
    }
}

/* Names */

/// Whether `symbol` is the name of a storage variable.
pub open spec fn is_stored(cx: Context, symbol: Symbol) -> bool {
    match global_in(
        cx.table.globals,
        cx.program,
        Location { program: cx.program, path: one(symbol) },
    ) {
        Some(Some(Type::Optional(_))) => true,
        _ => false,
    }
}

/// Whether `text` ends as the names of the mappings that lowering adds do.
pub open spec fn ends_as_mapping(text: Seq<char>) -> bool {
    text.len() >= 2 && text[text.len() - 1] == '_' && text[text.len() - 2] == '_'
}

/// Whether the names of storage variables are among `names`, and none of them ends as the names of
/// the mappings do that lowering adds.
#[verifier::opaque]
pub open spec fn is_apart(cx: Context, names: Texts) -> bool {
    forall|symbol: Symbol| #[trigger]
        is_stored(cx, symbol) ==> {
            &&& symbol.index < names.len()
            &&& symbol.index < usize::MAX
            &&& !ends_as_mapping(text_of(names, symbol))
        }
}

/// Interning a name keeps names apart.
pub broadcast proof fn interning_keeps_apart(cx: Context, names: Texts, text: Seq<char>)
    requires
        is_apart(cx, names),
    ensures
        #[trigger] is_apart(cx, interned(names, text).0),
{
    reveal(is_apart);
    let after = interned(names, text).0;
    assert forall|symbol: Symbol| #[trigger] is_stored(cx, symbol) implies symbol.index
        < after.len() && symbol.index < usize::MAX && !ends_as_mapping(text_of(after, symbol)) by {
        assert(text_of(after, symbol) == text_of(names, symbol));
    }
}

/// A mapping that lowering adds has the name of no storage variable.
pub proof fn lemma_mapping_path(
    cx: Context,
    program: Option<ProgramId>,
    names: Texts,
    text: Seq<char>,
    id: NodeId,
)
    requires
        is_apart(cx, names),
        ends_as_mapping(text),
    ensures
        is_plain(cx, false, mapping_path(cx, program, interned(names, text).1, id)),
        is_plain(cx, true, mapping_path(cx, program, interned(names, text).1, id)),
{
    reveal(is_apart);
    reveal(is_plain);
    lemma_position(names, text);
    assert(!is_stored(cx, interned(names, text).1));
}

/* What is known */

/// Whether all known types of nodes are plain.
#[verifier::opaque]
pub open spec fn knows_plain(cx: Context, types: Map<NodeId, Type>) -> bool {
    forall|id: NodeId| #[trigger] types.contains_key(id) ==> type_is_plain(cx, types[id])
}

pub broadcast proof fn learning_keeps_plain(
    cx: Context,
    types: Map<NodeId, Type>,
    id: NodeId,
    type_: Type,
)
    requires
        knows_plain(cx, types),
        type_is_plain(cx, type_),
    ensures
        #[trigger] knows_plain(cx, types.insert(id, type_)),
{
    reveal(knows_plain);
}

pub broadcast proof fn known_is_plain(cx: Context, types: Map<NodeId, Type>, id: NodeId)
    requires
        #[trigger] knows_plain(cx, types),
        types.contains_key(id),
    ensures
        type_is_plain(cx, #[trigger] types[id]),
{
    reveal(knows_plain);
}

/// Whether all types in the symbol table and of the added mappings are plain.
#[verifier::opaque]
pub open spec fn holds_plain(cx: Context) -> bool {
    &&& forall|location: Location|
        (#[trigger] struct_in(cx.table.structs, cx.program, location)) matches Some(members)
            ==> members_are_plain(cx, members)
    &&& forall|location: Location|
        (#[trigger] global_in(cx.table.globals, cx.program, location)) matches Some(Some(type_))
            ==> type_is_plain(cx, type_)
    &&& forall|interface: Type|
        (#[trigger] lookup_interface_from_type(cx, interface)) matches Ok(found)
            ==> members_are_plain(cx, found.storages)
    &&& forall|key: Seq<usize>| #[trigger]
        cx.mappings.contains_key(key) ==> type_is_plain(cx, cx.mappings[key].key_type)
            && type_is_plain(cx, cx.mappings[key].value_type)
}

/// Whether storage variables and mappings have names apart in `state`, and all types are plain.
pub open spec fn is_regular_state(cx: Context, state: State) -> bool {
    &&& holds_plain(cx)
    &&& is_apart(cx, state.names)
    &&& knows_plain(cx, state.types)
}

/// The type that a plain expression has where its value is bound to a name is plain.
pub broadcast proof fn bound_type_is_plain(
    cx: Context,
    open: bool,
    types: Map<NodeId, Type>,
    expression: Expression,
)
    requires
        holds_plain(cx),
        knows_plain(cx, types),
        #[trigger] is_plain(cx, open, expression),
    ensures
        (#[trigger] expression_type_for_materialization(cx, types, expression)) matches Some(type_)
            ==> type_is_plain(cx, type_),
    decreases expression,
{
    reveal(expression_type_for_materialization);
    reveal(is_plain);
    reveal(are_plain);
    reveal(option_is_plain);
    reveal(kind_is_plain);
    reveal(fields_are_plain);
    reveal(type_is_plain);
    reveal(types_are_plain);
    reveal(parameters_are_plain);
    reveal(moded_are_plain);
    reveal(knows_plain);
    reveal(holds_plain);
    match expression {
        Expression::Binary(input) => {
            plain_type_boolean(cx);
            bound_type_is_plain(cx, open, types, copied(&input.left));
            bound_type_is_plain(cx, open, types, copied(&input.right));
            let left = expression_type_for_materialization(cx, types, copied(&input.left));
            let right = expression_type_for_materialization(cx, types, copied(&input.right));
            if !types.contains_key(expression.spec_id()) {
                assert(expression_type_for_materialization(cx, types, expression) == binary_type(
                    input.op,
                    left,
                    right,
                ));
            }
        },
        Expression::Intrinsic(input) => {
            plain_type_boolean(cx);
            plain_type_unit(cx);
            if let List::Cons(first, rest) = copied(&input.type_parameters) {
                parameters_are_plain_cons(cx, first, copied(&*rest));
            }
            if let List::Cons(mapping, rest) = copied(&input.arguments) {
                are_plain_cons(cx, false, mapping, copied(&*rest));
                bound_type_is_plain(cx, false, types, mapping);
                if let Some(Type::Mapping(held)) = expression_type_for_materialization(
                    cx,
                    types,
                    mapping,
                ) {
                    plain_type_mapping(cx, copied(&*held));
                }
                if let List::Cons(key, rest) = copied(&*rest) {
                    are_plain_cons(cx, false, key, copied(&*rest));
                    if let List::Cons(default, after) = copied(&*rest) {
                        are_plain_cons(cx, false, default, copied(&*after));
                        bound_type_is_plain(cx, false, types, default);
                    }
                }
            }
        },
        Expression::Ternary(input) => {
            bound_type_is_plain(cx, open, types, copied(&input.if_true));
            bound_type_is_plain(cx, open, types, copied(&input.if_false));
        },
        _ => {},
    }
}

/* Expressions whose lowering ends */

/// Whether `expression` hands no dynamic access to a member that is no vector to a call, or to an
/// operation other than those on vectors. Where `open` does not say so, it holds no such access at
/// all, but in the operands of an operation on a vector or of a dynamic access. The types and the
/// const arguments of calls in it must be plain.
#[verifier::opaque]
pub open spec fn is_regular(cx: Context, open: bool, expression: Expression) -> bool
    decreases expression,
{
    match expression {
        Expression::Array(input) => are_regular(cx, open, input.elements),
        Expression::ArrayAccess(input) => is_regular(cx, open, input.array)
            && is_regular(cx, open, input.index),
        Expression::Binary(input) => is_regular(cx, open, input.left)
            && is_regular(cx, open, input.right),
        Expression::Call(input) => are_plain(cx, false, input.const_arguments)
            && are_regular(cx, false, input.arguments),
        Expression::Cast(input) => is_regular(cx, open, input.expression),
        Expression::Composite(input) => are_regular(cx, open, input.const_arguments)
            && fields_are_regular(cx, open, input.members)
            && option_is_regular(cx, open, input.base),
        Expression::DynamicOp(input) => is_regular(cx, true, input.target_program)
            && option_is_regular(cx, true, input.network)
            && kind_is_regular(cx, open, input.interface, input.kind),
        Expression::Intrinsic(input) => {
            &&& parameters_are_plain(cx, input.type_parameters)
            &&& moded_are_plain(cx, input.input_types)
            &&& moded_are_plain(cx, input.return_types)
            &&& if takes_vector(input.op) {
                input.arguments matches List::Cons(_, values) ==> are_regular(cx, true, *values)
            } else {
                are_regular(cx, false, input.arguments)
            }
        },
        Expression::MemberAccess(input) => is_regular(cx, open, input.inner),
        Expression::Repeat(input) => is_regular(cx, open, input.expr)
            && is_regular(cx, open, input.count),
        Expression::Ternary(input) => is_regular(cx, open, input.condition)
            && is_regular(cx, open, input.if_true)
            && is_regular(cx, open, input.if_false),
        Expression::Tuple(input) => are_regular(cx, open, input.elements),
        Expression::TupleAccess(input) => is_regular(cx, open, input.tuple),
        Expression::Unary(input) => is_regular(cx, open, input.receiver),
        _ => true,
    }
}

#[verifier::opaque]
pub open spec fn are_regular(cx: Context, open: bool, expressions: List<Expression>) -> bool
    decreases expressions,
{
    match expressions {
        List::Nil => true,
        List::Cons(first, rest) => is_regular(cx, open, first) && are_regular(cx, open, *rest),
    }
}

#[verifier::opaque]
pub open spec fn option_is_regular(cx: Context, open: bool, expression: Option<Expression>) -> bool
    decreases expression,
{
    match expression {
        None => true,
        Some(expression) => is_regular(cx, open, expression),
    }
}

#[verifier::opaque]
pub open spec fn kind_is_regular(
    cx: Context,
    open: bool,
    interface: Type,
    kind: DynamicOpKind,
) -> bool
    decreases kind,
{
    match kind {
        DynamicOpKind::Read { .. } => true,
        DynamicOpKind::Op { member, arguments, .. } => match vector_of_member(
            cx,
            interface,
            member,
        ) {
            Ok(None) => open && are_regular(cx, true, arguments),
            _ => are_regular(cx, true, arguments),
        },
        DynamicOpKind::Call { arguments, .. } => are_regular(cx, open, arguments),
    }
}

#[verifier::opaque]
pub open spec fn fields_are_regular(
    cx: Context,
    open: bool,
    fields: List<FieldInitializer>,
) -> bool
    decreases fields,
{
    match fields {
        List::Nil => true,
        List::Cons(first, rest) => option_is_regular(cx, open, first.expression)
            && fields_are_regular(
            cx,
            open,
            *rest,
        ),
    }
}

/// Whether `expression` is lowered to a plain one without continuations. Like a regular expression,
/// but the target of a dynamic access holds no dynamic access to a member that is no vector.
#[verifier::opaque]
pub open spec fn is_direct(cx: Context, open: bool, expression: Expression) -> bool
    decreases expression,
{
    match expression {
        Expression::Array(input) => are_direct(cx, open, input.elements),
        Expression::ArrayAccess(input) => is_direct(cx, open, input.array)
            && is_direct(cx, open, input.index),
        Expression::Binary(input) => is_direct(cx, open, input.left)
            && is_direct(cx, open, input.right),
        Expression::Call(input) => are_plain(cx, false, input.const_arguments)
            && are_direct(cx, false, input.arguments),
        Expression::Cast(input) => is_direct(cx, open, input.expression),
        Expression::Composite(input) => are_direct(cx, open, input.const_arguments)
            && fields_are_direct(cx, open, input.members)
            && option_is_direct(cx, open, input.base),
        Expression::DynamicOp(input) => is_direct(cx, false, input.target_program)
            && option_is_direct(cx, false, input.network)
            && kind_is_direct(cx, open, input.interface, input.kind),
        Expression::Intrinsic(input) => {
            &&& parameters_are_plain(cx, input.type_parameters)
            &&& moded_are_plain(cx, input.input_types)
            &&& moded_are_plain(cx, input.return_types)
            &&& if takes_vector(input.op) {
                input.arguments matches List::Cons(_, values) ==> are_direct(cx, true, *values)
            } else {
                are_direct(cx, false, input.arguments)
            }
        },
        Expression::MemberAccess(input) => is_direct(cx, open, input.inner),
        Expression::Repeat(input) => is_direct(cx, open, input.expr)
            && is_direct(cx, open, input.count),
        Expression::Ternary(input) => is_direct(cx, open, input.condition)
            && is_direct(cx, open, input.if_true)
            && is_direct(cx, open, input.if_false),
        Expression::Tuple(input) => are_direct(cx, open, input.elements),
        Expression::TupleAccess(input) => is_direct(cx, open, input.tuple),
        Expression::Unary(input) => is_direct(cx, open, input.receiver),
        _ => true,
    }
}

#[verifier::opaque]
pub open spec fn are_direct(cx: Context, open: bool, expressions: List<Expression>) -> bool
    decreases expressions,
{
    match expressions {
        List::Nil => true,
        List::Cons(first, rest) => is_direct(cx, open, first) && are_direct(cx, open, *rest),
    }
}

#[verifier::opaque]
pub open spec fn option_is_direct(cx: Context, open: bool, expression: Option<Expression>) -> bool
    decreases expression,
{
    match expression {
        None => true,
        Some(expression) => is_direct(cx, open, expression),
    }
}

#[verifier::opaque]
pub open spec fn kind_is_direct(
    cx: Context,
    open: bool,
    interface: Type,
    kind: DynamicOpKind,
) -> bool
    decreases kind,
{
    match kind {
        DynamicOpKind::Read { .. } => true,
        DynamicOpKind::Op { member, arguments, .. } => match vector_of_member(
            cx,
            interface,
            member,
        ) {
            Ok(None) => open && are_direct(cx, true, arguments),
            _ => are_direct(cx, true, arguments),
        },
        DynamicOpKind::Call { arguments, .. } => are_direct(cx, open, arguments),
    }
}

#[verifier::opaque]
pub open spec fn fields_are_direct(
    cx: Context,
    open: bool,
    fields: List<FieldInitializer>,
) -> bool
    decreases fields,
{
    match fields {
        List::Nil => true,
        List::Cons(first, rest) => option_is_direct(cx, open, first.expression)
            && fields_are_direct(
            cx,
            open,
            *rest,
        ),
    }
}

/* What the definitions say of each kind of node */

pub broadcast proof fn plain_array(cx: Context, open: bool, input: ArrayExpression)
    ensures
        #[trigger] is_plain(
            cx,
            open,
            Expression::Array(Rc::new(input)),
        ) == (are_plain(cx, open, input.elements)),
{
    reveal(is_plain);
    reveal(are_plain);
    reveal(option_is_plain);
    reveal(kind_is_plain);
    reveal(fields_are_plain);
    reveal(type_is_plain);
    reveal(types_are_plain);
    reveal(parameters_are_plain);
    reveal(moded_are_plain);
}

pub broadcast proof fn plain_array_access(cx: Context, open: bool, input: ArrayAccess)
    ensures
        #[trigger] is_plain(cx, open, Expression::ArrayAccess(Rc::new(input))) == (
            is_plain(cx, open, input.array) && is_plain(cx, open, input.index)
        ),
{
    reveal(is_plain);
    reveal(are_plain);
    reveal(option_is_plain);
    reveal(kind_is_plain);
    reveal(fields_are_plain);
    reveal(type_is_plain);
    reveal(types_are_plain);
    reveal(parameters_are_plain);
    reveal(moded_are_plain);
}

pub broadcast proof fn plain_binary(cx: Context, open: bool, input: BinaryExpression)
    ensures
        #[trigger] is_plain(cx, open, Expression::Binary(Rc::new(input))) == (
            is_plain(cx, open, input.left) && is_plain(cx, open, input.right)
        ),
{
    reveal(is_plain);
    reveal(are_plain);
    reveal(option_is_plain);
    reveal(kind_is_plain);
    reveal(fields_are_plain);
    reveal(type_is_plain);
    reveal(types_are_plain);
    reveal(parameters_are_plain);
    reveal(moded_are_plain);
}

pub broadcast proof fn plain_call(cx: Context, open: bool, input: CallExpression)
    ensures
        #[trigger] is_plain(cx, open, Expression::Call(Rc::new(input))) == (
            are_plain(cx, false, input.const_arguments) && are_plain(cx, false, input.arguments)
        ),
{
    reveal(is_plain);
    reveal(are_plain);
    reveal(option_is_plain);
    reveal(kind_is_plain);
    reveal(fields_are_plain);
    reveal(type_is_plain);
    reveal(types_are_plain);
    reveal(parameters_are_plain);
    reveal(moded_are_plain);
}

pub broadcast proof fn plain_cast(cx: Context, open: bool, input: CastExpression)
    ensures
        #[trigger] is_plain(
            cx,
            open,
            Expression::Cast(Rc::new(input)),
        ) == (is_plain(cx, open, input.expression)),
{
    reveal(is_plain);
    reveal(are_plain);
    reveal(option_is_plain);
    reveal(kind_is_plain);
    reveal(fields_are_plain);
    reveal(type_is_plain);
    reveal(types_are_plain);
    reveal(parameters_are_plain);
    reveal(moded_are_plain);
}

pub broadcast proof fn plain_composite(cx: Context, open: bool, input: CompositeExpression)
    ensures
        #[trigger] is_plain(cx, open, Expression::Composite(Rc::new(input))) == (
            are_plain(cx, open, input.const_arguments)
                && fields_are_plain(cx, open, input.members)
                && option_is_plain(cx, open, input.base)
        ),
{
    reveal(is_plain);
    reveal(are_plain);
    reveal(option_is_plain);
    reveal(kind_is_plain);
    reveal(fields_are_plain);
    reveal(type_is_plain);
    reveal(types_are_plain);
    reveal(parameters_are_plain);
    reveal(moded_are_plain);
}

pub broadcast proof fn plain_dynamic(cx: Context, open: bool, input: DynamicOpExpression)
    ensures
        #[trigger] is_plain(cx, open, Expression::DynamicOp(Rc::new(input))) == (
            is_plain(cx, false, input.target_program)
                && option_is_plain(cx, false, input.network)
                && kind_is_plain(cx, open, input.interface, input.kind)
        ),
{
    reveal(is_plain);
    reveal(are_plain);
    reveal(option_is_plain);
    reveal(kind_is_plain);
    reveal(fields_are_plain);
    reveal(type_is_plain);
    reveal(types_are_plain);
    reveal(parameters_are_plain);
    reveal(moded_are_plain);
}

pub broadcast proof fn plain_intrinsic(cx: Context, open: bool, input: IntrinsicExpression)
    ensures
        #[trigger] is_plain(cx, open, Expression::Intrinsic(Rc::new(input))) == (
            !takes_vector(input.op)
                && parameters_are_plain(cx, input.type_parameters)
                && moded_are_plain(cx, input.input_types)
                && moded_are_plain(cx, input.return_types)
                && are_plain(cx, false, input.arguments)
        ),
{
    reveal(is_plain);
    reveal(are_plain);
    reveal(option_is_plain);
    reveal(kind_is_plain);
    reveal(fields_are_plain);
    reveal(type_is_plain);
    reveal(types_are_plain);
    reveal(parameters_are_plain);
    reveal(moded_are_plain);
}

pub broadcast proof fn plain_member_access(cx: Context, open: bool, input: MemberAccess)
    ensures
        #[trigger] is_plain(
            cx,
            open,
            Expression::MemberAccess(Rc::new(input)),
        ) == (is_plain(cx, open, input.inner)),
{
    reveal(is_plain);
    reveal(are_plain);
    reveal(option_is_plain);
    reveal(kind_is_plain);
    reveal(fields_are_plain);
    reveal(type_is_plain);
    reveal(types_are_plain);
    reveal(parameters_are_plain);
    reveal(moded_are_plain);
}

pub broadcast proof fn plain_path(cx: Context, open: bool, input: Path)
    ensures
        #[trigger] is_plain(cx, open, Expression::Path(Rc::new(input))) == (
            !path_reconstructs_to_branch_cps(cx, input)
        ),
{
    reveal(is_plain);
    reveal(are_plain);
    reveal(option_is_plain);
    reveal(kind_is_plain);
    reveal(fields_are_plain);
    reveal(type_is_plain);
    reveal(types_are_plain);
    reveal(parameters_are_plain);
    reveal(moded_are_plain);
}

pub broadcast proof fn plain_repeat(cx: Context, open: bool, input: RepeatExpression)
    ensures
        #[trigger] is_plain(cx, open, Expression::Repeat(Rc::new(input))) == (
            is_plain(cx, open, input.expr) && is_plain(cx, open, input.count)
        ),
{
    reveal(is_plain);
    reveal(are_plain);
    reveal(option_is_plain);
    reveal(kind_is_plain);
    reveal(fields_are_plain);
    reveal(type_is_plain);
    reveal(types_are_plain);
    reveal(parameters_are_plain);
    reveal(moded_are_plain);
}

pub broadcast proof fn plain_ternary(cx: Context, open: bool, input: TernaryExpression)
    ensures
        #[trigger] is_plain(cx, open, Expression::Ternary(Rc::new(input))) == (
            is_plain(cx, open, input.condition)
                && is_plain(cx, open, input.if_true)
                && is_plain(cx, open, input.if_false)
        ),
{
    reveal(is_plain);
    reveal(are_plain);
    reveal(option_is_plain);
    reveal(kind_is_plain);
    reveal(fields_are_plain);
    reveal(type_is_plain);
    reveal(types_are_plain);
    reveal(parameters_are_plain);
    reveal(moded_are_plain);
}

pub broadcast proof fn plain_tuple(cx: Context, open: bool, input: TupleExpression)
    ensures
        #[trigger] is_plain(
            cx,
            open,
            Expression::Tuple(Rc::new(input)),
        ) == (are_plain(cx, open, input.elements)),
{
    reveal(is_plain);
    reveal(are_plain);
    reveal(option_is_plain);
    reveal(kind_is_plain);
    reveal(fields_are_plain);
    reveal(type_is_plain);
    reveal(types_are_plain);
    reveal(parameters_are_plain);
    reveal(moded_are_plain);
}

pub broadcast proof fn plain_tuple_access(cx: Context, open: bool, input: TupleAccess)
    ensures
        #[trigger] is_plain(
            cx,
            open,
            Expression::TupleAccess(Rc::new(input)),
        ) == (is_plain(cx, open, input.tuple)),
{
    reveal(is_plain);
    reveal(are_plain);
    reveal(option_is_plain);
    reveal(kind_is_plain);
    reveal(fields_are_plain);
    reveal(type_is_plain);
    reveal(types_are_plain);
    reveal(parameters_are_plain);
    reveal(moded_are_plain);
}

pub broadcast proof fn plain_unary(cx: Context, open: bool, input: UnaryExpression)
    ensures
        #[trigger] is_plain(
            cx,
            open,
            Expression::Unary(Rc::new(input)),
        ) == (is_plain(cx, open, input.receiver)),
{
    reveal(is_plain);
    reveal(are_plain);
    reveal(option_is_plain);
    reveal(kind_is_plain);
    reveal(fields_are_plain);
    reveal(type_is_plain);
    reveal(types_are_plain);
    reveal(parameters_are_plain);
    reveal(moded_are_plain);
}

pub broadcast proof fn plain_literal(cx: Context, open: bool, input: Literal)
    ensures
        #[trigger] is_plain(cx, open, Expression::Literal(input)) == (true),
{
    reveal(is_plain);
    reveal(are_plain);
    reveal(option_is_plain);
    reveal(kind_is_plain);
    reveal(fields_are_plain);
    reveal(type_is_plain);
    reveal(types_are_plain);
    reveal(parameters_are_plain);
    reveal(moded_are_plain);
}

pub broadcast proof fn plain_unit(cx: Context, open: bool, input: UnitExpression)
    ensures
        #[trigger] is_plain(cx, open, Expression::Unit(input)) == (true),
{
    reveal(is_plain);
    reveal(are_plain);
    reveal(option_is_plain);
    reveal(kind_is_plain);
    reveal(fields_are_plain);
    reveal(type_is_plain);
    reveal(types_are_plain);
    reveal(parameters_are_plain);
    reveal(moded_are_plain);
}

pub broadcast proof fn are_plain_nil(cx: Context, open: bool)
    ensures
        #[trigger] are_plain(cx, open, List::Nil) == (true),
{
    reveal(is_plain);
    reveal(are_plain);
    reveal(option_is_plain);
    reveal(kind_is_plain);
    reveal(fields_are_plain);
    reveal(type_is_plain);
    reveal(types_are_plain);
    reveal(parameters_are_plain);
    reveal(moded_are_plain);
}

pub broadcast proof fn are_plain_cons(
    cx: Context,
    open: bool,
    first: Expression,
    rest: List<Expression>,
)
    ensures
        #[trigger] are_plain(cx, open, List::Cons(first, Rc::new(rest))) == (
            is_plain(cx, open, first) && are_plain(cx, open, rest)
        ),
{
    reveal(is_plain);
    reveal(are_plain);
    reveal(option_is_plain);
    reveal(kind_is_plain);
    reveal(fields_are_plain);
    reveal(type_is_plain);
    reveal(types_are_plain);
    reveal(parameters_are_plain);
    reveal(moded_are_plain);
}

pub broadcast proof fn fields_are_plain_nil(cx: Context, open: bool)
    ensures
        #[trigger] fields_are_plain(cx, open, List::Nil) == (true),
{
    reveal(is_plain);
    reveal(are_plain);
    reveal(option_is_plain);
    reveal(kind_is_plain);
    reveal(fields_are_plain);
    reveal(type_is_plain);
    reveal(types_are_plain);
    reveal(parameters_are_plain);
    reveal(moded_are_plain);
}

pub broadcast proof fn fields_are_plain_cons(
    cx: Context,
    open: bool,
    first: FieldInitializer,
    rest: List<FieldInitializer>,
)
    ensures
        #[trigger] fields_are_plain(cx, open, List::Cons(first, Rc::new(rest))) == (
            option_is_plain(cx, open, first.expression) && fields_are_plain(cx, open, rest)
        ),
{
    reveal(is_plain);
    reveal(are_plain);
    reveal(option_is_plain);
    reveal(kind_is_plain);
    reveal(fields_are_plain);
    reveal(type_is_plain);
    reveal(types_are_plain);
    reveal(parameters_are_plain);
    reveal(moded_are_plain);
}

pub broadcast proof fn option_plain_none(cx: Context, open: bool)
    ensures
        #[trigger] option_is_plain(cx, open, None) == (true),
{
    reveal(is_plain);
    reveal(are_plain);
    reveal(option_is_plain);
    reveal(kind_is_plain);
    reveal(fields_are_plain);
    reveal(type_is_plain);
    reveal(types_are_plain);
    reveal(parameters_are_plain);
    reveal(moded_are_plain);
}

pub broadcast proof fn option_plain_some(cx: Context, open: bool, expression: Expression)
    ensures
        #[trigger] option_is_plain(cx, open, Some(expression)) == (is_plain(cx, open, expression)),
{
    reveal(is_plain);
    reveal(are_plain);
    reveal(option_is_plain);
    reveal(kind_is_plain);
    reveal(fields_are_plain);
    reveal(type_is_plain);
    reveal(types_are_plain);
    reveal(parameters_are_plain);
    reveal(moded_are_plain);
}

pub broadcast proof fn plain_type_array(cx: Context, input: ArrayType)
    ensures
        #[trigger] type_is_plain(cx, Type::Array(Rc::new(input))) == (
            is_plain(cx, false, input.length) && type_is_plain(cx, input.element_type)
        ),
{
    reveal(is_plain);
    reveal(are_plain);
    reveal(option_is_plain);
    reveal(kind_is_plain);
    reveal(fields_are_plain);
    reveal(type_is_plain);
    reveal(types_are_plain);
    reveal(parameters_are_plain);
    reveal(moded_are_plain);
}

pub broadcast proof fn plain_type_composite(cx: Context, input: CompositeType)
    ensures
        #[trigger] type_is_plain(cx, Type::Composite(Rc::new(input))) == (
            are_plain(cx, false, input.const_arguments)
        ),
{
    reveal(is_plain);
    reveal(are_plain);
    reveal(option_is_plain);
    reveal(kind_is_plain);
    reveal(fields_are_plain);
    reveal(type_is_plain);
    reveal(types_are_plain);
    reveal(parameters_are_plain);
    reveal(moded_are_plain);
}

pub broadcast proof fn plain_type_future(cx: Context, input: FutureType)
    ensures
        #[trigger] type_is_plain(cx, Type::Future(Rc::new(input))) == (
            types_are_plain(cx, input.inputs)
        ),
{
    reveal(is_plain);
    reveal(are_plain);
    reveal(option_is_plain);
    reveal(kind_is_plain);
    reveal(fields_are_plain);
    reveal(type_is_plain);
    reveal(types_are_plain);
    reveal(parameters_are_plain);
    reveal(moded_are_plain);
}

pub broadcast proof fn plain_type_mapping(cx: Context, input: MappingType)
    ensures
        #[trigger] type_is_plain(cx, Type::Mapping(Rc::new(input))) == (
            type_is_plain(cx, input.key) && type_is_plain(cx, input.value)
        ),
{
    reveal(is_plain);
    reveal(are_plain);
    reveal(option_is_plain);
    reveal(kind_is_plain);
    reveal(fields_are_plain);
    reveal(type_is_plain);
    reveal(types_are_plain);
    reveal(parameters_are_plain);
    reveal(moded_are_plain);
}

pub broadcast proof fn plain_type_optional(cx: Context, input: Type)
    ensures
        #[trigger] type_is_plain(cx, Type::Optional(Rc::new(input))) == (type_is_plain(cx, input)),
{
    reveal(is_plain);
    reveal(are_plain);
    reveal(option_is_plain);
    reveal(kind_is_plain);
    reveal(fields_are_plain);
    reveal(type_is_plain);
    reveal(types_are_plain);
    reveal(parameters_are_plain);
    reveal(moded_are_plain);
}

pub broadcast proof fn plain_type_tuple(cx: Context, input: List<Type>)
    ensures
        #[trigger] type_is_plain(cx, Type::Tuple(Rc::new(input))) == (types_are_plain(cx, input)),
{
    reveal(is_plain);
    reveal(are_plain);
    reveal(option_is_plain);
    reveal(kind_is_plain);
    reveal(fields_are_plain);
    reveal(type_is_plain);
    reveal(types_are_plain);
    reveal(parameters_are_plain);
    reveal(moded_are_plain);
}

pub broadcast proof fn plain_type_vector(cx: Context, input: Type)
    ensures
        #[trigger] type_is_plain(cx, Type::Vector(Rc::new(input))) == (type_is_plain(cx, input)),
{
    reveal(is_plain);
    reveal(are_plain);
    reveal(option_is_plain);
    reveal(kind_is_plain);
    reveal(fields_are_plain);
    reveal(type_is_plain);
    reveal(types_are_plain);
    reveal(parameters_are_plain);
    reveal(moded_are_plain);
}

pub broadcast proof fn plain_type_integer(cx: Context, integer: IntegerType)
    ensures
        #[trigger] type_is_plain(cx, Type::Integer(integer)) == (true),
{
    reveal(is_plain);
    reveal(are_plain);
    reveal(option_is_plain);
    reveal(kind_is_plain);
    reveal(fields_are_plain);
    reveal(type_is_plain);
    reveal(types_are_plain);
    reveal(parameters_are_plain);
    reveal(moded_are_plain);
}

pub broadcast proof fn plain_type_boolean(cx: Context)
    ensures
        #[trigger] type_is_plain(cx, Type::Boolean) == (true),
{
    reveal(is_plain);
    reveal(are_plain);
    reveal(option_is_plain);
    reveal(kind_is_plain);
    reveal(fields_are_plain);
    reveal(type_is_plain);
    reveal(types_are_plain);
    reveal(parameters_are_plain);
    reveal(moded_are_plain);
}

pub broadcast proof fn plain_type_unit(cx: Context)
    ensures
        #[trigger] type_is_plain(cx, Type::Unit) == (true),
{
    reveal(is_plain);
    reveal(are_plain);
    reveal(option_is_plain);
    reveal(kind_is_plain);
    reveal(fields_are_plain);
    reveal(type_is_plain);
    reveal(types_are_plain);
    reveal(parameters_are_plain);
    reveal(moded_are_plain);
}

pub broadcast proof fn plain_type_identifier(cx: Context)
    ensures
        #[trigger] type_is_plain(cx, Type::Identifier) == (true),
{
    reveal(is_plain);
    reveal(are_plain);
    reveal(option_is_plain);
    reveal(kind_is_plain);
    reveal(fields_are_plain);
    reveal(type_is_plain);
    reveal(types_are_plain);
    reveal(parameters_are_plain);
    reveal(moded_are_plain);
}

pub broadcast proof fn plain_type_error(cx: Context)
    ensures
        #[trigger] type_is_plain(cx, Type::Error) == (true),
{
    reveal(is_plain);
    reveal(are_plain);
    reveal(option_is_plain);
    reveal(kind_is_plain);
    reveal(fields_are_plain);
    reveal(type_is_plain);
    reveal(types_are_plain);
    reveal(parameters_are_plain);
    reveal(moded_are_plain);
}

pub broadcast proof fn plain_type_address(cx: Context)
    ensures
        #[trigger] type_is_plain(cx, Type::Address) == (true),
{
    reveal(is_plain);
    reveal(are_plain);
    reveal(option_is_plain);
    reveal(kind_is_plain);
    reveal(fields_are_plain);
    reveal(type_is_plain);
    reveal(types_are_plain);
    reveal(parameters_are_plain);
    reveal(moded_are_plain);
}

pub broadcast proof fn plain_type_field(cx: Context)
    ensures
        #[trigger] type_is_plain(cx, Type::Field) == (true),
{
    reveal(is_plain);
    reveal(are_plain);
    reveal(option_is_plain);
    reveal(kind_is_plain);
    reveal(fields_are_plain);
    reveal(type_is_plain);
    reveal(types_are_plain);
    reveal(parameters_are_plain);
    reveal(moded_are_plain);
}

pub broadcast proof fn plain_type_group(cx: Context)
    ensures
        #[trigger] type_is_plain(cx, Type::Group) == (true),
{
    reveal(is_plain);
    reveal(are_plain);
    reveal(option_is_plain);
    reveal(kind_is_plain);
    reveal(fields_are_plain);
    reveal(type_is_plain);
    reveal(types_are_plain);
    reveal(parameters_are_plain);
    reveal(moded_are_plain);
}

pub broadcast proof fn plain_type_scalar(cx: Context)
    ensures
        #[trigger] type_is_plain(cx, Type::Scalar) == (true),
{
    reveal(is_plain);
    reveal(are_plain);
    reveal(option_is_plain);
    reveal(kind_is_plain);
    reveal(fields_are_plain);
    reveal(type_is_plain);
    reveal(types_are_plain);
    reveal(parameters_are_plain);
    reveal(moded_are_plain);
}

pub broadcast proof fn plain_type_signature(cx: Context)
    ensures
        #[trigger] type_is_plain(cx, Type::Signature) == (true),
{
    reveal(is_plain);
    reveal(are_plain);
    reveal(option_is_plain);
    reveal(kind_is_plain);
    reveal(fields_are_plain);
    reveal(type_is_plain);
    reveal(types_are_plain);
    reveal(parameters_are_plain);
    reveal(moded_are_plain);
}

pub broadcast proof fn plain_type_string(cx: Context)
    ensures
        #[trigger] type_is_plain(cx, Type::String) == (true),
{
    reveal(is_plain);
    reveal(are_plain);
    reveal(option_is_plain);
    reveal(kind_is_plain);
    reveal(fields_are_plain);
    reveal(type_is_plain);
    reveal(types_are_plain);
    reveal(parameters_are_plain);
    reveal(moded_are_plain);
}

pub broadcast proof fn types_are_plain_nil(cx: Context)
    ensures
        #[trigger] types_are_plain(cx, List::Nil) == (true),
{
    reveal(is_plain);
    reveal(are_plain);
    reveal(option_is_plain);
    reveal(kind_is_plain);
    reveal(fields_are_plain);
    reveal(type_is_plain);
    reveal(types_are_plain);
    reveal(parameters_are_plain);
    reveal(moded_are_plain);
}

pub broadcast proof fn types_are_plain_cons(cx: Context, first: Type, rest: List<Type>)
    ensures
        #[trigger] types_are_plain(cx, List::Cons(first, Rc::new(rest))) == (
            type_is_plain(cx, first) && types_are_plain(cx, rest)
        ),
{
    reveal(is_plain);
    reveal(are_plain);
    reveal(option_is_plain);
    reveal(kind_is_plain);
    reveal(fields_are_plain);
    reveal(type_is_plain);
    reveal(types_are_plain);
    reveal(parameters_are_plain);
    reveal(moded_are_plain);
}

pub broadcast proof fn parameters_are_plain_nil(cx: Context)
    ensures
        #[trigger] parameters_are_plain(cx, List::Nil) == (true),
{
    reveal(is_plain);
    reveal(are_plain);
    reveal(option_is_plain);
    reveal(kind_is_plain);
    reveal(fields_are_plain);
    reveal(type_is_plain);
    reveal(types_are_plain);
    reveal(parameters_are_plain);
    reveal(moded_are_plain);
}

pub broadcast proof fn parameters_are_plain_cons(
    cx: Context,
    first: TypeParameter,
    rest: List<TypeParameter>,
)
    ensures
        #[trigger] parameters_are_plain(cx, List::Cons(first, Rc::new(rest))) == (
            type_is_plain(cx, first.type_) && parameters_are_plain(cx, rest)
        ),
{
    reveal(is_plain);
    reveal(are_plain);
    reveal(option_is_plain);
    reveal(kind_is_plain);
    reveal(fields_are_plain);
    reveal(type_is_plain);
    reveal(types_are_plain);
    reveal(parameters_are_plain);
    reveal(moded_are_plain);
}

pub broadcast proof fn moded_are_plain_nil(cx: Context)
    ensures
        #[trigger] moded_are_plain(cx, List::Nil) == (true),
{
    reveal(is_plain);
    reveal(are_plain);
    reveal(option_is_plain);
    reveal(kind_is_plain);
    reveal(fields_are_plain);
    reveal(type_is_plain);
    reveal(types_are_plain);
    reveal(parameters_are_plain);
    reveal(moded_are_plain);
}

pub broadcast proof fn moded_are_plain_cons(cx: Context, first: ModedType, rest: List<ModedType>)
    ensures
        #[trigger] moded_are_plain(cx, List::Cons(first, Rc::new(rest))) == (
            type_is_plain(cx, first.type_) && moded_are_plain(cx, rest)
        ),
{
    reveal(is_plain);
    reveal(are_plain);
    reveal(option_is_plain);
    reveal(kind_is_plain);
    reveal(fields_are_plain);
    reveal(type_is_plain);
    reveal(types_are_plain);
    reveal(parameters_are_plain);
    reveal(moded_are_plain);
}

pub broadcast proof fn are_plain_appended(
    cx: Context,
    open: bool,
    first: List<Expression>,
    second: List<Expression>,
)
    ensures
        #[trigger] are_plain(cx, open, appended(first, second)) == (
            are_plain(cx, open, first) && are_plain(cx, open, second)
        ),
    decreases first,
{
    reveal(is_plain);
    reveal(are_plain);
    reveal(option_is_plain);
    reveal(kind_is_plain);
    reveal(fields_are_plain);
    reveal(type_is_plain);
    reveal(types_are_plain);
    reveal(parameters_are_plain);
    reveal(moded_are_plain);
    match first {
        List::Nil => {},
        List::Cons(_, rest) => {
            are_plain_appended(cx, open, copied(&*rest), second);
        },
    }
}

pub broadcast proof fn fields_plain_appended(
    cx: Context,
    open: bool,
    first: List<FieldInitializer>,
    second: List<FieldInitializer>,
)
    ensures
        #[trigger] fields_are_plain(cx, open, appended(first, second)) == (
            fields_are_plain(cx, open, first) && fields_are_plain(cx, open, second)
        ),
    decreases first,
{
    reveal(is_plain);
    reveal(are_plain);
    reveal(option_is_plain);
    reveal(kind_is_plain);
    reveal(fields_are_plain);
    reveal(type_is_plain);
    reveal(types_are_plain);
    reveal(parameters_are_plain);
    reveal(moded_are_plain);
    match first {
        List::Nil => {},
        List::Cons(_, rest) => {
            fields_plain_appended(cx, open, copied(&*rest), second);
        },
    }
}

/* Operators */

pub broadcast proof fn binary_is_plain(
    cx: Context,
    state: State,
    left: Expression,
    op: BinaryOperation,
    right: Expression,
)
    requires
        is_regular_state(cx, state),
        is_plain(cx, false, left),
        is_plain(cx, false, right),
    ensures
        is_regular_state(cx, (#[trigger] binary_expr(cx, state, left, op, right)).0),
        is_plain(cx, false, binary_expr(cx, state, left, op, right).1),
{
    bound_type_is_plain(cx, false, state.types, left);
    bound_type_is_plain(cx, false, state.types, right);
    plain_type_boolean(cx);
    let made = binary_expr(cx, state, left, op, right).1;
    if let Expression::Binary(input) = made {
        plain_binary(cx, false, copied(&*input));
    }
    learn(cx, state);
}

pub broadcast proof fn ternary_is_plain(
    cx: Context,
    state: State,
    condition: Expression,
    if_true: Expression,
    if_false: Expression,
    span: Span,
)
    requires
        is_regular_state(cx, state),
        is_plain(cx, false, condition),
        is_plain(cx, false, if_true),
        is_plain(cx, false, if_false),
    ensures
        is_regular_state(
            cx,
            (#[trigger] ternary_expr(cx, state, condition, if_true, if_false, span)).0,
        ),
        is_plain(cx, false, ternary_expr(cx, state, condition, if_true, if_false, span).1),
{
    bound_type_is_plain(cx, false, state.types, if_true);
    bound_type_is_plain(cx, false, state.types, if_false);
    let made = ternary_expr(cx, state, condition, if_true, if_false, span).1;
    if let Expression::Ternary(input) = made {
        plain_ternary(cx, false, copied(&*input));
    }
    reveal(type_is_plain);
    learn(cx, state);
}

pub broadcast proof fn read_is_plain(
    cx: Context,
    state: State,
    mapping: Expression,
    key: Expression,
    span: Span,
)
    requires
        is_regular_state(cx, state),
        is_plain(cx, false, mapping),
        is_plain(cx, false, key),
    ensures
        is_regular_state(cx, (#[trigger] get_mapping_expr(cx, state, mapping, key, span)).0),
        is_plain(cx, false, get_mapping_expr(cx, state, mapping, key, span).1),
{
    broadcast use group_nodes;

    bound_type_is_plain(cx, false, state.types, mapping);
    reveal(type_is_plain);
    learn(cx, state);
}

pub broadcast proof fn read_or_is_plain(
    cx: Context,
    state: State,
    mapping: Expression,
    key: Expression,
    default: Expression,
    span: Span,
)
    requires
        is_regular_state(cx, state),
        is_plain(cx, false, mapping),
        is_plain(cx, false, key),
        is_plain(cx, false, default),
    ensures
        is_regular_state(
            cx,
            (#[trigger] get_or_use_mapping_expr(cx, state, mapping, key, default, span)).0,
        ),
        is_plain(cx, false, get_or_use_mapping_expr(cx, state, mapping, key, default, span).1),
{
    broadcast use group_nodes;

    bound_type_is_plain(cx, false, state.types, mapping);
    bound_type_is_plain(cx, false, state.types, default);
    reveal(type_is_plain);
    learn(cx, state);
}

proof fn learn(cx: Context, state: State)
    requires
        is_regular_state(cx, state),
    ensures
        forall|id: NodeId, type_: Type|
            type_is_plain(cx, type_) ==> is_regular_state(
                cx,
                #[trigger] with_type(with_id(state), id, type_),
            ),
{
    assert forall|id: NodeId, type_: Type| type_is_plain(cx, type_) implies is_regular_state(
        cx,
        #[trigger] with_type(with_id(state), id, type_),
    ) by {
        learning_keeps_plain(cx, state.types, id, type_);
    }
}

pub broadcast group group_plain {
    group_nodes,
    binary_is_plain,
    ternary_is_plain,
    read_is_plain,
    read_or_is_plain,
}

pub broadcast group group_nodes {
    interning_keeps_apart,
    learning_keeps_plain,
    known_is_plain,
    bound_type_is_plain,
    plain_array,
    plain_array_access,
    plain_binary,
    plain_call,
    plain_cast,
    plain_composite,
    plain_dynamic,
    plain_intrinsic,
    plain_member_access,
    plain_path,
    plain_repeat,
    plain_ternary,
    plain_tuple,
    plain_tuple_access,
    plain_unary,
    plain_literal,
    plain_unit,
    are_plain_nil,
    are_plain_cons,
    fields_are_plain_nil,
    fields_are_plain_cons,
    option_plain_none,
    option_plain_some,
    plain_type_array,
    plain_type_composite,
    plain_type_future,
    plain_type_mapping,
    plain_type_optional,
    plain_type_tuple,
    plain_type_vector,
    plain_type_integer,
    plain_type_boolean,
    plain_type_unit,
    plain_type_identifier,
    plain_type_error,
    plain_type_address,
    plain_type_field,
    plain_type_group,
    plain_type_scalar,
    plain_type_signature,
    plain_type_string,
    types_are_plain_nil,
    types_are_plain_cons,
    parameters_are_plain_nil,
    parameters_are_plain_cons,
    moded_are_plain_nil,
    moded_are_plain_cons,
    are_plain_appended,
    fields_plain_appended,
}

} // verus!
