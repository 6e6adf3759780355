//! The expressions that lowered code is made of.
use crate::ast::{
    local_path, make_local_path, no_span, BinaryExpression, BinaryOperation, Expression,
    ExpressionStatement, Identifier, IntegerType, Intrinsic, IntrinsicExpression, Literal,
    LiteralVariant, Location, MappingType, NodeId, Path, PathTarget, ProgramId, Span, Statement,
    Symbol, TernaryExpression, Type, TypeParameter,
};
use crate::list::{one, three, two, List, Share};
use crate::state::{
    simple_definition, with_id, with_suffixed, with_symbol, with_type, with_typed_id, with_unique,
    State,
};
use crate::storage_lowering::visitor::{
    binary_type, boolean_operation, expression_type_for_materialization, mapping_value_type,
    path_type, ternary_type, type_of_ternary, with_known_type, Context, StorageLoweringVisitor,
};
use std::rc::Rc;
use vstd::prelude::*;

verus! {

/* Literals */

/// A literal of type `type_` that stands at no place in the source.
pub open spec fn literal(state: State, variant: LiteralVariant, type_: Type) -> (
    State,
    Expression,
) {
    (
        with_typed_id(state, type_),
        Expression::Literal(Literal { variant, span: no_span(), id: state.next_id }),
    )
}

pub open spec fn literal_false(state: State) -> (State, Expression) {
    literal(state, LiteralVariant::Boolean(false), Type::Boolean)
}

/// `none`, as an optional of `inner`.
pub open spec fn literal_none_optional(state: State, inner: Type) -> (State, Expression) {
    literal(state, LiteralVariant::Absent, Type::Optional(Rc::new(inner)))
}

/// The `u32` literal with the digits `text`.
pub open spec fn literal_u32(state: State, text: Seq<char>) -> (State, Expression) {
    let (state, symbol) = with_symbol(state, text);
    literal(
        state,
        LiteralVariant::Integer(IntegerType::U32, symbol),
        Type::Integer(IntegerType::U32),
    )
}

pub open spec fn literal_zero_u32(state: State) -> (State, Expression) {
    literal_u32(state, "0"@)
}

pub open spec fn literal_one_u32(state: State) -> (State, Expression) {
    literal_u32(state, "1"@)
}

/// The literal that names a mapping or a program.
pub open spec fn literal_identifier(state: State, name: Symbol) -> (State, Expression) {
    literal(state, LiteralVariant::Identifier(name), Type::Identifier)
}

/// The network of a program for which none is given: `'aleo'`.
pub open spec fn literal_default_network(state: State) -> (State, Expression) {
    let (state, symbol) = with_symbol(state, "aleo"@);
    literal_identifier(state, symbol)
}

/* Operations on mappings */

/// `op(arguments)`
pub open spec fn intrinsic(
    op: Intrinsic,
    arguments: List<Expression>,
    span: Span,
    id: NodeId,
) -> Expression {
    Expression::Intrinsic(
        Rc::new(
            IntrinsicExpression {
                op,
                type_parameters: List::Nil,
                input_types: List::Nil,
                return_types: List::Nil,
                arguments,
                span,
                id,
            },
        ),
    )
}

/// `_mapping_get_or_use(length, false, 0u32)`
#[verifier::opaque]
pub open spec fn get_vector_len_expr(state: State, length: Expression, span: Span) -> (
    State,
    Expression,
) {
    let id = state.next_id;
    let state = with_typed_id(state, Type::Integer(IntegerType::U32));
    let (state, key) = literal_false(state);
    let (state, default) = literal_zero_u32(state);
    (state, intrinsic(Intrinsic::MappingGetOrUse, three(length, key, default), span, id))
}

/// `_mapping_set(mapping, key, value)`
pub open spec fn set_mapping_expr(
    state: State,
    mapping: Expression,
    key: Expression,
    value: Expression,
    span: Span,
) -> (State, Expression) {
    (
        with_typed_id(state, Type::Unit),
        intrinsic(Intrinsic::MappingSet, three(mapping, key, value), span, state.next_id),
    )
}

/// `_mapping_get(mapping, key)`
pub open spec fn get_mapping_expr(
    cx: Context,
    state: State,
    mapping: Expression,
    key: Expression,
    span: Span,
) -> (State, Expression) {
    (
        with_known_type(
            with_id(state),
            state.next_id,
            mapping_value_type(cx, state.types, mapping),
        ),
        intrinsic(Intrinsic::MappingGet, two(mapping, key), span, state.next_id),
    )
}

/// `_mapping_get_or_use(mapping, key, default)`
pub open spec fn get_or_use_mapping_expr(
    cx: Context,
    state: State,
    mapping: Expression,
    key: Expression,
    default: Expression,
    span: Span,
) -> (State, Expression) {
    let held = mapping_value_type(cx, state.types, mapping);
    let type_ = if held is Some {
        held
    } else {
        expression_type_for_materialization(cx, state.types, default)
    };
    (
        with_known_type(with_id(state), state.next_id, type_),
        intrinsic(
            Intrinsic::MappingGetOrUse,
            three(mapping, key, default),
            span,
            state.next_id,
        ),
    )
}

/// `_mapping_contains(mapping, key)`
pub open spec fn contains_mapping_expr(
    state: State,
    mapping: Expression,
    key: Expression,
    span: Span,
) -> (State, Expression) {
    (
        with_typed_id(state, Type::Boolean),
        intrinsic(Intrinsic::MappingContains, two(mapping, key), span, state.next_id),
    )
}

/// `_dynamic_contains(program, network, mapping, key)`
pub open spec fn dynamic_contains_expr(
    state: State,
    program: Expression,
    network: Expression,
    mapping: Expression,
    key: Expression,
    span: Span,
) -> (State, Expression) {
    (
        with_typed_id(state, Type::Boolean),
        intrinsic(
            Intrinsic::DynamicContains,
            List::Cons(program, Rc::new(three(network, mapping, key))),
            span,
            state.next_id,
        ),
    )
}

/// `_dynamic_get_or_use::<value_type>(program, network, mapping, key, default)`
pub open spec fn dynamic_get_or_use_expr(
    state: State,
    program: Expression,
    network: Expression,
    mapping: Expression,
    key: Expression,
    default: Expression,
    value_type: Type,
    span: Span,
) -> (State, Expression) {
    (
        with_typed_id(state, value_type),
        Expression::Intrinsic(
            Rc::new(
                IntrinsicExpression {
                    op: Intrinsic::DynamicGetOrUse,
                    type_parameters: one(TypeParameter { type_: value_type, span }),
                    input_types: List::Nil,
                    return_types: List::Nil,
                    arguments: List::Cons(
                        program,
                        Rc::new(List::Cons(network, Rc::new(three(mapping, key, default)))),
                    ),
                    span,
                    id: state.next_id,
                },
            ),
        ),
    )
}

/* Operators */

/// `condition ? if_true : if_false`
pub open spec fn ternary_expr(
    cx: Context,
    state: State,
    condition: Expression,
    if_true: Expression,
    if_false: Expression,
    span: Span,
) -> (State, Expression) {
    let type_ = ternary_type(
        expression_type_for_materialization(cx, state.types, if_true),
        expression_type_for_materialization(cx, state.types, if_false),
        if_true.is_none_literal(),
        if_false.is_none_literal(),
    );
    (
        with_known_type(with_id(state), state.next_id, type_),
        Expression::Ternary(
            Rc::new(TernaryExpression { condition, if_true, if_false, span, id: state.next_id }),
        ),
    )
}

/// `left op right`
pub open spec fn binary_expr(
    cx: Context,
    state: State,
    left: Expression,
    op: BinaryOperation,
    right: Expression,
) -> (State, Expression) {
    let type_ = binary_type(
        op,
        expression_type_for_materialization(cx, state.types, left),
        expression_type_for_materialization(cx, state.types, right),
    );
    (
        with_known_type(with_id(state), state.next_id, type_),
        Expression::Binary(
            Rc::new(BinaryExpression { left, right, op, span: no_span(), id: state.next_id }),
        ),
    )
}

/* Names */

/// The program that a path to a mapping behind `path` names: the one that `path` names, unless
/// that is the program being lowered.
pub open spec fn kept_program(cx: Context, path: Path) -> Option<ProgramId> {
    match path.user_program {
        Some(program) => if program.symbol != cx.program {
            Some(program)
        } else {
            None
        },
        None => None,
    }
}

/// The path to the mapping `name` of the program being lowered.
pub open spec fn mapping_path(
    cx: Context,
    user_program: Option<ProgramId>,
    name: Symbol,
    id: NodeId,
) -> Expression {
    Expression::Path(
        Rc::new(
            Path {
                user_program,
                qualifier: List::Nil,
                identifier: Identifier { name, span: no_span(), id },
                target: PathTarget::Global(
                    Rc::new(Location { program: cx.program, path: one(name) }),
                ),
                span: no_span(),
                id,
            },
        ),
    )
}

pub open spec fn mapping_type(key: Type, value: Type) -> Type {
    Type::Mapping(Rc::new(MappingType { key, value }))
}

/// The type of the elements of the vector that `path` stands for.
pub open spec fn element_type(cx: Context, state: State, path: Path) -> Type {
    match path_type(cx, state.types, path) {
        Some(Type::Vector(element)) => *element,
        _ => Type::Error,
    }
}

/// The two mappings behind a vector: `<name>__` holds its elements and `<name>__len__` its length.
#[verifier::opaque]
pub open spec fn generate_vector_mapping_exprs(cx: Context, state: State, path: Path) -> (
    State,
    (Expression, Expression),
) {
    let element = element_type(cx, state, path);
    let (state, values) = with_suffixed(state, path.identifier.name, "__"@);
    let (state, length) = with_suffixed(state, path.identifier.name, "__len__"@);
    let value_mapping = mapping_path(cx, kept_program(cx, path), values, state.next_id);
    let state = with_typed_id(state, mapping_type(Type::Integer(IntegerType::U32), element));
    let len_mapping = mapping_path(cx, kept_program(cx, path), length, state.next_id);
    let state = with_typed_id(
        state,
        mapping_type(Type::Boolean, Type::Integer(IntegerType::U32)),
    );
    (state, (value_mapping, len_mapping))
}

/// A name that no source text has: `stem`, `$` and a number.
pub open spec fn fresh_identifier(state: State, stem: Seq<char>) -> (State, Identifier) {
    let (state, name) = with_unique(state, stem, "$"@);
    (with_id(state), Identifier { name, span: no_span(), id: state.next_id })
}

/// `let <stem>$<number> = value;`, and the local variable it defines, known to have the type
/// `type_`.
#[verifier::opaque]
pub open spec fn bind_value(state: State, stem: Seq<char>, value: Expression, type_: Type) -> (
    State,
    (Expression, Statement),
) {
    let (state, identifier) = fresh_identifier(state, stem);
    let state = with_type(state, identifier.id, type_);
    (
        with_id(state),
        (local_path(identifier), simple_definition(identifier, value, state.next_id)),
    )
}

/// `expression;`
pub open spec fn expression_statement(state: State, expression: Expression, span: Span) -> (
    State,
    Statement,
) {
    (
        with_id(state),
        Statement::Expression(
            Rc::new(ExpressionStatement { expression, span, id: state.next_id }),
        ),
    )
}

pub(crate) fn make_intrinsic(
    op: Intrinsic,
    arguments: List<Expression>,
    span: Span,
    id: NodeId,
) -> (r:
    Expression)
    ensures
        r == intrinsic(op, arguments, span, id),
{
    Expression::Intrinsic(
        Rc::new(
            IntrinsicExpression {
                op,
                type_parameters: List::Nil,
                input_types: List::Nil,
                return_types: List::Nil,
                arguments,
                span,
                id,
            },
        ),
    )
}

pub(crate) fn make_mapping_type(key: Type, value: Type) -> (r: Type)
    ensures
        r == mapping_type(key, value),
{
    Type::Mapping(Rc::new(MappingType { key, value }))
}

impl StorageLoweringVisitor {
    fn literal(&mut self, variant: LiteralVariant, type_: Type) -> (r: Expression)
        ensures
            (final(self).st(), r) == literal(old(self).st(), variant, type_),
            final(self).cx() == old(self).cx(),
    {
        let id: NodeId = self.state.take_typed_id(type_);
        Expression::Literal(Literal { variant, span: Span::none(), id })
    }

    pub fn literal_false(&mut self) -> (r: Expression)
        ensures
            (final(self).st(), r) == literal_false(old(self).st()),
            final(self).cx() == old(self).cx(),
    {
        self.literal(LiteralVariant::Boolean(false), Type::Boolean)
    }

    /// `none`, as an optional of `inner_type`.
    pub fn literal_none_optional(&mut self, inner_type: Type) -> (r: Expression)
        ensures
            (final(self).st(), r) == literal_none_optional(old(self).st(), inner_type),
            final(self).cx() == old(self).cx(),
    {
        self.literal(LiteralVariant::Absent, Type::Optional(Rc::new(inner_type)))
    }

    fn literal_u32(&mut self, text: &str) -> (r: Expression)
        ensures
            (final(self).st(), r) == literal_u32(old(self).st(), text@),
            final(self).cx() == old(self).cx(),
    {
        let symbol = self.state.intern(text);
        self.literal(
            LiteralVariant::Integer(IntegerType::U32, symbol),
            Type::Integer(IntegerType::U32),
        )
    }

    pub fn literal_zero_u32(&mut self) -> (r: Expression)
        ensures
            (final(self).st(), r) == literal_zero_u32(old(self).st()),
            final(self).cx() == old(self).cx(),
    {
        self.literal_u32("0")
    }

    pub fn literal_one_u32(&mut self) -> (r: Expression)
        ensures
            (final(self).st(), r) == literal_one_u32(old(self).st()),
            final(self).cx() == old(self).cx(),
    {
        self.literal_u32("1")
    }

    /// The literal that names a mapping or a program, such as `'x__'`.
    pub fn literal_identifier(&mut self, name: Symbol) -> (r: Expression)
        ensures
            (final(self).st(), r) == literal_identifier(old(self).st(), name),
            final(self).cx() == old(self).cx(),
    {
        self.literal(LiteralVariant::Identifier(name), Type::Identifier)
    }

    /// The literal `'aleo'`.
    pub fn literal_default_network(&mut self) -> (r: Expression)
        ensures
            (final(self).st(), r) == literal_default_network(old(self).st()),
            final(self).cx() == old(self).cx(),
    {
        let symbol = self.state.intern("aleo");
        self.literal_identifier(symbol)
    }

    /// `_mapping_get_or_use(len_path_expr, false, 0u32)`
    pub fn get_vector_len_expr(&mut self, len_path_expr: Expression, span: Span) -> (r: Expression)
        ensures
            (final(self).st(), r) == get_vector_len_expr(old(self).st(), len_path_expr, span),
            final(self).cx() == old(self).cx(),
    {
        proof {
            reveal(get_vector_len_expr);
        }
        let id: NodeId = self.state.take_typed_id(Type::Integer(IntegerType::U32));
        let key = self.literal_false();
        let default = self.literal_zero_u32();
        make_intrinsic(
            Intrinsic::MappingGetOrUse,
            List::three(len_path_expr, key, default),
            span,
            id,
        )
    }

    /// `_mapping_set(path_expr, key_expr, value_expr)`
    pub fn set_mapping_expr(
        &mut self,
        path_expr: Expression,
        key_expr: Expression,
        value_expr: Expression,
        span: Span,
    ) -> (r: Expression)
        ensures
            (final(self).st(), r) == set_mapping_expr(
                old(self).st(),
                path_expr,
                key_expr,
                value_expr,
                span,
            ),
            final(self).cx() == old(self).cx(),
    {
        let id: NodeId = self.state.take_typed_id(Type::Unit);
        make_intrinsic(
            Intrinsic::MappingSet,
            List::three(path_expr, key_expr, value_expr),
            span,
            id,
        )
    }

    fn set_known_type(&mut self, id: NodeId, type_: Option<Type>)
        ensures
            final(self).st() == with_known_type(old(self).st(), id, type_),
            final(self).cx() == old(self).cx(),
    {
        match type_ {
            Some(type_) => self.state.set_type(id, type_),
            None => {},
        }
    }

    /// `_mapping_get(path_expr, key_expr)`
    pub fn get_mapping_expr(
        &mut self,
        path_expr: Expression,
        key_expr: Expression,
        span: Span,
    ) -> (r: Expression)
        ensures
            (final(self).st(), r) == get_mapping_expr(
                old(self).cx(),
                old(self).st(),
                path_expr,
                key_expr,
                span,
            ),
            final(self).cx() == old(self).cx(),
    {
        let id: NodeId = self.state.take_id();
        let type_ = self.mapping_value_type(&path_expr);
        self.set_known_type(id, type_);
        make_intrinsic(Intrinsic::MappingGet, List::two(path_expr, key_expr), span, id)
    }

    /// `_mapping_get_or_use(path_expr, key_expr, default_expr)`
    pub fn get_or_use_mapping_expr(
        &mut self,
        path_expr: Expression,
        key_expr: Expression,
        default_expr: Expression,
        span: Span,
    ) -> (r: Expression)
        ensures
            (final(self).st(), r) == get_or_use_mapping_expr(
                old(self).cx(),
                old(self).st(),
                path_expr,
                key_expr,
                default_expr,
                span,
            ),
            final(self).cx() == old(self).cx(),
    {
        let id: NodeId = self.state.take_id();
        let type_ = match self.mapping_value_type(&path_expr) {
            Some(type_) => Some(type_),
            None => self.expression_type_for_materialization(&default_expr),
        };
        self.set_known_type(id, type_);
        make_intrinsic(
            Intrinsic::MappingGetOrUse,
            List::three(path_expr, key_expr, default_expr),
            span,
            id,
        )
    }

    /// `_mapping_contains(path_expr, key_expr)`
    pub fn contains_mapping_expr(
        &mut self,
        path_expr: Expression,
        key_expr: Expression,
        span: Span,
    ) -> (r: Expression)
        ensures
            (final(self).st(), r) == contains_mapping_expr(
                old(self).st(),
                path_expr,
                key_expr,
                span,
            ),
            final(self).cx() == old(self).cx(),
    {
        let id: NodeId = self.state.take_typed_id(Type::Boolean);
        make_intrinsic(Intrinsic::MappingContains, List::two(path_expr, key_expr), span, id)
    }

    /// `condition ? if_true : if_false`
    pub fn ternary_expr(
        &mut self,
        condition: Expression,
        if_true: Expression,
        if_false: Expression,
        span: Span,
    ) -> (r: Expression)
        ensures
            (final(self).st(), r) == ternary_expr(
                old(self).cx(),
                old(self).st(),
                condition,
                if_true,
                if_false,
                span,
            ),
            final(self).cx() == old(self).cx(),
    {
        let id: NodeId = self.state.take_id();
        let true_type = self.expression_type_for_materialization(&if_true);
        let false_type = self.expression_type_for_materialization(&if_false);
        let type_ = type_of_ternary(
            true_type,
            false_type,
            if_true.is_none_expr(),
            if_false.is_none_expr(),
        );
        self.set_known_type(id, type_);
        Expression::Ternary(Rc::new(TernaryExpression { condition, if_true, if_false, span, id }))
    }

    /// `_dynamic_contains(prog, net, mapping, key)`
    pub fn dynamic_contains_expr(
        &mut self,
        prog: Expression,
        net: Expression,
        mapping: Expression,
        key: Expression,
        span: Span,
    ) -> (r: Expression)
        ensures
            (final(self).st(), r) == dynamic_contains_expr(
                old(self).st(),
                prog,
                net,
                mapping,
                key,
                span,
            ),
            final(self).cx() == old(self).cx(),
    {
        let id: NodeId = self.state.take_typed_id(Type::Boolean);
        make_intrinsic(
            Intrinsic::DynamicContains,
            List::cons(prog, List::three(net, mapping, key)),
            span,
            id,
        )
    }

    /// `_dynamic_get_or_use::<value_ty>(prog, net, mapping, key, default)`
    pub fn dynamic_get_or_use_expr(
        &mut self,
        prog: Expression,
        net: Expression,
        mapping: Expression,
        key: Expression,
        default: Expression,
        value_ty: Type,
        span: Span,
    ) -> (r: Expression)
        ensures
            (final(self).st(), r) == dynamic_get_or_use_expr(
                old(self).st(),
                prog,
                net,
                mapping,
                key,
                default,
                value_ty,
                span,
            ),
            final(self).cx() == old(self).cx(),
    {
        let id: NodeId = self.state.take_typed_id(value_ty.share());
        Expression::Intrinsic(
            Rc::new(
                IntrinsicExpression {
                    op: Intrinsic::DynamicGetOrUse,
                    type_parameters: List::one(TypeParameter { type_: value_ty, span }),
                    input_types: List::Nil,
                    return_types: List::Nil,
                    arguments: List::cons(
                        prog,
                        List::cons(net, List::three(mapping, key, default)),
                    ),
                    span,
                    id,
                },
            ),
        )
    }

    /// `left op right`
    pub fn binary_expr(&mut self, left: Expression, op: BinaryOperation, right: Expression) -> (r:
        Expression)
        ensures
            (final(self).st(), r) == binary_expr(old(self).cx(), old(self).st(), left, op, right),
            final(self).cx() == old(self).cx(),
    {
        let id: NodeId = self.state.take_id();
        let type_ = if boolean_operation(op) {
            Some(Type::Boolean)
        } else {
            match self.expression_type_for_materialization(&left) {
                Some(type_) => Some(type_),
                None => self.expression_type_for_materialization(&right),
            }
        };
        self.set_known_type(id, type_);
        Expression::Binary(Rc::new(BinaryExpression { left, right, op, span: Span::none(), id }))
    }

    pub(crate) fn kept_program(&self, path: &Path) -> (r: Option<ProgramId>)
        ensures
            r == kept_program(self.cx(), *path),
    {
        match path.user_program {
            Some(program) => if program.symbol != self.program {
                Some(program)
            } else {
                None
            },
            None => None,
        }
    }

    /// The path to the mapping `name` of the program being lowered.
    pub fn mapping_path(&self, user_program: Option<ProgramId>, name: Symbol, id: NodeId) -> (r:
        Expression)
        ensures
            r == mapping_path(self.cx(), user_program, name, id),
    {
        Expression::Path(
            Rc::new(
                Path {
                    user_program,
                    qualifier: List::Nil,
                    identifier: Identifier { name, span: Span::none(), id },
                    target: PathTarget::Global(
                        Rc::new(Location { program: self.program, path: List::one(name) }),
                    ),
                    span: Span::none(),
                    id,
                },
            ),
        )
    }

    /// The two mappings behind the vector `path`: `<name>__` holds its elements and
    /// `<name>__len__` its length.
    pub fn generate_vector_mapping_exprs(&mut self, path: &Path) -> (r: (Expression, Expression))
        ensures
            (final(self).st(), r) == generate_vector_mapping_exprs(
                old(self).cx(),
                old(self).st(),
                *path,
            ),
            final(self).cx() == old(self).cx(),
    {
        proof {
            reveal(generate_vector_mapping_exprs);
        }
        let element = match self.path_type(path) {
            Some(Type::Vector(element)) => element.share(),
            _ => Type::Error,
        };
        let values = self.state.suffixed_symbol(path.identifier.name, "__");
        let length = self.state.suffixed_symbol(path.identifier.name, "__len__");
        let value_id: NodeId = self.state.take_typed_id(
            make_mapping_type(Type::Integer(IntegerType::U32), element),
        );
        let len_id: NodeId = self.state.take_typed_id(
            make_mapping_type(Type::Boolean, Type::Integer(IntegerType::U32)),
        );
        let user_program = self.kept_program(path);
        (
            self.mapping_path(user_program, values, value_id),
            self.mapping_path(user_program, length, len_id),
        )
    }

    /// A name that no source text has: `stem`, `$` and a number.
    pub fn fresh_identifier(&mut self, stem: &str) -> (r: Identifier)
        ensures
            (final(self).st(), r) == fresh_identifier(old(self).st(), stem@),
            final(self).cx() == old(self).cx(),
    {
        let name = self.state.unique_symbol(stem, "$");
        Identifier { name, span: Span::none(), id: self.state.take_id() }
    }

    /// `let <stem>$<number> = value;`, and the local variable it defines.
    pub fn bind_value(&mut self, stem: &str, value: Expression, type_: Type) -> (r: (
        Expression,
        Statement,
    ))
        ensures
            (final(self).st(), r) == bind_value(old(self).st(), stem@, value, type_),
            final(self).cx() == old(self).cx(),
    {
        proof {
            reveal(bind_value);
        }
        let identifier = self.fresh_identifier(stem);
        self.state.set_type(identifier.id, type_);
        let id: NodeId = self.state.take_id();
        (make_local_path(identifier), self.state.simple_definition(identifier, value, id))
    }

    /// `expression;`
    pub fn expression_statement(&mut self, expression: Expression, span: Span) -> (r: Statement)
        ensures
            (final(self).st(), r) == expression_statement(old(self).st(), expression, span),
            final(self).cx() == old(self).cx(),
    {
        let id: NodeId = self.state.take_id();
        Statement::Expression(Rc::new(ExpressionStatement { expression, span, id }))
    }
}

} // verus!
