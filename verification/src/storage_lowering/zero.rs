//! Zero values, and reads of storage variables.
use crate::ast::{
    no_span, CompositeExpression, Expression, FieldInitializer, Identifier, Literal, LiteralVariant,
    NodeId, Path, PathTarget, RepeatExpression, Span, Statement, Symbol, Type,
};
use crate::list::{List, Share};
use crate::state::{
    global_in, interface_in, struct_in, with_id, with_suffixed, with_symbol, with_typed_id, Halt,
    State, StructSymbol,
};
use crate::storage_lowering::builders::{
    contains_mapping_expr, get_or_use_mapping_expr, kept_program, literal_false,
    literal_none_optional, make_mapping_type, mapping_path, mapping_type, ternary_expr,
};
use crate::storage_lowering::visitor::{ran, Context, Step, StorageLoweringVisitor};
use crate::units::{Interface, Member};
use std::rc::Rc;
use vstd::prelude::*;

verus! {

/// The zero value of `type_`, where it has one: zero for numbers, `false` for truth values, and
/// for arrays and structs what is zero in every element and member. Every use of a struct takes
/// one entry off `nesting`; a type whose structs nest deeper than that contains itself.
#[verifier::opaque]
pub open spec fn zero_value(
    cx: Context,
    nesting: List<StructSymbol>,
    state: State,
    type_: Type,
) -> Step<Expression>
    decreases nesting, 0int, type_,
{
    let id = state.next_id;
    let state = with_id(state);
    match type_ {
        Type::Integer(integer) => {
            let (state, digits) = with_symbol(state, "0"@);
            Ok((state, bare_literal(LiteralVariant::Integer(integer, digits), id)))
        },
        Type::Field => {
            let (state, digits) = with_symbol(state, "0"@);
            Ok((state, bare_literal(LiteralVariant::Field(digits), id)))
        },
        Type::Group => {
            let (state, digits) = with_symbol(state, "0"@);
            Ok((state, bare_literal(LiteralVariant::Group(digits), id)))
        },
        Type::Scalar => {
            let (state, digits) = with_symbol(state, "0"@);
            Ok((state, bare_literal(LiteralVariant::Scalar(digits), id)))
        },
        Type::Boolean => Ok((state, bare_literal(LiteralVariant::Boolean(false), id))),
        Type::Address => {
            let (state, text) = with_symbol(
                state,
                "aleo1qqqqqqqqqqqqqqqqqqqqqqqqqqqqqqqqqqqqqqqqqqqqqqqqqqqq3ljyzc"@,
            );
            Ok((state, bare_literal(LiteralVariant::Address(text), id)))
        },
        Type::Array(array) => match zero_value(cx, nesting, state, array.element_type) {
            Err(halt) => Err(halt),
            Ok((state, element)) => Ok(
                (
                    state,
                    Expression::Repeat(
                        Rc::new(
                            RepeatExpression {
                                expr: element,
                                count: array.length,
                                span: no_span(),
                                id,
                            },
                        ),
                    ),
                ),
            ),
        },
        Type::Composite(composite) => match nesting {
            List::Nil => Err(Halt::IllFormed),
            List::Cons(_, nesting) => match composite.path.spec_try_global_location() {
                None => Err(Halt::IllFormed),
                Some(location) => match struct_in(cx.table.structs, cx.program, location) {
                    None => Err(Halt::IllFormed),
                    Some(members) => match zero_members(cx, *nesting, state, members) {
                        Err(halt) => Err(halt),
                        Ok((state, members)) => Ok(
                            (
                                state,
                                Expression::Composite(
                                    Rc::new(
                                        CompositeExpression {
                                            path: composite.path,
                                            const_arguments: composite.const_arguments,
                                            members,
                                            base: None,
                                            span: no_span(),
                                            id,
                                        },
                                    ),
                                ),
                            ),
                        ),
                    },
                },
            },
        },
        _ => Err(Halt::IllFormed),
    }
}

/// `members`, each with its zero value.
#[verifier::opaque]
pub open spec fn zero_members(
    cx: Context,
    nesting: List<StructSymbol>,
    state: State,
    members: List<Member>,
) -> Step<List<FieldInitializer>>
    decreases nesting, 1int, members,
{
    match members {
        List::Nil => Ok((state, List::Nil)),
        List::Cons(member, rest) => {
            let id = state.next_id;
            match zero_value(cx, nesting, with_id(state), member.type_) {
                Err(halt) => Err(halt),
                Ok((state, value)) => {
                    let field = FieldInitializer {
                        identifier: Identifier {
                            name: member.identifier.name,
                            span: no_span(),
                            id: state.next_id,
                        },
                        expression: Some(value),
                        span: no_span(),
                        id,
                    };
                    match zero_members(cx, nesting, with_id(state), *rest) {
                        Err(halt) => Err(halt),
                        Ok((state, fields)) => Ok((state, List::Cons(field, Rc::new(fields)))),
                    }
                },
            }
        },
    }
}

/// The literal `variant` with the number `id`.
pub open spec fn bare_literal(variant: LiteralVariant, id: NodeId) -> Expression {
    Expression::Literal(Literal { variant, span: no_span(), id })
}

/// The zero value of `type_`.
#[verifier::opaque]
pub open spec fn zero(cx: Context, state: State, type_: Type) -> Step<Expression> {
    zero_value(cx, cx.table.structs, state, type_)
}

/// The interface that the type of a dynamic access names.
pub open spec fn lookup_interface_from_type(cx: Context, interface: Type) -> Result<
    Interface,
    Halt,
> {
    match interface {
        Type::Composite(composite) => match composite.path.spec_try_global_location() {
            None => Err(Halt::IllFormed),
            Some(location) => match interface_in(cx.table.interfaces, cx.program, location) {
                None => Err(Halt::IllFormed),
                Some(interface) => Ok(interface),
            },
        },
        _ => Err(Halt::IllFormed),
    }
}

/// The last symbol of a path.
pub open spec fn last_symbol(path: List<Symbol>) -> Option<Symbol>
    decreases path,
{
    match path {
        List::Nil => None,
        List::Cons(symbol, rest) => match *rest {
            List::Nil => Some(symbol),
            _ => last_symbol(*rest),
        },
    }
}

/// Reads the storage variable `name` of type `inner` that `path` stands for:
/// `<name>__.contains(false) ? <name>__.get_or_use(false, zero) : none`
#[verifier::opaque]
pub open spec fn read_storage(
    cx: Context,
    state: State,
    path: Path,
    name: Symbol,
    inner: Type,
) -> Step<Expression> {
    let (state, mapping_name) = with_suffixed(state, name, "__"@);
    let mapping = mapping_path(cx, kept_program(cx, path), mapping_name, state.next_id);
    let state = with_typed_id(state, mapping_type(Type::Boolean, inner));
    let (state, key) = literal_false(state);
    let (state, contains) = contains_mapping_expr(state, mapping, key, no_span());
    match zero(cx, state, inner) {
        Err(halt) => Err(halt),
        Ok((state, default)) => {
            let (state, get_or_use) = get_or_use_mapping_expr(
                cx,
                state,
                mapping,
                key,
                default,
                no_span(),
            );
            let (state, none) = literal_none_optional(state, inner);
            let (state, read) = ternary_expr(cx, state, contains, get_or_use, none, no_span());
            Ok((state, read))
        },
    }
}

/// What a variable is lowered to. Local variables, mappings and what is not in the symbol table
/// stay as they are; a storage variable is read.
#[verifier::opaque]
pub open spec fn reconstruct_path(cx: Context, state: State, path: Path) -> Step<Expression> {
    match path.target {
        PathTarget::Local(_) => Ok((state, Expression::Path(Rc::new(path)))),
        PathTarget::Unresolved => Err(Halt::IllFormed),
        PathTarget::Global(location) => match global_in(cx.table.globals, cx.program, *location) {
            None => Ok((state, Expression::Path(Rc::new(path)))),
            Some(Some(Type::Mapping(_))) => Ok((state, Expression::Path(Rc::new(path)))),
            Some(Some(Type::Optional(inner))) => match last_symbol(location.path) {
                None => Err(Halt::IllFormed),
                Some(name) => read_storage(cx, state, path, name, *inner),
            },
            Some(_) => Err(Halt::IllFormed),
        },
    }
}

/// What an expression that must be a path is lowered to. Nothing has to run before it.
pub open spec fn reconstruct_path_or_locator(
    cx: Context,
    state: State,
    input: Expression,
) -> Step<(Expression, List<Statement>)> {
    match input {
        Expression::Path(path) => match reconstruct_path(cx, state, *path) {
            Err(halt) => Err(halt),
            Ok((state, expression)) => Ok((state, (expression, List::Nil))),
        },
        _ => Err(Halt::IllFormed),
    }
}

fn find_last(path: &List<Symbol>) -> (r: Option<Symbol>)
    ensures
        r == last_symbol(*path),
    decreases *path,
{
    match path {
        List::Nil => None,
        List::Cons(symbol, rest) => if rest.is_empty() {
            Some(*symbol)
        } else {
            find_last(rest)
        },
    }
}

fn make_literal(variant: LiteralVariant, id: NodeId) -> (r: Expression)
    ensures
        r == bare_literal(variant, id),
{
    Expression::Literal(Literal { variant, span: Span::none(), id })
}

impl StorageLoweringVisitor {
    fn zero_value(&mut self, nesting: &List<StructSymbol>, ty: &Type) -> (r: Result<
        Expression,
        Halt,
    >)
        ensures
            ran(
                *old(self),
                *final(self),
                r,
                zero_value(old(self).cx(), *nesting, old(self).st(), *ty),
            ),
        decreases *nesting, 0int, *ty,
    {
        proof {
            reveal(zero_value);
            reveal(zero_members);
        }
        let id: NodeId = self.state.take_id();
        match ty {
            Type::Integer(integer) => {
                let digits = self.state.intern("0");
                Ok(make_literal(LiteralVariant::Integer(*integer, digits), id))
            },
            Type::Field => {
                let digits = self.state.intern("0");
                Ok(make_literal(LiteralVariant::Field(digits), id))
            },
            Type::Group => {
                let digits = self.state.intern("0");
                Ok(make_literal(LiteralVariant::Group(digits), id))
            },
            Type::Scalar => {
                let digits = self.state.intern("0");
                Ok(make_literal(LiteralVariant::Scalar(digits), id))
            },
            Type::Boolean => Ok(make_literal(LiteralVariant::Boolean(false), id)),
            Type::Address => {
                let text = self.state.intern(
                    "aleo1qqqqqqqqqqqqqqqqqqqqqqqqqqqqqqqqqqqqqqqqqqqqqqqqqqqq3ljyzc",
                );
                Ok(make_literal(LiteralVariant::Address(text), id))
            },
            Type::Array(array) => {
                let element = self.zero_value(nesting, &array.element_type)?;
                Ok(
                    Expression::Repeat(
                        Rc::new(
                            RepeatExpression {
                                expr: element,
                                count: array.length.share(),
                                span: Span::none(),
                                id,
                            },
                        ),
                    ),
                )
            },
            Type::Composite(composite) => match nesting {
                List::Nil => Err(Halt::IllFormed),
                List::Cons(_, nesting) => match composite.path.try_global_location() {
                    None => Err(Halt::IllFormed),
                    Some(location) => {
                        let table = self.state.symbol_table.clone();
                        match table.lookup_struct(self.program, location) {
                            None => Err(Halt::IllFormed),
                            Some(members) => {
                                let members = self.zero_members(nesting, &members)?;
                                Ok(
                                    Expression::Composite(
                                        Rc::new(
                                            CompositeExpression {
                                                path: composite.path.clone(),
                                                const_arguments: composite.const_arguments.share(),
                                                members,
                                                base: None,
                                                span: Span::none(),
                                                id,
                                            },
                                        ),
                                    ),
                                )
                            },
                        }
                    },
                },
            },
            _ => Err(Halt::IllFormed),
        }
    }

    fn zero_members(&mut self, nesting: &List<StructSymbol>, members: &List<Member>) -> (r: Result<
        List<FieldInitializer>,
        Halt,
    >)
        ensures
            ran(
                *old(self),
                *final(self),
                r,
                zero_members(old(self).cx(), *nesting, old(self).st(), *members),
            ),
        decreases *nesting, 1int, *members,
    {
        proof {
            reveal(zero_members);
            reveal(zero_value);
        }
        match members {
            List::Nil => Ok(List::Nil),
            List::Cons(member, rest) => {
                let id: NodeId = self.state.take_id();
                let value = self.zero_value(nesting, &member.type_)?;
                let identifier = Identifier {
                    name: member.identifier.name,
                    span: Span::none(),
                    id: self.state.take_id(),
                };
                let field = FieldInitializer {
                    identifier,
                    expression: Some(value),
                    span: Span::none(),
                    id,
                };
                let fields = self.zero_members(nesting, rest)?;
                Ok(List::cons(field, fields))
            },
        }
    }

    /// The zero value of `ty`, if it has one.
    pub fn zero(&mut self, ty: &Type) -> (r: Result<Expression, Halt>)
        ensures
            ran(*old(self), *final(self), r, zero(old(self).cx(), old(self).st(), *ty)),
    {
        proof {
            reveal(zero);
        }
        let table = self.state.symbol_table.clone();
        self.zero_value(&table.structs, ty)
    }

    /// The interface that `interface_ty` names.
    pub fn lookup_interface_from_type(&self, interface_ty: &Type) -> (r: Result<
        Rc<Interface>,
        Halt,
    >)
        ensures
            match (r, lookup_interface_from_type(self.cx(), *interface_ty)) {
                (Ok(found), Ok(wanted)) => *found == wanted,
                (Err(halt), Err(wanted)) => halt == wanted,
                _ => false,
            },
    {
        match interface_ty {
            Type::Composite(composite) => match composite.path.try_global_location() {
                None => Err(Halt::IllFormed),
                Some(location) => match self.state.symbol_table.lookup_interface(
                    self.program,
                    location,
                ) {
                    None => Err(Halt::IllFormed),
                    Some(interface) => Ok(interface),
                },
            },
            _ => Err(Halt::IllFormed),
        }
    }

    fn read_storage(&mut self, path: &Path, name: Symbol, inner: &Type) -> (r: Result<
        Expression,
        Halt,
    >)
        ensures
            ran(
                *old(self),
                *final(self),
                r,
                read_storage(old(self).cx(), old(self).st(), *path, name, *inner),
            ),
    {
        proof {
            reveal(read_storage);
        }
        let mapping_name = self.state.suffixed_symbol(name, "__");
        let id: NodeId = self.state.take_typed_id(
            make_mapping_type(Type::Boolean, inner.share()),
        );
        let user_program = self.kept_program(path);
        let mapping = self.mapping_path(user_program, mapping_name, id);
        let key = self.literal_false();
        let contains = self.contains_mapping_expr(mapping.share(), key.share(), Span::none());
        let default = self.zero(inner)?;
        let get_or_use = self.get_or_use_mapping_expr(mapping, key, default, Span::none());
        let none = self.literal_none_optional(inner.share());
        Ok(self.ternary_expr(contains, get_or_use, none, Span::none()))
    }

    /// What the variable that `path` stands for is lowered to.
    pub fn reconstruct_path(&mut self, path: &Rc<Path>) -> (r: Result<Expression, Halt>)
        ensures
            ran(
                *old(self),
                *final(self),
                r,
                reconstruct_path(old(self).cx(), old(self).st(), **path),
            ),
    {
        proof {
            reveal(reconstruct_path);
        }
        match &path.target {
            PathTarget::Local(_) => Ok(Expression::Path(path.clone())),
            PathTarget::Unresolved => Err(Halt::IllFormed),
            PathTarget::Global(location) => {
                match self.state.symbol_table.lookup_global(self.program, location) {
                    None => Ok(Expression::Path(path.clone())),
                    Some(Some(Type::Mapping(_))) => Ok(Expression::Path(path.clone())),
                    Some(Some(Type::Optional(inner))) => match find_last(&location.path) {
                        None => Err(Halt::IllFormed),
                        Some(name) => self.read_storage(path, name, &inner),
                    },
                    Some(_) => Err(Halt::IllFormed),
                }
            },
        }
    }

    /// What `input`, which must be a path, is lowered to. Nothing has to run before it.
    pub fn reconstruct_path_or_locator(&mut self, input: Expression) -> (r: Result<
        (Expression, List<Statement>),
        Halt,
    >)
        ensures
            ran(
                *old(self),
                *final(self),
                r,
                reconstruct_path_or_locator(old(self).cx(), old(self).st(), input),
            ),
    {
        match &input {
            Expression::Path(path) => {
                let expression = self.reconstruct_path(path)?;
                Ok((expression, List::Nil))
            },
            _ => Err(Halt::IllFormed),
        }
    }
}

} // verus!
