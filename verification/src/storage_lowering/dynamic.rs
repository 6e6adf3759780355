//! The last steps of lowering dynamic accesses, once their operands have been lowered.
use crate::ast::{
    local_path, make_local_path, BinaryOperation, DynamicOpExpression, DynamicOpKind, Expression,
    Identifier, IntegerType, NodeId, Span, Statement, Symbol, Type,
};
use crate::list::{appended, one, List, Share};
use crate::state::{simple_definition, with_id, with_suffixed, Halt, State};
use crate::storage_lowering::builders::{
    binary_expr, dynamic_contains_expr, dynamic_get_or_use_expr, fresh_identifier,
    literal_default_network, literal_false, literal_identifier, literal_none_optional,
    literal_zero_u32, ternary_expr,
};
use crate::storage_lowering::vectors::{finish_once, Lowered};
use crate::storage_lowering::visitor::{ran, Context, Step, StorageLoweringVisitor};
use crate::storage_lowering::zero::{lookup_interface_from_type, zero};
use crate::units::Member;
use std::rc::Rc;
use vstd::prelude::*;

verus! {

/// The type of the first of `members` that is called `name`.
pub open spec fn member_type(members: List<Member>, name: Symbol) -> Option<Type>
    decreases members,
{
    match members {
        List::Nil => None,
        List::Cons(member, rest) => if member.identifier.name == name {
            Some(member.type_)
        } else {
            member_type(*rest, name)
        },
    }
}

/// The type of the elements of the first of `members` that is called `name` and is a vector.
pub open spec fn vector_member(members: List<Member>, name: Symbol) -> Option<Type>
    decreases members,
{
    match members {
        List::Nil => None,
        List::Cons(member, rest) => match member.type_ {
            Type::Vector(element) => if member.identifier.name == name {
                Some(*element)
            } else {
                vector_member(*rest, name)
            },
            _ => vector_member(*rest, name),
        },
    }
}

/// The type of the storage variable `name` of an interface. A vector is not read as a whole.
pub open spec fn storage_type(cx: Context, interface: Type, name: Symbol) -> Result<Type, Halt> {
    match lookup_interface_from_type(cx, interface) {
        Err(halt) => Err(halt),
        Ok(interface) => match member_type(interface.storages, name) {
            None => Err(Halt::IllFormed),
            Some(Type::Vector(_)) => Err(Halt::IllFormed),
            Some(type_) => Ok(type_),
        },
    }
}

/// Reads the storage variable `storage` of type `inner` of another program:
/// `_dynamic_contains(program, network, '<storage>__', false)
///     ? _dynamic_get_or_use::<inner>(program, network, '<storage>__', false, zero) : none`
#[verifier::opaque]
pub open spec fn read_dynamic(
    cx: Context,
    state: State,
    program: Expression,
    network: Expression,
    storage: Identifier,
    inner: Type,
    span: Span,
) -> Step<Expression> {
    let (state, mapping) = with_suffixed(state, storage.name, "__"@);
    let (state, mapping_a) = literal_identifier(state, mapping);
    let (state, mapping_b) = literal_identifier(state, mapping);
    let (state, key_a) = literal_false(state);
    let (state, key_b) = literal_false(state);
    let (state, contains) = dynamic_contains_expr(state, program, network, mapping_a, key_a, span);
    match zero(cx, state, inner) {
        Err(halt) => Err(halt),
        Ok((state, default)) => {
            let (state, get_or_use) = dynamic_get_or_use_expr(
                state,
                program,
                network,
                mapping_b,
                key_b,
                default,
                inner,
                span,
            );
            let (state, none) = literal_none_optional(state, inner);
            let (state, read) = ternary_expr(cx, state, contains, get_or_use, none, span);
            Ok((state, read))
        },
    }
}

/// `_dynamic_get_or_use::<u32>(program, network, '<member>__len__', false, 0u32)`, with the name
/// of the mapping in `mapping`.
#[verifier::opaque]
pub open spec fn dynamic_len(
    state: State,
    program: Expression,
    network: Expression,
    mapping: Symbol,
    span: Span,
) -> (State, Expression) {
    let (state, mapping) = literal_identifier(state, mapping);
    let (state, key) = literal_false(state);
    let (state, default) = literal_zero_u32(state);
    dynamic_get_or_use_expr(
        state,
        program,
        network,
        mapping,
        key,
        default,
        Type::Integer(IntegerType::U32),
        span,
    )
}

/// Reads the element `index` of the vector `member` of another program:
///
/// ```text
/// let $len_var = _dynamic_get_or_use::<u32>(program, network, '<member>__len__', false, 0u32);
/// index < $len_var
///     ? _dynamic_get_or_use::<element>(program, network, '<member>__', index, zero) : none
/// ```
#[verifier::opaque]
pub open spec fn get_dynamic(
    cx: Context,
    state: State,
    program: Expression,
    network: Expression,
    member: Identifier,
    element: Type,
    index: Expression,
    span: Span,
) -> Step<Lowered> {
    let (state, values) = with_suffixed(state, member.name, "__"@);
    let (state, length) = with_suffixed(state, member.name, "__len__"@);
    let (state, get_len) = dynamic_len(state, program, network, length, span);
    let (state, len_var) = fresh_identifier(state, "$len_var"@);
    let len_stmt = simple_definition(len_var, get_len, state.next_id);
    let state = with_id(state);
    let (state, in_bounds) = binary_expr(
        cx,
        state,
        index,
        BinaryOperation::Lt,
        local_path(len_var),
    );
    let (state, mapping) = literal_identifier(state, values);
    match zero(cx, state, element) {
        Err(halt) => Err(halt),
        Ok((state, default)) => {
            let (state, get_or_use) = dynamic_get_or_use_expr(
                state,
                program,
                network,
                mapping,
                index,
                default,
                element,
                span,
            );
            let (state, none) = literal_none_optional(state, element);
            let (state, got) = ternary_expr(cx, state, in_bounds, get_or_use, none, span);
            Ok((state, (got, one(len_stmt))))
        },
    }
}

/// The program and the network that a dynamic access goes to, and the statements that have to run
/// before it.
pub struct Target {
    pub program: Expression,
    pub network: Option<Expression>,
    pub statements: List<Statement>,
}

/// The network of `target`: the one that is given, else the default one.
pub open spec fn target_network(state: State, target: Target) -> (State, Expression) {
    match target.network {
        Some(network) => (state, network),
        None => literal_default_network(state),
    }
}

/// The type of the elements of the vector `member` of an interface; `None` if it is no vector.
pub open spec fn vector_of_member(cx: Context, interface: Type, member: Identifier) -> Result<
    Option<Type>,
    Halt,
> {
    match lookup_interface_from_type(cx, interface) {
        Err(halt) => Err(halt),
        Ok(interface) => Ok(vector_member(interface.storages, member.name)),
    }
}

/// `Interface@(target)::storage`, once the target was lowered.
#[verifier::opaque]
pub open spec fn finish_dynamic_read(
    cx: Context,
    state: State,
    target: Target,
    interface: Type,
    storage: Identifier,
    span: Span,
) -> Step<Lowered> {
    match storage_type(cx, interface, storage.name) {
        Err(halt) => Err(halt),
        Ok(inner) => {
            let (state, network) = target_network(state, target);
            match read_dynamic(cx, state, target.program, network, storage, inner, span) {
                Err(halt) => Err(halt),
                Ok((state, read)) => Ok((state, (read, target.statements))),
            }
        },
    }
}

/// `Interface@(target)::member.get(index)` on `network`, once the target and then the index were
/// lowered. An index that has to be evaluated exactly once is bound to a name.
#[verifier::opaque]
pub open spec fn finish_dynamic_vector_get(
    cx: Context,
    before: State,
    target: Target,
    network: Expression,
    member: Identifier,
    element: Type,
    index: Expression,
    lowered: Step<Lowered>,
    span: Span,
) -> Step<Lowered> {
    match finish_once(before, index, "$index"@, lowered) {
        Err(halt) => Err(halt),
        Ok((state, (index, statements))) => match get_dynamic(
            cx,
            state,
            target.program,
            network,
            member,
            element,
            index,
            span,
        ) {
            Err(halt) => Err(halt),
            Ok((state, (got, more))) => Ok(
                (state, (got, appended(appended(target.statements, statements), more))),
            ),
        },
    }
}

/// `Interface@(target)::member.len()`, once the target was lowered.
#[verifier::opaque]
pub open spec fn finish_dynamic_vector_len(
    state: State,
    target: Target,
    member: Identifier,
    span: Span,
) -> (State, Lowered) {
    let (state, network) = target_network(state, target);
    let (state, length) = with_suffixed(state, member.name, "__len__"@);
    let (state, read) = dynamic_len(state, target.program, network, length, span);
    (state, (read, target.statements))
}

/// A dynamic access that stays one, once the target and then the arguments were lowered.
#[verifier::opaque]
pub open spec fn finish_dynamic_operands(
    input: DynamicOpExpression,
    target: Target,
    lowered: Step<(List<Expression>, List<Statement>)>,
) -> Step<Lowered> {
    match lowered {
        Err(halt) => Err(halt),
        Ok((state, (arguments, statements))) => {
            let kind = match input.kind {
                DynamicOpKind::Read { storage } => DynamicOpKind::Read { storage },
                DynamicOpKind::Op { member, op, arguments: _ } => DynamicOpKind::Op {
                    member,
                    op,
                    arguments,
                },
                DynamicOpKind::Call { function, arguments: _ } => DynamicOpKind::Call {
                    function,
                    arguments,
                },
            };
            let access = DynamicOpExpression {
                target_program: target.program,
                network: target.network,
                kind,
                ..input
            };
            Ok(
                (
                    state,
                    (
                        Expression::DynamicOp(Rc::new(access)),
                        appended(target.statements, statements),
                    ),
                ),
            )
        },
    }
}

/// A dynamic access with other operands.
pub(crate) fn make_dynamic_operands(
    input: &DynamicOpExpression,
    target: Target,
    arguments: List<Expression>,
    statements: &List<Statement>,
) -> (r: Lowered)
    ensures
        forall|state: State|
            #[trigger] finish_dynamic_operands(
                *input,
                target,
                Ok((state, (arguments, *statements))),
            ) == Ok::<_, Halt>((state, r)),
{
    proof {
        reveal(finish_dynamic_operands);
    }
    let kind = match &input.kind {
        DynamicOpKind::Read { storage } => DynamicOpKind::Read { storage: *storage },
        DynamicOpKind::Op { member, op, .. } => DynamicOpKind::Op {
            member: *member,
            op: *op,
            arguments,
        },
        DynamicOpKind::Call { function, .. } => DynamicOpKind::Call {
            function: *function,
            arguments,
        },
    };
    let access = DynamicOpExpression {
        interface: input.interface.share(),
        target_program: target.program,
        network: target.network,
        kind,
        span: input.span,
        id: input.id,
    };
    (Expression::DynamicOp(Rc::new(access)), target.statements.append(statements))
}

fn find_member_type(members: &List<Member>, name: Symbol) -> (r: Option<Type>)
    ensures
        r == member_type(*members, name),
    decreases *members,
{
    match members {
        List::Nil => None,
        List::Cons(member, rest) => if member.identifier.name == name {
            Some(member.type_.share())
        } else {
            find_member_type(rest, name)
        },
    }
}

fn find_vector_member(members: &List<Member>, name: Symbol) -> (r: Option<Type>)
    ensures
        r == vector_member(*members, name),
    decreases *members,
{
    match members {
        List::Nil => None,
        List::Cons(member, rest) => match &member.type_ {
            Type::Vector(element) => if member.identifier.name == name {
                Some(element.share())
            } else {
                find_vector_member(rest, name)
            },
            _ => find_vector_member(rest, name),
        },
    }
}

impl StorageLoweringVisitor {
    pub(crate) fn target_network(&mut self, target: &Target) -> (r: Expression)
        ensures
            (final(self).st(), r) == target_network(old(self).st(), *target),
            final(self).cx() == old(self).cx(),
    {
        match &target.network {
            Some(network) => network.share(),
            None => self.literal_default_network(),
        }
    }

    pub(crate) fn vector_of_member(&self, interface: &Type, member: Identifier) -> (r: Result<
        Option<Type>,
        Halt,
    >)
        ensures
            r == vector_of_member(self.cx(), *interface, member),
    {
        let interface = self.lookup_interface_from_type(interface)?;
        Ok(find_vector_member(&interface.storages, member.name))
    }

    pub(crate) fn finish_dynamic_read(
        &mut self,
        target: Target,
        interface: &Type,
        storage: Identifier,
        span: Span,
    ) -> (r: Result<Lowered, Halt>)
        ensures
            ran(
                *old(self),
                *final(self),
                r,
                finish_dynamic_read(
                    old(self).cx(),
                    old(self).st(),
                    target,
                    *interface,
                    storage,
                    span,
                ),
            ),
    {
        proof {
            reveal(finish_dynamic_read);
        }
        let inner = self.storage_type(interface, storage.name)?;
        let network = self.target_network(&target);
        let read = self.read_dynamic(target.program, network, storage, inner, span)?;
        Ok((read, target.statements))
    }

    /// The end of a read of an element of a vector, with the index lowered and bound.
    pub(crate) fn finish_dynamic_vector_get(
        &mut self,
        target: Target,
        network: Expression,
        member: Identifier,
        element: &Type,
        index: Lowered,
        span: Span,
    ) -> (r: Result<Lowered, Halt>)
        ensures
            forall|before: State, argument: Expression, lowered: Step<Lowered>|
                finish_once(before, argument, "$index"@, lowered) == Ok::<_, Halt>(
                    (old(self).st(), index),
                ) ==> ran(
                    *old(self),
                    *final(self),
                    r,
                    #[trigger] finish_dynamic_vector_get(
                        old(self).cx(),
                        before,
                        target,
                        network,
                        member,
                        *element,
                        argument,
                        lowered,
                        span,
                    ),
                ),
    {
        proof {
            reveal(finish_dynamic_vector_get);
        }
        let (index, statements) = index;
        let (got, more) = self.get_dynamic(target.program, network, member, element, index, span)?;
        Ok((got, target.statements.append(&statements).append(&more)))
    }

    pub(crate) fn finish_dynamic_vector_len(
        &mut self,
        target: Target,
        member: Identifier,
        span: Span,
    ) -> (r: Lowered)
        ensures
            (final(self).st(), r) == finish_dynamic_vector_len(
                old(self).st(),
                target,
                member,
                span,
            ),
            final(self).cx() == old(self).cx(),
    {
        proof {
            reveal(finish_dynamic_vector_len);
        }
        let network = self.target_network(&target);
        let length = self.state.suffixed_symbol(member.name, "__len__");
        let read = self.dynamic_len(target.program, network, length, span);
        (read, target.statements)
    }

    pub(crate) fn storage_type(&self, interface: &Type, name: Symbol) -> (r: Result<Type, Halt>)
        ensures
            r == storage_type(self.cx(), *interface, name),
    {
        let interface = self.lookup_interface_from_type(interface)?;
        match find_member_type(&interface.storages, name) {
            None => Err(Halt::IllFormed),
            Some(Type::Vector(_)) => Err(Halt::IllFormed),
            Some(type_) => Ok(type_),
        }
    }

    pub(crate) fn read_dynamic(
        &mut self,
        program: Expression,
        network: Expression,
        storage: Identifier,
        inner: Type,
        span: Span,
    ) -> (r: Result<Expression, Halt>)
        ensures
            ran(
                *old(self),
                *final(self),
                r,
                read_dynamic(
                    old(self).cx(),
                    old(self).st(),
                    program,
                    network,
                    storage,
                    inner,
                    span,
                ),
            ),
    {
        proof {
            reveal(read_dynamic);
        }
        let mapping = self.state.suffixed_symbol(storage.name, "__");
        let mapping_a = self.literal_identifier(mapping);
        let mapping_b = self.literal_identifier(mapping);
        let key_a = self.literal_false();
        let key_b = self.literal_false();
        let contains = self.dynamic_contains_expr(
            program.share(),
            network.share(),
            mapping_a,
            key_a,
            span,
        );
        let default = self.zero(&inner)?;
        let get_or_use = self.dynamic_get_or_use_expr(
            program,
            network,
            mapping_b,
            key_b,
            default,
            inner.share(),
            span,
        );
        let none = self.literal_none_optional(inner);
        Ok(self.ternary_expr(contains, get_or_use, none, span))
    }

    pub(crate) fn dynamic_len(
        &mut self,
        program: Expression,
        network: Expression,
        mapping: Symbol,
        span: Span,
    ) -> (r: Expression)
        ensures
            (final(self).st(), r) == dynamic_len(old(self).st(), program, network, mapping, span),
            final(self).cx() == old(self).cx(),
    {
        proof {
            reveal(dynamic_len);
        }
        let mapping = self.literal_identifier(mapping);
        let key = self.literal_false();
        let default = self.literal_zero_u32();
        self.dynamic_get_or_use_expr(
            program,
            network,
            mapping,
            key,
            default,
            Type::Integer(IntegerType::U32),
            span,
        )
    }

    pub(crate) fn get_dynamic(
        &mut self,
        program: Expression,
        network: Expression,
        member: Identifier,
        element: &Type,
        index: Expression,
        span: Span,
    ) -> (r: Result<Lowered, Halt>)
        ensures
            ran(
                *old(self),
                *final(self),
                r,
                get_dynamic(
                    old(self).cx(),
                    old(self).st(),
                    program,
                    network,
                    member,
                    *element,
                    index,
                    span,
                ),
            ),
    {
        proof {
            reveal(get_dynamic);
        }
        let values = self.state.suffixed_symbol(member.name, "__");
        let length = self.state.suffixed_symbol(member.name, "__len__");
        let get_len = self.dynamic_len(program.share(), network.share(), length, span);
        let len_var = self.fresh_identifier("$len_var");
        let id: NodeId = self.state.take_id();
        let len_stmt = self.state.simple_definition(len_var, get_len, id);
        let in_bounds = self.binary_expr(
            index.share(),
            BinaryOperation::Lt,
            make_local_path(len_var),
        );
        let mapping = self.literal_identifier(values);
        let default = self.zero(element)?;
        let get_or_use = self.dynamic_get_or_use_expr(
            program,
            network,
            mapping,
            index,
            default,
            element.share(),
            span,
        );
        let none = self.literal_none_optional(element.share());
        let got = self.ternary_expr(in_bounds, get_or_use, none, span);
        Ok((got, List::one(len_stmt)))
    }
}

} // verus!
