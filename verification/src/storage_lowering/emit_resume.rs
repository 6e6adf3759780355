//! Going on with a continuation once a value is known.
use crate::ast::{
    ArrayAccess, ArrayExpression, AssertStatement, AssertVariant, AssignStatement, BinaryExpression,
    CallExpression, CastExpression, CompositeExpression, ConditionalStatement, ConstDeclaration,
    DefinitionStatement, DynamicOpExpression, DynamicOpKind, Expression, FieldInitializer,
    IntrinsicExpression, IterationStatement, MemberAccess, NodeId, RepeatExpression,
    ReturnStatement, Statement, TernaryExpression, TupleAccess, TupleExpression, Type,
    UnaryExpression,
};
use crate::list::{List, Share};
use crate::state::Halt;
use crate::storage_lowering::continuation::{
    Continuation, ListContinuation, ListFrame, OperandFrame, PlaceFrame, StatementFrame,
};
use crate::storage_lowering::emit::{
    emit, emit_branches, emit_composite_members, emit_dynamic_arguments, emit_list, emit_lowered,
    nested, reconstruct_block, reconstruct_otherwise, resume, resume_list, resume_list_step,
    resume_operand, resume_place, resume_statement, resume_step, resume_ternary,
};
use crate::storage_lowering::emit_expressions::{operand, operands};
use crate::storage_lowering::visitor::{ran, StorageLoweringVisitor};
use std::rc::Rc;
use vstd::prelude::*;

verus! {

pub(crate) fn statement_of(frame: StatementFrame) -> (r: Rc<Continuation>)
    ensures
        *r == Continuation::Statement(frame),
{
    Rc::new(Continuation::Statement(frame))
}

impl StorageLoweringVisitor {
    /// Goes on with `continuation` now that the value is known.
    pub(crate) fn resume(
        &mut self,
        depth: usize,
        continuation: Rc<Continuation>,
        value: Expression,
    ) -> (r: Result<List<Statement>, Halt>)
        ensures
            ran(
                *old(self),
                *final(self),
                r,
                resume(old(self).cx(), depth as nat, old(self).st(), *continuation, value),
            ),
        decreases depth, 0int, value,
    {
        proof {
            reveal(resume);
            reveal(resume_step);
        }
        if depth == 0 {
            return Err(Halt::Depth);
        }
        self.resume_step(depth - 1, continuation, value)
    }

    fn resume_step(
        &mut self,
        depth: usize,
        continuation: Rc<Continuation>,
        value: Expression,
    ) -> (r: Result<List<Statement>, Halt>)
        ensures
            ran(
                *old(self),
                *final(self),
                r,
                resume_step(old(self).cx(), depth as nat, old(self).st(), *continuation, value),
            ),
        decreases depth, 11int, value,
    {
        proof {
            reveal(resume_step);
            reveal(emit_list);
            reveal(resume_operand);
            reveal(resume_place);
            reveal(resume_statement);
        }
        match &*continuation {
            Continuation::Operand(frame, next) => self.resume_operand(
                depth,
                frame,
                next.clone(),
                value,
            ),
            Continuation::Element { rest, rebuilt, next } => {
                let strict = self.any_may_emit_after_in(rest);
                let (value, statements) = self.materialize_if(value, strict)?;
                let more = self.emit_expression_list_with_continuation(
                    depth,
                    rest,
                    rebuilt.push(value),
                    next.clone(),
                )?;
                Ok(statements.append(&more))
            },
            Continuation::Place(frame, next) => self.resume_place(
                depth,
                frame,
                next.clone(),
                value,
            ),
            Continuation::Statement(frame) => self.resume_statement(depth, frame, value),
        }
    }

    /// Goes on with the expression that the value is an operand of.
    fn resume_operand(
        &mut self,
        depth: usize,
        frame: &OperandFrame,
        next: Rc<Continuation>,
        value: Expression,
    ) -> (r: Result<List<Statement>, Halt>)
        ensures
            ran(
                *old(self),
                *final(self),
                r,
                resume_operand(
                    old(self).cx(),
                    depth as nat,
                    old(self).st(),
                    *frame,
                    *next,
                    value,
                ),
            ),
        decreases depth, 10int, value,
    {
        proof {
            reveal(resume_operand);
            reveal(emit);
            reveal(resume);
            reveal(resume_ternary);
            reveal(emit_dynamic_arguments);
            reveal(emit_composite_members);
        }
        match frame {
            OperandFrame::AccessArray { input } => {
                let strict = self.expression_may_emit_after_reconstruction(&input.index);
                let (array, statements) = self.materialize_if(value, strict)?;
                let frame = OperandFrame::AccessIndex { array, input: input.clone() };
                let more = self.emit_expression_with_continuation(
                    depth,
                    &input.index,
                    operand(frame, next),
                )?;
                Ok(statements.append(&more))
            },
            OperandFrame::AccessIndex { array, input } => {
                let access = ArrayAccess {
                    array: array.share(),
                    index: value,
                    span: input.span,
                    id: input.id,
                };
                self.resume(depth, next, Expression::ArrayAccess(Rc::new(access)))
            },
            OperandFrame::BinaryLeft { input } => {
                let strict = self.expression_may_emit_after_reconstruction(&input.right);
                let (left, statements) = self.materialize_if(value, strict)?;
                let frame = OperandFrame::BinaryRight { left, input: input.clone() };
                let more = self.emit_expression_with_continuation(
                    depth,
                    &input.right,
                    operand(frame, next),
                )?;
                Ok(statements.append(&more))
            },
            OperandFrame::BinaryRight { left, input } => {
                let binary = BinaryExpression {
                    left: left.share(),
                    right: value,
                    op: input.op,
                    span: input.span,
                    id: input.id,
                };
                self.resume(depth, next, Expression::Binary(Rc::new(binary)))
            },
            OperandFrame::Cast { input } => {
                let cast = CastExpression {
                    expression: value,
                    type_: input.type_.share(),
                    span: input.span,
                    id: input.id,
                };
                self.resume(depth, next, Expression::Cast(Rc::new(cast)))
            },
            OperandFrame::MemberAccess { input } => {
                let access = MemberAccess {
                    inner: value,
                    name: input.name,
                    span: input.span,
                    id: input.id,
                };
                self.resume(depth, next, Expression::MemberAccess(Rc::new(access)))
            },
            OperandFrame::RepeatElement { input } => {
                let strict = self.expression_may_emit_after_reconstruction(&input.count);
                let (expr, statements) = self.materialize_if(value, strict)?;
                let frame = OperandFrame::RepeatCount { expr, input: input.clone() };
                let more = self.emit_expression_with_continuation(
                    depth,
                    &input.count,
                    operand(frame, next),
                )?;
                Ok(statements.append(&more))
            },
            OperandFrame::RepeatCount { expr, input } => {
                let repeat = RepeatExpression {
                    expr: expr.share(),
                    count: value,
                    span: input.span,
                    id: input.id,
                };
                self.resume(depth, next, Expression::Repeat(Rc::new(repeat)))
            },
            OperandFrame::TernaryCondition { input, optional_type } => self.resume_ternary(
                depth,
                input,
                optional_type.share(),
                next,
                value,
            ),
            OperandFrame::TernaryArm { optional_type, span } => match optional_type {
                None => self.resume(depth, next, value),
                Some(optional_type) => {
                    let (variable, definition) = self.bind_optional_ternary_branch(
                        value,
                        optional_type,
                        *span,
                    );
                    let more = self.resume(depth, next, variable)?;
                    Ok(List::one(definition).append(&more))
                },
            },
            OperandFrame::TupleAccess { input } => {
                let access = TupleAccess {
                    tuple: value,
                    index: input.index,
                    span: input.span,
                    id: input.id,
                };
                self.resume(depth, next, Expression::TupleAccess(Rc::new(access)))
            },
            OperandFrame::Unary { input } => {
                let unary = UnaryExpression {
                    receiver: value,
                    op: input.op,
                    span: input.span,
                    id: input.id,
                };
                self.resume(depth, next, Expression::Unary(Rc::new(unary)))
            },
            OperandFrame::DynamicTarget { input } => {
                let (target_program, statements) = self.materialize_strict_prefix_expression(
                    value,
                )?;
                let access = Rc::new(
                    DynamicOpExpression {
                        interface: input.interface.share(),
                        target_program,
                        network: input.network.share(),
                        kind: input.kind.share(),
                        span: input.span,
                        id: input.id,
                    },
                );
                let more = match &input.network {
                    None => self.emit_dynamic_arguments_with_continuation(depth, access, next)?,
                    Some(network) => self.emit_expression_with_continuation(
                        depth,
                        network,
                        operand(OperandFrame::DynamicNetwork { input: access }, next),
                    )?,
                };
                Ok(statements.append(&more))
            },
            OperandFrame::DynamicNetwork { input } => {
                let (network, statements) = self.materialize_strict_prefix_expression(value)?;
                let access = Rc::new(
                    DynamicOpExpression {
                        interface: input.interface.share(),
                        target_program: input.target_program.share(),
                        network: Some(network),
                        kind: input.kind.share(),
                        span: input.span,
                        id: input.id,
                    },
                );
                let more = self.emit_dynamic_arguments_with_continuation(depth, access, next)?;
                Ok(statements.append(&more))
            },
            OperandFrame::CompositeMember { input, done, member, rest } => {
                let (value, statements) = self.materialize_strict_prefix_expression(value)?;
                let member = FieldInitializer {
                    identifier: member.identifier,
                    expression: Some(value),
                    span: member.span,
                    id: member.id,
                };
                let more = self.emit_composite_members_with_continuation(
                    depth,
                    input.clone(),
                    done.push(member),
                    rest,
                    next,
                )?;
                Ok(statements.append(&more))
            },
            OperandFrame::CompositeBase { input } => {
                let composite = CompositeExpression {
                    path: input.path.clone(),
                    const_arguments: input.const_arguments.share(),
                    members: input.members.share(),
                    base: Some(value),
                    span: input.span,
                    id: input.id,
                };
                self.resume(depth, next, Expression::Composite(Rc::new(composite)))
            },
        }
    }

    /// Goes on with a ternary whose condition is known.
    fn resume_ternary(
        &mut self,
        depth: usize,
        input: &Rc<TernaryExpression>,
        optional_type: Option<Type>,
        next: Rc<Continuation>,
        condition: Expression,
    ) -> (r: Result<List<Statement>, Halt>)
        ensures
            ran(
                *old(self),
                *final(self),
                r,
                resume_ternary(
                    old(self).cx(),
                    depth as nat,
                    old(self).st(),
                    **input,
                    optional_type,
                    *next,
                    condition,
                ),
            ),
        decreases depth, 9int, condition,
    {
        proof {
            reveal(resume_ternary);
            reveal(emit_branches);
            reveal(resume);
        }
        if self.expression_may_emit_after_reconstruction(&input.if_true)
            || self.expression_may_emit_after_reconstruction(&input.if_false) {
            return self.emit_ternary_branches_with_continuation(
                depth,
                condition,
                (input.if_true.share(), List::Nil),
                (input.if_false.share(), List::Nil),
                optional_type,
                input.span,
                next,
            );
        }
        let if_true = self.reconstruct_expression(&input.if_true)?;
        let if_false = self.reconstruct_expression(&input.if_false)?;
        if if_true.1.is_empty() && if_false.1.is_empty() && !Self::expression_requires_branch_cps(
            &if_true.0,
        ) && !Self::expression_requires_branch_cps(&if_false.0) {
            let ternary = TernaryExpression {
                condition,
                if_true: if_true.0,
                if_false: if_false.0,
                span: input.span,
                id: input.id,
            };
            self.resume(depth, next, Expression::Ternary(Rc::new(ternary)))
        } else {
            self.emit_ternary_branches_with_continuation(
                depth,
                condition,
                if_true,
                if_false,
                optional_type,
                input.span,
                next,
            )
        }
    }

    /// Goes on with the place of an assignment.
    fn resume_place(
        &mut self,
        depth: usize,
        frame: &PlaceFrame,
        next: Rc<Continuation>,
        value: Expression,
    ) -> (r: Result<List<Statement>, Halt>)
        ensures
            ran(
                *old(self),
                *final(self),
                r,
                resume_place(old(self).cx(), depth as nat, old(self).st(), *frame, *next, value),
            ),
        decreases depth, 10int, value,
    {
        proof {
            reveal(resume_place);
            reveal(emit);
            reveal(resume);
        }
        match frame {
            PlaceFrame::Array { input } => {
                let frame = PlaceFrame::Index { array: value, input: input.clone() };
                self.emit_expression_with_continuation(
                    depth,
                    &input.index,
                    Rc::new(Continuation::Place(frame, next)),
                )
            },
            PlaceFrame::Index { array, input } => {
                let (index, statements) = self.materialize_strict_prefix_expression(value)?;
                let access = ArrayAccess {
                    array: array.share(),
                    index,
                    span: input.span,
                    id: input.id,
                };
                let more = self.resume(depth, next, Expression::ArrayAccess(Rc::new(access)))?;
                Ok(statements.append(&more))
            },
            PlaceFrame::Member { input } => {
                let access = MemberAccess {
                    inner: value,
                    name: input.name,
                    span: input.span,
                    id: input.id,
                };
                self.resume(depth, next, Expression::MemberAccess(Rc::new(access)))
            },
            PlaceFrame::Tuple { input } => {
                let access = TupleAccess {
                    tuple: value,
                    index: input.index,
                    span: input.span,
                    id: input.id,
                };
                self.resume(depth, next, Expression::TupleAccess(Rc::new(access)))
            },
        }
    }

    /// Goes on with `continuation` now that the values are known.
    pub(crate) fn resume_list(
        &mut self,
        depth: usize,
        continuation: Rc<ListContinuation>,
        values: List<Expression>,
    ) -> (r: Result<List<Statement>, Halt>)
        ensures
            ran(
                *old(self),
                *final(self),
                r,
                resume_list(old(self).cx(), depth as nat, old(self).st(), *continuation, values),
            ),
        decreases depth, 0int, values,
    {
        proof {
            reveal(resume_list);
            reveal(resume_list_step);
        }
        if depth == 0 {
            return Err(Halt::Depth);
        }
        self.resume_list_step(depth - 1, &continuation, values)
    }

    fn resume_list_step(
        &mut self,
        depth: usize,
        continuation: &ListContinuation,
        values: List<Expression>,
    ) -> (r: Result<List<Statement>, Halt>)
        ensures
            ran(
                *old(self),
                *final(self),
                r,
                resume_list_step(
                    old(self).cx(),
                    depth as nat,
                    old(self).st(),
                    *continuation,
                    values,
                ),
            ),
        decreases depth, 9int, values,
    {
        proof {
            reveal(resume_list_step);
            reveal(resume);
            reveal(emit_list);
            reveal(emit_lowered);
            reveal(emit_composite_members);
        }
        let next = continuation.next.clone();
        match &continuation.frame {
            ListFrame::Array { input } => {
                let array = ArrayExpression { elements: values, span: input.span, id: input.id };
                self.resume(depth, next, Expression::Array(Rc::new(array)))
            },
            ListFrame::CallConst { input } => self.emit_expression_list_with_continuation(
                depth,
                &input.arguments,
                List::Nil,
                operands(
                    ListFrame::CallArguments { input: input.clone(), const_arguments: values },
                    next,
                ),
            ),
            ListFrame::CallArguments { input, const_arguments } => {
                let call = CallExpression {
                    function: input.function.clone(),
                    const_arguments: const_arguments.share(),
                    arguments: values,
                    span: input.span,
                    id: input.id,
                };
                let lowered = self.reconstruct_call(&call)?;
                self.emit_lowered(depth, lowered, input.id, false, next)
            },
            ListFrame::CompositeConst { input } => {
                let composite = CompositeExpression {
                    path: input.path.clone(),
                    const_arguments: values,
                    members: input.members.share(),
                    base: input.base.share(),
                    span: input.span,
                    id: input.id,
                };
                self.emit_composite_members_with_continuation(
                    depth,
                    Rc::new(composite),
                    List::Nil,
                    &input.members,
                    next,
                )
            },
            ListFrame::DynamicArguments { input } => {
                let kind = match &input.kind {
                    DynamicOpKind::Read { storage } => DynamicOpKind::Read { storage: *storage },
                    DynamicOpKind::Op { member, op, .. } => DynamicOpKind::Op {
                        member: *member,
                        op: *op,
                        arguments: values,
                    },
                    DynamicOpKind::Call { function, .. } => DynamicOpKind::Call {
                        function: *function,
                        arguments: values,
                    },
                };
                let access = DynamicOpExpression {
                    interface: input.interface.share(),
                    target_program: input.target_program.share(),
                    network: input.network.share(),
                    kind,
                    span: input.span,
                    id: input.id,
                };
                let lowered = self.reconstruct_dynamic_op(&access)?;
                self.emit_lowered(depth, lowered, input.id, true, next)
            },
            ListFrame::Intrinsic { input, first } => {
                let operation = IntrinsicExpression {
                    op: input.op,
                    type_parameters: input.type_parameters.share(),
                    input_types: input.input_types.share(),
                    return_types: input.return_types.share(),
                    arguments: first.append(&values),
                    span: input.span,
                    id: input.id,
                };
                let lowered = self.reconstruct_intrinsic(&operation)?;
                self.emit_lowered(depth, lowered, input.id, false, next)
            },
            ListFrame::Tuple { input } => {
                let tuple = TupleExpression { elements: values, span: input.span, id: input.id };
                self.resume(depth, next, Expression::Tuple(Rc::new(tuple)))
            },
        }
    }

    /// Makes the statement that the value is for.
    fn resume_statement(&mut self, depth: usize, frame: &StatementFrame, value: Expression) -> (r:
        Result<List<Statement>, Halt>)
        ensures
            ran(
                *old(self),
                *final(self),
                r,
                resume_statement(old(self).cx(), depth as nat, old(self).st(), *frame, value),
            ),
        decreases depth, 10int, value,
    {
        proof {
            reveal(resume_statement);
            reveal(emit);
            reveal(nested);
            reveal(reconstruct_block);
            reveal(reconstruct_otherwise);
        }
        match frame {
            StatementFrame::Const { input, type_, tail } => {
                let statement = Statement::Const(
                    Rc::new(
                        ConstDeclaration {
                            place: input.place,
                            type_: type_.share(),
                            value,
                            span: input.span,
                            id: input.id,
                        },
                    ),
                );
                self.statement_then_tail(depth, statement, tail)
            },
            StatementFrame::Definition { input, type_, tail } => {
                let id: NodeId = self.state.take_id();
                let statement = Statement::Definition(
                    Rc::new(
                        DefinitionStatement {
                            place: input.place.share(),
                            type_: type_.share(),
                            value,
                            span: input.span,
                            id,
                        },
                    ),
                );
                self.statement_then_tail(depth, statement, tail)
            },
            StatementFrame::Assert { span } => {
                let variant = AssertVariant::Assert(value);
                let id: NodeId = self.state.take_id();
                let statement = Statement::Assert(
                    Rc::new(AssertStatement { variant, span: *span, id }),
                );
                Ok(List::one(statement))
            },
            StatementFrame::AssertLeft { equal, right, span } => {
                let strict = self.expression_may_emit_after_reconstruction(right);
                let (left, statements) = self.materialize_if(value, strict)?;
                let frame = StatementFrame::AssertRight { equal: *equal, left, span: *span };
                let more = self.emit_expression_with_continuation(
                    depth,
                    right,
                    statement_of(frame),
                )?;
                Ok(statements.append(&more))
            },
            StatementFrame::AssertRight { equal, left, span } => {
                let variant = if *equal {
                    AssertVariant::AssertEq(left.share(), value)
                } else {
                    AssertVariant::AssertNeq(left.share(), value)
                };
                let id: NodeId = self.state.take_id();
                let statement = Statement::Assert(
                    Rc::new(AssertStatement { variant, span: *span, id }),
                );
                Ok(List::one(statement))
            },
            StatementFrame::StorageValue { mapping, span } => {
                let statement = self.write_storage(*mapping, value, *span);
                Ok(List::one(statement))
            },
            StatementFrame::AssignPlace { value: assigned, span } => {
                let frame = StatementFrame::AssignValue { place: value, span: *span };
                self.emit_expression_with_continuation(depth, assigned, statement_of(frame))
            },
            StatementFrame::AssignValue { place, span } => {
                let id: NodeId = self.state.take_id();
                let statement = Statement::Assign(
                    Rc::new(AssignStatement { place: place.share(), value, span: *span, id }),
                );
                Ok(List::one(statement))
            },
            StatementFrame::Expression { keep, span } => {
                let statement = self.value_statement(*keep, value, *span);
                Ok(List::one(statement))
            },
            StatementFrame::Conditional { input } => {
                let then_block = self.nested_block(depth, &input.then_block)?;
                let otherwise = self.reconstruct_otherwise_statement(depth, &input.otherwise)?;
                let id: NodeId = self.state.take_id();
                let statement = Statement::Conditional(
                    Rc::new(
                        ConditionalStatement {
                            condition: value,
                            then_block,
                            otherwise,
                            span: input.span,
                            id,
                        },
                    ),
                );
                Ok(List::one(statement))
            },
            StatementFrame::IterationStart { input, type_ } => {
                let (start, statements) = self.materialize_strict_prefix_expression(value)?;
                let frame = StatementFrame::IterationStop {
                    input: input.clone(),
                    type_: type_.share(),
                    start,
                };
                let more = self.emit_expression_with_continuation(
                    depth,
                    &input.stop,
                    statement_of(frame),
                )?;
                Ok(statements.append(&more))
            },
            StatementFrame::IterationStop { input, type_, start } => {
                let block = self.nested_block(depth, &input.block)?;
                let id: NodeId = self.state.take_id();
                let statement = Statement::Iteration(
                    Rc::new(
                        IterationStatement {
                            variable: input.variable,
                            type_: type_.share(),
                            start: start.share(),
                            stop: value,
                            inclusive: input.inclusive,
                            block,
                            span: input.span,
                            id,
                        },
                    ),
                );
                Ok(List::one(statement))
            },
            StatementFrame::Return { span } => {
                let id: NodeId = self.state.take_id();
                let statement = Statement::Return(
                    Rc::new(ReturnStatement { expression: value, span: *span, id }),
                );
                Ok(List::one(statement))
            },
        }
    }
}

} // verus!
