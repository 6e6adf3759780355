//! Lowering of expressions with continuations.
use crate::ast::{
    CompositeExpression, DynamicOpExpression, DynamicOpKind, Expression, FieldInitializer, NodeId,
    Span, Statement, Type,
};
use crate::list::{List, Share};
use crate::state::Halt;
use crate::storage_lowering::continuation::{
    Continuation, ListContinuation, ListFrame, OperandFrame, PlaceFrame,
};
use crate::storage_lowering::emit::{
    emit, emit_assign_place, emit_branches, emit_composite_base, emit_composite_members,
    emit_dynamic_arguments, emit_list, emit_lowered, emit_step, resume, resume_list,
};
use crate::storage_lowering::emit_parts::first_is_vector;
use crate::storage_lowering::vectors::Lowered;
use crate::storage_lowering::visitor::{ran, StorageLoweringVisitor};
use std::rc::Rc;
use vstd::prelude::*;

verus! {

pub(crate) fn operand(frame: OperandFrame, next: Rc<Continuation>) -> (r: Rc<Continuation>)
    ensures
        *r == Continuation::Operand(frame, next),
{
    Rc::new(Continuation::Operand(frame, next))
}

pub(crate) fn operands(frame: ListFrame, next: Rc<Continuation>) -> (r: Rc<ListContinuation>)
    ensures
        *r == (ListContinuation { frame, next }),
{
    Rc::new(ListContinuation { frame, next })
}

impl StorageLoweringVisitor {
    /// Lowers `expression` and hands its value to `continuation`. Statements in the arms of a
    /// ternary stay in the arms, together with what consumes their values. The steps nest no deeper
    /// than `depth`.
    pub(crate) fn emit_expression_with_continuation(
        &mut self,
        depth: usize,
        expression: &Expression,
        continuation: Rc<Continuation>,
    ) -> (r: Result<List<Statement>, Halt>)
        ensures
            ran(
                *old(self),
                *final(self),
                r,
                emit(
                    old(self).cx(),
                    depth as nat,
                    old(self).st(),
                    *expression,
                    *continuation,
                ),
            ),
        decreases depth, 0int, *expression,
    {
        proof {
            reveal(emit);
            reveal(emit_step);
        }
        if depth == 0 {
            return Err(Halt::Depth);
        }
        self.emit_step(depth - 1, expression, continuation)
    }

    fn emit_step(
        &mut self,
        depth: usize,
        expression: &Expression,
        continuation: Rc<Continuation>,
    ) -> (r: Result<List<Statement>, Halt>)
        ensures
            ran(
                *old(self),
                *final(self),
                r,
                emit_step(
                    old(self).cx(),
                    depth as nat,
                    old(self).st(),
                    *expression,
                    *continuation,
                ),
            ),
        decreases depth, 9int, *expression,
    {
        proof {
            reveal(emit_step);
            reveal(emit);
            reveal(emit_list);
            reveal(emit_lowered);
        }
        match expression {
            Expression::Array(input) => self.emit_expression_list_with_continuation(
                depth,
                &input.elements,
                List::Nil,
                operands(ListFrame::Array { input: input.clone() }, continuation),
            ),
            Expression::ArrayAccess(input) => self.emit_expression_with_continuation(
                depth,
                &input.array,
                operand(OperandFrame::AccessArray { input: input.clone() }, continuation),
            ),
            Expression::Binary(input) => self.emit_expression_with_continuation(
                depth,
                &input.left,
                operand(OperandFrame::BinaryLeft { input: input.clone() }, continuation),
            ),
            Expression::Call(input) => self.emit_expression_list_with_continuation(
                depth,
                &input.const_arguments,
                List::Nil,
                operands(ListFrame::CallConst { input: input.clone() }, continuation),
            ),
            Expression::Cast(input) => self.emit_expression_with_continuation(
                depth,
                &input.expression,
                operand(OperandFrame::Cast { input: input.clone() }, continuation),
            ),
            Expression::Composite(input) => self.emit_expression_list_with_continuation(
                depth,
                &input.const_arguments,
                List::Nil,
                operands(ListFrame::CompositeConst { input: input.clone() }, continuation),
            ),
            Expression::DynamicOp(input) => self.emit_expression_with_continuation(
                depth,
                &input.target_program,
                operand(OperandFrame::DynamicTarget { input: input.clone() }, continuation),
            ),
            Expression::Intrinsic(input) => if first_is_vector(input.op) {
                match &input.arguments {
                    List::Nil => Err(Halt::IllFormed),
                    List::Cons(vector, values) => {
                        let first = List::one(vector.share());
                        self.emit_expression_list_with_continuation(
                            depth,
                            values,
                            List::Nil,
                            operands(
                                ListFrame::Intrinsic { input: input.clone(), first },
                                continuation,
                            ),
                        )
                    },
                }
            } else {
                self.emit_expression_list_with_continuation(
                    depth,
                    &input.arguments,
                    List::Nil,
                    operands(
                        ListFrame::Intrinsic { input: input.clone(), first: List::Nil },
                        continuation,
                    ),
                )
            },
            Expression::MemberAccess(input) => self.emit_expression_with_continuation(
                depth,
                &input.inner,
                operand(OperandFrame::MemberAccess { input: input.clone() }, continuation),
            ),
            Expression::Repeat(input) => self.emit_expression_with_continuation(
                depth,
                &input.expr,
                operand(OperandFrame::RepeatElement { input: input.clone() }, continuation),
            ),
            Expression::Ternary(input) => {
                let optional_type = self.optional_type_of(input.id);
                self.emit_expression_with_continuation(
                    depth,
                    &input.condition,
                    operand(
                        OperandFrame::TernaryCondition { input: input.clone(), optional_type },
                        continuation,
                    ),
                )
            },
            Expression::Tuple(input) => self.emit_expression_list_with_continuation(
                depth,
                &input.elements,
                List::Nil,
                operands(ListFrame::Tuple { input: input.clone() }, continuation),
            ),
            Expression::TupleAccess(input) => self.emit_expression_with_continuation(
                depth,
                &input.tuple,
                operand(OperandFrame::TupleAccess { input: input.clone() }, continuation),
            ),
            Expression::Unary(input) => self.emit_expression_with_continuation(
                depth,
                &input.receiver,
                operand(OperandFrame::Unary { input: input.clone() }, continuation),
            ),
            Expression::Error(_) | Expression::Literal(_) | Expression::Path(_)
            | Expression::Unit(_) => {
                let lowered = self.reconstruct_expression(expression)?;
                self.emit_lowered(depth, lowered, expression.id(), false, continuation)
            },
        }
    }

    /// Hands what the node `source` was lowered to, behind its statements, to `continuation`;
    /// first lowers it once more if it became a branch.
    pub(crate) fn emit_lowered(
        &mut self,
        depth: usize,
        lowered: Lowered,
        source: NodeId,
        keeps_dynamic: bool,
        continuation: Rc<Continuation>,
    ) -> (r: Result<List<Statement>, Halt>)
        ensures
            ran(
                *old(self),
                *final(self),
                r,
                emit_lowered(
                    old(self).cx(),
                    depth as nat,
                    Ok((old(self).st(), lowered)),
                    source,
                    keeps_dynamic,
                    *continuation,
                ),
            ),
        decreases depth, 1int, lowered,
    {
        proof {
            reveal(emit_lowered);
            reveal(emit);
            reveal(resume);
        }
        let (expression, statements) = lowered;
        self.copy_expression_type(source, expression.id());
        let is_dynamic = matches!(expression, Expression::DynamicOp(_));
        let again = Self::expression_requires_branch_cps(&expression) && !(keeps_dynamic
            && is_dynamic);
        let more = if again {
            self.emit_expression_with_continuation(depth, &expression, continuation)?
        } else {
            self.resume(depth, continuation, expression)?
        };
        Ok(statements.append(&more))
    }

    /// Lowers the expressions in `remaining`, from left to right, and hands all values, behind
    /// those in `rebuilt`, to `continuation`.
    pub(crate) fn emit_expression_list_with_continuation(
        &mut self,
        depth: usize,
        remaining: &List<Expression>,
        rebuilt: List<Expression>,
        continuation: Rc<ListContinuation>,
    ) -> (r: Result<List<Statement>, Halt>)
        ensures
            ran(
                *old(self),
                *final(self),
                r,
                emit_list(
                    old(self).cx(),
                    depth as nat,
                    old(self).st(),
                    *remaining,
                    rebuilt,
                    *continuation,
                ),
            ),
        decreases depth, 1int, *remaining,
    {
        proof {
            reveal(emit_list);
            reveal(emit);
            reveal(resume_list);
        }
        match remaining {
            List::Nil => self.resume_list(depth, continuation, rebuilt),
            List::Cons(expression, rest) => self.emit_expression_with_continuation(
                depth,
                expression,
                Rc::new(
                    Continuation::Element { rest: rest.share(), rebuilt, next: continuation },
                ),
            ),
        }
    }

    /// A conditional statement whose branches each lower an arm of a ternary and what consumes it.
    pub(crate) fn emit_ternary_branches_with_continuation(
        &mut self,
        depth: usize,
        condition: Expression,
        if_true: Lowered,
        if_false: Lowered,
        optional_type: Option<Type>,
        span: Span,
        continuation: Rc<Continuation>,
    ) -> (r: Result<List<Statement>, Halt>)
        ensures
            ran(
                *old(self),
                *final(self),
                r,
                emit_branches(
                    old(self).cx(),
                    depth as nat,
                    old(self).st(),
                    condition,
                    if_true,
                    if_false,
                    optional_type,
                    span,
                    *continuation,
                ),
            ),
        decreases depth, 1int, condition,
    {
        proof {
            reveal(emit_branches);
            reveal(emit);
        }
        let arm = operand(OperandFrame::TernaryArm { optional_type, span }, continuation);
        let (if_true, true_prefix) = if_true;
        let more = self.emit_expression_with_continuation(depth, &if_true, arm.clone())?;
        let then_statements = true_prefix.append(&more);
        let (if_false, false_prefix) = if_false;
        let more = self.emit_expression_with_continuation(depth, &if_false, arm)?;
        let else_statements = false_prefix.append(&more);
        let statement = self.branch_statement(condition, then_statements, else_statements, span);
        Ok(List::one(statement))
    }

    /// Lowers the arguments of a dynamic access whose target was lowered.
    pub(crate) fn emit_dynamic_arguments_with_continuation(
        &mut self,
        depth: usize,
        input: Rc<DynamicOpExpression>,
        continuation: Rc<Continuation>,
    ) -> (r: Result<List<Statement>, Halt>)
        ensures
            ran(
                *old(self),
                *final(self),
                r,
                emit_dynamic_arguments(
                    old(self).cx(),
                    depth as nat,
                    old(self).st(),
                    *input,
                    *continuation,
                ),
            ),
        decreases depth, 2int, *input,
    {
        proof {
            reveal(emit_dynamic_arguments);
            reveal(emit_lowered);
            reveal(emit_list);
        }
        match &input.kind {
            DynamicOpKind::Read { .. } => {
                let lowered = self.reconstruct_dynamic_op(&input)?;
                self.emit_lowered(depth, lowered, input.id, true, continuation)
            },
            DynamicOpKind::Op { arguments, .. } | DynamicOpKind::Call { arguments, .. } => {
                self.emit_expression_list_with_continuation(
                    depth,
                    arguments,
                    List::Nil,
                    operands(ListFrame::DynamicArguments { input: input.clone() }, continuation),
                )
            },
        }
    }

    /// Lowers the fields of a composite from `rest` on, behind those in `done`, and then its base.
    pub(crate) fn emit_composite_members_with_continuation(
        &mut self,
        depth: usize,
        input: Rc<CompositeExpression>,
        done: List<FieldInitializer>,
        rest: &List<FieldInitializer>,
        continuation: Rc<Continuation>,
    ) -> (r: Result<List<Statement>, Halt>)
        ensures
            ran(
                *old(self),
                *final(self),
                r,
                emit_composite_members(
                    old(self).cx(),
                    depth as nat,
                    old(self).st(),
                    *input,
                    done,
                    *rest,
                    *continuation,
                ),
            ),
        decreases depth, 3int, *rest,
    {
        proof {
            reveal(emit_composite_members);
            reveal(emit_composite_base);
            reveal(emit);
        }
        match rest {
            List::Nil => {
                let composite = CompositeExpression {
                    path: input.path.clone(),
                    const_arguments: input.const_arguments.share(),
                    members: done,
                    base: input.base.share(),
                    span: input.span,
                    id: input.id,
                };
                self.emit_composite_base_with_continuation(depth, Rc::new(composite), continuation)
            },
            List::Cons(member, rest) => match &member.expression {
                None => self.emit_composite_members_with_continuation(
                    depth,
                    input,
                    done.push(member.share()),
                    rest,
                    continuation,
                ),
                Some(value) => self.emit_expression_with_continuation(
                    depth,
                    value,
                    operand(
                        OperandFrame::CompositeMember {
                            input,
                            done,
                            member: member.share(),
                            rest: rest.share(),
                        },
                        continuation,
                    ),
                ),
            },
        }
    }

    /// Lowers the base of a composite, if it has one.
    pub(crate) fn emit_composite_base_with_continuation(
        &mut self,
        depth: usize,
        input: Rc<CompositeExpression>,
        continuation: Rc<Continuation>,
    ) -> (r: Result<List<Statement>, Halt>)
        ensures
            ran(
                *old(self),
                *final(self),
                r,
                emit_composite_base(
                    old(self).cx(),
                    depth as nat,
                    old(self).st(),
                    *input,
                    *continuation,
                ),
            ),
        decreases depth, 2int, *input,
    {
        proof {
            reveal(emit_composite_base);
            reveal(emit);
            reveal(resume);
        }
        match &input.base {
            None => self.resume(depth, continuation, Expression::Composite(input.clone())),
            Some(base) => self.emit_expression_with_continuation(
                depth,
                base,
                operand(OperandFrame::CompositeBase { input: input.clone() }, continuation),
            ),
        }
    }

    /// Lowers the indices in the place of an assignment, from left to right.
    pub(crate) fn emit_assign_place_with_continuation(
        &mut self,
        depth: usize,
        place: &Expression,
        continuation: Rc<Continuation>,
    ) -> (r: Result<List<Statement>, Halt>)
        ensures
            ran(
                *old(self),
                *final(self),
                r,
                emit_assign_place(
                    old(self).cx(),
                    depth as nat,
                    old(self).st(),
                    *place,
                    *continuation,
                ),
            ),
        decreases depth, 1int, *place,
    {
        proof {
            reveal(emit_assign_place);
            reveal(resume);
        }
        match place {
            Expression::ArrayAccess(input) => {
                let frame = PlaceFrame::Array { input: input.clone() };
                self.emit_assign_place_with_continuation(
                    depth,
                    &input.array,
                    Rc::new(Continuation::Place(frame, continuation)),
                )
            },
            Expression::MemberAccess(input) => {
                let frame = PlaceFrame::Member { input: input.clone() };
                self.emit_assign_place_with_continuation(
                    depth,
                    &input.inner,
                    Rc::new(Continuation::Place(frame, continuation)),
                )
            },
            Expression::TupleAccess(input) => {
                let frame = PlaceFrame::Tuple { input: input.clone() };
                self.emit_assign_place_with_continuation(
                    depth,
                    &input.tuple,
                    Rc::new(Continuation::Place(frame, continuation)),
                )
            },
            _ => self.resume(depth, continuation, place.share()),
        }
    }
}

} // verus!
