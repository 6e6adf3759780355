//! Lowering of statements together with the statements that follow them.
use crate::ast::{
    AssertStatement, AssertVariant, AssignStatement, Block, ConditionalStatement, DefinitionPlace,
    DefinitionStatement, NodeId, Statement,
};
use crate::list::{one, List, Share};
use crate::purity::expression_can_be_discarded;
use crate::state::{Halt, State};
use crate::storage_lowering::continuation::StatementFrame;
use crate::storage_lowering::depth::{
    block_lowering, blocks_need_no_limit, statement_lowering, statement_needs_no_limit,
    statements_lowering, statements_need_no_limit,
};
use crate::storage_lowering::emit::{
    emit, emit_assign_place, emitted_then_tail, nested, preceded, reconstruct_assert_with_tail,
    reconstruct_assign_with_tail, reconstruct_block, reconstruct_block_statements,
    reconstruct_conditional_with_tail, reconstruct_definition_with_tail, reconstruct_otherwise,
    reconstruct_statement, reconstruct_statement_with_tail,
};
use crate::storage_lowering::emit_resume::statement_of;
use crate::storage_lowering::statements::LoweredStatement;
use crate::storage_lowering::visitor::{ran, StorageLoweringVisitor};
use std::rc::Rc;
use vstd::prelude::*;

verus! {

/// The block that lowering a block gave, without the statements that have to run before it.
pub open spec fn only_block(result: Result<(Block, List<Statement>), Halt>) -> Result<Block, Halt> {
    match result {
        Ok((block, _)) => Ok(block),
        Err(halt) => Err(halt),
    }
}

impl StorageLoweringVisitor {
    /// Lowers a block. Nothing has to run before it.
    pub fn reconstruct_block(&mut self, block: &Block) -> (r: Result<
        (Block, List<Statement>),
        Halt,
    >)
        ensures
            r matches Ok((_, before)) ==> before == List::<Statement>::Nil,
            ran(
                *old(self),
                *final(self),
                only_block(r),
                reconstruct_block(old(self).cx(), usize::MAX as nat, old(self).st(), *block),
            ),
            only_block(r) != Err::<Block, Halt>(Halt::Depth) ==> ran(
                *old(self),
                *final(self),
                only_block(r),
                block_lowering(old(self).cx(), old(self).st(), *block),
            ),
    {
        proof {
            if reconstruct_block(self.cx(), usize::MAX as nat, self.st(), *block) != Err::<
                (State, Block),
                Halt,
            >(Halt::Depth) {
                blocks_need_no_limit(self.cx(), usize::MAX as nat, self.st(), *block);
            }
        }
        let lowered = self.nested_block(usize::MAX, block)?;
        Ok((lowered, List::Nil))
    }

    /// Lowers `statements` in order.
    pub fn reconstruct_block_statements(&mut self, statements: &List<Statement>) -> (r: Result<
        List<Statement>,
        Halt,
    >)
        ensures
            ran(
                *old(self),
                *final(self),
                r,
                reconstruct_block_statements(
                    old(self).cx(),
                    usize::MAX as nat,
                    old(self).st(),
                    *statements,
                ),
            ),
            r != Err::<List<Statement>, Halt>(Halt::Depth) ==> ran(
                *old(self),
                *final(self),
                r,
                statements_lowering(old(self).cx(), old(self).st(), *statements),
            ),
    {
        proof {
            if reconstruct_block_statements(
                self.cx(),
                usize::MAX as nat,
                self.st(),
                *statements,
            ) != Err::<(State, List<Statement>), Halt>(Halt::Depth) {
                statements_need_no_limit(self.cx(), usize::MAX as nat, self.st(), statements);
            }
        }
        self.lower_statements(usize::MAX, statements)
    }

    /// Lowers a statement by itself.
    pub fn reconstruct_statement(&mut self, statement: &Statement) -> (r: Result<
        LoweredStatement,
        Halt,
    >)
        ensures
            ran(
                *old(self),
                *final(self),
                r,
                reconstruct_statement(
                    old(self).cx(),
                    usize::MAX as nat,
                    old(self).st(),
                    *statement,
                ),
            ),
            r != Err::<LoweredStatement, Halt>(Halt::Depth) ==> ran(
                *old(self),
                *final(self),
                r,
                statement_lowering(old(self).cx(), old(self).st(), *statement),
            ),
    {
        proof {
            if reconstruct_statement(self.cx(), usize::MAX as nat, self.st(), *statement) != Err::<
                (State, LoweredStatement),
                Halt,
            >(Halt::Depth) {
                statement_needs_no_limit(self.cx(), usize::MAX as nat, self.st(), *statement);
            }
        }
        self.lower_statement(usize::MAX, statement)
    }

    /// Lowers `statements`, which stand inside something that is being lowered.
    pub(crate) fn nested(&mut self, depth: usize, statements: &List<Statement>) -> (r: Result<
        List<Statement>,
        Halt,
    >)
        ensures
            ran(
                *old(self),
                *final(self),
                r,
                nested(old(self).cx(), depth as nat, old(self).st(), *statements),
            ),
        decreases depth, 1int, *statements,
    {
        proof {
            reveal(nested);
            reveal(reconstruct_block_statements);
        }
        if depth == 0 {
            return Err(Halt::Depth);
        }
        self.lower_statements(depth - 1, statements)
    }

    /// `statement`, followed by `tail`.
    pub(crate) fn statement_then_tail(
        &mut self,
        depth: usize,
        statement: Statement,
        tail: &List<Statement>,
    ) -> (r: Result<List<Statement>, Halt>)
        ensures
            ran(
                *old(self),
                *final(self),
                r,
                preceded(
                    one(statement),
                    nested(old(self).cx(), depth as nat, old(self).st(), *tail),
                ),
            ),
        decreases depth, 2int, *tail,
    {
        let more = self.nested(depth, tail)?;
        Ok(List::one(statement).append(&more))
    }

    /// Lowers `statements` in order, steps nesting no deeper than `depth`.
    pub fn lower_statements(&mut self, depth: usize, statements: &List<Statement>) -> (r: Result<
        List<Statement>,
        Halt,
    >)
        ensures
            ran(
                *old(self),
                *final(self),
                r,
                reconstruct_block_statements(
                    old(self).cx(),
                    depth as nat,
                    old(self).st(),
                    *statements,
                ),
            ),
        decreases depth, 8int, *statements,
    {
        proof {
            reveal(reconstruct_block_statements);
            reveal(reconstruct_statement);
            reveal(reconstruct_statement_with_tail);
        }
        match statements {
            List::Nil => Ok(List::Nil),
            List::Cons(first, rest) => if self.statement_requires_tail_cps(first) {
                self.reconstruct_statement_with_tail(depth, first, rest)
            } else {
                let (statement, before) = self.lower_statement(depth, first)?;
                let more = self.lower_statements(depth, rest)?;
                Ok(before.push(statement).append(&more))
            },
        }
    }

    pub(crate) fn nested_block(&mut self, depth: usize, block: &Block) -> (r: Result<Block, Halt>)
        ensures
            ran(
                *old(self),
                *final(self),
                r,
                reconstruct_block(old(self).cx(), depth as nat, old(self).st(), *block),
            ),
        decreases depth, 2int, *block,
    {
        proof {
            reveal(reconstruct_block);
            reveal(nested);
        }
        let statements = self.nested(depth, &block.statements)?;
        let id: NodeId = self.state.take_id();
        Ok(Block { statements, span: block.span, id })
    }

    /// Lowers the branch that is taken if a condition does not hold.
    pub(crate) fn reconstruct_otherwise_statement(
        &mut self,
        depth: usize,
        otherwise: &Option<Statement>,
    ) -> (r: Result<Option<Statement>, Halt>)
        ensures
            ran(
                *old(self),
                *final(self),
                r,
                reconstruct_otherwise(old(self).cx(), depth as nat, old(self).st(), *otherwise),
            ),
        decreases depth, 8int, *otherwise,
    {
        proof {
            reveal(reconstruct_otherwise);
            reveal(reconstruct_statement_with_tail);
        }
        match otherwise {
            None => Ok(None),
            Some(statement) => {
                let statements = self.reconstruct_statement_with_tail(
                    depth,
                    statement,
                    &List::Nil,
                )?;
                Ok(Some(self.as_statement(statements)))
            },
        }
    }

    fn lower_statement(&mut self, depth: usize, statement: &Statement) -> (r: Result<
        LoweredStatement,
        Halt,
    >)
        ensures
            ran(
                *old(self),
                *final(self),
                r,
                reconstruct_statement(old(self).cx(), depth as nat, old(self).st(), *statement),
            ),
        decreases depth, 7int, *statement,
    {
        proof {
            reveal(reconstruct_statement);
            reveal(reconstruct_block);
            reveal(reconstruct_conditional_with_tail);
        }
        match statement {
            Statement::Assert(input) => self.reconstruct_assert(input),
            Statement::Assign(input) => self.reconstruct_assign(input),
            Statement::Block(block) => {
                let block = self.nested_block(depth, block)?;
                Ok((Statement::Block(Rc::new(block)), List::Nil))
            },
            Statement::Conditional(input) => {
                let statements = self.reconstruct_conditional_with_tail(depth, input, &List::Nil)?;
                Self::split_emitted_statement(&statements)
            },
            Statement::Const(input) => self.reconstruct_const(input),
            Statement::Definition(input) => self.reconstruct_definition(input),
            Statement::Expression(input) => self.reconstruct_expression_statement(input),
            Statement::Iteration(_) => Err(Halt::IllFormed),
            Statement::Return(input) => self.reconstruct_return(input),
        }
    }

    /// Lowers `statement` together with the statements that follow it.
    pub(crate) fn reconstruct_statement_with_tail(
        &mut self,
        depth: usize,
        statement: &Statement,
        tail: &List<Statement>,
    ) -> (r: Result<List<Statement>, Halt>)
        ensures
            ran(
                *old(self),
                *final(self),
                r,
                reconstruct_statement_with_tail(
                    old(self).cx(),
                    depth as nat,
                    old(self).st(),
                    *statement,
                    *tail,
                ),
            ),
        decreases depth, 7int, *statement,
    {
        proof {
            reveal(reconstruct_statement_with_tail);
            reveal(reconstruct_assert_with_tail);
            reveal(reconstruct_assign_with_tail);
            reveal(reconstruct_block);
            reveal(nested);
            reveal(reconstruct_conditional_with_tail);
            reveal(emit);
            reveal(reconstruct_definition_with_tail);
            reveal(emitted_then_tail);
        }
        match statement {
            Statement::Assert(input) => self.reconstruct_assert_with_tail(depth, input, tail),
            Statement::Assign(input) => self.reconstruct_assign_with_tail(depth, input, tail),
            Statement::Block(block) => {
                let block = self.nested_block(depth, block)?;
                self.statement_then_tail(depth, Statement::Block(Rc::new(block)), tail)
            },
            Statement::Conditional(input) => self.reconstruct_conditional_with_tail(
                depth,
                input,
                tail,
            ),
            Statement::Const(input) => {
                let (type_, statements) = self.reconstruct_type(&input.type_)?;
                let frame = StatementFrame::Const {
                    input: input.clone(),
                    type_,
                    tail: tail.share(),
                };
                let more = self.emit_expression_with_continuation(
                    depth,
                    &input.value,
                    statement_of(frame),
                )?;
                Ok(statements.append(&more))
            },
            Statement::Definition(input) => self.reconstruct_definition_with_tail(
                depth,
                input,
                tail,
            ),
            Statement::Expression(input) => {
                let keep = !expression_can_be_discarded(&input.expression, &self.state);
                let frame = StatementFrame::Expression { keep, span: input.span };
                let emitted = self.emit_expression_with_continuation(
                    depth,
                    &input.expression,
                    statement_of(frame),
                )?;
                self.emitted_statements_then_tail(depth, emitted, tail)
            },
            Statement::Iteration(input) => {
                let type_ = self.reconstruct_given_type(&input.type_)?;
                let frame = StatementFrame::IterationStart { input: input.clone(), type_ };
                let emitted = self.emit_expression_with_continuation(
                    depth,
                    &input.start,
                    statement_of(frame),
                )?;
                self.emitted_statements_then_tail(depth, emitted, tail)
            },
            Statement::Return(input) => {
                let frame = StatementFrame::Return { span: input.span };
                self.emit_expression_with_continuation(
                    depth,
                    &input.expression,
                    statement_of(frame),
                )
            },
        }
    }

    /// What was emitted, followed by `tail`.
    fn emitted_statements_then_tail(
        &mut self,
        depth: usize,
        statements: List<Statement>,
        tail: &List<Statement>,
    ) -> (r: Result<List<Statement>, Halt>)
        ensures
            ran(
                *old(self),
                *final(self),
                r,
                emitted_then_tail(
                    old(self).cx(),
                    depth as nat,
                    Ok((old(self).st(), statements)),
                    *tail,
                ),
            ),
        decreases depth, 2int, *tail,
    {
        proof {
            reveal(emitted_then_tail);
            reveal(nested);
        }
        let more = self.nested(depth, tail)?;
        Ok(statements.append(&more))
    }

    fn reconstruct_assert_with_tail(
        &mut self,
        depth: usize,
        input: &AssertStatement,
        tail: &List<Statement>,
    ) -> (r: Result<List<Statement>, Halt>)
        ensures
            ran(
                *old(self),
                *final(self),
                r,
                reconstruct_assert_with_tail(
                    old(self).cx(),
                    depth as nat,
                    old(self).st(),
                    *input,
                    *tail,
                ),
            ),
        decreases depth, 6int, *input,
    {
        proof {
            reveal(reconstruct_assert_with_tail);
            reveal(emit);
            reveal(emitted_then_tail);
        }
        let span = input.span;
        let emitted = match &input.variant {
            AssertVariant::Assert(expression) => self.emit_expression_with_continuation(
                depth,
                expression,
                statement_of(StatementFrame::Assert { span }),
            )?,
            AssertVariant::AssertEq(left, right) => self.emit_expression_with_continuation(
                depth,
                left,
                statement_of(
                    StatementFrame::AssertLeft { equal: true, right: right.share(), span },
                ),
            )?,
            AssertVariant::AssertNeq(left, right) => self.emit_expression_with_continuation(
                depth,
                left,
                statement_of(
                    StatementFrame::AssertLeft { equal: false, right: right.share(), span },
                ),
            )?,
        };
        self.emitted_statements_then_tail(depth, emitted, tail)
    }

    fn reconstruct_assign_with_tail(
        &mut self,
        depth: usize,
        input: &AssignStatement,
        tail: &List<Statement>,
    ) -> (r: Result<List<Statement>, Halt>)
        ensures
            ran(
                *old(self),
                *final(self),
                r,
                reconstruct_assign_with_tail(
                    old(self).cx(),
                    depth as nat,
                    old(self).st(),
                    *input,
                    *tail,
                ),
            ),
        decreases depth, 6int, *input,
    {
        proof {
            reveal(reconstruct_assign_with_tail);
            reveal(emit);
            reveal(emit_assign_place);
            reveal(emitted_then_tail);
        }
        let emitted = match self.written_storage(&input.place)? {
            Some(name) => {
                let mapping = self.state.suffixed_symbol(name, "__");
                let frame = StatementFrame::StorageValue { mapping, span: input.span };
                self.emit_expression_with_continuation(depth, &input.value, statement_of(frame))?
            },
            None => {
                let frame = StatementFrame::AssignPlace {
                    value: input.value.share(),
                    span: input.span,
                };
                self.emit_assign_place_with_continuation(
                    depth,
                    &input.place,
                    statement_of(frame),
                )?
            },
        };
        self.emitted_statements_then_tail(depth, emitted, tail)
    }

    fn reconstruct_conditional_with_tail(
        &mut self,
        depth: usize,
        input: &Rc<ConditionalStatement>,
        tail: &List<Statement>,
    ) -> (r: Result<List<Statement>, Halt>)
        ensures
            ran(
                *old(self),
                *final(self),
                r,
                reconstruct_conditional_with_tail(
                    old(self).cx(),
                    depth as nat,
                    old(self).st(),
                    **input,
                    *tail,
                ),
            ),
        decreases depth, 6int, *input,
    {
        proof {
            reveal(reconstruct_conditional_with_tail);
            reveal(emit);
            reveal(emitted_then_tail);
        }
        let frame = StatementFrame::Conditional { input: input.clone() };
        let emitted = self.emit_expression_with_continuation(
            depth,
            &input.condition,
            statement_of(frame),
        )?;
        self.emitted_statements_then_tail(depth, emitted, tail)
    }

    fn reconstruct_definition_with_tail(
        &mut self,
        depth: usize,
        input: &Rc<DefinitionStatement>,
        tail: &List<Statement>,
    ) -> (r: Result<List<Statement>, Halt>)
        ensures
            ran(
                *old(self),
                *final(self),
                r,
                reconstruct_definition_with_tail(
                    old(self).cx(),
                    depth as nat,
                    old(self).st(),
                    **input,
                    *tail,
                ),
            ),
        decreases depth, 6int, *input,
    {
        proof {
            reveal(reconstruct_definition_with_tail);
            reveal(emit);
            reveal(emitted_then_tail);
        }
        let type_ = self.reconstruct_given_type(&input.type_)?;
        match &input.place {
            DefinitionPlace::Single(identifier) => {
                let (branch_tail, remaining_tail) = Self::split_tail_after_last_local_use(
                    tail,
                    identifier.name,
                );
                let frame = StatementFrame::Definition {
                    input: input.clone(),
                    type_,
                    tail: branch_tail,
                };
                let emitted = self.emit_expression_with_continuation(
                    depth,
                    &input.value,
                    statement_of(frame),
                )?;
                self.emitted_statements_then_tail(depth, emitted, &remaining_tail)
            },
            DefinitionPlace::Multiple(_) => {
                let frame = StatementFrame::Definition {
                    input: input.clone(),
                    type_,
                    tail: tail.share(),
                };
                self.emit_expression_with_continuation(depth, &input.value, statement_of(frame))
            },
        }
    }
}

} // verus!
