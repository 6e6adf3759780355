//! The visitor that lowers storage, what it knows of the program, and the types of expressions.
use crate::ast::{
    BinaryOperation, Expression, IntegerType, Intrinsic, IntrinsicExpression, LiteralVariant,
    Location, MappingType, NodeId, Path, Symbol, Type, TypeParameter,
};
use crate::collections::{mappings_get, mappings_in, mappings_insert, mappings_new, MappingTable};
use crate::list::{List, Share};
use crate::state::{global_in, location_key, with_type, CompilerState, Halt, State, SymbolTable};
use crate::units::Mapping;
use indexmap::IndexMap;
use std::rc::Rc;
use vstd::prelude::*;

verus! {

/// What lowering knows of the program and never changes.
#[verifier::ext_equal]
pub struct Context {
    pub program: Symbol,
    pub table: SymbolTable,
    pub mappings: MappingTable,
}

/// Lowers reads and writes of storage to operations on mappings.
#[derive(Debug)]
pub struct StorageLoweringVisitor {
    pub state: CompilerState,
    /// The program that is being lowered.
    pub program: Symbol,
    /// The mappings that lowering adds to the program, each under its location.
    pub new_mappings: IndexMap<Vec<usize>, Mapping>,
}

/// What a step gives: the state after it and its result, or why it gave up.
pub type Step<T> = Result<(State, T), Halt>;

impl StorageLoweringVisitor {
    pub open spec fn cx(&self) -> Context {
        Context {
            program: self.program,
            table: *self.state.symbol_table,
            mappings: mappings_in(self.new_mappings),
        }
    }

    pub open spec fn st(&self) -> State {
        self.state@
    }

    /// The visitor of `program`, before any mapping is added.
    pub fn new(state: CompilerState, program: Symbol) -> (r: StorageLoweringVisitor)
        ensures
            r.st() == state@,
            r.cx() == (Context {
                program,
                table: *state.symbol_table,
                mappings: MappingTable::empty(),
            }),
    {
        StorageLoweringVisitor { state, program, new_mappings: mappings_new() }
    }

    /// Adds `mapping` at `location`.
    pub fn add_mapping(&mut self, location: &Location, mapping: Mapping)
        ensures
            final(self).st() == old(self).st(),
            final(self).cx() == (Context {
                mappings: old(self).cx().mappings.insert(location_key(*location), mapping),
                ..old(self).cx()
            }),
    {
        mappings_insert(&mut self.new_mappings, location.key(), mapping);
    }
}

/// Whether a step that started in `before` and gave `result` in `after` did what `expected` says.
/// After a failure nothing is said of the state.
pub open spec fn ran<T>(
    before: StorageLoweringVisitor,
    after: StorageLoweringVisitor,
    result: Result<T, Halt>,
    expected: Step<T>,
) -> bool {
    &&& after.cx() == before.cx()
    &&& match (result, expected) {
        (Ok(value), Ok((state, wanted))) => value == wanted && after.st() == state,
        (Err(halt), Err(wanted)) => halt == wanted,
        _ => false,
    }
}

/* The types of expressions */

/// Whether `op` compares or combines truth values, whatever its operands are.
pub open spec fn is_boolean_operation(op: BinaryOperation) -> bool {
    match op {
        BinaryOperation::And => true,
        BinaryOperation::Eq => true,
        BinaryOperation::Gte => true,
        BinaryOperation::Gt => true,
        BinaryOperation::Lte => true,
        BinaryOperation::Lt => true,
        BinaryOperation::Nand => true,
        BinaryOperation::Neq => true,
        BinaryOperation::Nor => true,
        BinaryOperation::Or => true,
        _ => false,
    }
}

/// The type of `left op right`, from the types of its operands.
pub open spec fn binary_type(
    op: BinaryOperation,
    left: Option<Type>,
    right: Option<Type>,
) -> Option<Type> {
    if is_boolean_operation(op) {
        Some(Type::Boolean)
    } else if left is Some {
        left
    } else {
        right
    }
}

/// The type of a ternary, from the types of its arms. With a literal `none` in one arm it is the
/// optional of the other arm's type.
pub open spec fn ternary_type(
    if_true: Option<Type>,
    if_false: Option<Type>,
    true_is_none: bool,
    false_is_none: bool,
) -> Option<Type> {
    if if_true is Some && false_is_none {
        Some(Type::Optional(Rc::new(if_true->0)))
    } else if if_false is Some && true_is_none {
        Some(Type::Optional(Rc::new(if_false->0)))
    } else if if_true is Some {
        if_true
    } else {
        if_false
    }
}

pub open spec fn literal_type(variant: LiteralVariant) -> Option<Type> {
    match variant {
        LiteralVariant::Address(_) => Some(Type::Address),
        LiteralVariant::Boolean(_) => Some(Type::Boolean),
        LiteralVariant::Field(_) => Some(Type::Field),
        LiteralVariant::Group(_) => Some(Type::Group),
        LiteralVariant::Identifier(_) => Some(Type::Identifier),
        LiteralVariant::Integer(integer, _) => Some(Type::Integer(integer)),
        LiteralVariant::Absent => None,
        LiteralVariant::Scalar(_) => Some(Type::Scalar),
        LiteralVariant::Signature(_) => Some(Type::Signature),
        LiteralVariant::String(_) => Some(Type::String),
        LiteralVariant::Unsuffixed(_) => Some(Type::Integer(IntegerType::U32)),
    }
}

/// The type of the variable that `path` stands for: what is known of the node, else the mapping
/// that lowering added there, else what the symbol table says.
pub open spec fn path_type(cx: Context, types: Map<NodeId, Type>, path: Path) -> Option<Type> {
    if types.contains_key(path.id) {
        Some(types[path.id])
    } else {
        match path.spec_try_global_location() {
            None => None,
            Some(location) => {
                let key = location_key(location);
                if cx.mappings.contains_key(key) {
                    Some(
                        Type::Mapping(
                            Rc::new(
                                MappingType {
                                    key: cx.mappings[key].key_type,
                                    value: cx.mappings[key].value_type,
                                },
                            ),
                        ),
                    )
                } else {
                    match global_in(cx.table.globals, cx.program, location) {
                        Some(type_) => type_,
                        None => None,
                    }
                }
            },
        }
    }
}

/// The type of a mapping's values.
pub open spec fn value_type(type_: Option<Type>) -> Option<Type> {
    match type_ {
        Some(Type::Mapping(mapping)) => Some(mapping.value),
        _ => None,
    }
}

/// The type that `expression` has where its value is bound to a name.
#[verifier::opaque]
pub open spec fn expression_type_for_materialization(
    cx: Context,
    types: Map<NodeId, Type>,
    expression: Expression,
) -> Option<Type>
    decreases expression,
{
    if types.contains_key(expression.spec_id()) {
        Some(types[expression.spec_id()])
    } else {
        match expression {
            Expression::Binary(input) => binary_type(
                input.op,
                expression_type_for_materialization(cx, types, input.left),
                expression_type_for_materialization(cx, types, input.right),
            ),
            Expression::Intrinsic(input) => match input.op {
                Intrinsic::MappingGet => match input.arguments {
                    List::Nil => None,
                    List::Cons(mapping, _) => value_type(
                        expression_type_for_materialization(cx, types, mapping),
                    ),
                },
                Intrinsic::MappingGetOrUse => match input.arguments {
                    List::Nil => None,
                    List::Cons(mapping, rest) => {
                        let held = value_type(
                            expression_type_for_materialization(cx, types, mapping),
                        );
                        if held is Some {
                            held
                        } else {
                            match *rest {
                                List::Nil => None,
                                List::Cons(_, rest) => match *rest {
                                    List::Nil => None,
                                    List::Cons(
                                        default,
                                        _,
                                    ) => expression_type_for_materialization(cx, types, default),
                                },
                            }
                        }
                    },
                },
                Intrinsic::MappingContains => Some(Type::Boolean),
                Intrinsic::DynamicContains => Some(Type::Boolean),
                Intrinsic::MappingSet => Some(Type::Unit),
                Intrinsic::MappingRemove => Some(Type::Unit),
                Intrinsic::DynamicGet => first_type(input.type_parameters),
                Intrinsic::DynamicGetOrUse => first_type(input.type_parameters),
                _ => None,
            },
            Expression::Literal(input) => literal_type(input.variant),
            Expression::Path(input) => path_type(cx, types, *input),
            Expression::Ternary(input) => ternary_type(
                expression_type_for_materialization(cx, types, input.if_true),
                expression_type_for_materialization(cx, types, input.if_false),
                input.if_true.is_none_literal(),
                input.if_false.is_none_literal(),
            ),
            _ => None,
        }
    }
}

/// The first type parameter.
pub open spec fn first_type(parameters: List<TypeParameter>) -> Option<Type> {
    match parameters {
        List::Nil => None,
        List::Cons(parameter, _) => Some(parameter.type_),
    }
}

/// The type of the values of the mapping that `expression` stands for.
pub open spec fn mapping_value_type(
    cx: Context,
    types: Map<NodeId, Type>,
    expression: Expression,
) -> Option<Type> {
    value_type(expression_type_for_materialization(cx, types, expression))
}

/// `state` with `id` known to have the type `type_`, if that is given.
pub open spec fn with_known_type(state: State, id: NodeId, type_: Option<Type>) -> State {
    match type_ {
        Some(type_) => with_type(state, id, type_),
        None => state,
    }
}

pub(crate) fn boolean_operation(op: BinaryOperation) -> (r: bool)
    ensures
        r == is_boolean_operation(op),
{
    matches!(
        op,
        BinaryOperation::And | BinaryOperation::Eq | BinaryOperation::Gte | BinaryOperation::Gt
            | BinaryOperation::Lte | BinaryOperation::Lt | BinaryOperation::Nand
            | BinaryOperation::Neq | BinaryOperation::Nor | BinaryOperation::Or
    )
}

pub(crate) fn type_of_ternary(
    if_true: Option<Type>,
    if_false: Option<Type>,
    true_is_none: bool,
    false_is_none: bool,
) -> (r: Option<Type>)
    ensures
        r == ternary_type(if_true, if_false, true_is_none, false_is_none),
{
    match (if_true, if_false) {
        (Some(type_), other) => if false_is_none {
            Some(Type::Optional(Rc::new(type_)))
        } else {
            match other {
                Some(other) => if true_is_none {
                    Some(Type::Optional(Rc::new(other)))
                } else {
                    Some(type_)
                },
                None => Some(type_),
            }
        },
        (None, Some(type_)) => if true_is_none {
            Some(Type::Optional(Rc::new(type_)))
        } else {
            Some(type_)
        },
        (None, None) => None,
    }
}

fn type_of_literal(variant: LiteralVariant) -> (r: Option<Type>)
    ensures
        r == literal_type(variant),
{
    match variant {
        LiteralVariant::Address(_) => Some(Type::Address),
        LiteralVariant::Boolean(_) => Some(Type::Boolean),
        LiteralVariant::Field(_) => Some(Type::Field),
        LiteralVariant::Group(_) => Some(Type::Group),
        LiteralVariant::Identifier(_) => Some(Type::Identifier),
        LiteralVariant::Integer(integer, _) => Some(Type::Integer(integer)),
        LiteralVariant::Absent => None,
        LiteralVariant::Scalar(_) => Some(Type::Scalar),
        LiteralVariant::Signature(_) => Some(Type::Signature),
        LiteralVariant::String(_) => Some(Type::String),
        LiteralVariant::Unsuffixed(_) => Some(Type::Integer(IntegerType::U32)),
    }
}

fn first_type_parameter(parameters: &List<TypeParameter>) -> (r: Option<Type>)
    ensures
        r == first_type(*parameters),
{
    match parameters {
        List::Nil => None,
        List::Cons(parameter, _) => Some(parameter.type_.share()),
    }
}

fn values_of(type_: Option<Type>) -> (r: Option<Type>)
    ensures
        r == value_type(type_),
{
    match type_ {
        Some(Type::Mapping(mapping)) => Some(mapping.value.share()),
        _ => None,
    }
}

impl StorageLoweringVisitor {
    /// The type that `expression` has where its value is bound to a name.
    pub fn expression_type_for_materialization(&self, expression: &Expression) -> (r: Option<Type>)
        ensures
            r == expression_type_for_materialization(self.cx(), self.st().types, *expression),
        decreases *expression,
    {
        proof {
            reveal(expression_type_for_materialization);
        }
        if let Some(type_) = self.state.get_type(expression.id()) {
            return Some(type_);
        }
        match expression {
            Expression::Binary(input) => if boolean_operation(input.op) {
                Some(Type::Boolean)
            } else {
                match self.expression_type_for_materialization(&input.left) {
                    Some(type_) => Some(type_),
                    None => self.expression_type_for_materialization(&input.right),
                }
            },
            Expression::Intrinsic(input) => self.intrinsic_type(input),
            Expression::Literal(input) => type_of_literal(input.variant),
            Expression::Path(input) => self.path_type(input),
            Expression::Ternary(input) => {
                let if_true = self.expression_type_for_materialization(&input.if_true);
                let if_false = self.expression_type_for_materialization(&input.if_false);
                type_of_ternary(
                    if_true,
                    if_false,
                    input.if_true.is_none_expr(),
                    input.if_false.is_none_expr(),
                )
            },
            _ => None,
        }
    }

    fn intrinsic_type(&self, input: &Rc<IntrinsicExpression>) -> (r: Option<Type>)
        requires
            !self.st().types.contains_key(input.id),
        ensures
            r == expression_type_for_materialization(
                self.cx(),
                self.st().types,
                Expression::Intrinsic(*input),
            ),
        decreases *input,
    {
        proof {
            reveal(expression_type_for_materialization);
        }
        match input.op {
            Intrinsic::MappingGet => match &input.arguments {
                List::Nil => None,
                List::Cons(mapping, _) => values_of(
                    self.expression_type_for_materialization(mapping),
                ),
            },
            Intrinsic::MappingGetOrUse => match &input.arguments {
                List::Nil => None,
                List::Cons(mapping, rest) => {
                    match values_of(self.expression_type_for_materialization(mapping)) {
                        Some(type_) => Some(type_),
                        None => match &**rest {
                            List::Nil => None,
                            List::Cons(_, rest) => match &**rest {
                                List::Nil => None,
                                List::Cons(default, _) => self.expression_type_for_materialization(
                                    default,
                                ),
                            },
                        },
                    }
                },
            },
            Intrinsic::MappingContains | Intrinsic::DynamicContains => Some(Type::Boolean),
            Intrinsic::MappingSet | Intrinsic::MappingRemove => Some(Type::Unit),
            Intrinsic::DynamicGet | Intrinsic::DynamicGetOrUse => first_type_parameter(
                &input.type_parameters,
            ),
            _ => None,
        }
    }

    /// The type of the variable that `path` stands for.
    pub fn path_type(&self, path: &Path) -> (r: Option<Type>)
        ensures
            r == path_type(self.cx(), self.st().types, *path),
    {
        if let Some(type_) = self.state.get_type(path.id) {
            return Some(type_);
        }
        match path.try_global_location() {
            None => None,
            Some(location) => {
                let key = location.key();
                match mappings_get(&self.new_mappings, &key) {
                    Some(mapping) => Some(
                        Type::Mapping(
                            Rc::new(
                                MappingType {
                                    key: mapping.key_type.share(),
                                    value: mapping.value_type.share(),
                                },
                            ),
                        ),
                    ),
                    None => match self.state.symbol_table.lookup_global(self.program, location) {
                        Some(type_) => type_,
                        None => None,
                    },
                }
            },
        }
    }

    /// The type of the values of the mapping that `expression` stands for.
    pub fn mapping_value_type(&self, expression: &Expression) -> (r: Option<Type>)
        ensures
            r == mapping_value_type(self.cx(), self.st().types, *expression),
    {
        values_of(self.expression_type_for_materialization(expression))
    }
}

} // verus!
