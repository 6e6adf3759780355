//! Lowering of types.
use crate::ast::{
    ArrayType, CompositeType, FutureType, MappingType, ModedType, Statement, Type, TypeParameter,
};
use crate::list::{List, Share};
use crate::state::Halt;
use crate::storage_lowering::reconstruct::{
    reconstruct_expression, reconstruct_list, reconstruct_moded_types, reconstruct_type,
    reconstruct_type_parameters, reconstruct_types,
};
use crate::storage_lowering::visitor::{ran, StorageLoweringVisitor};
use std::rc::Rc;
use vstd::prelude::*;

verus! {

impl StorageLoweringVisitor {
    /// What a type is lowered to, and the statements that the lengths and const arguments in it
    /// need.
    pub fn reconstruct_type(&mut self, type_: &Type) -> (r: Result<(Type, List<Statement>), Halt>)
        ensures
            ran(
                *old(self),
                *final(self),
                r,
                reconstruct_type(old(self).cx(), old(self).st(), *type_),
            ),
        decreases *type_, 0int,
    {
        proof {
            reveal(reconstruct_type);
            reveal(reconstruct_expression);
            reveal(reconstruct_list);
            reveal(reconstruct_types);
        }
        match type_ {
            Type::Array(array) => {
                let (length, statements) = self.reconstruct_expression(&array.length)?;
                let (element_type, _) = self.reconstruct_type(&array.element_type)?;
                Ok((Type::Array(Rc::new(ArrayType { element_type, length })), statements))
            },
            Type::Composite(composite) => {
                let (const_arguments, statements) = self.reconstruct_list(
                    &composite.const_arguments,
                )?;
                Ok(
                    (
                        Type::Composite(
                            Rc::new(
                                CompositeType { path: composite.path.clone(), const_arguments },
                            ),
                        ),
                        statements,
                    ),
                )
            },
            Type::Future(future) => {
                let inputs = self.reconstruct_types(&future.inputs)?;
                let location = match &future.location {
                    Some(location) => Some(location.clone()),
                    None => None,
                };
                Ok((Type::Future(Rc::new(FutureType { inputs, location })), List::Nil))
            },
            Type::Mapping(mapping) => {
                let (key, _) = self.reconstruct_type(&mapping.key)?;
                let (value, _) = self.reconstruct_type(&mapping.value)?;
                Ok((Type::Mapping(Rc::new(MappingType { key, value })), List::Nil))
            },
            Type::Optional(inner) => {
                let (inner, _) = self.reconstruct_type(inner)?;
                Ok((Type::Optional(Rc::new(inner)), List::Nil))
            },
            Type::Tuple(elements) => {
                let elements = self.reconstruct_types(elements)?;
                Ok((Type::Tuple(Rc::new(elements)), List::Nil))
            },
            Type::Vector(element) => {
                let (element, _) = self.reconstruct_type(element)?;
                Ok((Type::Vector(Rc::new(element)), List::Nil))
            },
            _ => Ok((type_.share(), List::Nil)),
        }
    }

    pub(crate) fn reconstruct_types(&mut self, types: &List<Type>) -> (r: Result<List<Type>, Halt>)
        ensures
            ran(
                *old(self),
                *final(self),
                r,
                reconstruct_types(old(self).cx(), old(self).st(), *types),
            ),
        decreases *types, 0int,
    {
        proof {
            reveal(reconstruct_types);
            reveal(reconstruct_type);
        }
        match types {
            List::Nil => Ok(List::Nil),
            List::Cons(first, rest) => {
                let (first, _) = self.reconstruct_type(first)?;
                let rest = self.reconstruct_types(rest)?;
                Ok(List::cons(first, rest))
            },
        }
    }

    pub(crate) fn reconstruct_type_parameters(
        &mut self,
        parameters: &List<TypeParameter>,
    ) -> (r: Result<
        List<TypeParameter>,
        Halt,
    >)
        ensures
            ran(
                *old(self),
                *final(self),
                r,
                reconstruct_type_parameters(old(self).cx(), old(self).st(), *parameters),
            ),
        decreases *parameters, 0int,
    {
        proof {
            reveal(reconstruct_type_parameters);
            reveal(reconstruct_type);
        }
        match parameters {
            List::Nil => Ok(List::Nil),
            List::Cons(first, rest) => {
                let (type_, _) = self.reconstruct_type(&first.type_)?;
                let rest = self.reconstruct_type_parameters(rest)?;
                Ok(List::cons(TypeParameter { type_, span: first.span }, rest))
            },
        }
    }

    pub(crate) fn reconstruct_moded_types(&mut self, types: &List<ModedType>) -> (r: Result<
        List<ModedType>,
        Halt,
    >)
        ensures
            ran(
                *old(self),
                *final(self),
                r,
                reconstruct_moded_types(old(self).cx(), old(self).st(), *types),
            ),
        decreases *types, 0int,
    {
        proof {
            reveal(reconstruct_moded_types);
            reveal(reconstruct_type);
        }
        match types {
            List::Nil => Ok(List::Nil),
            List::Cons(first, rest) => {
                let (type_, _) = self.reconstruct_type(&first.type_)?;
                let rest = self.reconstruct_moded_types(rest)?;
                Ok(List::cons(ModedType { mode: first.mode, type_, span: first.span }, rest))
            },
        }
    }
}

} // verus!
