//! Compilation units: programs, libraries, modules and the items they hold.
use crate::ast::{Block, ConstDeclaration, Identifier, ProgramId, Symbol, Type};
use crate::list::{List, Share};
use std::rc::Rc;
use vstd::prelude::*;

verus! {

/// What kind of function a function is.
#[derive(Clone, Copy, Debug, PartialEq, Eq, Structural)]
pub enum Variant {
    /// A function that only this program calls.
    Fn,
    /// A function that users call.
    EntryPoint,
    /// The on-chain half of an entry point.
    Finalize,
    /// A function that is inlined into the on-chain half.
    FinalFn,
    /// A function that only reads storage.
    View,
}

impl Variant {
    pub fn is_entry(self) -> (r: bool)
        ensures
            r == (self is EntryPoint),
    {
        matches!(self, Variant::EntryPoint)
    }
}

#[derive(Clone, Copy, Debug, PartialEq, Eq, Structural)]
pub struct Annotation {
    pub identifier: Identifier,
}

/// A name with its type: a parameter, a member of a composite, a storage variable.
#[derive(Debug, PartialEq, Eq)]
pub struct Member {
    pub identifier: Identifier,
    pub type_: Type,
}

impl Share for Member {
    fn share(&self) -> (r: Self) {
        Member { identifier: self.identifier, type_: self.type_.share() }
    }
}

#[derive(Debug, PartialEq, Eq)]
pub struct Function {
    pub annotations: List<Annotation>,
    pub variant: Variant,
    pub identifier: Identifier,
    pub const_parameters: List<Member>,
    pub input: List<Member>,
    pub output: List<Type>,
    pub output_type: Type,
    pub block: Block,
}

#[derive(Debug, PartialEq, Eq)]
pub struct Constructor {
    pub annotations: List<Annotation>,
    pub block: Block,
}

/// A struct or a record.
#[derive(Debug, PartialEq, Eq)]
pub struct Composite {
    pub identifier: Identifier,
    pub const_parameters: List<Member>,
    pub members: List<Member>,
    pub is_record: bool,
}

#[derive(Debug, PartialEq, Eq)]
pub struct Mapping {
    pub identifier: Identifier,
    pub key_type: Type,
    pub value_type: Type,
}

#[derive(Debug, PartialEq, Eq)]
pub struct FunctionPrototype {
    pub identifier: Identifier,
    pub const_parameters: List<Member>,
    pub input: List<Member>,
    pub output: List<Type>,
    pub output_type: Type,
}

#[derive(Debug, PartialEq, Eq)]
pub struct Interface {
    pub identifier: Identifier,
    pub functions: List<FunctionPrototype>,
    pub mappings: List<Mapping>,
    pub storages: List<Member>,
}

#[derive(Debug, PartialEq, Eq)]
pub struct ProgramScope {
    pub program_id: ProgramId,
    pub consts: List<ConstDeclaration>,
    pub composites: List<Composite>,
    pub interfaces: List<Interface>,
    pub mappings: List<Mapping>,
    pub storage_variables: List<Member>,
    pub functions: List<Function>,
    pub constructor: Option<Constructor>,
}

#[derive(Debug, PartialEq, Eq)]
pub struct Module {
    /// The program or library that the module belongs to.
    pub unit_name: Symbol,
    pub path: List<Symbol>,
    pub consts: List<ConstDeclaration>,
    pub composites: List<Composite>,
    pub interfaces: List<Interface>,
    pub functions: List<Function>,
}

/// `import program.aleo;`
#[derive(Clone, Copy, Debug, PartialEq, Eq, Structural)]
pub struct Import {
    pub name: Symbol,
    pub program_id: ProgramId,
}

#[derive(Debug, PartialEq, Eq)]
pub struct Program {
    pub imports: List<Import>,
    pub program_scopes: List<ProgramScope>,
    pub modules: List<Module>,
}

#[derive(Debug, PartialEq, Eq)]
pub struct Library {
    pub name: Symbol,
    pub consts: List<ConstDeclaration>,
    pub structs: List<Composite>,
    pub functions: List<Function>,
    pub interfaces: List<Interface>,
    pub modules: List<Module>,
}

#[derive(Debug, PartialEq, Eq)]
pub enum Ast {
    Program(Rc<Program>),
    Library(Rc<Library>),
}

} // verus!
