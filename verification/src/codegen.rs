//! Interfaces toward the code generator that consumes the trees this front
//! end builds. Lowering a tree into a target representation is the work of an
//! external collaborator; these traits only fix the shape of the hand-off.

use vstd::prelude::*;

use crate::ast::GenericAst;

verus! {

/// A generator that lowers one node within a generation context.
pub trait IRGenerator<C, T> {
    fn generate(&self, context: &mut C) -> T;
}

/// A generator that consumes a whole batch of parsed statements.
pub trait CodeGenerator {
    type Item;

    type AstContainer;

    fn generate(&self, container: Self::AstContainer) -> Result<(), String>;
}

/// Drives a code generator over the statements handed to `compile`.
pub struct Compiler<Generator: CodeGenerator> {
    generator: Generator,
}

impl<Generator: CodeGenerator> Compiler<Generator> {
    pub fn new(generator: Generator) -> Compiler<Generator> {
        Compiler { generator }
    }

    pub fn compile(&self, asts: Generator::AstContainer) -> Result<(), String> {
        self.generator.generate(asts)
    }
}

/// The hand-off point toward a backend for the machine-level representation;
/// nothing is generated in this crate.
pub struct CodeGeneratorLLVM;

impl CodeGenerator for CodeGeneratorLLVM {
    type Item = GenericAst;

    type AstContainer = Vec<GenericAst>;

    fn generate(&self, asts: Vec<GenericAst>) -> (r: Result<(), String>)
        ensures
            r is Err,
    {
        Err(String::new())
    }
}

} // verus!
