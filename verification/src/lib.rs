use vstd::prelude::*;

pub mod ast;
pub mod bytecode;
pub mod codegen;
pub mod grammar;
pub mod parsing;
pub mod pathexpr;
pub mod render;
pub mod store;
pub mod style;
pub mod symbols;
pub mod tok;
pub mod vm;

verus! {

/// How a whole compilation can fail, as its callers see it.
#[derive(Clone, Debug, PartialEq)]
pub enum CompileError {
    /// The source file could not be read; the message says why.
    IoError(String),
    ParseError,
    NameResolution(crate::symbols::ResolveError),
}

} // verus!
