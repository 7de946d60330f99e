//! Errors surfaced to callers of module compilation.
use vstd::prelude::*;

verus! {

/// The two ways in which producing a compiled module can fail.
///
/// A failed operation produces exactly one of them: reading the source never
/// reports a compilation failure, and the engine never reports a file one.
#[derive(Debug, Clone, PartialEq, Eq)]
pub enum RuntimeError {
    /// The source file could not be opened or read in full; carries the
    /// description of the operating system's failure.
    WasmFileFSError(String),
    /// The engine rejected the bytecode; carries its diagnostic, or a fixed
    /// fallback when the engine gave none.
    CompilationError(String),
}

impl RuntimeError {
    /// Whether this is a file access failure.
    pub fn is_file_error(&self) -> (r: bool)
        ensures
            r == (self is WasmFileFSError),
    {
        match self {
            RuntimeError::WasmFileFSError(_) => true,
            RuntimeError::CompilationError(_) => false,
        }
    }

    /// The text carried by the error.
    pub fn message(&self) -> (r: &String)
        ensures
            r@ == match self {
                RuntimeError::WasmFileFSError(m) => m@,
                RuntimeError::CompilationError(m) => m@,
            },
    {
        match self {
            RuntimeError::WasmFileFSError(m) => m,
            RuntimeError::CompilationError(m) => m,
        }
    }
}

} // verus!
