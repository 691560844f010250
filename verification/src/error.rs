//! The error kinds that the fallible operations of this crate distinguish.
use vstd::prelude::*;

verus! {

/// Why an operation on a module or a runtime was refused.
#[derive(Clone, Copy, Debug, PartialEq, Eq, Structural)]
pub enum Error {
    /// The module's byte length does not fit the engine's 32-bit length.
    ModuleTooLarge,
    /// No function of the requested name or index exists.
    FunctionNotFound,
    /// The slot's declared signature differs from the contract in arity or type.
    SignatureMismatch,
    /// The engine could not hand out a code page.
    OutOfMemory,
    /// The token was used with a runtime that it was not loaded into.
    RuntimeMismatch,
    /// An error that the engine reported, by its code.
    Engine(u32),
}

} // verus!
