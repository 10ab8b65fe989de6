//! What can end a session without a result.

use crate::ownership::ConsistencyFault;
use vstd::prelude::*;

verus! {

/// Why no witness came out of the solve stage.
#[derive(Clone, Debug, PartialEq, Eq)]
pub enum SolveFault {
    /// The input values do not fit the program's interface, so that no
    /// initial witness could be made of them.
    Encoding(String),
    /// The solver gave up on the circuit.
    Engine(String),
}

/// The one error with which a session ends.
#[derive(Clone, Debug, PartialEq, Eq)]
pub enum DebugError {
    /// What was handed over does not fit together; not a user's mistake.
    ConsistencyFault(ConsistencyFault),
    /// The unit did not compile; the diagnostics as the compiler gave them.
    CompileErrors(Vec<String>),
    /// The input values could not be loaded.
    InputError(String),
    /// Solving did not produce a witness.
    SolveError(SolveFault),
    /// The solved witness could not be decoded against the program's interface.
    DecodeError(String),
    /// The solved witness could not be written.
    PersistenceError(String),
}

} // verus!
