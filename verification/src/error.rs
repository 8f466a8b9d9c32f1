//! The ways in which a call can fail.

use vstd::prelude::*;

verus! {

/// The outcome of a call that was refused. A refused call leaves the state
/// as it found it.
#[derive(Clone, Copy, Debug, PartialEq, Eq, Structural)]
pub enum ContractError {
    /// The sender is not the current minter.
    Unauthorized {},
    /// The host found an account identifier malformed.
    InvalidAddress {},
    /// No token carries the identifier asked for.
    TokenNotFound {},
    /// No metadata record is registered for the level asked for.
    LevelNotFound {},
    /// The token counter cannot advance any further.
    CounterOverflow {},
}

} // verus!
