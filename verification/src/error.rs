//! The kinds of failure that callers can tell apart.

use vstd::prelude::*;

verus! {

/// A transition was asked for that the entries at hand do not allow.
#[derive(Clone, Copy, Debug, PartialEq, Eq, Structural)]
pub enum EngineError {
    /// The entry is not in the state the transition starts from.
    InvalidState,
    /// There is no entry to continue.
    NoEntries,
}

/// The interactive selector gave no selection.
#[derive(Clone, Copy, Debug, PartialEq, Eq, Structural)]
pub enum PickerError {
    /// The user left the selector without choosing.
    Cancelled,
    /// The selector program could not be found.
    FzfNotInstalled,
    /// Anything else that went wrong.
    Generic,
}

/// The credential material cannot be used to talk to the service.
#[derive(Clone, Copy, Debug, PartialEq, Eq, Structural)]
pub struct ConfigurationError;

} // verus!
