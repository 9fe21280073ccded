//! Choosing one item out of many with the help of an interactive selector.

use vstd::prelude::*;

pub mod fzf;

verus! {

/// Anything that can be offered for selection.
///
/// An item is shown by its formatted representation, one line of text, and
/// found again by it; it can be copied, so that what is offered can also be
/// handed back.
pub trait PickableItem: Clone {
    /// The formatted representation.
    fn formatted(&self) -> String;
}

} // verus!
