//! The ways in which a run can fail as a whole.

use vstd::prelude::*;

verus! {

/// A failure that ends a run. What goes wrong with a single device never
/// does: such a device is left out, or described without what was missing.
#[derive(Debug, Clone, Copy, PartialEq, Eq, Structural)]
pub enum HidError {
    /// The platform handed out no device-information set.
    InvalidHandle,
    /// The pattern of hardware identifiers was refused by the expression
    /// engine.
    Pattern,
}

} // verus!
