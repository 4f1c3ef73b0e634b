//! What can go wrong.

use vstd::prelude::*;

verus! {

/// The failures that the staff reports.
#[derive(Clone, Copy, Debug, PartialEq, Eq, Structural)]
pub enum StaffError {
    /// A note number above 127.
    InvalidPitch,
    /// A symbol that the host could not supply; a blank one stands in for it.
    AssetMissing,
    /// A staff with fewer than five visible lines, or with an even number of them.
    DegenerateConfig,
}

} // verus!
