//! iOS application badge settings.

use vstd::prelude::*;

verus! {

/// How the application badge changes when the notification arrives.
#[derive(Clone, Copy, PartialEq, Eq, Structural, Debug)]
pub enum IosBadgeType {
    /// The badge is set to the given absolute value.
    Abs(u32),
    /// The badge is changed by the given signed amount.
    Adding(i32),
}

/// Badge settings a push entity may supply.
pub trait IosBadge {
    /// The badge change this push carries, if any.
    fn get_badge(&self) -> Option<IosBadgeType> {
        None
    }
}

} // verus!
