//! How a window that asks the user something was closed.

use vstd::prelude::*;

verus! {

/// How a window was closed: `COMPLETED` where the user (or the countdown)
/// saw it through, `UNCOMPLETED` where it was cancelled or dismissed.
#[derive(Clone, Copy, Debug, PartialEq, Eq, Structural, PartialOrd, Ord, Default)]
pub enum ExitStatus {
    COMPLETED,
    #[default]
    UNCOMPLETED,
}

} // verus!
