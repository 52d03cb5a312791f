//! Choosing the keyboard among the server's controllable devices.
//!
//! The server hands back a list of controllable devices. The rule is
//! deliberate and explicit: the first device in enumeration order is the
//! keyboard — there is no ranking beyond enumeration order — and an empty
//! list is fatal to the run, since no color command is meaningful without
//! a target.

use vstd::prelude::*;

verus! {

/// Pick the keyboard among `num_controllers` enumerated controllable
/// devices: the first one, or nothing when the server reported none.
pub fn select_keyboard(num_controllers: usize) -> (r: Option<usize>)
    ensures
        num_controllers > 0 ==> r == Some(0usize),
        num_controllers == 0 ==> r is None,
{
    if num_controllers > 0 {
        Some(0)
    } else {
        None
    }
}

} // verus!
