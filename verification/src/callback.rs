//! Callbacks that may be replaced while they run.
//!
//! A callback is taken out of its slot for the call, so that it can reach the window
//! that holds it, and put back afterwards unless it has been replaced meanwhile.

use vstd::prelude::*;

verus! {

/// The slot after a callback is put back into it.
pub open spec fn restored<T>(slot: Option<T>, taken: T) -> Option<T> {
    match slot {
        Some(replacement) => Some(replacement),
        None => Some(taken),
    }
}

/// Takes the callback out of its slot for a call.
pub fn take_callback<T>(slot: &mut Option<T>) -> (taken: Option<T>)
    ensures
        taken == *old(slot),
        *final(slot) == None::<T>,
{
    slot.take()
}

/// Puts a callback back after the call, unless there is another one by now.
pub fn restore_callback<T>(slot: &mut Option<T>, taken: T)
    ensures
        *final(slot) == restored(*old(slot), taken),
{
    if slot.is_none() {
        *slot = Some(taken);
    }
}

/// A call leaves the callback where it was, and one that is put in place during the call
/// stays there.
pub proof fn a_call_keeps_the_callback<T>(callback: T, replacement: T)
    ensures
        restored(None, callback) == Some(callback),
        restored(Some(replacement), callback) == Some(replacement),
{
}

} // verus!
