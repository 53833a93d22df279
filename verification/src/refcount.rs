//! The ownership protocol: manual reference counting.
//!
//! True ownership of every record rests with the runtime that hosts it, so it
//! cannot be mapped onto Rust's ownership; it is a convention instead:
//!
//! * a record received as a boundary-function argument is *borrowed* — the
//!   callee must not release it, and if it returns the record onward it must
//!   first increment the count with [`r1`], signalling a retained reference;
//! * a record obtained from an evaluation call is *owned* — the caller must
//!   release it exactly once with [`r0`], on every path including error
//!   paths, unless it becomes the return value (ownership then transfers);
//! * an error record obtained from a call is released exactly once after its
//!   message has been extracted, even though it is never returned onward.
//!
//! A record reachable from `n` owners must have a reference count of at least
//! `n`; dropping below that leads to premature reclamation.

use vstd::prelude::*;

use crate::record::k0;

verus! {

/// Decrement the record's reference count, releasing one owning reference.
///
/// When the count falls below the number of remaining owners the runtime
/// reclaims the record; the caller must treat its reference as gone after
/// this call.
pub fn r0(qobject: &mut k0)
    requires
        old(qobject).refcount > i32::MIN,
    ensures
        *final(qobject) == (k0 { refcount: (old(qobject).refcount - 1) as i32, ..*old(qobject) }),
{
    qobject.refcount = qobject.refcount - 1;
}

/// Increment the record's reference count, adding one owning reference.
pub fn r1(qobject: &mut k0)
    requires
        old(qobject).refcount < i32::MAX,
    ensures
        *final(qobject) == (k0 { refcount: (old(qobject).refcount + 1) as i32, ..*old(qobject) }),
{
    qobject.refcount = qobject.refcount + 1;
}

} // verus!
