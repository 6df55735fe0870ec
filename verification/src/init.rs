//! Set-once registration state for the process-wide event-log provider.
//!
//! The host loads the engine once per process and registers its logging
//! provider on first load. The registration is modeled as set-once state: the
//! first attempt succeeds, every later attempt fails cleanly and leaves the
//! first registration untouched.

use vstd::prelude::*;

verus! {

/// Whether the event-log provider has been registered in this process.
pub struct LogRegistration {
    registered: bool,
}

impl LogRegistration {
    /// True once a registration attempt has succeeded.
    pub closed spec fn is_registered(&self) -> bool {
        self.registered
    }

    /// Fresh state: nothing registered yet.
    pub fn new() -> (r: Self)
        ensures
            !r.is_registered(),
    {
        LogRegistration { registered: false }
    }

    /// Attempts the one-time registration. The first attempt succeeds and
    /// pins the state; any later attempt fails cleanly without touching the
    /// existing registration.
    pub fn try_register(&mut self) -> (ok: bool)
        ensures
            ok == !old(self).is_registered(),
            final(self).is_registered(),
    {
        if self.registered {
            false
        } else {
            self.registered = true;
            true
        }
    }
}

} // verus!
