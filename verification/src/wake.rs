use vstd::prelude::*;

verus! {

/// A shared notification target.
///
/// A pending computation registers a wake handle through `schedule`; invoking
/// the target is the driver's way of learning that the computation should be
/// polled again.  The handle carries no data of its own: it only identifies
/// one logical readiness source, so copies of the same handle name the same
/// target.
#[derive(Clone, Copy, Debug)]
pub struct WakeHandle {
    id: u64,
}

impl WakeHandle {
    /// The identity of the notification target this handle names.
    pub closed spec fn spec_id(&self) -> u64 {
        self.id
    }

    /// A handle naming the notification target with the given identity.
    pub fn new(id: u64) -> (w: WakeHandle)
        ensures
            w.spec_id() == id,
    {
        WakeHandle { id }
    }

    /// The identity of the notification target this handle names.
    pub fn id(&self) -> (i: u64)
        ensures
            i == self.spec_id(),
    {
        self.id
    }
}

} // verus!
