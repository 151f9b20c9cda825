//! The watermark: the newest modification time, in seconds, already reported.

use vstd::prelude::*;

verus! {

/// The boundary between changes already notified and new ones.
///
/// One value is shared by every session of the process; the host keeps it
/// behind a lock so that concurrent scans read and advance it atomically.
pub struct Watermark {
    pub value: u64,
}

impl Watermark {
    /// A watermark at `value`.
    pub fn new(value: u64) -> (r: Watermark)
        ensures
            r.value == value,
    {
        Watermark { value }
    }

    /// The current value.
    pub fn load(&self) -> (r: u64)
        ensures
            r == self.value,
    {
        self.value
    }

    /// Sets the value.
    pub fn store(&mut self, value: u64)
        ensures
            final(self).value == value,
    {
        self.value = value;
    }

    /// Sets the value to the moment a session connects, so that changes made
    /// before that moment are never reported to it.
    pub fn reset_to_now(&mut self, now: u64)
        ensures
            final(self).value == now,
    {
        self.value = now;
    }

    /// Advances to `latest` when it is strictly newer than the current value,
    /// and says whether it was. The value never decreases.
    pub fn advance(&mut self, latest: u64) -> (r: bool)
        ensures
            r == (latest > old(self).value),
            final(self).value == if r { latest } else { old(self).value },
            final(self).value >= old(self).value,
    {
        if latest > self.value {
            self.value = latest;
            true
        } else {
            false
        }
    }
}

} // verus!
