//! The bookkeeping of blocking playback: the device accepts some of the
//! samples offered to it at each write, and the caller offers the rest until
//! all are written or a write makes no progress.

use vstd::prelude::*;

verus! {

/// How far the playback of a buffer has come.
#[derive(Clone, Copy, Debug, PartialEq, Eq, Structural)]
pub struct Playback {
    /// Number of samples in the buffer.
    pub total: usize,
    /// Number of samples that the device has accepted so far.
    pub sent: usize,
}

impl Playback {
    /// No more samples are accepted than the buffer holds.
    pub open spec fn wf(self) -> bool {
        self.sent <= self.total
    }

    /// Number of samples still to be offered.
    pub open spec fn remaining(self) -> nat {
        (self.total - self.sent) as nat
    }

    /// Starts the playback of a buffer of `total` samples.
    pub fn new(total: usize) -> (p: Playback)
        ensures
            p.total == total,
            p.sent == 0,
            p.wf(),
    {
        Playback { total, sent: 0 }
    }

    /// The place in the buffer from which the next write offers samples.
    pub fn offset(&self) -> (from: usize)
        requires
            self.wf(),
        ensures
            from == self.sent,
            from <= self.total,
    {
        self.sent
    }

    /// Records that the device accepted `written` of the samples offered,
    /// and says whether another write is due: it is while samples remain
    /// and the last write made progress.
    pub fn accept(&mut self, written: usize) -> (more: bool)
        requires
            old(self).wf(),
            written <= old(self).remaining(),
        ensures
            final(self).wf(),
            final(self).total == old(self).total,
            final(self).sent == old(self).sent + written,
            more == (written > 0 && final(self).sent < final(self).total),
    {
        self.sent = self.sent + written;
        written > 0 && self.sent < self.total
    }
}

} // verus!
