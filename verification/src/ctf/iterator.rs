use vstd::prelude::*;

use crate::ctf::event::Event;

verus! {

/// The cursor protocol over one open session: a forward-only,
/// single-pass, non-restartable walk of the merged event sequence. The
/// first retrieval reads at the already-positioned native cursor; every
/// later one advances the cursor first. A failed advance ends the
/// sequence; the native layer does not tell exhaustion and internal
/// failure apart, and neither does this protocol.
pub struct Iterator {
    alive: bool,
    started: bool,
}

impl Iterator {
    /// Whether the native cursor has not been destroyed yet.
    pub closed spec fn spec_alive(self) -> bool {
        self.alive
    }

    /// Whether a retrieval has already happened, so that the next one
    /// must advance the cursor before reading.
    pub closed spec fn spec_started(self) -> bool {
        self.started
    }

    /// A fresh cursor, positioned on the first event and not yet read.
    pub fn new() -> (it: Iterator)
        ensures
            it.spec_alive(),
            !it.spec_started(),
    {
        Iterator { alive: true, started: false }
    }

    /// Whether the native cursor has not been destroyed yet.
    pub fn is_alive(&self) -> (r: bool)
        ensures
            r == self.spec_alive(),
    {
        self.alive
    }

    /// Whether the cursor must be advanced before the next read.
    pub fn needs_advance(&self) -> (r: bool)
        ensures
            r == self.spec_started(),
    {
        self.started
    }

    /// One retrieval step. `advance_ret` is the native advance's return
    /// code, consulted only when a retrieval has already happened;
    /// `event` is what a read at the cursor yielded. The first
    /// retrieval hands the read through untouched; afterwards a
    /// negative advance ends the sequence, with no event and no error.
    pub fn next(&mut self, advance_ret: i32, event: Option<Event>) -> (r: Option<Event>)
        requires
            old(self).spec_alive(),
        ensures
            final(self).spec_alive(),
            final(self).spec_started(),
            (old(self).spec_started() && advance_ret < 0) ==> r is None,
            (!old(self).spec_started() || advance_ret >= 0) ==> r == event,
    {
        if self.started && advance_ret < 0 {
            return None;
        }
        self.started = true;
        event
    }

    /// Marks the one destruction of the native cursor. The cursor must
    /// still be alive, so a second destruction can never be asked for.
    pub fn release(&mut self)
        requires
            old(self).spec_alive(),
        ensures
            !final(self).spec_alive(),
            final(self).spec_started() == old(self).spec_started(),
    {
        self.alive = false;
    }
}

} // verus!
