//! Points in time, and the durations by which key events are told apart.

use vstd::prelude::*;

verus! {

/// Presses closer together than this are one press: 30 ms, in nanoseconds.
pub const DEBOUNCE: u64 = 30_000_000;

/// How long a release waits for the press that would cancel it: 50 ms, in nanoseconds.
pub const RELEASE_GRACE: u64 = 50_000_000;

/// A release at this threshold is a held recording; shorter releases latch: 250 ms, in nanoseconds.
pub const TAP_OR_HOLD_THRESHOLD: u64 = 250_000_000;

/// The time that passes from `earlier` to `later`, and zero where `later` comes first.
pub open spec fn elapsed(earlier: int, later: int) -> int {
    if earlier <= later {
        later - earlier
    } else {
        0
    }
}

/// A reading of a monotonic clock, in nanoseconds since an origin that all readings share.
#[derive(Debug, Clone, Copy, PartialEq, Eq, Structural)]
pub struct Timestamp {
    pub nanos: u64,
}

impl View for Timestamp {
    type V = int;

    open spec fn view(&self) -> int {
        self.nanos as int
    }
}

impl Timestamp {
    /// The nanoseconds from `earlier` to this reading, and zero where `earlier` is the later one.
    pub fn duration_since(self, earlier: Timestamp) -> (nanos: u64)
        ensures
            nanos == elapsed(earlier@, self@),
            earlier.nanos <= self.nanos ==> earlier.nanos + nanos == self.nanos,
            self.nanos < earlier.nanos ==> nanos == 0,
    {
        if earlier.nanos <= self.nanos {
            self.nanos - earlier.nanos
        } else {
            0
        }
    }

    /// The reading `nanos` nanoseconds after this one.
    pub fn after(self, nanos: u64) -> (later: Timestamp)
        requires
            self@ + nanos <= u64::MAX,
        ensures
            later@ == self@ + nanos,
            later.nanos == self.nanos + nanos,
    {
        Timestamp { nanos: self.nanos + nanos }
    }
}

/// Whether a key that went down at `press_started_at` and up at `released_at` was only tapped.
pub fn is_short_tap(press_started_at: Timestamp, released_at: Timestamp) -> (short: bool)
    ensures
        short == (elapsed(press_started_at@, released_at@) < TAP_OR_HOLD_THRESHOLD),
        short <==> released_at.nanos < press_started_at.nanos + TAP_OR_HOLD_THRESHOLD,
{
    released_at.duration_since(press_started_at) < TAP_OR_HOLD_THRESHOLD
}

} // verus!
