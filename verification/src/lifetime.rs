//! Scheduled self-destruction: a per-entity countdown checked every
//! frame, with unconditional destruction on expiry.

use vstd::prelude::*;
use crate::fixed::{Fx, FX_MAX};

verus! {

/// A countdown in fixed-point seconds. When it reaches zero the carrying
/// entity is destroyed unconditionally, with no retry and no grace.
#[derive(Clone, Copy, PartialEq, Eq, Structural, Debug)]
pub struct Lifetime {
    pub remaining: Fx,
}

impl Lifetime {
    /// A countdown of a whole number of milliseconds, which are exactly
    /// the fixed-point steps of a second.
    pub fn from_duration(duration_millis: u64) -> (r: Lifetime)
        requires
            duration_millis <= FX_MAX,
        ensures
            r.remaining == duration_millis,
    {
        Lifetime { remaining: duration_millis as i64 }
    }

    pub fn from_seconds(seconds: Fx) -> (r: Lifetime)
        requires
            0 <= seconds <= FX_MAX,
        ensures
            r.remaining == seconds,
    {
        Lifetime { remaining: seconds }
    }

    /// Whether the step `dt` uses this countdown up.
    pub open spec fn expires_within(self, dt: int) -> bool {
        self.remaining <= dt
    }

    /// Advance the countdown by `dt`. The report is `true` exactly when
    /// the elapsed time has now reached the full duration.
    pub fn tick(&mut self, dt: Fx) -> (expired: bool)
        requires
            0 <= dt <= FX_MAX,
            0 <= old(self).remaining,
        ensures
            expired == old(self).expires_within(dt as int),
            final(self).remaining == (if old(self).remaining <= dt {
                0int
            } else {
                old(self).remaining - dt
            }),
    {
        if self.remaining <= dt {
            self.remaining = 0;
            true
        } else {
            self.remaining = self.remaining - dt;
            false
        }
    }
}

/// The total of a sequence of frame steps.
pub open spec fn total_elapsed(deltas: Seq<int>) -> int
    decreases deltas.len(),
{
    if deltas.len() == 0 {
        0
    } else {
        total_elapsed(deltas.drop_last()) + deltas.last()
    }
}

/// What is left of a countdown after a sequence of frame steps.
pub open spec fn remaining_after(start: int, deltas: Seq<int>) -> int
    decreases deltas.len(),
{
    if deltas.len() == 0 {
        start
    } else {
        let before = remaining_after(start, deltas.drop_last());
        if before <= deltas.last() {
            0
        } else {
            before - deltas.last()
        }
    }
}

/// A countdown runs out exactly when the elapsed time reaches its full
/// duration, and never before: after any sequence of nonnegative frame
/// steps, the countdown is spent if and only if the total elapsed time
/// is at least the starting duration.
pub proof fn lemma_expiry_exact(start: int, deltas: Seq<int>)
    requires
        0 <= start,
        forall|i: int| 0 <= i < deltas.len() ==> #[trigger] deltas[i] >= 0,
    ensures
        0 <= remaining_after(start, deltas),
        remaining_after(start, deltas) == 0 <==> total_elapsed(deltas) >= start,
        remaining_after(start, deltas) > 0 ==> remaining_after(start, deltas) == start
            - total_elapsed(deltas),
    decreases deltas.len(),
{
    if deltas.len() > 0 {
        lemma_expiry_exact(start, deltas.drop_last());
        lemma_total_nonneg(deltas.drop_last());
    }
}

/// A total of nonnegative steps is nonnegative.
pub proof fn lemma_total_nonneg(deltas: Seq<int>)
    requires
        forall|i: int| 0 <= i < deltas.len() ==> #[trigger] deltas[i] >= 0,
    ensures
        total_elapsed(deltas) >= 0,
    decreases deltas.len(),
{
    if deltas.len() > 0 {
        lemma_total_nonneg(deltas.drop_last());
    }
}

} // verus!
