//! The redraw-scheduling state machine of a window worker.
//!
//! A worker keeps a single *redraw target*: no redraw needed (`None`), redraw
//! as soon as possible (`Immediate`), or redraw no later than a given moment
//! (`Scheduled`). Requests merge so that a sooner request always overrides a
//! later one, and a request later than the current target is ignored.

use vstd::prelude::*;

verus! {

/// A point in monotonic time, counted in nanoseconds from an arbitrary epoch.
///
/// The platform's clock is read by the unverified adapter; the core only
/// stores and compares moments.
#[derive(Clone, Copy, PartialEq, Eq, Structural, Debug)]
pub struct Moment {
    /// Nanoseconds since the epoch of the platform's monotonic clock.
    pub ticks: u64,
}

impl Moment {
    /// The moment `nanos` nanoseconds after `self`, saturating at the far end
    /// of the representable range.
    pub fn after(self, nanos: u64) -> (r: Moment)
        ensures
            r.ticks == if self.ticks + nanos <= u64::MAX {
                self.ticks + nanos
            } else {
                u64::MAX as int
            },
    {
        if self.ticks <= u64::MAX - nanos {
            Moment { ticks: self.ticks + nanos }
        } else {
            Moment { ticks: u64::MAX }
        }
    }
}

/// The target for when a window will next be redrawn.
#[derive(Clone, Copy, PartialEq, Eq, Structural, Debug)]
pub enum RedrawTarget {
    /// Redraw as soon as no more messages are immediately available.
    Immediate,
    /// Redraw no later than the contained moment.
    Scheduled(Moment),
}

/// The effective deadline of a redraw target, as an unbounded integer:
/// `Immediate` is sooner than every moment, and no target at all is later
/// than every moment.
pub open spec fn deadline(target: Option<RedrawTarget>) -> int {
    match target {
        Some(RedrawTarget::Immediate) => -1,
        Some(RedrawTarget::Scheduled(at)) => at.ticks as int,
        None => 0x1_0000_0000_0000_0000,
    }
}

/// The target that results from requesting a redraw at `instant` when the
/// current target is `target`: the request is ignored unless it is sooner
/// than the current target.
pub open spec fn merged_at(target: Option<RedrawTarget>, instant: Moment) -> Option<RedrawTarget> {
    match target {
        Some(RedrawTarget::Immediate) => target,
        Some(RedrawTarget::Scheduled(at)) => if at.ticks < instant.ticks {
            target
        } else {
            Some(RedrawTarget::Scheduled(instant))
        },
        None => Some(RedrawTarget::Scheduled(instant)),
    }
}

/// Merges a request to redraw at `instant` into the current target.
pub fn merge_redraw_at(target: Option<RedrawTarget>, instant: Moment) -> (r: Option<RedrawTarget>)
    ensures
        r == merged_at(target, instant),
{
    match target {
        Some(RedrawTarget::Immediate) => target,
        Some(RedrawTarget::Scheduled(at)) => {
            if at.ticks < instant.ticks {
                target
            } else {
                Some(RedrawTarget::Scheduled(instant))
            }
        }
        None => Some(RedrawTarget::Scheduled(instant)),
    }
}

/// Merging is idempotent: repeating the same request changes nothing.
pub proof fn lemma_redraw_merge_idempotent(target: Option<RedrawTarget>, instant: Moment)
    ensures
        merged_at(merged_at(target, instant), instant) == merged_at(target, instant),
{
}

/// Merging is monotonic: a request never moves the effective deadline later.
/// The merged deadline is the sooner of the current deadline and the request,
/// so scheduling a later instant after an earlier one (or after an immediate
/// target) leaves the effective deadline unchanged.
pub proof fn lemma_redraw_merge_monotonic(target: Option<RedrawTarget>, instant: Moment)
    ensures
        deadline(merged_at(target, instant)) <= deadline(target),
        deadline(merged_at(target, instant)) <= instant.ticks as int,
        deadline(merged_at(target, instant)) == if deadline(target) <= instant.ticks as int {
            deadline(target)
        } else {
            instant.ticks as int
        },
{
}

/// How long a worker should wait for its next message before redrawing.
#[derive(Clone, Copy, PartialEq, Eq, Structural, Debug)]
pub enum TimeUntilRedraw {
    /// A redraw is due now: drain messages without blocking, then redraw.
    Ready,
    /// A redraw is due after the contained number of nanoseconds: wait for a
    /// message at most that long.
    After(u64),
    /// No redraw is scheduled: wait for the next message indefinitely.
    Indefinite,
}

/// The wait that `target` prescribes at time `now`.
pub open spec fn spec_time_until_redraw(target: Option<RedrawTarget>, now: Moment) -> TimeUntilRedraw {
    match target {
        Some(RedrawTarget::Immediate) => TimeUntilRedraw::Ready,
        Some(RedrawTarget::Scheduled(at)) => if at.ticks > now.ticks {
            TimeUntilRedraw::After((at.ticks - now.ticks) as u64)
        } else {
            TimeUntilRedraw::Ready
        },
        None => TimeUntilRedraw::Indefinite,
    }
}

/// Computes how to wait for the next message: not at all when a redraw is
/// already due at `now`, with a timeout when one is scheduled later than
/// `now`, and indefinitely when none is scheduled.
pub fn time_until_redraw(target: Option<RedrawTarget>, now: Moment) -> (r: TimeUntilRedraw)
    ensures
        r == spec_time_until_redraw(target, now),
{
    match target {
        Some(RedrawTarget::Immediate) => TimeUntilRedraw::Ready,
        Some(RedrawTarget::Scheduled(at)) => {
            if at.ticks > now.ticks {
                TimeUntilRedraw::After(at.ticks - now.ticks)
            } else {
                TimeUntilRedraw::Ready
            }
        }
        None => TimeUntilRedraw::Indefinite,
    }
}

} // verus!
