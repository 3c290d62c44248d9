//! The frame pacer: an optional ceiling on the frame rate.
//!
//! The pacer remembers when the last frame was presented and how long a frame
//! has to last at least. After a frame is presented it says how long the
//! caller still has to wait. It makes a best effort frame by frame and does
//! not make up for time lost in earlier frames.

use vstd::prelude::*;
use instant::Instant;

verus! {

/// A moment on the monotonic clock. Opaque: only the clock can read it.
#[verifier::external_type_specification]
#[verifier::external_body]
pub struct ExInstant(instant::Instant);

/// `Instant::now`: the present moment. Nothing is claimed of it.
#[verifier::external_body]
fn clock_now() -> (now: Instant) {
    Instant::now()
}

/// `Instant::elapsed`, in whole nanoseconds: the time that has passed since
/// `since`. It depends on the clock, so nothing is claimed of it.
#[verifier::external_body]
fn clock_elapsed_nanos(since: &Instant) -> (nanos: u128) {
    since.elapsed().as_nanos()
}

/// Nanoseconds in a millisecond.
pub const NANOS_PER_MILLI: u64 = 1_000_000;

/// The shortest time that a frame may last, in whole milliseconds, for a
/// ceiling of `fps` frames per second: a thousand divided by the rate, rounded
/// down. Without a ceiling there is no such time.
pub open spec fn frame_budget(fps: Option<u64>) -> Option<u64> {
    match fps {
        Some(rate) => Some((1000int / rate as int) as u64),
        None => None,
    }
}

/// The time still to wait, in nanoseconds, when `elapsed` nanoseconds have
/// passed since the last frame and a frame has to last `limit` milliseconds:
/// the difference where the frame was too fast, and nothing otherwise.
pub open spec fn remaining(limit: Option<u64>, elapsed: u128) -> Option<u64> {
    match limit {
        Some(millis) => if elapsed < millis * NANOS_PER_MILLI {
            Some((millis * NANOS_PER_MILLI - elapsed) as u64)
        } else {
            None
        },
        None => None,
    }
}

/// The frame pacer.
pub struct FramePacer {
    max_dur_per_frame: Option<u64>,
    curr_time: Instant,
}

impl FramePacer {
    #[verifier::type_invariant]
    spec fn bounded(self) -> bool {
        self.max_dur_per_frame matches Some(millis) ==> millis <= 1000
    }

    /// The shortest time that a frame may last, in milliseconds, if any.
    pub closed spec fn limit(&self) -> Option<u64> {
        self.max_dur_per_frame
    }

    /// The moment that the next wait is measured from: when the pacer was
    /// made, or when its clock was last restarted.
    pub closed spec fn last_frame(&self) -> Instant {
        self.curr_time
    }

    /// A pacer without a ceiling, whose clock starts now.
    pub fn new() -> (pacer: FramePacer)
        ensures
            pacer.limit() is None,
    {
        FramePacer { max_dur_per_frame: None, curr_time: clock_now() }
    }

    /// Sets the greatest number of frames per second. `None` lifts the
    /// ceiling. A rate of zero is no rate: the caller has to rule it out.
    pub fn set_framerate_limit(&mut self, fps: Option<u64>)
        requires
            fps != Some(0u64),
        ensures
            final(self).limit() == frame_budget(fps),
            final(self).last_frame() == old(self).last_frame(),
    {
        self.max_dur_per_frame = match fps {
            Some(rate) => Some(1000 / rate),
            None => None,
        };
    }

    /// The shortest time that a frame may last, in milliseconds, if any. It
    /// is never more than a second.
    pub fn max_dur_per_frame(&self) -> (limit: Option<u64>)
        ensures
            limit == self.limit(),
            limit matches Some(millis) ==> millis <= 1000,
    {
        proof {
            use_type_invariant(self);
        }
        self.max_dur_per_frame
    }

    /// How long to wait, in nanoseconds, when `elapsed` nanoseconds have
    /// passed since the last frame was presented.
    pub fn wait_after(&self, elapsed: u128) -> (wait: Option<u64>)
        ensures
            wait == remaining(self.limit(), elapsed),
    {
        proof {
            use_type_invariant(self);
        }
        match self.max_dur_per_frame {
            Some(millis) => {
                let budget: u64 = millis * NANOS_PER_MILLI;
                if elapsed < budget as u128 {
                    Some((budget as u128 - elapsed) as u64)
                } else {
                    None
                }
            },
            None => None,
        }
    }

    /// Reads the clock and says how long to wait before the next frame, in
    /// nanoseconds. Without a ceiling there is never a wait. With one, a wait
    /// is more than nothing and at most the whole time of a frame.
    pub fn throttle(&self) -> (wait: Option<u64>)
        ensures
            self.limit() is None ==> wait is None,
            wait matches Some(nanos) ==> self.limit() matches Some(millis) && 0 < nanos
                <= millis * NANOS_PER_MILLI,
    {
        proof {
            use_type_invariant(self);
        }
        let elapsed: u128 = clock_elapsed_nanos(&self.curr_time);
        self.wait_after(elapsed)
    }

    /// Restarts the clock: the frame that was just presented, and waited for,
    /// is the one that the next wait is measured from.
    pub fn restart(&mut self)
        ensures
            final(self).limit() == old(self).limit(),
    {
        let now: Instant = clock_now();
        self.restart_at(now);
    }

    /// Restarts the clock at a given moment: the next wait is measured from
    /// `now`.
    pub fn restart_at(&mut self, now: Instant)
        ensures
            final(self).limit() == old(self).limit(),
            final(self).last_frame() == now,
    {
        proof {
            use_type_invariant(&*self);
        }
        self.curr_time = now;
    }
}

/// The wait that the pacer orders, in nanoseconds, with no wait counted as
/// none.
pub open spec fn wait_nanos(limit: Option<u64>, elapsed: u128) -> int {
    match remaining(limit, elapsed) {
        Some(nanos) => nanos as int,
        None => 0,
    }
}

/// With a ceiling of `fps` frames per second, frames are at least a thousand
/// over `fps` milliseconds apart: the time that had passed when the pacer was
/// asked and the wait that it then orders come to that much or more,
/// whatever the clock read. The pacer orders no more wait than that needs:
/// the whole time of a frame where no time had passed, and none where the
/// frame took its time already.
pub proof fn lemma_limit_separates_frames(fps: u64, elapsed: u128)
    requires
        fps > 0,
    ensures
        ({
            let budget = (1000int / fps as int) * NANOS_PER_MILLI;
            let wait = wait_nanos(frame_budget(Some(fps)), elapsed);
            &&& elapsed + wait >= budget
            &&& elapsed <= budget ==> elapsed + wait == budget
            &&& elapsed >= budget ==> wait == 0
        }),
{
    assert(0 <= 1000int / fps as int <= 1000);
}

/// Without a ceiling the pacer never orders a wait.
pub proof fn lemma_no_limit_no_wait(elapsed: u128)
    ensures
        remaining(frame_budget(None), elapsed) is None,
        wait_nanos(frame_budget(None), elapsed) == 0,
{
}

} // verus!
