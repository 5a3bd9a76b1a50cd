//! Decisions of the top-level loop: day or night, and when the next
//! iteration starts.
use vstd::prelude::*;
use crate::capture::Timestamp;
use crate::settings::Frame;

verus! {

/// Night is when the sun stands below the horizon setting; both angles are
/// in thousandths of a degree.
pub fn is_night(altitude: i32, horizon: i32) -> (r: bool)
    ensures
        r == (altitude < horizon),
{
    altitude < horizon
}

/// Records the current time of day and tells whether it flipped.
pub fn update_is_night(is_night_now: bool, last_is_night: &mut bool) -> (flipped: bool)
    ensures
        *final(last_is_night) == is_night_now,
        flipped == (is_night_now != *old(last_is_night)),
{
    if is_night_now != *last_is_night {
        *last_is_night = is_night_now;
        true
    } else {
        false
    }
}

/// When the next iteration starts, how long to sleep until then, and by how
/// much the iteration overran its frame (all in milliseconds).
#[derive(Clone, Copy, Debug, PartialEq, Eq, Structural)]
pub struct Pace {
    pub next_start: Timestamp,
    pub sleep_millis: u64,
    pub overrun_millis: u64,
}

/// Fixed-rate cadence for an iteration that started at `start` and ended at
/// `now`. Back to back frames start at once. With a period, an iteration that
/// overran starts the next one at once and reports the excess; otherwise the
/// next one starts a period after this one started (not after it ended),
/// which keeps early finishes from adding drift.
pub open spec fn pace_spec(frame: Frame, start: int, now: int) -> (int, int, int) {
    match frame {
        Frame::Continuous => (now, 0, 0),
        Frame::Period(f) => if now - start > f {
            (now, 0, now - start - f)
        } else {
            (start + f, f - (now - start), 0)
        },
    }
}

/// The cadence step at the end of an iteration; the sleep saturates at
/// `u64::MAX` should the clock have stepped far back.
pub fn delay(frame: Frame, start: Timestamp, now: Timestamp) -> (r: Pace)
    requires
        frame matches Frame::Period(f) ==> start.millis + f <= i64::MAX,
    ensures
        r.next_start.millis == pace_spec(frame, start.millis as int, now.millis as int).0,
        r.sleep_millis == (if pace_spec(frame, start.millis as int, now.millis as int).1
            <= u64::MAX {
            pace_spec(frame, start.millis as int, now.millis as int).1
        } else {
            u64::MAX as int
        }),
        r.overrun_millis == pace_spec(frame, start.millis as int, now.millis as int).2,
{
    match frame {
        Frame::Continuous => Pace { next_start: now, sleep_millis: 0, overrun_millis: 0 },
        Frame::Period(f) => {
            let elapsed: i128 = now.millis as i128 - start.millis as i128;
            if elapsed > f as i128 {
                Pace { next_start: now, sleep_millis: 0, overrun_millis: (elapsed - f as i128) as u64 }
            } else {
                let left: i128 = f as i128 - elapsed;
                let sleep_millis: u64 = if left <= u64::MAX as i128 {
                    left as u64
                } else {
                    u64::MAX
                };
                Pace {
                    next_start: Timestamp { millis: (start.millis as i128 + f as i128) as i64 },
                    sleep_millis,
                    overrun_millis: 0,
                }
            }
        },
    }
}

/// The start of the iteration that follows a run of iterations with the
/// given work durations, the first of them starting at `start`.
pub open spec fn start_after(frame: Frame, start: int, works: Seq<int>) -> int
    decreases works.len(),
{
    if works.len() == 0 {
        start
    } else {
        let s = start_after(frame, start, works.drop_last());
        pace_spec(frame, s, s + works.last()).0
    }
}

/// With a period `f`, as long as no iteration overruns, the k-th iteration
/// starts exactly `k * f` after the first: no drift builds up.
pub proof fn lemma_no_drift(f: u64, start: int, works: Seq<int>)
    requires
        forall|i: int| 0 <= i < works.len() ==> 0 <= #[trigger] works[i] <= f,
    ensures
        start_after(Frame::Period(f), start, works) == start + works.len() * f,
    decreases works.len(),
{
    if works.len() > 0 {
        let init = works.drop_last();
        assert forall|i: int| 0 <= i < init.len() implies 0 <= #[trigger] init[i] <= f by {
            assert(init[i] == works[i]);
        }
        lemma_no_drift(f, start, init);
        assert(works.last() == works[works.len() - 1]);
        assert(start + init.len() * f + f == start + works.len() * f) by (nonlinear_arith)
            requires
                works.len() == init.len() + 1,
        ;
    }
}

} // verus!
