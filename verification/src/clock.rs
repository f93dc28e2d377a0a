//! The fixed-interval frame scheduler: converts a monotone millisecond timer
//! into discrete ticks, telling the caller when a frame is too early and how
//! long to wait, and keeps a one-second rolling frame counter for diagnostic
//! throughput reporting.

use vstd::prelude::*;

verus! {

/// Milliseconds per frame at the targeted 60 Hz rate.
pub const FRAME_INTERVAL_MS: u64 = 1000 / 60;

/// Milliseconds between diagnostic frame-rate reports.
pub const REPORT_INTERVAL_MS: u64 = 1000;

/// What one call of `tick` decided.
#[derive(Clone, Copy, Debug, PartialEq, Eq, Structural)]
pub enum Tick {
    /// Too early: the caller should sleep for `ms` and try again; no logic
    /// or rendering runs for this call.
    Wait { ms: u64 },
    /// A frame is due: `elapsed_ms` since the previous frame, and the
    /// completed-frame count of the last second when a report is due.
    Run { elapsed_ms: u64, fps_report: Option<u32> },
}

#[derive(Clone, Copy, Debug, PartialEq, Eq, Structural)]
#[verifier::ext_equal]
pub struct FrameClock {
    /// When the previous frame ran (the "last tick" reference).
    pub before: u64,
    /// When the frame counter was last reported and reset.
    pub last_second: u64,
    /// Completed frames since `last_second`.
    pub fps: u32,
}

impl FrameClock {
    /// Both references are initialized at construction, so the first real
    /// interval is measured correctly; the counter can never outrun the
    /// frames that fit in one report interval.
    pub open spec fn wf(self) -> bool {
        &&& self.last_second <= self.before
        &&& self.fps * FRAME_INTERVAL_MS <= self.before - self.last_second
        &&& self.fps * FRAME_INTERVAL_MS <= REPORT_INTERVAL_MS
    }

    /// Does a call at `now` run a frame (rather than wait)?
    pub open spec fn runs(self, now: u64) -> bool {
        now - self.before >= FRAME_INTERVAL_MS
    }

    /// The elapsed time a frame at `now` reports.
    pub open spec fn elapsed(self, now: u64) -> u64 {
        (now - self.before) as u64
    }

    /// Does a frame at `now` emit a diagnostic report?
    pub open spec fn reports(self, now: u64) -> bool {
        now - self.last_second > REPORT_INTERVAL_MS
    }

    /// A scheduler whose references both start at `now`.
    pub fn new(now: u64) -> (c: FrameClock)
        ensures
            c.wf(),
            c.before == now,
            c.last_second == now,
            c.fps == 0,
    {
        FrameClock { before: now, last_second: now, fps: 0 }
    }

    /// One scheduling decision at wall time `now`. When less than the frame
    /// interval has elapsed, nothing advances and the caller is told how
    /// long to wait; otherwise the "last tick" reference moves to `now`, the
    /// elapsed time is reported, and the rolling frame counter advances,
    /// resetting with a report once more than a second has passed.
    pub fn tick(&mut self, now: u64) -> (r: Tick)
        requires
            old(self).wf(),
            now >= old(self).before,
        ensures
            final(self).wf(),
            !old(self).runs(now) ==> r == (Tick::Wait {
                ms: (FRAME_INTERVAL_MS - (now - old(self).before)) as u64,
            }) && *final(self) == *old(self),
            old(self).runs(now) ==> {
                &&& r matches Tick::Run { elapsed_ms, fps_report }
                &&& elapsed_ms == old(self).elapsed(now)
                &&& final(self).before == now
                &&& (if old(self).reports(now) {
                    fps_report == Some((old(self).fps + 1) as u32) && final(self).last_second
                        == now && final(self).fps == 0
                } else {
                    fps_report is None && final(self).last_second == old(self).last_second
                        && final(self).fps == old(self).fps + 1
                })
            },
    {
        let dt = now - self.before;
        if dt < FRAME_INTERVAL_MS {
            return Tick::Wait { ms: FRAME_INTERVAL_MS - dt };
        }
        self.before = now;
        let frames = self.fps + 1;
        if now - self.last_second > REPORT_INTERVAL_MS {
            self.last_second = now;
            self.fps = 0;
            Tick::Run { elapsed_ms: dt, fps_report: Some(frames) }
        } else {
            self.fps = frames;
            Tick::Run { elapsed_ms: dt, fps_report: None }
        }
    }
}

} // verus!
