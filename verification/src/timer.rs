//! Frame timing, in integer microseconds.
//!
//! The clock itself is an outside source: every operation that needs the
//! current time takes it as a parameter, `now_us`, the monotonic time in
//! microseconds.  `GameTimer` measures wall time with
//! pause/resume; `Timer` runs the fixed- or variable-timestep update
//! schedule and reports how many update steps the application owes.

use vstd::prelude::*;

verus! {

/// A pausable wall-clock timer: total running time excludes the time spent
/// stopped, and `tick` measures the delta between consecutive frames.
pub struct GameTimer {
    pub base_time: u64,
    pub current_time: u64,
    pub previous_time: u64,
    pub stop_time: u64,
    pub delta_time: u64,
    pub paused_time: u64,
    pub is_stopped: bool,
    pub total_frames: u64,
}

impl GameTimer {
    /// Stored instants never precede the epoch `base_time`, and the paused
    /// total never exceeds the time elapsed since it — so the running total
    /// can never go negative.
    pub open spec fn well_formed(self) -> bool {
        &&& self.base_time <= self.previous_time
        &&& self.base_time <= self.stop_time
        &&& self.base_time <= self.current_time
        &&& (self.is_stopped ==> self.base_time + self.paused_time <= self.stop_time)
        &&& (!self.is_stopped ==> self.base_time + self.paused_time <= self.current_time)
    }

    /// A timer started at `now_us`, running.
    pub fn new(now_us: u64) -> (r: Self)
        ensures
            r == (GameTimer {
                base_time: now_us,
                current_time: now_us,
                previous_time: now_us,
                stop_time: now_us,
                delta_time: 0,
                paused_time: 0,
                is_stopped: false,
                total_frames: 0,
            }),
            r.well_formed(),
    {
        GameTimer {
            base_time: now_us,
            current_time: now_us,
            previous_time: now_us,
            stop_time: now_us,
            delta_time: 0,
            paused_time: 0,
            is_stopped: false,
            total_frames: 0,
        }
    }

    /// Restarts measurement at `now_us`: a fresh epoch with no paused time
    /// and the timer running.
    pub fn reset(&mut self, now_us: u64)
        ensures
            *final(self) == (GameTimer {
                base_time: now_us,
                current_time: now_us,
                previous_time: now_us,
                stop_time: now_us,
                paused_time: 0,
                is_stopped: false,
                ..*old(self)
            }),
            final(self).well_formed(),
    {
        self.base_time = now_us;
        self.current_time = now_us;
        self.previous_time = now_us;
        self.stop_time = now_us;
        self.paused_time = 0;
        self.is_stopped = false;
    }

    /// Resumes a stopped timer at `now_us`, adding the stopped stretch to
    /// the paused total; running timers are left alone.
    pub fn start(&mut self, now_us: u64)
        requires
            old(self).well_formed(),
            now_us >= old(self).stop_time,
            now_us >= old(self).current_time,
        ensures
            final(self).well_formed(),
            old(self).is_stopped ==> *final(self) == (GameTimer {
                paused_time: (old(self).paused_time + (now_us - old(self).stop_time)) as u64,
                stop_time: now_us,
                current_time: now_us,
                previous_time: now_us,
                is_stopped: false,
                ..*old(self)
            }),
            !old(self).is_stopped ==> *final(self) == *old(self),
    {
        if self.is_stopped {
            self.paused_time = self.paused_time + (now_us - self.stop_time);
            self.stop_time = now_us;
            self.current_time = now_us;
            self.previous_time = now_us;
            self.is_stopped = false;
        }
    }

    /// Stops a running timer at `now_us`; stopped timers are left alone.
    pub fn stop(&mut self, now_us: u64)
        requires
            old(self).well_formed(),
            now_us >= old(self).current_time,
        ensures
            final(self).well_formed(),
            !old(self).is_stopped ==> *final(self) == (GameTimer {
                stop_time: now_us,
                is_stopped: true,
                ..*old(self)
            }),
            old(self).is_stopped ==> *final(self) == *old(self),
    {
        if !self.is_stopped {
            self.stop_time = now_us;
            self.is_stopped = true;
        }
    }

    /// Advances one frame at `now_us`: while running, the delta since the
    /// previous tick is measured and the frame counter moves; while
    /// stopped, the delta is zero and nothing else changes.
    pub fn tick(&mut self, now_us: u64)
        requires
            old(self).well_formed(),
            now_us >= old(self).previous_time,
            now_us >= old(self).current_time,
            old(self).total_frames < u64::MAX,
        ensures
            final(self).well_formed(),
            old(self).is_stopped ==> *final(self) == (GameTimer { delta_time: 0, ..*old(self) }),
            !old(self).is_stopped ==> *final(self) == (GameTimer {
                current_time: now_us,
                previous_time: now_us,
                delta_time: (now_us - old(self).previous_time) as u64,
                total_frames: (old(self).total_frames + 1) as u64,
                ..*old(self)
            }),
    {
        if self.is_stopped {
            self.delta_time = 0;
            return ;
        }
        self.current_time = now_us;
        self.delta_time = now_us - self.previous_time;
        self.previous_time = now_us;
        self.total_frames = self.total_frames + 1;
    }

    /// Seconds-free total: the running time in microseconds, excluding
    /// every stopped stretch.
    pub fn total_time_us(&self) -> (r: u64)
        requires
            self.well_formed(),
        ensures
            self.is_stopped ==> r == self.stop_time - self.base_time - self.paused_time,
            !self.is_stopped ==> r == self.current_time - self.base_time - self.paused_time,
    {
        if self.is_stopped {
            self.stop_time - self.base_time - self.paused_time
        } else {
            self.current_time - self.base_time - self.paused_time
        }
    }

    /// The delta measured by the last `tick`, in microseconds.
    pub fn delta_time_us(&self) -> (r: u64)
        ensures
            r == self.delta_time,
    {
        self.delta_time
    }
}

impl Default for GameTimer {
    /// A timer at the epoch, running.
    fn default() -> (r: Self)
        ensures
            r == (GameTimer {
                base_time: 0,
                current_time: 0,
                previous_time: 0,
                stop_time: 0,
                delta_time: 0,
                paused_time: 0,
                is_stopped: false,
                total_frames: 0,
            }),
    {
        GameTimer::new(0)
    }
}

/// The update scheduler: with a fixed timestep it accumulates lag and owes
/// one update step per elapsed target interval; with a variable timestep it
/// owes exactly one step per frame.
pub struct Timer {
    pub previous_time: u64,
    /// Largest delta credited to a single frame (clamps debugger pauses).
    pub max_delta_time_us: u64,
    /// Target interval per update step in the fixed-timestep schedule.
    pub target_time_per_update_us: u64,
    pub lag_time_us: u64,
    pub total_time_us: u64,
    pub frame_elapsed_time: u64,
    pub frame_elapsed_time_to_second_us: u64,
    pub frame_count_to_second: u64,
    pub frames_per_second: u64,
    pub frame_count: u64,
    pub is_fixed_time_step: bool,
}

/// The frame delta after clamping and the near-target snap: a delta within
/// a quarter millisecond of one lagging target interval counts as exactly
/// one interval.
pub open spec fn spec_effective_delta(t: Timer, raw_delta: int) -> int {
    let clamped = if raw_delta > t.max_delta_time_us {
        t.max_delta_time_us as int
    } else {
        raw_delta
    };
    let gap = if t.lag_time_us >= t.target_time_per_update_us {
        t.lag_time_us - t.target_time_per_update_us
    } else {
        t.target_time_per_update_us - t.lag_time_us
    };
    if gap < 250 {
        t.target_time_per_update_us as int
    } else {
        clamped
    }
}

impl Timer {
    pub open spec fn well_formed(self) -> bool {
        self.target_time_per_update_us >= 1
    }

    /// A scheduler started at `now_us`: variable timestep, a tenth of a
    /// second of maximum credited delta, and a sixty-per-second target.
    pub fn new(now_us: u64) -> (r: Self)
        ensures
            r == (Timer {
                previous_time: now_us,
                max_delta_time_us: 100000,
                target_time_per_update_us: 16667,
                lag_time_us: 0,
                total_time_us: 0,
                frame_elapsed_time: 0,
                frame_elapsed_time_to_second_us: 0,
                frame_count_to_second: 0,
                frames_per_second: 0,
                frame_count: 0,
                is_fixed_time_step: false,
            }),
            r.well_formed(),
    {
        Timer {
            previous_time: now_us,
            max_delta_time_us: 100000,
            target_time_per_update_us: 16667,
            lag_time_us: 0,
            total_time_us: 0,
            frame_elapsed_time: 0,
            frame_elapsed_time_to_second_us: 0,
            frame_count_to_second: 0,
            frames_per_second: 0,
            frame_count: 0,
            is_fixed_time_step: false,
        }
    }

    /// Advances the schedule to `now_us` and returns how many update steps
    /// the application owes: under the variable timestep, one; under the
    /// fixed timestep, one per whole target interval of accumulated lag.
    /// Framerate is re-measured once more than a second of frame time has
    /// accumulated.
    pub fn update(&mut self, now_us: u64) -> (updates: u64)
        requires
            old(self).well_formed(),
            now_us >= old(self).previous_time,
            // room for the arithmetic: times stay under half the range
            old(self).frame_elapsed_time_to_second_us + (now_us - old(self).previous_time)
                < 0x8000_0000_0000_0000,
            old(self).lag_time_us + old(self).max_delta_time_us + old(
                self,
            ).target_time_per_update_us < 0x8000_0000_0000_0000,
            old(self).total_time_us + old(self).lag_time_us + old(self).max_delta_time_us + old(
                self,
            ).target_time_per_update_us < 0x8000_0000_0000_0000,
            old(self).frame_count < 0x8000_0000_0000_0000,
            old(self).frame_count_to_second < u64::MAX,
        ensures
            final(self).well_formed(),
            final(self).previous_time == now_us,
            final(self).max_delta_time_us == old(self).max_delta_time_us,
            final(self).target_time_per_update_us == old(self).target_time_per_update_us,
            final(self).is_fixed_time_step == old(self).is_fixed_time_step,
            ({
                let raw = now_us - old(self).previous_time;
                let target = old(self).target_time_per_update_us as int;
                if old(self).is_fixed_time_step {
                    let lag1 = old(self).lag_time_us + spec_effective_delta(*old(self), raw);
                    // `updates` whole intervals were consumed, the rest lags
                    &&& updates * target <= lag1
                    &&& final(self).lag_time_us == lag1 - updates * target
                    &&& final(self).lag_time_us < target
                    &&& final(self).total_time_us == old(self).total_time_us + updates * target
                    &&& final(self).frame_count == old(self).frame_count + updates
                    &&& (updates > 0 ==> final(self).frame_elapsed_time == target)
                    &&& (updates == 0 ==> final(self).frame_elapsed_time == old(
                        self,
                    ).frame_elapsed_time)
                } else {
                    let clamped = if raw > old(self).max_delta_time_us {
                        old(self).max_delta_time_us as int
                    } else {
                        raw as int
                    };
                    &&& updates == 1
                    &&& final(self).frame_elapsed_time == clamped
                    &&& final(self).total_time_us == clamped
                    &&& final(self).lag_time_us == 0
                    &&& final(self).frame_count == old(self).frame_count + 1
                }
            }),
            // framerate measurement: after a second of frame time, the
            // frame count becomes the published rate and both reset
            ({
                let raw = now_us - old(self).previous_time;
                let counted = if final(self).frame_count != old(self).frame_count {
                    old(self).frame_count_to_second + 1
                } else {
                    old(self).frame_count_to_second as int
                };
                if old(self).frame_elapsed_time_to_second_us + raw > 1000000 {
                    &&& final(self).frames_per_second == counted
                    &&& final(self).frame_count_to_second == 0
                    &&& final(self).frame_elapsed_time_to_second_us == 0
                } else {
                    &&& final(self).frames_per_second == old(self).frames_per_second
                    &&& final(self).frame_count_to_second == counted
                    &&& final(self).frame_elapsed_time_to_second_us == old(
                        self,
                    ).frame_elapsed_time_to_second_us + raw
                }
            }),
    {
        let raw_delta: u64 = now_us - self.previous_time;
        let mut delta: u64 = raw_delta;
        self.previous_time = now_us;
        self.frame_elapsed_time_to_second_us = self.frame_elapsed_time_to_second_us + raw_delta;

        // Clamp excessively large deltas, e.g. after a debugger pause.
        if delta > self.max_delta_time_us {
            delta = self.max_delta_time_us;
        }

        let previous_frame_count: u64 = self.frame_count;
        let updates: u64;

        if self.is_fixed_time_step {
            // If running within a quarter millisecond of the target, snap
            // the delta to exactly one target interval.
            let gap: u64 = if self.lag_time_us >= self.target_time_per_update_us {
                self.lag_time_us - self.target_time_per_update_us
            } else {
                self.target_time_per_update_us - self.lag_time_us
            };
            if gap < 250 {
                delta = self.target_time_per_update_us;
            }

            self.lag_time_us = self.lag_time_us + delta;

            let ghost lag1 = self.lag_time_us as int;
            let ghost target = self.target_time_per_update_us as int;
            let mut steps: u64 = 0;
            while self.lag_time_us >= self.target_time_per_update_us
                invariant
                    self.target_time_per_update_us >= 1,
                    target == self.target_time_per_update_us,
                    steps * target <= lag1,
                    self.lag_time_us == lag1 - steps * target,
                    self.total_time_us == old(self).total_time_us + steps * target,
                    self.frame_count == old(self).frame_count + steps,
                    old(self).total_time_us + lag1 < 0x8000_0000_0000_0000,
                    old(self).frame_count < 0x8000_0000_0000_0000,
                    steps <= lag1,
                    steps > 0 ==> self.frame_elapsed_time == target,
                    steps == 0 ==> self.frame_elapsed_time == old(self).frame_elapsed_time,
                    self.previous_time == now_us,
                    self.max_delta_time_us == old(self).max_delta_time_us,
                    self.is_fixed_time_step,
                    self.frame_elapsed_time_to_second_us == old(
                        self,
                    ).frame_elapsed_time_to_second_us + (now_us - old(self).previous_time),
                    self.frame_count_to_second == old(self).frame_count_to_second,
                    self.frames_per_second == old(self).frames_per_second,
                decreases self.lag_time_us,
            {
                proof {
                    assert((steps + 1) * target == steps * target + target) by (nonlinear_arith);
                    assert(steps + 1 <= (steps + 1) * target) by (nonlinear_arith)
                        requires
                            target >= 1,
                            steps >= 0,
                    ;
                }
                self.frame_elapsed_time = self.target_time_per_update_us;
                self.total_time_us = self.total_time_us + self.target_time_per_update_us;
                self.lag_time_us = self.lag_time_us - self.target_time_per_update_us;
                self.frame_count = self.frame_count + 1;
                steps = steps + 1;
            }
            updates = steps;
        } else {
            // Variable timestep: one update per frame.
            self.frame_elapsed_time = delta;
            self.total_time_us = delta;
            self.lag_time_us = 0;
            self.frame_count = self.frame_count + 1;
            updates = 1;
        }

        // Track the current framerate.
        if self.frame_count != previous_frame_count {
            self.frame_count_to_second = self.frame_count_to_second + 1;
        }

        // Once a second of frame time has passed, publish and restart the
        // measurement.
        if self.frame_elapsed_time_to_second_us > 1000000 {
            self.frames_per_second = self.frame_count_to_second;
            self.frame_count_to_second = 0;
            self.frame_elapsed_time_to_second_us = 0;
        }

        updates
    }
}

} // verus!
