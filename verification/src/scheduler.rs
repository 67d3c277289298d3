//! Frame pacing: a cap on the frame rate and a count of frames per second.
//!
//! Time comes from the host's monotonic clock, in milliseconds. A clock
//! that steps back is read as no time having passed.

use vstd::prelude::*;

verus! {

/// The smallest interval between two rendered frames, in milliseconds, where
/// nothing else is configured: about sixty frames per second.
pub const DEFAULT_FRAME_INTERVAL_MS: u64 = 16;

/// The length of a throughput window, in milliseconds.
pub const THROUGHPUT_WINDOW_MS: u64 = 1000;

/// Frames presented in one throughput window, and how long the window was.
#[derive(Clone, Copy, Debug, PartialEq, Eq, Structural)]
pub struct Throughput {
    pub frames: u32,
    pub elapsed_ms: u64,
}

/// The pacing state.
#[derive(Clone, Copy, Debug, PartialEq, Eq, Structural)]
pub struct FrameScheduler {
    /// The smallest interval between two rendered frames.
    pub interval_ms: u64,
    /// When the last frame was let through.
    pub last_frame_ms: u64,
    /// When the current throughput window began.
    pub window_start_ms: u64,
    /// Frames presented in the current window.
    pub frames_in_window: u32,
}

/// The time from `earlier` to `now`, or zero if `now` is before it.
pub open spec fn elapsed_ms(now: u64, earlier: u64) -> u64 {
    if now >= earlier {
        (now - earlier) as u64
    } else {
        0
    }
}

/// One more than `count`, stopping at the largest value.
pub open spec fn bumped(count: u32) -> u32 {
    if count < u32::MAX {
        (count + 1) as u32
    } else {
        count
    }
}

impl FrameScheduler {
    /// The scheduler as it starts at `now_ms`.
    pub open spec fn started(now_ms: u64, interval_ms: u64) -> FrameScheduler {
        FrameScheduler {
            interval_ms,
            last_frame_ms: now_ms,
            window_start_ms: now_ms,
            frames_in_window: 0,
        }
    }

    /// A scheduler that starts at `now_ms` and lets a frame through at most
    /// every `interval_ms`.
    pub fn new(now_ms: u64, interval_ms: u64) -> (scheduler: FrameScheduler)
        ensures
            scheduler == Self::started(now_ms, interval_ms),
    {
        FrameScheduler {
            interval_ms,
            last_frame_ms: now_ms,
            window_start_ms: now_ms,
            frames_in_window: 0,
        }
    }

    /// Whether a frame is due at `now_ms`: the interval has passed since the
    /// last frame that was let through.
    pub open spec fn due(self, now_ms: u64) -> bool {
        elapsed_ms(now_ms, self.last_frame_ms) >= self.interval_ms
    }

    /// The scheduler after a frame was asked for at `now_ms`: untouched if
    /// none is due, else with `now_ms` as the time of the last frame.
    pub open spec fn after_request(self, now_ms: u64) -> FrameScheduler {
        if self.due(now_ms) {
            FrameScheduler { last_frame_ms: now_ms, ..self }
        } else {
            self
        }
    }

    /// Asks for a frame at `now_ms`. Returns whether it is let through; if
    /// it is not, nothing changes.
    pub fn request_frame(&mut self, now_ms: u64) -> (due: bool)
        ensures
            due == old(self).due(now_ms),
            *final(self) == old(self).after_request(now_ms),
    {
        let elapsed = now_ms.saturating_sub(self.last_frame_ms);
        if elapsed < self.interval_ms {
            false
        } else {
            self.last_frame_ms = now_ms;
            true
        }
    }

    /// Whether the frame presented at `now_ms` closes the throughput window.
    pub open spec fn window_closes(self, now_ms: u64) -> bool {
        elapsed_ms(now_ms, self.window_start_ms) >= THROUGHPUT_WINDOW_MS
    }

    /// What is reported when a frame is presented at `now_ms`: nothing
    /// inside a window; at its end, the frames counted, this one included,
    /// and the window's length.
    pub open spec fn sample(self, now_ms: u64) -> Option<Throughput> {
        if self.window_closes(now_ms) {
            Some(
                Throughput {
                    frames: bumped(self.frames_in_window),
                    elapsed_ms: elapsed_ms(now_ms, self.window_start_ms),
                },
            )
        } else {
            None
        }
    }

    /// The scheduler after a frame was presented at `now_ms`: one more frame
    /// in the window, or a new window that begins at `now_ms`.
    pub open spec fn presented(self, now_ms: u64) -> FrameScheduler {
        if self.window_closes(now_ms) {
            FrameScheduler { window_start_ms: now_ms, frames_in_window: 0, ..self }
        } else {
            FrameScheduler { frames_in_window: bumped(self.frames_in_window), ..self }
        }
    }

    /// Counts a frame presented at `now_ms`, and reports the throughput
    /// when that frame closes a window. Pacing is not affected.
    pub fn record_presented(&mut self, now_ms: u64) -> (sample: Option<Throughput>)
        ensures
            sample == old(self).sample(now_ms),
            *final(self) == old(self).presented(now_ms),
    {
        let frames = if self.frames_in_window < u32::MAX {
            self.frames_in_window + 1
        } else {
            self.frames_in_window
        };
        let elapsed = now_ms.saturating_sub(self.window_start_ms);
        if elapsed >= THROUGHPUT_WINDOW_MS {
            self.frames_in_window = 0;
            self.window_start_ms = now_ms;
            Some(Throughput { frames, elapsed_ms: elapsed })
        } else {
            self.frames_in_window = frames;
            None
        }
    }
}

/// A frame that is refused leaves the scheduler untouched, so asking again
/// at the same time is refused again; a frame that is let through is not
/// followed by another before the interval has passed.
pub proof fn lemma_frame_pacing(scheduler: FrameScheduler, now_ms: u64, later_ms: u64)
    ensures
        !scheduler.due(now_ms) ==> scheduler.after_request(now_ms) == scheduler,
        scheduler.due(now_ms) && scheduler.interval_ms > 0 && now_ms <= later_ms && later_ms
            - now_ms < scheduler.interval_ms ==> !scheduler.after_request(now_ms).due(later_ms),
        scheduler.after_request(now_ms).window_start_ms == scheduler.window_start_ms,
        scheduler.after_request(now_ms).frames_in_window == scheduler.frames_in_window,
        scheduler.presented(now_ms).last_frame_ms == scheduler.last_frame_ms,
        scheduler.presented(now_ms).interval_ms == scheduler.interval_ms,
{
}

} // verus!
