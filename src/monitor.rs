use vstd::prelude::*;

verus! {

/// Length of one counting window, in microseconds (one second).
pub const WINDOW_US: u64 = 1_000_000;

/// A frame rate as measured: `frames` over `elapsed_us` microseconds, that is
/// `frames * 1_000_000 / elapsed_us` frames per second.
#[derive(Clone, Copy, Debug, PartialEq, Eq, Structural)]
pub struct FrameRate {
    pub frames: u64,
    pub elapsed_us: u64,
}

/// What a `PerformanceMonitor` holds: frames counted in the open window, the
/// time the window opened, and the rate of the last closed window.
pub struct MonitorModel {
    pub frames: int,
    pub window_start: int,
    pub fps_frames: int,
    pub fps_elapsed: int,
}

impl MonitorModel {
    pub open spec fn initial() -> MonitorModel {
        MonitorModel { frames: 0, window_start: 0, fps_frames: 0, fps_elapsed: WINDOW_US as int }
    }

    /// One frame at time `now`: counted, and once a full window has passed
    /// since it opened, the window's rate is taken and a new window opens.
    pub open spec fn update(self, now: int) -> MonitorModel {
        if now - self.window_start >= WINDOW_US {
            MonitorModel {
                frames: 0,
                window_start: now,
                fps_frames: self.frames + 1,
                fps_elapsed: now - self.window_start,
            }
        } else {
            MonitorModel { frames: self.frames + 1, ..self }
        }
    }

    /// The last closed window ran at `per_second` frames per second, that is
    /// `fps_frames * 1_000_000 / fps_elapsed == per_second`, cross-multiplied.
    pub open spec fn rate_is(self, per_second: int) -> bool {
        self.fps_frames * WINDOW_US == per_second * self.fps_elapsed
    }
}

/// A window that closes exactly one second after it opened gives a rate equal
/// to the number of frames counted in it, the closing frame included.
pub proof fn lemma_rate_of_full_second(m: MonitorModel, now: int)
    requires
        now - m.window_start == WINDOW_US,
    ensures
        m.update(now).rate_is(m.frames + 1),
        m.update(now).frames == 0,
        m.update(now).window_start == now,
{
}

/// Counts frames and reports frames per second over windows of one second.
pub struct PerformanceMonitor {
    frame_count: u64,
    last_fps_check: i64,
    current_fps: FrameRate,
}

impl View for PerformanceMonitor {
    type V = MonitorModel;

    closed spec fn view(&self) -> MonitorModel {
        MonitorModel {
            frames: self.frame_count as int,
            window_start: self.last_fps_check as int,
            fps_frames: self.current_fps.frames as int,
            fps_elapsed: self.current_fps.elapsed_us as int,
        }
    }
}

impl PerformanceMonitor {
    #[verifier::type_invariant]
    spec fn inv(&self) -> bool {
        self.current_fps.elapsed_us >= WINDOW_US
    }

    /// No frames counted, window open at time 0, rate 0.
    pub fn new() -> (r: PerformanceMonitor)
        ensures
            r@ == MonitorModel::initial(),
    {
        PerformanceMonitor {
            frame_count: 0,
            last_fps_check: 0,
            current_fps: FrameRate { frames: 0, elapsed_us: WINDOW_US },
        }
    }

    /// Counts a frame at `current_time` (microseconds), closing the window
    /// once it is at least a second old.
    pub fn update(&mut self, current_time: i64)
        requires
            old(self)@.frames < u64::MAX,
        ensures
            final(self)@ == old(self)@.update(current_time as int),
    {
        proof {
            use_type_invariant(&*self);
        }
        let frames = self.frame_count + 1;
        let elapsed: i128 = current_time as i128 - self.last_fps_check as i128;
        if elapsed >= WINDOW_US as i128 {
            *self = PerformanceMonitor {
                frame_count: 0,
                last_fps_check: current_time,
                current_fps: FrameRate { frames, elapsed_us: elapsed as u64 },
            };
        } else {
            self.frame_count = frames;
        }
    }

    /// The rate of the last closed window; zero frames over one second
    /// before any window has closed.
    pub fn get_fps(&self) -> (r: FrameRate)
        ensures
            r.frames == self@.fps_frames,
            r.elapsed_us == self@.fps_elapsed,
            r.elapsed_us >= WINDOW_US,
    {
        proof {
            use_type_invariant(self);
        }
        self.current_fps
    }

    /// Frames counted in the open window.
    pub fn frame_count(&self) -> (r: u64)
        ensures
            r == self@.frames,
    {
        self.frame_count
    }
}

} // verus!
