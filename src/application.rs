use vstd::prelude::*;

verus! {

/// The timing of one frame, in nanoseconds of a monotonic clock.
#[derive(Debug, Clone, Copy, PartialEq, Eq, Structural)]
pub struct FrameTime {
    /// When the frame began.
    pub now: u64,
    /// How long since the previous frame began.
    pub delta: u64,
}

/// Hands out the timing of each frame from readings of a monotonic clock.
pub struct FrameClock {
    previous: u64,
}

impl FrameClock {
    pub closed spec fn spec_previous(self) -> u64 {
        self.previous
    }

    /// A clock whose first frame is timed from `start`.
    pub fn start(start: u64) -> (r: FrameClock)
        ensures
            r.spec_previous() == start,
    {
        FrameClock { previous: start }
    }

    /// The timing of the frame that begins at `now`: `now` and the time since
    /// the previous frame began.
    pub fn frame(&mut self, now: u64) -> (r: FrameTime)
        requires
            now >= old(self).spec_previous(),
        ensures
            r == (FrameTime { now, delta: (now - old(self).spec_previous()) as u64 }),
            final(self).spec_previous() == now,
    {
        let r = FrameTime { now, delta: now - self.previous };
        self.previous = now;
        r
    }

    /// The reading that the next frame is timed from.
    pub fn previous(&self) -> (r: u64)
        ensures
            r == self.spec_previous(),
    {
        self.previous
    }
}

/// What the loop does within one iteration, after polling the input.
#[derive(Debug, Clone, Copy, PartialEq, Eq, Structural)]
pub enum FrameStep {
    /// Compute the frame's timing.
    ComputeTime,
    /// Call the application's per-frame logic with the timing and the input.
    Tick,
    /// Call the application's overlay.
    Gui,
    /// Present the frame.
    Present,
}

/// The steps of one frame, with or without an overlay.
pub open spec fn spec_frame_steps(has_gui: bool) -> Seq<FrameStep> {
    if has_gui {
        seq![FrameStep::ComputeTime, FrameStep::Tick, FrameStep::Gui, FrameStep::Present]
    } else {
        seq![FrameStep::ComputeTime, FrameStep::Tick, FrameStep::Present]
    }
}

/// Decides, once the input of an iteration is polled, whether the loop goes
/// on and what the frame does.
pub struct FrameLoop {
    has_gui: bool,
    running: bool,
}

impl FrameLoop {
    pub closed spec fn spec_has_gui(self) -> bool {
        self.has_gui
    }

    pub closed spec fn spec_running(self) -> bool {
        self.running
    }

    /// A running loop; `has_gui` says whether the application has an overlay.
    pub fn new(has_gui: bool) -> (r: FrameLoop)
        ensures
            r.spec_has_gui() == has_gui,
            r.spec_running(),
    {
        FrameLoop { has_gui, running: true }
    }

    /// Whether the loop has not ended.
    pub fn running(&self) -> (r: bool)
        ensures
            r == self.spec_running(),
    {
        self.running
    }

    /// After the input of an iteration is polled: when the window was closed
    /// or a quit was asked for, the loop ends and the frame does nothing;
    /// else the frame times itself, ticks, draws the overlay if there is one,
    /// and presents, in that order, the same for every frame.
    pub fn next_frame(&mut self, quit: bool) -> (r: Vec<FrameStep>)
        requires
            old(self).spec_running(),
        ensures
            final(self).spec_has_gui() == old(self).spec_has_gui(),
            final(self).spec_running() == !quit,
            quit ==> r@ == Seq::<FrameStep>::empty(),
            !quit ==> r@ == spec_frame_steps(old(self).spec_has_gui()),
    {
        if quit {
            self.running = false;
            return Vec::new();
        }
        let mut steps: Vec<FrameStep> = Vec::new();
        steps.push(FrameStep::ComputeTime);
        steps.push(FrameStep::Tick);
        if self.has_gui {
            steps.push(FrameStep::Gui);
        }
        steps.push(FrameStep::Present);
        assert(steps@ =~= spec_frame_steps(self.has_gui));
        steps
    }
}

/// Within every frame the timing is computed first, then the application
/// ticks, then its overlay (if it has one) is drawn, and the frame is
/// presented last; no step happens twice.
pub proof fn lemma_tick_gui_present_order(has_gui: bool)
    ensures
        ({
            let s = spec_frame_steps(has_gui);
            &&& s.no_duplicates()
            &&& s[0] == FrameStep::ComputeTime
            &&& s[1] == FrameStep::Tick
            &&& has_gui ==> s.len() == 4 && s[2] == FrameStep::Gui
            &&& !has_gui ==> s.len() == 3 && !s.contains(FrameStep::Gui)
            &&& s.last() == FrameStep::Present
        }),
{
    let s = spec_frame_steps(has_gui);
    if !has_gui {
        assert(!s.contains(FrameStep::Gui)) by {
            if s.contains(FrameStep::Gui) {
                let k = choose|k: int| 0 <= k < s.len() && s[k] == FrameStep::Gui;
                assert(k == 0 || k == 1 || k == 2);
            }
        }
    }
}

} // verus!
