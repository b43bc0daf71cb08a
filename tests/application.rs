use renderer::application::{FrameClock, FrameLoop, FrameStep, FrameTime};

#[test]
fn frame_time_is_now_and_delta() {
    let mut clock = FrameClock::start(1_000);
    assert_eq!(clock.frame(1_016), FrameTime { now: 1_016, delta: 16 });
    assert_eq!(clock.frame(1_016), FrameTime { now: 1_016, delta: 0 });
    assert_eq!(clock.frame(1_050), FrameTime { now: 1_050, delta: 34 });
    assert_eq!(clock.previous(), 1_050);
}

#[test]
fn tick_before_gui_before_present_every_frame() {
    let mut frames = FrameLoop::new(true);
    for _ in 0..3 {
        assert_eq!(
            frames.next_frame(false),
            vec![FrameStep::ComputeTime, FrameStep::Tick, FrameStep::Gui, FrameStep::Present]
        );
        assert!(frames.running());
    }
    assert_eq!(frames.next_frame(true), vec![]);
    assert!(!frames.running());
}

#[test]
fn frame_without_overlay() {
    let mut frames = FrameLoop::new(false);
    assert_eq!(
        frames.next_frame(false),
        vec![FrameStep::ComputeTime, FrameStep::Tick, FrameStep::Present]
    );
}

#[test]
fn quit_on_first_frame_runs_nothing() {
    let mut frames = FrameLoop::new(true);
    assert!(frames.next_frame(true).is_empty());
    assert!(!frames.running());
}
