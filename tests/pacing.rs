use game_animation_programming::{
    frame_nanos_for_rate, AspectRatio, Culling, DepthTest, DrawState, FrameClock, FrameDriver,
    InputEvent, Key, LoopAction, LoopEvent, Phase,
};

fn run_frame(d: &mut FrameDriver, width: u32, height: u32, presented_at: u64) -> Vec<LoopAction> {
    let mut actions = Vec::new();
    actions.push(d.step(LoopEvent::Polled(vec![InputEvent::Other])));
    actions.push(d.step(LoopEvent::FramebufferSized { width, height }));
    actions.push(d.step(LoopEvent::Presented { now: presented_at }));
    actions
}

#[test]
fn frame_length_at_thirty_hertz() {
    assert_eq!(frame_nanos_for_rate(30), 33_333_333);
    assert_eq!(frame_nanos_for_rate(1), 1_000_000_000);
    assert_eq!(frame_nanos_for_rate(60), 16_666_666);
}

#[test]
fn clock_first_deadline_is_one_frame_after_start() {
    let c = FrameClock::new(30, 1_000);
    assert_eq!(c.frame_nanos(), 33_333_333);
    assert_eq!(c.next_due(), 1_000 + 33_333_333);
}

#[test]
fn remaining_is_zero_after_an_overrun() {
    let c = FrameClock::new(30, 0);
    assert_eq!(c.remaining(0), 33_333_333);
    assert_eq!(c.remaining(33_333_000), 333);
    assert_eq!(c.remaining(33_333_333), 0);
    assert_eq!(c.remaining(90_000_000), 0);
}

#[test]
fn advance_moves_by_exactly_one_frame() {
    let mut c = FrameClock::new(30, 500);
    c.advance();
    assert_eq!(c.next_due(), 500 + 2 * 33_333_333);
    assert!(c.can_advance());
}

#[test]
fn cannot_advance_past_the_last_instant() {
    let c = FrameClock::new(1, u64::MAX - 1_000_000_000);
    assert_eq!(c.next_due(), u64::MAX);
    assert!(!c.can_advance());
}

#[test]
fn schedule_ignores_overruns() {
    let mut d = FrameDriver::new(30, 0);
    let frame = 33_333_333u64;
    let delays = [0u64, 50_000_000, 5_000_000, 200_000_000, 0];
    let mut now = 0u64;
    for (n, delay) in delays.iter().enumerate() {
        now += delay;
        run_frame(&mut d, 800, 600, now);
        assert_eq!(d.clock.next_due(), (n as u64 + 2) * frame);
    }
}

#[test]
fn sleep_is_the_time_left_until_the_deadline() {
    let mut d = FrameDriver::new(30, 0);
    let actions = run_frame(&mut d, 800, 600, 10_000_000);
    assert_eq!(actions[2], LoopAction::Sleep { nanos: 23_333_333 });
    let actions = run_frame(&mut d, 800, 600, 100_000_000);
    assert_eq!(actions[2], LoopAction::Sleep { nanos: 0 });
}

#[test]
fn update_delta_is_nominal_whatever_the_delay() {
    let mut d = FrameDriver::new(30, 0);
    let mut now = 0u64;
    for delay in [1u64, 90_000_000, 0, 400_000_000] {
        now += delay;
        let actions = run_frame(&mut d, 800, 600, now);
        assert_eq!(actions[0], LoopAction::Update { delta_nanos: 33_333_333 });
    }
}

#[test]
fn quit_in_first_poll_runs_no_frame() {
    let mut d = FrameDriver::new(30, 0);
    let mut updates = 0;
    let mut renders = 0;
    let events = vec![
        LoopEvent::Polled(vec![InputEvent::Quit]),
        LoopEvent::FramebufferSized { width: 800, height: 600 },
        LoopEvent::Presented { now: 1 },
        LoopEvent::Polled(vec![]),
    ];
    let mut exited = false;
    for e in events {
        match d.step(e) {
            LoopAction::Update { .. } => updates += 1,
            LoopAction::Render { .. } => renders += 1,
            LoopAction::Exit => exited = true,
            _ => {}
        }
    }
    assert!(exited);
    assert_eq!(updates, 0);
    assert_eq!(renders, 0);
    assert_eq!(d.phase, Phase::Terminated);
}

#[test]
fn escape_at_third_frame_stops_before_its_update() {
    let mut d = FrameDriver::new(30, 0);
    run_frame(&mut d, 800, 600, 1);
    run_frame(&mut d, 800, 600, 2);
    let a = d.step(LoopEvent::Polled(vec![
        InputEvent::Other,
        InputEvent::KeyDown { scancode: Some(Key::Escape) },
    ]));
    assert_eq!(a, LoopAction::Exit);
    assert_eq!(d.step(LoopEvent::Polled(vec![])), LoopAction::Exit);
    assert_eq!(d.step(LoopEvent::FramebufferSized { width: 1, height: 1 }), LoopAction::Exit);
    assert_eq!(d.phase, Phase::Terminated);
}

#[test]
fn render_takes_the_current_framebuffer_size() {
    let mut d = FrameDriver::new(30, 0);
    let first = run_frame(&mut d, 800, 600, 1);
    let second = run_frame(&mut d, 1024, 512, 2);
    let draw = DrawState { depth_test: DepthTest::IfLess, depth_write: true, culling: Culling::Clockwise };
    assert_eq!(first[1], LoopAction::Render { draw, aspect: AspectRatio { width: 800, height: 600 } });
    assert_eq!(second[1], LoopAction::Render { draw, aspect: AspectRatio { width: 1024, height: 512 } });
}

#[test]
fn events_out_of_turn_are_ignored() {
    let mut d = FrameDriver::new(30, 0);
    assert_eq!(d.step(LoopEvent::Presented { now: 3 }), LoopAction::Ignore);
    assert_eq!(d.phase, Phase::Polling);
    d.step(LoopEvent::Polled(vec![]));
    assert_eq!(d.step(LoopEvent::Polled(vec![InputEvent::Quit])), LoopAction::Ignore);
    assert_eq!(d.phase, Phase::Updating);
}

#[test]
fn draw_state_of_a_frame() {
    let s = DrawState::for_frame();
    assert_eq!(s.depth_test, DepthTest::IfLess);
    assert!(s.depth_write);
    assert_eq!(s.culling, Culling::Clockwise);
}
