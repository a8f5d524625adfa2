use vstd::prelude::*;
use crate::clock::{ClockModel, FrameClock, frame_nanos_spec};
use crate::draw::{AspectRatio, DrawState, frame_draw_state};
use crate::input::{InputEvent, batch_ends_loop, exit_requested};

verus! {

/// Where the loop stands within a frame.
#[derive(Clone, Copy, Debug, PartialEq, Eq, Structural)]
pub enum Phase {
    /// Waiting for the batch of events drained at the top of a frame.
    Polling,
    /// The application was told to update; waiting for the frame buffer's size.
    Updating,
    /// The application was told to render; waiting for the frame to be presented.
    Presenting,
    /// A quit or Escape event arrived; the loop is over.
    Terminated,
}

/// What the outside world reports to the loop.
#[derive(Debug)]
pub enum LoopEvent {
    /// All events that were pending at the top of a frame.
    Polled(Vec<InputEvent>),
    /// The frame buffer's size, read just before rendering.
    FramebufferSized { width: u32, height: u32 },
    /// The frame was presented at instant `now` (nanoseconds).
    Presented { now: u64 },
}

/// What the loop asks the outside world to do next.
#[derive(Clone, Copy, Debug, PartialEq, Eq, Structural)]
pub enum LoopAction {
    /// Leave the loop.
    Exit,
    /// Advance the application's simulation by `delta_nanos` nanoseconds.
    Update { delta_nanos: u64 },
    /// Acquire and clear a frame, render it with `draw` at `aspect`.
    Render { draw: DrawState, aspect: AspectRatio },
    /// Sleep `nanos` nanoseconds before the next frame.
    Sleep { nanos: u64 },
    /// The event does not belong to this point of the frame; nothing to do.
    Ignore,
}

/// The loop's state as a mathematical value.
pub struct DriverModel {
    pub phase: Phase,
    pub clock: ClockModel,
}

/// One step of the loop: the state after `e` and the action it asks for.
pub open spec fn next(m: DriverModel, e: LoopEvent) -> (DriverModel, LoopAction) {
    match m.phase {
        Phase::Terminated => (m, LoopAction::Exit),
        Phase::Polling => match e {
            LoopEvent::Polled(events) => if batch_ends_loop(events@) {
                (DriverModel { phase: Phase::Terminated, ..m }, LoopAction::Exit)
            } else {
                (
                    DriverModel { phase: Phase::Updating, ..m },
                    LoopAction::Update { delta_nanos: m.clock.frame as u64 },
                )
            },
            _ => (m, LoopAction::Ignore),
        },
        Phase::Updating => match e {
            LoopEvent::FramebufferSized { width, height } => (
                DriverModel { phase: Phase::Presenting, ..m },
                LoopAction::Render {
                    draw: frame_draw_state(),
                    aspect: AspectRatio { width, height },
                },
            ),
            _ => (m, LoopAction::Ignore),
        },
        Phase::Presenting => match e {
            LoopEvent::Presented { now } => (
                DriverModel {
                    phase: Phase::Polling,
                    clock: ClockModel {
                        ticks: m.clock.ticks + 1,
                        next_due: m.clock.next_due + m.clock.frame,
                        ..m.clock
                    },
                },
                LoopAction::Sleep {
                    nanos: (if now < m.clock.next_due { m.clock.next_due - now } else { 0 }) as u64,
                },
            ),
            _ => (m, LoopAction::Ignore),
        },
    }
}

/// The state reached and the actions asked for over a run of events.
pub open spec fn run(m: DriverModel, events: Seq<LoopEvent>) -> (DriverModel, Seq<LoopAction>)
    decreases events.len(),
{
    if events.len() == 0 {
        (m, Seq::empty())
    } else {
        let (m1, a) = next(m, events[0]);
        let (mf, rest) = run(m1, events.drop_first());
        (mf, seq![a] + rest)
    }
}

/// How many frames were paced (asked to sleep) in a run of actions.
pub open spec fn paced_frames(actions: Seq<LoopAction>) -> nat
    decreases actions.len(),
{
    if actions.len() == 0 {
        0
    } else {
        (if actions[0] is Sleep { 1nat } else { 0nat }) + paced_frames(actions.drop_first())
    }
}

/// The fixed-rate loop's decisions. The caller performs each action it
/// returns and reports back with the next event.
pub struct FrameDriver {
    pub phase: Phase,
    pub clock: FrameClock,
}

impl FrameDriver {
    /// The driver's state as a mathematical value.
    pub open spec fn model(&self) -> DriverModel {
        DriverModel { phase: self.phase, clock: self.clock@ }
    }

    /// The driver's invariant: its clock keeps to its schedule.
    pub open spec fn wf(&self) -> bool {
        self.clock.wf()
    }

    /// Whether `e` can be taken without scheduling a deadline past the
    /// last representable instant.
    pub open spec fn can_take(&self, e: LoopEvent) -> bool {
        (self.phase is Presenting && e is Presented) ==> self.clock@.next_due + self.clock@.frame
            <= u64::MAX
    }

    /// A loop at `rate` frames per second, started at `now`, about to poll
    /// its first events.
    pub fn new(rate: u32, now: u64) -> (r: FrameDriver)
        requires
            rate > 0,
            now + frame_nanos_spec(rate) <= u64::MAX,
        ensures
            r.wf(),
            r.model() == (DriverModel {
                phase: Phase::Polling,
                clock: ClockModel {
                    frame: frame_nanos_spec(rate),
                    start: now as nat,
                    ticks: 0,
                    next_due: (now + frame_nanos_spec(rate)) as nat,
                },
            }),
    {
        FrameDriver { phase: Phase::Polling, clock: FrameClock::new(rate, now) }
    }

    /// Takes one event and says what to do next.
    pub fn step(&mut self, e: LoopEvent) -> (r: LoopAction)
        requires
            old(self).wf(),
            old(self).can_take(e),
        ensures
            final(self).wf(),
            (final(self).model(), r) == next(old(self).model(), e),
    {
        match self.phase {
            Phase::Terminated => LoopAction::Exit,
            Phase::Polling => match e {
                LoopEvent::Polled(events) => {
                    if exit_requested(&events) {
                        self.phase = Phase::Terminated;
                        LoopAction::Exit
                    } else {
                        self.phase = Phase::Updating;
                        LoopAction::Update { delta_nanos: self.clock.frame_nanos() }
                    }
                },
                _ => LoopAction::Ignore,
            },
            Phase::Updating => match e {
                LoopEvent::FramebufferSized { width, height } => {
                    self.phase = Phase::Presenting;
                    LoopAction::Render {
                        draw: DrawState::for_frame(),
                        aspect: AspectRatio { width, height },
                    }
                },
                _ => LoopAction::Ignore,
            },
            Phase::Presenting => match e {
                LoopEvent::Presented { now } => {
                    let nanos = self.clock.remaining(now);
                    self.clock.advance();
                    self.phase = Phase::Polling;
                    LoopAction::Sleep { nanos }
                },
                _ => LoopAction::Ignore,
            },
        }
    }
}

/// After the loop has terminated, it answers every event with `Exit` and
/// stays terminated.
pub proof fn lemma_terminated_is_final(m: DriverModel, events: Seq<LoopEvent>)
    requires
        m.phase == Phase::Terminated,
    ensures
        run(m, events).0 == m,
        forall|i: int| 0 <= i < run(m, events).1.len() ==> run(m, events).1[i] == LoopAction::Exit,
    decreases events.len(),
{
    if events.len() > 0 {
        lemma_terminated_is_final(m, events.drop_first());
        let rest = run(m, events.drop_first()).1;
        assert forall|i: int| 0 <= i < run(m, events).1.len() implies run(m, events).1[i]
            == LoopAction::Exit by {
            if i > 0 {
                assert(run(m, events).1[i] == rest[i - 1]);
            }
        }
    }
}

/// A quit or Escape event drained at the top of a frame ends the loop
/// there: neither that frame nor any later one is updated or rendered.
pub proof fn lemma_exit_event_stops_frames(m: DriverModel, first: LoopEvent, rest: Seq<LoopEvent>)
    requires
        m.phase == Phase::Polling,
        first matches LoopEvent::Polled(events) && batch_ends_loop(events@),
    ensures
        run(m, seq![first] + rest).0.phase == Phase::Terminated,
        forall|i: int|
            0 <= i < run(m, seq![first] + rest).1.len() ==> run(m, seq![first] + rest).1[i]
                == LoopAction::Exit,
{
    let evs = seq![first] + rest;
    assert(evs[0] == first);
    assert(evs.drop_first() =~= rest);
    let m1 = next(m, first).0;
    lemma_terminated_is_final(m1, rest);
    let all = run(m, evs).1;
    assert forall|i: int| 0 <= i < all.len() implies all[i] == LoopAction::Exit by {
        if i > 0 {
            assert(all[i] == run(m1, rest).1[i - 1]);
        }
    }
}

/// Whatever instants the frames are presented at, every update the loop
/// asks for is by the fixed frame length, never by the time measured.
pub proof fn lemma_update_delta_is_nominal(m: DriverModel, events: Seq<LoopEvent>)
    ensures
        run(m, events).0.clock.frame == m.clock.frame,
        forall|i: int|
            0 <= i < run(m, events).1.len() && (#[trigger] run(m, events).1[i]) is Update
                ==> run(m, events).1[i]->delta_nanos == m.clock.frame as u64,
    decreases events.len(),
{
    if events.len() > 0 {
        let m1 = next(m, events[0]).0;
        lemma_update_delta_is_nominal(m1, events.drop_first());
        let all = run(m, events).1;
        assert forall|i: int| 0 <= i < all.len() && (#[trigger] all[i]) is Update implies all[i]->delta_nanos
            == m.clock.frame as u64 by {
            if i > 0 {
                assert(all[i] == run(m1, events.drop_first()).1[i - 1]);
            }
        }
    }
}

/// Whatever instants the frames are presented at, each paced frame moves
/// the deadline on by exactly one frame length: after `n` paced frames it
/// lies `n + 1` frame lengths after the start.
pub proof fn lemma_schedule_is_fixed(m: DriverModel, events: Seq<LoopEvent>)
    requires
        m.clock.on_schedule(),
    ensures
        run(m, events).0.clock.on_schedule(),
        run(m, events).0.clock.start == m.clock.start,
        run(m, events).0.clock.frame == m.clock.frame,
        run(m, events).0.clock.ticks == m.clock.ticks + paced_frames(run(m, events).1),
    decreases events.len(),
{
    if events.len() > 0 {
        let (m1, a) = next(m, events[0]);
        assert(m1.clock.on_schedule()) by (nonlinear_arith)
            requires
                m.clock.on_schedule(),
                m1.clock == m.clock || m1.clock == (ClockModel {
                    ticks: m.clock.ticks + 1,
                    next_due: m.clock.next_due + m.clock.frame,
                    ..m.clock
                }),
        {}
        lemma_schedule_is_fixed(m1, events.drop_first());
        let all = run(m, events).1;
        assert(all[0] == a);
        assert(all.drop_first() =~= run(m1, events.drop_first()).1);
    }
}

} // verus!
