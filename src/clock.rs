use vstd::prelude::*;

verus! {

/// One second, in nanoseconds.
pub const NANOS_PER_SECOND: u64 = 1_000_000_000;

/// What a frame clock stands for: the fixed frame length, the instant the
/// clock was started at, how many frames it has scheduled past, and the
/// instant the next frame is due (all instants in nanoseconds).
pub struct ClockModel {
    pub frame: nat,
    pub start: nat,
    pub ticks: nat,
    pub next_due: nat,
}

impl ClockModel {
    /// The deadline sits exactly `ticks + 1` frame lengths after the start:
    /// overruns never shift the schedule.
    pub open spec fn on_schedule(self) -> bool {
        self.next_due == self.start + (self.ticks + 1) * self.frame
    }
}

/// The frame length for a target rate: one second split into `rate` parts,
/// rounded down to whole nanoseconds.
pub open spec fn frame_nanos_spec(rate: u32) -> nat
    recommends
        rate > 0,
{
    (NANOS_PER_SECOND as nat / (rate as nat)) as nat
}

/// The frame length in nanoseconds for a target rate in frames per second.
pub fn frame_nanos_for_rate(rate: u32) -> (r: u64)
    requires
        rate > 0,
    ensures
        r == frame_nanos_spec(rate),
{
    NANOS_PER_SECOND / (rate as u64)
}

/// A fixed-step frame schedule: the next deadline advances by exactly one
/// frame length per frame, however long the frame took.
pub struct FrameClock {
    frame_nanos: u64,
    start: u64,
    next_due: u64,
    ticks: Ghost<nat>,
}

impl View for FrameClock {
    type V = ClockModel;

    closed spec fn view(&self) -> ClockModel {
        ClockModel {
            frame: self.frame_nanos as nat,
            start: self.start as nat,
            ticks: self.ticks@,
            next_due: self.next_due as nat,
        }
    }
}

impl FrameClock {
    /// The clock's internal invariant.
    pub open spec fn wf(&self) -> bool {
        &&& self@.on_schedule()
        &&& self@.next_due <= u64::MAX
    }

    /// Starts a schedule at `now` for `rate` frames per second; the first
    /// frame is due one frame length later.
    pub fn new(rate: u32, now: u64) -> (r: FrameClock)
        requires
            rate > 0,
            now + frame_nanos_spec(rate) <= u64::MAX,
        ensures
            r.wf(),
            r@ == (ClockModel {
                frame: frame_nanos_spec(rate),
                start: now as nat,
                ticks: 0,
                next_due: (now + frame_nanos_spec(rate)) as nat,
            }),
    {
        let frame_nanos = frame_nanos_for_rate(rate);
        assert((0 + 1) * (frame_nanos as nat) == frame_nanos as nat) by (nonlinear_arith);
        FrameClock { frame_nanos, start: now, next_due: now + frame_nanos, ticks: Ghost(0) }
    }

    /// The fixed frame length in nanoseconds.
    pub fn frame_nanos(&self) -> (r: u64)
        ensures
            r == self@.frame,
    {
        self.frame_nanos
    }

    /// The instant the next frame is due.
    pub fn next_due(&self) -> (r: u64)
        ensures
            r == self@.next_due,
    {
        self.next_due
    }

    /// Whether one more frame can be scheduled without leaving the range of
    /// representable instants.
    pub fn can_advance(&self) -> (r: bool)
        ensures
            r == (self@.next_due + self@.frame <= u64::MAX),
    {
        self.next_due <= u64::MAX - self.frame_nanos
    }

    /// How long to wait at `now` until the next frame is due; nothing when
    /// the deadline has already passed.
    pub fn remaining(&self, now: u64) -> (r: u64)
        ensures
            r == (if now < self@.next_due { self@.next_due - now } else { 0 }),
    {
        if now < self.next_due {
            self.next_due - now
        } else {
            0
        }
    }

    /// Moves the deadline on by exactly one frame length.
    pub fn advance(&mut self)
        requires
            old(self).wf(),
            old(self)@.next_due + old(self)@.frame <= u64::MAX,
        ensures
            final(self).wf(),
            final(self)@ == (ClockModel {
                ticks: old(self)@.ticks + 1,
                next_due: old(self)@.next_due + old(self)@.frame,
                ..old(self)@
            }),
    {
        self.next_due = self.next_due + self.frame_nanos;
        self.ticks = Ghost(self.ticks@ + 1);
        proof {
            let m = self@;
            assert(m.next_due == m.start + (m.ticks + 1) * m.frame) by (nonlinear_arith)
                requires
                    m.next_due == m.start + m.ticks * m.frame + m.frame,
            {}
        }
    }
}

} // verus!
