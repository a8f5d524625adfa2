use vstd::prelude::*;

verus! {

/// A full turn, in nanodegrees.
pub const FULL_TURN: u64 = 360_000_000_000;

/// The example scene's angular rate: 45 degrees per second, which is 45
/// nanodegrees per nanosecond.
pub const NANODEGREES_PER_NANOSECOND: u64 = 45;

/// An angle in nanodegrees brought into one turn.
pub open spec fn wrapped(a: nat) -> nat {
    a % (FULL_TURN as nat)
}

/// The rotation reached from `r` by `delta` nanoseconds of turning.
pub open spec fn turned(r: nat, delta: nat) -> nat {
    wrapped(r + (NANODEGREES_PER_NANOSECOND as nat) * delta)
}

/// The rotation reached from `r` after one update per delta, in order.
pub open spec fn turned_by_all(r: nat, deltas: Seq<u64>) -> nat
    decreases deltas.len(),
{
    if deltas.len() == 0 {
        r
    } else {
        turned_by_all(turned(r, deltas[0] as nat), deltas.subrange(1, deltas.len() as int))
    }
}

/// Brings an angle in nanodegrees into `[0, FULL_TURN)` by taking off whole
/// turns one at a time.
pub fn wrap_angle(a: u128) -> (r: u64)
    ensures
        r == wrapped(a as nat),
        r < FULL_TURN,
{
    let mut x: u128 = a;
    while x >= FULL_TURN as u128
        invariant
            (x as nat) % (FULL_TURN as nat) == (a as nat) % (FULL_TURN as nat),
        decreases x,
    {
        proof {
            vstd::arithmetic::div_mod::lemma_mod_sub_multiples_vanish(x as int, FULL_TURN as int);
        }
        x = x - FULL_TURN as u128;
    }
    proof {
        vstd::arithmetic::div_mod::lemma_small_mod(x as nat, FULL_TURN as nat);
    }
    x as u64
}

/// The animated state of the example scene: a rotation about the axis the
/// camera looks along.
pub struct SceneState {
    rotation: u64,
}

impl SceneState {
    /// The rotation in nanodegrees.
    pub closed spec fn rotation_spec(&self) -> nat {
        self.rotation as nat
    }

    /// The rotation always lies within one turn.
    pub open spec fn wf(&self) -> bool {
        self.rotation_spec() < FULL_TURN
    }

    /// A scene that has not turned yet.
    pub fn new() -> (r: SceneState)
        ensures
            r.wf(),
            r.rotation_spec() == 0,
    {
        SceneState { rotation: 0 }
    }

    /// A scene turned to `nanodegrees`, brought into one turn.
    pub fn at_angle(nanodegrees: u64) -> (r: SceneState)
        ensures
            r.wf(),
            r.rotation_spec() == wrapped(nanodegrees as nat),
    {
        SceneState { rotation: wrap_angle(nanodegrees as u128) }
    }

    /// The rotation in nanodegrees, within `[0, FULL_TURN)`.
    pub fn rotation_nanodegrees(&self) -> (r: u64)
        requires
            self.wf(),
        ensures
            r == self.rotation_spec(),
            r < FULL_TURN,
    {
        self.rotation
    }

    /// Turns the scene by `delta_nanos` nanoseconds at the fixed angular
    /// rate, and wraps the angle back into one turn.
    pub fn update(&mut self, delta_nanos: u64)
        requires
            old(self).wf(),
        ensures
            final(self).wf(),
            final(self).rotation_spec() == turned(old(self).rotation_spec(), delta_nanos as nat),
    {
        let step: u128 = (NANODEGREES_PER_NANOSECOND as u128) * (delta_nanos as u128);
        assert(step <= 45 * (u64::MAX as u128)) by (nonlinear_arith)
            requires
                step == 45 * (delta_nanos as u128),
                delta_nanos <= u64::MAX,
        ;
        self.rotation = wrap_angle(self.rotation as u128 + step);
    }
}

/// However many updates run, with whatever delays, the rotation stays
/// within one turn.
pub proof fn lemma_rotation_stays_in_turn(r: nat, deltas: Seq<u64>)
    requires
        r < FULL_TURN,
    ensures
        turned_by_all(r, deltas) < FULL_TURN,
    decreases deltas.len(),
{
    if deltas.len() > 0 {
        lemma_rotation_stays_in_turn(
            turned(r, deltas[0] as nat),
            deltas.subrange(1, deltas.len() as int),
        );
    }
}

} // verus!
