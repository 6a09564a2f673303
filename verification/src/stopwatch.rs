//! The clock of the turrets and the sweep that follows it.

use vstd::prelude::*;
use vstd::arithmetic::div_mod::{
    lemma_fundamental_div_mod, lemma_mod_multiples_vanish, lemma_mul_mod_noop_left,
};
use vstd::math::abs;
use crate::angle::{FRAC_PI_2, PI};

verus! {

/// How fast the turrets sweep, in nanoradians per nanosecond.
pub const TURRET_ROTATION_SPEED: u64 = 1;

/// The sweep angle of a turret that has turned at `speed` for `elapsed`
/// nanoseconds: a ramp from zero up to a quarter turn and back down.
pub open spec fn sweep(elapsed: nat, speed: nat) -> int {
    let ramp = ((elapsed % (PI as nat)) * speed) % (PI as nat);
    FRAC_PI_2 - abs(ramp - FRAC_PI_2)
}

/// The sweep angle that all turrets share after `elapsed` nanoseconds.
pub open spec fn oscillation(elapsed: nat) -> int {
    sweep(elapsed, TURRET_ROTATION_SPEED as nat)
}

/// The sweep never leaves the quarter turn.
pub proof fn lemma_sweep_bounded(elapsed: nat, speed: nat)
    ensures
        0 <= sweep(elapsed, speed) <= FRAC_PI_2,
{
}

/// The sweep starts at zero.
pub proof fn lemma_sweep_starts_at_zero(speed: nat)
    ensures
        sweep(0, speed) == 0,
{
    assert((0nat % (PI as nat)) * speed == 0) by (nonlinear_arith);
}

/// The sweep repeats after every half turn of time, whatever the speed.
pub proof fn lemma_sweep_periodic(elapsed: nat, speed: nat)
    ensures
        sweep(elapsed + PI as nat, speed) == sweep(elapsed, speed),
{
    lemma_mod_multiples_vanish(1, elapsed as int, PI as int);
}

/// At a speed that divides the half turn evenly, the sweep repeats after
/// the half turn divided by the speed.
pub proof fn lemma_sweep_period_divided(elapsed: nat, speed: nat)
    requires
        speed > 0,
        PI as nat % speed == 0,
    ensures
        sweep(elapsed + PI as nat / speed, speed) == sweep(elapsed, speed),
{
    let half_turn = PI as int;
    let period = half_turn / (speed as int);
    let later = elapsed + period;
    lemma_fundamental_div_mod(half_turn, speed as int);
    lemma_mul_mod_noop_left(elapsed as int, speed as int, half_turn);
    lemma_mul_mod_noop_left(later, speed as int, half_turn);
    assert(later * speed == half_turn * 1 + elapsed * speed) by (nonlinear_arith)
        requires
            later == elapsed + period,
            half_turn == speed * period,
    ;
    lemma_mod_multiples_vanish(1, (elapsed * speed) as int, half_turn);
}

/// The sweep that the turrets share never leaves the quarter turn, and
/// starts at zero.
pub proof fn lemma_oscillation_bounded(elapsed: nat)
    ensures
        0 <= oscillation(elapsed) <= FRAC_PI_2,
        oscillation(0) == 0,
{
    lemma_sweep_starts_at_zero(TURRET_ROTATION_SPEED as nat);
}

/// The sweep that the turrets share repeats after the half turn divided by
/// the rotation speed.
pub proof fn lemma_oscillation_periodic(elapsed: nat)
    ensures
        oscillation(elapsed + (PI as nat) / (TURRET_ROTATION_SPEED as nat)) == oscillation(elapsed),
{
    lemma_sweep_period_divided(elapsed, TURRET_ROTATION_SPEED as nat);
}

/// The clock that drives the sweep of all four turrets. It counts
/// nanoseconds and only ever moves forward.
#[derive(Clone, Copy, Debug)]
pub struct TurretStopwatch {
    elapsed: u128,
}

impl View for TurretStopwatch {
    type V = nat;

    closed spec fn view(&self) -> nat {
        self.elapsed as nat
    }
}

impl TurretStopwatch {
    /// A clock that has not run yet.
    pub fn new() -> (stopwatch: TurretStopwatch)
        ensures
            stopwatch@ == 0,
    {
        TurretStopwatch { elapsed: 0 }
    }

    /// The nanoseconds counted so far.
    pub fn elapsed(&self) -> (elapsed: u128)
        ensures
            elapsed == self@,
    {
        self.elapsed
    }

    /// Advances the clock by `delta` nanoseconds.
    pub fn tick(&mut self, delta: u128)
        requires
            old(self)@ + delta <= u128::MAX,
        ensures
            final(self)@ == old(self)@ + delta,
    {
        self.elapsed = self.elapsed + delta;
    }

    /// The sweep angle at the present time, in nanoradians.
    pub fn get(&self) -> (angle: i64)
        ensures
            angle == oscillation(self@),
            0 <= angle <= FRAC_PI_2,
    {
        let half_turn: u128 = PI as u128;
        let phase: u128 = self.elapsed % half_turn;
        assert(phase * TURRET_ROTATION_SPEED <= u128::MAX) by (nonlinear_arith)
            requires
                phase < 3_141_592_654,
                TURRET_ROTATION_SPEED == 1,
        ;
        let ramp: i64 = ((phase * (TURRET_ROTATION_SPEED as u128)) % half_turn) as i64;
        if ramp >= FRAC_PI_2 {
            FRAC_PI_2 - (ramp - FRAC_PI_2)
        } else {
            FRAC_PI_2 - (FRAC_PI_2 - ramp)
        }
    }
}

impl Default for TurretStopwatch {
    /// A clock that has not run yet.
    fn default() -> (stopwatch: TurretStopwatch)
        ensures
            stopwatch@ == 0,
    {
        TurretStopwatch::new()
    }
}

} // verus!
