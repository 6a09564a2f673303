//! Turrets and the platforms that carry their barrels.

use vstd::prelude::*;
use crate::angle::{is_direction, FRAC_PI_2, PI};
use crate::charge::{Charge, ChargeView};
use crate::participant::{Entity, Participant};
use crate::stopwatch::{oscillation, TurretStopwatch};
use crate::tile::Position;
use crate::visual::{ChargeVisual, ChargeVisualView};

verus! {

/// The distance of every turret from both axes, in units.
pub const TURRET_POSITION: i64 = 350;

/// The direction in which the turret of `owner` points when its sweep is
/// at zero, in nanoradians. The four turrets face the middle of the grid.
pub open spec fn turret_base_offset(owner: Participant) -> int {
    match owner {
        Participant::A => PI as int,
        Participant::B => -FRAC_PI_2,
        Participant::C => FRAC_PI_2 as int,
        Participant::D => 0,
    }
}

/// The place of the turret of `owner`, in half units: one turret in the
/// far corner of each quadrant.
pub open spec fn turret_position(owner: Participant) -> Position {
    let far = (2 * TURRET_POSITION) as i64;
    let near = (-2 * TURRET_POSITION) as i64;
    match owner {
        Participant::A => Position { x: far, y: far },
        Participant::B => Position { x: near, y: far },
        Participant::C => Position { x: far, y: near },
        Participant::D => Position { x: near, y: near },
    }
}

/// The rotation of a platform with the base offset `base_offset` after
/// `elapsed` nanoseconds: the base offset less the sweep.
pub open spec fn platform_rotation(base_offset: int, elapsed: nat) -> int {
    base_offset - oscillation(elapsed)
}

/// The angle at which a turret with the base offset `base_offset` fires
/// after `elapsed` nanoseconds: the sweep added to the base offset.
pub open spec fn firing_angle(base_offset: int, elapsed: nat) -> int {
    oscillation(elapsed) + base_offset
}

/// The direction in which the turret of `owner` points when its sweep is
/// at zero.
pub fn base_offset(owner: Participant) -> (offset: i64)
    ensures
        offset == turret_base_offset(owner),
        is_direction(offset as int),
{
    match owner {
        Participant::A => PI,
        Participant::B => -FRAC_PI_2,
        Participant::C => FRAC_PI_2,
        Participant::D => 0,
    }
}

/// The place of the turret of `owner`.
pub fn position(owner: Participant) -> (place: Position)
    ensures
        place == turret_position(owner),
{
    let far: i64 = 2 * TURRET_POSITION;
    match owner {
        Participant::A => Position { x: far, y: far },
        Participant::B => Position { x: -far, y: far },
        Participant::C => Position { x: far, y: -far },
        Participant::D => Position { x: -far, y: -far },
    }
}

/// What a platform is, as mathematics sees it.
pub struct TurretPlatformView {
    /// The direction at a sweep of zero, in nanoradians.
    pub base_offset: int,
    /// The rotation that the platform was last turned to.
    pub rotation: int,
}

/// The rotating part of a turret.
#[derive(Clone, Copy, Debug)]
pub struct TurretPlatform {
    base_offset: i64,
    rotation: i64,
}

impl View for TurretPlatform {
    type V = TurretPlatformView;

    closed spec fn view(&self) -> TurretPlatformView {
        TurretPlatformView { base_offset: self.base_offset as int, rotation: self.rotation as int }
    }
}

impl TurretPlatform {
    #[verifier::type_invariant]
    spec fn base_is_direction(&self) -> bool {
        is_direction(self.base_offset as int)
    }

    /// A platform that has not been turned yet.
    pub fn new(base_offset: i64) -> (platform: TurretPlatform)
        requires
            is_direction(base_offset as int),
        ensures
            platform@ == (TurretPlatformView { base_offset: base_offset as int, rotation: 0 }),
    {
        TurretPlatform { base_offset, rotation: 0 }
    }

    /// Turns the platform to where the sweep stands on `stopwatch`.
    pub fn rotate(&mut self, stopwatch: &TurretStopwatch)
        ensures
            final(self)@ == (TurretPlatformView {
                base_offset: old(self)@.base_offset,
                rotation: platform_rotation(old(self)@.base_offset, stopwatch@),
            }),
    {
        proof {
            use_type_invariant(&*self);
        }
        let angle_offset: i64 = stopwatch.get();
        self.rotation = self.base_offset - angle_offset;
    }

    /// The angle at which a projectile leaves, were it fired now.
    pub fn firing_angle(&self, stopwatch: &TurretStopwatch) -> (angle: i64)
        ensures
            angle == firing_angle(self@.base_offset, stopwatch@),
    {
        proof {
            use_type_invariant(self);
        }
        stopwatch.get() + self.base_offset
    }

    /// The direction at a sweep of zero.
    pub fn base_offset(&self) -> (offset: i64)
        ensures
            offset == self@.base_offset,
            is_direction(offset as int),
    {
        proof {
            use_type_invariant(self);
        }
        self.base_offset
    }

    /// The rotation that the platform was last turned to.
    pub fn rotation(&self) -> (rotation: i64)
        ensures
            rotation == self@.rotation,
    {
        self.rotation
    }
}

/// What a turret is, as mathematics sees it.
pub struct TurretView {
    pub owner: Participant,
    pub position: Position,
    pub charge: ChargeView,
    /// The platform that carries the barrel.
    pub platform: Entity,
    pub visual: ChargeVisualView,
    /// Whether the charge has changed since the derived state was last
    /// brought up to date.
    pub changed: bool,
}

impl TurretView {
    /// The turret as it is set up: the initial charge, and derived state
    /// that is still to be brought up to date.
    pub open spec fn spawned(
        owner: Participant,
        position: Position,
        ball: Entity,
        platform: Entity,
    ) -> TurretView {
        TurretView {
            owner,
            position,
            charge: ChargeView::initial(ball),
            platform,
            visual: ChargeVisualView::spawned(),
            changed: true,
        }
    }

    /// The turret after one multiplication of its charge.
    pub open spec fn multiply(self) -> TurretView {
        TurretView { charge: self.charge.multiply(), changed: true, ..self }
    }

    /// The turret after its derived state was brought up to date.
    pub open spec fn synced(self) -> TurretView {
        if self.changed {
            TurretView { visual: ChargeVisualView::of(self.charge), changed: false, ..self }
        } else {
            self
        }
    }

    /// Unless the charge is marked as changed, the derived state is that
    /// of the charge; the charge couples value and level; and the ball on
    /// screen is the ball that collides.
    pub open spec fn consistent(self) -> bool {
        &&& self.changed || self.visual.shows(self.charge)
        &&& self.charge.coupled()
        &&& self.visual.scales_agree()
    }
}

/// The emplacement of one participant.
#[derive(Debug)]
pub struct Turret {
    owner: Participant,
    position: Position,
    charge: Charge,
    platform: Entity,
    visual: ChargeVisual,
    changed: bool,
}

impl View for Turret {
    type V = TurretView;

    closed spec fn view(&self) -> TurretView {
        TurretView {
            owner: self.owner,
            position: self.position,
            charge: self.charge@,
            platform: self.platform,
            visual: self.visual@,
            changed: self.changed,
        }
    }
}

impl Turret {
    /// Every turret is consistent.
    #[verifier::type_invariant]
    pub open spec fn consistent(&self) -> bool {
        self@.consistent()
    }

    /// The turret of `owner` at (`x`, `y`) half units, with the initial
    /// charge. `ball` is its charge ball and `platform` its platform.
    pub fn new(owner: Participant, x: i64, y: i64, ball: Entity, platform: Entity) -> (turret:
        Turret)
        ensures
            turret@ == TurretView::spawned(owner, Position { x, y }, ball, platform),
    {
        let charge = Charge::from(ball);
        let visual = ChargeVisual::new();
        proof {
            use_type_invariant(&charge);
            use_type_invariant(&visual);
        }
        Turret { owner, position: Position { x, y }, charge, platform, visual, changed: true }
    }

    /// Doubles the charge and marks it as changed.
    pub fn multiply(&mut self)
        ensures
            final(self)@ == old(self)@.multiply(),
    {
        proof {
            use_type_invariant(&*self);
        }
        let charge = self.charge.multiplied();
        proof {
            use_type_invariant(&charge);
        }
        self.changed = true;
        self.charge = charge;
    }

    /// Brings the label and both balls up to date with the charge, if the
    /// charge has changed since this was last done. Returns whether it had.
    pub fn sync(&mut self) -> (updated: bool)
        ensures
            updated == old(self)@.changed,
            final(self)@ == old(self)@.synced(),
            final(self)@.visual.shows(final(self)@.charge),
    {
        proof {
            use_type_invariant(&*self);
        }
        let updated = self.changed;
        if updated {
            let visual = ChargeVisual::showing(&self.charge);
            proof {
                use_type_invariant(&visual);
            }
            self.visual = visual;
            self.changed = false;
        }
        updated
    }

    pub fn owner(&self) -> (owner: Participant)
        ensures
            owner == self@.owner,
    {
        self.owner
    }

    pub fn position(&self) -> (position: Position)
        ensures
            position == self@.position,
    {
        self.position
    }

    /// The stored charge.
    pub fn charge(&self) -> (charge: &Charge)
        ensures
            charge@ == self@.charge,
            self@.consistent(),
    {
        proof {
            use_type_invariant(self);
        }
        &self.charge
    }

    /// The platform that carries the barrel.
    pub fn platform(&self) -> (platform: Entity)
        ensures
            platform == self@.platform,
    {
        self.platform
    }

    /// The label and the balls, as they were last brought up to date.
    pub fn visual(&self) -> (visual: &ChargeVisual)
        ensures
            visual@ == self@.visual,
            self@.consistent(),
    {
        proof {
            use_type_invariant(self);
        }
        &self.visual
    }

    /// Whether the charge has changed since the derived state was last
    /// brought up to date.
    pub fn changed(&self) -> (changed: bool)
        ensures
            changed == self@.changed,
    {
        self.changed
    }
}

} // verus!
