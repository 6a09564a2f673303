//! Projectiles, and the shots that they are made from.

use vstd::prelude::*;
use crate::charge::{Charge, ChargeView};
use crate::natural::Natural;
use crate::participant::{Entity, Participant};
use crate::stopwatch::TurretStopwatch;
use crate::tile::Position;
use crate::turret::{firing_angle, Turret, TurretPlatform};
use crate::visual::{ChargeVisual, ChargeVisualView};

verus! {

/// The strength of the impulse that sends a projectile off.
pub const BULLET_FIRE_FORCE: u64 = 100;

/// The mass of a projectile for each unit of its charge's value.
pub const BULLET_MASS_FACTOR: u8 = 1;

/// How strongly gravity pulls at a projectile: not at all.
pub const BULLET_GRAVITY_SCALE: u64 = 0;

/// How much of its speed a projectile keeps when it bounces: all of it.
pub const BULLET_RESTITUTION: u64 = 1;

/// A push on a body: its strength, its direction in nanoradians, and the
/// turning push that goes with it.
#[derive(Clone, Copy, Debug, PartialEq, Eq, Structural)]
pub struct Impulse {
    pub magnitude: u64,
    pub angle: i64,
    pub torque: u64,
}

/// What a projectile is, as mathematics sees it.
pub struct BulletView {
    pub owner: Participant,
    pub position: Position,
    pub charge: ChargeView,
    pub mass: nat,
    pub impulse: Impulse,
    pub gravity_scale: nat,
    pub restitution: nat,
    pub rotation_locked: bool,
    pub visual: ChargeVisualView,
}

impl BulletView {
    /// The projectile that `owner` fires from `position` at the angle
    /// `firing_angle`, with the value and level of `charge` and the charge
    /// ball `ball`.
    pub open spec fn fired(
        owner: Participant,
        position: Position,
        ball: Entity,
        charge: ChargeView,
        firing_angle: i64,
    ) -> BulletView {
        BulletView {
            owner,
            position,
            charge: charge.relinked(ball),
            mass: charge.value * BULLET_MASS_FACTOR as nat,
            impulse: Impulse { magnitude: BULLET_FIRE_FORCE, angle: firing_angle, torque: 0 },
            gravity_scale: BULLET_GRAVITY_SCALE as nat,
            restitution: BULLET_RESTITUTION as nat,
            rotation_locked: true,
            visual: ChargeVisualView::of(charge.relinked(ball)),
        }
    }

    /// The projectile is as one that was fired: its mass and its derived
    /// state are those of its charge, and its body is set as every
    /// projectile's is.
    pub open spec fn as_fired(self) -> bool {
        self == BulletView::fired(
            self.owner,
            self.position,
            self.charge.link,
            self.charge,
            self.impulse.angle,
        )
    }
}

/// A projectile in flight.
#[derive(Debug)]
pub struct Bullet {
    owner: Participant,
    position: Position,
    charge: Charge,
    mass: Natural,
    impulse: Impulse,
    visual: ChargeVisual,
}

impl View for Bullet {
    type V = BulletView;

    closed spec fn view(&self) -> BulletView {
        BulletView {
            owner: self.owner,
            position: self.position,
            charge: self.charge@,
            mass: self.mass@,
            impulse: self.impulse,
            gravity_scale: BULLET_GRAVITY_SCALE as nat,
            restitution: BULLET_RESTITUTION as nat,
            rotation_locked: true,
            visual: self.visual@,
        }
    }
}

impl Bullet {
    /// Every projectile is as one that was fired.
    #[verifier::type_invariant]
    pub open spec fn as_fired(&self) -> bool {
        self@.as_fired()
    }

    /// The projectile that `owner` fires from (`x`, `y`) half units at the
    /// angle `firing_angle`. It carries a copy of `charge`, which `ball`
    /// mirrors; `charge` itself is left as it is.
    pub fn new(
        owner: Participant,
        x: i64,
        y: i64,
        ball: Entity,
        charge: &Charge,
        firing_angle: i64,
    ) -> (bullet: Bullet)
        ensures
            bullet@ == BulletView::fired(owner, Position { x, y }, ball, charge@, firing_angle),
    {
        let copy = Charge::new(charge, ball);
        let visual = ChargeVisual::showing(&copy);
        Bullet {
            owner,
            position: Position { x, y },
            mass: charge.value().mul_small(BULLET_MASS_FACTOR),
            impulse: Impulse { magnitude: BULLET_FIRE_FORCE, angle: firing_angle, torque: 0 },
            charge: copy,
            visual,
        }
    }

    pub fn owner(&self) -> (owner: Participant)
        ensures
            owner == self@.owner,
    {
        self.owner
    }

    pub fn position(&self) -> (position: Position)
        ensures
            position == self@.position,
    {
        self.position
    }

    /// The charge that the projectile carries.
    pub fn charge(&self) -> (charge: &Charge)
        ensures
            charge@ == self@.charge,
            self@.as_fired(),
    {
        proof {
            use_type_invariant(self);
        }
        &self.charge
    }

    /// The mass of the body.
    pub fn mass(&self) -> (mass: &Natural)
        ensures
            mass@ == self@.mass,
            self@.as_fired(),
    {
        proof {
            use_type_invariant(self);
        }
        &self.mass
    }

    /// The push that sends the projectile off.
    pub fn impulse(&self) -> (impulse: Impulse)
        ensures
            impulse == self@.impulse,
            self@.as_fired(),
    {
        proof {
            use_type_invariant(self);
        }
        self.impulse
    }

    /// How strongly gravity pulls at the body.
    pub fn gravity_scale(&self) -> (scale: u64)
        ensures
            scale == self@.gravity_scale,
            scale == 0,
    {
        BULLET_GRAVITY_SCALE
    }

    /// How much of its speed the body keeps when it bounces.
    pub fn restitution(&self) -> (coefficient: u64)
        ensures
            coefficient == self@.restitution,
            coefficient == 1,
    {
        BULLET_RESTITUTION
    }

    /// Whether the body is kept from turning.
    pub fn rotation_locked(&self) -> (locked: bool)
        ensures
            locked == self@.rotation_locked,
            locked,
    {
        true
    }

    /// The label and the balls of the projectile.
    pub fn visual(&self) -> (visual: &ChargeVisual)
        ensures
            visual@ == self@.visual,
            self@.as_fired(),
    {
        proof {
            use_type_invariant(self);
        }
        &self.visual
    }
}

/// The projectile that `participant` fires from `turret`, whose platform is
/// `platform`, at the time that `stopwatch` shows. It leaves from the place
/// of the turret at the turret's aim and carries a copy of the turret's
/// charge, which `ball` mirrors. The turret is left as it is.
pub fn fire(
    participant: Participant,
    turret: &Turret,
    platform: &TurretPlatform,
    stopwatch: &TurretStopwatch,
    ball: Entity,
) -> (bullet: Bullet)
    ensures
        bullet@.impulse.angle == firing_angle(platform@.base_offset, stopwatch@),
        bullet@ == BulletView::fired(
            participant,
            turret@.position,
            ball,
            turret@.charge,
            bullet@.impulse.angle,
        ),
{
    let place = turret.position();
    Bullet::new(
        participant,
        place.x,
        place.y,
        ball,
        turret.charge(),
        platform.firing_angle(stopwatch),
    )
}

/// What a shot is, as mathematics sees it.
pub struct ShotView {
    pub owner: Participant,
    pub position: Position,
    pub charge: ChargeView,
    pub firing_angle: int,
}

/// What a turret hands over when it fires: all that a projectile is made
/// from, but for the charge ball, which the host world has yet to create.
#[derive(Debug)]
pub struct Shot {
    pub owner: Participant,
    /// The place of the turret that fired.
    pub position: Position,
    /// A copy of the turret's charge at the time of the shot.
    pub charge: Charge,
    /// The turret's aim at the time of the shot, in nanoradians.
    pub firing_angle: i64,
}

impl View for Shot {
    type V = ShotView;

    open spec fn view(&self) -> ShotView {
        ShotView {
            owner: self.owner,
            position: self.position,
            charge: self.charge@,
            firing_angle: self.firing_angle as int,
        }
    }
}

impl Shot {
    /// The projectile of this shot, with `ball` as its charge ball.
    pub fn bullet(&self, ball: Entity) -> (bullet: Bullet)
        ensures
            bullet@ == BulletView::fired(
                self.owner,
                self.position,
                ball,
                self.charge@,
                self.firing_angle,
            ),
    {
        Bullet::new(
            self.owner,
            self.position.x,
            self.position.y,
            ball,
            &self.charge,
            self.firing_angle,
        )
    }
}

} // verus!
