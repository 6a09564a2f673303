use turret_arena::angle::FRAC_PI_2;
use turret_arena::bullet::{
    fire, Bullet, Impulse, Shot, BULLET_FIRE_FORCE, BULLET_GRAVITY_SCALE, BULLET_MASS_FACTOR,
    BULLET_RESTITUTION,
};
use turret_arena::stopwatch::TurretStopwatch;
use turret_arena::turret::{Turret, TurretPlatform};
use turret_arena::charge::Charge;
use turret_arena::participant::{Entity, Participant};
use turret_arena::tile::Position;
use turret_arena::visual::FontSize;

#[test]
fn bullet_constants() {
    assert_eq!(BULLET_FIRE_FORCE, 100);
    assert_eq!(BULLET_MASS_FACTOR, 1);
    assert_eq!(BULLET_GRAVITY_SCALE, 0);
    assert_eq!(BULLET_RESTITUTION, 1);
}

#[test]
fn bullet_carries_a_copy_of_the_charge() {
    let mut charge = Charge::from(Entity(1));
    charge.multiply();
    charge.multiply();
    charge.multiply();
    let bullet = Bullet::new(Participant::C, 700, -700, Entity(40), &charge, 1_234_567);
    assert_eq!(bullet.owner(), Participant::C);
    assert_eq!(bullet.position(), Position { x: 700, y: -700 });
    assert_eq!(bullet.charge().value().to_string(), "8");
    assert_eq!(bullet.charge().level(), 4);
    assert_eq!(bullet.charge().link(), Entity(40));
    assert_eq!(charge.value().to_string(), "8");
    assert_eq!(charge.level(), 4);
    assert_eq!(charge.link(), Entity(1));
}

#[test]
fn bullet_mass_is_value_times_mass_factor() {
    let mut charge = Charge::from(Entity(1));
    for expected in [1u64, 2, 4, 8, 16, 32] {
        let bullet = Bullet::new(Participant::A, 0, 0, Entity(2), &charge, 0);
        assert_eq!(bullet.mass().to_string(), (expected * BULLET_MASS_FACTOR as u64).to_string());
        charge.multiply();
    }
}

#[test]
fn bullet_leaves_with_the_fire_force_at_the_firing_angle() {
    let charge = Charge::from(Entity(1));
    let bullet = Bullet::new(Participant::D, -700, -700, Entity(2), &charge, -987_654_321);
    assert_eq!(bullet.impulse(), Impulse { magnitude: 100, angle: -987_654_321, torque: 0 });
}

#[test]
fn bullet_body_floats_bounces_and_does_not_turn() {
    let charge = Charge::from(Entity(1));
    let bullet = Bullet::new(Participant::A, 700, 700, Entity(2), &charge, 0);
    assert_eq!(bullet.gravity_scale(), 0);
    assert_eq!(bullet.restitution(), 1);
    assert!(bullet.rotation_locked());
}

#[test]
fn bullet_shows_its_charge_from_the_start() {
    let mut charge = Charge::from(Entity(1));
    for _ in 0..7 {
        charge.multiply();
    }
    let bullet = Bullet::new(Participant::A, 700, 700, Entity(2), &charge, 0);
    assert_eq!(bullet.visual().label().value, "128");
    assert_eq!(bullet.visual().label().font_size, FontSize { numerator: 160, denominator: 3 });
    assert_eq!(bullet.visual().ball_scale(), 40);
    assert_eq!(bullet.visual().collider_scale(), 40);
}

#[test]
fn shot_makes_the_bullet_it_describes() {
    let mut charge = Charge::from(Entity(5));
    charge.multiply();
    let shot = Shot {
        owner: Participant::B,
        position: Position { x: -700, y: 700 },
        charge,
        firing_angle: 42,
    };
    let bullet = shot.bullet(Entity(77));
    assert_eq!(bullet.owner(), Participant::B);
    assert_eq!(bullet.position(), Position { x: -700, y: 700 });
    assert_eq!(bullet.charge().value().to_string(), "2");
    assert_eq!(bullet.charge().level(), 2);
    assert_eq!(bullet.charge().link(), Entity(77));
    assert_eq!(bullet.mass().to_string(), "2");
    assert_eq!(bullet.impulse(), Impulse { magnitude: 100, angle: 42, torque: 0 });
    assert_eq!(shot.charge.link(), Entity(5));
}

#[test]
fn fire_makes_a_bullet_of_the_turret_and_leaves_the_turret_alone() {
    let mut turret = Turret::new(Participant::C, 700, -700, Entity(30), Entity(31));
    turret.multiply();
    turret.multiply();
    turret.sync();
    let platform = TurretPlatform::new(FRAC_PI_2);
    let mut stopwatch = TurretStopwatch::new();
    stopwatch.tick(300_000_000);
    let bullet = fire(Participant::C, &turret, &platform, &stopwatch, Entity(32));
    assert_eq!(bullet.owner(), Participant::C);
    assert_eq!(bullet.position(), Position { x: 700, y: -700 });
    assert_eq!(bullet.mass().to_string(), "4");
    assert_eq!(
        bullet.impulse(),
        Impulse { magnitude: 100, angle: FRAC_PI_2 + 300_000_000, torque: 0 }
    );
    assert_eq!(bullet.charge().value().to_string(), "4");
    assert_eq!(bullet.charge().level(), 3);
    assert_eq!(bullet.charge().link(), Entity(32));
    assert_eq!(bullet.visual().label().value, "4");
    assert_eq!(bullet.visual().ball_scale(), 15);
    assert_eq!(turret.charge().value().to_string(), "4");
    assert_eq!(turret.charge().level(), 3);
    assert_eq!(turret.charge().link(), Entity(30));
    assert!(!turret.changed());
}
