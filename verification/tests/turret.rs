use turret_arena::angle::{FRAC_PI_2, PI};
use turret_arena::participant::{Entity, Participant};
use turret_arena::stopwatch::TurretStopwatch;
use turret_arena::tile::Position;
use turret_arena::turret::{base_offset, position, Turret, TurretPlatform, TURRET_POSITION};
use turret_arena::visual::FontSize;

#[test]
fn base_offsets_face_the_middle() {
    assert_eq!(base_offset(Participant::A), PI);
    assert_eq!(base_offset(Participant::B), -FRAC_PI_2);
    assert_eq!(base_offset(Participant::C), FRAC_PI_2);
    assert_eq!(base_offset(Participant::D), 0);
}

#[test]
fn turrets_stand_in_the_far_corners() {
    assert_eq!(TURRET_POSITION, 350);
    assert_eq!(position(Participant::A), Position { x: 700, y: 700 });
    assert_eq!(position(Participant::B), Position { x: -700, y: 700 });
    assert_eq!(position(Participant::C), Position { x: 700, y: -700 });
    assert_eq!(position(Participant::D), Position { x: -700, y: -700 });
}

#[test]
fn platform_starts_unturned() {
    let platform = TurretPlatform::new(FRAC_PI_2);
    assert_eq!(platform.base_offset(), FRAC_PI_2);
    assert_eq!(platform.rotation(), 0);
}

#[test]
fn platform_turns_against_the_sweep_and_fires_with_it() {
    let mut stopwatch = TurretStopwatch::new();
    stopwatch.tick(1_000_000_000);
    let mut platform = TurretPlatform::new(PI);
    platform.rotate(&stopwatch);
    assert_eq!(platform.rotation(), PI - 1_000_000_000);
    assert_eq!(platform.base_offset(), PI);
    assert_eq!(platform.firing_angle(&stopwatch), PI + 1_000_000_000);
    let mut platform = TurretPlatform::new(-FRAC_PI_2);
    platform.rotate(&stopwatch);
    assert_eq!(platform.rotation(), -FRAC_PI_2 - 1_000_000_000);
    assert_eq!(platform.firing_angle(&stopwatch), -FRAC_PI_2 + 1_000_000_000);
}

#[test]
fn platform_takes_every_direction() {
    let mut stopwatch = TurretStopwatch::new();
    stopwatch.tick(FRAC_PI_2 as u128);
    for base in [-PI, -1, 0, 1, PI] {
        let mut platform = TurretPlatform::new(base);
        platform.rotate(&stopwatch);
        assert_eq!(platform.rotation(), base - FRAC_PI_2);
        assert_eq!(platform.firing_angle(&stopwatch), base + FRAC_PI_2);
    }
}

#[test]
fn turret_is_spawned_with_the_initial_charge() {
    let turret = Turret::new(Participant::B, -700, 700, Entity(11), Entity(12));
    assert_eq!(turret.owner(), Participant::B);
    assert_eq!(turret.position(), Position { x: -700, y: 700 });
    assert_eq!(turret.platform(), Entity(12));
    assert_eq!(turret.charge().value().to_string(), "1");
    assert_eq!(turret.charge().level(), 1);
    assert_eq!(turret.charge().link(), Entity(11));
    assert!(turret.changed());
    assert_eq!(turret.visual().label().value, "");
    assert_eq!(turret.visual().collider_scale(), 1);
    assert_eq!(turret.visual().ball_scale(), 1);
}

#[test]
fn sync_brings_label_and_balls_up_to_date() {
    let mut turret = Turret::new(Participant::A, 700, 700, Entity(1), Entity(2));
    turret.sync();
    assert!(!turret.changed());
    assert_eq!(turret.visual().label().value, "1");
    assert_eq!(turret.visual().label().font_size, FontSize { numerator: 10, denominator: 1 });
    assert_eq!(turret.visual().collider_scale(), 5);
    assert_eq!(turret.visual().ball_scale(), 5);
}

#[test]
fn multiply_marks_the_turret_as_changed_until_the_next_sync() {
    let mut turret = Turret::new(Participant::A, 700, 700, Entity(1), Entity(2));
    turret.sync();
    turret.multiply();
    assert!(turret.changed());
    assert_eq!(turret.charge().value().to_string(), "2");
    assert_eq!(turret.charge().level(), 2);
    assert_eq!(turret.visual().label().value, "1");
    assert_eq!(turret.visual().ball_scale(), 5);
    turret.sync();
    assert!(!turret.changed());
    assert_eq!(turret.visual().label().value, "2");
    assert_eq!(turret.visual().ball_scale(), 10);
    assert_eq!(turret.visual().collider_scale(), 10);
    turret.sync();
    assert_eq!(turret.visual().label().value, "2");
    assert_eq!(turret.owner(), Participant::A);
    assert_eq!(turret.platform(), Entity(2));
    assert_eq!(turret.charge().link(), Entity(1));
}
