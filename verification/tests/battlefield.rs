use turret_arena::angle::{FRAC_PI_2, PI};
use turret_arena::battlefield::Battlefield;
use turret_arena::participant::{Entity, Participant, ParticipantMap};
use turret_arena::tile::{tile_grid, Position};
use turret_arena::trigger::{auto_multiply, TriggerEvent, TriggerType};
use turret_arena::turret::base_offset;

const EVERYONE: [Participant; 4] = [Participant::A, Participant::B, Participant::C, Participant::D];

fn set_up() -> Battlefield {
    Battlefield::setup(
        ParticipantMap::new(Entity(10), Entity(20), Entity(30), Entity(40)),
        ParticipantMap::new(Entity(11), Entity(21), Entity(31), Entity(41)),
    )
}

fn event(participant: Participant, trigger_type: TriggerType) -> TriggerEvent {
    TriggerEvent { participant, trigger_type }
}

fn charge_of(battlefield: &Battlefield, participant: Participant) -> (String, u128) {
    let charge = battlefield.turret(participant).charge();
    (charge.value().to_string(), charge.level())
}

#[test]
fn participant_map_gets_and_sets() {
    let mut map = ParticipantMap::new(1, 2, 3, 4);
    assert_eq!(*map.get(Participant::A), 1);
    assert_eq!(*map.get(Participant::B), 2);
    assert_eq!(*map.get(Participant::C), 3);
    assert_eq!(*map.get(Participant::D), 4);
    map.set(Participant::C, 30);
    *map.get_mut(Participant::D) += 36;
    assert_eq!((map.a, map.b, map.c, map.d), (1, 2, 30, 40));
}

#[test]
fn setup_lays_out_tiles_turrets_and_platforms() {
    let battlefield = set_up();
    assert_eq!(battlefield.tiles(), &tile_grid());
    assert_eq!(battlefield.tiles().len(), 6400);
    assert_eq!(battlefield.stopwatch().elapsed(), 0);
    let corners = [(700, 700), (-700, 700), (700, -700), (-700, -700)];
    for (index, participant) in EVERYONE.into_iter().enumerate() {
        let turret = battlefield.turret(participant);
        assert_eq!(turret.owner(), participant);
        assert_eq!(turret.position(), Position { x: corners[index].0, y: corners[index].1 });
        assert_eq!(turret.charge().link(), Entity(10 * (index as u64 + 1)));
        assert_eq!(turret.platform(), Entity(10 * (index as u64 + 1) + 1));
        assert_eq!(charge_of(&battlefield, participant), ("1".to_string(), 1));
        assert!(turret.changed());
        let platform = battlefield.platform(participant);
        assert_eq!(platform.base_offset(), base_offset(participant));
        assert_eq!(platform.rotation(), 0);
    }
}

#[test]
fn rotate_turret_advances_the_clock_and_turns_every_platform() {
    let mut battlefield = set_up();
    battlefield.rotate_turret(500_000_000);
    battlefield.rotate_turret(500_000_000);
    assert_eq!(battlefield.stopwatch().elapsed(), 1_000_000_000);
    assert_eq!(battlefield.platform(Participant::A).rotation(), PI - 1_000_000_000);
    assert_eq!(battlefield.platform(Participant::B).rotation(), -FRAC_PI_2 - 1_000_000_000);
    assert_eq!(battlefield.platform(Participant::C).rotation(), FRAC_PI_2 - 1_000_000_000);
    assert_eq!(battlefield.platform(Participant::D).rotation(), -1_000_000_000);
    for participant in EVERYONE {
        assert_eq!(battlefield.platform(participant).base_offset(), base_offset(participant));
        assert_eq!(charge_of(&battlefield, participant), ("1".to_string(), 1));
    }
}

#[test]
fn charged_shot_without_multiply_fires_the_initial_charge() {
    let mut battlefield = set_up();
    battlefield.rotate_turret(250_000_000);
    let shots = battlefield.handle_trigger_events(&vec![event(
        Participant::A,
        TriggerType::ChargedShot,
    )]);
    assert_eq!(shots.len(), 1);
    assert_eq!(shots[0].owner, Participant::A);
    assert_eq!(shots[0].position, Position { x: 700, y: 700 });
    assert_eq!(shots[0].firing_angle, PI + 250_000_000);
    let bullet = shots[0].bullet(Entity(99));
    assert_eq!(bullet.mass().to_string(), "1");
    assert_eq!(bullet.impulse().magnitude, 100);
    assert_eq!(bullet.impulse().angle, base_offset(Participant::A) + 250_000_000);
    assert_eq!(bullet.impulse().torque, 0);
    assert_eq!(bullet.visual().label().value, "1");
    assert_eq!(bullet.charge().link(), Entity(99));
    assert_eq!(bullet.owner(), Participant::A);
}

#[test]
fn three_multiplies_make_eight_at_level_four() {
    let mut battlefield = set_up();
    let events = vec![
        event(Participant::B, TriggerType::Multiply),
        event(Participant::B, TriggerType::Multiply),
        event(Participant::B, TriggerType::Multiply),
    ];
    let shots = battlefield.handle_trigger_events(&events);
    assert!(shots.is_empty());
    assert_eq!(charge_of(&battlefield, Participant::B), ("8".to_string(), 4));
    for participant in [Participant::A, Participant::C, Participant::D] {
        assert_eq!(charge_of(&battlefield, participant), ("1".to_string(), 1));
    }
    battlefield.update_charge_visuals();
    let visual = battlefield.turret(Participant::B).visual();
    assert_eq!(visual.ball_scale(), 4 * 5);
    assert_eq!(visual.collider_scale(), 4 * 5);
    assert_eq!(visual.label().value, "8");
}

#[test]
fn burst_shot_changes_nothing_and_fires_nothing() {
    let mut battlefield = set_up();
    battlefield.handle_trigger_events(&vec![event(Participant::C, TriggerType::Multiply)]);
    battlefield.update_charge_visuals();
    let shots = battlefield.handle_trigger_events(&vec![event(
        Participant::C,
        TriggerType::BurstShot,
    )]);
    assert!(shots.is_empty());
    assert_eq!(charge_of(&battlefield, Participant::C), ("2".to_string(), 2));
    assert!(!battlefield.turret(Participant::C).changed());
    for participant in [Participant::A, Participant::B, Participant::D] {
        assert_eq!(charge_of(&battlefield, participant), ("1".to_string(), 1));
    }
}

#[test]
fn firing_leaves_the_stored_charge_as_it_was() {
    let mut battlefield = set_up();
    battlefield.handle_trigger_events(&vec![
        event(Participant::D, TriggerType::Multiply),
        event(Participant::D, TriggerType::Multiply),
    ]);
    battlefield.update_charge_visuals();
    for _ in 0..3 {
        let shots = battlefield.handle_trigger_events(&vec![event(
            Participant::D,
            TriggerType::ChargedShot,
        )]);
        assert_eq!(shots.len(), 1);
        assert_eq!(shots[0].charge.value().to_string(), "4");
        assert_eq!(shots[0].charge.level(), 3);
        assert_eq!(charge_of(&battlefield, Participant::D), ("4".to_string(), 3));
        assert_eq!(battlefield.turret(Participant::D).charge().link(), Entity(40));
        assert!(!battlefield.turret(Participant::D).changed());
    }
}

#[test]
fn triggers_are_handled_in_their_order() {
    let mut battlefield = set_up();
    let events = vec![
        event(Participant::A, TriggerType::ChargedShot),
        event(Participant::A, TriggerType::Multiply),
        event(Participant::B, TriggerType::Multiply),
        event(Participant::A, TriggerType::ChargedShot),
        event(Participant::C, TriggerType::BurstShot),
        event(Participant::A, TriggerType::Multiply),
        event(Participant::B, TriggerType::ChargedShot),
        event(Participant::A, TriggerType::ChargedShot),
    ];
    let shots = battlefield.handle_trigger_events(&events);
    let fired: Vec<(Participant, String, u128)> = shots
        .iter()
        .map(|shot| (shot.owner, shot.charge.value().to_string(), shot.charge.level()))
        .collect();
    assert_eq!(
        fired,
        vec![
            (Participant::A, "1".to_string(), 1),
            (Participant::A, "2".to_string(), 2),
            (Participant::B, "2".to_string(), 2),
            (Participant::A, "4".to_string(), 3),
        ]
    );
    assert_eq!(charge_of(&battlefield, Participant::A), ("4".to_string(), 3));
    assert_eq!(charge_of(&battlefield, Participant::B), ("2".to_string(), 2));
    assert_eq!(charge_of(&battlefield, Participant::C), ("1".to_string(), 1));
    assert_eq!(charge_of(&battlefield, Participant::D), ("1".to_string(), 1));
}

#[test]
fn two_batches_do_what_one_does() {
    let events = vec![
        event(Participant::A, TriggerType::Multiply),
        event(Participant::A, TriggerType::ChargedShot),
        event(Participant::D, TriggerType::Multiply),
        event(Participant::A, TriggerType::Multiply),
        event(Participant::D, TriggerType::ChargedShot),
    ];
    let mut whole = set_up();
    let all = whole.handle_trigger_events(&events);
    let mut split = set_up();
    let mut parts = split.handle_trigger_events(&events[..2].to_vec());
    parts.extend(split.handle_trigger_events(&events[2..].to_vec()));
    assert_eq!(all.len(), parts.len());
    for (one, other) in all.iter().zip(parts.iter()) {
        assert_eq!(one.owner, other.owner);
        assert_eq!(one.charge.value().to_string(), other.charge.value().to_string());
        assert_eq!(one.charge.level(), other.charge.level());
        assert_eq!(one.firing_angle, other.firing_angle);
    }
    for participant in EVERYONE {
        assert_eq!(charge_of(&whole, participant), charge_of(&split, participant));
    }
}

#[test]
fn shots_leave_where_the_sweep_stands() {
    let mut battlefield = set_up();
    battlefield.rotate_turret(2_000_000_000);
    let shots = battlefield.handle_trigger_events(&vec![
        event(Participant::A, TriggerType::ChargedShot),
        event(Participant::B, TriggerType::ChargedShot),
        event(Participant::C, TriggerType::ChargedShot),
        event(Participant::D, TriggerType::ChargedShot),
    ]);
    let sweep = 1_141_592_654;
    assert_eq!(shots[0].firing_angle, PI + sweep);
    assert_eq!(shots[1].firing_angle, -FRAC_PI_2 + sweep);
    assert_eq!(shots[2].firing_angle, FRAC_PI_2 + sweep);
    assert_eq!(shots[3].firing_angle, sweep);
    assert_eq!(shots[1].position, Position { x: -700, y: 700 });
    assert_eq!(shots[2].position, Position { x: 700, y: -700 });
    assert_eq!(shots[3].position, Position { x: -700, y: -700 });
}

#[test]
fn tick_turns_first_then_handles_triggers_then_brings_visuals_up_to_date() {
    let mut battlefield = set_up();
    let shots = battlefield.tick(
        1_000_000_000,
        &vec![
            event(Participant::A, TriggerType::Multiply),
            event(Participant::A, TriggerType::ChargedShot),
        ],
    );
    assert_eq!(battlefield.stopwatch().elapsed(), 1_000_000_000);
    assert_eq!(battlefield.platform(Participant::A).rotation(), PI - 1_000_000_000);
    assert_eq!(shots.len(), 1);
    assert_eq!(shots[0].firing_angle, PI + 1_000_000_000);
    assert_eq!(shots[0].charge.value().to_string(), "2");
    for participant in EVERYONE {
        let turret = battlefield.turret(participant);
        assert!(!turret.changed());
        assert_eq!(turret.visual().label().value, turret.charge().value().to_string());
        assert_eq!(turret.visual().ball_scale(), turret.charge().level() * 5);
        assert_eq!(turret.visual().collider_scale(), turret.visual().ball_scale());
    }
    assert_eq!(battlefield.turret(Participant::A).visual().label().value, "2");
    assert_eq!(battlefield.turret(Participant::B).visual().label().value, "1");
}

#[test]
fn tick_without_triggers_only_turns() {
    let mut battlefield = set_up();
    battlefield.tick(0, &Vec::new());
    let shots = battlefield.tick(16_000_000, &Vec::new());
    assert!(shots.is_empty());
    assert_eq!(battlefield.stopwatch().elapsed(), 16_000_000);
    assert_eq!(battlefield.platform(Participant::D).rotation(), -16_000_000);
    for participant in EVERYONE {
        assert_eq!(charge_of(&battlefield, participant), ("1".to_string(), 1));
        assert_eq!(battlefield.turret(participant).visual().ball_scale(), 5);
    }
}

#[test]
fn auto_multiply_asks_participant_a_when_the_timer_has_run_out() {
    assert_eq!(auto_multiply(true), Some(event(Participant::A, TriggerType::Multiply)));
    assert_eq!(auto_multiply(false), None);
}
