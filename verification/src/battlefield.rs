//! The battlefield as a whole: setting it up, turning the turrets, handling
//! triggers, and keeping the derived state of every charge up to date.

use vstd::prelude::*;
use vstd::arithmetic::power2::pow2;
use crate::bullet::{Shot, ShotView};
use crate::charge::{lemma_charge_doubling, lemma_initial_coupled, lemma_multiply_times_coupled};
use crate::participant::{Entity, Participant, ParticipantMap};
use crate::stopwatch::TurretStopwatch;
use crate::tile::{grid_tile, tile_grid, Tile, TILE_COUNT};
use crate::trigger::{TriggerEvent, TriggerType};
use crate::turret::{
    base_offset, firing_angle, platform_rotation, position, turret_base_offset, turret_position,
    Turret, TurretPlatform, TurretPlatformView, TurretView,
};

verus! {

/// The turrets after a run of triggers, and the shots that were fired on
/// the way, in the order in which they were fired.
pub struct Outcome {
    pub turrets: ParticipantMap<TurretView>,
    pub shots: Seq<ShotView>,
}

/// The shot that `participant` fires from `turret`, whose platform is
/// `platform`, after `elapsed` nanoseconds.
pub open spec fn shot_of(
    participant: Participant,
    turret: TurretView,
    platform: TurretPlatformView,
    elapsed: nat,
) -> ShotView {
    ShotView {
        owner: participant,
        position: turret.position,
        charge: turret.charge,
        firing_angle: firing_angle(platform.base_offset, elapsed),
    }
}

/// What one trigger makes of `state`. A multiplication changes the charge
/// of the participant's turret and nothing else. A charged shot adds one
/// shot and changes no turret. A burst shot changes nothing.
pub open spec fn apply_trigger(
    state: Outcome,
    platforms: ParticipantMap<TurretPlatformView>,
    elapsed: nat,
    event: TriggerEvent,
) -> Outcome {
    let turret = state.turrets.spec_get(event.participant);
    match event.trigger_type {
        TriggerType::Multiply => Outcome {
            turrets: state.turrets.spec_set(event.participant, turret.multiply()),
            shots: state.shots,
        },
        TriggerType::BurstShot => state,
        TriggerType::ChargedShot => Outcome {
            turrets: state.turrets,
            shots: state.shots.push(
                shot_of(
                    event.participant,
                    turret,
                    platforms.spec_get(event.participant),
                    elapsed,
                ),
            ),
        },
    }
}

/// What the triggers `events`, taken one after another in their order, make
/// of `turrets`.
pub open spec fn apply_triggers(
    turrets: ParticipantMap<TurretView>,
    platforms: ParticipantMap<TurretPlatformView>,
    elapsed: nat,
    events: Seq<TriggerEvent>,
) -> Outcome
    decreases events.len(),
{
    if events.len() == 0 {
        Outcome { turrets, shots: Seq::empty() }
    } else {
        apply_trigger(
            apply_triggers(turrets, platforms, elapsed, events.drop_last()),
            platforms,
            elapsed,
            events.last(),
        )
    }
}

/// The shots of `shots`, each as mathematics sees it.
pub open spec fn shot_views(shots: Seq<Shot>) -> Seq<ShotView> {
    shots.map_values(|shot: Shot| shot@)
}

/// What a battlefield is, as mathematics sees it.
pub struct BattlefieldView {
    pub tiles: Seq<Tile>,
    pub turrets: ParticipantMap<TurretView>,
    pub platforms: ParticipantMap<TurretPlatformView>,
    /// The nanoseconds that the sweep clock has counted.
    pub elapsed: nat,
}

impl BattlefieldView {
    /// The battlefield as it is set up: the full grid of tiles, the four
    /// turrets in their corners with the initial charge, each platform at
    /// its base offset and not yet turned, and a clock that has not run.
    pub open spec fn initial(
        balls: ParticipantMap<Entity>,
        platforms: ParticipantMap<Entity>,
    ) -> BattlefieldView {
        BattlefieldView {
            tiles: Seq::new((4 * TILE_COUNT * TILE_COUNT) as nat, |index: int| grid_tile(index)),
            turrets: ParticipantMap {
                a: Self::initial_turret(Participant::A, balls, platforms),
                b: Self::initial_turret(Participant::B, balls, platforms),
                c: Self::initial_turret(Participant::C, balls, platforms),
                d: Self::initial_turret(Participant::D, balls, platforms),
            },
            platforms: ParticipantMap {
                a: Self::initial_platform(Participant::A),
                b: Self::initial_platform(Participant::B),
                c: Self::initial_platform(Participant::C),
                d: Self::initial_platform(Participant::D),
            },
            elapsed: 0,
        }
    }

    /// The turret of `owner` as it is set up.
    pub open spec fn initial_turret(
        owner: Participant,
        balls: ParticipantMap<Entity>,
        platforms: ParticipantMap<Entity>,
    ) -> TurretView {
        TurretView::spawned(
            owner,
            turret_position(owner),
            balls.spec_get(owner),
            platforms.spec_get(owner),
        )
    }

    /// The platform of `owner` as it is set up.
    pub open spec fn initial_platform(owner: Participant) -> TurretPlatformView {
        TurretPlatformView { base_offset: turret_base_offset(owner), rotation: 0 }
    }

    /// `platform` turned to where the sweep stands after `elapsed`
    /// nanoseconds.
    pub open spec fn turned(platform: TurretPlatformView, elapsed: nat) -> TurretPlatformView {
        TurretPlatformView {
            base_offset: platform.base_offset,
            rotation: platform_rotation(platform.base_offset, elapsed),
        }
    }

    /// The battlefield after the clock has advanced by `delta` nanoseconds
    /// and every platform has followed the sweep.
    pub open spec fn rotated(self, delta: nat) -> BattlefieldView {
        let elapsed = self.elapsed + delta;
        BattlefieldView {
            platforms: ParticipantMap {
                a: Self::turned(self.platforms.a, elapsed),
                b: Self::turned(self.platforms.b, elapsed),
                c: Self::turned(self.platforms.c, elapsed),
                d: Self::turned(self.platforms.d, elapsed),
            },
            elapsed,
            ..self
        }
    }

    /// What the triggers `events` make of the turrets, and the shots they
    /// fire.
    pub open spec fn outcome(self, events: Seq<TriggerEvent>) -> Outcome {
        apply_triggers(self.turrets, self.platforms, self.elapsed, events)
    }

    /// The battlefield after the triggers `events`.
    pub open spec fn triggered(self, events: Seq<TriggerEvent>) -> BattlefieldView {
        BattlefieldView { turrets: self.outcome(events).turrets, ..self }
    }

    /// The battlefield after the derived state of every turret was brought
    /// up to date.
    pub open spec fn synced(self) -> BattlefieldView {
        BattlefieldView {
            turrets: ParticipantMap {
                a: self.turrets.a.synced(),
                b: self.turrets.b.synced(),
                c: self.turrets.c.synced(),
                d: self.turrets.d.synced(),
            },
            ..self
        }
    }

    /// The battlefield after one tick: first the clock advances and the
    /// platforms turn, then the triggers are handled in their order, then
    /// the derived state of every turret is brought up to date.
    pub open spec fn ticked(self, delta: nat, events: Seq<TriggerEvent>) -> BattlefieldView {
        self.rotated(delta).triggered(events).synced()
    }

    /// Each participant has the turret that is theirs, and each turret is
    /// consistent.
    pub open spec fn well_formed(self) -> bool {
        forall|participant: Participant|
            {
                &&& (#[trigger] self.turrets.spec_get(participant)).owner == participant
                &&& self.turrets.spec_get(participant).consistent()
            }
    }
}

/// The battlefield: the tiles, the four turrets with their platforms, and
/// the clock that their sweep follows.
#[derive(Debug)]
pub struct Battlefield {
    tiles: Vec<Tile>,
    turrets: ParticipantMap<Turret>,
    platforms: ParticipantMap<TurretPlatform>,
    stopwatch: TurretStopwatch,
}

impl View for Battlefield {
    type V = BattlefieldView;

    closed spec fn view(&self) -> BattlefieldView {
        BattlefieldView {
            tiles: self.tiles@,
            turrets: self.turrets@,
            platforms: self.platforms@,
            elapsed: self.stopwatch@,
        }
    }
}

impl Battlefield {
    /// Sets the battlefield up. `balls` holds the charge ball of each
    /// participant's turret and `platforms` its platform.
    pub fn setup(balls: ParticipantMap<Entity>, platforms: ParticipantMap<Entity>) -> (battlefield:
        Battlefield)
        ensures
            battlefield@ == BattlefieldView::initial(balls, platforms),
            battlefield@.well_formed(),
    {
        let tiles = tile_grid();
        assert(tiles@ =~= Seq::new(
            (4 * TILE_COUNT * TILE_COUNT) as nat,
            |index: int| grid_tile(index),
        ));
        let battlefield = Battlefield {
            tiles,
            turrets: ParticipantMap::new(
                spawn_turret(Participant::A, &balls, &platforms),
                spawn_turret(Participant::B, &balls, &platforms),
                spawn_turret(Participant::C, &balls, &platforms),
                spawn_turret(Participant::D, &balls, &platforms),
            ),
            platforms: ParticipantMap::new(
                TurretPlatform::new(base_offset(Participant::A)),
                TurretPlatform::new(base_offset(Participant::B)),
                TurretPlatform::new(base_offset(Participant::C)),
                TurretPlatform::new(base_offset(Participant::D)),
            ),
            stopwatch: TurretStopwatch::new(),
        };
        proof {
            lemma_initial_well_formed(balls, platforms);
        }
        battlefield
    }

    /// Advances the clock by `delta` nanoseconds and turns every platform
    /// to where the sweep then stands.
    pub fn rotate_turret(&mut self, delta: u128)
        requires
            old(self)@.elapsed + delta <= u128::MAX,
        ensures
            final(self)@ == old(self)@.rotated(delta as nat),
            old(self)@.well_formed() ==> final(self)@.well_formed(),
    {
        self.stopwatch.tick(delta);
        self.platforms.a.rotate(&self.stopwatch);
        self.platforms.b.rotate(&self.stopwatch);
        self.platforms.c.rotate(&self.stopwatch);
        self.platforms.d.rotate(&self.stopwatch);
    }

    /// Handles the triggers `events` one after another, in their order, and
    /// returns the shots that were fired, in the order in which they were
    /// fired.
    pub fn handle_trigger_events(&mut self, events: &[TriggerEvent]) -> (shots: Vec<Shot>)
        ensures
            final(self)@ == old(self)@.triggered(events@),
            shot_views(shots@) == old(self)@.outcome(events@).shots,
            old(self)@.well_formed() ==> final(self)@.well_formed(),
    {
        proof {
            if old(self)@.well_formed() {
                lemma_triggers_keep_well_formed(old(self)@, events@);
            }
        }
        let mut shots: Vec<Shot> = Vec::new();
        let mut handled: usize = 0;
        assert(events@.take(0) =~= Seq::<TriggerEvent>::empty());
        assert(shot_views(shots@) =~= Seq::<ShotView>::empty());
        while handled < events.len()
            invariant
                handled <= events.len(),
                self.tiles == old(self).tiles,
                self.platforms == old(self).platforms,
                self.stopwatch == old(self).stopwatch,
                old(self)@.outcome(events@.take(handled as int)) == (Outcome {
                    turrets: self.turrets@,
                    shots: shot_views(shots@),
                }),
            decreases events.len() - handled,
        {
            let event = events[handled];
            proof {
                let next = events@.take(handled + 1);
                assert(next.drop_last() =~= events@.take(handled as int));
                assert(next.last() == event);
            }
            match event.trigger_type {
                TriggerType::Multiply => {
                    self.turrets.get_mut(event.participant).multiply();
                },
                TriggerType::BurstShot => {},
                TriggerType::ChargedShot => {
                    let turret = self.turrets.get(event.participant);
                    let platform = self.platforms.get(event.participant);
                    let shot = Shot {
                        owner: event.participant,
                        position: turret.position(),
                        charge: turret.charge().clone(),
                        firing_angle: platform.firing_angle(&self.stopwatch),
                    };
                    assert(shot_views(shots@.push(shot)) =~= shot_views(shots@).push(shot@));
                    shots.push(shot);
                },
            }
            handled += 1;
        }
        assert(events@.take(handled as int) =~= events@);
        shots
    }

    /// Brings the label and the balls of every turret up to date with its
    /// charge, where the charge has changed since this was last done.
    /// Returns for each participant whether their turret's charge had.
    pub fn update_charge_visuals(&mut self) -> (updated: ParticipantMap<bool>)
        ensures
            final(self)@ == old(self)@.synced(),
            forall|participant: Participant|
                updated.spec_get(participant) == (#[trigger] old(self)@.turrets.spec_get(
                    participant,
                )).changed,
            old(self)@.well_formed() ==> final(self)@.well_formed(),
    {
        proof {
            if old(self)@.well_formed() {
                lemma_sync_keeps_well_formed(old(self)@);
            }
        }
        let a = self.turrets.a.sync();
        let b = self.turrets.b.sync();
        let c = self.turrets.c.sync();
        let d = self.turrets.d.sync();
        ParticipantMap::new(a, b, c, d)
    }

    /// One tick: the clock advances by `delta` nanoseconds and the
    /// platforms turn, then the triggers `events` are handled in their
    /// order, then the derived state of every turret is brought up to date.
    /// Returns the shots that were fired.
    pub fn tick(&mut self, delta: u128, events: &[TriggerEvent]) -> (shots: Vec<Shot>)
        requires
            old(self)@.elapsed + delta <= u128::MAX,
        ensures
            final(self)@ == old(self)@.ticked(delta as nat, events@),
            shot_views(shots@) == old(self)@.rotated(delta as nat).outcome(events@).shots,
            old(self)@.well_formed() ==> final(self)@.well_formed(),
    {
        self.rotate_turret(delta);
        let shots = self.handle_trigger_events(events);
        let _ = self.update_charge_visuals();
        shots
    }

    /// The tiles of the grid.
    pub fn tiles(&self) -> (tiles: &Vec<Tile>)
        ensures
            tiles@ == self@.tiles,
    {
        &self.tiles
    }

    /// The turret of `participant`.
    pub fn turret(&self, participant: Participant) -> (turret: &Turret)
        ensures
            turret@ == self@.turrets.spec_get(participant),
            turret@.consistent(),
    {
        let turret = self.turrets.get(participant);
        proof {
            use_type_invariant(turret);
        }
        turret
    }

    /// The platform of the turret of `participant`.
    pub fn platform(&self, participant: Participant) -> (platform: &TurretPlatform)
        ensures
            platform@ == self@.platforms.spec_get(participant),
    {
        self.platforms.get(participant)
    }

    /// The clock that the sweep follows.
    pub fn stopwatch(&self) -> (stopwatch: &TurretStopwatch)
        ensures
            stopwatch@ == self@.elapsed,
    {
        &self.stopwatch
    }
}

/// The turret of `owner` as it is set up, in its corner and with the
/// initial charge.
fn spawn_turret(
    owner: Participant,
    balls: &ParticipantMap<Entity>,
    platforms: &ParticipantMap<Entity>,
) -> (turret: Turret)
    ensures
        turret@ == BattlefieldView::initial_turret(owner, *balls, *platforms),
{
    let place = position(owner);
    Turret::new(owner, place.x, place.y, *balls.get(owner), *platforms.get(owner))
}

/// How many of the triggers `events` ask `participant` to multiply.
pub open spec fn multiply_count(events: Seq<TriggerEvent>, participant: Participant) -> nat
    decreases events.len(),
{
    if events.len() == 0 {
        0
    } else {
        let earlier = multiply_count(events.drop_last(), participant);
        if events.last().participant == participant && events.last().trigger_type
            == TriggerType::Multiply {
            earlier + 1
        } else {
            earlier
        }
    }
}

/// How many of the triggers `events` are charged shots.
pub open spec fn charged_shot_count(events: Seq<TriggerEvent>) -> nat
    decreases events.len(),
{
    if events.len() == 0 {
        0
    } else {
        let earlier = charged_shot_count(events.drop_last());
        if events.last().trigger_type == TriggerType::ChargedShot {
            earlier + 1
        } else {
            earlier
        }
    }
}

/// A charged shot leaves every turret as it was, the firing one too, and
/// adds one shot: it carries the value and level that the turret holds, and
/// leaves at the turret's aim.
pub proof fn lemma_charged_shot_keeps_turrets(
    state: Outcome,
    platforms: ParticipantMap<TurretPlatformView>,
    elapsed: nat,
    participant: Participant,
)
    ensures
        ({
            let event = TriggerEvent { participant, trigger_type: TriggerType::ChargedShot };
            let after = apply_trigger(state, platforms, elapsed, event);
            &&& after.turrets == state.turrets
            &&& after.shots.len() == state.shots.len() + 1
            &&& after.shots.drop_last() == state.shots
            &&& after.shots.last().owner == participant
            &&& after.shots.last().charge == state.turrets.spec_get(participant).charge
            &&& after.shots.last().position == state.turrets.spec_get(participant).position
            &&& after.shots.last().firing_angle == firing_angle(
                platforms.spec_get(participant).base_offset,
                elapsed,
            )
        }),
{
    let event = TriggerEvent { participant, trigger_type: TriggerType::ChargedShot };
    let after = apply_trigger(state, platforms, elapsed, event);
    assert(after.shots.drop_last() =~= state.shots);
}

/// A burst shot changes no turret and fires nothing.
pub proof fn lemma_burst_shot_changes_nothing(
    state: Outcome,
    platforms: ParticipantMap<TurretPlatformView>,
    elapsed: nat,
    participant: Participant,
)
    ensures
        apply_trigger(
            state,
            platforms,
            elapsed,
            TriggerEvent { participant, trigger_type: TriggerType::BurstShot },
        ) == state,
{
}

/// Whatever the triggers are, each turret ends with its charge multiplied
/// as often as the triggers asked its participant to multiply, and is
/// otherwise as it was; and one shot was fired for each charged shot.
pub proof fn lemma_triggers_multiply_charges(
    turrets: ParticipantMap<TurretView>,
    platforms: ParticipantMap<TurretPlatformView>,
    elapsed: nat,
    events: Seq<TriggerEvent>,
    participant: Participant,
)
    ensures
        ({
            let before = turrets.spec_get(participant);
            let count = multiply_count(events, participant);
            let after = apply_triggers(turrets, platforms, elapsed, events);
            &&& after.turrets.spec_get(participant) == (TurretView {
                charge: before.charge.multiply_times(count),
                changed: before.changed || count > 0,
                ..before
            })
            &&& after.shots.len() == charged_shot_count(events)
        }),
    decreases events.len(),
{
    if events.len() > 0 {
        lemma_triggers_multiply_charges(
            turrets,
            platforms,
            elapsed,
            events.drop_last(),
            participant,
        );
    }
}

/// After any triggers, the turret of a participant on a battlefield as it
/// was set up holds the value two to the power of the number of
/// multiplications that were asked of it, at a level one above that number.
pub proof fn lemma_charge_after_triggers(
    balls: ParticipantMap<Entity>,
    platforms: ParticipantMap<Entity>,
    events: Seq<TriggerEvent>,
    participant: Participant,
)
    ensures
        ({
            let count = multiply_count(events, participant);
            let turret = BattlefieldView::initial(balls, platforms).triggered(
                events,
            ).turrets.spec_get(participant);
            &&& turret.charge.value == pow2(count)
            &&& turret.charge.level == count + 1
            &&& turret.charge.link == balls.spec_get(participant)
        }),
{
    let initial = BattlefieldView::initial(balls, platforms);
    lemma_triggers_multiply_charges(
        initial.turrets,
        initial.platforms,
        initial.elapsed,
        events,
        participant,
    );
    lemma_charge_doubling(balls.spec_get(participant), multiply_count(events, participant));
}

/// Triggers that arrive in two batches do what they would do in one: the
/// second batch goes on from what the first has left.
pub proof fn lemma_triggers_compose(
    turrets: ParticipantMap<TurretView>,
    platforms: ParticipantMap<TurretPlatformView>,
    elapsed: nat,
    first: Seq<TriggerEvent>,
    second: Seq<TriggerEvent>,
)
    ensures
        ({
            let one = apply_triggers(turrets, platforms, elapsed, first);
            let two = apply_triggers(one.turrets, platforms, elapsed, second);
            apply_triggers(turrets, platforms, elapsed, first + second) == (Outcome {
                turrets: two.turrets,
                shots: one.shots + two.shots,
            })
        }),
    decreases second.len(),
{
    let one = apply_triggers(turrets, platforms, elapsed, first);
    let two = apply_triggers(one.turrets, platforms, elapsed, second);
    if second.len() == 0 {
        assert(first + second =~= first);
        assert(one.shots + two.shots =~= one.shots);
    } else {
        let shorter = second.drop_last();
        lemma_triggers_compose(turrets, platforms, elapsed, first, shorter);
        assert((first + second).drop_last() =~= first + shorter);
        assert((first + second).last() == second.last());
        let short = apply_triggers(one.turrets, platforms, elapsed, shorter);
        if second.last().trigger_type == TriggerType::ChargedShot {
            let shot = shot_of(
                second.last().participant,
                short.turrets.spec_get(second.last().participant),
                platforms.spec_get(second.last().participant),
                elapsed,
            );
            assert((one.shots + short.shots).push(shot) =~= one.shots + short.shots.push(shot));
        }
    }
}

/// A well-formed battlefield stays well formed through every step of a
/// tick, and after the tick the label and the balls of every turret are
/// those of its charge.
pub proof fn lemma_tick_keeps_well_formed(
    battlefield: BattlefieldView,
    delta: nat,
    events: Seq<TriggerEvent>,
)
    requires
        battlefield.well_formed(),
    ensures
        battlefield.rotated(delta).well_formed(),
        battlefield.triggered(events).well_formed(),
        battlefield.synced().well_formed(),
        battlefield.ticked(delta, events).well_formed(),
        forall|participant: Participant|
            {
                let turret = #[trigger] battlefield.ticked(delta, events).turrets.spec_get(
                    participant,
                );
                !turret.changed && turret.visual.shows(turret.charge)
            },
{
    lemma_triggers_keep_well_formed(battlefield, events);
    lemma_triggers_keep_well_formed(battlefield.rotated(delta), events);
    lemma_sync_keeps_well_formed(battlefield);
    lemma_sync_keeps_well_formed(battlefield.rotated(delta).triggered(events));
}

/// Triggers leave a well-formed battlefield well formed.
pub proof fn lemma_triggers_keep_well_formed(
    battlefield: BattlefieldView,
    events: Seq<TriggerEvent>,
)
    requires
        battlefield.well_formed(),
    ensures
        battlefield.triggered(events).well_formed(),
{
    let after = battlefield.triggered(events);
    assert forall|participant: Participant|
        {
            &&& (#[trigger] after.turrets.spec_get(participant)).owner == participant
            &&& after.turrets.spec_get(participant).consistent()
        } by {
        lemma_triggers_multiply_charges(
            battlefield.turrets,
            battlefield.platforms,
            battlefield.elapsed,
            events,
            participant,
        );
        let before = battlefield.turrets.spec_get(participant);
        assert(before.owner == participant && before.consistent());
        lemma_multiply_times_coupled(before.charge, multiply_count(events, participant));
        if multiply_count(events, participant) == 0 {
            assert(before.charge.multiply_times(0) == before.charge);
        }
    }
}

/// Bringing the derived state up to date leaves a well-formed battlefield
/// well formed, with no turret marked as changed and every label and ball
/// that of its charge.
pub proof fn lemma_sync_keeps_well_formed(battlefield: BattlefieldView)
    requires
        battlefield.well_formed(),
    ensures
        battlefield.synced().well_formed(),
        forall|participant: Participant|
            {
                let turret = #[trigger] battlefield.synced().turrets.spec_get(participant);
                !turret.changed && turret.visual.shows(turret.charge)
            },
{
    let after = battlefield.synced();
    assert forall|participant: Participant|
        {
            let turret = #[trigger] after.turrets.spec_get(participant);
            &&& turret.owner == participant
            &&& turret.consistent()
            &&& !turret.changed
            &&& turret.visual.shows(turret.charge)
        } by {
        let before = battlefield.turrets.spec_get(participant);
        assert(before.owner == participant && before.consistent());
        assert(after.turrets.spec_get(participant) == before.synced());
    }
}

/// The battlefield as it is set up is well formed.
pub proof fn lemma_initial_well_formed(
    balls: ParticipantMap<Entity>,
    platforms: ParticipantMap<Entity>,
)
    ensures
        BattlefieldView::initial(balls, platforms).well_formed(),
{
    let initial = BattlefieldView::initial(balls, platforms);
    assert forall|participant: Participant|
        {
            &&& (#[trigger] initial.turrets.spec_get(participant)).owner == participant
            &&& initial.turrets.spec_get(participant).consistent()
        } by {
        lemma_initial_coupled(balls.spec_get(participant));
    }
}

} // verus!
