//! Enemies: phase state machines that pair a trajectory with a bullet emitter.

use vstd::prelude::*;
use crate::enemies::bullet_emmiters::{AnyEmitter, EmitterModel};
use crate::enemies::trajectories::AnyTrajectory;
use crate::fixed::{diff, mul_div, ratio, sat_add, sat_sub, sum};
use crate::geometry::{Circle, Vector};
use crate::world::Bullet;

pub mod bullet_emmiters;
pub mod premade;
pub mod trajectories;

verus! {

/// A path through the plane: where an enemy stands at each time of a phase.
pub trait Trajectory {
    /// The position at `time` thousandths of a second into the phase.
    spec fn position(&self, time: int) -> Vector;

    fn location(&self, time: i64) -> (r: Vector)
        ensures
            r == self.position(time as int),
    ;
}

/// A source of bullets that fires in bursts, once per cooldown.
pub trait BulletEmmiter {
    /// The emitter as a value: its kind, its configuration and its timer.
    spec fn model(&self) -> EmitterModel;

    /// Advances the timer by `delta` and, where the emitter fires, appends the
    /// burst to `bullets`. `enemy` is the hitbox of the enemy that fires and
    /// `time` the phase time at the end of the tick.
    fn tick(&mut self, enemy: &Circle, time: i64, delta: i64, bullets: &mut Vec<Bullet>)
        requires
            old(self).model().wf(),
        ensures
            final(self).model() == old(self).model().ticked(delta as int),
            final(bullets)@ == old(bullets)@ + old(self).model().burst(
                *enemy,
                time as int,
                delta as int,
            ),
    ;
}

/// The length of a phase that never ends.
pub const FOREVER: i64 = i64::MAX;

/// One stage of an enemy's behaviour: for `length` the enemy follows the
/// trajectory and fires with the emitter, then it goes on to the phase `next`,
/// or to the phase after this one where `next` is `None`.
#[derive(Debug)]
pub struct Phase {
    length: i64,
    trajectory: AnyTrajectory,
    bullets: AnyEmitter,
    next: Option<usize>,
}

/// A phase as a value.
pub struct PhaseModel {
    pub length: int,
    pub trajectory: AnyTrajectory,
    pub bullets: EmitterModel,
    pub next: Option<nat>,
}

impl PhaseModel {
    /// A phase that is followed by the next phase of the list.
    pub open spec fn plain(length: int, trajectory: AnyTrajectory, bullets: EmitterModel) -> PhaseModel {
        PhaseModel { length, trajectory, bullets, next: None }
    }

    /// A phase that is followed by the phase `to`.
    pub open spec fn jump(
        length: int,
        trajectory: AnyTrajectory,
        bullets: EmitterModel,
        to: nat,
    ) -> PhaseModel {
        PhaseModel { length, trajectory, bullets, next: Some(to) }
    }
}

impl View for Phase {
    type V = PhaseModel;

    closed spec fn view(&self) -> PhaseModel {
        PhaseModel {
            length: self.length as int,
            trajectory: self.trajectory,
            bullets: self.bullets.as_model(),
            next: match self.next {
                Some(n) => Some(n as nat),
                None => None,
            },
        }
    }
}

impl Phase {
    /// A phase that is followed by the next phase of the list.
    pub fn new(length: i64, trajectory: AnyTrajectory, bullets: AnyEmitter) -> (r: Self)
        ensures
            r@ == (PhaseModel {
                length: length as int,
                trajectory,
                bullets: bullets.as_model(),
                next: None,
            }),
    {
        Self { length, trajectory, bullets, next: None }
    }

    /// A phase that is followed by the phase `jump_to`.
    pub fn new_jump(
        length: i64,
        trajectory: AnyTrajectory,
        bullets: AnyEmitter,
        jump_to: usize,
    ) -> (r: Self)
        ensures
            r@ == (PhaseModel {
                length: length as int,
                trajectory,
                bullets: bullets.as_model(),
                next: Some(jump_to as nat),
            }),
    {
        Self { length, trajectory, bullets, next: Some(jump_to) }
    }

    /// A copy of the phase.
    pub fn duplicate(&self) -> (r: Self)
        ensures
            r@ == self@,
    {
        Self {
            length: self.length,
            trajectory: self.trajectory.duplicate(),
            bullets: self.bullets.duplicate(),
            next: self.next,
        }
    }
}

/// The phases of a list, as values.
pub open spec fn phase_models(phases: Seq<Phase>) -> Seq<PhaseModel> {
    phases.map_values(|p: Phase| p@)
}

/// Every emitter of the phases is well formed, and every jump leads to one of
/// the first `cap` phases.
pub open spec fn well_linked(phases: Seq<PhaseModel>, cap: nat) -> bool {
    forall|i: int|
        0 <= i < phases.len() ==> {
            &&& (#[trigger] phases[i]).bullets.wf()
            &&& phases[i].next matches Some(n) ==> n < cap
        }
}

/// Appends a phase to a list under construction.
pub(crate) fn push_phase(phases: &mut Vec<Phase>, phase: Phase, Ghost(cap): Ghost<nat>)
    requires
        well_linked(phase_models(old(phases)@), cap),
        phase@.bullets.wf(),
        phase@.next matches Some(n) ==> n < cap,
    ensures
        final(phases)@ == old(phases)@.push(phase),
        phase_models(final(phases)@) == phase_models(old(phases)@).push(phase@),
        well_linked(phase_models(final(phases)@), cap),
{
    phases.push(phase);
    assert(phase_models(phases@) =~= phase_models(old(phases)@).push(phase@));
    assert forall|i: int| 0 <= i < phases@.len() implies {
        &&& (#[trigger] phase_models(phases@)[i]).bullets.wf()
        &&& phase_models(phases@)[i].next matches Some(n) ==> n < cap
    } by {
        if i < old(phases)@.len() {
            assert(phase_models(phases@)[i] == phase_models(old(phases)@)[i]);
        }
    }
}

/// An enemy: a hitbox that moves through its phases, with its health.
#[derive(Debug)]
pub struct Enemy {
    hitbox: Circle,
    health: i64,
    phases: Vec<Phase>,
    phase: usize,
    time: i64,
    sprite: String,
    display_width: i64,
}

/// An enemy as a value.
pub struct EnemyModel {
    pub hitbox: Circle,
    pub health: int,
    pub phases: Seq<PhaseModel>,
    /// The index of the current phase.
    pub phase: nat,
    /// The time spent in the current phase.
    pub time: int,
    pub sprite: Seq<char>,
    pub display_width: int,
}

/// By how much of the damage the radius of a wounded enemy shrinks: one half.
pub open spec fn shrink(damage: int) -> int {
    ratio(damage, 1, 2)
}

impl EnemyModel {
    /// There is at least one phase, the current phase and every jump target
    /// are phases of the list, and every cone emitter has at least two bullets.
    pub open spec fn wf(self) -> bool {
        &&& self.phases.len() > 0
        &&& self.phases.len() <= usize::MAX
        &&& self.phase < self.phases.len()
        &&& forall|i: int|
            0 <= i < self.phases.len() ==> {
                &&& (#[trigger] self.phases[i]).bullets.wf()
                &&& self.phases[i].next matches Some(n) ==> n < self.phases.len()
            }
    }

    /// The time in the current phase once `delta` has passed.
    pub open spec fn clock(self, delta: int) -> int {
        sum(self.time, delta)
    }

    /// After `delta` the current phase is over.
    pub open spec fn rolls_over(self, delta: int) -> bool {
        self.clock(delta) > self.phases[self.phase as int].length
    }

    /// The phase in which the enemy is after `delta`.
    pub open spec fn next_phase(self, delta: int) -> nat {
        if self.rolls_over(delta) {
            match self.phases[self.phase as int].next {
                Some(n) => n,
                None => ((self.phase as int + 1) % (self.phases.len() as int)) as nat,
            }
        } else {
            self.phase
        }
    }

    /// The time in its phase after `delta`: where the phase is over, what is
    /// left of the time after the length of that phase is taken off.
    pub open spec fn next_time(self, delta: int) -> int {
        if self.rolls_over(delta) {
            diff(self.clock(delta), self.phases[self.phase as int].length)
        } else {
            self.clock(delta)
        }
    }

    /// The hitbox after `delta`: at the place that the trajectory of the phase
    /// then current gives for the time in that phase.
    pub open spec fn next_hitbox(self, delta: int) -> Circle {
        Circle {
            coord: self.phases[self.next_phase(delta) as int].trajectory.at(self.next_time(delta)),
            r: self.hitbox.r,
        }
    }

    /// The enemy after a tick of length `delta`.
    pub open spec fn ticked(self, delta: int) -> EnemyModel {
        let p = self.next_phase(delta) as int;
        EnemyModel {
            hitbox: self.next_hitbox(delta),
            health: self.health,
            phases: self.phases.update(
                p,
                PhaseModel {
                    length: self.phases[p].length,
                    trajectory: self.phases[p].trajectory,
                    bullets: self.phases[p].bullets.ticked(delta),
                    next: self.phases[p].next,
                },
            ),
            phase: p as nat,
            time: self.next_time(delta),
            sprite: self.sprite,
            display_width: self.display_width,
        }
    }

    /// The bullets that the enemy fires during a tick of length `delta`.
    pub open spec fn emitted(self, delta: int) -> Seq<Bullet> {
        self.phases[self.next_phase(delta) as int].bullets.burst(
            self.next_hitbox(delta),
            self.next_time(delta),
            delta,
        )
    }

    /// The enemy after it took `damage`.
    pub open spec fn wounded(self, damage: int) -> EnemyModel {
        EnemyModel {
            hitbox: Circle {
                coord: self.hitbox.coord,
                r: diff(self.hitbox.r as int, shrink(damage)) as i64,
            },
            health: diff(self.health, damage),
            phases: self.phases,
            phase: self.phase,
            time: self.time,
            sprite: self.sprite,
            display_width: self.display_width,
        }
    }

    pub open spec fn alive(self) -> bool {
        self.health > 0
    }

    /// The enemy as it is spawned: in its first phase, at time zero.
    pub open spec fn fresh(
        hitbox: Circle,
        health: int,
        phases: Seq<PhaseModel>,
        sprite: Seq<char>,
        display_width: int,
    ) -> EnemyModel {
        EnemyModel { hitbox, health, phases, phase: 0, time: 0, sprite, display_width }
    }

    /// After every tick the hitbox lies where the trajectory of the current
    /// phase puts it at the time spent in that phase.
    pub proof fn lemma_on_trajectory(self, delta: int)
        requires
            self.wf(),
        ensures
            ({
                let after = self.ticked(delta);
                after.hitbox.coord == after.phases[after.phase as int].trajectory.at(after.time)
            }),
            self.ticked(delta).hitbox.r == self.hitbox.r,
    {
        self.lemma_ticked_wf(delta);
    }

    /// An enemy that takes at least as much damage as it has health is dead.
    pub proof fn lemma_killing_blow(self, damage: int)
        requires
            self.health <= damage,
        ensures
            !self.wounded(damage).alive(),
    {
    }

    /// A tick keeps an enemy well formed.
    pub proof fn lemma_ticked_wf(self, delta: int)
        requires
            self.wf(),
        ensures
            self.ticked(delta).wf(),
            self.next_phase(delta) < self.phases.len(),
    {
        let p = self.next_phase(delta) as int;
        assert(self.phases[self.phase as int].bullets.wf());
        assert(0 <= p < self.phases.len());
        assert(self.phases[p].bullets.wf());
        self.phases[p].bullets.lemma_ticked_wf(delta);
        let after = self.ticked(delta);
        assert forall|i: int| 0 <= i < after.phases.len() implies {
            &&& (#[trigger] after.phases[i]).bullets.wf()
            &&& after.phases[i].next matches Some(n) ==> n < after.phases.len()
        } by {
            assert(self.phases[i].bullets.wf());
        }
    }
}

impl View for Enemy {
    type V = EnemyModel;

    closed spec fn view(&self) -> EnemyModel {
        EnemyModel {
            hitbox: self.hitbox,
            health: self.health as int,
            phases: phase_models(self.phases@),
            phase: self.phase as nat,
            time: self.time as int,
            sprite: self.sprite@,
            display_width: self.display_width as int,
        }
    }
}

impl Clone for Enemy {
    fn clone(&self) -> (r: Self)
        ensures
            r@ == self@,
    {
        self.duplicate()
    }
}

/// The enemies of a list, as values.
pub open spec fn enemy_models(enemies: Seq<Enemy>) -> Seq<EnemyModel> {
    enemies.map_values(|e: Enemy| e@)
}

/// Every enemy of the list is well formed.
pub open spec fn all_wf(enemies: Seq<EnemyModel>) -> bool {
    forall|i: int| 0 <= i < enemies.len() ==> (#[trigger] enemies[i]).wf()
}

impl Enemy {
    /// A fresh enemy. It needs at least one phase, and every jump must lead to
    /// a phase of the list.
    pub fn new(
        hitbox: Circle,
        health: i64,
        phases: Vec<Phase>,
        sprite: String,
        display_width: i64,
    ) -> (r: Self)
        requires
            EnemyModel::fresh(
                hitbox,
                health as int,
                phase_models(phases@),
                sprite@,
                display_width as int,
            ).wf(),
        ensures
            r@ == EnemyModel::fresh(
                hitbox,
                health as int,
                phase_models(phases@),
                sprite@,
                display_width as int,
            ),
            r@.wf(),
    {
        Self { hitbox, health, phases, time: 0, phase: 0, sprite, display_width }
    }

    /// A copy of the enemy, with timers and health of its own.
    pub fn duplicate(&self) -> (r: Self)
        ensures
            r@ == self@,
    {
        let mut phases: Vec<Phase> = Vec::new();
        let mut i: usize = 0;
        while i < self.phases.len()
            invariant
                i <= self.phases.len(),
                phase_models(phases@) =~= phase_models(self.phases@).take(i as int),
            decreases self.phases.len() - i,
        {
            let ghost before = phases@;
            phases.push(self.phases[i].duplicate());
            assert(phase_models(phases@) =~= phase_models(before).push(self.phases@[i as int]@));
            assert(phase_models(self.phases@).take(i + 1) =~= phase_models(self.phases@).take(
                i as int,
            ).push(self.phases@[i as int]@));
            i += 1;
        }
        assert(phase_models(self.phases@).take(self.phases.len() as int) =~= phase_models(
            self.phases@,
        ));
        Self {
            hitbox: self.hitbox,
            health: self.health,
            phases,
            phase: self.phase,
            time: self.time,
            sprite: self.sprite.clone(),
            display_width: self.display_width,
        }
    }

    /// Advances the enemy by `delta_time` and appends to `bullets` what it
    /// fires.
    pub fn tick(&mut self, delta_time: i64, bullets: &mut Vec<Bullet>)
        requires
            old(self)@.wf(),
        ensures
            final(self)@ == old(self)@.ticked(delta_time as int),
            final(self)@.wf(),
            final(bullets)@ == old(bullets)@ + old(self)@.emitted(delta_time as int),
    {
        proof {
            old(self)@.lemma_ticked_wf(delta_time as int);
            assert(phase_models(self.phases@).len() == self.phases@.len());
            let i = self.phase as int;
            assert(phase_models(self.phases@)[i] == self.phases@[i]@);
        }
        self.time = sat_add(self.time, delta_time);
        let current_phase_length: i64 = self.phases[self.phase].length;
        if self.time > current_phase_length {
            self.time = sat_sub(self.time, current_phase_length);
            self.phase = match self.phases[self.phase].next {
                Some(next) => next,
                None => (self.phase + 1) % self.phases.len(),
            };
        }
        assert(self.phase == old(self)@.next_phase(delta_time as int));
        assert(self.time == old(self)@.next_time(delta_time as int));
        let ghost before = self.phases@;
        assert(phase_models(before)[self.phase as int] == before[self.phase as int]@);
        let phase = &mut self.phases[self.phase];
        self.hitbox.coord = phase.trajectory.location(self.time);
        let hitbox: Circle = self.hitbox;
        phase.bullets.tick(&hitbox, self.time, delta_time, bullets);
        assert(phase_models(self.phases@) =~= old(self)@.ticked(delta_time as int).phases);
    }

    /// Takes `damage` from the health, and half as much from the radius of the
    /// hitbox.
    pub fn hit(&mut self, damage: i64)
        ensures
            final(self)@ == old(self)@.wounded(damage as int),
    {
        self.hitbox.r = sat_sub(self.hitbox.r, mul_div(damage, 1, 2));
        self.health = sat_sub(self.health, damage);
    }

    pub fn is_alive(&self) -> (r: bool)
        ensures
            r == self@.alive(),
    {
        self.health > 0
    }

    /// The index of the current phase.
    pub fn phase(&self) -> (r: usize)
        ensures
            r == self@.phase,
    {
        self.phase
    }

    /// The time spent in the current phase.
    pub fn time(&self) -> (r: i64)
        ensures
            r == self@.time,
    {
        self.time
    }

    pub fn health(&self) -> (r: i64)
        ensures
            r == self@.health,
    {
        self.health
    }

    /// The name of the picture that shows the enemy.
    pub fn sprite(&self) -> (r: &String)
        ensures
            r@ == self@.sprite,
    {
        &self.sprite
    }

    /// The width at which the picture is shown.
    pub fn display_width(&self) -> (r: i64)
        ensures
            r == self@.display_width,
    {
        self.display_width
    }

    pub fn hitbox(&self) -> (r: &Circle)
        ensures
            *r == self@.hitbox,
    {
        &self.hitbox
    }
}

} // verus!
