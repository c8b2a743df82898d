//! Enemies that several scenes share.

use vstd::prelude::*;
use crate::enemies::bullet_emmiters::{AnyEmitter, CircleEmitter, EmitterModel, ForwardEmitter};
use crate::enemies::trajectories::{
    AnyTrajectory, CircleTrajectory, FromToTrajectory, StayTrajectory,
};
use crate::enemies::{phase_models, push_phase, well_linked, Enemy, EnemyModel, Phase, PhaseModel};
use crate::fixed::{diff, sat_add, sat_sub, sum};
use crate::geometry::{point, Circle, Vector};
use crate::trig::TAU;

verus! {

/// A quarter turn, in thousandths of a radian.
pub const QUARTER_TURN: i64 = 1571;

/// The fan of six that a ghost fires downwards on its way between two points.
pub open spec fn fan_model() -> EmitterModel {
    EmitterModel::cone(200, 6, point(0, 200_000), 1000)
}

/// The phase in which a ghost flies from `from` to `to` within `time`.
pub open spec fn leg(from: Vector, to: Vector, time: int, bullets: EmitterModel) -> PhaseModel {
    PhaseModel {
        length: time,
        trajectory: AnyTrajectory::FromTo(
            FromToTrajectory { from, delta: to.minus(from), time: time as i64 },
        ),
        bullets,
        next: None,
    }
}

/// The phase in which a ghost rests at `at` for `time` and fires rings of six
/// at `speed`; after it the ghost goes on with the phase `next`.
pub open spec fn rest(at: Vector, time: int, speed: int, next: Option<nat>) -> PhaseModel {
    PhaseModel {
        length: time,
        trajectory: AnyTrajectory::Stay(StayTrajectory { location: at }),
        bullets: EmitterModel::ring(200, 6, speed),
        next,
    }
}

/// The circle that a ghost rounds above the middle of the arena, from the
/// angle `offset` and a quarter turn, at `rotation_speed`.
pub open spec fn big_round(offset: int, rotation_speed: int) -> AnyTrajectory {
    AnyTrajectory::Circle(
        CircleTrajectory {
            trajectory: Circle { coord: point(0, -200_000), r: 200_000 },
            timer_offset: sum(offset, QUARTER_TURN as int) as i64,
            rotation_speed: rotation_speed as i64,
        },
    )
}

/// The phase in which a ghost goes once round the big circle.
pub open spec fn round(offset: int, rotation_speed: int, bullets: EmitterModel) -> PhaseModel {
    PhaseModel {
        length: TAU as int,
        trajectory: big_round(offset, rotation_speed),
        bullets,
        next: None,
    }
}

/// The legs of a ghost between the first `n + 1` of `points`, a second each.
pub open spec fn legs(points: Seq<Vector>, n: nat) -> Seq<PhaseModel> {
    Seq::new(n, |k: int| leg(points[k], points[k + 1], 1000, fan_model()))
}

/// The phases of a ghost: it flies in from `start` to the first point within
/// `entry` and fires with `opening`; it rounds the big circle and fires with
/// `circling`; it rests at the first point, visits the points in turn and rests
/// at the first again; it rounds the circle the other way; it rests at the last
/// point, and goes on with the first round.
pub open spec fn ghost_plan(
    start: Vector,
    entry: int,
    offset: int,
    rotation_speed: int,
    points: Seq<Vector>,
    opening: EmitterModel,
    circling: EmitterModel,
) -> Seq<PhaseModel> {
    seq![
        leg(start, points[0], entry, opening),
        round(offset, rotation_speed, circling),
        rest(points[0], 1000, 200_000, None),
    ] + legs(points, (points.len() - 1) as nat) + seq![
        rest(points[0], 1000, 200_000, None),
        round(offset, diff(0, rotation_speed), circling),
        rest(points.last(), 3000, 300_000, Some(1nat)),
    ]
}

/// A fresh ghost with the phases `plan`.
pub open spec fn ghost_model(plan: Seq<PhaseModel>) -> EnemyModel {
    EnemyModel::fresh(
        Circle { coord: point(0, 0), r: 30_000 },
        30_000,
        plan,
        "resources/ghost.png"@,
        100_000,
    )
}

fn fan_down() -> (e: AnyEmitter)
    ensures
        e.as_model() == fan_model(),
        e.as_model().wf(),
{
    AnyEmitter::Forward(ForwardEmitter::new(200, 6, Vector::new(0, 200_000), 1000))
}

fn ring(speed: i64) -> (e: AnyEmitter)
    ensures
        e.as_model() == EmitterModel::ring(200, 6, speed as int),
        e.as_model().wf(),
{
    AnyEmitter::Circle(CircleEmitter::new(200, 6, speed))
}

fn big_circle(offset: i64, rotation_speed: i64) -> (t: AnyTrajectory)
    ensures
        t == big_round(offset as int, rotation_speed as int),
{
    AnyTrajectory::Circle(
        CircleTrajectory::new(
            Circle::new(0, -200_000, 200_000),
            sat_add(offset, QUARTER_TURN),
            rotation_speed,
        ),
    )
}

/// Builds a ghost with the phases of [`ghost_plan`].
pub(crate) fn ghost(
    start: Vector,
    entry: i64,
    offset: i64,
    rotation_speed: i64,
    points: Vec<Vector>,
    opening: AnyEmitter,
    circling: AnyEmitter,
) -> (e: Enemy)
    requires
        points@.len() >= 1,
        points@.len() + 5 <= usize::MAX,
        opening.as_model().wf(),
        circling.as_model().wf(),
    ensures
        e@ == ghost_model(
            ghost_plan(
                start,
                entry as int,
                offset as int,
                rotation_speed as int,
                points@,
                opening.as_model(),
                circling.as_model(),
            ),
        ),
        e@.wf(),
{
    let ghost cap: nat = 2;
    let ghost first = opening.as_model();
    let ghost second = circling.as_model();
    let ghost plan = ghost_plan(
        start,
        entry as int,
        offset as int,
        rotation_speed as int,
        points@,
        first,
        second,
    );
    let ghost head = seq![
        leg(start, points@[0], entry as int, first),
        round(offset as int, rotation_speed as int, second),
        rest(points@[0], 1000, 200_000, None),
    ];
    let circling_back = circling.duplicate();
    let mut stages: Vec<Phase> = Vec::new();
    assert(well_linked(phase_models(stages@), cap));
    push_phase(
        &mut stages,
        Phase::new(
            entry,
            AnyTrajectory::FromTo(FromToTrajectory::new(start, points[0], entry)),
            opening,
        ),
        Ghost(cap),
    );
    push_phase(
        &mut stages,
        Phase::new(TAU, big_circle(offset, rotation_speed), circling),
        Ghost(cap),
    );
    push_phase(
        &mut stages,
        Phase::new(1000, AnyTrajectory::Stay(StayTrajectory::new(points[0])), ring(200_000)),
        Ghost(cap),
    );
    assert(phase_models(stages@) =~= head + legs(points@, 0));
    let mut i: usize = 0;
    while i < points.len() - 1
        invariant
            i <= points@.len() - 1,
            points@.len() >= 1,
            stages@.len() == 3 + i,
            well_linked(phase_models(stages@), cap),
            phase_models(stages@) == head + legs(points@, i as nat),
        decreases points.len() - 1 - i,
    {
        push_phase(
            &mut stages,
            Phase::new(
                1000,
                AnyTrajectory::FromTo(FromToTrajectory::new(points[i], points[i + 1], 1000)),
                fan_down(),
            ),
            Ghost(cap),
        );
        assert(phase_models(stages@) =~= head + legs(points@, (i + 1) as nat));
        i += 1;
    }
    push_phase(
        &mut stages,
        Phase::new(1000, AnyTrajectory::Stay(StayTrajectory::new(points[0])), ring(200_000)),
        Ghost(cap),
    );
    push_phase(
        &mut stages,
        Phase::new(TAU, big_circle(offset, sat_sub(0, rotation_speed)), circling_back),
        Ghost(cap),
    );
    push_phase(
        &mut stages,
        Phase::new_jump(
            3000,
            AnyTrajectory::Stay(StayTrajectory::new(points[points.len() - 1])),
            ring(300_000),
            1,
        ),
        Ghost(cap),
    );
    assert(phase_models(stages@) =~= plan);
    Enemy::new(Circle::new(0, 0, 30_000), 30_000, stages, "resources/ghost.png".to_owned(), 100_000)
}

/// A ghost that flies in from `start` to the first of `points` within five
/// seconds under fans of six, rounds the big circle under rings of two, visits
/// the points in turn, rounds the circle the other way, and from then on
/// repeats all but its entry. It needs at least one point.
pub fn enemy_1(start: Vector, offset: i64, rotation_speed: i64, points: Vec<Vector>) -> (e: Enemy)
    requires
        points@.len() >= 1,
        points@.len() + 5 <= usize::MAX,
    ensures
        e@ == ghost_model(
            ghost_plan(
                start,
                5000,
                offset as int,
                rotation_speed as int,
                points@,
                fan_model(),
                EmitterModel::ring(150, 2, 200_000),
            ),
        ),
        e@.wf(),
{
    ghost(
        start,
        5000,
        offset,
        rotation_speed,
        points,
        fan_down(),
        AnyEmitter::Circle(CircleEmitter::new(150, 2, 200_000)),
    )
}

} // verus!
