//! The second level.

use vstd::prelude::*;
use crate::enemies::bullet_emmiters::{
    heart_pattern, AnyEmitter, CircleEmitter, EmitterModel, HardcodedEmitter,
};
use crate::enemies::premade::{ghost, ghost_model, ghost_plan};
use crate::enemies::trajectories::{AnyTrajectory, CircleTrajectory, FromToTrajectory};
use crate::enemies::{
    all_wf, enemy_models, phase_models, push_phase, well_linked, Enemy, EnemyModel, Phase,
    PhaseModel, FOREVER,
};
use crate::geometry::{point, Circle, Vector};
use crate::level::l1::{arc_of, ghost_path, ghost_points, line_to};
use crate::level::{push_enemy, push_scene, scene_models, scenes_wf, Level, LevelModel, Scene};
use crate::trig::PI;

verus! {

/// A heart of `bullets` bullets that grows at `speed`.
pub open spec fn heart_of(cooldown: int, speed: int, bullets: nat) -> EmitterModel {
    EmitterModel::fixed(cooldown, heart_pattern(speed, point(0, 0), bullets))
}

/// A heart of `bullets` bullets that grows at `speed` and drifts downwards.
pub open spec fn drifting_heart_of(speed: int, bullets: nat) -> EmitterModel {
    EmitterModel::fixed(1000, heart_pattern(speed, point(0, 200_000), bullets))
}

/// The phases of a ghost of this level, which fires hearts where the ghost of
/// the first level fires fans and rings.
pub open spec fn heart_ghost_plan(
    start: Vector,
    offset: int,
    rotation_speed: int,
    points: Seq<Vector>,
) -> Seq<PhaseModel> {
    ghost_plan(
        start,
        3900,
        offset,
        rotation_speed,
        points,
        drifting_heart_of(5000, 30),
        heart_of(1500, 100_000, 40),
    )
}

/// The master of the second scene: it flies in under drifting hearts and then
/// follows two circles at once for good, under two rings of seven.
pub open spec fn master_model() -> EnemyModel {
    EnemyModel::fresh(
        Circle { coord: point(0, 0), r: 30_000 },
        100_000,
        seq![
            PhaseModel::plain(
                3000,
                line_to(point(0, -1_000_000), point(0, -450_000), 3000),
                drifting_heart_of(150_000, 80),
            ),
            PhaseModel::plain(
                FOREVER as int,
                AnyTrajectory::Combinator(
                    Box::new(arc_of(0, -200_000, 150_000, PI as int, 500)),
                    Box::new(arc_of(0, 0, 100_000, PI as int, -1000)),
                ),
                EmitterModel::Combinator(
                    Box::new(EmitterModel::ring(300, 7, 200_000)),
                    Box::new(EmitterModel::ring(200, 7, 100_000)),
                ),
            ),
        ],
        "resources/ghost.png"@,
        100_000,
    )
}

/// The second level as a value: two ghosts that fire hearts; their master.
pub open spec fn l2_model() -> LevelModel {
    LevelModel {
        scene: 0,
        scenes: seq![
            seq![
                ghost_model(heart_ghost_plan(point(0, -550_000), PI as int, 2000, ghost_points(-1))),
                ghost_model(heart_ghost_plan(point(0, -550_000), 0, 2000, ghost_points(1))),
            ],
            seq![master_model()],
        ],
        background: "resources/Floor.png"@,
        sound: "resources/cypis.mp3"@,
    }
}

/// The second level: two ghosts that fire hearts, and their master.
pub fn l2() -> (level: Level)
    ensures
        level@ == l2_model(),
        level@.wf(),
{
    let mut scenes: Vec<Scene> = Vec::new();
    assert(scenes_wf(scenes@));
    push_scene(&mut scenes, l2s1());
    push_scene(&mut scenes, l2s3());
    assert(scene_models(scenes@) =~= l2_model().scenes);
    Level::new(scenes, "resources/Floor.png".to_owned(), "resources/cypis.mp3".to_owned())
}

fn l2s1() -> (scene: Scene)
    ensures
        scene@ == l2_model().scenes[0],
        all_wf(scene@),
{
    let mut enemies: Vec<Enemy> = Vec::new();
    assert(all_wf(enemy_models(enemies@)));
    push_enemy(&mut enemies, l2ls1_enemy(Vector::new(0, -550_000), PI, 2000, ghost_path(-1)));
    push_enemy(&mut enemies, l2ls1_enemy(Vector::new(0, -550_000), 0, 2000, ghost_path(1)));
    assert(enemy_models(enemies@) =~= l2_model().scenes[0]);
    Scene::new(enemies)
}

fn ring(cooldown: i64, bullets: usize, speed: i64) -> (e: AnyEmitter)
    ensures
        e.as_model() == EmitterModel::ring(cooldown as int, bullets as nat, speed as int),
        e.as_model().wf(),
{
    AnyEmitter::Circle(CircleEmitter::new(cooldown, bullets, speed))
}

fn heart(cooldown: i64, speed: i64, bullets: usize) -> (e: AnyEmitter)
    requires
        bullets >= 2,
    ensures
        e.as_model() == heart_of(cooldown as int, speed as int, bullets as nat),
        e.as_model().wf(),
{
    AnyEmitter::Hardcoded(HardcodedEmitter::hearth(cooldown, speed, bullets))
}

fn drifting_heart(speed: i64, bullets: usize) -> (e: AnyEmitter)
    requires
        bullets >= 2,
    ensures
        e.as_model() == drifting_heart_of(speed as int, bullets as nat),
        e.as_model().wf(),
{
    AnyEmitter::Hardcoded(
        HardcodedEmitter::forward_hearth(1000, speed, Vector::new(0, 200_000), bullets),
    )
}

/// A ghost that flies in from `start` to the first of `points` within 3.9
/// seconds under drifting hearts of thirty, rounds the big circle under hearts
/// of forty, visits the points in turn, rounds the circle the other way, and
/// from then on repeats all but its entry. It needs at least one point.
pub fn l2ls1_enemy(start: Vector, offset: i64, rotation_speed: i64, points: Vec<Vector>) -> (e:
    Enemy)
    requires
        points@.len() >= 1,
        points@.len() + 5 <= usize::MAX,
    ensures
        e@ == ghost_model(
            heart_ghost_plan(start, offset as int, rotation_speed as int, points@),
        ),
        e@.wf(),
{
    ghost(
        start,
        3900,
        offset,
        rotation_speed,
        points,
        drifting_heart(5000, 30),
        heart(1500, 100_000, 40),
    )
}

fn l2s3() -> (scene: Scene)
    ensures
        scene@ == l2_model().scenes[1],
        all_wf(scene@),
{
    let ghost cap: nat = 1;
    let mut phases: Vec<Phase> = Vec::new();
    assert(well_linked(phase_models(phases@), cap));
    push_phase(
        &mut phases,
        Phase::new(
            3000,
            AnyTrajectory::FromTo(
                FromToTrajectory::new(Vector::new(0, -1_000_000), Vector::new(0, -450_000), 3000),
            ),
            drifting_heart(150_000, 80),
        ),
        Ghost(cap),
    );
    let rings = AnyEmitter::Combinator(
        Box::new(ring(300, 7, 200_000)),
        Box::new(ring(200, 7, 100_000)),
    );
    push_phase(
        &mut phases,
        Phase::new(
            FOREVER,
            AnyTrajectory::Combinator(
                Box::new(
                    AnyTrajectory::Circle(
                        CircleTrajectory::new(Circle::new(0, -200_000, 150_000), PI, 500),
                    ),
                ),
                Box::new(
                    AnyTrajectory::Circle(
                        CircleTrajectory::new(Circle::new(0, 0, 100_000), PI, -1000),
                    ),
                ),
            ),
            rings,
        ),
        Ghost(cap),
    );
    assert(phase_models(phases@) =~= master_model().phases);
    let mut enemies: Vec<Enemy> = Vec::new();
    assert(all_wf(enemy_models(enemies@)));
    push_enemy(
        &mut enemies,
        Enemy::new(
            Circle::new(0, 0, 30_000),
            100_000,
            phases,
            "resources/ghost.png".to_owned(),
            100_000,
        ),
    );
    assert(enemy_models(enemies@) =~= l2_model().scenes[1]);
    Scene::new(enemies)
}

} // verus!
