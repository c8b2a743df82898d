//! The first level.

use vstd::prelude::*;
use crate::enemies::bullet_emmiters::{
    heart_pattern, wall_pattern, AnyEmitter, CircleEmitter, EmitterModel, ForwardEmitter,
    HardcodedEmitter,
};
use crate::enemies::premade::{enemy_1, fan_model, ghost_model, ghost_plan, QUARTER_TURN};
use crate::enemies::trajectories::{
    AnyTrajectory, CircleTrajectory, FromToTrajectory, StayTrajectory,
};
use crate::enemies::{
    all_wf, enemy_models, phase_models, push_phase, well_linked, Enemy, EnemyModel, Phase,
    PhaseModel, FOREVER,
};
use crate::geometry::{point, Circle, Vector};
use crate::level::{push_enemy, push_scene, scene_models, scenes_wf, Level, LevelModel, Scene};
use crate::trig::{PI, TAU};

verus! {

/// The straight way from `from` to `to` within `time`.
pub open spec fn line_to(from: Vector, to: Vector, time: int) -> AnyTrajectory {
    AnyTrajectory::FromTo(FromToTrajectory { from, delta: to.minus(from), time: time as i64 })
}

/// The way round the circle about `(x, y)` of radius `r`, from the angle
/// `offset` at `rotation_speed`.
pub open spec fn arc_of(x: int, y: int, r: int, offset: int, rotation_speed: int) -> AnyTrajectory {
    AnyTrajectory::Circle(
        CircleTrajectory {
            trajectory: Circle { coord: point(x, y), r: r as i64 },
            timer_offset: offset as i64,
            rotation_speed: rotation_speed as i64,
        },
    )
}

/// A fan of `bullets` bullets that is fired downwards over the angle `spread`.
pub open spec fn fan_of(bullets: nat, spread: int) -> EmitterModel {
    EmitterModel::cone(300, bullets, point(0, 200_000), spread)
}

/// The heart of thirty that the witch fires.
pub open spec fn witch_heart() -> EmitterModel {
    EmitterModel::fixed(500, heart_pattern(150_000, point(0, 0), 30))
}

/// The wall of fifteen and the ring of seven that the witch fires together.
pub open spec fn witch_wall_and_ring() -> EmitterModel {
    EmitterModel::Combinator(
        Box::new(EmitterModel::fixed(500, wall_pattern(200_000, 300_000, 15))),
        Box::new(EmitterModel::ring(300, 7, 200_000)),
    )
}

/// The sentry of the first scene: it flies in and then stays for good.
pub open spec fn sentry_model() -> EnemyModel {
    EnemyModel::fresh(
        Circle { coord: point(0, 0), r: 20_000 },
        30_000,
        seq![
            PhaseModel::plain(
                3000,
                line_to(point(0, -800_000), point(0, -400_000), 3000),
                fan_of(2, 500),
            ),
            PhaseModel::plain(
                FOREVER as int,
                AnyTrajectory::Stay(StayTrajectory { location: point(0, -400_000) }),
                fan_of(2, 500),
            ),
        ],
        "resources/ghost.png"@,
        100_000,
    )
}

/// A patrol of the second scene: it flies from `a` to `b` and then to and
/// fro between `b` and `c`, and fires fans of `bullets`.
pub open spec fn patrol_model(bullets: nat, a: Vector, b: Vector, c: Vector) -> EnemyModel {
    EnemyModel::fresh(
        Circle { coord: point(0, 0), r: 20_000 },
        5000,
        seq![
            PhaseModel::plain(6000, line_to(a, b, 6000), fan_of(bullets, 1500)),
            PhaseModel::plain(6000, line_to(b, c, 6000), fan_of(bullets, 1500)),
            PhaseModel::jump(6000, line_to(c, b, 6000), fan_of(bullets, 1500), 1),
        ],
        "resources/ghost.png"@,
        100_000,
    )
}

/// The three points that a ghost of the third scene visits, on the left for
/// `side == -1` and on the right for `side == 1`.
pub open spec fn ghost_points(side: int) -> Seq<Vector> {
    seq![
        point(side * 200_000, -200_000),
        point(side * 20_000, -350_000),
        point(side * 200_000, -200_000),
    ]
}

/// A ghost of the third scene.
pub open spec fn l1_ghost(side: int, offset: int) -> EnemyModel {
    ghost_model(
        ghost_plan(
            point(side * 350_000, -550_000),
            5000,
            offset,
            2000,
            ghost_points(side),
            fan_model(),
            EmitterModel::ring(150, 2, 200_000),
        ),
    )
}

/// The witch of the fourth scene.
pub open spec fn witch_model() -> EnemyModel {
    EnemyModel::fresh(
        Circle { coord: point(0, 0), r: 20_000 },
        30_000,
        seq![
            PhaseModel::plain(
                2000,
                line_to(point(0, -700_000), point(50_000, -250_000), 2000),
                EmitterModel::fixed(1500, wall_pattern(200_000, 500_000, 30)),
            ),
            PhaseModel::plain(
                PI as int,
                arc_of(-100_000, -250_000, 150_000, QUARTER_TURN as int, 1000),
                witch_wall_and_ring(),
            ),
            PhaseModel::plain(
                TAU as int,
                arc_of(0, -250_000, 250_000, 4713, 500),
                witch_heart(),
            ),
            PhaseModel::plain(
                PI as int,
                arc_of(100_000, -250_000, 150_000, QUARTER_TURN as int, 1000),
                witch_wall_and_ring(),
            ),
            PhaseModel::plain(
                2000,
                line_to(
                    point(-50_000, -250_000),
                    point(-200_000, -400_000),
                    2000,
                ),
                witch_heart(),
            ),
            PhaseModel::plain(
                5000,
                line_to(
                    point(-200_000, -400_000),
                    point(200_000, -400_000),
                    5000,
                ),
                witch_heart(),
            ),
            PhaseModel::jump(
                2000,
                line_to(point(200_000, -400_000), point(50_000, -250_000), 2000),
                witch_heart(),
                1,
            ),
        ],
        "resources/witch.png"@,
        200_000,
    )
}

/// The first level as a value: a sentry; three patrols; two ghosts; the witch.
pub open spec fn l1_model() -> LevelModel {
    LevelModel {
        scene: 0,
        scenes: seq![
            seq![sentry_model()],
            seq![
                patrol_model(
                    2,
                    point(0, -600_000),
                    point(-200_000, -50_000),
                    point(50_000, -450_000),
                ),
                patrol_model(
                    3,
                    point(0, 600_000),
                    point(-150_000, -350_000),
                    point(200_000, -50_000),
                ),
                patrol_model(
                    4,
                    point(400_000, -200_000),
                    point(100_000, -300_000),
                    point(-250_000, -400_000),
                ),
            ],
            seq![l1_ghost(-1, PI as int), l1_ghost(1, 0)],
            seq![witch_model()],
        ],
        background: "resources/Floor.png"@,
        sound: "resources/resurrection.mp3"@,
    }
}

fn line(from: Vector, to: Vector, time: i64) -> (t: AnyTrajectory)
    ensures
        t == line_to(from, to, time as int),
{
    AnyTrajectory::FromTo(FromToTrajectory::new(from, to, time))
}

fn arc(x: i64, y: i64, r: i64, offset: i64, rotation_speed: i64) -> (t: AnyTrajectory)
    ensures
        t == arc_of(x as int, y as int, r as int, offset as int, rotation_speed as int),
{
    AnyTrajectory::Circle(CircleTrajectory::new(Circle::new(x, y, r), offset, rotation_speed))
}

fn fan(bullets: usize, spread: i64) -> (e: AnyEmitter)
    requires
        bullets >= 2,
    ensures
        e.as_model() == fan_of(bullets as nat, spread as int),
        e.as_model().wf(),
{
    AnyEmitter::Forward(ForwardEmitter::new(300, bullets, Vector::new(0, 200_000), spread))
}

fn heart() -> (e: AnyEmitter)
    ensures
        e.as_model() == witch_heart(),
        e.as_model().wf(),
{
    AnyEmitter::Hardcoded(HardcodedEmitter::hearth(500, 150_000, 30))
}

fn wall_and_ring() -> (e: AnyEmitter)
    ensures
        e.as_model() == witch_wall_and_ring(),
        e.as_model().wf(),
{
    let wall = AnyEmitter::Hardcoded(HardcodedEmitter::wall(500, 200_000, 300_000, 15));
    let ring = AnyEmitter::Circle(CircleEmitter::new(300, 7, 200_000));
    assert(wall.as_model().wf() && ring.as_model().wf());
    AnyEmitter::Combinator(Box::new(wall), Box::new(ring))
}

/// The first level: a sentry, three patrols, two ghosts, and the witch.
pub fn l1() -> (level: Level)
    ensures
        level@ == l1_model(),
        level@.wf(),
{
    let mut scenes: Vec<Scene> = Vec::new();
    assert(scenes_wf(scenes@));
    push_scene(&mut scenes, l1s0());
    push_scene(&mut scenes, l1s1());
    push_scene(&mut scenes, l1s2());
    push_scene(&mut scenes, l1s3());
    assert(scene_models(scenes@) =~= l1_model().scenes);
    Level::new(scenes, "resources/Floor.png".to_owned(), "resources/resurrection.mp3".to_owned())
}

fn l1s0() -> (scene: Scene)
    ensures
        scene@ == l1_model().scenes[0],
        all_wf(scene@),
{
    let ghost cap: nat = 1;
    let mut phases: Vec<Phase> = Vec::new();
    assert(well_linked(phase_models(phases@), cap));
    push_phase(
        &mut phases,
        Phase::new(
            3000,
            line(Vector::new(0, -800_000), Vector::new(0, -400_000), 3000),
            fan(2, 500),
        ),
        Ghost(cap),
    );
    push_phase(
        &mut phases,
        Phase::new(
            FOREVER,
            AnyTrajectory::Stay(StayTrajectory::new(Vector::new(0, -400_000))),
            fan(2, 500),
        ),
        Ghost(cap),
    );
    assert(phase_models(phases@) =~= sentry_model().phases);
    let mut enemies: Vec<Enemy> = Vec::new();
    assert(all_wf(enemy_models(enemies@)));
    push_enemy(
        &mut enemies,
        Enemy::new(
            Circle::new(0, 0, 20_000),
            30_000,
            phases,
            "resources/ghost.png".to_owned(),
            100_000,
        ),
    );
    assert(enemy_models(enemies@) =~= l1_model().scenes[0]);
    Scene::new(enemies)
}

/// A patrol that flies from `a` to `b` and then to and fro between `b` and `c`.
fn patrol(bullets: usize, a: Vector, b: Vector, c: Vector) -> (e: Enemy)
    requires
        bullets >= 2,
    ensures
        e@ == patrol_model(bullets as nat, a, b, c),
        e@.wf(),
{
    let ghost cap: nat = 2;
    let mut phases: Vec<Phase> = Vec::new();
    assert(well_linked(phase_models(phases@), cap));
    push_phase(&mut phases, Phase::new(6000, line(a, b, 6000), fan(bullets, 1500)), Ghost(cap));
    push_phase(&mut phases, Phase::new(6000, line(b, c, 6000), fan(bullets, 1500)), Ghost(cap));
    push_phase(
        &mut phases,
        Phase::new_jump(6000, line(c, b, 6000), fan(bullets, 1500), 1),
        Ghost(cap),
    );
    assert(phase_models(phases@) =~= patrol_model(bullets as nat, a, b, c).phases);
    Enemy::new(Circle::new(0, 0, 20_000), 5000, phases, "resources/ghost.png".to_owned(), 100_000)
}

fn l1s1() -> (scene: Scene)
    ensures
        scene@ == l1_model().scenes[1],
        all_wf(scene@),
{
    let mut enemies: Vec<Enemy> = Vec::new();
    assert(all_wf(enemy_models(enemies@)));
    push_enemy(
        &mut enemies,
        patrol(
            2,
            Vector::new(0, -600_000),
            Vector::new(-200_000, -50_000),
            Vector::new(50_000, -450_000),
        ),
    );
    push_enemy(
        &mut enemies,
        patrol(
            3,
            Vector::new(0, 600_000),
            Vector::new(-150_000, -350_000),
            Vector::new(200_000, -50_000),
        ),
    );
    push_enemy(
        &mut enemies,
        patrol(
            4,
            Vector::new(400_000, -200_000),
            Vector::new(100_000, -300_000),
            Vector::new(-250_000, -400_000),
        ),
    );
    assert(enemy_models(enemies@) =~= l1_model().scenes[1]);
    Scene::new(enemies)
}

/// The three points that a ghost visits on the side `side`.
pub(crate) fn ghost_path(side: i64) -> (points: Vec<Vector>)
    requires
        side == 1 || side == -1,
    ensures
        points@ == ghost_points(side as int),
{
    let mut points: Vec<Vector> = Vec::new();
    points.push(Vector::new(side * 200_000, -200_000));
    points.push(Vector::new(side * 20_000, -350_000));
    points.push(Vector::new(side * 200_000, -200_000));
    assert(points@ =~= ghost_points(side as int));
    points
}

fn l1s2() -> (scene: Scene)
    ensures
        scene@ == l1_model().scenes[2],
        all_wf(scene@),
{
    let mut enemies: Vec<Enemy> = Vec::new();
    assert(all_wf(enemy_models(enemies@)));
    push_enemy(&mut enemies, enemy_1(Vector::new(-350_000, -550_000), PI, 2000, ghost_path(-1)));
    push_enemy(&mut enemies, enemy_1(Vector::new(350_000, -550_000), 0, 2000, ghost_path(1)));
    assert(enemy_models(enemies@) =~= l1_model().scenes[2]);
    Scene::new(enemies)
}

fn l1s3() -> (scene: Scene)
    ensures
        scene@ == l1_model().scenes[3],
        all_wf(scene@),
{
    let ghost cap: nat = 2;
    let mut phases: Vec<Phase> = Vec::new();
    assert(well_linked(phase_models(phases@), cap));
    push_phase(
        &mut phases,
        Phase::new(
            2000,
            line(Vector::new(0, -700_000), Vector::new(50_000, -250_000), 2000),
            AnyEmitter::Hardcoded(HardcodedEmitter::wall(1500, 200_000, 500_000, 30)),
        ),
        Ghost(cap),
    );
    push_phase(
        &mut phases,
        Phase::new(PI, arc(-100_000, -250_000, 150_000, QUARTER_TURN, 1000), wall_and_ring()),
        Ghost(cap),
    );
    push_phase(
        &mut phases,
        Phase::new(TAU, arc(0, -250_000, 250_000, 3 * QUARTER_TURN, 500), heart()),
        Ghost(cap),
    );
    push_phase(
        &mut phases,
        Phase::new(PI, arc(100_000, -250_000, 150_000, QUARTER_TURN, 1000), wall_and_ring()),
        Ghost(cap),
    );
    push_phase(
        &mut phases,
        Phase::new(
            2000,
            line(Vector::new(-50_000, -250_000), Vector::new(-200_000, -400_000), 2000),
            heart(),
        ),
        Ghost(cap),
    );
    push_phase(
        &mut phases,
        Phase::new(
            5000,
            line(Vector::new(-200_000, -400_000), Vector::new(200_000, -400_000), 5000),
            heart(),
        ),
        Ghost(cap),
    );
    push_phase(
        &mut phases,
        Phase::new_jump(
            2000,
            line(Vector::new(200_000, -400_000), Vector::new(50_000, -250_000), 2000),
            heart(),
            1,
        ),
        Ghost(cap),
    );
    assert(phase_models(phases@) =~= witch_model().phases);
    let mut enemies: Vec<Enemy> = Vec::new();
    assert(all_wf(enemy_models(enemies@)));
    push_enemy(
        &mut enemies,
        Enemy::new(
            Circle::new(0, 0, 20_000),
            30_000,
            phases,
            "resources/witch.png".to_owned(),
            200_000,
        ),
    );
    assert(enemy_models(enemies@) =~= l1_model().scenes[3]);
    Scene::new(enemies)
}

} // verus!
