use bullet_hell::enemies::bullet_emmiters::{AnyEmitter, CircleEmitter, HardcodedEmitter};
use bullet_hell::enemies::trajectories::{AnyTrajectory, StayTrajectory};
use bullet_hell::enemies::{Enemy, Phase, FOREVER};
use bullet_hell::geometry::{Circle, Vector};
use bullet_hell::level::{l1, l2, Level, Scene};
use bullet_hell::world::{
    advance_enemies, drop_dead, drop_marked, fly, keep_inside, mark_clashes, strike_enemies,
    touched, Bullet, BulletType, TickResult, World, ENEMY_BULLET_RADIUS, FIRST_FAN, PLAYER_RADIUS,
    SNIPER_DAMAGE,
};

const ARENA: (i64, i64) = (600_000, 1_000_000);
const HOME: (i64, i64) = (0, 333_333);

fn silent() -> AnyEmitter {
    AnyEmitter::Circle(CircleEmitter::new(1000, 0, 0))
}

/// An enemy that stands still at `(x, y)` and fires with `emitter`.
fn sentry(x: i64, y: i64, r: i64, health: i64, emitter: AnyEmitter) -> Enemy {
    Enemy::new(
        Circle::new(x, y, r),
        health,
        vec![Phase::new(
            FOREVER,
            AnyTrajectory::Stay(StayTrajectory::new(Vector::new(x, y))),
            emitter,
        )],
        "ghost".to_string(),
        100_000,
    )
}

fn level_of(scenes: Vec<Vec<Enemy>>) -> Level {
    Level::new(
        scenes.into_iter().map(Scene::new).collect(),
        "floor".to_string(),
        "music".to_string(),
    )
}

fn world_of(scenes: Vec<Vec<Enemy>>) -> World {
    World::new(Vector::new(ARENA.0, ARENA.1), level_of(scenes))
}

fn bullet(typ: BulletType, x: i64, y: i64) -> Bullet {
    let r = if typ == BulletType::PlayerHeavy { 10_000 } else { 5000 };
    Bullet::new(typ, Circle::new(x, y, r), Vector::zero())
}

/// Fires one enemy bullet that rests at `(x, y)` on the first tick of a sentry
/// at the origin, and none for a long time after.
fn mine(x: i64, y: i64) -> AnyEmitter {
    AnyEmitter::Hardcoded(HardcodedEmitter::new(
        10_000_000,
        vec![(Vector::new(x, y), Vector::zero())],
    ))
}

#[test]
fn the_constants_are_in_thousandths() {
    assert_eq!(ENEMY_BULLET_RADIUS, 5000);
    assert_eq!(PLAYER_RADIUS, 10_000);
    assert_eq!(SNIPER_DAMAGE, 3000);
    assert_eq!(FIRST_FAN, 2);
}

#[test]
fn bullet_new_is_not_marked() {
    let b = Bullet::new(BulletType::PlayerHeavy, Circle::new(1, 2, 3), Vector::new(4, 5));
    assert_eq!(b.typ, BulletType::PlayerHeavy);
    assert_eq!(b.hitbox, Circle::new(1, 2, 3));
    assert_eq!(b.speed, Vector::new(4, 5));
    assert!(!b.marked_for_delete);
}

#[test]
fn new_bullet_is_an_enemy_bullet_of_radius_five() {
    let b = World::new_bullet(Vector::new(7, 8), Vector::new(9, 10));
    assert_eq!(b, Bullet::new(BulletType::Enemy, Circle::new(7, 8, 5000), Vector::new(9, 10)));
}

#[test]
fn a_new_world_is_empty_and_the_player_stands_in_the_lower_third() {
    let w = world_of(vec![vec![sentry(0, 0, 20_000, 3000, silent())]]);
    assert_eq!(*w.player(), Circle::new(HOME.0, HOME.1, 10_000));
    assert_eq!(w.size(), Vector::new(ARENA.0, ARENA.1));
    assert_eq!(w.time(), 0);
    assert!(w.enemies().is_empty());
    assert!(w.bullets().is_empty());
    assert_eq!(w.player_bullets(), 2);
    assert!(!w.clashed());
    assert!(!w.struck());
    assert_eq!(w.level().background(), "floor");
}

#[test]
fn move_player_translates_the_player_at_once() {
    let mut w = world_of(vec![vec![sentry(0, 0, 20_000, 3000, silent())]]);
    w.move_player(Vector::new(5000, -3333));
    assert_eq!(*w.player(), Circle::new(5000, 330_000, 10_000));
    w.move_player(Vector::new(1_000_000, 0));
    assert_eq!(w.player().coord, Vector::new(1_005_000, 330_000));
}

#[test]
fn tick_moves_the_player_into_the_arena() {
    let corners = [
        ((1_000_000, -2_000_000), (290_000, -490_000)),
        ((-1_000_000, 2_000_000), (-290_000, 490_000)),
        ((290_001, 156_668), (290_000, 490_000)),
        ((-290_001, -823_334), (-290_000, -490_000)),
        ((290_000, 156_667), (290_000, 490_000)),
        ((12_345, -54_321), (12_345, 279_012)),
    ];
    for (by, at) in corners {
        let mut w = world_of(vec![vec![sentry(0, 0, 20_000, 3000, silent())]]);
        w.move_player(Vector::new(by.0, by.1));
        assert_eq!(w.tick(16), TickResult::Continue);
        assert_eq!(w.player().coord, Vector::new(at.0, at.1));
        assert_eq!(w.player().r, 10_000);
        // a second tick without input leaves the player where it is
        assert_eq!(w.tick(16), TickResult::Continue);
        assert_eq!(w.player().coord, Vector::new(at.0, at.1));
    }
}

#[test]
fn after_every_tick_the_player_lies_in_the_arena() {
    let mut w = World::new(Vector::new(ARENA.0, ARENA.1), l1());
    let pushes = [(7000, 0), (0, 9000), (-9000, -9000), (300_000, 0), (0, -700_000), (-1, 1)];
    for i in 0..300 {
        let by = pushes[(i / 7) % pushes.len()];
        w.move_player(Vector::new(by.0, by.1));
        for dt in [1, 16, 1000] {
            if w.tick(dt) == TickResult::Lose {
                w.reset(l1());
                continue;
            }
            let p = w.player().coord;
            assert!(-290_000 <= p.x && p.x <= 290_000, "x {}", p.x);
            assert!(-490_000 <= p.y && p.y <= 490_000, "y {}", p.y);
        }
    }
}

#[test]
fn keep_inside_twice_is_keep_inside_once() {
    let size = Vector::new(ARENA.0, ARENA.1);
    for (x, y, r) in [
        (0, 0, 10_000),
        (i64::MAX, i64::MIN, 10_000),
        (-290_001, 490_001, 10_000),
        (5, 5, 400_000),
        (5, 5, i64::MAX),
        (5, 5, -7),
    ] {
        let once = keep_inside(&Circle::new(x, y, r), &size);
        assert_eq!(keep_inside(&once, &size), once, "{x} {y} {r}");
        assert_eq!(once.r, r);
    }
    assert_eq!(keep_inside(&Circle::new(0, 0, 10_000), &size), Circle::new(0, 0, 10_000));
    assert_eq!(
        keep_inside(&Circle::new(300_000, -500_000, 10_000), &size),
        Circle::new(290_000, -490_000, 10_000)
    );
    // a disc that is wider than the arena is put at the upper end of its range
    assert_eq!(keep_inside(&Circle::new(5, 5, 400_000), &size).coord, Vector::new(-100_000, 5));
}

#[test]
fn a_tick_that_wins_leaves_the_player_where_it_is() {
    let mut w = world_of(vec![vec![]]);
    assert_eq!(w.tick(16), TickResult::Continue);
    w.move_player(Vector::new(1_000_000, 0));
    assert_eq!(w.tick(16), TickResult::Win);
    assert_eq!(w.player().coord, Vector::new(1_000_000, HOME.1));
    assert_eq!(w.time(), 32);
}

#[test]
fn the_clock_adds_up_every_tick() {
    let mut w = world_of(vec![vec![sentry(0, 0, 20_000, 3000, silent())]]);
    w.tick(16);
    w.tick(17);
    w.tick(1000);
    assert_eq!(w.time(), 1033);
    w.tick(i64::MAX);
    assert_eq!(w.time(), i64::MAX);
}

#[test]
fn shoot_fires_a_fan_about_the_player() {
    let mut w = world_of(vec![vec![sentry(0, 0, 20_000, 3000, silent())]]);
    w.shoot(Vector::new(0, -500_000), BulletType::PlayerSniper);
    assert_eq!(
        *w.bullets(),
        vec![
            Bullet::new(
                BulletType::PlayerSniper,
                Circle::new(-3000, HOME.1, 5000),
                Vector::new(0, -500_000)
            ),
            Bullet::new(
                BulletType::PlayerSniper,
                Circle::new(3000, HOME.1, 5000),
                Vector::new(0, -500_000)
            ),
        ]
    );
    w.move_player(Vector::new(100_000, 1));
    w.shoot(Vector::new(1, 2), BulletType::PlayerHeavy);
    assert_eq!(w.bullets().len(), 4);
    assert_eq!(
        w.bullets()[2],
        Bullet::new(
            BulletType::PlayerHeavy,
            Circle::new(94_500, 333_334, 10_000),
            Vector::new(1, 2)
        )
    );
    assert_eq!(w.bullets()[3].hitbox, Circle::new(105_500, 333_334, 10_000));
}

#[test]
fn the_fan_grows_by_one_bullet_at_a_time() {
    let mut w = world_of(vec![vec![sentry(0, 0, 20_000, 3000, silent())]]);
    w.add_player_bullet();
    assert_eq!(w.player_bullets(), 3);
    w.shoot(Vector::zero(), BulletType::PlayerSniper);
    let xs: Vec<i64> = w.bullets().iter().map(|b| b.hitbox.coord.x).collect();
    assert_eq!(xs, vec![-6000, 0, 6000]);
    w.add_player_bullet();
    w.reset(level_of(vec![vec![]]));
    assert_eq!(w.player_bullets(), 4);
    w.shoot(Vector::zero(), BulletType::PlayerHeavy);
    let xs: Vec<i64> = w.bullets().iter().map(|b| b.hitbox.coord.x).collect();
    assert_eq!(xs, vec![-16_500, -5500, 5500, 16_500]);
    let shot = w.bullets()[0];
    assert_eq!(shot.hitbox.r, 10_000);
    assert_eq!(shot.hitbox.coord.y, HOME.1);
}

#[test]
fn reset_clears_the_arena_and_puts_the_player_back() {
    let mut w = world_of(vec![vec![sentry(0, 0, 20_000, 3000, mine(100_000, 0))]]);
    w.tick(16);
    w.move_player(Vector::new(50_000, 50_000));
    w.shoot(Vector::zero(), BulletType::PlayerSniper);
    w.tick(16);
    assert_eq!(w.enemies().len(), 1);
    assert_eq!(w.bullets().len(), 3);
    w.reset(level_of(vec![vec![], vec![sentry(0, 0, 20_000, 3000, silent())]]));
    assert!(w.enemies().is_empty());
    assert!(w.bullets().is_empty());
    assert_eq!(*w.player(), Circle::new(HOME.0, HOME.1, 10_000));
    assert_eq!(w.level().sound(), "music");
    // the new level starts with its first scene
    assert_eq!(w.tick(16), TickResult::Continue);
    assert!(w.enemies().is_empty());
    assert_eq!(w.tick(16), TickResult::Continue);
    assert_eq!(w.enemies().len(), 1);
}

#[test]
fn touched_sees_enemy_bullets_only() {
    let player = Circle::new(0, 0, 10_000);
    assert!(!touched(&player, &vec![]));
    assert!(!touched(&player, &vec![bullet(BulletType::PlayerSniper, 0, 0)]));
    assert!(!touched(&player, &vec![bullet(BulletType::PlayerHeavy, 0, 0)]));
    assert!(!touched(&player, &vec![bullet(BulletType::Enemy, 15_000, 0)]));
    assert!(touched(&player, &vec![bullet(BulletType::Enemy, 14_999, 0)]));
    assert!(touched(
        &player,
        &vec![
            bullet(BulletType::PlayerHeavy, 0, 0),
            bullet(BulletType::Enemy, 100_000, 0),
            bullet(BulletType::Enemy, 0, -9000),
        ]
    ));
}

#[test]
fn bullets_of_different_kinds_cancel_each_other() {
    let mut bullets = vec![
        bullet(BulletType::PlayerHeavy, 0, 0),
        bullet(BulletType::Enemy, 14_999, 0),
        bullet(BulletType::Enemy, 500_000, 0),
    ];
    assert!(mark_clashes(&mut bullets));
    let marks: Vec<bool> = bullets.iter().map(|b| b.marked_for_delete).collect();
    assert_eq!(marks, vec![true, true, false]);
    drop_marked(&mut bullets);
    assert_eq!(bullets, vec![bullet(BulletType::Enemy, 500_000, 0)]);
}

#[test]
fn bullets_that_only_touch_do_not_cancel() {
    let mut bullets =
        vec![bullet(BulletType::PlayerHeavy, 0, 0), bullet(BulletType::Enemy, 15_000, 0)];
    assert!(!mark_clashes(&mut bullets));
    assert!(bullets.iter().all(|b| !b.marked_for_delete));
}

#[test]
fn bullets_of_one_kind_never_cancel_each_other() {
    for typ in [BulletType::PlayerHeavy, BulletType::Enemy, BulletType::PlayerSniper] {
        let mut bullets = vec![bullet(typ, 0, 0), bullet(typ, 0, 0), bullet(typ, 1000, 1000)];
        assert!(!mark_clashes(&mut bullets));
        assert!(bullets.iter().all(|b| !b.marked_for_delete));
        drop_marked(&mut bullets);
        assert_eq!(bullets.len(), 3);
    }
}

#[test]
fn precise_shots_pass_through_all_bullets() {
    let mut bullets = vec![
        bullet(BulletType::PlayerSniper, 0, 0),
        bullet(BulletType::Enemy, 0, 0),
        bullet(BulletType::PlayerSniper, 1, 1),
        bullet(BulletType::PlayerHeavy, 400_000, 0),
        bullet(BulletType::PlayerSniper, 400_000, 0),
    ];
    assert!(!mark_clashes(&mut bullets));
    assert!(bullets.iter().all(|b| !b.marked_for_delete));
}

#[test]
fn one_bullet_cancels_all_that_overlap_it() {
    let mut bullets = vec![
        bullet(BulletType::Enemy, -10_000, 0),
        bullet(BulletType::PlayerHeavy, 0, 0),
        bullet(BulletType::Enemy, 10_000, 0),
        bullet(BulletType::Enemy, 10_000, 5000),
        bullet(BulletType::Enemy, 30_000, 0),
    ];
    assert!(mark_clashes(&mut bullets));
    let marks: Vec<bool> = bullets.iter().map(|b| b.marked_for_delete).collect();
    assert_eq!(marks, vec![true, true, true, true, false]);
}

#[test]
fn mark_clashes_keeps_earlier_marks() {
    let mut gone = bullet(BulletType::Enemy, 0, 0);
    gone.marked_for_delete = true;
    let mut bullets = vec![gone, bullet(BulletType::Enemy, 100_000, 0)];
    assert!(!mark_clashes(&mut bullets));
    assert!(bullets[0].marked_for_delete);
    assert!(!bullets[1].marked_for_delete);
    // a marked bullet still cancels others until it is removed
    let mut bullets = vec![gone, bullet(BulletType::PlayerHeavy, 1000, 0)];
    assert!(mark_clashes(&mut bullets));
    assert!(bullets[1].marked_for_delete);
}

#[test]
fn a_precise_shot_wounds_and_is_stopped() {
    let mut enemies = vec![sentry(0, 0, 20_000, 30_000, silent())];
    let mut bullets = vec![bullet(BulletType::PlayerSniper, 24_000, 0)];
    assert!(strike_enemies(&mut enemies, &mut bullets));
    assert_eq!(enemies[0].health(), 27_000);
    assert_eq!(enemies[0].hitbox().r, 18_500);
    assert!(bullets[0].marked_for_delete);
}

#[test]
fn a_heavy_shot_is_stopped_and_wounds_nobody() {
    let mut enemies = vec![sentry(0, 0, 20_000, 30_000, silent())];
    let mut bullets = vec![bullet(BulletType::PlayerHeavy, 29_000, 0)];
    assert!(strike_enemies(&mut enemies, &mut bullets));
    assert_eq!(enemies[0].health(), 30_000);
    assert_eq!(enemies[0].hitbox().r, 20_000);
    assert!(bullets[0].marked_for_delete);
}

#[test]
fn enemy_bullets_pass_through_enemies() {
    let mut enemies = vec![sentry(0, 0, 20_000, 30_000, silent())];
    let mut bullets = vec![bullet(BulletType::Enemy, 0, 0)];
    assert!(!strike_enemies(&mut enemies, &mut bullets));
    assert_eq!(enemies[0].health(), 30_000);
    assert!(!bullets[0].marked_for_delete);
}

#[test]
fn shots_that_miss_are_not_stopped() {
    let mut enemies = vec![sentry(0, 0, 20_000, 30_000, silent())];
    let mut bullets = vec![
        bullet(BulletType::PlayerSniper, 25_000, 0),
        bullet(BulletType::PlayerHeavy, 0, 30_000),
    ];
    assert!(!strike_enemies(&mut enemies, &mut bullets));
    assert_eq!(enemies[0].health(), 30_000);
    assert!(bullets.iter().all(|b| !b.marked_for_delete));
}

#[test]
fn a_wound_shrinks_the_hitbox_for_the_bullets_that_follow() {
    let mut enemies = vec![sentry(0, 0, 20_000, 30_000, silent())];
    let mut bullets = vec![
        bullet(BulletType::PlayerSniper, 24_000, 0),
        bullet(BulletType::PlayerSniper, 24_000, 0),
        bullet(BulletType::PlayerHeavy, 29_000, 0),
        bullet(BulletType::PlayerHeavy, 0, 0),
    ];
    assert!(strike_enemies(&mut enemies, &mut bullets));
    assert_eq!(enemies[0].health(), 27_000);
    let marks: Vec<bool> = bullets.iter().map(|b| b.marked_for_delete).collect();
    assert_eq!(marks, vec![true, false, false, true]);
}

#[test]
fn every_enemy_is_tested_against_every_bullet() {
    let mut enemies = vec![
        sentry(0, 0, 20_000, 30_000, silent()),
        sentry(30_000, 0, 20_000, 30_000, silent()),
        sentry(500_000, 0, 20_000, 30_000, silent()),
    ];
    let mut bullets = vec![
        bullet(BulletType::PlayerSniper, 15_000, 0),
        bullet(BulletType::PlayerSniper, 45_000, 0),
    ];
    assert!(strike_enemies(&mut enemies, &mut bullets));
    let health: Vec<i64> = enemies.iter().map(|e| e.health()).collect();
    assert_eq!(health, vec![27_000, 24_000, 30_000]);
    assert!(bullets.iter().all(|b| b.marked_for_delete));
}

#[test]
fn a_precise_shot_deals_exactly_three_damage() {
    let mut enemies = vec![sentry(0, 0, 20_000, 3000, silent())];
    let mut bullets = vec![bullet(BulletType::PlayerSniper, 0, 0)];
    strike_enemies(&mut enemies, &mut bullets);
    assert_eq!(enemies[0].health(), 0);
    assert!(!enemies[0].is_alive());
}

#[test]
fn dead_enemies_are_removed_in_order() {
    let mut enemies = vec![
        sentry(0, 0, 1, 0, silent()),
        sentry(0, 0, 1, 1, silent()),
        sentry(0, 0, 1, -5, silent()),
        sentry(0, 0, 1, 2, silent()),
        sentry(0, 0, 1, 3, silent()),
        sentry(0, 0, 1, 0, silent()),
    ];
    drop_dead(&mut enemies);
    let health: Vec<i64> = enemies.iter().map(|e| e.health()).collect();
    assert_eq!(health, vec![1, 2, 3]);
    drop_dead(&mut enemies);
    assert_eq!(enemies.len(), 3);
    let mut none: Vec<Enemy> = Vec::new();
    drop_dead(&mut none);
    assert!(none.is_empty());
}

#[test]
fn an_enemy_hit_for_all_its_health_is_gone_after_compaction() {
    let mut enemies =
        vec![sentry(0, 0, 20_000, 3000, silent()), sentry(0, 0, 20_000, 3001, silent())];
    enemies[0].hit(3000);
    enemies[1].hit(3000);
    assert!(!enemies[0].is_alive());
    assert!(enemies[1].is_alive());
    drop_dead(&mut enemies);
    assert_eq!(enemies.len(), 1);
    assert_eq!(enemies[0].health(), 1);
}

#[test]
fn marked_bullets_are_removed_in_order() {
    let mut bullets: Vec<Bullet> = (0..6).map(|i| bullet(BulletType::Enemy, i, 0)).collect();
    bullets[0].marked_for_delete = true;
    bullets[3].marked_for_delete = true;
    bullets[5].marked_for_delete = true;
    drop_marked(&mut bullets);
    let xs: Vec<i64> = bullets.iter().map(|b| b.hitbox.coord.x).collect();
    assert_eq!(xs, vec![1, 2, 4]);
    assert!(bullets.iter().all(|b| !b.marked_for_delete));
}

#[test]
fn bullets_fly_by_their_velocity_times_the_time() {
    let size = Vector::new(ARENA.0, ARENA.1);
    let mut bullets = vec![
        Bullet::new(BulletType::Enemy, Circle::new(0, 0, 5000), Vector::new(100_000, -50_000)),
        Bullet::new(BulletType::PlayerSniper, Circle::new(1, 1, 5000), Vector::new(0, -500_000)),
    ];
    fly(&mut bullets, 16, &size);
    assert_eq!(bullets[0].hitbox, Circle::new(1600, -800, 5000));
    assert_eq!(bullets[1].hitbox, Circle::new(1, -7999, 5000));
    assert!(bullets.iter().all(|b| !b.marked_for_delete));
    fly(&mut bullets, 1000, &size);
    assert_eq!(bullets[0].hitbox.coord, Vector::new(101_600, -50_800));
    assert_eq!(bullets[1].hitbox.coord, Vector::new(1, -507_999));
    assert!(!bullets[0].marked_for_delete);
    assert!(bullets[1].marked_for_delete);
}

#[test]
fn a_bullet_is_marked_once_it_has_left_the_arena_by_its_radius() {
    let size = Vector::new(ARENA.0, ARENA.1);
    let mut bullets = vec![
        Bullet::new(BulletType::Enemy, Circle::new(304_998, 0, 5000), Vector::new(1000, 0)),
        Bullet::new(BulletType::Enemy, Circle::new(304_999, 0, 5000), Vector::new(1000, 0)),
        Bullet::new(BulletType::Enemy, Circle::new(0, -504_999, 5000), Vector::new(0, -1000)),
        Bullet::new(BulletType::Enemy, Circle::new(0, 504_998, 5000), Vector::new(0, 1000)),
    ];
    fly(&mut bullets, 1, &size);
    let marks: Vec<bool> = bullets.iter().map(|b| b.marked_for_delete).collect();
    assert_eq!(marks, vec![false, true, true, false]);
}

#[test]
fn a_marked_bullet_stays_marked_in_flight() {
    let size = Vector::new(ARENA.0, ARENA.1);
    let mut b = bullet(BulletType::Enemy, 0, 0);
    b.marked_for_delete = true;
    let mut bullets = vec![b];
    fly(&mut bullets, 16, &size);
    assert!(bullets[0].marked_for_delete);
}

#[test]
fn enemies_advance_and_fire_one_after_the_other() {
    let mut enemies = vec![
        sentry(1000, 0, 20_000, 30_000, mine(1, 0)),
        sentry(2000, 0, 20_000, 30_000, silent()),
        sentry(3000, 0, 20_000, 30_000, mine(2, 0)),
    ];
    let mut bullets = vec![bullet(BulletType::PlayerHeavy, 9, 9)];
    advance_enemies(&mut enemies, 16, &mut bullets);
    assert!(enemies.iter().all(|e| e.time() == 16));
    let xs: Vec<i64> = bullets.iter().map(|b| b.hitbox.coord.x).collect();
    assert_eq!(xs, vec![9, 1001, 3002]);
}

#[test]
fn an_enemy_bullet_on_the_player_loses_the_round_at_once() {
    let mut w = world_of(vec![vec![sentry(0, 0, 20_000, 30_000, mine(HOME.0, HOME.1))]]);
    assert_eq!(w.tick(16), TickResult::Continue);
    assert_eq!(*w.bullets(), vec![bullet(BulletType::Enemy, HOME.0, HOME.1)]);
    // a heavy fan on the same spot would cancel the bullet, were the round
    // not lost before
    w.shoot(Vector::zero(), BulletType::PlayerHeavy);
    let before = w.bullets().clone();
    assert_eq!(w.tick(16), TickResult::Lose);
    assert_eq!(*w.bullets(), before);
    assert!(w.bullets().iter().all(|b| !b.marked_for_delete));
    assert_eq!(w.enemies().len(), 1);
    assert_eq!(w.enemies()[0].time(), 16);
    assert_eq!(w.enemies()[0].health(), 30_000);
    assert_eq!(w.time(), 32);
    assert!(!w.clashed());
    assert!(!w.struck());
    // and again on every tick that follows
    assert_eq!(w.tick(16), TickResult::Lose);
}

#[test]
fn an_enemy_bullet_that_reaches_the_player_loses_the_round() {
    let aimed = AnyEmitter::Hardcoded(HardcodedEmitter::new(
        10_000_000,
        vec![(Vector::new(0, 33_333), Vector::new(0, 100_000))],
    ));
    let mut w = world_of(vec![vec![sentry(0, 0, 20_000, 30_000, aimed)]]);
    // 285 px to cover at 100 px a second, less one tick of flight
    let mut ticks = 0;
    loop {
        let result = w.tick(100);
        ticks += 1;
        if result == TickResult::Lose {
            break;
        }
        assert_eq!(result, TickResult::Continue);
        assert!(ticks < 100);
    }
    assert_eq!(w.bullets()[0].hitbox.coord, Vector::new(0, 323_333));
    assert_eq!(ticks, 30);
}

#[test]
fn the_player_is_moved_into_the_arena_before_it_is_tested() {
    // the bullet rests at the edge; the player stands far outside
    let mut w = world_of(vec![vec![sentry(0, 0, 20_000, 30_000, mine(295_000, 0))]]);
    w.tick(16);
    w.move_player(Vector::new(5_000_000, -HOME.1));
    assert_eq!(w.tick(16), TickResult::Lose);
    assert_eq!(w.player().coord, Vector::new(290_000, 0));
}

#[test]
fn overlapping_bullets_of_different_kinds_are_gone_after_one_tick() {
    let mut w = world_of(vec![vec![sentry(0, -400_000, 20_000, 30_000, mine(200_000, 400_000))]]);
    assert_eq!(w.tick(16), TickResult::Continue);
    assert_eq!(*w.bullets(), vec![bullet(BulletType::Enemy, 200_000, 0)]);
    w.move_player(Vector::new(216_000, -HOME.1));
    w.shoot(Vector::zero(), BulletType::PlayerHeavy);
    assert_eq!(w.bullets().len(), 3);
    assert_eq!(w.tick(16), TickResult::Continue);
    assert_eq!(*w.bullets(), vec![bullet(BulletType::PlayerHeavy, 221_500, 0)]);
    assert!(w.clashed());
    assert!(!w.struck());
    assert_eq!(w.tick(16), TickResult::Continue);
    assert!(!w.clashed());
    assert_eq!(w.bullets().len(), 1);
}

#[test]
fn overlapping_bullets_of_one_kind_stay() {
    let mut w = world_of(vec![vec![sentry(0, -400_000, 20_000, 30_000, silent())]]);
    w.tick(16);
    w.shoot(Vector::zero(), BulletType::PlayerHeavy);
    w.shoot(Vector::zero(), BulletType::PlayerHeavy);
    w.shoot(Vector::zero(), BulletType::PlayerSniper);
    for _ in 0..5 {
        assert_eq!(w.tick(16), TickResult::Continue);
        assert_eq!(w.bullets().len(), 6);
        assert!(!w.clashed());
    }
}

#[test]
fn enemy_bullets_on_top_of_each_other_stay() {
    let twice = AnyEmitter::Hardcoded(HardcodedEmitter::new(
        10_000_000,
        vec![(Vector::new(100_000, 0), Vector::zero()), (Vector::new(100_000, 0), Vector::zero())],
    ));
    let mut w = world_of(vec![vec![sentry(0, 0, 20_000, 30_000, twice)]]);
    for _ in 0..5 {
        assert_eq!(w.tick(16), TickResult::Continue);
        assert_eq!(w.bullets().len(), 2);
    }
}

#[test]
fn a_precise_shot_passes_an_enemy_bullet_in_the_world() {
    let mut w = world_of(vec![vec![sentry(0, -400_000, 20_000, 30_000, mine(200_000, 400_000))]]);
    w.tick(16);
    w.move_player(Vector::new(216_000, -HOME.1));
    w.shoot(Vector::zero(), BulletType::PlayerSniper);
    for _ in 0..3 {
        assert_eq!(w.tick(16), TickResult::Continue);
        assert_eq!(w.bullets().len(), 3);
    }
}

#[test]
fn bullets_fired_in_a_tick_fly_in_that_tick() {
    let moving = AnyEmitter::Hardcoded(HardcodedEmitter::new(
        10_000_000,
        vec![(Vector::new(0, 30_000), Vector::new(1000, 200_000))],
    ));
    let mut w = world_of(vec![vec![sentry(0, -400_000, 20_000, 30_000, moving)]]);
    w.tick(16);
    assert_eq!(
        *w.bullets(),
        vec![Bullet::new(
            BulletType::Enemy,
            Circle::new(16, -366_800, 5000),
            Vector::new(1000, 200_000)
        )]
    );
    w.tick(100);
    assert_eq!(w.bullets()[0].hitbox.coord, Vector::new(116, -346_800));
}

#[test]
fn bullets_that_leave_the_arena_are_removed() {
    let mut w = world_of(vec![vec![sentry(200_000, -400_000, 20_000, 30_000, silent())]]);
    w.tick(16);
    w.shoot(Vector::new(0, -500_000), BulletType::PlayerSniper);
    let mut ticks = 0;
    while !w.bullets().is_empty() {
        assert_eq!(w.tick(16), TickResult::Continue);
        ticks += 1;
        assert!(ticks < 1000);
    }
    // 838.333 px to the upper edge and the radius beyond it, 8 px a tick;
    // the enemy stands beside the path of both shots
    assert_eq!(ticks, 105);
}

#[test]
fn a_level_of_two_scenes_is_played_to_the_end() {
    let near = |x: i64| sentry(x, HOME.1, 1000, 3000, silent());
    let mut w = world_of(vec![vec![near(-8500)], vec![near(-8500), near(8500)]]);

    // the first tick spawns the first scene
    assert_eq!(w.tick(16), TickResult::Continue);
    assert_eq!(w.enemies().len(), 1);
    assert_eq!(w.enemies()[0].health(), 3000);

    // one of the two shots overlaps the enemy and kills it
    w.shoot(Vector::zero(), BulletType::PlayerSniper);
    assert_eq!(w.tick(16), TickResult::Continue);
    assert!(w.struck());
    assert!(w.enemies().is_empty());
    assert_eq!(*w.bullets(), vec![bullet(BulletType::PlayerSniper, 3000, HOME.1)]);

    // the tick after that spawns the second scene and clears the bullets
    assert_eq!(w.tick(16), TickResult::Continue);
    assert!(!w.struck());
    assert_eq!(w.enemies().len(), 2);
    assert!(w.bullets().is_empty());

    // each shot kills one enemy of the second scene
    w.shoot(Vector::zero(), BulletType::PlayerSniper);
    assert_eq!(w.tick(16), TickResult::Continue);
    assert!(w.enemies().is_empty());
    assert!(w.bullets().is_empty());

    // with nothing left to spawn the level is won, one tick later
    assert_eq!(w.tick(16), TickResult::Win);
    assert_eq!(w.tick(16), TickResult::Win);
    assert_eq!(w.time(), 96);
}

#[test]
fn heavy_shots_never_kill() {
    let mut w = world_of(vec![vec![sentry(0, HOME.1, 20_000, 3000, silent())]]);
    w.tick(16);
    for _ in 0..10 {
        w.shoot(Vector::zero(), BulletType::PlayerHeavy);
        assert_eq!(w.tick(16), TickResult::Continue);
        assert!(w.struck());
        assert!(w.bullets().is_empty());
        assert_eq!(w.enemies().len(), 1);
        assert_eq!(w.enemies()[0].health(), 3000);
        assert_eq!(w.enemies()[0].hitbox().r, 20_000);
    }
}

#[test]
fn a_bullet_marked_twice_is_removed_once() {
    // the shot hits the enemy at the edge and leaves the arena in the same tick
    let mut w = world_of(vec![vec![sentry(0, -490_000, 20_000, 30_000, silent())]]);
    w.tick(16);
    w.move_player(Vector::new(0, -490_000 - HOME.1));
    w.shoot(Vector::new(0, -2_000_000), BulletType::PlayerSniper);
    assert_eq!(w.tick(16), TickResult::Continue);
    assert!(w.bullets().is_empty());
    assert_eq!(w.enemies()[0].health(), 24_000);
}

#[test]
fn the_first_level_can_be_played() {
    let mut w = World::new(Vector::new(ARENA.0, ARENA.1), l1());
    let mut lost = 0;
    let mut cooldown = 0;
    for frame in 0..4000 {
        if frame % 3 == 0 {
            w.move_player(Vector::new(if (frame / 300) % 2 == 0 { 4800 } else { -4800 }, -100));
        }
        cooldown -= 16;
        if cooldown <= 0 {
            w.shoot(Vector::new(0, -500_000), BulletType::PlayerSniper);
            cooldown += 200;
        }
        match w.tick(16) {
            TickResult::Continue => {}
            TickResult::Lose => {
                lost += 1;
                w.reset(l1());
            }
            TickResult::Win => {
                w.add_player_bullet();
                w.reset(l2());
            }
        }
        assert!(w.bullets().iter().all(|b| !b.marked_for_delete));
        assert!(w.enemies().iter().all(|e| e.is_alive()));
    }
    assert_eq!(w.time(), 64_000);
    assert!(lost <= 4000);
}
