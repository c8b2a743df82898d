use bullet_hell::enemies::bullet_emmiters::{AnyEmitter, CircleEmitter, HardcodedEmitter};
use bullet_hell::enemies::trajectories::{AnyTrajectory, StayTrajectory};
use bullet_hell::enemies::{Enemy, Phase, FOREVER};
use bullet_hell::geometry::{Circle, Vector};
use bullet_hell::level::{l1, l2, Level, Scene};
use bullet_hell::session::{
    Download, Frame, GameOverKind, GameState, Held, Key, KeyAction, Session, GUN_COOLDOWN,
    PLAYER_SPEED, SHOT_SPEED,
};
use bullet_hell::world::{Bullet, BulletType};

const HOME: (i64, i64) = (0, 333_333);

const IDLE: Frame = Frame {
    request_frame: false,
    start_music: false,
    stop_music: false,
    shot: false,
    clash: false,
    strike: false,
    draw: false,
    screen: None,
};

const NEXT: Frame = Frame { request_frame: true, ..IDLE };

fn guard(x: i64, y: i64, health: i64, emitter: AnyEmitter) -> Enemy {
    Enemy::new(
        Circle::new(x, y, 1000),
        health,
        vec![Phase::new(
            FOREVER,
            AnyTrajectory::Stay(StayTrajectory::new(Vector::new(x, y))),
            emitter,
        )],
        "ghost".to_string(),
        100_000,
    )
}

fn silent() -> AnyEmitter {
    AnyEmitter::Circle(CircleEmitter::new(1000, 0, 0))
}

fn level_of(scenes: Vec<Vec<Enemy>>) -> Level {
    Level::new(
        scenes.into_iter().map(Scene::new).collect(),
        "floor".to_string(),
        "music".to_string(),
    )
}

/// A level whose one enemy dies of the first precise shot.
fn easy() -> Level {
    level_of(vec![vec![guard(-8500, HOME.1, 3000, silent())]])
}

/// A level whose one enemy puts a bullet on the player at once.
fn deadly() -> Level {
    let mine = AnyEmitter::Hardcoded(HardcodedEmitter::new(
        10_000_000,
        vec![(Vector::new(HOME.0, HOME.1), Vector::zero())],
    ));
    level_of(vec![vec![guard(0, 0, 3000, mine)]])
}

fn session(levels: Vec<Level>) -> Session {
    Session::new(Vector::new(600_000, 1_000_000), levels)
}

/// A session that has loaded its one file and was started with `Enter`; the
/// frame at time 1000 has set the clock.
fn started(levels: Vec<Level>) -> Session {
    let mut s = session(levels);
    s.download_requested();
    s.downloaded();
    assert_eq!(s.key_down(Key::Enter), KeyAction::RequestFrame);
    assert_eq!(s.timer(1000), Frame { start_music: true, ..NEXT });
    s
}

#[test]
fn the_constants_of_play() {
    assert_eq!(PLAYER_SPEED, 300_000);
    assert_eq!(SHOT_SPEED, 500_000);
    assert_eq!(GUN_COOLDOWN, 200);
}

#[test]
fn the_screens_have_their_colours() {
    assert_eq!(GameOverKind::Lost.color(), "rgba(255, 100, 100, 255)");
    assert_eq!(GameOverKind::Won.color(), "rgba(100, 255, 100, 255)");
    assert_eq!(GameOverKind::LevelFinished.color(), "rgba(100, 255, 100, 255)");
    assert_eq!(GameOverKind::Loading.color(), "rgba(100, 100, 255, 255)");
}

#[test]
fn downloads_are_told_apart() {
    let a = Download::Audio("a".to_string());
    let b = Download::Image("a".to_string());
    assert_ne!(a, b);
    assert_eq!(a.clone(), a);
}

#[test]
fn a_new_session_is_loading() {
    let s = session(vec![l1(), l2()]);
    assert_eq!(s.game_state(), GameState::Loading);
    assert_eq!(s.current_level(), 0);
    assert_eq!(s.level_count(), 2);
    assert_eq!(s.unfinished_downloads(), 0);
    assert_eq!(s.bullet_type(), BulletType::PlayerSniper);
    assert_eq!(s.gun_cooldown(), 0);
    assert_eq!(
        s.held(),
        Held { left: false, right: false, up: false, down: false, space: false }
    );
    assert_eq!(*s.world().player(), Circle::new(HOME.0, HOME.1, 10_000));
    assert_eq!(s.world().level().sound(), "resources/resurrection.mp3");
}

#[test]
fn the_last_file_finishes_the_loading() {
    let mut s = session(vec![easy()]);
    assert_eq!(s.download_requested(), GameOverKind::Loading);
    assert_eq!(s.download_requested(), GameOverKind::Loading);
    assert_eq!(s.unfinished_downloads(), 2);
    assert_eq!(s.game_state(), GameState::Loading);
    s.downloaded();
    assert_eq!(s.game_state(), GameState::Loading);
    s.downloaded();
    assert_eq!(s.game_state(), GameState::FinishLoading);
    assert_eq!(s.unfinished_downloads(), 0);
}

#[test]
fn nothing_runs_while_files_are_loading() {
    let mut s = session(vec![easy()]);
    s.download_requested();
    assert_eq!(s.key_down(Key::Enter), KeyAction::Idle);
    assert_eq!(s.timer(1000), IDLE);
    assert_eq!(s.timer(2000), IDLE);
    assert_eq!(s.game_state(), GameState::Loading);
    assert_eq!(s.world().time(), 0);
}

#[test]
fn enter_starts_the_game_once_it_is_loaded() {
    let mut s = session(vec![easy()]);
    s.download_requested();
    s.downloaded();
    assert_eq!(s.key_down(Key::Space), KeyAction::Idle);
    assert_eq!(s.game_state(), GameState::FinishLoading);
    assert_eq!(s.key_down(Key::Enter), KeyAction::RequestFrame);
    assert_eq!(s.game_state(), GameState::FinishLoading);
    assert_eq!(s.timer(5000), Frame { start_music: true, ..NEXT });
    assert_eq!(s.game_state(), GameState::Playing);
    assert_eq!(s.world().time(), 0);
}

#[test]
fn the_first_frame_only_sets_the_clock() {
    let mut s = started(vec![easy()]);
    assert_eq!(s.world().time(), 0);
    assert!(s.world().enemies().is_empty());
    assert_eq!(s.timer(1016), Frame { draw: true, ..NEXT });
    assert_eq!(s.world().time(), 16);
    assert_eq!(s.world().enemies().len(), 1);
    assert_eq!(s.timer(1050), Frame { draw: true, ..NEXT });
    assert_eq!(s.world().time(), 50);
}

#[test]
fn held_keys_move_the_player() {
    let mut s = started(vec![easy()]);
    s.key_down(Key::ArrowLeft);
    s.key_down(Key::ArrowUp);
    s.key_down(Key::Other);
    assert_eq!(
        s.held(),
        Held { left: true, right: false, up: true, down: false, space: false }
    );
    s.timer(1100);
    assert_eq!(s.world().player().coord, Vector::new(-30_000, 303_333));
    s.key_up(Key::ArrowLeft);
    s.key_down(Key::ArrowDown);
    s.timer(1200);
    // up and down cancel each other
    assert_eq!(s.world().player().coord, Vector::new(-30_000, 303_333));
    s.key_up(Key::ArrowUp);
    s.key_down(Key::ArrowRight);
    s.timer(1210);
    assert_eq!(s.world().player().coord, Vector::new(-27_000, 306_333));
    s.key_up(Key::ArrowDown);
    s.key_up(Key::ArrowRight);
    s.key_up(Key::Other);
    s.timer(1300);
    assert_eq!(s.world().player().coord, Vector::new(-27_000, 306_333));
}

#[test]
fn the_player_stays_in_the_arena() {
    let mut s = started(vec![easy()]);
    s.key_down(Key::ArrowRight);
    s.key_down(Key::ArrowDown);
    s.timer(3000);
    assert_eq!(s.world().player().coord, Vector::new(290_000, 490_000));
}

#[test]
fn the_left_control_key_selects_the_other_shot() {
    let mut s = started(vec![easy()]);
    assert_eq!(s.key_down(Key::ControlLeft), KeyAction::Idle);
    assert_eq!(s.bullet_type(), BulletType::PlayerHeavy);
    s.key_up(Key::ControlLeft);
    assert_eq!(s.bullet_type(), BulletType::PlayerHeavy);
    s.key_down(Key::ControlLeft);
    assert_eq!(s.bullet_type(), BulletType::PlayerSniper);
}

#[test]
fn the_gun_fires_once_per_cooldown() {
    let far = level_of(vec![vec![guard(250_000, -400_000, 3000, silent())]]);
    let mut s = started(vec![far]);
    s.timer(1016);
    s.key_down(Key::Space);
    assert_eq!(s.timer(1032), Frame { shot: true, draw: true, ..NEXT });
    assert_eq!(s.gun_cooldown(), 200);
    assert_eq!(
        *s.world().bullets(),
        vec![
            Bullet::new(
                BulletType::PlayerSniper,
                Circle::new(-3000, 325_333, 5000),
                Vector::new(0, -500_000)
            ),
            Bullet::new(
                BulletType::PlayerSniper,
                Circle::new(3000, 325_333, 5000),
                Vector::new(0, -500_000)
            ),
        ]
    );
    let mut shots = 1;
    let mut time = 1032;
    while time < 2032 {
        time += 16;
        if s.timer(time).shot {
            shots += 1;
        }
    }
    // 63 more frames of 16 ms; the gun cools for 200 ms and fires on the
    // frame that brings it to zero: frames 13, 25, 38, 50 and 63
    assert_eq!(shots, 6);
    s.key_up(Key::Space);
    assert!(!s.timer(time + 1000).shot);
}

#[test]
fn a_lost_round_is_over_and_enter_starts_it_again() {
    let mut s = started(vec![deadly()]);
    assert_eq!(s.timer(1016), Frame { draw: true, ..NEXT });
    assert_eq!(s.timer(1032), Frame { screen: Some(GameOverKind::Lost), ..NEXT });
    assert_eq!(s.game_state(), GameState::Lost);
    assert_eq!(s.timer(1048), Frame { stop_music: true, ..IDLE });
    assert_eq!(s.world().time(), 32);
    assert_eq!(s.key_down(Key::Space), KeyAction::Idle);
    assert_eq!(s.key_down(Key::Enter), KeyAction::Start);
    assert_eq!(s.game_state(), GameState::Playing);
    assert!(s.world().bullets().is_empty());
    assert!(s.world().enemies().is_empty());
    assert_eq!(s.current_level(), 0);
    // the first frame of the new round sets the clock again
    assert_eq!(s.timer(9000), NEXT);
    assert_eq!(s.world().time(), 32);
    s.key_up(Key::Space);
    assert_eq!(s.timer(9016), Frame { draw: true, ..NEXT });
    assert_eq!(s.world().enemies().len(), 1);
}

#[test]
fn a_won_level_leads_to_the_next_and_the_fan_grows() {
    let mut s = started(vec![easy(), easy()]);
    s.timer(1016);
    s.key_down(Key::Space);
    let shot = s.timer(1032);
    assert!(shot.shot && shot.strike && shot.draw);
    s.key_up(Key::Space);
    assert!(s.world().enemies().is_empty());
    assert_eq!(s.timer(1048), Frame { screen: Some(GameOverKind::LevelFinished), ..NEXT });
    assert_eq!(s.game_state(), GameState::LevelFinished);
    assert_eq!(s.current_level(), 1);
    assert_eq!(s.world().player_bullets(), 3);
    assert_eq!(s.timer(1064), IDLE);
    assert_eq!(s.key_down(Key::Enter), KeyAction::Start);
    assert_eq!(s.game_state(), GameState::Playing);
    assert_eq!(s.timer(2000), NEXT);
    assert_eq!(s.timer(2016), Frame { draw: true, ..NEXT });
    assert_eq!(s.world().enemies().len(), 1);
    assert_eq!(s.world().player_bullets(), 3);
}

#[test]
fn the_last_level_won_is_the_game_won() {
    let mut s = started(vec![easy()]);
    s.timer(1016);
    s.key_down(Key::Space);
    s.timer(1032);
    assert_eq!(s.timer(1048).screen, Some(GameOverKind::Won));
    assert_eq!(s.game_state(), GameState::Lost);
    assert_eq!(s.current_level(), 1);
    assert_eq!(s.level_count(), 1);
    assert_eq!(s.timer(1064), Frame { stop_music: true, ..IDLE });
}

#[test]
fn both_levels_can_be_started() {
    let mut s = started(vec![l1(), l2()]);
    for frame in 1..200 {
        let f = s.timer(1000 + 16 * frame);
        if s.game_state() != GameState::Playing {
            assert_eq!(f.screen, Some(GameOverKind::Lost));
            assert_eq!(s.key_down(Key::Enter), KeyAction::Start);
        }
    }
    assert_eq!(s.current_level(), 0);
}
