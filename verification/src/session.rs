//! A session of play: what the keys, the frame clock and the loading of files
//! do to the game, and what has to be shown and played in turn.
//!
//! The session decides; its caller listens to the keyboard, asks for frames,
//! loads files, paints and plays sounds, and hands every event to the session.

use vstd::prelude::*;
use crate::fixed::{diff, sat_add, sat_sub, sum};
use crate::geometry::Vector;
use crate::level::{Level, LevelModel};
use crate::world::{BulletType, TickResult, World, WorldModel};

verus! {

/// How far the player moves in a second while a key is held.
pub const PLAYER_SPEED: i64 = 300_000;

/// How fast the player's shots fly upwards.
pub const SHOT_SPEED: i64 = 500_000;

/// The shortest time between two shots.
pub const GUN_COOLDOWN: i64 = 200;

/// A file that has to be loaded before play.
#[derive(Clone, Debug, PartialEq, Eq)]
pub enum Download {
    Audio(String),
    Image(String),
}

/// Where a session stands.
#[derive(Clone, Copy, Debug, PartialEq, Eq, Structural)]
pub enum GameState {
    /// Files are still being loaded.
    Loading,
    /// Every file is loaded; the game waits for the player.
    FinishLoading,
    Playing,
    /// A level is cleared and another one follows.
    LevelFinished,
    /// The round is over: lost, or won for good.
    Lost,
}

/// The screens that are shown between rounds.
#[derive(Clone, Copy, Debug, PartialEq, Eq, Structural)]
pub enum GameOverKind {
    Lost,
    Won,
    LevelFinished,
    Loading,
}

impl GameOverKind {
    /// The colour of the screen, as a style of a canvas.
    pub fn color(self) -> (c: &'static str)
        ensures
            c@ == match self {
                GameOverKind::Lost => "rgba(255, 100, 100, 255)"@,
                GameOverKind::Won | GameOverKind::LevelFinished => "rgba(100, 255, 100, 255)"@,
                GameOverKind::Loading => "rgba(100, 100, 255, 255)"@,
            },
    {
        match self {
            GameOverKind::Lost => "rgba(255, 100, 100, 255)",
            GameOverKind::Won | GameOverKind::LevelFinished => "rgba(100, 255, 100, 255)",
            GameOverKind::Loading => "rgba(100, 100, 255, 255)",
        }
    }
}

/// The keys that the game knows.
#[derive(Clone, Copy, Debug, PartialEq, Eq, Structural)]
pub enum Key {
    Enter,
    ControlLeft,
    ArrowLeft,
    ArrowRight,
    ArrowUp,
    ArrowDown,
    Space,
    /// Any other key.
    Other,
}

/// The speed along one axis with the key for one way and the key for the other
/// way held or not.
pub open spec fn pull(forth: bool, back: bool) -> i64 {
    if forth && !back {
        PLAYER_SPEED
    } else if back && !forth {
        (-PLAYER_SPEED) as i64
    } else {
        0
    }
}

/// Which of the keys that move the player or fire are held down.
#[derive(Clone, Copy, Debug, PartialEq, Eq, Structural)]
pub struct Held {
    pub left: bool,
    pub right: bool,
    pub up: bool,
    pub down: bool,
    pub space: bool,
}

impl Held {
    /// The keys with `key` held or released.
    pub open spec fn with(self, key: Key, down: bool) -> Held {
        match key {
            Key::ArrowLeft => Held { left: down, ..self },
            Key::ArrowRight => Held { right: down, ..self },
            Key::ArrowUp => Held { up: down, ..self },
            Key::ArrowDown => Held { down, ..self },
            Key::Space => Held { space: down, ..self },
            _ => self,
        }
    }

    /// The velocity that the held keys give the player.
    pub open spec fn velocity(self) -> Vector {
        Vector { x: pull(self.right, self.left), y: pull(self.down, self.up) }
    }

    fn set(&mut self, key: Key, down: bool)
        ensures
            *final(self) == old(self).with(key, down),
    {
        match key {
            Key::ArrowLeft => self.left = down,
            Key::ArrowRight => self.right = down,
            Key::ArrowUp => self.up = down,
            Key::ArrowDown => self.down = down,
            Key::Space => self.space = down,
            _ => {},
        }
    }

    fn speed(&self) -> (v: Vector)
        ensures
            v == self.velocity(),
    {
        let mut v = Vector::zero();
        if self.left {
            v.x -= PLAYER_SPEED;
        }
        if self.right {
            v.x += PLAYER_SPEED;
        }
        if self.up {
            v.y -= PLAYER_SPEED;
        }
        if self.down {
            v.y += PLAYER_SPEED;
        }
        v
    }
}

/// What the caller has to do after a key went down.
#[derive(Clone, Copy, Debug, PartialEq, Eq, Structural)]
pub enum KeyAction {
    /// Nothing.
    Idle,
    /// Ask for the next frame.
    RequestFrame,
    /// A round starts: ask for the next frame and start the music.
    Start,
}

/// What the caller has to do after a frame.
#[derive(Clone, Copy, Debug, PartialEq, Eq, Structural)]
pub struct Frame {
    /// Ask for the next frame.
    pub request_frame: bool,
    /// Start the music.
    pub start_music: bool,
    /// Stop the music.
    pub stop_music: bool,
    /// The player has fired: play the sound of a shot.
    pub shot: bool,
    /// Bullets cancelled each other: play the sound of it.
    pub clash: bool,
    /// An enemy stopped a player shot: play the sound of it.
    pub strike: bool,
    /// Paint the world.
    pub draw: bool,
    /// Show this screen.
    pub screen: Option<GameOverKind>,
}

impl Frame {
    /// The frame after which nothing has to be done.
    pub open spec fn idle() -> Frame {
        Frame {
            request_frame: false,
            start_music: false,
            stop_music: false,
            shot: false,
            clash: false,
            strike: false,
            draw: false,
            screen: None,
        }
    }

    fn nothing() -> (f: Frame)
        ensures
            f == Frame::idle(),
    {
        Frame {
            request_frame: false,
            start_music: false,
            stop_music: false,
            shot: false,
            clash: false,
            strike: false,
            draw: false,
            screen: None,
        }
    }
}

/// A session: the world, the levels, and what the player does.
#[derive(Debug)]
pub struct Session {
    world: World,
    last_tick: Option<i64>,
    gun_cooldown: i64,
    bullet_type: BulletType,
    game_state: GameState,
    held: Held,
    unfinished_downloads: usize,
    current_level: usize,
    levels: Vec<Level>,
}

/// A session as a value.
pub struct SessionModel {
    pub world: WorldModel,
    /// The time of the last frame, where there was one in this round.
    pub last_tick: Option<int>,
    /// The time until the gun can fire again.
    pub gun_cooldown: int,
    /// The kind of shot that is selected.
    pub bullet_type: BulletType,
    pub game_state: GameState,
    pub held: Held,
    /// The number of files that are still being loaded.
    pub unfinished_downloads: nat,
    /// The index of the level that is played, or the number of levels once all
    /// are won.
    pub current_level: nat,
    pub levels: Seq<LevelModel>,
}

/// The levels of a list, as values.
pub open spec fn level_models(levels: Seq<Level>) -> Seq<LevelModel> {
    levels.map_values(|l: Level| l@)
}

/// Every level of the list is well formed.
pub open spec fn levels_wf(levels: Seq<LevelModel>) -> bool {
    forall|i: int| 0 <= i < levels.len() ==> (#[trigger] levels[i]).wf()
}

/// The kind of shot that is selected after the other kind.
pub open spec fn other_shot(typ: BulletType) -> BulletType {
    if typ == BulletType::PlayerSniper {
        BulletType::PlayerHeavy
    } else {
        BulletType::PlayerSniper
    }
}

impl SessionModel {
    /// The world and the levels are well formed, there is a level, and the
    /// current level is one of them or their number.
    pub open spec fn wf(self) -> bool {
        &&& self.world.wf()
        &&& levels_wf(self.levels)
        &&& self.levels.len() > 0
        &&& self.current_level <= self.levels.len()
    }

    /// The session before anything has happened: the first level is set up,
    /// and the precise shot is selected.
    pub open spec fn fresh(size: Vector, levels: Seq<LevelModel>) -> SessionModel {
        SessionModel {
            world: WorldModel::start(size, levels[0], crate::world::FIRST_FAN as nat),
            last_tick: None,
            gun_cooldown: 0,
            bullet_type: BulletType::PlayerSniper,
            game_state: GameState::Loading,
            held: Held { left: false, right: false, up: false, down: false, space: false },
            unfinished_downloads: 0,
            current_level: 0,
            levels,
        }
    }

    /// A round is over and `Enter` starts the next one.
    pub open spec fn restarts(self, key: Key) -> bool {
        key == Key::Enter && (self.game_state == GameState::Lost || self.game_state
            == GameState::LevelFinished)
    }

    /// What a key that goes down asks of the caller.
    pub open spec fn key_action(self, key: Key) -> KeyAction {
        if self.game_state == GameState::FinishLoading && key == Key::Enter {
            KeyAction::RequestFrame
        } else if self.restarts(key) {
            KeyAction::Start
        } else {
            KeyAction::Idle
        }
    }

    /// The session after a key went down. `Enter` starts what waits to be
    /// started; the left control key selects the other kind of shot; every other
    /// key is held from now on.
    pub open spec fn key_pressed(self, key: Key) -> SessionModel {
        if self.game_state == GameState::FinishLoading && key == Key::Enter {
            self
        } else if self.restarts(key) {
            SessionModel {
                world: self.world.restarted(self.levels[self.current_level as int]),
                last_tick: None,
                game_state: GameState::Playing,
                ..self
            }
        } else if key == Key::ControlLeft {
            SessionModel { bullet_type: other_shot(self.bullet_type), ..self }
        } else {
            SessionModel { held: self.held.with(key, true), ..self }
        }
    }

    /// The session after a key went up.
    pub open spec fn key_released(self, key: Key) -> SessionModel {
        SessionModel { held: self.held.with(key, false), ..self }
    }

    /// A frame at this point goes on to play: the game is played, or is about
    /// to start.
    pub open spec fn runs(self) -> bool {
        self.game_state == GameState::Playing || self.game_state == GameState::FinishLoading
    }

    /// The frame at `time` advances the world: the game runs and this is not the
    /// first frame of the round.
    pub open spec fn steps(self) -> bool {
        self.runs() && self.game_state == GameState::Playing && self.last_tick is Some
    }

    /// The time that has passed since the last frame.
    pub open spec fn elapsed(self, time: int) -> int {
        diff(time, self.last_tick->0)
    }

    /// The time until the gun can fire again, after the time since the last
    /// frame has passed.
    pub open spec fn cooled(self, time: int) -> int {
        if self.gun_cooldown > 0 {
            diff(self.gun_cooldown, self.elapsed(time))
        } else {
            self.gun_cooldown
        }
    }

    /// The frame at `time` fires the gun: the fire key is held and the gun has
    /// cooled down.
    pub open spec fn fires(self, time: int) -> bool {
        self.steps() && self.held.space && self.cooled(time) <= 0
    }

    /// The world as the frame at `time` hands it to its tick: after the shot,
    /// where the gun fires, and after the move that the held keys ask for.
    pub open spec fn aimed(self, time: int) -> WorldModel {
        let shot = if self.fires(time) {
            self.world.fired(Vector { x: 0, y: (-SHOT_SPEED) as i64 }, self.bullet_type)
        } else {
            self.world
        };
        shot.pushed(self.held.velocity().times(self.elapsed(time)))
    }

    /// How the tick of the frame at `time` ends.
    pub open spec fn verdict(self, time: int) -> TickResult {
        self.aimed(time).verdict(self.elapsed(time))
    }

    /// The session after its world has gone through a tick of length `delta`
    /// that ends at `time`: a lost round is over; a won round is over too, the
    /// next level is due, and the player's fan grows by one bullet.
    pub open spec fn advanced(self, time: int, delta: int) -> SessionModel {
        let world = self.world.ticked(delta);
        let after = SessionModel { world, last_tick: Some(time), ..self };
        match self.world.verdict(delta) {
            TickResult::Continue => after,
            TickResult::Lose => SessionModel { game_state: GameState::Lost, ..after },
            TickResult::Win => {
                let next = if self.current_level < self.levels.len() {
                    self.current_level + 1
                } else {
                    self.current_level
                };
                SessionModel {
                    world: WorldModel {
                        player_bullets: if world.player_bullets < usize::MAX {
                            world.player_bullets + 1
                        } else {
                            world.player_bullets
                        },
                        ..world
                    },
                    current_level: next as nat,
                    game_state: if next != self.levels.len() {
                        GameState::LevelFinished
                    } else {
                        GameState::Lost
                    },
                    ..after
                }
            },
        }
    }

    /// The session after the frame at `time`.
    pub open spec fn framed(self, time: int) -> SessionModel {
        if !self.runs() {
            self
        } else if !self.steps() {
            // the first frame of a round only sets the clock
            SessionModel { game_state: GameState::Playing, last_tick: Some(time), ..self }
        } else {
            (SessionModel {
                world: self.aimed(time),
                gun_cooldown: if self.fires(time) {
                    sum(self.cooled(time), GUN_COOLDOWN as int)
                } else {
                    self.cooled(time)
                },
                ..self
            }).advanced(time, self.elapsed(time))
        }
    }

    /// The first frame of a round leaves the world as it is, whatever the time:
    /// it only sets the clock, and no time is counted before it.
    pub proof fn lemma_first_frame(self, time: int)
        requires
            self.runs(),
            !self.steps(),
        ensures
            self.framed(time).world == self.world,
            self.framed(time).last_tick == Some(time),
            self.framed(time).game_state == GameState::Playing,
            !self.frame(time).draw,
    {
    }

    /// What the frame at `time` asks of the caller.
    pub open spec fn frame(self, time: int) -> Frame {
        if self.game_state == GameState::Lost {
            Frame { stop_music: true, ..Frame::idle() }
        } else if !self.runs() {
            Frame::idle()
        } else {
            let begun = Frame {
                request_frame: true,
                start_music: self.game_state == GameState::FinishLoading,
                ..Frame::idle()
            };
            if !self.steps() {
                begun
            } else {
                let after = self.framed(time);
                let shot = Frame { shot: self.fires(time), ..begun };
                match self.verdict(time) {
                    TickResult::Continue => Frame {
                        clash: after.world.clashed,
                        strike: after.world.struck,
                        draw: true,
                        ..shot
                    },
                    TickResult::Lose => Frame { screen: Some(GameOverKind::Lost), ..shot },
                    TickResult::Win => Frame {
                        screen: Some(
                            if after.game_state == GameState::LevelFinished {
                                GameOverKind::LevelFinished
                            } else {
                                GameOverKind::Won
                            },
                        ),
                        ..shot
                    },
                }
            }
        }
    }

    /// The session after one more file was asked for.
    pub open spec fn waiting(self) -> SessionModel {
        SessionModel {
            game_state: GameState::Loading,
            unfinished_downloads: self.unfinished_downloads + 1,
            ..self
        }
    }

    /// The session after a file has arrived: with the last file the loading is
    /// finished.
    pub open spec fn received(self) -> SessionModel {
        SessionModel {
            game_state: if self.unfinished_downloads == 1 {
                GameState::FinishLoading
            } else {
                self.game_state
            },
            unfinished_downloads: (self.unfinished_downloads - 1) as nat,
            ..self
        }
    }
}

impl View for Session {
    type V = SessionModel;

    closed spec fn view(&self) -> SessionModel {
        SessionModel {
            world: self.world@,
            last_tick: match self.last_tick {
                Some(t) => Some(t as int),
                None => None,
            },
            gun_cooldown: self.gun_cooldown as int,
            bullet_type: self.bullet_type,
            game_state: self.game_state,
            held: self.held,
            unfinished_downloads: self.unfinished_downloads as nat,
            current_level: self.current_level as nat,
            levels: level_models(self.levels@),
        }
    }
}

impl Session {
    /// A session of the given levels in an arena of size `size`. It needs at
    /// least one level.
    pub fn new(size: Vector, levels: Vec<Level>) -> (s: Self)
        requires
            levels@.len() > 0,
            levels_wf(level_models(levels@)),
        ensures
            s@ == SessionModel::fresh(size, level_models(levels@)),
            s@.wf(),
    {
        assert(level_models(levels@)[0] == levels@[0]@);
        assert(level_models(levels@)[0].wf());
        let world = World::new(size, levels[0].duplicate());
        Self {
            world,
            last_tick: None,
            gun_cooldown: 0,
            bullet_type: BulletType::PlayerSniper,
            game_state: GameState::Loading,
            held: Held { left: false, right: false, up: false, down: false, space: false },
            unfinished_downloads: 0,
            current_level: 0,
            levels,
        }
    }

    /// A key went down. Where `Enter` starts a round, a level must be left to
    /// play.
    pub fn key_down(&mut self, key: Key) -> (action: KeyAction)
        requires
            old(self)@.wf(),
            old(self)@.restarts(key) ==> old(self)@.current_level < old(self)@.levels.len(),
        ensures
            action == old(self)@.key_action(key),
            final(self)@ == old(self)@.key_pressed(key),
            final(self)@.wf(),
    {
        if self.game_state == GameState::FinishLoading && key == Key::Enter {
            return KeyAction::RequestFrame;
        }
        if (self.game_state == GameState::Lost || self.game_state == GameState::LevelFinished)
            && key == Key::Enter {
            proof {
                let i = self.current_level as int;
                assert(level_models(self.levels@)[i] == self.levels@[i]@);
                assert(level_models(self.levels@)[i].wf());
            }
            self.world.reset(self.levels[self.current_level].duplicate());
            self.last_tick = None;
            self.game_state = GameState::Playing;
            return KeyAction::Start;
        }
        if key == Key::ControlLeft {
            if self.bullet_type == BulletType::PlayerSniper {
                self.bullet_type = BulletType::PlayerHeavy;
            } else {
                self.bullet_type = BulletType::PlayerSniper;
            }
            return KeyAction::Idle;
        }
        self.held.set(key, true);
        KeyAction::Idle
    }

    /// A key went up.
    pub fn key_up(&mut self, key: Key)
        ensures
            final(self)@ == old(self)@.key_released(key),
    {
        self.held.set(key, false);
    }

    /// The frame clock has struck at `time`. The first frame of a round sets
    /// the clock; every later frame fires the gun where it is due, moves the
    /// player, advances the world by the time since the frame before, and ends
    /// the round where the world does.
    pub fn timer(&mut self, time: i64) -> (frame: Frame)
        requires
            old(self)@.wf(),
        ensures
            frame == old(self)@.frame(time as int),
            final(self)@ == old(self)@.framed(time as int),
            final(self)@.wf(),
    {
        let mut frame = Frame::nothing();
        match self.game_state {
            GameState::Playing => {},
            GameState::FinishLoading => {
                frame.start_music = true;
                self.last_tick = None;
                self.game_state = GameState::Playing;
            },
            GameState::Lost => {
                frame.stop_music = true;
                return frame;
            },
            _ => {
                return frame;
            },
        }
        frame.request_frame = true;
        let last: i64 = match self.last_tick {
            Some(last) => last,
            None => {
                self.last_tick = Some(time);
                return frame;
            },
        };
        frame.shot = self.aim(time, last);
        let result: TickResult = self.advance(time, last);
        match result {
            TickResult::Continue => {
                frame.clash = self.world.clashed();
                frame.strike = self.world.struck();
                frame.draw = true;
            },
            TickResult::Win => {
                frame.screen = Some(
                    if self.game_state == GameState::LevelFinished {
                        GameOverKind::LevelFinished
                    } else {
                        GameOverKind::Won
                    },
                );
            },
            TickResult::Lose => {
                frame.screen = Some(GameOverKind::Lost);
            },
        }
        frame
    }

    /// Cools the gun down, fires it where the fire key is held and the gun is
    /// cool, and moves the player as the held keys ask.
    fn aim(&mut self, time: i64, last: i64) -> (shot: bool)
        requires
            old(self)@.wf(),
            old(self).last_tick == Some(last),
            old(self).game_state == GameState::Playing,
        ensures
            shot == old(self)@.fires(time as int),
            final(self)@ == (SessionModel {
                world: old(self)@.aimed(time as int),
                gun_cooldown: if old(self)@.fires(time as int) {
                    sum(old(self)@.cooled(time as int), GUN_COOLDOWN as int)
                } else {
                    old(self)@.cooled(time as int)
                },
                ..old(self)@
            }),
            final(self)@.wf(),
            final(self).last_tick == Some(last),
            final(self).game_state == GameState::Playing,
    {
        let delta_time: i64 = sat_sub(time, last);
        if self.gun_cooldown > 0 {
            self.gun_cooldown = sat_sub(self.gun_cooldown, delta_time);
        }
        let mut shot: bool = false;
        if self.held.space && self.gun_cooldown <= 0 {
            self.world.shoot(Vector::new(0, -SHOT_SPEED), self.bullet_type);
            shot = true;
            self.gun_cooldown = sat_add(self.gun_cooldown, GUN_COOLDOWN);
        }
        self.world.move_player(self.held.speed().mul(delta_time));
        shot
    }

    /// Advances the world by the time since the last frame and ends the round
    /// where the world does.
    fn advance(&mut self, time: i64, last: i64) -> (result: TickResult)
        requires
            old(self)@.wf(),
            old(self).last_tick == Some(last),
        ensures
            result == old(self)@.world.verdict(diff(time as int, last as int)),
            final(self)@ == old(self)@.advanced(time as int, diff(time as int, last as int)),
            final(self)@.wf(),
    {
        let delta_time: i64 = sat_sub(time, last);
        self.last_tick = Some(time);
        let result: TickResult = self.world.tick(delta_time);
        match result {
            TickResult::Continue => {},
            TickResult::Win => {
                if self.current_level < self.levels.len() {
                    self.current_level += 1;
                }
                self.world.add_player_bullet();
                if self.current_level != self.levels.len() {
                    self.game_state = GameState::LevelFinished;
                } else {
                    self.game_state = GameState::Lost;
                }
            },
            TickResult::Lose => {
                self.game_state = GameState::Lost;
            },
        }
        result
    }

    /// One more file is asked for: the loading screen is due.
    pub fn download_requested(&mut self) -> (screen: GameOverKind)
        requires
            old(self)@.unfinished_downloads < usize::MAX,
        ensures
            screen == GameOverKind::Loading,
            final(self)@ == old(self)@.waiting(),
    {
        self.game_state = GameState::Loading;
        self.unfinished_downloads += 1;
        GameOverKind::Loading
    }

    /// A file that was asked for has arrived.
    pub fn downloaded(&mut self)
        requires
            old(self)@.unfinished_downloads > 0,
        ensures
            final(self)@ == old(self)@.received(),
    {
        self.unfinished_downloads -= 1;
        if self.unfinished_downloads == 0 {
            self.game_state = GameState::FinishLoading;
        }
    }

    pub fn world(&self) -> (w: &World)
        ensures
            w@ == self@.world,
    {
        &self.world
    }

    pub fn game_state(&self) -> (s: GameState)
        ensures
            s == self@.game_state,
    {
        self.game_state
    }

    /// The kind of shot that is selected.
    pub fn bullet_type(&self) -> (t: BulletType)
        ensures
            t == self@.bullet_type,
    {
        self.bullet_type
    }

    /// The index of the level that is played, or the number of levels once all
    /// are won.
    pub fn current_level(&self) -> (i: usize)
        ensures
            i == self@.current_level,
    {
        self.current_level
    }

    /// The number of levels.
    pub fn level_count(&self) -> (n: usize)
        ensures
            n == self@.levels.len(),
    {
        self.levels.len()
    }

    /// The number of files that are still being loaded.
    pub fn unfinished_downloads(&self) -> (n: usize)
        ensures
            n == self@.unfinished_downloads,
    {
        self.unfinished_downloads
    }

    /// The time until the gun can fire again.
    pub fn gun_cooldown(&self) -> (t: i64)
        ensures
            t == self@.gun_cooldown,
    {
        self.gun_cooldown
    }

    /// The keys that are held.
    pub fn held(&self) -> (h: Held)
        ensures
            h == self@.held,
    {
        self.held
    }
}

} // verus!
