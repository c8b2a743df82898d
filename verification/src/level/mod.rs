//! Levels: scenes of enemies that are spawned one after the other, each once
//! the scene before it is cleared.

use vstd::prelude::*;
use crate::enemies::{all_wf, enemy_models, Enemy, EnemyModel};
use crate::world::{Bullet, TickResult};

pub mod l1;
pub mod l2;

pub use l1::l1;
pub use l2::{l2, l2ls1_enemy};

verus! {

/// A batch of enemy templates that are spawned together.
#[derive(Debug)]
pub struct Scene {
    enemies: Vec<Enemy>,
}

impl View for Scene {
    type V = Seq<EnemyModel>;

    closed spec fn view(&self) -> Seq<EnemyModel> {
        enemy_models(self.enemies@)
    }
}

impl Scene {
    pub fn new(enemies: Vec<Enemy>) -> (r: Self)
        ensures
            r@ == enemy_models(enemies@),
    {
        Self { enemies }
    }

    /// Appends a fresh copy of every template to `to`.
    pub fn spawn(&self, to: &mut Vec<Enemy>)
        ensures
            enemy_models(final(to)@) == enemy_models(old(to)@) + self@,
    {
        let mut i: usize = 0;
        while i < self.enemies.len()
            invariant
                i <= self.enemies.len(),
                enemy_models(to@) =~= enemy_models(old(to)@) + self@.take(i as int),
            decreases self.enemies.len() - i,
        {
            let ghost before = to@;
            to.push(self.enemies[i].duplicate());
            assert(enemy_models(to@) =~= enemy_models(before).push(self.enemies@[i as int]@));
            assert(self@.take(i + 1) =~= self@.take(i as int).push(self.enemies@[i as int]@));
            i += 1;
        }
        assert(self@.take(self.enemies.len() as int) =~= self@);
    }

    /// A copy of the scene.
    pub fn duplicate(&self) -> (r: Self)
        ensures
            r@ == self@,
    {
        let mut enemies: Vec<Enemy> = Vec::new();
        self.spawn(&mut enemies);
        assert(enemy_models(enemies@) =~= self@);
        Self { enemies }
    }
}

/// Every template of every scene is well formed.
pub open spec fn scenes_wf(scenes: Seq<Scene>) -> bool {
    forall|i: int| 0 <= i < scenes.len() ==> all_wf(#[trigger] scenes[i]@)
}

/// Appends an enemy to a list under construction.
pub(crate) fn push_enemy(to: &mut Vec<Enemy>, enemy: Enemy)
    requires
        all_wf(enemy_models(old(to)@)),
        enemy@.wf(),
    ensures
        final(to)@ == old(to)@.push(enemy),
        enemy_models(final(to)@) == enemy_models(old(to)@).push(enemy@),
        all_wf(enemy_models(final(to)@)),
{
    to.push(enemy);
    assert(enemy_models(to@) =~= enemy_models(old(to)@).push(enemy@));
    assert forall|i: int| 0 <= i < to@.len() implies (#[trigger] enemy_models(to@)[i]).wf() by {
        if i < old(to)@.len() {
            assert(enemy_models(to@)[i] == enemy_models(old(to)@)[i]);
        }
    }
}

/// Appends a scene to a list under construction.
pub(crate) fn push_scene(to: &mut Vec<Scene>, scene: Scene)
    requires
        scenes_wf(old(to)@),
        all_wf(scene@),
    ensures
        final(to)@ == old(to)@.push(scene),
        scene_models(final(to)@) == scene_models(old(to)@).push(scene@),
        scenes_wf(final(to)@),
{
    to.push(scene);
    assert(scene_models(to@) =~= scene_models(old(to)@).push(scene@));
    assert forall|i: int| 0 <= i < to@.len() implies all_wf(#[trigger] to@[i]@) by {
        if i < old(to)@.len() {
            assert(to@[i] == old(to)@[i]);
        }
    }
}

/// The scenes of a list, as values.
pub open spec fn scene_models(scenes: Seq<Scene>) -> Seq<Seq<EnemyModel>> {
    scenes.map_values(|s: Scene| s@)
}

/// A level: its scenes, and how many of them were spawned.
#[derive(Debug)]
pub struct Level {
    scene: usize,
    scenes: Vec<Scene>,
    background: String,
    sound: String,
}

/// A level as a value.
pub struct LevelModel {
    /// The number of scenes that were spawned.
    pub scene: nat,
    pub scenes: Seq<Seq<EnemyModel>>,
    pub background: Seq<char>,
    pub sound: Seq<char>,
}

impl LevelModel {
    /// There is at least one scene, no more scenes were spawned than there
    /// are, and every template is well formed.
    pub open spec fn wf(self) -> bool {
        &&& self.scenes.len() > 0
        &&& self.scene <= self.scenes.len()
        &&& forall|i: int| 0 <= i < self.scenes.len() ==> all_wf(#[trigger] self.scenes[i])
    }

    /// Every scene was spawned.
    pub open spec fn exhausted(self) -> bool {
        self.scene == self.scenes.len()
    }

    /// With no enemy alive and every scene spawned, the level is won.
    pub open spec fn outcome(self, enemies: Seq<EnemyModel>) -> TickResult {
        if enemies.len() == 0 && self.exhausted() {
            TickResult::Win
        } else {
            TickResult::Continue
        }
    }

    /// With no enemy alive and a scene left, that scene is spawned.
    pub open spec fn spawns(self, enemies: Seq<EnemyModel>) -> bool {
        enemies.len() == 0 && !self.exhausted()
    }

    /// The level after its tick: one more scene is spawned where one is due.
    pub open spec fn ticked(self, enemies: Seq<EnemyModel>) -> LevelModel {
        if self.spawns(enemies) {
            LevelModel {
                scene: self.scene + 1,
                scenes: self.scenes,
                background: self.background,
                sound: self.sound,
            }
        } else {
            self
        }
    }

    /// The live enemies after the tick of the level: where a scene is due, fresh
    /// copies of its templates.
    pub open spec fn enemies_after(self, enemies: Seq<EnemyModel>) -> Seq<EnemyModel> {
        if self.spawns(enemies) {
            self.scenes[self.scene as int]
        } else {
            enemies
        }
    }

    /// The live bullets after the tick of the level: none where a scene is
    /// spawned.
    pub open spec fn bullets_after(self, enemies: Seq<EnemyModel>, bullets: Seq<Bullet>) -> Seq<
        Bullet,
    > {
        if self.spawns(enemies) {
            Seq::empty()
        } else {
            bullets
        }
    }
}

impl View for Level {
    type V = LevelModel;

    closed spec fn view(&self) -> LevelModel {
        LevelModel {
            scene: self.scene as nat,
            scenes: scene_models(self.scenes@),
            background: self.background@,
            sound: self.sound@,
        }
    }
}

impl Level {
    /// A level that starts before its first scene. It needs at least one scene.
    pub fn new(scenes: Vec<Scene>, background: String, sound: String) -> (r: Self)
        requires
            scenes@.len() > 0,
            scenes_wf(scenes@),
        ensures
            r@ == (LevelModel {
                scene: 0,
                scenes: scene_models(scenes@),
                background: background@,
                sound: sound@,
            }),
            r@.wf(),
    {
        Self { scene: 0, scenes, background, sound }
    }

    /// Moves the level on where the arena is clear: with every scene spawned
    /// the level is won; else all bullets are removed and the next scene is
    /// spawned. With an enemy alive nothing happens.
    pub fn tick(&mut self, enemies: &mut Vec<Enemy>, bullets: &mut Vec<Bullet>) -> (r: TickResult)
        requires
            old(self)@.wf(),
        ensures
            r == old(self)@.outcome(enemy_models(old(enemies)@)),
            final(self)@ == old(self)@.ticked(enemy_models(old(enemies)@)),
            final(self)@.wf(),
            enemy_models(final(enemies)@) == old(self)@.enemies_after(enemy_models(old(enemies)@)),
            final(bullets)@ == old(self)@.bullets_after(
                enemy_models(old(enemies)@),
                old(bullets)@,
            ),
    {
        if enemies.len() == 0 && self.scene == self.scenes.len() {
            return TickResult::Win;
        }
        if enemies.len() == 0 {
            bullets.clear();
            self.scenes[self.scene].spawn(enemies);
            assert(enemy_models(enemies@) =~= self@.scenes[self.scene as int]);
            self.scene += 1;
        }
        TickResult::Continue
    }

    /// A copy of the level.
    pub fn duplicate(&self) -> (r: Self)
        ensures
            r@ == self@,
    {
        let mut scenes: Vec<Scene> = Vec::new();
        let mut i: usize = 0;
        while i < self.scenes.len()
            invariant
                i <= self.scenes.len(),
                scene_models(scenes@) =~= scene_models(self.scenes@).take(i as int),
            decreases self.scenes.len() - i,
        {
            let ghost before = scenes@;
            scenes.push(self.scenes[i].duplicate());
            assert(scene_models(scenes@) =~= scene_models(before).push(self.scenes@[i as int]@));
            assert(scene_models(self.scenes@).take(i + 1) =~= scene_models(self.scenes@).take(
                i as int,
            ).push(self.scenes@[i as int]@));
            i += 1;
        }
        assert(scene_models(self.scenes@).take(self.scenes.len() as int) =~= scene_models(
            self.scenes@,
        ));
        Self {
            scene: self.scene,
            scenes,
            background: self.background.clone(),
            sound: self.sound.clone(),
        }
    }

    /// The name of the picture behind the arena.
    pub fn background(&self) -> (r: &String)
        ensures
            r@ == self@.background,
    {
        &self.background
    }

    /// The name of the music of the level.
    pub fn sound(&self) -> (r: &String)
        ensures
            r@ == self@.sound,
    {
        &self.sound
    }
}

impl Clone for Level {
    fn clone(&self) -> (r: Self)
        ensures
            r@ == self@,
    {
        self.duplicate()
    }
}

} // verus!
