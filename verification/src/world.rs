//! The world: the player, the live enemies and bullets, and the tick that
//! advances them.

use vstd::prelude::*;
use crate::enemies::{all_wf, enemy_models, Enemy, EnemyModel};
use crate::fixed::{diff, mul_div, narrow, ratio, sat_add, sat_sub, sum};
use crate::geometry::{Circle, Vector};
use crate::level::{Level, LevelModel};

verus! {

/// Who fired a bullet.
#[derive(Clone, Copy, Debug, PartialEq, Eq, Structural)]
pub enum BulletType {
    /// A precise player shot: it wounds enemies and passes through bullets.
    PlayerSniper,
    /// A heavy player shot: it cancels enemy bullets and wounds nobody.
    PlayerHeavy,
    Enemy,
}

/// A projectile in flight.
#[derive(Clone, Copy, Debug, PartialEq, Eq, Structural)]
pub struct Bullet {
    pub typ: BulletType,
    pub hitbox: Circle,
    /// The displacement per second.
    pub speed: Vector,
    /// Set once the bullet has left play; such a bullet is dropped at the end of
    /// the tick.
    pub marked_for_delete: bool,
}

/// The radius of every bullet that an enemy fires.
pub const ENEMY_BULLET_RADIUS: i64 = 5000;

/// The bullet that an enemy fires from `coord` with velocity `speed`.
pub open spec fn enemy_bullet(coord: Vector, speed: Vector) -> Bullet {
    Bullet {
        typ: BulletType::Enemy,
        hitbox: Circle { coord, r: ENEMY_BULLET_RADIUS },
        speed,
        marked_for_delete: false,
    }
}

impl Bullet {
    pub fn new(typ: BulletType, hitbox: Circle, speed: Vector) -> (b: Self)
        ensures
            b == (Bullet { typ, hitbox, speed, marked_for_delete: false }),
    {
        Self { typ, hitbox, speed, marked_for_delete: false }
    }
}

/// How a tick ended.
#[derive(Clone, Copy, Debug, PartialEq, Eq, Structural)]
pub enum TickResult {
    /// The round goes on.
    Continue,
    /// Every scene of the level is cleared.
    Win,
    /// An enemy bullet touched the player.
    Lose,
}

/// The damage that a precise player shot deals.
pub const SNIPER_DAMAGE: i64 = 3000;

/// The radius of the player.
pub const PLAYER_RADIUS: i64 = 10_000;

/// The number of bullets of the player's first fan.
pub const FIRST_FAN: usize = 2;

/// The radius of a bullet of the given kind.
pub open spec fn bullet_radius(typ: BulletType) -> int {
    match typ {
        BulletType::PlayerSniper => 5000,
        BulletType::PlayerHeavy => 10_000,
        BulletType::Enemy => 5000,
    }
}

/// The lowest coordinate at which a disc of radius `r` lies inside an arena of
/// the given extent about the origin.
pub open spec fn arena_low(extent: int, r: int) -> int {
    sum(ratio(extent, -1, 2), r)
}

/// The highest such coordinate.
pub open spec fn arena_high(extent: int, r: int) -> int {
    diff(ratio(extent, 1, 2), r)
}

/// `v` moved up to `low` where it lies below, and then down to `high` where it
/// lies above.
pub open spec fn pinned(v: int, low: int, high: int) -> int {
    let raised = if v < low { low } else { v };
    if raised > high { high } else { raised }
}

/// The disc moved into the arena of size `size`.
pub open spec fn kept_inside(c: Circle, size: Vector) -> Circle {
    Circle {
        coord: Vector {
            x: pinned(
                c.coord.x as int,
                arena_low(size.x as int, c.r as int),
                arena_high(size.x as int, c.r as int),
            ) as i64,
            y: pinned(
                c.coord.y as int,
                arena_low(size.y as int, c.r as int),
                arena_high(size.y as int, c.r as int),
            ) as i64,
        },
        r: c.r,
    }
}

/// Two bullets cancel each other: they overlap, they are of different kinds,
/// and neither is a precise player shot.
pub open spec fn clashes(a: Bullet, b: Bullet) -> bool {
    &&& a.typ != BulletType::PlayerSniper
    &&& b.typ != BulletType::PlayerSniper
    &&& a.typ != b.typ
    &&& a.hitbox.overlaps(b.hitbox)
}

/// Bullet `k` of the list cancels with another bullet of the list.
pub open spec fn clashes_any(bullets: Seq<Bullet>, k: int) -> bool {
    exists|j: int| 0 <= j < bullets.len() && j != k && clashes(bullets[k], #[trigger] bullets[j])
}

/// Bullets of one kind never cancel each other.
pub proof fn lemma_same_kind_passes(a: Bullet, b: Bullet)
    requires
        a.typ == b.typ,
    ensures
        !clashes(a, b),
{
}

/// A precise player shot cancels with no bullet.
pub proof fn lemma_sniper_passes(a: Bullet, b: Bullet)
    requires
        a.typ == BulletType::PlayerSniper || b.typ == BulletType::PlayerSniper,
    ensures
        !clashes(a, b),
{
}

/// The pairwise rule leaves a bullet as it is where every other bullet that
/// overlaps it is of its own kind.
pub proof fn lemma_own_kind_unmarked(bullets: Seq<Bullet>, k: int)
    requires
        0 <= k < bullets.len(),
        forall|j: int|
            0 <= j < bullets.len() && j != k && bullets[k].hitbox.overlaps(
                (#[trigger] bullets[j]).hitbox,
            ) ==> bullets[j].typ == bullets[k].typ,
    ensures
        after_clashes(bullets)[k] == bullets[k],
{
    assert(!clashes_any(bullets, k));
}

/// Moving a disc into the arena twice is moving it once.
pub proof fn lemma_kept_inside_twice(c: Circle, size: Vector)
    ensures
        kept_inside(kept_inside(c, size), size) == kept_inside(c, size),
{
}

/// The bullet with its mark set where `gone` holds.
pub open spec fn marked_if(b: Bullet, gone: bool) -> Bullet {
    Bullet {
        typ: b.typ,
        hitbox: b.hitbox,
        speed: b.speed,
        marked_for_delete: b.marked_for_delete || gone,
    }
}

/// The bullets after the pairwise rule: every bullet that cancels with another
/// is marked.
pub open spec fn after_clashes(bullets: Seq<Bullet>) -> Seq<Bullet> {
    Seq::new(bullets.len(), |k: int| marked_if(bullets[k], clashes_any(bullets, k)))
}

/// The enemy after the first `n` bullets of the list were tested against it,
/// in order: every precise player shot that overlaps the hitbox, as it then
/// is, wounds the enemy.
pub open spec fn strike(e: EnemyModel, bullets: Seq<Bullet>, n: nat) -> EnemyModel
    decreases n,
{
    if n == 0 {
        e
    } else {
        let before = strike(e, bullets, (n - 1) as nat);
        let b = bullets[n - 1];
        if b.typ == BulletType::PlayerSniper && before.hitbox.overlaps(b.hitbox) {
            before.wounded(SNIPER_DAMAGE as int)
        } else {
            before
        }
    }
}

/// Bullet `j` is a player shot that overlaps the hitbox of the enemy when its
/// turn comes.
pub open spec fn stopped_by(e: EnemyModel, bullets: Seq<Bullet>, j: int) -> bool {
    bullets[j].typ != BulletType::Enemy && strike(e, bullets, j as nat).hitbox.overlaps(
        bullets[j].hitbox,
    )
}

/// Bullet `j` is stopped by one of the first `n` enemies.
pub open spec fn stopped_by_any(
    enemies: Seq<EnemyModel>,
    bullets: Seq<Bullet>,
    n: int,
    j: int,
) -> bool {
    exists|i: int| 0 <= i < n && stopped_by(#[trigger] enemies[i], bullets, j)
}

/// One of the enemies stops one of the bullets.
pub open spec fn stops_any(enemies: Seq<EnemyModel>, bullets: Seq<Bullet>) -> bool {
    exists|i: int, j: int|
        0 <= i < enemies.len() && 0 <= j < bullets.len() && #[trigger] stopped_by(
            enemies[i],
            bullets,
            j,
        )
}

/// The enemies after every bullet was tested against each of them.
pub open spec fn after_strikes(enemies: Seq<EnemyModel>, bullets: Seq<Bullet>) -> Seq<EnemyModel> {
    Seq::new(enemies.len(), |i: int| strike(enemies[i], bullets, bullets.len()))
}

/// The bullets after every one of them was tested against every enemy: the
/// player shots that an enemy stopped are marked.
pub open spec fn after_stops(enemies: Seq<EnemyModel>, bullets: Seq<Bullet>) -> Seq<Bullet> {
    Seq::new(
        bullets.len(),
        |j: int| marked_if(bullets[j], stopped_by_any(enemies, bullets, enemies.len() as int, j)),
    )
}

/// The enemies after each was advanced by `delta`.
pub open spec fn after_advance(enemies: Seq<EnemyModel>, delta: int) -> Seq<EnemyModel> {
    Seq::new(enemies.len(), |i: int| enemies[i].ticked(delta))
}

/// What the first `n` enemies fire during a tick of length `delta`, enemy after
/// enemy.
pub open spec fn volley(enemies: Seq<EnemyModel>, delta: int, n: nat) -> Seq<Bullet>
    decreases n,
{
    if n == 0 {
        Seq::empty()
    } else {
        volley(enemies, delta, (n - 1) as nat) + enemies[n - 1].emitted(delta)
    }
}

/// The bullet after it flew for `delta`: it is marked where it has left the
/// arena of size `size` by more than its radius.
pub open spec fn flown(b: Bullet, delta: int, size: Vector) -> Bullet {
    let hitbox = Circle { coord: b.hitbox.coord.plus(b.speed.times(delta)), r: b.hitbox.r };
    Bullet {
        typ: b.typ,
        hitbox,
        speed: b.speed,
        marked_for_delete: b.marked_for_delete || !hitbox.inside(
            ratio(size.x as int, -1, 2),
            ratio(size.y as int, -1, 2),
            ratio(size.x as int, 1, 2),
            ratio(size.y as int, 1, 2),
        ),
    }
}

/// The bullets after each flew for `delta`.
pub open spec fn after_flight(bullets: Seq<Bullet>, delta: int, size: Vector) -> Seq<Bullet> {
    Seq::new(bullets.len(), |j: int| flown(bullets[j], delta, size))
}

/// The bullets that are not marked, in their order.
pub open spec fn unmarked(bullets: Seq<Bullet>) -> Seq<Bullet> {
    bullets.filter(|b: Bullet| !b.marked_for_delete)
}

/// The enemies that are alive, in their order.
pub open spec fn survivors(enemies: Seq<EnemyModel>) -> Seq<EnemyModel> {
    enemies.filter(|e: EnemyModel| e.alive())
}

/// Bullet `i` of a fan of `number` player bullets of radius `r` about the point
/// `at`: the bullets stand side by side, `r` and one more apart, and the middle
/// of the row lies at `at`.
pub open spec fn fan_bullet(
    at: Vector,
    speed: Vector,
    typ: BulletType,
    number: int,
    i: int,
) -> Bullet {
    let gap = bullet_radius(typ) + 1000;
    Bullet {
        typ,
        hitbox: Circle {
            coord: Vector {
                x: sum(diff(at.x as int, ((number - 1) * gap) / 2), i * gap) as i64,
                y: at.y,
            },
            r: bullet_radius(typ) as i64,
        },
        speed,
        marked_for_delete: false,
    }
}

/// Striking leaves the phases of an enemy as they are, so a well-formed enemy
/// stays well formed.
pub proof fn lemma_strike_wf(e: EnemyModel, bullets: Seq<Bullet>, n: nat)
    requires
        e.wf(),
    ensures
        strike(e, bullets, n).wf(),
        strike(e, bullets, n).phases == e.phases,
        strike(e, bullets, n).phase == e.phase,
    decreases n,
{
    if n > 0 {
        lemma_strike_wf(e, bullets, (n - 1) as nat);
    }
}

/// The survivors of well-formed enemies are well formed.
pub proof fn lemma_survivors_wf(enemies: Seq<EnemyModel>)
    requires
        all_wf(enemies),
    ensures
        all_wf(survivors(enemies)),
    decreases enemies.len(),
{
    reveal(Seq::filter);
    if enemies.len() > 0 {
        let rest = enemies.drop_last();
        assert forall|i: int| 0 <= i < rest.len() implies (#[trigger] rest[i]).wf() by {
            assert(rest[i] == enemies[i]);
        }
        lemma_survivors_wf(rest);
        assert(enemies.last().wf());
    }
}

/// Every survivor is alive: a dead enemy is in the list no more.
pub proof fn lemma_survivors_alive(enemies: Seq<EnemyModel>)
    ensures
        forall|i: int|
            0 <= i < survivors(enemies).len() ==> (#[trigger] survivors(enemies)[i]).alive(),
{
    let keep = |e: EnemyModel| e.alive();
    assert forall|i: int| 0 <= i < survivors(enemies).len() implies (#[trigger] survivors(
        enemies,
    )[i]).alive() by {
        enemies.lemma_filter_pred(keep, i);
    }
}

/// The world as a value.
pub struct WorldModel {
    pub player: Circle,
    pub enemies: Seq<EnemyModel>,
    pub bullets: Seq<Bullet>,
    /// The width and the height of the arena, which lies about the origin.
    pub size: Vector,
    pub time: int,
    pub level: LevelModel,
    /// The number of bullets of the player's fan.
    pub player_bullets: nat,
    /// The last tick cancelled bullets against each other.
    pub clashed: bool,
    /// In the last tick an enemy stopped a player shot.
    pub struck: bool,
}

impl WorldModel {
    /// The level and every live enemy are well formed, and the fan has at
    /// least two bullets.
    pub open spec fn wf(self) -> bool {
        &&& self.level.wf()
        &&& all_wf(self.enemies)
        &&& self.player_bullets >= 2
    }

    /// The world at the start of a round of `level` in an arena of size `size`.
    pub open spec fn start(size: Vector, level: LevelModel, player_bullets: nat) -> WorldModel {
        WorldModel {
            player: Circle {
                coord: Vector { x: 0, y: ratio(size.y as int, 1, 3) as i64 },
                r: PLAYER_RADIUS,
            },
            enemies: Seq::empty(),
            bullets: Seq::empty(),
            size,
            time: 0,
            level,
            player_bullets,
            clashed: false,
            struck: false,
        }
    }

    /// The world once the clock and the level have moved on: the first step of
    /// a tick.
    pub open spec fn staged(self, delta: int) -> WorldModel {
        WorldModel {
            player: self.player,
            enemies: self.level.enemies_after(self.enemies),
            bullets: self.level.bullets_after(self.enemies, self.bullets),
            size: self.size,
            time: sum(self.time, delta),
            level: self.level.ticked(self.enemies),
            player_bullets: self.player_bullets,
            clashed: false,
            struck: false,
        }
    }

    /// The world with the player moved into the arena: the second step.
    pub open spec fn fenced(self) -> WorldModel {
        WorldModel {
            player: kept_inside(self.player, self.size),
            enemies: self.enemies,
            bullets: self.bullets,
            size: self.size,
            time: self.time,
            level: self.level,
            player_bullets: self.player_bullets,
            clashed: self.clashed,
            struck: self.struck,
        }
    }

    /// An enemy bullet overlaps the player.
    pub open spec fn player_hit(self) -> bool {
        exists|j: int|
            0 <= j < self.bullets.len() && (#[trigger] self.bullets[j]).typ == BulletType::Enemy
                && self.player.overlaps(self.bullets[j].hitbox)
    }

    /// Some bullets cancel each other.
    pub open spec fn any_clash(self) -> bool {
        exists|k: int| 0 <= k < self.bullets.len() && #[trigger] clashes_any(self.bullets, k)
    }

    /// An enemy stops a player shot.
    pub open spec fn any_stop(self) -> bool {
        stops_any(self.enemies, after_clashes(self.bullets))
    }

    /// Every bullet as it is before the marked ones are removed: the old
    /// bullets after the collisions, then what the enemies fired, all after
    /// their flight.
    pub open spec fn in_flight(self, delta: int) -> Seq<Bullet> {
        let cleared = after_clashes(self.bullets);
        let struck = after_strikes(self.enemies, cleared);
        after_flight(
            after_stops(self.enemies, cleared) + volley(struck, delta, struck.len()),
            delta,
            self.size,
        )
    }

    /// The world after the steps that follow the test of the player: bullets
    /// cancel each other, enemies are struck and advance, bullets fly, and what
    /// is marked or dead is removed.
    pub open spec fn resolved(self, delta: int) -> WorldModel {
        let cleared = after_clashes(self.bullets);
        let struck = after_strikes(self.enemies, cleared);
        let moved = after_advance(struck, delta);
        WorldModel {
            player: self.player,
            enemies: survivors(moved),
            bullets: unmarked(self.in_flight(delta)),
            size: self.size,
            time: self.time,
            level: self.level,
            player_bullets: self.player_bullets,
            clashed: self.any_clash(),
            struck: self.any_stop(),
        }
    }

    /// The world with the player moved by `delta`.
    pub open spec fn pushed(self, delta: Vector) -> WorldModel {
        WorldModel {
            player: Circle { coord: self.player.coord.plus(delta), r: self.player.r },
            ..self
        }
    }

    /// The world after the player has fired a fan of bullets of the kind `typ`
    /// with the velocity `speed`.
    pub open spec fn fired(self, speed: Vector, typ: BulletType) -> WorldModel {
        WorldModel {
            player: self.player,
            enemies: self.enemies,
            bullets: self.bullets + Seq::new(
                self.player_bullets,
                |i: int| fan_bullet(self.player.coord, speed, typ, self.player_bullets as int, i),
            ),
            size: self.size,
            time: self.time,
            level: self.level,
            player_bullets: self.player_bullets,
            clashed: self.clashed,
            struck: self.struck,
        }
    }

    /// The world at the start of a round of `level`: nothing is alive and the
    /// player stands where it stands at first. The clock and the fan stay.
    pub open spec fn restarted(self, level: LevelModel) -> WorldModel {
        WorldModel {
            player: WorldModel::start(self.size, level, self.player_bullets).player,
            enemies: Seq::empty(),
            bullets: Seq::empty(),
            size: self.size,
            time: self.time,
            level,
            player_bullets: self.player_bullets,
            clashed: false,
            struck: false,
        }
    }

    /// A tick keeps the world well formed.
    pub proof fn lemma_ticked_wf(self, delta: int)
        requires
            self.wf(),
        ensures
            self.ticked(delta).wf(),
    {
        let staged = self.staged(delta);
        assert(staged.wf()) by {
            if self.level.spawns(self.enemies) {
                assert(all_wf(self.level.scenes[self.level.scene as int]));
            }
        }
        let fenced = staged.fenced();
        let cleared = after_clashes(fenced.bullets);
        let struck = after_strikes(fenced.enemies, cleared);
        assert forall|i: int| 0 <= i < struck.len() implies (#[trigger] struck[i]).wf() by {
            assert(fenced.enemies[i].wf());
            lemma_strike_wf(fenced.enemies[i], cleared, cleared.len());
        }
        let moved = after_advance(struck, delta);
        assert forall|i: int| 0 <= i < moved.len() implies (#[trigger] moved[i]).wf() by {
            assert(struck[i].wf());
            struck[i].lemma_ticked_wf(delta);
        }
        lemma_survivors_wf(moved);
    }

    /// The world in which a tick resolves collisions: after the level has
    /// moved on and the player was moved into the arena.
    pub open spec fn ready(self, delta: int) -> WorldModel {
        self.staged(delta).fenced()
    }

    /// After a tick that the level does not end, the player lies inside the
    /// arena, provided that the arena is at least as wide and as high as the
    /// player.
    pub proof fn lemma_player_inside(self, delta: int)
        requires
            self.level.outcome(self.enemies) == TickResult::Continue,
            arena_low(self.size.x as int, self.player.r as int) <= arena_high(
                self.size.x as int,
                self.player.r as int,
            ),
            arena_low(self.size.y as int, self.player.r as int) <= arena_high(
                self.size.y as int,
                self.player.r as int,
            ),
        ensures
            ({
                let after = self.ticked(delta).player;
                &&& after.r == self.player.r
                &&& arena_low(self.size.x as int, after.r as int) <= after.coord.x <= arena_high(
                    self.size.x as int,
                    after.r as int,
                )
                &&& arena_low(self.size.y as int, after.r as int) <= after.coord.y <= arena_high(
                    self.size.y as int,
                    after.r as int,
                )
            }),
    {
    }

    /// Where an enemy bullet overlaps the player, who stands inside the arena,
    /// while an enemy is alive, the tick ends the round as lost and does
    /// nothing else: besides the clock, every enemy and every bullet is as it
    /// was.
    pub proof fn lemma_hit_loses(self, delta: int, j: int)
        requires
            self.enemies.len() > 0,
            kept_inside(self.player, self.size) == self.player,
            0 <= j < self.bullets.len(),
            self.bullets[j].typ == BulletType::Enemy,
            self.player.overlaps(self.bullets[j].hitbox),
        ensures
            self.verdict(delta) == TickResult::Lose,
            self.ticked(delta) == (WorldModel {
                time: sum(self.time, delta),
                clashed: false,
                struck: false,
                ..self
            }),
    {
        let ready = self.ready(delta);
        assert(ready.bullets[j].typ == BulletType::Enemy);
    }

    /// While an enemy is alive at the start of a tick, the level stays as it is:
    /// the tick in which the last enemy falls spawns nothing, and the next scene
    /// comes with the tick after it.
    pub proof fn lemma_spawn_waits(self, delta: int)
        requires
            self.enemies.len() > 0,
        ensures
            self.ticked(delta).level == self.level,
            self.verdict(delta) != TickResult::Win,
    {
    }

    /// With no enemy alive at the start of a tick and a scene left, the tick
    /// goes on with no bullet of before and with fresh copies of that scene.
    pub proof fn lemma_spawn_clears(self, delta: int)
        requires
            self.enemies.len() == 0,
            !self.level.exhausted(),
        ensures
            self.ready(delta).bullets == Seq::<Bullet>::empty(),
            self.ready(delta).enemies == self.level.scenes[self.level.scene as int],
            self.ready(delta).level.scene == self.level.scene + 1,
    {
    }

    /// Two bullets that cancel each other are both removed by a tick that goes
    /// on with an enemy alive: both are marked in the list from which the tick
    /// keeps the unmarked bullets.
    pub proof fn lemma_clash_removes(self, delta: int, a: int, b: int)
        requires
            self.enemies.len() > 0,
            self.verdict(delta) == TickResult::Continue,
            0 <= a < self.bullets.len(),
            0 <= b < self.bullets.len(),
            a != b,
            clashes(self.bullets[a], self.bullets[b]),
        ensures
            self.ready(delta).in_flight(delta)[a].marked_for_delete,
            self.ready(delta).in_flight(delta)[b].marked_for_delete,
            self.ticked(delta).bullets == unmarked(self.ready(delta).in_flight(delta)),
            forall|k: int|
                0 <= k < self.ticked(delta).bullets.len() ==> !(#[trigger] self.ticked(
                    delta,
                ).bullets[k]).marked_for_delete,
    {
        let ready = self.ready(delta);
        assert(ready.bullets == self.bullets);
        let cleared = after_clashes(self.bullets);
        self.bullets[a].hitbox.lemma_overlaps_symmetric(self.bullets[b].hitbox);
        assert(clashes(self.bullets[b], self.bullets[a]));
        assert(clashes_any(self.bullets, a));
        assert(clashes_any(self.bullets, b));
        assert(cleared[a].marked_for_delete && cleared[b].marked_for_delete);
        let keep = |b: Bullet| !b.marked_for_delete;
        assert forall|k: int| 0 <= k < self.ticked(delta).bullets.len() implies !(
        #[trigger] self.ticked(delta).bullets[k]).marked_for_delete by {
            ready.in_flight(delta).lemma_filter_pred(keep, k);
        }
    }

    /// How a tick of length `delta` ends.
    pub open spec fn verdict(self, delta: int) -> TickResult {
        if self.level.outcome(self.enemies) != TickResult::Continue {
            self.level.outcome(self.enemies)
        } else if self.staged(delta).fenced().player_hit() {
            TickResult::Lose
        } else {
            TickResult::Continue
        }
    }

    /// The world after a tick of length `delta`.
    pub open spec fn ticked(self, delta: int) -> WorldModel {
        if self.level.outcome(self.enemies) != TickResult::Continue {
            self.staged(delta)
        } else if self.staged(delta).fenced().player_hit() {
            self.staged(delta).fenced()
        } else {
            self.staged(delta).fenced().resolved(delta)
        }
    }
}

fn pin(v: i64, extent: i64, r: i64) -> (p: i64)
    ensures
        p == pinned(
            v as int,
            arena_low(extent as int, r as int),
            arena_high(extent as int, r as int),
        ),
{
    let low: i64 = sat_add(mul_div(extent, -1, 2), r);
    let high: i64 = sat_sub(mul_div(extent, 1, 2), r);
    let raised: i64 = if v < low { low } else { v };
    if raised > high { high } else { raised }
}

/// The disc moved into the arena of size `size` about the origin.
pub fn keep_inside(c: &Circle, size: &Vector) -> (k: Circle)
    ensures
        k == kept_inside(*c, *size),
{
    Circle {
        coord: Vector { x: pin(c.coord.x, size.x, c.r), y: pin(c.coord.y, size.y, c.r) },
        r: c.r,
    }
}

/// An enemy bullet of the list overlaps `player`.
pub fn touched(player: &Circle, bullets: &Vec<Bullet>) -> (hit: bool)
    ensures
        hit == (exists|j: int|
            0 <= j < bullets@.len() && (#[trigger] bullets@[j]).typ == BulletType::Enemy
                && player.overlaps(bullets@[j].hitbox)),
{
    let mut j: usize = 0;
    while j < bullets.len()
        invariant
            j <= bullets.len(),
            forall|m: int|
                0 <= m < j ==> !((#[trigger] bullets@[m]).typ == BulletType::Enemy
                    && player.overlaps(bullets@[m].hitbox)),
        decreases bullets.len() - j,
    {
        if bullets[j].typ == BulletType::Enemy && player.collides_with(&bullets[j].hitbox) {
            return true;
        }
        j += 1;
    }
    false
}

fn bullets_clash(a: &Bullet, b: &Bullet) -> (r: bool)
    ensures
        r == clashes(*a, *b),
{
    a.typ != BulletType::PlayerSniper && b.typ != BulletType::PlayerSniper && a.typ != b.typ
        && a.hitbox.collides_with(&b.hitbox)
}

/// Bullet `k` cancels with another bullet of the list.
fn clashes_with_any(bullets: &Vec<Bullet>, k: usize) -> (r: bool)
    requires
        k < bullets@.len(),
    ensures
        r == clashes_any(bullets@, k as int),
{
    let mut j: usize = 0;
    while j < bullets.len()
        invariant
            j <= bullets.len(),
            k < bullets@.len(),
            forall|m: int|
                0 <= m < j && m != k ==> !clashes(bullets@[k as int], #[trigger] bullets@[m]),
        decreases bullets.len() - j,
    {
        if j != k && bullets_clash(&bullets[k], &bullets[j]) {
            return true;
        }
        j += 1;
    }
    false
}

/// Marks every bullet that cancels with another; says whether there was one.
pub fn mark_clashes(bullets: &mut Vec<Bullet>) -> (any: bool)
    ensures
        final(bullets)@ == after_clashes(old(bullets)@),
        any == (exists|k: int|
            0 <= k < old(bullets)@.len() && #[trigger] clashes_any(old(bullets)@, k)),
{
    let ghost start = bullets@;
    let mut gone: Vec<bool> = Vec::new();
    let mut any: bool = false;
    let mut k: usize = 0;
    while k < bullets.len()
        invariant
            k <= bullets.len(),
            bullets@ == start,
            gone@.len() == k,
            forall|m: int| 0 <= m < k ==> gone@[m] == clashes_any(start, m),
            any == (exists|m: int| 0 <= m < k && #[trigger] clashes_any(start, m)),
        decreases bullets.len() - k,
    {
        let c: bool = clashes_with_any(bullets, k);
        gone.push(c);
        any = any || c;
        k += 1;
    }
    let mut k: usize = 0;
    while k < bullets.len()
        invariant
            k <= bullets.len(),
            bullets@.len() == start.len(),
            gone@.len() == start.len(),
            forall|m: int| 0 <= m < start.len() ==> gone@[m] == clashes_any(start, m),
            forall|m: int| 0 <= m < k ==> bullets@[m] == marked_if(start[m], clashes_any(start, m)),
            forall|m: int| k <= m < start.len() ==> bullets@[m] == start[m],
        decreases bullets.len() - k,
    {
        if gone[k] {
            let mut b: Bullet = bullets[k];
            b.marked_for_delete = true;
            bullets[k] = b;
        }
        k += 1;
    }
    assert(bullets@ =~= after_clashes(start));
    any
}

/// Tests every bullet against one enemy, in order: a precise shot that overlaps
/// wounds the enemy, and every player shot that overlaps is noted in `stopped`.
fn strike_one(enemy: &mut Enemy, bullets: &Vec<Bullet>, stopped: &mut Vec<bool>) -> (any: bool)
    requires
        old(stopped)@.len() == bullets@.len(),
    ensures
        final(enemy)@ == strike(old(enemy)@, bullets@, bullets@.len()),
        final(stopped)@.len() == bullets@.len(),
        forall|j: int|
            0 <= j < bullets@.len() ==> final(stopped)@[j] == (old(stopped)@[j] || stopped_by(
                old(enemy)@,
                bullets@,
                j,
            )),
        any == (exists|j: int|
            0 <= j < bullets@.len() && #[trigger] stopped_by(old(enemy)@, bullets@, j)),
{
    let ghost e = enemy@;
    let mut any: bool = false;
    let mut j: usize = 0;
    while j < bullets.len()
        invariant
            j <= bullets.len(),
            stopped@.len() == bullets@.len(),
            enemy@ == strike(e, bullets@, j as nat),
            forall|m: int|
                0 <= m < j ==> stopped@[m] == (old(stopped)@[m] || stopped_by(e, bullets@, m)),
            forall|m: int| j <= m < bullets@.len() ==> stopped@[m] == old(stopped)@[m],
            any == (exists|m: int| 0 <= m < j && #[trigger] stopped_by(e, bullets@, m)),
        decreases bullets.len() - j,
    {
        let b: Bullet = bullets[j];
        if enemy.hitbox().collides_with(&b.hitbox) {
            if b.typ == BulletType::PlayerSniper {
                enemy.hit(SNIPER_DAMAGE);
                stopped[j] = true;
                any = true;
            } else if b.typ == BulletType::PlayerHeavy {
                stopped[j] = true;
                any = true;
            }
        }
        assert(stopped_by(e, bullets@, j as int) == (b.typ != BulletType::Enemy && strike(
            e,
            bullets@,
            j as nat,
        ).hitbox.overlaps(b.hitbox)));
        j += 1;
    }
    any
}

/// Tests every bullet against every enemy, enemy after enemy; marks the player
/// shots that an enemy stopped, and says whether there was one.
pub fn strike_enemies(enemies: &mut Vec<Enemy>, bullets: &mut Vec<Bullet>) -> (any: bool)
    ensures
        enemy_models(final(enemies)@) == after_strikes(enemy_models(old(enemies)@), old(bullets)@),
        final(bullets)@ == after_stops(enemy_models(old(enemies)@), old(bullets)@),
        any == stops_any(enemy_models(old(enemies)@), old(bullets)@),
{
    let ghost es = enemy_models(enemies@);
    let ghost bs = bullets@;
    let mut stopped: Vec<bool> = Vec::new();
    let mut j: usize = 0;
    while j < bullets.len()
        invariant
            j <= bullets.len(),
            stopped@.len() == j,
            forall|m: int| 0 <= m < j ==> !stopped@[m],
        decreases bullets.len() - j,
    {
        stopped.push(false);
        j += 1;
    }
    let mut any: bool = false;
    let mut i: usize = 0;
    while i < enemies.len()
        invariant
            i <= enemies.len(),
            bullets@ == bs,
            enemies@.len() == es.len(),
            stopped@.len() == bs.len(),
            forall|m: int| 0 <= m < i ==> (#[trigger] enemies@[m])@ == strike(es[m], bs, bs.len()),
            forall|m: int| i <= m < es.len() ==> (#[trigger] enemies@[m])@ == es[m],
            forall|m: int| 0 <= m < bs.len() ==> stopped@[m] == stopped_by_any(es, bs, i as int, m),
            any == (exists|a: int, m: int|
                0 <= a < i && 0 <= m < bs.len() && #[trigger] stopped_by(es[a], bs, m)),
        decreases enemies.len() - i,
    {
        let ghost seen = stopped@;
        let hit: bool = strike_one(&mut enemies[i], bullets, &mut stopped);
        assert forall|m: int| 0 <= m < bs.len() implies stopped@[m] == stopped_by_any(
            es,
            bs,
            i + 1,
            m,
        ) by {
            assert(stopped@[m] == (seen[m] || stopped_by(es[i as int], bs, m)));
        }
        any = any || hit;
        i += 1;
    }
    let mut j: usize = 0;
    while j < bullets.len()
        invariant
            j <= bullets.len(),
            bullets@.len() == bs.len(),
            stopped@.len() == bs.len(),
            forall|m: int|
                0 <= m < bs.len() ==> stopped@[m] == stopped_by_any(es, bs, es.len() as int, m),
            forall|m: int|
                0 <= m < j ==> bullets@[m] == marked_if(
                    bs[m],
                    stopped_by_any(es, bs, es.len() as int, m),
                ),
            forall|m: int| j <= m < bs.len() ==> bullets@[m] == bs[m],
        decreases bullets.len() - j,
    {
        if stopped[j] {
            let mut b: Bullet = bullets[j];
            b.marked_for_delete = true;
            bullets[j] = b;
        }
        j += 1;
    }
    assert(bullets@ =~= after_stops(es, bs));
    assert(enemy_models(enemies@) =~= after_strikes(es, bs));
    any
}

/// Advances every enemy by `delta`, enemy after enemy, and appends to `bullets`
/// what they fire.
pub fn advance_enemies(enemies: &mut Vec<Enemy>, delta: i64, bullets: &mut Vec<Bullet>)
    requires
        all_wf(enemy_models(old(enemies)@)),
    ensures
        enemy_models(final(enemies)@) == after_advance(enemy_models(old(enemies)@), delta as int),
        all_wf(enemy_models(final(enemies)@)),
        final(bullets)@ == old(bullets)@ + volley(
            enemy_models(old(enemies)@),
            delta as int,
            old(enemies)@.len(),
        ),
{
    let ghost es = enemy_models(enemies@);
    let mut i: usize = 0;
    assert(bullets@ =~= old(bullets)@ + volley(es, delta as int, 0));
    while i < enemies.len()
        invariant
            i <= enemies.len(),
            enemies@.len() == es.len(),
            all_wf(es),
            forall|m: int| 0 <= m < i ==> (#[trigger] enemies@[m])@ == es[m].ticked(delta as int),
            forall|m: int| 0 <= m < i ==> (#[trigger] enemies@[m])@.wf(),
            forall|m: int| i <= m < es.len() ==> (#[trigger] enemies@[m])@ == es[m],
            bullets@ == old(bullets)@ + volley(es, delta as int, i as nat),
        decreases enemies.len() - i,
    {
        let ghost fired = bullets@;
        assert(es[i as int].wf());
        enemies[i].tick(delta, bullets);
        assert(bullets@ =~= old(bullets)@ + volley(es, delta as int, (i + 1) as nat)) by {
            assert(volley(es, delta as int, (i + 1) as nat) == volley(es, delta as int, i as nat)
                + es[i as int].emitted(delta as int));
        }
        i += 1;
    }
    assert(enemy_models(enemies@) =~= after_advance(es, delta as int));
}

/// Moves every bullet by its velocity times `delta` and marks those that have
/// left the arena.
pub fn fly(bullets: &mut Vec<Bullet>, delta: i64, size: &Vector)
    ensures
        final(bullets)@ == after_flight(old(bullets)@, delta as int, *size),
{
    let left: i64 = mul_div(size.x, -1, 2);
    let top: i64 = mul_div(size.y, -1, 2);
    let right: i64 = mul_div(size.x, 1, 2);
    let bottom: i64 = mul_div(size.y, 1, 2);
    let mut j: usize = 0;
    while j < bullets.len()
        invariant
            j <= bullets.len(),
            bullets@.len() == old(bullets)@.len(),
            left == ratio(size.x as int, -1, 2),
            top == ratio(size.y as int, -1, 2),
            right == ratio(size.x as int, 1, 2),
            bottom == ratio(size.y as int, 1, 2),
            forall|m: int|
                0 <= m < j ==> bullets@[m] == flown(old(bullets)@[m], delta as int, *size),
            forall|m: int| j <= m < bullets@.len() ==> bullets@[m] == old(bullets)@[m],
        decreases bullets.len() - j,
    {
        let mut b: Bullet = bullets[j];
        b.hitbox.coord.add_assign(b.speed.mul(delta));
        if !b.hitbox.in_bounds(left, top, right, bottom) {
            b.marked_for_delete = true;
        }
        bullets[j] = b;
        j += 1;
    }
    assert(bullets@ =~= after_flight(old(bullets)@, delta as int, *size));
}

/// What a filter keeps of a list with one more element.
proof fn lemma_filter_push<A>(s: Seq<A>, x: A, pred: spec_fn(A) -> bool)
    ensures
        s.push(x).filter(pred) == if pred(x) {
            s.filter(pred).push(x)
        } else {
            s.filter(pred)
        },
{
    reveal(Seq::filter);
    assert(s.push(x).drop_last() =~= s);
}

/// Removes the marked bullets.
pub fn drop_marked(bullets: &mut Vec<Bullet>)
    ensures
        final(bullets)@ == unmarked(old(bullets)@),
{
    let ghost keep = |b: Bullet| !b.marked_for_delete;
    let mut kept: Vec<Bullet> = Vec::new();
    let mut j: usize = 0;
    proof {
        reveal(Seq::filter);
        assert(bullets@.take(0).filter(keep) =~= Seq::empty());
    }
    while j < bullets.len()
        invariant
            j <= bullets.len(),
            bullets@ == old(bullets)@,
            keep == |b: Bullet| !b.marked_for_delete,
            kept@ == bullets@.take(j as int).filter(keep),
        decreases bullets.len() - j,
    {
        proof {
            lemma_filter_push(bullets@.take(j as int), bullets@[j as int], keep);
            assert(bullets@.take(j + 1) =~= bullets@.take(j as int).push(bullets@[j as int]));
        }
        if !bullets[j].marked_for_delete {
            kept.push(bullets[j]);
        }
        j += 1;
    }
    assert(bullets@.take(bullets@.len() as int) =~= bullets@);
    *bullets = kept;
}

/// Removes the enemies that are not alive.
pub fn drop_dead(enemies: &mut Vec<Enemy>)
    ensures
        enemy_models(final(enemies)@) == survivors(enemy_models(old(enemies)@)),
{
    let ghost es = enemy_models(enemies@);
    let ghost keep = |e: EnemyModel| e.alive();
    let n: usize = enemies.len();
    let mut i: usize = 0;
    let mut seen: usize = 0;
    proof {
        reveal(Seq::filter);
        assert(es.take(0).filter(keep) =~= Seq::empty());
        assert(enemy_models(enemies@) =~= es.take(0).filter(keep) + es.skip(0));
    }
    while seen < n
        invariant
            seen <= n,
            n == es.len(),
            keep == |e: EnemyModel| e.alive(),
            i == es.take(seen as int).filter(keep).len(),
            enemy_models(enemies@) == es.take(seen as int).filter(keep) + es.skip(seen as int),
        decreases n - seen,
    {
        let ghost now = enemy_models(enemies@);
        proof {
            lemma_filter_push(es.take(seen as int), es[seen as int], keep);
            assert(es.take(seen + 1) =~= es.take(seen as int).push(es[seen as int]));
            assert(now.len() == enemies@.len());
            assert(now[i as int] == es.skip(seen as int)[0]);
            assert(now[i as int] == enemies@[i as int]@);
        }
        if enemies[i].is_alive() {
            assert(now =~= es.take(seen + 1).filter(keep) + es.skip(seen + 1));
            i += 1;
        } else {
            let _ = enemies.remove(i);
            assert(enemy_models(enemies@) =~= now.remove(i as int));
            assert(now.remove(i as int) =~= es.take(seen + 1).filter(keep) + es.skip(seen + 1));
        }
        seen += 1;
    }
    assert(es.take(n as int) =~= es);
    assert(enemy_models(enemies@) =~= survivors(es));
}

/// The world of one round: the player, what is alive, and the level.
#[derive(Debug)]
pub struct World {
    player: Circle,
    enemies: Vec<Enemy>,
    bullets: Vec<Bullet>,
    size: Vector,
    time: i64,
    level: Level,
    player_bullets: usize,
    clashed: bool,
    struck: bool,
}

impl View for World {
    type V = WorldModel;

    closed spec fn view(&self) -> WorldModel {
        WorldModel {
            player: self.player,
            enemies: enemy_models(self.enemies@),
            bullets: self.bullets@,
            size: self.size,
            time: self.time as int,
            level: self.level@,
            player_bullets: self.player_bullets as nat,
            clashed: self.clashed,
            struck: self.struck,
        }
    }
}

impl World {
    /// The world at the start of a round of `level` in an arena of size `size`.
    pub fn new(size: Vector, level: Level) -> (w: Self)
        requires
            level@.wf(),
        ensures
            w@ == WorldModel::start(size, level@, FIRST_FAN as nat),
            w@.wf(),
    {
        let w = Self {
            player: Circle::new(0, mul_div(size.y, 1, 3), PLAYER_RADIUS),
            level,
            enemies: Vec::new(),
            bullets: Vec::new(),
            size,
            time: 0,
            player_bullets: FIRST_FAN,
            clashed: false,
            struck: false,
        };
        assert(enemy_models(w.enemies@) =~= Seq::empty());
        w
    }

    /// The bullet that an enemy fires from `coord` with velocity `speed`.
    pub fn new_bullet(coord: Vector, speed: Vector) -> (b: Bullet)
        ensures
            b == enemy_bullet(coord, speed),
    {
        Bullet::new(BulletType::Enemy, Circle::new(coord.x, coord.y, ENEMY_BULLET_RADIUS), speed)
    }

    /// One step of the simulation, of length `delta`. In this order: the level
    /// moves on and may end the round as won; the player is moved into the
    /// arena; an enemy bullet on the player ends the round as lost; bullets
    /// cancel each other; enemies are struck by player shots; enemies advance
    /// and fire; bullets fly; what is marked or dead is removed.
    pub fn tick(&mut self, delta: i64) -> (r: TickResult)
        requires
            old(self)@.wf(),
        ensures
            r == old(self)@.verdict(delta as int),
            final(self)@ == old(self)@.ticked(delta as int),
            final(self)@.wf(),
    {
        proof {
            old(self)@.lemma_ticked_wf(delta as int);
        }
        self.time = sat_add(self.time, delta);
        self.clashed = false;
        self.struck = false;
        let level_tick: TickResult = self.level.tick(&mut self.enemies, &mut self.bullets);
        if level_tick != TickResult::Continue {
            return level_tick;
        }
        self.player = keep_inside(&self.player, &self.size);
        if touched(&self.player, &self.bullets) {
            return TickResult::Lose;
        }
        self.clashed = mark_clashes(&mut self.bullets);
        let ghost cleared = self.bullets@;
        self.struck = strike_enemies(&mut self.enemies, &mut self.bullets);
        proof {
            let fenced = old(self)@.staged(delta as int).fenced();
            assert forall|i: int| 0 <= i < fenced.enemies.len() implies (#[trigger] after_strikes(
                fenced.enemies,
                cleared,
            )[i]).wf() by {
                assert(fenced.enemies[i].wf());
                lemma_strike_wf(fenced.enemies[i], cleared, cleared.len());
            }
        }
        advance_enemies(&mut self.enemies, delta, &mut self.bullets);
        fly(&mut self.bullets, delta, &self.size);
        drop_marked(&mut self.bullets);
        drop_dead(&mut self.enemies);
        TickResult::Continue
    }

    /// Fires the player's fan: as many bullets as the fan has, side by side
    /// about the player, all with the velocity `speed`.
    pub fn shoot(&mut self, speed: Vector, typ: BulletType)
        requires
            old(self)@.wf(),
        ensures
            final(self)@ == old(self)@.fired(speed, typ),
            final(self)@.wf(),
    {
        let r: i64 = match typ {
            BulletType::PlayerSniper => 5000,
            BulletType::PlayerHeavy => 10_000,
            BulletType::Enemy => 5000,
        };
        let n: usize = self.player_bullets;
        let gap: i128 = r as i128 + 1000;
        assert(0 <= (n - 1) * gap <= 0xffff_ffff_ffff_ffff * 11_000) by (nonlinear_arith)
            requires
                1 <= n <= 0xffff_ffff_ffff_ffff,
                0 <= gap <= 11_000,
        ;
        let left: i64 = narrow(self.player.coord.x as i128 - ((n - 1) as i128 * gap) / 2);
        let ghost fan = Seq::new(
            n as nat,
            |i: int| fan_bullet(self.player.coord, speed, typ, n as int, i),
        );
        let mut i: usize = 0;
        while i < n
            invariant
                i <= n,
                n == self.player_bullets,
                gap == bullet_radius(typ) + 1000,
                r == bullet_radius(typ),
                left == diff(self.player.coord.x as int, ((n - 1) * gap) / 2),
                fan.len() == n,
                forall|j: int|
                    0 <= j < n ==> fan[j] == fan_bullet(self.player.coord, speed, typ, n as int, j),
                self.bullets@ =~= old(self).bullets@ + fan.take(i as int),
                self.player == old(self).player,
                self.enemies == old(self).enemies,
                self.size == old(self).size,
                self.time == old(self).time,
                self.level == old(self).level,
                self.player_bullets == old(self).player_bullets,
                self.clashed == old(self).clashed,
                self.struck == old(self).struck,
            decreases n - i,
        {
            assert(0 <= i * gap <= 0xffff_ffff_ffff_ffff * 11_000) by (nonlinear_arith)
                requires
                    0 <= i <= 0xffff_ffff_ffff_ffff,
                    0 <= gap <= 11_000,
            ;
            let x: i64 = narrow(left as i128 + i as i128 * gap);
            self.bullets.push(Bullet::new(typ, Circle::new(x, self.player.coord.y, r), speed));
            assert(fan.take(i + 1) =~= fan.take(i as int).push(fan[i as int]));
            i += 1;
        }
        assert(fan.take(n as int) =~= fan);
    }

    /// Starts a round of `level` over: removes every bullet and every enemy and
    /// puts the player back where it stands at first.
    pub fn reset(&mut self, level: Level)
        requires
            old(self)@.wf(),
            level@.wf(),
        ensures
            final(self)@ == old(self)@.restarted(level@),
            final(self)@.wf(),
    {
        self.player = Circle::new(0, mul_div(self.size.y, 1, 3), PLAYER_RADIUS);
        self.enemies = Vec::new();
        self.bullets = Vec::new();
        self.level = level;
        self.clashed = false;
        self.struck = false;
        assert(enemy_models(self.enemies@) =~= Seq::empty());
    }

    /// Adds one bullet to the player's fan, as long as the count can grow.
    pub fn add_player_bullet(&mut self)
        requires
            old(self)@.wf(),
        ensures
            final(self)@ == (WorldModel {
                player_bullets: if old(self)@.player_bullets < usize::MAX {
                    old(self)@.player_bullets + 1
                } else {
                    old(self)@.player_bullets
                },
                ..old(self)@
            }),
            final(self)@.wf(),
    {
        if self.player_bullets < usize::MAX {
            self.player_bullets += 1;
        }
    }

    pub fn player(&self) -> (r: &Circle)
        ensures
            *r == self@.player,
    {
        &self.player
    }

    /// The live enemies.
    pub fn enemies(&self) -> (r: &Vec<Enemy>)
        ensures
            enemy_models(r@) == self@.enemies,
    {
        &self.enemies
    }

    /// The live bullets.
    pub fn bullets(&self) -> (r: &Vec<Bullet>)
        ensures
            r@ == self@.bullets,
    {
        &self.bullets
    }

    pub fn size(&self) -> (r: Vector)
        ensures
            r == self@.size,
    {
        self.size
    }

    /// The time that has passed in all ticks.
    pub fn time(&self) -> (r: i64)
        ensures
            r == self@.time,
    {
        self.time
    }

    pub fn level(&self) -> (r: &Level)
        ensures
            r@ == self@.level,
    {
        &self.level
    }

    /// The number of bullets of the player's fan.
    pub fn player_bullets(&self) -> (r: usize)
        ensures
            r == self@.player_bullets,
    {
        self.player_bullets
    }

    /// The last tick cancelled bullets against each other.
    pub fn clashed(&self) -> (r: bool)
        ensures
            r == self@.clashed,
    {
        self.clashed
    }

    /// In the last tick an enemy stopped a player shot.
    pub fn struck(&self) -> (r: bool)
        ensures
            r == self@.struck,
    {
        self.struck
    }

    /// Moves the player by `delta`. The player may leave the arena; the next
    /// tick moves it back inside.
    pub fn move_player(&mut self, delta: Vector)
        ensures
            final(self)@ == old(self)@.pushed(delta),
    {
        self.player.coord.add_assign(delta);
    }
}

} // verus!
