//! The bullet emitters: a ring, a cone, a fixed pattern, and two emitters that
//! fire side by side.
//!
//! Every emitter counts a timer down. On a tick that brings the timer to zero
//! or below it fires one burst and adds its cooldown to the timer; it fires
//! at most once per tick, however long the tick.

use vstd::prelude::*;
use crate::enemies::BulletEmmiter;
use crate::fixed::{
    diff, lemma_share_range, mul_div, ratio, sat_add, sat_sub, share, share_of, sum,
};
use crate::geometry::{Circle, Vector};
use crate::trig::{cos, cosine, sin, sine, TAU};
use crate::world::{enemy_bullet, Bullet, World};

verus! {

/// A tick of length `delta` brings a timer that stands at `timer` to zero or
/// below.
pub open spec fn fires(timer: int, delta: int) -> bool {
    diff(timer, delta) <= 0
}

/// Where a timer with the given cooldown stands after a tick of length `delta`.
pub open spec fn rearmed(timer: int, cooldown: int, delta: int) -> int {
    if fires(timer, delta) {
        sum(diff(timer, delta), cooldown)
    } else {
        diff(timer, delta)
    }
}

/// The bullet that leaves the rim of `enemy` in the direction `dir` at `speed`.
pub open spec fn rim_bullet(enemy: Circle, dir: Vector, speed: int) -> Bullet {
    enemy_bullet(enemy.coord.plus(dir.times(enemy.r as int)), dir.times(speed))
}

/// Bullet `i` of a ring of `number` bullets fired at phase time `time`: its
/// angle is the time, read as an angle, plus `i` shares of a full turn, and its
/// direction is the sine and the cosine of that angle.
pub open spec fn ring_bullet(enemy: Circle, time: int, number: int, speed: int, i: int) -> Bullet {
    let a = sum(time, share(i, TAU as int, number));
    rim_bullet(enemy, Vector { x: sine(a) as i64, y: cosine(a) as i64 }, speed)
}

/// Bullet `i` of a cone of `number` bullets about the direction `forward`: its
/// angle lies `i` shares of `spread` above the lower edge of the cone, and its
/// direction is the cosine and the sine of that angle.
pub open spec fn cone_bullet(
    enemy: Circle,
    forward: Vector,
    spread: int,
    number: int,
    speed: int,
    i: int,
) -> Bullet {
    let low = diff(forward.heading(), ratio(spread, 1, 2));
    let a = sum(low, share(i, spread, number - 1));
    rim_bullet(enemy, Vector { x: cosine(a) as i64, y: sine(a) as i64 }, speed)
}

/// Bullet `i` of a fixed pattern: it starts at its offset from the centre of
/// `enemy` with its own velocity.
pub open spec fn pattern_bullet(enemy: Circle, pattern: Seq<(Vector, Vector)>, i: int) -> Bullet {
    enemy_bullet(enemy.coord.plus(pattern[i].0), pattern[i].1)
}

/// What an emitter is: its kind, its configuration and its timer.
pub enum EmitterModel {
    Circle { timer: int, cooldown: int, number: nat, speed: int },
    Forward { timer: int, cooldown: int, number: nat, speed: int, forward: Vector, spread: int },
    Hardcoded { timer: int, cooldown: int, pattern: Seq<(Vector, Vector)> },
    Combinator(Box<EmitterModel>, Box<EmitterModel>),
}

impl EmitterModel {
    /// A ring emitter that has not fired yet.
    pub open spec fn ring(cooldown: int, number: nat, speed: int) -> EmitterModel {
        EmitterModel::Circle { timer: 0, cooldown, number, speed }
    }

    /// A cone emitter about `forward` that has not fired yet: its bullets fly
    /// as fast as `forward` is long.
    pub open spec fn cone(cooldown: int, number: nat, forward: Vector, spread: int) -> EmitterModel {
        EmitterModel::Forward {
            timer: 0,
            cooldown,
            number,
            speed: forward.length(),
            forward: forward.unit(),
            spread,
        }
    }

    /// A pattern emitter that has not fired yet.
    pub open spec fn fixed(cooldown: int, pattern: Seq<(Vector, Vector)>) -> EmitterModel {
        EmitterModel::Hardcoded { timer: 0, cooldown, pattern }
    }

    /// A cone has at least two bullets.
    pub open spec fn wf(self) -> bool
        decreases self,
    {
        match self {
            EmitterModel::Circle { .. } => true,
            EmitterModel::Forward { number, .. } => number >= 2,
            EmitterModel::Hardcoded { .. } => true,
            EmitterModel::Combinator(a, b) => a.wf() && b.wf(),
        }
    }

    /// A tick keeps an emitter well formed.
    pub proof fn lemma_ticked_wf(self, delta: int)
        requires
            self.wf(),
        ensures
            self.ticked(delta).wf(),
        decreases self,
    {
        match self {
            EmitterModel::Combinator(a, b) => {
                a.lemma_ticked_wf(delta);
                b.lemma_ticked_wf(delta);
            },
            _ => {},
        }
    }

    /// The number of bullets of one burst of every part of the emitter.
    pub open spec fn salvo(self) -> nat
        decreases self,
    {
        match self {
            EmitterModel::Circle { number, .. } => number,
            EmitterModel::Forward { number, .. } => number,
            EmitterModel::Hardcoded { pattern, .. } => pattern.len(),
            EmitterModel::Combinator(a, b) => a.salvo() + b.salvo(),
        }
    }

    /// However long a tick, no part of an emitter fires more than one burst in
    /// it.
    pub proof fn lemma_one_burst(self, enemy: Circle, time: int, delta: int)
        ensures
            self.burst(enemy, time, delta).len() <= self.salvo(),
        decreases self,
    {
        match self {
            EmitterModel::Combinator(a, b) => {
                a.lemma_one_burst(enemy, time, delta);
                b.lemma_one_burst(enemy, time, delta);
            },
            _ => {},
        }
    }

    /// A fixed pattern fires the same burst every time: a tick leaves the
    /// pattern and the cooldown as they are, and a burst holds one bullet for
    /// each entry of the pattern, each at its offset from the enemy and with
    /// its velocity.
    pub proof fn lemma_pattern_repeats(self, delta: int, enemy: Circle, time: int, rest: int)
        requires
            self is Hardcoded,
        ensures
            self.ticked(delta) is Hardcoded,
            self.ticked(delta)->pattern == self->pattern,
            self.ticked(delta)->Hardcoded_cooldown == self->Hardcoded_cooldown,
            fires(self.ticked(delta)->Hardcoded_timer, rest) ==> self.ticked(delta).burst(
                enemy,
                time,
                rest,
            ) =~= Seq::new(self->pattern.len(), |i: int| pattern_bullet(enemy, self->pattern, i)),
            !fires(self.ticked(delta)->Hardcoded_timer, rest) ==> self.ticked(delta).burst(
                enemy,
                time,
                rest,
            ) =~= Seq::empty(),
    {
    }

    /// The emitter after a tick of length `delta`: only timers change.
    pub open spec fn ticked(self, delta: int) -> EmitterModel
        decreases self,
    {
        match self {
            EmitterModel::Circle { timer, cooldown, number, speed } => EmitterModel::Circle {
                timer: rearmed(timer, cooldown, delta),
                cooldown,
                number,
                speed,
            },
            EmitterModel::Forward {
                timer,
                cooldown,
                number,
                speed,
                forward,
                spread,
            } => EmitterModel::Forward {
                timer: rearmed(timer, cooldown, delta),
                cooldown,
                number,
                speed,
                forward,
                spread,
            },
            EmitterModel::Hardcoded { timer, cooldown, pattern } => EmitterModel::Hardcoded {
                timer: rearmed(timer, cooldown, delta),
                cooldown,
                pattern,
            },
            EmitterModel::Combinator(a, b) => EmitterModel::Combinator(
                Box::new(a.ticked(delta)),
                Box::new(b.ticked(delta)),
            ),
        }
    }

    /// The bullets fired, in order, by a tick of length `delta` that ends at
    /// phase time `time`, from an enemy whose hitbox is `enemy`.
    pub open spec fn burst(self, enemy: Circle, time: int, delta: int) -> Seq<Bullet>
        decreases self,
    {
        match self {
            EmitterModel::Circle { timer, cooldown, number, speed } => if fires(timer, delta) {
                Seq::new(number, |i: int| ring_bullet(enemy, time, number as int, speed, i))
            } else {
                Seq::empty()
            },
            EmitterModel::Forward { timer, cooldown, number, speed, forward, spread } => if fires(
                timer,
                delta,
            ) {
                Seq::new(
                    number,
                    |i: int| cone_bullet(enemy, forward, spread, number as int, speed, i),
                )
            } else {
                Seq::empty()
            },
            EmitterModel::Hardcoded { timer, cooldown, pattern } => if fires(timer, delta) {
                Seq::new(pattern.len(), |i: int| pattern_bullet(enemy, pattern, i))
            } else {
                Seq::empty()
            },
            EmitterModel::Combinator(a, b) => a.burst(enemy, time, delta) + b.burst(
                enemy,
                time,
                delta,
            ),
        }
    }
}

/// Counts `timer` down by `delta`; says whether the emitter fires, and leaves
/// the timer where it stands after the tick.
fn count_down(timer: &mut i64, cooldown: i64, delta: i64) -> (fire: bool)
    ensures
        fire == fires(*old(timer) as int, delta as int),
        *final(timer) == rearmed(*old(timer) as int, cooldown as int, delta as int),
{
    let left: i64 = sat_sub(*timer, delta);
    if left <= 0 {
        *timer = sat_add(left, cooldown);
        true
    } else {
        *timer = left;
        false
    }
}

fn fire_from_rim(enemy: &Circle, dir: Vector, speed: i64) -> (b: Bullet)
    ensures
        b == rim_bullet(*enemy, dir, speed as int),
{
    World::new_bullet(enemy.coord.add(dir.mul(enemy.r)), dir.mul(speed))
}

/// Fires a ring of bullets that turns with the phase time.
#[derive(Clone, Copy, Debug, PartialEq, Eq, Structural)]
pub struct CircleEmitter {
    pub timer: i64,
    pub bullet_cooldown: i64,
    pub bullet_number: usize,
    pub bullet_speed: i64,
}

impl CircleEmitter {
    pub fn new(cooldown: i64, bullets: usize, speed: i64) -> (r: Self)
        ensures
            r == (CircleEmitter {
                timer: 0,
                bullet_cooldown: cooldown,
                bullet_number: bullets,
                bullet_speed: speed,
            }),
            r.model() == EmitterModel::ring(cooldown as int, bullets as nat, speed as int),
    {
        Self { timer: 0, bullet_cooldown: cooldown, bullet_number: bullets, bullet_speed: speed }
    }
}

impl BulletEmmiter for CircleEmitter {
    open spec fn model(&self) -> EmitterModel {
        EmitterModel::Circle {
            timer: self.timer as int,
            cooldown: self.bullet_cooldown as int,
            number: self.bullet_number as nat,
            speed: self.bullet_speed as int,
        }
    }

    fn tick(&mut self, enemy: &Circle, time: i64, delta: i64, bullets: &mut Vec<Bullet>) {
        if !count_down(&mut self.timer, self.bullet_cooldown, delta) {
            assert(bullets@ =~= old(bullets)@ + Seq::<Bullet>::empty());
            return ;
        }
        let ghost ring = old(self).model().burst(*enemy, time as int, delta as int);
        let n: usize = self.bullet_number;
        let mut i: usize = 0;
        while i < n
            invariant
                i <= n,
                n == self.bullet_number,
                self.bullet_number == old(self).bullet_number,
                self.bullet_speed == old(self).bullet_speed,
                self.bullet_cooldown == old(self).bullet_cooldown,
                self.timer == rearmed(
                    old(self).timer as int,
                    old(self).bullet_cooldown as int,
                    delta as int,
                ),
                ring.len() == n,
                forall|j: int|
                    0 <= j < n ==> ring[j] == ring_bullet(
                        *enemy,
                        time as int,
                        n as int,
                        self.bullet_speed as int,
                        j,
                    ),
                bullets@ =~= old(bullets)@ + ring.take(i as int),
            decreases n - i,
        {
            let a: i64 = sat_add(time, share_of(i, TAU, n));
            bullets.push(fire_from_rim(enemy, Vector::new(sin(a), cos(a)), self.bullet_speed));
            assert(ring.take(i + 1) =~= ring.take(i as int).push(ring[i as int]));
            i += 1;
        }
        assert(ring.take(n as int) =~= ring);
    }
}

/// Fires a fan of bullets about one direction.
#[derive(Clone, Copy, Debug, PartialEq, Eq, Structural)]
pub struct ForwardEmitter {
    pub timer: i64,
    pub bullet_cooldown: i64,
    /// At least two.
    pub bullet_number: usize,
    pub bullet_speed: i64,
    /// The middle direction of the fan, of length one.
    pub forward: Vector,
    /// The angle between the first and the last bullet of the fan.
    pub spawn_angle: i64,
}

impl ForwardEmitter {
    /// A fan of `bullets` bullets about `forward` that spans `spawn_angle`; the
    /// bullets fly as fast as `forward` is long.
    pub fn new(cooldown: i64, bullets: usize, forward: Vector, spawn_angle: i64) -> (r: Self)
        requires
            bullets >= 2,
        ensures
            r == (ForwardEmitter {
                timer: 0,
                bullet_cooldown: cooldown,
                bullet_number: bullets,
                bullet_speed: forward.length() as i64,
                forward: forward.unit(),
                spawn_angle,
            }),
            r.model() == EmitterModel::cone(
                cooldown as int,
                bullets as nat,
                forward,
                spawn_angle as int,
            ),
            r.model().wf(),
    {
        Self {
            timer: 0,
            bullet_cooldown: cooldown,
            bullet_number: bullets,
            bullet_speed: forward.len(),
            forward: forward.norm(),
            spawn_angle,
        }
    }
}

impl BulletEmmiter for ForwardEmitter {
    open spec fn model(&self) -> EmitterModel {
        EmitterModel::Forward {
            timer: self.timer as int,
            cooldown: self.bullet_cooldown as int,
            number: self.bullet_number as nat,
            speed: self.bullet_speed as int,
            forward: self.forward,
            spread: self.spawn_angle as int,
        }
    }

    fn tick(&mut self, enemy: &Circle, _time: i64, delta: i64, bullets: &mut Vec<Bullet>) {
        if !count_down(&mut self.timer, self.bullet_cooldown, delta) {
            assert(bullets@ =~= old(bullets)@ + Seq::<Bullet>::empty());
            return ;
        }
        let ghost fan = old(self).model().burst(*enemy, _time as int, delta as int);
        let n: usize = self.bullet_number;
        let low: i64 = sat_sub(self.forward.angle(), mul_div(self.spawn_angle, 1, 2));
        let mut i: usize = 0;
        while i < n
            invariant
                i <= n,
                n >= 2,
                n == self.bullet_number,
                self.bullet_number == old(self).bullet_number,
                self.bullet_speed == old(self).bullet_speed,
                self.bullet_cooldown == old(self).bullet_cooldown,
                self.forward == old(self).forward,
                self.spawn_angle == old(self).spawn_angle,
                self.timer == rearmed(
                    old(self).timer as int,
                    old(self).bullet_cooldown as int,
                    delta as int,
                ),
                low == diff(self.forward.heading(), ratio(self.spawn_angle as int, 1, 2)),
                fan.len() == n,
                forall|j: int|
                    0 <= j < n ==> fan[j] == cone_bullet(
                        *enemy,
                        self.forward,
                        self.spawn_angle as int,
                        n as int,
                        self.bullet_speed as int,
                        j,
                    ),
                bullets@ =~= old(bullets)@ + fan.take(i as int),
            decreases n - i,
        {
            let a: i64 = sat_add(low, share_of(i, self.spawn_angle, n - 1));
            bullets.push(fire_from_rim(enemy, Vector::new(cos(a), sin(a)), self.bullet_speed));
            assert(fan.take(i + 1) =~= fan.take(i as int).push(fan[i as int]));
            i += 1;
        }
        assert(fan.take(n as int) =~= fan);
    }
}

/// How far below the centre of the enemy the bullets of a wall start.
pub const WALL_DROP: i64 = 30_000;

/// Entry `i` of a wall of `number` bullets over `width`: the offset lies `i`
/// shares of the width to the right of the left end, which lies half the width
/// to the left of the centre; the velocity points straight down.
pub open spec fn wall_entry(speed: int, width: int, number: int, i: int) -> (Vector, Vector) {
    (
        Vector { x: sum(ratio(width, -1, 2), share(i, width, number - 1)) as i64, y: WALL_DROP },
        Vector { x: 0, y: speed as i64 },
    )
}

/// The pattern of a wall of `number` bullets over `width`.
pub open spec fn wall_pattern(speed: int, width: int, number: nat) -> Seq<(Vector, Vector)> {
    Seq::new(number, |i: int| wall_entry(speed, width, number as int, i))
}

/// The point of the heart curve at the parameter `t`, an angle: a fifth of
/// `(16 sin^3 t, -(13 cos t - 5 cos 2t - 2 cos 3t - cos 4t))`.
pub open spec fn heart_point(t: int) -> Vector {
    let s = sine(t);
    let wave = 13 * cosine(t) - 5 * cosine(2 * t) - 2 * cosine(3 * t) - cosine(4 * t);
    Vector { x: ratio(16 * (s * s * s), 1, 5_000_000) as i64, y: ratio(-wave, 1, 5) as i64 }
}

/// Entry `i` of a heart of `number` bullets: the offset is the point of the
/// curve `i` shares of a full turn along, the velocity that point times `speed`,
/// plus `forward`.
pub open spec fn heart_entry(speed: int, forward: Vector, number: int, i: int) -> (Vector, Vector) {
    let point = heart_point(share(i, TAU as int, number - 1));
    (point, point.times(speed).plus(forward))
}

/// The pattern of a heart of `number` bullets that drifts with `forward`.
pub open spec fn heart_pattern(speed: int, forward: Vector, number: nat) -> Seq<(Vector, Vector)> {
    Seq::new(number, |i: int| heart_entry(speed, forward, number as int, i))
}

/// The point of the heart curve at the parameter `t`.
fn heart_at(t: i64) -> (p: Vector)
    requires
        0 <= t <= TAU,
    ensures
        p == heart_point(t as int),
{
    let s: i64 = sin(t);
    let c1: i64 = cos(t);
    let c2: i64 = cos(2 * t);
    let c3: i64 = cos(3 * t);
    let c4: i64 = cos(4 * t);
    assert(-1_000_000_000 <= s * s * s <= 1_000_000_000) by (nonlinear_arith)
        requires
            -1000 <= s <= 1000,
    ;
    assert(-1_000_000 <= s * s <= 1_000_000) by (nonlinear_arith)
        requires
            -1000 <= s <= 1000,
    ;
    let cube: i64 = s * s * s;
    let wave: i64 = 13 * c1 - 5 * c2 - 2 * c3 - c4;
    Vector::new(mul_div(16 * cube, 1, 5_000_000), mul_div(-wave, 1, 5))
}

/// Fires the same pattern every time: each bullet at its own offset from the
/// enemy, with its own velocity.
#[derive(Debug)]
pub struct HardcodedEmitter {
    pub timer: i64,
    pub bullet_cooldown: i64,
    /// The offset and the velocity of each bullet.
    pub bullets: Vec<(Vector, Vector)>,
}

impl HardcodedEmitter {
    pub fn new(bullet_cooldown: i64, bullets: Vec<(Vector, Vector)>) -> (r: Self)
        ensures
            r.timer == 0,
            r.bullet_cooldown == bullet_cooldown,
            r.bullets == bullets,
            r.model() == EmitterModel::fixed(bullet_cooldown as int, bullets@),
    {
        Self { timer: 0, bullet_cooldown, bullets }
    }

    /// A horizontal row of `bullet_number` bullets, evenly spaced over `width`
    /// and centred below the enemy, that fly straight down at `bullet_speed`.
    pub fn wall(bullet_cooldown: i64, bullet_speed: i64, width: i64, bullet_number: usize) -> (r:
        Self)
        requires
            bullet_number >= 2,
        ensures
            r.model() == EmitterModel::fixed(
                bullet_cooldown as int,
                wall_pattern(bullet_speed as int, width as int, bullet_number as nat),
            ),
    {
        let ghost goal = wall_pattern(bullet_speed as int, width as int, bullet_number as nat);
        let mut bullets: Vec<(Vector, Vector)> = Vec::new();
        let left: i64 = mul_div(width, -1, 2);
        let mut i: usize = 0;
        while i < bullet_number
            invariant
                i <= bullet_number,
                bullet_number >= 2,
                left == ratio(width as int, -1, 2),
                goal.len() == bullet_number,
                forall|j: int|
                    0 <= j < bullet_number ==> goal[j] == wall_entry(
                        bullet_speed as int,
                        width as int,
                        bullet_number as int,
                        j,
                    ),
                bullets@ =~= goal.take(i as int),
            decreases bullet_number - i,
        {
            let x: i64 = sat_add(left, share_of(i, width, bullet_number - 1));
            bullets.push((Vector::new(x, WALL_DROP), Vector::new(0, bullet_speed)));
            assert(goal.take(i + 1) =~= goal.take(i as int).push(goal[i as int]));
            i += 1;
        }
        assert(goal.take(bullet_number as int) =~= goal);
        Self::new(bullet_cooldown, bullets)
    }

    /// A heart of `bullet_number` bullets about the enemy that grows at
    /// `bullet_speed`.
    pub fn hearth(bullet_cooldown: i64, bullet_speed: i64, bullet_number: usize) -> (r: Self)
        requires
            bullet_number >= 2,
        ensures
            r.model() == EmitterModel::fixed(
                bullet_cooldown as int,
                heart_pattern(bullet_speed as int, Vector { x: 0, y: 0 }, bullet_number as nat),
            ),
    {
        Self::forward_hearth(bullet_cooldown, bullet_speed, Vector::zero(), bullet_number)
    }

    /// A heart of `bullet_number` bullets about the enemy that grows at
    /// `bullet_speed` while it drifts as a whole with the velocity `forward`.
    pub fn forward_hearth(
        bullet_cooldown: i64,
        bullet_speed: i64,
        forward: Vector,
        bullet_number: usize,
    ) -> (r: Self)
        requires
            bullet_number >= 2,
        ensures
            r.model() == EmitterModel::fixed(
                bullet_cooldown as int,
                heart_pattern(bullet_speed as int, forward, bullet_number as nat),
            ),
    {
        let ghost goal = heart_pattern(bullet_speed as int, forward, bullet_number as nat);
        let mut bullets: Vec<(Vector, Vector)> = Vec::new();
        let mut i: usize = 0;
        while i < bullet_number
            invariant
                i <= bullet_number,
                bullet_number >= 2,
                goal.len() == bullet_number,
                forall|j: int|
                    0 <= j < bullet_number ==> goal[j] == heart_entry(
                        bullet_speed as int,
                        forward,
                        bullet_number as int,
                        j,
                    ),
                bullets@ =~= goal.take(i as int),
            decreases bullet_number - i,
        {
            proof {
                lemma_share_range(i as int, TAU as int, bullet_number - 1);
            }
            let point: Vector = heart_at(share_of(i, TAU, bullet_number - 1));
            bullets.push((point, point.mul(bullet_speed).add(forward)));
            assert(goal.take(i + 1) =~= goal.take(i as int).push(goal[i as int]));
            i += 1;
        }
        assert(goal.take(bullet_number as int) =~= goal);
        Self::new(bullet_cooldown, bullets)
    }

    /// A copy of the emitter.
    pub fn duplicate(&self) -> (r: Self)
        ensures
            r.model() == self.model(),
    {
        let mut pattern: Vec<(Vector, Vector)> = Vec::new();
        let mut i: usize = 0;
        while i < self.bullets.len()
            invariant
                i <= self.bullets.len(),
                pattern@ =~= self.bullets@.take(i as int),
            decreases self.bullets.len() - i,
        {
            pattern.push(self.bullets[i]);
            i += 1;
        }
        assert(self.bullets@.take(self.bullets.len() as int) =~= self.bullets@);
        Self { timer: self.timer, bullet_cooldown: self.bullet_cooldown, bullets: pattern }
    }
}

impl Clone for HardcodedEmitter {
    fn clone(&self) -> (r: Self)
        ensures
            r.model() == self.model(),
    {
        self.duplicate()
    }
}

impl BulletEmmiter for HardcodedEmitter {
    open spec fn model(&self) -> EmitterModel {
        EmitterModel::Hardcoded {
            timer: self.timer as int,
            cooldown: self.bullet_cooldown as int,
            pattern: self.bullets@,
        }
    }

    fn tick(&mut self, enemy: &Circle, _time: i64, delta: i64, bullets: &mut Vec<Bullet>) {
        if !count_down(&mut self.timer, self.bullet_cooldown, delta) {
            assert(bullets@ =~= old(bullets)@ + Seq::<Bullet>::empty());
            return ;
        }
        let ghost salvo = old(self).model().burst(*enemy, _time as int, delta as int);
        let n: usize = self.bullets.len();
        let mut i: usize = 0;
        while i < n
            invariant
                i <= n,
                n == self.bullets.len(),
                self.bullets == old(self).bullets,
                self.bullet_cooldown == old(self).bullet_cooldown,
                self.timer == rearmed(
                    old(self).timer as int,
                    old(self).bullet_cooldown as int,
                    delta as int,
                ),
                salvo.len() == n,
                forall|j: int| 0 <= j < n ==> salvo[j] == pattern_bullet(*enemy, self.bullets@, j),
                bullets@ =~= old(bullets)@ + salvo.take(i as int),
            decreases n - i,
        {
            let entry: (Vector, Vector) = self.bullets[i];
            bullets.push(World::new_bullet(enemy.coord.add(entry.0), entry.1));
            assert(salvo.take(i + 1) =~= salvo.take(i as int).push(salvo[i as int]));
            i += 1;
        }
        assert(salvo.take(n as int) =~= salvo);
    }
}

/// Two emitters that tick side by side: on every tick the first, then the
/// second.
#[derive(Clone, Debug)]
pub struct CombinatorEmmiter<First, Second>(pub First, pub Second);

impl<First, Second> CombinatorEmmiter<First, Second> {
    pub fn new(first: First, second: Second) -> (r: Self)
        ensures
            r.0 == first,
            r.1 == second,
    {
        Self(first, second)
    }
}

impl<First: BulletEmmiter, Second: BulletEmmiter> BulletEmmiter for CombinatorEmmiter<
    First,
    Second,
> {
    open spec fn model(&self) -> EmitterModel {
        EmitterModel::Combinator(Box::new(self.0.model()), Box::new(self.1.model()))
    }

    fn tick(&mut self, enemy: &Circle, time: i64, delta: i64, bullets: &mut Vec<Bullet>) {
        self.0.tick(enemy, time, delta, bullets);
        self.1.tick(enemy, time, delta, bullets);
        assert(bullets@ =~= old(bullets)@ + old(self).model().burst(
            *enemy,
            time as int,
            delta as int,
        ));
    }
}

/// Any emitter that a phase can hold.
#[derive(Debug)]
pub enum AnyEmitter {
    Circle(CircleEmitter),
    Forward(ForwardEmitter),
    Hardcoded(HardcodedEmitter),
    Combinator(Box<AnyEmitter>, Box<AnyEmitter>),
}

impl AnyEmitter {
    /// The emitter as a value, variant by variant.
    pub open spec fn as_model(self) -> EmitterModel
        decreases self,
    {
        match self {
            AnyEmitter::Circle(e) => e.model(),
            AnyEmitter::Forward(e) => e.model(),
            AnyEmitter::Hardcoded(e) => e.model(),
            AnyEmitter::Combinator(a, b) => EmitterModel::Combinator(
                Box::new(a.as_model()),
                Box::new(b.as_model()),
            ),
        }
    }

    fn advance(&mut self, enemy: &Circle, time: i64, delta: i64, bullets: &mut Vec<Bullet>)
        requires
            old(self).as_model().wf(),
        ensures
            final(self).as_model() == old(self).as_model().ticked(delta as int),
            final(bullets)@ == old(bullets)@ + old(self).as_model().burst(
                *enemy,
                time as int,
                delta as int,
            ),
        decreases *old(self),
    {
        match self {
            AnyEmitter::Circle(e) => e.tick(enemy, time, delta, bullets),
            AnyEmitter::Forward(e) => e.tick(enemy, time, delta, bullets),
            AnyEmitter::Hardcoded(e) => e.tick(enemy, time, delta, bullets),
            AnyEmitter::Combinator(a, b) => {
                a.advance(enemy, time, delta, bullets);
                b.advance(enemy, time, delta, bullets);
                assert(bullets@ =~= old(bullets)@ + old(self).as_model().burst(
                    *enemy,
                    time as int,
                    delta as int,
                ));
            },
        }
    }

    /// A copy of the emitter.
    pub fn duplicate(&self) -> (r: Self)
        ensures
            r.as_model() == self.as_model(),
        decreases self,
    {
        match self {
            AnyEmitter::Circle(e) => AnyEmitter::Circle(*e),
            AnyEmitter::Forward(e) => AnyEmitter::Forward(*e),
            AnyEmitter::Hardcoded(e) => AnyEmitter::Hardcoded(e.duplicate()),
            AnyEmitter::Combinator(a, b) => AnyEmitter::Combinator(
                Box::new(a.duplicate()),
                Box::new(b.duplicate()),
            ),
        }
    }
}

impl Clone for AnyEmitter {
    fn clone(&self) -> (r: Self)
        ensures
            r.as_model() == self.as_model(),
    {
        self.duplicate()
    }
}

impl BulletEmmiter for AnyEmitter {
    open spec fn model(&self) -> EmitterModel {
        self.as_model()
    }

    fn tick(&mut self, enemy: &Circle, time: i64, delta: i64, bullets: &mut Vec<Bullet>) {
        self.advance(enemy, time, delta, bullets)
    }
}

} // verus!
