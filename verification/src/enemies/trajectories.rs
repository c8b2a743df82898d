//! The trajectories: a circle, a fixed point, a straight line, and the sum of
//! two trajectories.

use vstd::prelude::*;
use crate::enemies::Trajectory;
use crate::fixed::{fx_mul, prod, sat_add, sum};
use crate::geometry::{Circle, Vector};
use crate::trig::{cos, cosine, lemma_unit_norm, sin, sine, NORM_SLACK};

verus! {

/// Motion along a circle at a constant angular speed.
#[derive(Clone, Copy, Debug, PartialEq, Eq, Structural)]
pub struct CircleTrajectory {
    /// The circle that is followed.
    pub trajectory: Circle,
    /// The angle at time zero.
    pub timer_offset: i64,
    /// The angle covered per second.
    pub rotation_speed: i64,
}

impl CircleTrajectory {
    /// The angle reached at `time`.
    pub open spec fn angle_at(self, time: int) -> int {
        sum(prod(time, self.rotation_speed as int), self.timer_offset as int)
    }

    /// The displacement from the centre at `time`: the radius times the sine
    /// and the cosine of the angle.
    pub open spec fn offset_at(self, time: int) -> Vector {
        let a = self.angle_at(time);
        (Vector { x: sine(a) as i64, y: cosine(a) as i64 }).times(self.trajectory.r as int)
    }

    pub fn new(trajectory: Circle, timer_offset: i64, rotation_speed: i64) -> (r: Self)
        ensures
            r == (CircleTrajectory { trajectory, timer_offset, rotation_speed }),
    {
        Self { trajectory, timer_offset, rotation_speed }
    }
}

/// Rounding a product of a sine and a radius down to thousandths: the result
/// is not clamped, is no larger in size than the radius, and a million times
/// its square differs from the square of the exact product by at most two
/// million times the radius and one million.
proof fn lemma_rounded_leg(s: int, r: int) -> (x: int)
    requires
        -1000 <= s <= 1000,
        0 <= r <= i64::MAX,
    ensures
        x == prod(s, r),
        x == (s * r) / 1000,
        -r <= x <= r,
        -2_000_000 * r <= 1_000_000 * (x * x) - (s * s) * (r * r) <= 2_000_000 * r + 1_000_000,
{
    let p = s * r;
    let x = p / 1000;
    let e = p % 1000;
    vstd::arithmetic::div_mod::lemma_fundamental_div_mod(p, 1000);
    assert(0 <= e < 1000);
    assert(-1000 * r <= p <= 1000 * r) by (nonlinear_arith)
        requires
            p == s * r,
            -1000 <= s <= 1000,
            r >= 0,
    ;
    assert(-r <= x <= r);
    assert(1_000_000 * (x * x) - (s * s) * (r * r) == e * e - 2 * (p * e)) by (nonlinear_arith)
        requires
            p == s * r,
            p == 1000 * x + e,
    ;
    assert(0 <= e * e <= 1_000_000) by (nonlinear_arith)
        requires
            0 <= e < 1000,
    ;
    assert(-1_000_000 * r <= p * e <= 1_000_000 * r) by (nonlinear_arith)
        requires
            -1000 * r <= p <= 1000 * r,
            0 <= e < 1000,
            r >= 0,
    ;
    x
}

impl CircleTrajectory {
    /// At every time the displacement from the centre has, up to rounding, the
    /// length of the radius: a million times its squared length differs from a
    /// million times the squared radius by at most `NORM_SLACK` times the
    /// squared radius (the error of the sine table), four million times the
    /// radius and two million (the rounding of both coordinates).
    pub proof fn lemma_on_circle(self, time: int)
        requires
            self.trajectory.r >= 0,
        ensures
            ({
                let r = self.trajectory.r as int;
                let d = self.offset_at(time).square();
                let slack = NORM_SLACK * (r * r) + 4_000_000 * r + 2_000_000;
                -slack <= 1_000_000 * d - 1_000_000 * (r * r) <= slack
            }),
    {
        let r = self.trajectory.r as int;
        let a = self.angle_at(time);
        lemma_unit_norm(a);
        let s = sine(a);
        let c = cosine(a);
        let x = lemma_rounded_leg(s, r);
        let y = lemma_rounded_leg(c, r);
        let off = self.offset_at(time);
        assert(off.x == x && off.y == y);
        let n = s * s + c * c;
        let rr = r * r;
        assert(rr >= 0) by (nonlinear_arith)
            requires
                rr == r * r,
        ;
        assert((s * s) * rr + (c * c) * rr == n * rr) by (nonlinear_arith)
            requires
                n == s * s + c * c,
        ;
        assert(-NORM_SLACK * rr <= n * rr - 1_000_000 * rr <= NORM_SLACK * rr) by (nonlinear_arith)
            requires
                -NORM_SLACK <= n - 1_000_000 <= NORM_SLACK,
                rr >= 0,
        ;
        let d = off.square();
        assert(d == x * x + y * y);
        let ax = 1_000_000 * (x * x) - (s * s) * rr;
        let ay = 1_000_000 * (y * y) - (c * c) * rr;
        assert(-2_000_000 * r <= ax <= 2_000_000 * r + 1_000_000);
        assert(-2_000_000 * r <= ay <= 2_000_000 * r + 1_000_000);
        assert(1_000_000 * d - 1_000_000 * rr == ax + ay + (n * rr - 1_000_000 * rr));
        let fault = n * rr - 1_000_000 * rr;
        assert(-1314 * rr <= fault <= 1314 * rr);
        let slack = 1314 * rr + 4_000_000 * r + 2_000_000;
        assert(-slack <= 1_000_000 * d - 1_000_000 * rr <= slack);
        assert(slack == NORM_SLACK * (r * r) + 4_000_000 * r + 2_000_000);
    }

    /// Where the centre lies at least a radius inside the range of the
    /// coordinates, nothing is clamped: the position at every time is the
    /// centre moved by the displacement of
    /// [`CircleTrajectory::lemma_on_circle`].
    pub proof fn lemma_position_offset(self, time: int)
        requires
            self.trajectory.r >= 0,
            i64::MIN <= self.trajectory.coord.x - self.trajectory.r,
            self.trajectory.coord.x + self.trajectory.r <= i64::MAX,
            i64::MIN <= self.trajectory.coord.y - self.trajectory.r,
            self.trajectory.coord.y + self.trajectory.r <= i64::MAX,
        ensures
            self.position(time).x - self.trajectory.coord.x == self.offset_at(time).x,
            self.position(time).y - self.trajectory.coord.y == self.offset_at(time).y,
    {
        let r = self.trajectory.r as int;
        let a = self.angle_at(time);
        lemma_unit_norm(a);
        let x = lemma_rounded_leg(sine(a), r);
        let y = lemma_rounded_leg(cosine(a), r);
    }
}

impl Trajectory for CircleTrajectory {
    open spec fn position(&self, time: int) -> Vector {
        self.trajectory.coord.plus(self.offset_at(time))
    }

    fn location(&self, time: i64) -> (r: Vector) {
        let t: i64 = sat_add(fx_mul(time, self.rotation_speed), self.timer_offset);
        self.trajectory.coord.add(Vector::new(sin(t), cos(t)).mul(self.trajectory.r))
    }
}

/// Rest at one point.
#[derive(Clone, Copy, Debug, PartialEq, Eq, Structural)]
pub struct StayTrajectory {
    pub location: Vector,
}

impl StayTrajectory {
    pub fn new(location: Vector) -> (r: Self)
        ensures
            r == (StayTrajectory { location }),
    {
        Self { location }
    }
}

impl Trajectory for StayTrajectory {
    open spec fn position(&self, time: int) -> Vector {
        self.location
    }

    fn location(&self, _time: i64) -> (r: Vector) {
        self.location
    }
}

/// Uniform motion along a line. Past its nominal duration the motion goes on
/// along the same line.
#[derive(Clone, Copy, Debug, PartialEq, Eq, Structural)]
pub struct FromToTrajectory {
    pub from: Vector,
    /// The displacement that is covered in `time`.
    pub delta: Vector,
    /// The time in which `delta` is covered.
    pub time: i64,
}

impl FromToTrajectory {
    pub fn new(from: Vector, to: Vector, time: i64) -> (r: Self)
        ensures
            r == (FromToTrajectory { from, delta: to.minus(from), time }),
    {
        Self { from, delta: to.sub(from), time }
    }
}

impl Trajectory for FromToTrajectory {
    open spec fn position(&self, time: int) -> Vector {
        self.from.plus(self.delta.scaled(time, self.time as int))
    }

    fn location(&self, time: i64) -> (r: Vector) {
        self.from.add(self.delta.scale(time, self.time))
    }
}

/// The sum of two trajectories.
#[derive(Clone, Copy, Debug)]
pub struct CombinatorTrajectory<First, Second>(pub First, pub Second);

impl<First, Second> CombinatorTrajectory<First, Second> {
    pub fn new(first: First, second: Second) -> (r: Self)
        ensures
            r.0 == first,
            r.1 == second,
    {
        Self(first, second)
    }
}

impl<First: Trajectory, Second: Trajectory> Trajectory for CombinatorTrajectory<First, Second> {
    open spec fn position(&self, time: int) -> Vector {
        self.0.position(time).plus(self.1.position(time))
    }

    fn location(&self, time: i64) -> (r: Vector) {
        self.0.location(time).add(self.1.location(time))
    }
}

/// Any trajectory that a phase can hold.
#[derive(Debug)]
pub enum AnyTrajectory {
    Circle(CircleTrajectory),
    Stay(StayTrajectory),
    FromTo(FromToTrajectory),
    Combinator(Box<AnyTrajectory>, Box<AnyTrajectory>),
}

impl AnyTrajectory {
    /// The position at `time`, by the rule of the variant.
    pub open spec fn at(self, time: int) -> Vector
        decreases self,
    {
        match self {
            AnyTrajectory::Circle(t) => t.position(time),
            AnyTrajectory::Stay(t) => t.position(time),
            AnyTrajectory::FromTo(t) => t.position(time),
            AnyTrajectory::Combinator(a, b) => a.at(time).plus(b.at(time)),
        }
    }

    fn locate(&self, time: i64) -> (r: Vector)
        ensures
            r == self.at(time as int),
        decreases self,
    {
        match self {
            AnyTrajectory::Circle(t) => t.location(time),
            AnyTrajectory::Stay(t) => t.location(time),
            AnyTrajectory::FromTo(t) => t.location(time),
            AnyTrajectory::Combinator(a, b) => a.locate(time).add(b.locate(time)),
        }
    }

    /// A copy of the trajectory.
    pub fn duplicate(&self) -> (r: Self)
        ensures
            r == *self,
        decreases self,
    {
        match self {
            AnyTrajectory::Circle(t) => AnyTrajectory::Circle(*t),
            AnyTrajectory::Stay(t) => AnyTrajectory::Stay(*t),
            AnyTrajectory::FromTo(t) => AnyTrajectory::FromTo(*t),
            AnyTrajectory::Combinator(a, b) => AnyTrajectory::Combinator(
                Box::new(a.duplicate()),
                Box::new(b.duplicate()),
            ),
        }
    }
}

impl Clone for AnyTrajectory {
    fn clone(&self) -> (r: Self)
        ensures
            r == *self,
    {
        self.duplicate()
    }
}

impl Trajectory for AnyTrajectory {
    open spec fn position(&self, time: int) -> Vector {
        self.at(time)
    }

    fn location(&self, time: i64) -> (r: Vector) {
        self.locate(time)
    }
}

} // verus!
