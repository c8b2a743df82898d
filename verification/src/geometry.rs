//! Vectors, circles and rectangles over fixed-point coordinates.

use vstd::prelude::*;
use crate::fixed::{
    clamp, diff, fx_mul, isqrt, lemma_product_bound, mul_div, prod, ratio, root, sat_add, sat_sub,
    sum,
};
use crate::trig::{
    angle_of_step, cos_step, cosine_at, lemma_angle_of_step, sin_step, sine_at, step_angle,
    step_of, TAU,
};

verus! {

/// A point or a displacement of the plane.
#[derive(Clone, Copy, Debug, PartialEq, Eq, Structural)]
pub struct Vector {
    pub x: i64,
    pub y: i64,
}

/// The point `(x, y)`.
pub open spec fn point(x: int, y: int) -> Vector {
    Vector { x: x as i64, y: y as i64 }
}

impl Vector {
    /// The componentwise clamped sum.
    pub open spec fn plus(self, rhs: Vector) -> Vector {
        Vector {
            x: sum(self.x as int, rhs.x as int) as i64,
            y: sum(self.y as int, rhs.y as int) as i64,
        }
    }

    /// The componentwise clamped difference.
    pub open spec fn minus(self, rhs: Vector) -> Vector {
        Vector {
            x: diff(self.x as int, rhs.x as int) as i64,
            y: diff(self.y as int, rhs.y as int) as i64,
        }
    }

    /// The vector scaled by the fixed-point factor `k`.
    pub open spec fn times(self, k: int) -> Vector {
        Vector { x: prod(self.x as int, k) as i64, y: prod(self.y as int, k) as i64 }
    }

    /// The vector scaled by the fraction `n / d`.
    pub open spec fn scaled(self, n: int, d: int) -> Vector {
        Vector { x: ratio(self.x as int, n, d) as i64, y: ratio(self.y as int, n, d) as i64 }
    }

    /// The squared Euclidean length, in millionths.
    pub open spec fn square(self) -> int {
        self.x * self.x + self.y * self.y
    }

    /// The Euclidean length, rounded down and clamped.
    pub open spec fn length(self) -> int {
        clamp(root(self.square()))
    }

    /// The vector of length one in the same direction; zero for the zero vector.
    pub open spec fn unit(self) -> Vector {
        self.scaled(1000, self.length())
    }

    /// The scalar product, in millionths, with the direction of step `step`.
    pub open spec fn dot_at(self, step: int) -> int {
        self.x * cosine_at(step) + self.y * sine_at(step)
    }

    /// The size of the cross product, in millionths, with the direction of
    /// step `step`: how far the vector points to the side of that direction.
    pub open spec fn miss_at(self, step: int) -> int {
        let cross = self.x * sine_at(step) - self.y * cosine_at(step);
        if cross >= 0 {
            cross
        } else {
            -cross
        }
    }

    /// The direction of step `a` fits the vector better than that of step `b`:
    /// it points to the side of the vector and the other does not, or both do
    /// or neither does and it misses the vector by less.
    pub open spec fn closer(self, a: int, b: int) -> bool {
        let fore_a = self.dot_at(a) > 0;
        let fore_b = self.dot_at(b) > 0;
        (fore_a && !fore_b) || (fore_a == fore_b && self.miss_at(a) < self.miss_at(b))
    }

    /// `k` is the first of the steps than whose direction none fits the vector
    /// better.
    pub open spec fn is_best_step(self, k: int) -> bool {
        &&& 0 <= k < 1000
        &&& forall|j: int| 0 <= j < 1000 ==> !#[trigger] self.closer(j, k)
        &&& forall|j: int| 0 <= j < k ==> #[trigger] self.closer(k, j)
    }

    /// The step that meets [`Vector::is_best_step`].
    pub open spec fn best_step(self) -> int {
        choose|k: int| self.is_best_step(k)
    }

    /// The angle, in `0 <= .. < TAU`, of the table direction that fits the
    /// vector best: the least angle of its best step.
    pub open spec fn heading(self) -> int {
        angle_of_step(self.best_step())
    }

    /// A vector has at most one best step.
    pub proof fn lemma_best_step_unique(self, a: int, b: int)
        requires
            self.is_best_step(a),
            self.is_best_step(b),
        ensures
            a == b,
    {
        if a < b {
            assert(self.closer(b, a));
            assert(!self.closer(b, a));
        } else if b < a {
            assert(self.closer(a, b));
            assert(!self.closer(a, b));
        }
    }

    pub fn new(x: i64, y: i64) -> (r: Self)
        ensures
            r == (Vector { x, y }),
    {
        Self { x, y }
    }

    pub fn zero() -> (r: Self)
        ensures
            r == (Vector { x: 0, y: 0 }),
    {
        Self { x: 0, y: 0 }
    }

    pub fn add(self, rhs: Vector) -> (r: Vector)
        ensures
            r == self.plus(rhs),
    {
        Vector { x: sat_add(self.x, rhs.x), y: sat_add(self.y, rhs.y) }
    }

    pub fn add_assign(&mut self, rhs: Vector)
        ensures
            *final(self) == old(self).plus(rhs),
    {
        self.x = sat_add(self.x, rhs.x);
        self.y = sat_add(self.y, rhs.y);
    }

    pub fn sub(self, rhs: Vector) -> (r: Vector)
        ensures
            r == self.minus(rhs),
    {
        Vector { x: sat_sub(self.x, rhs.x), y: sat_sub(self.y, rhs.y) }
    }

    pub fn mul(self, k: i64) -> (r: Vector)
        ensures
            r == self.times(k as int),
    {
        Vector { x: fx_mul(self.x, k), y: fx_mul(self.y, k) }
    }

    /// Scales by the fraction `n / d` with a single rounding.
    pub fn scale(self, n: i64, d: i64) -> (r: Vector)
        ensures
            r == self.scaled(n as int, d as int),
    {
        Vector { x: mul_div(self.x, n, d), y: mul_div(self.y, n, d) }
    }

    pub fn len(self) -> (r: i64)
        ensures
            r == self.length(),
            r >= 0,
    {
        proof {
            lemma_product_bound(self.x as int, self.x as int);
            lemma_product_bound(self.y as int, self.y as int);
            assert(self.x * self.x >= 0) by (nonlinear_arith);
            assert(self.y * self.y >= 0) by (nonlinear_arith);
        }
        let xx: i128 = (self.x as i128) * (self.x as i128);
        let yy: i128 = (self.y as i128) * (self.y as i128);
        let n: u128 = (xx as u128) + (yy as u128);
        let r: u128 = isqrt(n);
        if r > 9223372036854775807u128 {
            i64::MAX
        } else {
            r as i64
        }
    }

    /// The scalar product and the size of the cross product with the
    /// direction of step `step`.
    fn fit_step(self, step: usize) -> (r: (i128, i128))
        requires
            step < 1000,
        ensures
            r.0 == self.dot_at(step as int),
            r.1 == self.miss_at(step as int),
    {
        let c: i64 = cos_step(step);
        let s: i64 = sin_step(step);
        proof {
            lemma_leg_bound(self.x as int, c as int);
            lemma_leg_bound(self.y as int, s as int);
            lemma_leg_bound(self.x as int, s as int);
            lemma_leg_bound(self.y as int, c as int);
        }
        let dot: i128 = (self.x as i128) * (c as i128) + (self.y as i128) * (s as i128);
        let cross: i128 = (self.x as i128) * (s as i128) - (self.y as i128) * (c as i128);
        (dot, if cross >= 0 { cross } else { -cross })
    }

    /// The angle of the table direction that fits the vector best; zero for
    /// the zero vector.
    pub fn angle(self) -> (r: i64)
        ensures
            r == self.heading(),
            self.is_best_step(step_of(r as int)),
            0 <= r < TAU,
    {
        let mut best: usize = 0;
        let mut fit: (i128, i128) = self.fit_step(0);
        let mut k: usize = 1;
        while k < 1000
            invariant
                1 <= k <= 1000,
                best < k,
                fit.0 == self.dot_at(best as int),
                fit.1 == self.miss_at(best as int),
                forall|j: int| 0 <= j < k ==> !#[trigger] self.closer(j, best as int),
                forall|j: int| 0 <= j < best ==> #[trigger] self.closer(best as int, j),
            decreases 1000 - k,
        {
            let f: (i128, i128) = self.fit_step(k);
            let fore: bool = f.0 > 0;
            let fore_best: bool = fit.0 > 0;
            if (fore && !fore_best) || (fore == fore_best && f.1 < fit.1) {
                assert(self.closer(k as int, best as int));
                assert forall|j: int| 0 <= j < k implies #[trigger] self.closer(k as int, j) by {
                    assert(!self.closer(j, best as int));
                }
                assert forall|j: int| 0 <= j < k + 1 implies !#[trigger] self.closer(
                    j,
                    k as int,
                ) by {
                    if j < k {
                        assert(!self.closer(j, best as int));
                    }
                }
                best = k;
                fit = f;
            } else {
                assert(!self.closer(k as int, best as int));
            }
            k += 1;
        }
        proof {
            assert(self.is_best_step(best as int));
            self.lemma_best_step_unique(best as int, self.best_step());
            lemma_angle_of_step(best as int);
        }
        step_angle(best)
    }

    pub fn norm(self) -> (r: Vector)
        ensures
            r == self.unit(),
    {
        let l: i64 = self.len();
        self.scale(1000, l)
    }
}

/// A coordinate times a sine is at most a thousand times the largest
/// coordinate in size.
proof fn lemma_leg_bound(v: int, s: int)
    requires
        i64::MIN <= v <= i64::MAX,
        -1000 <= s <= 1000,
    ensures
        -0x8000_0000_0000_0000 * 1000 <= v * s <= 0x8000_0000_0000_0000 * 1000,
{
    assert(-0x8000_0000_0000_0000 * 1000 <= v * s <= 0x8000_0000_0000_0000 * 1000)
        by (nonlinear_arith)
        requires
            -0x8000_0000_0000_0000 <= v <= 0x8000_0000_0000_0000,
            -1000 <= s <= 1000,
    ;
}

/// A disc: the hitbox of every entity.
#[derive(Clone, Copy, Debug, PartialEq, Eq, Structural)]
pub struct Circle {
    pub coord: Vector,
    pub r: i64,
}

/// The square of a difference of two coordinates fits in a `u128`.
proof fn lemma_square_bound(d: int)
    requires
        0 <= d <= 0xffff_ffff_ffff_ffff,
    ensures
        0 <= d * d <= 0xffff_ffff_ffff_ffff * 0xffff_ffff_ffff_ffff,
{
    assert(0 <= d * d <= 0xffff_ffff_ffff_ffff * 0xffff_ffff_ffff_ffff) by (nonlinear_arith)
        requires
            0 <= d <= 0xffff_ffff_ffff_ffff,
    ;
}

fn gap(a: i64, b: i64) -> (r: u128)
    ensures
        r * r == (a - b) * (a - b),
        r <= 0xffff_ffff_ffff_ffff,
{
    let d: i128 = a as i128 - b as i128;
    if d < 0 {
        assert((-d) * (-d) == d * d) by (nonlinear_arith);
        (-d) as u128
    } else {
        d as u128
    }
}

impl Circle {
    /// The distance of the two centres is less than the sum of the radii.
    pub open spec fn overlaps(self, other: Circle) -> bool {
        let dx = self.coord.x - other.coord.x;
        let dy = self.coord.y - other.coord.y;
        let reach = self.r + other.r;
        reach > 0 && dx * dx + dy * dy < reach * reach
    }

    /// The centre lies inside the rectangle between `left`, `top`, `right` and
    /// `bottom` after it was widened by the radius on every side.
    pub open spec fn inside(self, left: int, top: int, right: int, bottom: int) -> bool {
        &&& self.coord.x > left - self.r
        &&& self.coord.x < right + self.r
        &&& self.coord.y > top - self.r
        &&& self.coord.y < bottom + self.r
    }

    /// Two discs overlap whichever of them is asked.
    pub proof fn lemma_overlaps_symmetric(self, other: Circle)
        ensures
            self.overlaps(other) == other.overlaps(self),
    {
        let dx = self.coord.x - other.coord.x;
        let dy = self.coord.y - other.coord.y;
        assert((-dx) * (-dx) == dx * dx) by (nonlinear_arith);
        assert((-dy) * (-dy) == dy * dy) by (nonlinear_arith);
        assert(other.coord.x - self.coord.x == -dx);
        assert(other.coord.y - self.coord.y == -dy);
    }

    pub fn new(x: i64, y: i64, r: i64) -> (c: Self)
        ensures
            c == (Circle { coord: Vector { x, y }, r }),
    {
        Self { coord: Vector::new(x, y), r }
    }

    pub fn collides_with(&self, other: &Circle) -> (hit: bool)
        ensures
            hit == self.overlaps(*other),
    {
        let reach: i128 = self.r as i128 + other.r as i128;
        if reach <= 0 {
            return false;
        }
        let dx: u128 = gap(self.coord.x, other.coord.x);
        let dy: u128 = gap(self.coord.y, other.coord.y);
        let rr: u128 = reach as u128;
        proof {
            lemma_square_bound(dx as int);
            lemma_square_bound(dy as int);
            lemma_square_bound(rr as int);
        }
        let dx2: u128 = dx * dx;
        let dy2: u128 = dy * dy;
        let rr2: u128 = rr * rr;
        dx2 < rr2 && dy2 < rr2 - dx2
    }

    pub fn in_bounds(&self, l: i64, t: i64, r: i64, b: i64) -> (ok: bool)
        ensures
            ok == self.inside(l as int, t as int, r as int, b as int),
    {
        let x: i128 = self.coord.x as i128;
        let y: i128 = self.coord.y as i128;
        let rad: i128 = self.r as i128;
        x > l as i128 - rad && x < r as i128 + rad && y > t as i128 - rad && y < b as i128 + rad
    }
}

/// An axis-parallel rectangle, given by its centre and its size.
#[derive(Clone, Copy, Debug, PartialEq, Eq, Structural)]
pub struct Rect {
    pub center: Vector,
    pub size: Vector,
}

impl Rect {
    pub fn new(x: i64, y: i64, w: i64, h: i64) -> (r: Self)
        ensures
            r == (Rect { center: Vector { x, y }, size: Vector { x: w, y: h } }),
    {
        Self { center: Vector::new(x, y), size: Vector::new(w, h) }
    }

    /// The rectangle about the same centre, scaled so that its width becomes
    /// `new_width` and its proportions stay.
    pub fn with_width(self, new_width: i64) -> (r: Self)
        ensures
            r == (Rect {
                center: self.center,
                size: self.size.scaled(new_width as int, self.size.x as int),
            }),
    {
        Self { center: self.center, size: self.size.scale(new_width, self.size.x) }
    }
}

} // verus!
