use bullet_hell::enemies::trajectories::{
    AnyTrajectory, CircleTrajectory, CombinatorTrajectory, FromToTrajectory, StayTrajectory,
};
use bullet_hell::enemies::Trajectory;
use bullet_hell::geometry::{Circle, Vector};
use bullet_hell::trig::NORM_SLACK;

#[test]
fn stay_is_the_same_at_all_times() {
    let t = StayTrajectory::new(Vector::new(5, -7));
    for time in [0, 1, 1000, i64::MAX] {
        assert_eq!(t.location(time), Vector::new(5, -7));
    }
}

#[test]
fn from_to_starts_at_from_and_reaches_to() {
    let t = FromToTrajectory::new(Vector::new(0, -800_000), Vector::new(0, -400_000), 3000);
    assert_eq!(t.from, Vector::new(0, -800_000));
    assert_eq!(t.delta, Vector::new(0, 400_000));
    assert_eq!(t.location(0), Vector::new(0, -800_000));
    assert_eq!(t.location(3000), Vector::new(0, -400_000));
    assert_eq!(t.location(1500), Vector::new(0, -600_000));
    assert_eq!(t.location(1000), Vector::new(0, -666_667));
}

#[test]
fn from_to_extrapolates_past_its_duration() {
    let t = FromToTrajectory::new(Vector::new(100_000, 0), Vector::new(200_000, 50_000), 1000);
    assert_eq!(t.location(2000), Vector::new(300_000, 100_000));
    assert_eq!(t.location(3500), Vector::new(450_000, 175_000));
}

#[test]
fn from_to_does_not_fault_far_out() {
    let t = FromToTrajectory::new(Vector::new(0, 0), Vector::new(i64::MAX, i64::MIN), 1);
    assert_eq!(t.location(i64::MAX), Vector::new(i64::MAX, i64::MIN));
    let still = FromToTrajectory::new(Vector::new(1, 2), Vector::new(3, 4), 0);
    assert_eq!(still.location(0), Vector::new(1, 2));
    assert_eq!(still.location(5), Vector::new(i64::MAX, i64::MAX));
}

#[test]
fn circle_starts_above_the_centre() {
    let t = CircleTrajectory::new(Circle::new(0, -200_000, 200_000), 0, 2000);
    assert_eq!(t.location(0), Vector::new(0, 0));
}

#[test]
fn circle_follows_sine_and_cosine() {
    let t = CircleTrajectory::new(Circle::new(10_000, 20_000, 100_000), 0, 1000);
    // one radian: sine 0.841, cosine 0.541
    assert_eq!(t.location(1000), Vector::new(94_100, 74_100));
    let fast = CircleTrajectory::new(Circle::new(10_000, 20_000, 100_000), 500, 500);
    // half a radian of offset and half a radian per second
    assert_eq!(fast.location(1000), Vector::new(94_100, 74_100));
    let quarter = CircleTrajectory::new(Circle::new(0, 0, 100_000), 1571, 0);
    assert_eq!(quarter.location(123_456), Vector::new(100_000, 0));
}

#[test]
fn circle_location_lies_at_the_radius_from_the_centre() {
    let centre = Vector::new(-100_000, -250_000);
    for r in [0i64, 1, 999, 150_000, 250_000, 1_000_000_000] {
        let t = CircleTrajectory::new(Circle::new(centre.x, centre.y, r), 1571, 1000);
        for time in (0..20_000).step_by(37) {
            let p = t.location(time);
            let dx = (p.x - centre.x) as i128;
            let dy = (p.y - centre.y) as i128;
            let rr = (r as i128) * (r as i128);
            let slack = (NORM_SLACK as i128) * rr + 4_000_000 * (r as i128) + 2_000_000;
            let off = 1_000_000 * (dx * dx + dy * dy) - 1_000_000 * rr;
            assert!(-slack <= off && off <= slack, "r {r} time {time}");
        }
    }
}

#[test]
fn circle_location_is_close_to_the_radius_in_length() {
    let t = CircleTrajectory::new(Circle::new(0, 0, 200_000), 0, 2000);
    for time in (0..7000).step_by(13) {
        let d = t.location(time).len();
        assert!((199_800..=200_200).contains(&d), "time {time} distance {d}");
    }
}

#[test]
fn combinator_adds_two_trajectories() {
    let a = StayTrajectory::new(Vector::new(1000, 2000));
    let b = FromToTrajectory::new(Vector::new(0, 0), Vector::new(10_000, 0), 1000);
    let c = CombinatorTrajectory::new(a, b);
    assert_eq!(c.location(0), Vector::new(1000, 2000));
    assert_eq!(c.location(500), Vector::new(6000, 2000));
}

#[test]
fn any_trajectory_follows_its_variant() {
    let stay = StayTrajectory::new(Vector::new(1000, 2000));
    let line = FromToTrajectory::new(Vector::new(0, 0), Vector::new(10_000, 0), 1000);
    let ring = CircleTrajectory::new(Circle::new(0, 0, 100_000), 0, 1000);
    assert_eq!(AnyTrajectory::Stay(stay).location(77), stay.location(77));
    assert_eq!(AnyTrajectory::FromTo(line).location(77), line.location(77));
    assert_eq!(AnyTrajectory::Circle(ring).location(77), ring.location(77));
    let sum = AnyTrajectory::Combinator(
        Box::new(AnyTrajectory::Circle(ring)),
        Box::new(AnyTrajectory::Combinator(
            Box::new(AnyTrajectory::Stay(stay)),
            Box::new(AnyTrajectory::FromTo(line)),
        )),
    );
    assert_eq!(sum.location(1000), Vector::new(84_100 + 1000 + 10_000, 54_100 + 2000));
}

#[test]
fn a_copy_of_a_trajectory_goes_the_same_way() {
    let t = AnyTrajectory::Combinator(
        Box::new(AnyTrajectory::Circle(CircleTrajectory::new(Circle::new(0, 0, 100_000), 3, 7))),
        Box::new(AnyTrajectory::Stay(StayTrajectory::new(Vector::new(5, 5)))),
    );
    let copy = t.duplicate();
    let clone = t.clone();
    for time in [0, 10, 1000, 55_555] {
        assert_eq!(copy.location(time), t.location(time));
        assert_eq!(clone.location(time), t.location(time));
    }
}
