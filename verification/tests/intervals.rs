use isokeys::points::{BasisVector, Interval, Point, point_to_interval};

#[test]
fn interval_at_the_origin_is_zero() {
    assert_eq!(point_to_interval(&BasisVector(3, 4), &Point(0, 0)), Interval(0));
}

#[test]
fn interval_one_step_away() {
    assert_eq!(point_to_interval(&BasisVector(3, 4), &Point(0, 1)), Interval(3));
    assert_eq!(point_to_interval(&BasisVector(3, 4), &Point(-1, 0)), Interval(-1));
    assert_eq!(point_to_interval(&BasisVector(3, 4), &Point(1, 0)), Interval(1));
    assert_eq!(point_to_interval(&BasisVector(3, 4), &Point(0, -1)), Interval(-3));
    assert_eq!(point_to_interval(&BasisVector(3, 4), &Point(-1, -1)), Interval(-4));
    assert_eq!(point_to_interval(&BasisVector(3, 4), &Point(1, 1)), Interval(4));
}

#[test]
fn interval_several_step_away() {
    assert_eq!(point_to_interval(&BasisVector(3, 4), &Point(0, 2)), Interval(6));
    assert_eq!(point_to_interval(&BasisVector(3, 4), &Point(0, -2)), Interval(-6));
    assert_eq!(point_to_interval(&BasisVector(3, 4), &Point(2, 0)), Interval(2));
    assert_eq!(point_to_interval(&BasisVector(3, 4), &Point(-2, 0)), Interval(-2));
    assert_eq!(point_to_interval(&BasisVector(3, 4), &Point(1, 2)), Interval(7));
    assert_eq!(point_to_interval(&BasisVector(3, 4), &Point(3, 1)), Interval(6));
    assert_eq!(point_to_interval(&BasisVector(3, 4), &Point(-3, 1)), Interval(0));
    assert_eq!(point_to_interval(&BasisVector(3, 4), &Point(-3, -1)), Interval(-6));
    assert_eq!(point_to_interval(&BasisVector(3, 4), &Point(-1, 2)), Interval(5));
}

#[test]
fn interval_is_linear_in_the_point() {
    // offset(B, p + q) == offset(B, p) + offset(B, q) on concrete vectors.
    let b = BasisVector(3, 4);
    let cases = [((1i8, 2i8), (2i8, -1i8)), ((0, 1), (1, 0)), ((-3, 1), (2, 2))];
    for ((pu, pv), (qu, qv)) in cases {
        let Interval(p_off) = point_to_interval(&b, &Point(pu, pv));
        let Interval(q_off) = point_to_interval(&b, &Point(qu, qv));
        let Interval(sum_off) = point_to_interval(&b, &Point(pu + qu, pv + qv));
        assert_eq!(sum_off, p_off + q_off);
    }
}
