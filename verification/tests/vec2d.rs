use nbody::vec2d::Vec2d;

fn vector(x: f64, y: f64) -> Vec2d {
    Vec2d::new(x.to_bits(), y.to_bits())
}

fn x_of(v: &Vec2d) -> f64 {
    f64::from_bits(v.get_x())
}

fn y_of(v: &Vec2d) -> f64 {
    f64::from_bits(v.get_y())
}

#[test]
fn vec2d_test_new() {
    let v1 = vector(20.0, 5.0);
    assert_eq!(x_of(&v1), 20.0);
    assert_eq!(y_of(&v1), 5.0)
}

#[test]
fn test_add() {
    let v1 = vector(1.0, 2.0);
    let v2 = vector(3.0, 4.0);
    let v3 = v1 + v2;
    assert_eq!(x_of(&v3), 4.0);
    assert_eq!(y_of(&v3), 6.0);
}

#[test]
fn test_sub() {
    let v1 = vector(0.0, 1.0);
    let v2 = vector(5.0, -10.0);
    let v3 = v1 - v2;
    assert_eq!(x_of(&v3), -5.0);
    assert_eq!(y_of(&v3), 11.0);
}

#[test]
fn test_dist_sq() {
    let v1 = vector(5.0, 4.0);
    let v2 = vector(1.0, 2.0);
    let result = f64::from_bits(v1.dist_sq(&v2));
    assert_eq!(20.0, result);
    let result = f64::from_bits(v2.dist_sq(&v1));
    assert_eq!(20.0, result);
}

#[test]
fn test_length_sq() {
    let v1 = vector(0.0, 0.0);
    assert_eq!(0.0, f64::from_bits(v1.length_sq()),);
    let v2 = vector(3.0, 4.0);
    assert_eq!(25.0, f64::from_bits(v2.length_sq()),);
}

#[test]
fn test_normalized() {
    let v1 = vector(0.0, 0.0).normalized();
    assert_eq!(0.0, x_of(&v1));
    assert_eq!(0.0, y_of(&v1));
    let v2 = vector(3.0, 4.0).normalized();
    assert_eq!(0.6, x_of(&v2));
    assert_eq!(0.8, y_of(&v2));
}

#[test]
fn test_mul() {
    let mut v1 = vector(101.0, 121.0);
    v1 = v1 * 2.0f64.to_bits();
    assert_eq!(202.0, x_of(&v1));
    assert_eq!(242.0, y_of(&v1));
}

#[test]
fn setters_replace_one_coordinate() {
    let mut v = vector(1.5, -2.5);
    v.set_x(7.0f64.to_bits());
    assert_eq!(x_of(&v), 7.0);
    assert_eq!(y_of(&v), -2.5);
    v.set_y(9.25f64.to_bits());
    assert_eq!(x_of(&v), 7.0);
    assert_eq!(y_of(&v), 9.25);
}

#[test]
fn new_keeps_the_bits() {
    let v = Vec2d::new((-0.0f64).to_bits(), f64::INFINITY.to_bits());
    assert_eq!(v.get_x(), 0x8000_0000_0000_0000);
    assert_eq!(v.get_y(), 0x7ff0_0000_0000_0000);
}

const SAMPLES: [f64; 14] = [
    0.0,
    -0.0,
    1.0,
    -1.0,
    3.0,
    4.0,
    0.1,
    -7.25,
    1.0e7,
    -2.5e-9,
    6.02e23,
    1.0e-160,
    4.9e-324,
    1.7e308,
];

#[test]
fn dist_sq_is_symmetric() {
    for &ax in SAMPLES.iter() {
        for &ay in SAMPLES.iter() {
            for &bx in SAMPLES.iter() {
                for &by in [0.0, -3.5, 2.0e5].iter() {
                    let a = vector(ax, ay);
                    let b = vector(bx, by);
                    assert_eq!(a.dist_sq(&b), b.dist_sq(&a));
                }
            }
        }
    }
}

#[test]
fn dist_sq_is_the_formula() {
    for &ax in SAMPLES.iter() {
        for &ay in SAMPLES.iter() {
            for &bx in SAMPLES.iter() {
                for &by in [0.0, -3.5, 2.0e5].iter() {
                    let expected = (bx - ax) * (bx - ax) + (by - ay) * (by - ay);
                    let got = vector(ax, ay).dist_sq(&vector(bx, by));
                    assert_eq!(got, expected.to_bits());
                }
            }
        }
    }
}

#[test]
fn length_sq_is_never_negative() {
    for &x in SAMPLES.iter() {
        for &y in SAMPLES.iter() {
            let l = vector(x, y).length_sq();
            assert!(f64::from_bits(l) >= 0.0);
            assert_eq!(l, (x * x + y * y).to_bits());
        }
    }
    assert_eq!(vector(0.0, 0.0).length_sq(), 0);
}

#[test]
fn add_sub_and_scale_are_componentwise() {
    for &ax in SAMPLES.iter() {
        for &ay in SAMPLES.iter() {
            for &bx in SAMPLES.iter() {
                let by = 0.75;
                let s = vector(ax, ay) + vector(bx, by);
                assert_eq!(s.get_x(), (ax + bx).to_bits());
                assert_eq!(s.get_y(), (ay + by).to_bits());
                let d = vector(ax, ay) - vector(bx, by);
                assert_eq!(d.get_x(), (ax - bx).to_bits());
                assert_eq!(d.get_y(), (ay - by).to_bits());
                let m = vector(ax, ay) * bx.to_bits();
                assert_eq!(m.get_x(), (ax * bx).to_bits());
                assert_eq!(m.get_y(), (ay * bx).to_bits());
            }
        }
    }
}

#[test]
fn normalized_divides_by_the_length() {
    for &x in SAMPLES.iter() {
        for &y in SAMPLES.iter() {
            let l2 = x * x + y * y;
            let n = vector(x, y).normalized();
            if l2 > 0.0 {
                let l = l2.sqrt();
                let (ex, ey) = (x / l, y / l);
                if ex.is_nan() {
                    assert!(x_of(&n).is_nan());
                } else {
                    assert_eq!(n.get_x(), ex.to_bits());
                }
                if ey.is_nan() {
                    assert!(y_of(&n).is_nan());
                } else {
                    assert_eq!(n.get_y(), ey.to_bits());
                }
            } else {
                assert_eq!(n.get_x(), 0);
                assert_eq!(n.get_y(), 0);
            }
        }
    }
}

#[test]
fn normalized_has_length_one() {
    let n = vector(-5.0, 12.0).normalized();
    assert_eq!(x_of(&n), -5.0 / 13.0);
    assert_eq!(y_of(&n), 12.0 / 13.0);
    assert!((f64::from_bits(n.length_sq()) - 1.0).abs() < 1.0e-15);
}

#[test]
fn normalized_guards_the_zero_vector() {
    let n = vector(-0.0, 0.0).normalized();
    assert_eq!(n.get_x(), 0);
    assert_eq!(n.get_y(), 0);
    // a squared length that underflows to zero has no direction either
    let tiny = vector(1.0e-200, 0.0).normalized();
    assert_eq!(tiny.get_x(), 0);
    assert_eq!(tiny.get_y(), 0);
}

#[test]
fn normalized_of_a_nan_is_the_origin() {
    let n = vector(f64::NAN, 1.0).normalized();
    assert_eq!(n.get_x(), 0);
    assert_eq!(n.get_y(), 0);
}

#[test]
fn vectors_are_copied_by_value() {
    let a = vector(1.0, 2.0);
    let mut b = a;
    b.set_x(5.0f64.to_bits());
    assert_eq!(x_of(&a), 1.0);
    assert_eq!(x_of(&b), 5.0);
    let c = a.clone();
    assert_eq!(c.get_x(), a.get_x());
    assert_eq!(c.get_y(), a.get_y());
}

#[test]
fn over_length_divides_by_the_root() {
    let v = vector(6.0, -8.0);
    let n = v.over_length(4.0f64.to_bits());
    assert_eq!(x_of(&n), 3.0);
    assert_eq!(y_of(&n), -4.0);
    let m = v.over_length(2.0f64.to_bits());
    assert_eq!(x_of(&m), 6.0 / 2.0f64.sqrt());
    assert_eq!(y_of(&m), -8.0 / 2.0f64.sqrt());
    let inf = v.over_length(f64::INFINITY.to_bits());
    assert_eq!((inf.get_x(), inf.get_y()), (0.0f64.to_bits(), (-0.0f64).to_bits()));
}

#[test]
fn over_length_guards_what_is_not_positive() {
    let v = vector(6.0, -8.0);
    for &l2 in [0.0, -0.0, -1.0, f64::NEG_INFINITY, f64::NAN, -f64::NAN].iter() {
        let n = v.over_length(f64::to_bits(l2));
        assert_eq!((n.get_x(), n.get_y()), (0, 0));
    }
}

/// A pseudo-random number whose exponent field lies between `low` and `high`.
fn sample(state: &mut u64, low: u64, high: u64) -> f64 {
    let mut draw = || {
        *state ^= *state << 13;
        *state ^= *state >> 7;
        *state ^= *state << 17;
        *state
    };
    let fraction_and_sign = draw() & 0x800f_ffff_ffff_ffff;
    let exponent = low + draw() % (high - low + 1);
    f64::from_bits(fraction_and_sign | (exponent << 52))
}

fn same_bits_or_both_nan(expected: f64, got: u64) -> bool {
    if expected.is_nan() {
        f64::from_bits(got).is_nan()
    } else {
        expected.to_bits() == got
    }
}

fn compare_over_length(low_v: u64, high_v: u64, low_l: u64, high_l: u64) {
    let mut state = 0x2545_f491_4f6c_dd1du64;
    for _ in 0..20000 {
        let x = sample(&mut state, low_v, high_v);
        let y = sample(&mut state, low_v, high_v);
        let l2 = sample(&mut state, low_l, high_l);
        let n = vector(x, y).over_length(l2.to_bits());
        if l2 > 0.0 {
            let l = l2.sqrt();
            assert!(same_bits_or_both_nan(x / l, n.get_x()), "{:e} / sqrt({:e})", x, l2);
            assert!(same_bits_or_both_nan(y / l, n.get_y()), "{:e} / sqrt({:e})", y, l2);
        } else {
            assert_eq!((n.get_x(), n.get_y()), (0, 0));
        }
    }
}

#[test]
fn roots_and_quotients_agree_on_ordinary_numbers() {
    compare_over_length(900, 1100, 900, 1100);
}

#[test]
fn roots_and_quotients_agree_over_the_whole_range() {
    compare_over_length(0, 2047, 0, 2047);
}

#[test]
fn roots_and_quotients_agree_on_subnormal_numbers() {
    compare_over_length(0, 1, 0, 1);
    compare_over_length(1, 60, 2000, 2046);
}
