//! The scene over exact decimal numbers.

use aviator::camera::perspective;
use aviator::camera::view_from;
use aviator::cube::Cube;
use aviator::cylinder::control_points;
use aviator::cylinder::Cylinder;
use aviator::fixed::Fixed;
use aviator::fixed::LIMIT;
use aviator::geom::matrix_multi;
use aviator::plane::Plane;
use aviator::scalar::Scalar;
use aviator::transform::compose;
use aviator::transform::identity;
use aviator::transform::rotation;
use aviator::transform::scaling;
use aviator::transform::translation;

fn fx(milli: i64) -> Fixed {
    Fixed { milli }
}

type Matrix = [[Fixed; 4]; 4];

fn dot3(a: [Fixed; 3], b: [Fixed; 3]) -> Fixed {
    a[0].times(b[0]).plus(a[1].times(b[1])).plus(a[2].times(b[2]))
}

fn determinant(m: &Matrix) -> Fixed {
    let minor = |a: Fixed, b: Fixed, c: Fixed, d: Fixed| a.times(d).minus(b.times(c));
    m[0][0]
        .times(minor(m[1][1], m[1][2], m[2][1], m[2][2]))
        .minus(m[0][1].times(minor(m[1][0], m[1][2], m[2][0], m[2][2])))
        .plus(m[0][2].times(minor(m[1][0], m[1][1], m[2][0], m[2][1])))
}

#[test]
fn fixed_constants() {
    assert_eq!(Fixed::zero(), fx(0));
    assert_eq!(Fixed::one(), fx(1000));
    assert_eq!(Fixed::from_milli(410), fx(410));
    assert_eq!(Fixed::from_milli(-700), fx(-700));
    assert_eq!(Fixed::from_milli(i32::MIN), fx(-2147483648));
}

#[test]
fn fixed_sums_are_exact() {
    assert_eq!(fx(1500).plus(fx(2250)), fx(3750));
    assert_eq!(fx(1500).minus(fx(2250)), fx(-750));
    assert_eq!(fx(1500).negated(), fx(-1500));
    assert_eq!(fx(-1).negated(), fx(1));
}

#[test]
fn fixed_products_round_toward_zero() {
    assert_eq!(fx(1500).times(fx(2000)), fx(3000));
    assert_eq!(fx(1500).times(fx(1)), fx(1));
    assert_eq!(fx(-1500).times(fx(1)), fx(-1));
    assert_eq!(fx(1500).times(fx(-1)), fx(-1));
    assert_eq!(fx(-1500).times(fx(-1)), fx(1));
    assert_eq!(fx(999).times(fx(1)), fx(0));
    assert_eq!(fx(-999).times(fx(1)), fx(0));
    assert_eq!(fx(333).times(fx(3000)), fx(999));
    assert_eq!(fx(123456).times(fx(1000)), fx(123456));
}

#[test]
fn fixed_holds_at_its_limit() {
    assert_eq!(LIMIT, i64::MAX);
    assert_eq!(fx(LIMIT).plus(fx(1)), fx(LIMIT));
    assert_eq!(fx(-LIMIT).minus(fx(1)), fx(-LIMIT));
    assert_eq!(fx(-LIMIT).plus(fx(-LIMIT)), fx(-LIMIT));
    assert_eq!(fx(LIMIT).times(fx(2000)), fx(LIMIT));
    assert_eq!(fx(LIMIT).times(fx(-2000)), fx(-LIMIT));
    assert_eq!(fx(LIMIT).times(fx(LIMIT)), fx(LIMIT));
    assert_eq!(fx(i64::MIN).times(fx(i64::MIN)), fx(LIMIT));
    assert_eq!(fx(i64::MIN).negated(), fx(LIMIT));
    assert_eq!(fx(i64::MIN).plus(fx(0)), fx(-LIMIT));
    assert_eq!(fx(LIMIT).negated(), fx(-LIMIT));
    assert_eq!(fx(LIMIT).times(fx(500)), fx(4611686018427387903));
}

#[test]
fn fixed_obeys_the_laws() {
    let values = [0, 1, -1, 7, 999, 1000, -1000, 600, -800, 123456789, -987654321, LIMIT, -LIMIT];
    for &a in values.iter() {
        let a = fx(a);
        assert_eq!(a.plus(Fixed::zero()), a);
        assert_eq!(Fixed::zero().plus(a), a);
        assert_eq!(a.times(Fixed::zero()), Fixed::zero());
        assert_eq!(a.times(Fixed::one()), a);
        assert_eq!(Fixed::one().times(a), a);
        assert_eq!(a.negated().negated(), a);
        assert_eq!(a.plus(a.negated()), Fixed::zero());
        for &b in values.iter() {
            let b = fx(b);
            assert_eq!(a.plus(b), b.plus(a));
            assert_eq!(a.times(b), b.times(a));
            assert_eq!(a.negated().times(b), a.times(b).negated());
            assert_eq!(a.times(b.negated()), a.times(b).negated());
            assert_eq!(a.minus(b), a.plus(b.negated()));
        }
    }
}

#[test]
fn fixed_products_do_not_reassociate() {
    // 0.001 * 0.5 is rounded to nothing before it is doubled.
    assert_eq!(fx(1).times(fx(500)).times(fx(2000)), fx(0));
    assert_eq!(fx(1).times(fx(500).times(fx(2000))), fx(1));
}

#[test]
fn fixed_product_of_matrices() {
    let s: Matrix = scaling(fx(2000), fx(3000), fx(4000));
    let t: Matrix = translation(fx(5000), fx(6000), fx(7000));
    let o = fx(0);
    let l = fx(1000);
    assert_eq!(
        matrix_multi(&s, &t),
        [
            [fx(2000), o, o, o],
            [o, fx(3000), o, o],
            [o, o, fx(4000), o],
            [fx(5000), fx(6000), fx(7000), l]
        ]
    );
    assert_eq!(
        matrix_multi(&t, &s),
        [
            [fx(2000), o, o, o],
            [o, fx(3000), o, o],
            [o, o, fx(4000), o],
            [fx(10000), fx(18000), fx(28000), l]
        ]
    );
}

#[test]
fn fixed_rotation_is_orthonormal() {
    // 0.6 and 0.8, 0 and 1: squares that add up to one to the thousandth.
    for (c, s) in [(600, 800), (0, 1000), (1000, 0), (-800, 600), (-600, -800)] {
        let (c, s) = (fx(c), fx(s));
        assert_eq!(c.times(c).plus(s.times(s)), Fixed::one());
        for xyz in 0..4 {
            let r: Matrix = rotation(c, s, xyz);
            for i in 0..3 {
                for j in 0..3 {
                    let expected = if i == j { Fixed::one() } else { Fixed::zero() };
                    let rows = dot3([r[i][0], r[i][1], r[i][2]], [r[j][0], r[j][1], r[j][2]]);
                    let columns = dot3([r[0][i], r[1][i], r[2][i]], [r[0][j], r[1][j], r[2][j]]);
                    assert_eq!(rows, expected);
                    assert_eq!(columns, expected);
                }
            }
            assert_eq!(determinant(&r), Fixed::one());
        }
    }
}

#[test]
fn fixed_origin_lands_on_the_offset() {
    let s: Matrix = scaling(fx(2500), fx(-300), fx(7));
    let t: Matrix = translation(fx(5000), fx(-6250), fx(1));
    let p: Matrix = identity();
    for xyz in 0..4 {
        let r: Matrix = rotation(fx(123), fx(-456), xyz);
        let model = compose(&s, &r, &t, &p);
        assert_eq!(model[3], [fx(5000), fx(-6250), fx(1), fx(1000)]);
    }
}

#[test]
fn fixed_node_composes_in_order() {
    let mut cube: Cube<Fixed> = Cube::new();
    cube.set_scale(fx(2000), fx(1000), fx(1000));
    cube.set_position(fx(5000), fx(0), fx(0));
    let o = fx(0);
    let l = fx(1000);
    assert_eq!(
        cube.compute_model(),
        [[fx(2000), o, o, o], [o, l, o, o], [o, o, l, o], [fx(5000), o, o, l]]
    );
    cube.set_pmodel(&translation(fx(0), fx(250), fx(0)));
    assert_eq!(cube.draw().model[3], [fx(5000), fx(250), o, l]);
    assert_eq!(cube.shape[0].position, [fx(-500), fx(500), fx(-500)]);
    assert_eq!(cube.normals[0].normal, [o, o, fx(-1000)]);
}

#[test]
fn fixed_still_water() {
    let mut circle = [[fx(0); 2]; 40];
    for i in 0..40 {
        circle[i] = [fx(10 * i as i64), fx(-3 * i as i64)];
    }
    let vertex = control_points(&circle);
    assert_eq!(vertex[0].position[2], fx(-500));
    assert_eq!(vertex[4].position[2], fx(-100));
    assert_eq!(vertex[10].position[2], fx(500));
    assert_eq!(vertex[439].position, [fx(390), fx(-117), fx(500)]);
    let mut sea = Cylinder::from_parts(vertex.clone(), [[fx(250), fx(0), fx(20)]; 440]);
    let trig = [[fx(600), fx(800)]; 440];
    sea.wave_by(&trig);
    assert_eq!(sea.vertex, vertex);
    assert_eq!(sea.waves, [[fx(270), fx(0), fx(20)]; 440]);
}

#[test]
fn fixed_wave() {
    let mut circle = [[fx(0); 2]; 40];
    for i in 0..40 {
        circle[i] = [fx(1000), fx(0)];
    }
    let mut sea = Cylinder::from_parts(control_points(&circle), [[fx(0), fx(40), fx(16)]; 440]);
    sea.wave_by(&[[fx(600), fx(-800)]; 440]);
    assert_eq!(sea.vertex[7].position, [fx(1024), fx(-32), fx(200)]);
    assert_eq!(sea.waves[7], [fx(16), fx(40), fx(16)]);
    sea.wave_by(&[[fx(600), fx(-800)]; 440]);
    assert_eq!(sea.vertex[7].position, [fx(1048), fx(-64), fx(200)]);
    assert_eq!(sea.waves[7], [fx(32), fx(40), fx(16)]);
    assert_eq!(sea.mesh.0[2], sea.vertex[0]);
    assert_eq!(sea.mesh.0[0], sea.vertex[12]);
}

#[test]
fn fixed_plane() {
    let mut plane: Plane<Fixed> = Plane::new();
    assert_eq!(plane.tail.scale, scaling(fx(300), fx(400), fx(100)));
    assert_eq!(plane.tail.position, translation(fx(-700), fx(500), fx(0)));
    assert_eq!(plane.tail.color, [fx(950), fx(330), fx(270)]);
    plane.set_scale(fx(200), fx(200), fx(200));
    plane.set_position(fx(0), fx(1000), fx(0));
    let calls = plane.draw();
    // The tail's own offset, scaled with the aeroplane and moved with it.
    assert_eq!(calls[3].model[3], [fx(-140), fx(1100), fx(0), fx(1000)]);
    assert_eq!(calls[3].model[0][0], fx(60));
    assert_eq!(calls[3].color, [fx(950), fx(330), fx(270)]);
}

#[test]
fn fixed_quotients_round_toward_zero() {
    assert_eq!(fx(3000).divided(fx(2000)), fx(1500));
    assert_eq!(fx(1000).divided(fx(3000)), fx(333));
    assert_eq!(fx(-1000).divided(fx(3000)), fx(-333));
    assert_eq!(fx(1000).divided(fx(-3000)), fx(-333));
    assert_eq!(fx(-1000).divided(fx(-3000)), fx(333));
    assert_eq!(fx(2000).divided(fx(3000)), fx(666));
    assert_eq!(fx(0).divided(fx(-5)), fx(0));
    assert_eq!(fx(7).divided(fx(1000)), fx(7));
    assert_eq!(fx(1).divided(fx(2000)), fx(0));
}

#[test]
fn fixed_quotient_by_zero_is_held_at_the_limit() {
    assert_eq!(fx(1).divided(fx(0)), fx(LIMIT));
    assert_eq!(fx(-1).divided(fx(0)), fx(-LIMIT));
    assert_eq!(fx(0).divided(fx(0)), fx(0));
    assert_eq!(fx(LIMIT).divided(fx(1)), fx(LIMIT));
    assert_eq!(fx(LIMIT).divided(fx(-1)), fx(-LIMIT));
    assert_eq!(fx(i64::MIN).divided(fx(1000)), fx(-LIMIT));
    assert_eq!(fx(i64::MIN).divided(fx(i64::MIN)), fx(1000));
}

#[test]
fn fixed_view() {
    let view = view_from(
        &[fx(1000), fx(2000), fx(3000)],
        &[fx(0), fx(0), fx(4000)],
        &[fx(0), fx(1000), fx(0)],
        fx(2000),
        fx(4000),
    );
    let o = fx(0);
    assert_eq!(
        view,
        [
            [fx(500), o, o, o],
            [o, fx(1000), o, o],
            [o, o, fx(2000), o],
            [fx(-500), fx(-2000), fx(-6000), fx(1000)]
        ]
    );
}

#[test]
fn fixed_perspective() {
    let m = perspective(fx(500));
    let o = fx(0);
    // (1024 + 0.1) / (1024 - 0.1) and -(2 * 1024 * 0.1) / (1024 - 0.1), to
    // the thousandth.
    assert_eq!(
        m,
        [
            [fx(1500), o, o, o],
            [o, fx(2000), o, o],
            [o, o, fx(1000), fx(1000)],
            [o, o, fx(-200), o]
        ]
    );
}
