//! The camera: where the scene is seen from, and how it is projected.

use crate::geom::cross;
use crate::geom::cross_spec;
use crate::scalar::Elementary;
use crate::scalar::Scalar;
use vstd::prelude::*;

verus! {

/// The two matrices of a camera.
pub struct Camera<S> {
    /// The matrix that takes world space to the space of the camera.
    pub view: [[S; 4]; 4],
    /// The matrix that projects the space of the camera.
    pub perspective: [[S; 4]; 4],
}

/// The square of the length of `v`.
pub open spec fn length_square_spec<S: Scalar>(v: [S; 3]) -> S {
    v[0].times_spec(v[0]).plus_spec(v[1].times_spec(v[1])).plus_spec(v[2].times_spec(v[2]))
}

/// The vector `v` with each coordinate divided by `len`.
pub open spec fn shrunk_spec<S: Scalar>(v: [S; 3], len: S) -> [S; 3] {
    [v[0].divided_spec(len), v[1].divided_spec(len), v[2].divided_spec(len)]
}

/// How far `position` lies behind the origin along `axis`: the opposite of
/// their scalar product.
pub open spec fn behind_spec<S: Scalar>(position: [S; 3], axis: [S; 3]) -> S {
    position[0].negated_spec().times_spec(axis[0]).minus_spec(
        position[1].times_spec(axis[1]),
    ).minus_spec(position[2].times_spec(axis[2]))
}

/// The forward axis of a camera that looks along `direction`, whose length
/// was found to be `len`.
pub open spec fn forward_spec<S: Scalar>(direction: [S; 3], len: S) -> [S; 3] {
    shrunk_spec(direction, len)
}

/// The sideward axis of the camera before it is brought to length one.
pub open spec fn side_spec<S: Scalar>(direction: [S; 3], up: [S; 3], len: S) -> [S; 3] {
    cross_spec(up, forward_spec(direction, len))
}

/// The view matrix of a camera at `position` that looks along `direction`,
/// with `up` upward, where the length of the direction was found to be
/// `forward_len` and that of the sideward axis `side_len`.
///
/// The columns of its linear part are the sideward, the upward and the
/// forward axis of the camera; the last row moves `position` to the origin.
pub open spec fn view_spec<S: Scalar>(
    position: [S; 3],
    direction: [S; 3],
    up: [S; 3],
    forward_len: S,
    side_len: S,
) -> [[S; 4]; 4] {
    let o = S::zero_spec();
    let l = S::one_spec();
    let f = forward_spec(direction, forward_len);
    let s = shrunk_spec(side_spec(direction, up, forward_len), side_len);
    let u = cross_spec(f, s);
    [
        [s[0], u[0], f[0], o],
        [s[1], u[1], f[1], o],
        [s[2], u[2], f[2], o],
        [behind_spec(position, s), behind_spec(position, u), behind_spec(position, f), l],
    ]
}

/// The direction that is upward for an upright camera: the y axis.
pub open spec fn upright_spec<S: Scalar>() -> [S; 3] {
    [S::zero_spec(), S::one_spec(), S::zero_spec()]
}

/// Half the angle that the camera sees, from top to bottom: a sixth of
/// 3.141592.
pub open spec fn half_angle_spec<S: Scalar>() -> S {
    S::milli_spec(3141592i32).divided_spec(S::milli_spec(3000000i32)).divided_spec(
        S::milli_spec(2000i32),
    )
}

/// The perspective matrix of a camera that sees an angle whose half has the
/// tangent `tangent`, in a window three quarters as high as it is wide, from
/// the depth 0.1 to the depth 1024.
pub open spec fn perspective_spec<S: Scalar>(tangent: S) -> [[S; 4]; 4] {
    let o = S::zero_spec();
    let l = S::one_spec();
    let aspect_ratio = S::milli_spec(750i32);
    let zfar = S::milli_spec(1024000i32);
    let znear = S::milli_spec(100i32);
    let f = l.divided_spec(tangent);
    [
        [f.times_spec(aspect_ratio), o, o, o],
        [o, f, o, o],
        [o, o, zfar.plus_spec(znear).divided_spec(zfar.minus_spec(znear)), l],
        [
            o,
            o,
            S::milli_spec(2000i32).times_spec(zfar).times_spec(znear).negated_spec().divided_spec(
                zfar.minus_spec(znear),
            ),
            o,
        ],
    ]
}

/// The square of the length of a vector.
pub fn length_square<S: Scalar>(v: &[S; 3]) -> (r: S)
    ensures
        r == length_square_spec(*v),
{
    v[0].times(v[0]).plus(v[1].times(v[1])).plus(v[2].times(v[2]))
}

/// Divides each coordinate of a vector by `len`.
pub fn shrunk<S: Scalar>(v: &[S; 3], len: S) -> (r: [S; 3])
    ensures
        r == shrunk_spec(*v, len),
{
    [v[0].divided(len), v[1].divided(len), v[2].divided(len)]
}

fn behind<S: Scalar>(position: &[S; 3], axis: &[S; 3]) -> (r: S)
    ensures
        r == behind_spec(*position, *axis),
{
    position[0].negated().times(axis[0]).minus(position[1].times(axis[1])).minus(
        position[2].times(axis[2]),
    )
}

/// Builds the view matrix from the two lengths that it divides by.
pub fn view_from<S: Scalar>(
    position: &[S; 3],
    direction: &[S; 3],
    up: &[S; 3],
    forward_len: S,
    side_len: S,
) -> (view: [[S; 4]; 4])
    ensures
        view == view_spec(*position, *direction, *up, forward_len, side_len),
{
    let f = shrunk(direction, forward_len);
    let s = cross(up, &f);
    let s_norm = shrunk(&s, side_len);
    let u = cross(&f, &s_norm);
    let p = [behind(position, &s_norm), behind(position, &u), behind(position, &f)];
    let o = S::zero();
    let l = S::one();
    [
        [s_norm[0], u[0], f[0], o],
        [s_norm[1], u[1], f[1], o],
        [s_norm[2], u[2], f[2], o],
        [p[0], p[1], p[2], l],
    ]
}

/// Half the angle that the camera sees.
pub fn half_angle<S: Scalar>() -> (half: S)
    ensures
        half == half_angle_spec::<S>(),
{
    let fov = S::from_milli(3141592).divided(S::from_milli(3000000));
    fov.divided(S::from_milli(2000))
}

/// Builds the perspective matrix from the tangent of half the angle that the
/// camera sees.
pub fn perspective<S: Scalar>(tangent: S) -> (m: [[S; 4]; 4])
    ensures
        m == perspective_spec(tangent),
{
    let o = S::zero();
    let l = S::one();
    let aspect_ratio = S::from_milli(750);
    let zfar = S::from_milli(1024000);
    let znear = S::from_milli(100);
    let f = l.divided(tangent);
    [
        [f.times(aspect_ratio), o, o, o],
        [o, f, o, o],
        [o, o, zfar.plus(znear).divided(zfar.minus(znear)), l],
        [
            o,
            o,
            S::from_milli(2000).times(zfar).times(znear).negated().divided(zfar.minus(znear)),
            o,
        ],
    ]
}

/// The view matrix of a camera at `position` that looks along `direction`,
/// with `up` upward.
///
/// The two square roots are taken once each; the result is the view matrix
/// built from whatever they were.
pub fn view_matrix<S: Elementary>(position: &[S; 3], direction: &[S; 3], up: &[S; 3]) -> (view: [
    [S; 4]; 4
])
    ensures
        exists|forward_len: S, side_len: S|
            view == #[trigger] view_spec(*position, *direction, *up, forward_len, side_len),
{
    let forward_len = length_square(direction).sqrt();
    let f = shrunk(direction, forward_len);
    let s = cross(up, &f);
    let side_len = length_square(&s).sqrt();
    view_from(position, direction, up, forward_len, side_len)
}

impl<S: Elementary> Camera<S> {
    /// The camera at `position` that looks along `direction`, upright.
    ///
    /// The tangent of half its angle is taken once; the perspective matrix
    /// is the one built from whatever it was.
    pub fn new(position: &[S; 3], direction: &[S; 3]) -> (camera: Camera<S>)
        ensures
            exists|forward_len: S, side_len: S|
                camera.view == #[trigger] view_spec(
                    *position,
                    *direction,
                    upright_spec(),
                    forward_len,
                    side_len,
                ),
            exists|tangent: S| camera.perspective == #[trigger] perspective_spec(tangent),
    {
        let up = [S::zero(), S::one(), S::zero()];
        assert(up == upright_spec::<S>());
        Camera {
            view: view_matrix(position, direction, &up),
            perspective: perspective(half_angle::<S>().tan()),
        }
    }
}

} // verus!
