//! The three local transforms of a scene node and their composition.
//!
//! Points are row vectors, multiplied from the left: in a product `a · b` the
//! transform `a` is applied to a point first, and a translation keeps its
//! offset in the last row.

use crate::geom::matrix_multi;
use crate::geom::product;
use crate::scalar::Elementary;
use crate::scalar::Scalar;
use vstd::prelude::*;

verus! {

/// The transform that leaves every point where it is.
pub open spec fn identity_spec<S: Scalar>() -> [[S; 4]; 4] {
    let o = S::zero_spec();
    let l = S::one_spec();
    [[l, o, o, o], [o, l, o, o], [o, o, l, o], [o, o, o, l]]
}

/// The transform that stretches each axis by its own factor.
pub open spec fn scaling_spec<S: Scalar>(x: S, y: S, z: S) -> [[S; 4]; 4] {
    let o = S::zero_spec();
    let l = S::one_spec();
    [[x, o, o, o], [o, y, o, o], [o, o, z, o], [o, o, o, l]]
}

/// The transform that moves every point by `(x, y, z)`.
pub open spec fn translation_spec<S: Scalar>(x: S, y: S, z: S) -> [[S; 4]; 4] {
    let o = S::zero_spec();
    let l = S::one_spec();
    [[l, o, o, o], [o, l, o, o], [o, o, l, o], [x, y, z, l]]
}

/// The rotation about a principal axis whose angle has cosine `c` and sine
/// `s`. The axis is 0 for x, 1 for y and 2 for z; any other selector gives
/// the identity.
pub open spec fn rotation_spec<S: Scalar>(c: S, s: S, xyz: i32) -> [[S; 4]; 4] {
    let o = S::zero_spec();
    let l = S::one_spec();
    let m = s.negated_spec();
    if xyz == 0 {
        [[l, o, o, o], [o, c, s, o], [o, m, c, o], [o, o, o, l]]
    } else if xyz == 1 {
        [[c, o, m, o], [o, l, o, o], [s, o, c, o], [o, o, o, l]]
    } else if xyz == 2 {
        [[c, s, o, o], [m, c, o, o], [o, o, l, o], [o, o, o, l]]
    } else {
        identity_spec()
    }
}

/// The model matrix of a node: its scale applied first, then its rotation,
/// then its translation, then the model matrix of its parent.
pub open spec fn compose_spec<S: Scalar>(
    scale: [[S; 4]; 4],
    rotate: [[S; 4]; 4],
    translate: [[S; 4]; 4],
    parent: [[S; 4]; 4],
) -> [[S; 4]; 4] {
    product(scale, product(rotate, product(translate, parent)))
}

/// Builds the identity.
pub fn identity<S: Scalar>() -> (m: [[S; 4]; 4])
    ensures
        m == identity_spec::<S>(),
{
    let o = S::zero();
    let l = S::one();
    [[l, o, o, o], [o, l, o, o], [o, o, l, o], [o, o, o, l]]
}

/// Builds the scaling by `x`, `y` and `z` along the three axes.
pub fn scaling<S: Scalar>(x: S, y: S, z: S) -> (m: [[S; 4]; 4])
    ensures
        m == scaling_spec(x, y, z),
{
    let o = S::zero();
    let l = S::one();
    [[x, o, o, o], [o, y, o, o], [o, o, z, o], [o, o, o, l]]
}

/// Builds the translation by `(x, y, z)`.
pub fn translation<S: Scalar>(x: S, y: S, z: S) -> (m: [[S; 4]; 4])
    ensures
        m == translation_spec(x, y, z),
{
    let o = S::zero();
    let l = S::one();
    [[l, o, o, o], [o, l, o, o], [o, o, l, o], [x, y, z, l]]
}

/// Builds the rotation about axis `xyz` from the cosine and the sine of its
/// angle.
pub fn rotation<S: Scalar>(c: S, s: S, xyz: i32) -> (m: [[S; 4]; 4])
    ensures
        m == rotation_spec(c, s, xyz),
{
    let o = S::zero();
    let l = S::one();
    if xyz == 0 {
        [[l, o, o, o], [o, c, s, o], [o, s.negated(), c, o], [o, o, o, l]]
    } else if xyz == 1 {
        [[c, o, s.negated(), o], [o, l, o, o], [s, o, c, o], [o, o, o, l]]
    } else if xyz == 2 {
        [[c, s, o, o], [s.negated(), c, o, o], [o, o, l, o], [o, o, o, l]]
    } else {
        [[l, o, o, o], [o, l, o, o], [o, o, l, o], [o, o, o, l]]
    }
}

/// Builds the rotation by `angle` radians about axis `xyz`.
///
/// The cosine and the sine are taken once each; the result is the rotation
/// built from whatever they were.
pub fn rotation_by<S: Elementary>(angle: S, xyz: i32) -> (m: [[S; 4]; 4])
    ensures
        exists|c: S, s: S| m == rotation_spec(c, s, xyz),
        !(0 <= xyz <= 2) ==> m == identity_spec::<S>(),
{
    let c = angle.cos();
    let s = angle.sin();
    rotation(c, s, xyz)
}

/// Composes the local transforms of a node with the model matrix of its
/// parent, in the one order that the scene is built on.
pub fn compose<S: Scalar>(
    scale: &[[S; 4]; 4],
    rotate: &[[S; 4]; 4],
    translate: &[[S; 4]; 4],
    parent: &[[S; 4]; 4],
) -> (model: [[S; 4]; 4])
    ensures
        model == compose_spec(*scale, *rotate, *translate, *parent),
{
    let placed = matrix_multi(translate, parent);
    let turned = matrix_multi(rotate, &placed);
    matrix_multi(scale, &turned)
}

} // verus!
