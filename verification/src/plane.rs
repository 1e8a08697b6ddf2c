//! The aeroplane: six cubes under one group transform.

use crate::cube::Cube;
use crate::cube::cube_indices;
use crate::cube::cube_normals;
use crate::cube::cube_shape;
use crate::draw::DrawCall;
use crate::geom::matrix_multi;
use crate::geom::product;
use crate::scalar::Elementary;
use crate::scalar::Scalar;
use crate::transform::identity;
use crate::transform::identity_spec;
use crate::transform::rotation_by;
use crate::transform::rotation_spec;
use crate::transform::scaling;
use crate::transform::scaling_spec;
use crate::transform::translation;
use crate::transform::translation_spec;
use vstd::prelude::*;

verus! {

/// The aeroplane. Its parts keep no link to it: before they are drawn, the
/// aeroplane hands each of them its own model matrix.
pub struct Plane<S> {
    pub wing: Cube<S>,
    pub cockpit: Cube<S>,
    pub engine: Cube<S>,
    pub propeller: Cube<S>,
    /// The blade of the propeller.
    pub matblade: Cube<S>,
    pub tail: Cube<S>,
    /// The translation of the whole aeroplane.
    pub position: [[S; 4]; 4],
    pub rotate: [[S; 4]; 4],
    pub scale: [[S; 4]; 4],
}

/// Three numbers given in thousandths.
pub open spec fn milli3<S: Scalar>(v: (i32, i32, i32)) -> [S; 3] {
    [S::milli_spec(v.0), S::milli_spec(v.1), S::milli_spec(v.2)]
}

/// `part` is a cube as it is made, then given the scale `size`, the
/// translation `place` and the colour `paint`, each in thousandths; with no
/// `place` it stays at the origin.
pub open spec fn is_part<S: Scalar>(
    part: Cube<S>,
    size: (i32, i32, i32),
    place: Option<(i32, i32, i32)>,
    paint: (i32, i32, i32),
) -> bool {
    &&& part.shape@ == cube_shape::<S>()
    &&& part.normals@ == cube_normals::<S>()
    &&& part.indices@ == cube_indices()
    &&& part.color == milli3::<S>(paint)
    &&& part.scale == scaling_spec(milli3::<S>(size)[0], milli3::<S>(size)[1], milli3::<S>(size)[2])
    &&& part.rotate == identity_spec::<S>()
    &&& part.pmodel == identity_spec::<S>()
    &&& part.position == match place {
        Some(at) => translation_spec(milli3::<S>(at)[0], milli3::<S>(at)[1], milli3::<S>(at)[2]),
        None => identity_spec::<S>(),
    }
}

/// Makes one part of the aeroplane.
fn part<S: Scalar>(
    size: (i32, i32, i32),
    place: Option<(i32, i32, i32)>,
    paint: (i32, i32, i32),
) -> (cube: Cube<S>)
    ensures
        is_part(cube, size, place, paint),
{
    let mut cube = Cube::new();
    cube.set_scale(S::from_milli(size.0), S::from_milli(size.1), S::from_milli(size.2));
    match place {
        Some(at) => {
            cube.set_position(S::from_milli(at.0), S::from_milli(at.1), S::from_milli(at.2));
        },
        None => {},
    }
    cube.set_color(S::from_milli(paint.0), S::from_milli(paint.1), S::from_milli(paint.2));
    cube
}

impl<S: Scalar> Plane<S> {
    /// The model matrix of the aeroplane as a whole, which is the parent
    /// model of each part: scale, then rotation, then translation.
    pub open spec fn model_spec(self) -> [[S; 4]; 4] {
        product(self.scale, product(self.rotate, self.position))
    }

    /// The aeroplane at the origin, untransformed, with each part in its
    /// size, place and colour.
    pub fn new() -> (plane: Plane<S>)
        ensures
            is_part(plane.cockpit, (1200, 1000, 1000), None, (950, 330, 270)),
            is_part(plane.engine, (400, 1000, 1000), Some((800, 0, 0)), (850, 820, 820)),
            is_part(plane.tail, (300, 400, 100), Some((-700i32, 500, 0)), (950, 330, 270)),
            is_part(plane.wing, (800, 160, 3000), None, (950, 330, 270)),
            is_part(plane.propeller, (400, 200, 200), Some((1200, 0, 0)), (350, 200, 180)),
            is_part(plane.matblade, (20, 2000, 400), Some((1200, 0, 0)), (140, 100, 60)),
            plane.position == identity_spec::<S>(),
            plane.rotate == identity_spec::<S>(),
            plane.scale == identity_spec::<S>(),
    {
        let cockpit = part((1200, 1000, 1000), None, (950, 330, 270));
        let engine = part((400, 1000, 1000), Some((800, 0, 0)), (850, 820, 820));
        let tail = part((300, 400, 100), Some((-700, 500, 0)), (950, 330, 270));
        let wing = part((800, 160, 3000), None, (950, 330, 270));
        let propeller = part((400, 200, 200), Some((1200, 0, 0)), (350, 200, 180));
        let matblade = part((20, 2000, 400), Some((1200, 0, 0)), (140, 100, 60));
        let initmatrix: [[S; 4]; 4] = identity();
        Plane {
            cockpit,
            engine,
            tail,
            wing,
            propeller,
            matblade,
            position: initmatrix,
            rotate: initmatrix,
            scale: initmatrix,
        }
    }

    /// Composes the transforms of the aeroplane as a whole.
    pub fn compute_model(&self) -> (model: [[S; 4]; 4])
        ensures
            model == self.model_spec(),
    {
        matrix_multi(&self.scale, &matrix_multi(&self.rotate, &self.position))
    }

    /// Hands the aeroplane's model matrix to each part as its parent model,
    /// and returns the draw calls of the parts in the order in which they are
    /// to be issued: wing, cockpit, engine, tail, propeller, blade.
    pub fn draw(&mut self) -> (calls: [DrawCall<S>; 6])
        ensures
            final(self).wing == (Cube { pmodel: old(self).model_spec(), ..old(self).wing }),
            final(self).cockpit == (Cube { pmodel: old(self).model_spec(), ..old(self).cockpit }),
            final(self).engine == (Cube { pmodel: old(self).model_spec(), ..old(self).engine }),
            final(self).tail == (Cube { pmodel: old(self).model_spec(), ..old(self).tail }),
            final(self).propeller == (Cube {
                pmodel: old(self).model_spec(),
                ..old(self).propeller
            }),
            final(self).matblade == (Cube { pmodel: old(self).model_spec(), ..old(self).matblade }),
            final(self).position == old(self).position,
            final(self).rotate == old(self).rotate,
            final(self).scale == old(self).scale,
            calls[0] == final(self).wing.draw_spec(),
            calls[1] == final(self).cockpit.draw_spec(),
            calls[2] == final(self).engine.draw_spec(),
            calls[3] == final(self).tail.draw_spec(),
            calls[4] == final(self).propeller.draw_spec(),
            calls[5] == final(self).matblade.draw_spec(),
    {
        let model: [[S; 4]; 4] = self.compute_model();
        self.wing.set_pmodel(&model);
        let wing = self.wing.draw();
        self.cockpit.set_pmodel(&model);
        let cockpit = self.cockpit.draw();
        self.engine.set_pmodel(&model);
        let engine = self.engine.draw();
        self.tail.set_pmodel(&model);
        let tail = self.tail.draw();
        self.propeller.set_pmodel(&model);
        let propeller = self.propeller.draw();
        self.matblade.set_pmodel(&model);
        let matblade = self.matblade.draw();
        [wing, cockpit, engine, tail, propeller, matblade]
    }

    /// Sets the translation of the whole aeroplane.
    pub fn set_position(&mut self, x: S, y: S, z: S)
        ensures
            *final(self) == (Plane { position: translation_spec(x, y, z), ..*old(self) }),
    {
        self.position = translation(x, y, z);
    }

    /// Sets the scale of the whole aeroplane.
    pub fn set_scale(&mut self, x: S, y: S, z: S)
        ensures
            *final(self) == (Plane { scale: scaling_spec(x, y, z), ..*old(self) }),
    {
        self.scale = scaling(x, y, z);
    }
}

impl<S: Elementary> Plane<S> {
    /// Sets the rotation of the whole aeroplane: by `angle` radians about the
    /// axis `xyz` (0 for x, 1 for y, 2 for z). Any other axis resets the
    /// rotation to the identity.
    pub fn set_rotate(&mut self, angle: S, xyz: i32)
        ensures
            exists|c: S, s: S| final(self).rotate == #[trigger] rotation_spec(c, s, xyz),
            !(0 <= xyz <= 2) ==> final(self).rotate == identity_spec::<S>(),
            *final(self) == (Plane { rotate: final(self).rotate, ..*old(self) }),
    {
        self.rotate = rotation_by(angle, xyz);
    }
}

} // verus!
