//! The cube: the one primitive that the aeroplane is built from.

use crate::draw::DepthTest;
use crate::draw::DrawCall;
use crate::geom::Normal;
use crate::geom::Position;
use crate::scalar::Elementary;
use crate::scalar::Scalar;
use crate::transform::compose;
use crate::transform::compose_spec;
use crate::transform::identity;
use crate::transform::identity_spec;
use crate::transform::rotation_by;
use crate::transform::rotation_spec;
use crate::transform::scaling;
use crate::transform::scaling_spec;
use crate::transform::translation;
use crate::transform::translation_spec;
use vstd::prelude::*;

verus! {

/// A cube of side one about the origin, with its own colour and local
/// transforms, and the model matrix that its parent last gave it.
///
/// Each face has four vertices of its own, so that all four can carry the
/// normal of the face.
pub struct Cube<S> {
    /// The corners, face by face.
    pub shape: Vec<Position<S>>,
    /// The normal of each vertex: that of its face.
    pub normals: Vec<Normal<S>>,
    /// The two triangles of each face, as indices into `shape`.
    pub indices: Vec<u16>,
    pub color: [S; 3],
    /// The translation.
    pub position: [[S; 4]; 4],
    pub rotate: [[S; 4]; 4],
    pub scale: [[S; 4]; 4],
    /// The model matrix of the parent.
    pub pmodel: [[S; 4]; 4],
}

/// On which side of the origin each vertex lies along x, y and z.
pub open spec fn corner_signs() -> Seq<(int, int, int)> {
    seq![
        (-1, 1, -1), (1, 1, -1), (1, -1, -1), (-1, -1, -1),
        (1, 1, -1), (1, 1, 1), (1, -1, 1), (1, -1, -1),
        (1, 1, 1), (-1, 1, 1), (-1, -1, 1), (1, -1, 1),
        (-1, 1, 1), (-1, 1, -1), (-1, -1, -1), (-1, -1, 1),
        (-1, 1, 1), (1, 1, 1), (1, 1, -1), (-1, 1, -1),
        (-1, -1, -1), (1, -1, -1), (-1, -1, 1), (1, -1, 1),
    ]
}

/// The outward direction of each face.
pub open spec fn face_signs() -> Seq<(int, int, int)> {
    seq![(0, 0, -1), (1, 0, 0), (0, 0, 1), (-1, 0, 0), (0, 1, 0), (0, -1, 0)]
}

/// The two triangles of a face, as corners of the face.
pub open spec fn face_triangles() -> Seq<int> {
    seq![0, 1, 2, 2, 3, 0]
}

/// Half a unit, on the side of `sign`.
pub open spec fn half_spec<S: Scalar>(sign: int) -> S {
    if sign < 0 {
        S::milli_spec(-500i32)
    } else {
        S::milli_spec(500i32)
    }
}

/// A whole unit on the side of `sign`, or zero where `sign` is zero.
pub open spec fn unit_spec<S: Scalar>(sign: int) -> S {
    if sign == 0 {
        S::zero_spec()
    } else if sign > 0 {
        S::one_spec()
    } else {
        S::one_spec().negated_spec()
    }
}

/// The 24 vertices of the cube.
pub open spec fn cube_shape<S: Scalar>() -> Seq<Position<S>> {
    Seq::new(
        24,
        |k: int|
            Position {
                position: [
                    half_spec(corner_signs()[k].0),
                    half_spec(corner_signs()[k].1),
                    half_spec(corner_signs()[k].2),
                ],
            },
    )
}

/// The normal of each of the 24 vertices.
pub open spec fn cube_normals<S: Scalar>() -> Seq<Normal<S>> {
    Seq::new(
        24,
        |k: int|
            Normal {
                normal: [
                    unit_spec(face_signs()[k / 4].0),
                    unit_spec(face_signs()[k / 4].1),
                    unit_spec(face_signs()[k / 4].2),
                ],
            },
    )
}

/// The 36 indices of the cube's twelve triangles.
pub open spec fn cube_indices() -> Seq<u16> {
    Seq::new(36, |t: int| (4 * (t / 6) + face_triangles()[t % 6]) as u16)
}

/// Every vertex lies on the face whose normal it carries, and every triangle
/// joins three vertices of one face.
pub proof fn lemma_cube_faces(k: int, t: int)
    requires
        0 <= k < 24,
        0 <= t < 36,
    ensures
        face_signs()[k / 4].0 != 0 ==> corner_signs()[k].0 == face_signs()[k / 4].0,
        face_signs()[k / 4].1 != 0 ==> corner_signs()[k].1 == face_signs()[k / 4].1,
        face_signs()[k / 4].2 != 0 ==> corner_signs()[k].2 == face_signs()[k / 4].2,
        0 <= cube_indices()[t] < 24,
        cube_indices()[t] / 4 == t / 6,
{
}

impl<S: Scalar> Cube<S> {
    /// The model matrix that the cube is drawn with.
    pub open spec fn model_spec(self) -> [[S; 4]; 4] {
        compose_spec(self.scale, self.rotate, self.position, self.pmodel)
    }

    /// The draw call that the cube issues.
    pub open spec fn draw_spec(self) -> DrawCall<S> {
        DrawCall {
            color: self.color,
            model: self.model_spec(),
            depth_test: DepthTest::IfLessOrEqual,
            depth_write: true,
            multisampling: true,
            indexed: true,
        }
    }

    /// A white cube of side one about the origin, untransformed.
    pub fn new() -> (cube: Cube<S>)
        ensures
            cube.shape@ == cube_shape::<S>(),
            cube.normals@ == cube_normals::<S>(),
            cube.indices@ == cube_indices(),
            cube.color == [S::one_spec(), S::one_spec(), S::one_spec()],
            cube.position == identity_spec::<S>(),
            cube.rotate == identity_spec::<S>(),
            cube.scale == identity_spec::<S>(),
            cube.pmodel == identity_spec::<S>(),
    {
        let p = S::from_milli(500);
        let n = S::from_milli(-500);
        let shape = vec![
            Position { position: [n, p, n] },
            Position { position: [p, p, n] },
            Position { position: [p, n, n] },
            Position { position: [n, n, n] },
            Position { position: [p, p, n] },
            Position { position: [p, p, p] },
            Position { position: [p, n, p] },
            Position { position: [p, n, n] },
            Position { position: [p, p, p] },
            Position { position: [n, p, p] },
            Position { position: [n, n, p] },
            Position { position: [p, n, p] },
            Position { position: [n, p, p] },
            Position { position: [n, p, n] },
            Position { position: [n, n, n] },
            Position { position: [n, n, p] },
            Position { position: [n, p, p] },
            Position { position: [p, p, p] },
            Position { position: [p, p, n] },
            Position { position: [n, p, n] },
            Position { position: [n, n, n] },
            Position { position: [p, n, n] },
            Position { position: [n, n, p] },
            Position { position: [p, n, p] },
        ];
        let o = S::zero();
        let l = S::one();
        let m = l.negated();
        let mut normals: Vec<Normal<S>> = Vec::new();
        for index in 0..24usize
            invariant
                o == S::zero_spec(),
                l == S::one_spec(),
                m == S::one_spec().negated_spec(),
                normals.len() == index,
                forall|k: int| 0 <= k < index ==> normals[k] == cube_normals::<S>()[k],
        {
            if index < 4 {
                normals.push(Normal { normal: [o, o, m] });
            } else if index < 8 {
                normals.push(Normal { normal: [l, o, o] });
            } else if index < 12 {
                normals.push(Normal { normal: [o, o, l] });
            } else if index < 16 {
                normals.push(Normal { normal: [m, o, o] });
            } else if index < 20 {
                normals.push(Normal { normal: [o, l, o] });
            } else {
                normals.push(Normal { normal: [o, m, o] });
            }
        }
        let indices: Vec<u16> = vec![
            0, 1, 2, 2, 3, 0, 4, 5, 6, 6, 7, 4, 8, 9, 10, 10, 11, 8, 12, 13, 14, 14, 15, 12, 16, 17,
            18, 18, 19, 16, 20, 21, 22, 22, 23, 20,
        ];
        let initmatrix: [[S; 4]; 4] = identity();
        Cube {
            shape,
            normals,
            indices,
            color: [l, l, l],
            position: initmatrix,
            rotate: initmatrix,
            scale: initmatrix,
            pmodel: initmatrix,
        }
    }

    /// Composes the cube's transforms with the model matrix of its parent:
    /// scale, then rotation, then translation, then the parent.
    pub fn compute_model(&self) -> (model: [[S; 4]; 4])
        ensures
            model == self.model_spec(),
    {
        compose(&self.scale, &self.rotate, &self.position, &self.pmodel)
    }

    /// Computes the model matrix and returns the draw call to issue. The
    /// cube itself is left as it was.
    pub fn draw(&self) -> (call: DrawCall<S>)
        ensures
            call == self.draw_spec(),
    {
        DrawCall {
            color: self.color,
            model: self.compute_model(),
            depth_test: DepthTest::IfLessOrEqual,
            depth_write: true,
            multisampling: true,
            indexed: true,
        }
    }

    /// Takes the model matrix of the parent.
    pub fn set_pmodel(&mut self, model: &[[S; 4]; 4])
        ensures
            *final(self) == (Cube { pmodel: *model, ..*old(self) }),
    {
        self.pmodel = *model;
    }

    /// Sets the scale, which is the first transform applied.
    pub fn set_scale(&mut self, x: S, y: S, z: S)
        ensures
            *final(self) == (Cube { scale: scaling_spec(x, y, z), ..*old(self) }),
    {
        self.scale = scaling(x, y, z);
    }

    /// Sets the translation, which is the last of the cube's own transforms.
    pub fn set_position(&mut self, x: S, y: S, z: S)
        ensures
            *final(self) == (Cube { position: translation_spec(x, y, z), ..*old(self) }),
    {
        self.position = translation(x, y, z);
    }

    /// Sets the colour, as red, green and blue.
    pub fn set_color(&mut self, r: S, g: S, b: S)
        ensures
            *final(self) == (Cube { color: [r, g, b], ..*old(self) }),
    {
        self.color = [r, g, b];
    }
}

impl<S: Elementary> Cube<S> {
    /// Sets the rotation, which is applied after the scale: by `angle`
    /// radians about the axis `xyz` (0 for x, 1 for y, 2 for z). Any other
    /// axis resets the rotation to the identity.
    pub fn set_rotate(&mut self, angle: S, xyz: i32)
        ensures
            exists|c: S, s: S| final(self).rotate == #[trigger] rotation_spec(c, s, xyz),
            !(0 <= xyz <= 2) ==> final(self).rotate == identity_spec::<S>(),
            *final(self) == (Cube { rotate: final(self).rotate, ..*old(self) }),
    {
        self.rotate = rotation_by(angle, xyz);
    }
}

} // verus!
