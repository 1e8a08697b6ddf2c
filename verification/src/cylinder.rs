//! The sea: a tube of forty rings whose control points ride on waves.
//!
//! The tube is kept as a ring of control points, eleven along the axis for
//! each of forty angles, and drawn as a soup of triangles regenerated from
//! them. Every control point has an oscillator that moves it a little each
//! frame.

use crate::draw::DepthTest;
use crate::draw::DrawCall;
use crate::geom::cross;
use crate::geom::cross_spec;
use crate::geom::Normal;
use crate::geom::Position;
use crate::scalar::Elementary;
use crate::scalar::Scalar;
use crate::transform::compose;
use crate::transform::compose_spec;
use crate::transform::identity;
use crate::transform::identity_spec;
use crate::transform::rotation_by;
use crate::transform::rotation_spec;
use crate::transform::scaling;
use crate::transform::scaling_spec;
use crate::transform::translation;
use crate::transform::translation_spec;
use vstd::prelude::*;

verus! {

/// The number of rings round the tube.
pub const RINGS: usize = 40;

/// The number of control points along the axis, on each ring.
pub const ALONG: usize = 11;

/// The number of control points.
pub const POINTS: usize = 440;

/// The number of triangles of the generated mesh: two for each of the ten
/// quads between one ring and the next.
pub const TRIANGLES: usize = 800;

/// The number of vertices of the generated mesh.
pub const VERTICES: usize = 2400;

/// The index of the control point on ring `ring`, counted round the tube so
/// that the ring after the last is the first again, at place `along` on the
/// axis.
pub open spec fn control(ring: int, along: int) -> int {
    (ring % (RINGS as int)) * ALONG + along
}

/// The control point that vertex `k` of the mesh is a copy of.
///
/// Six vertices in a row belong to one quad, ten quads in a row to one ring.
/// A quad has two corners on its own ring and two on the next; it is cut
/// along the diagonal from its first corner into two triangles, which go
/// round it the same way.
pub open spec fn mesh_index(k: int) -> int {
    let ring = k / 60;
    let along = (k / 6) % 10;
    let corner = k % 6;
    if corner == 0 || corner == 5 {
        control(ring + 1, along + 1)
    } else if corner == 1 {
        control(ring, along + 1)
    } else if corner == 4 {
        control(ring + 1, along)
    } else {
        control(ring, along)
    }
}

/// The six vertices of the quad that starts at place `along` of ring `ring`:
/// which control points they are, counted from the quad's own corner
/// `first = ring * 11 + along` except where the next ring is the first.
pub proof fn lemma_quad(ring: int, along: int)
    requires
        0 <= ring < 40,
        0 <= along < 10,
    ensures
        mesh_index(60 * ring + 6 * along + 1) == ring * 11 + along + 1,
        mesh_index(60 * ring + 6 * along + 2) == ring * 11 + along,
        mesh_index(60 * ring + 6 * along + 3) == ring * 11 + along,
        ring < 39 ==> mesh_index(60 * ring + 6 * along) == ring * 11 + along + 12,
        ring < 39 ==> mesh_index(60 * ring + 6 * along + 4) == ring * 11 + along + 11,
        ring < 39 ==> mesh_index(60 * ring + 6 * along + 5) == ring * 11 + along + 12,
        ring == 39 ==> mesh_index(60 * ring + 6 * along) == along + 1,
        ring == 39 ==> mesh_index(60 * ring + 6 * along + 4) == along,
        ring == 39 ==> mesh_index(60 * ring + 6 * along + 5) == along + 1,
{
}

/// The edge that leads from one point to another.
pub open spec fn edge_spec<S: Scalar>(from: Position<S>, to: Position<S>) -> [S; 3] {
    [
        to.position[0].minus_spec(from.position[0]),
        to.position[1].minus_spec(from.position[1]),
        to.position[2].minus_spec(from.position[2]),
    ]
}

/// The normal of the triangle `v0 v1 v2`: the cross product of its first two
/// edges, at whatever length it comes out.
pub open spec fn flat_normal<S: Scalar>(v0: Position<S>, v1: Position<S>, v2: Position<S>) -> Normal<
    S,
> {
    Normal { normal: cross_spec(edge_spec(v0, v1), edge_spec(v1, v2)) }
}

/// The vertices of the mesh over the control points `vertex`.
pub open spec fn mesh_shape<S: Scalar>(vertex: Seq<Position<S>>) -> Seq<Position<S>> {
    Seq::new(VERTICES as nat, |k: int| vertex[mesh_index(k)])
}

/// The normals of the mesh with the vertices `shape`: each vertex carries the
/// normal of its triangle.
pub open spec fn mesh_normals<S: Scalar>(shape: Seq<Position<S>>) -> Seq<Normal<S>> {
    Seq::new(
        VERTICES as nat,
        |k: int| flat_normal(shape[3 * (k / 3)], shape[3 * (k / 3) + 1], shape[3 * (k / 3) + 2]),
    )
}

/// Where the oscillator `wave` puts the control point `p`, given the cosine
/// and the sine of its phase: out by the amplitude across the axis, and
/// nowhere along it.
pub open spec fn displaced_spec<S: Scalar>(p: Position<S>, wave: [S; 3], trig: [S; 2]) -> Position<
    S,
> {
    Position {
        position: [
            p.position[0].plus_spec(trig[0].times_spec(wave[1])),
            p.position[1].plus_spec(trig[1].times_spec(wave[1])),
            p.position[2],
        ],
    }
}

/// The oscillator `wave` one frame later: its phase has gone on by its
/// speed.
pub open spec fn advanced_spec<S: Scalar>(wave: [S; 3]) -> [S; 3] {
    [wave[0].plus_spec(wave[2]), wave[1], wave[2]]
}

/// All control points after one frame.
pub open spec fn displaced_points<S: Scalar>(
    vertex: Seq<Position<S>>,
    waves: Seq<[S; 3]>,
    trig: Seq<[S; 2]>,
) -> Seq<Position<S>> {
    Seq::new(POINTS as nat, |k: int| displaced_spec(vertex[k], waves[k], trig[k]))
}

/// All oscillators after one frame.
pub open spec fn advanced_waves<S: Scalar>(waves: Seq<[S; 3]>) -> Seq<[S; 3]> {
    Seq::new(POINTS as nat, |k: int| advanced_spec(waves[k]))
}

/// The place along the axis of the `along`-th control point of a ring: from
/// -0.5 to 0.5 in steps of 0.1.
pub open spec fn offset_spec<S: Scalar>(along: int) -> S {
    S::milli_spec(100i32).times_spec(S::milli_spec((1000 * (along - 5)) as i32))
}

/// The control points of a tube whose rings stand at the points `circle` of
/// the unit circle.
pub open spec fn control_points_spec<S: Scalar>(circle: Seq<[S; 2]>) -> Seq<Position<S>> {
    Seq::new(
        POINTS as nat,
        |k: int| Position { position: [circle[k / 11][0], circle[k / 11][1], offset_spec(k % 11)] },
    )
}

/// The angle at which ring `ring` stands: so many fortieths of a full turn,
/// as twentieths of π.
pub open spec fn ring_angle_spec<S: Scalar>(pi: S, ring: int) -> S {
    pi.divided_spec(S::milli_spec(20000i32)).times_spec(S::milli_spec((1000 * ring) as i32))
}

/// The oscillator drawn from three samples of the unit interval: a phase up
/// to a full turn, an amplitude from 0.01 up to 0.04 and a speed from 0.016 up
/// to 0.048 a frame.
pub open spec fn oscillator_spec<S: Scalar>(sample: [S; 3], pi: S) -> [S; 3] {
    [
        sample[0].times_spec(pi).times_spec(S::milli_spec(2000i32)),
        S::milli_spec(10i32).plus_spec(sample[1].times_spec(S::milli_spec(30i32))),
        S::milli_spec(16i32).plus_spec(sample[2].times_spec(S::milli_spec(32i32))),
    ]
}

/// The oscillators drawn from 440 triples of samples.
pub open spec fn oscillators_spec<S: Scalar>(samples: Seq<[S; 3]>, pi: S) -> Seq<[S; 3]> {
    Seq::new(POINTS as nat, |k: int| oscillator_spec(samples[k], pi))
}

/// The colour of the sea.
pub open spec fn sea_color<S: Scalar>() -> [S; 3] {
    [S::milli_spec(410i32), S::milli_spec(760i32), S::milli_spec(760i32)]
}

/// Every vertex of the mesh is a copy of one of the 440 control points, on
/// the ring of its quad or on the next ring round; and the next ring after
/// the last is the first, so that the tube closes on itself.
pub proof fn lemma_mesh_wraps(k: int)
    requires
        0 <= k < VERTICES,
    ensures
        0 <= mesh_index(k) < POINTS,
        k % 6 == 1 || k % 6 == 2 || k % 6 == 3 ==> mesh_index(k) / 11 == k / 60,
        k % 6 == 0 || k % 6 == 4 || k % 6 == 5 ==> mesh_index(k) / 11 == (k / 60 + 1) % 40,
        k / 60 == 39 && (k % 6 == 0 || k % 6 == 4 || k % 6 == 5) ==> mesh_index(k) < ALONG,
{
}

/// The three vertices of a triangle of the mesh carry one and the same
/// normal: the cross product of the triangle's first two edges.
pub proof fn lemma_flat_normals<S: Scalar>(vertex: Seq<Position<S>>, t: int)
    requires
        0 <= t < TRIANGLES,
    ensures
        ({
            let shape = mesh_shape(vertex);
            let normals = mesh_normals(shape);
            let normal = flat_normal(shape[3 * t], shape[3 * t + 1], shape[3 * t + 2]);
            &&& normals[3 * t] == normal
            &&& normals[3 * t + 1] == normal
            &&& normals[3 * t + 2] == normal
        }),
{
}

/// `after` is the sea `before` one frame later, where the cosine and the
/// sine of the phases were `trig`.
pub open spec fn waved<S: Scalar>(before: Cylinder<S>, trig: Seq<[S; 2]>, after: Cylinder<S>) -> bool {
    &&& after.wf()
    &&& after.vertex@ == displaced_points(before.vertex@, before.waves@, trig)
    &&& after.waves@ == advanced_waves(before.waves@)
    &&& after == (Cylinder {
        mesh: after.mesh,
        waves: after.waves,
        vertex: after.vertex,
        ..before
    })
}

/// `seas` is a run of frames: each sea is the one before it, moved on with
/// the corresponding entry of `trigs`.
pub open spec fn run<S: Scalar>(seas: Seq<Cylinder<S>>, trigs: Seq<Seq<[S; 2]>>) -> bool {
    &&& seas.len() == trigs.len() + 1
    &&& forall|n: int| 0 <= n < trigs.len() ==> waved(#[trigger] seas[n], trigs[n], seas[n + 1])
}

/// What a sea shows and how it moves on: its control points, its
/// oscillators, and the mesh that is drawn.
pub open spec fn same_water<S: Scalar>(a: Cylinder<S>, b: Cylinder<S>) -> bool {
    &&& a.vertex@ == b.vertex@
    &&& a.waves@ == b.waves@
    &&& a.mesh.0@ == b.mesh.0@
    &&& a.mesh.1@ == b.mesh.1@
}

/// The animation is determined by where it starts and by the circle
/// functions: two runs of as many frames that start from the same control
/// points and oscillators, and meet the same cosines and sines, show the
/// same sea in every frame.
pub proof fn lemma_run_determined<S: Scalar>(
    first: Seq<Cylinder<S>>,
    second: Seq<Cylinder<S>>,
    trigs: Seq<Seq<[S; 2]>>,
    n: int,
)
    requires
        run(first, trigs),
        run(second, trigs),
        first[0].wf(),
        second[0].wf(),
        first[0].vertex@ == second[0].vertex@,
        first[0].waves@ == second[0].waves@,
        0 <= n <= trigs.len(),
    ensures
        same_water(first[n], second[n]),
    decreases n,
{
    if n > 0 {
        lemma_run_determined(first, second, trigs, n - 1);
        assert(waved(first[n - 1], trigs[n - 1], first[n - 1 + 1]));
    }
}

/// Lays out the control points of a tube: eleven along the axis for each of
/// the forty points of `circle`, ring after ring.
pub fn control_points<S: Scalar>(circle: &[[S; 2]; 40]) -> (vertex: Vec<Position<S>>)
    ensures
        vertex.len() == POINTS,
        vertex@ == control_points_spec(circle@),
{
    let tenth = S::from_milli(100);
    let mut vertex: Vec<Position<S>> = Vec::new();
    for i in 0..40usize
        invariant
            tenth == S::milli_spec(100i32),
            vertex.len() == 11 * i,
            forall|k: int| 0 <= k < vertex.len() ==> vertex[k] == control_points_spec(circle@)[k],
    {
        let x = circle[i][0];
        let y = circle[i][1];
        for j in 0..11usize
            invariant
                i < 40,
                tenth == S::milli_spec(100i32),
                x == circle[i as int][0],
                y == circle[i as int][1],
                vertex.len() == 11 * i + j,
                forall|k: int|
                    0 <= k < vertex.len() ==> vertex[k] == control_points_spec(circle@)[k],
        {
            let steps: i32 = 1000 * (j as i32 - 5);
            vertex.push(Position { position: [x, y, tenth.times(S::from_milli(steps))] });
        }
    }
    vertex
}

/// The angle at which a ring of the tube stands, given the number π.
pub fn ring_angle<S: Scalar>(pi: S, ring: usize) -> (angle: S)
    requires
        ring < RINGS,
    ensures
        angle == ring_angle_spec(pi, ring as int),
{
    pi.divided(S::from_milli(20000)).times(S::from_milli(1000 * (ring as i32)))
}

/// Makes an oscillator from three samples of the unit interval and the
/// number π.
pub fn oscillator<S: Scalar>(sample: [S; 3], pi: S) -> (wave: [S; 3])
    ensures
        wave == oscillator_spec(sample, pi),
{
    [
        sample[0].times(pi).times(S::from_milli(2000)),
        S::from_milli(10).plus(sample[1].times(S::from_milli(30))),
        S::from_milli(16).plus(sample[2].times(S::from_milli(32))),
    ]
}

/// The sea.
pub struct Cylinder<S> {
    /// The triangles to draw, as vertices and their normals: the mesh over
    /// `vertex`.
    pub mesh: (Vec<Position<S>>, Vec<Normal<S>>),
    /// The oscillator of each control point: phase, amplitude, and the angle
    /// by which the phase goes on each frame.
    pub waves: [[S; 3]; 440],
    /// The control points.
    pub vertex: Vec<Position<S>>,
    /// The translation.
    pub position: [[S; 4]; 4],
    pub rotate: [[S; 4]; 4],
    pub scale: [[S; 4]; 4],
    /// The model matrix of the parent.
    pub pmodel: [[S; 4]; 4],
    pub color: [S; 3],
}

impl<S: Scalar> Cylinder<S> {
    /// There are 440 control points, and the mesh is the one over them.
    pub open spec fn wf(self) -> bool {
        &&& self.vertex.len() == POINTS
        &&& self.mesh.0@ == mesh_shape(self.vertex@)
        &&& self.mesh.1@ == mesh_normals(self.mesh.0@)
    }

    /// The model matrix that the sea is drawn with.
    pub open spec fn model_spec(self) -> [[S; 4]; 4] {
        compose_spec(self.scale, self.rotate, self.position, self.pmodel)
    }

    /// The draw call that the sea issues.
    pub open spec fn draw_spec(self) -> DrawCall<S> {
        DrawCall {
            color: self.color,
            model: self.model_spec(),
            depth_test: DepthTest::IfLess,
            depth_write: true,
            multisampling: true,
            indexed: false,
        }
    }

    /// Generates the mesh over 440 control points: 800 triangles, each with
    /// one normal for its three vertices.
    ///
    /// Between each ring and the next, and between the last ring and the
    /// first, every quad is cut into two triangles.
    pub fn create_vbo(vertex: &Vec<Position<S>>) -> (mesh: (Vec<Position<S>>, Vec<Normal<S>>))
        requires
            vertex.len() == POINTS,
        ensures
            mesh.0.len() == VERTICES,
            mesh.1.len() == VERTICES,
            mesh.0@ == mesh_shape(vertex@),
            mesh.1@ == mesh_normals(mesh.0@),
    {
        let mut shape: Vec<Position<S>> = Vec::new();
        for i in 0..40usize
            invariant
                vertex.len() == 440,
                shape.len() == 60 * i,
                forall|k: int| 0 <= k < shape.len() ==> shape[k] == vertex[mesh_index(k)],
        {
            for index in 0..10usize
                invariant
                    i < 40,
                    vertex.len() == 440,
                    shape.len() == 60 * i + 6 * index,
                    forall|k: int| 0 <= k < shape.len() ==> shape[k] == vertex[mesh_index(k)],
            {
                let first = index + i * 11;
                if i == 39 {
                    shape.push(vertex[index + 1]);
                    shape.push(vertex[first + 1]);
                    shape.push(vertex[first]);
                    shape.push(vertex[first]);
                    shape.push(vertex[index]);
                    shape.push(vertex[index + 1]);
                } else {
                    shape.push(vertex[first + 12]);
                    shape.push(vertex[first + 1]);
                    shape.push(vertex[first]);
                    shape.push(vertex[first]);
                    shape.push(vertex[first + 11]);
                    shape.push(vertex[first + 12]);
                }
                proof {
                    lemma_quad(i as int, index as int);
                }
            }
        }
        let mut normals: Vec<Normal<S>> = Vec::new();
        for i in 0..800usize
            invariant
                shape.len() == 2400,
                normals.len() == 3 * i,
                forall|k: int| 0 <= k < normals.len() ==> normals[k] == mesh_normals(shape@)[k],
        {
            let a: [S; 3] = [
                shape[i * 3 + 1].position[0].minus(shape[i * 3].position[0]),
                shape[i * 3 + 1].position[1].minus(shape[i * 3].position[1]),
                shape[i * 3 + 1].position[2].minus(shape[i * 3].position[2]),
            ];
            let b: [S; 3] = [
                shape[i * 3 + 2].position[0].minus(shape[i * 3 + 1].position[0]),
                shape[i * 3 + 2].position[1].minus(shape[i * 3 + 1].position[1]),
                shape[i * 3 + 2].position[2].minus(shape[i * 3 + 1].position[2]),
            ];
            let normal: [S; 3] = cross(&a, &b);
            for copy in 0..3usize
                invariant
                    i < 800,
                    shape.len() == 2400,
                    normals.len() == 3 * i + copy,
                    normal == flat_normal(shape[i * 3], shape[i * 3 + 1], shape[i * 3 + 2]).normal,
                    forall|k: int|
                        0 <= k < normals.len() ==> normals[k] == mesh_normals(shape@)[k],
            {
                normals.push(Normal { normal });
            }
        }
        (shape, normals)
    }

    /// The sea over the given control points, with the given oscillators:
    /// untransformed, in the colour of the sea, its mesh generated.
    pub fn from_parts(vertex: Vec<Position<S>>, waves: [[S; 3]; 440]) -> (sea: Cylinder<S>)
        requires
            vertex.len() == POINTS,
        ensures
            sea.wf(),
            sea.vertex == vertex,
            sea.waves == waves,
            sea.position == identity_spec::<S>(),
            sea.rotate == identity_spec::<S>(),
            sea.scale == identity_spec::<S>(),
            sea.pmodel == identity_spec::<S>(),
            sea.color == sea_color::<S>(),
    {
        let mesh = Cylinder::create_vbo(&vertex);
        let initmatrix: [[S; 4]; 4] = identity();
        Cylinder {
            mesh,
            vertex,
            waves,
            position: initmatrix,
            rotate: initmatrix,
            scale: initmatrix,
            pmodel: initmatrix,
            color: [S::from_milli(410), S::from_milli(760), S::from_milli(760)],
        }
    }

    /// Moves the sea on by one frame, given the cosine and the sine of the
    /// phase of each oscillator.
    ///
    /// Each control point moves out from where it is by its amplitude, each
    /// phase goes on by its speed, and the mesh is generated anew over the
    /// moved points. The points stay where this puts them: the next frame
    /// starts from there.
    pub fn wave_by(&mut self, trig: &[[S; 2]; 440])
        requires
            old(self).vertex.len() == POINTS,
        ensures
            waved(*old(self), trig@, *final(self)),
    {
        let ghost start = *self;
        let mut new_vertex: Vec<Position<S>> = Vec::new();
        for index in 0..440usize
            invariant
                start.vertex.len() == 440,
                *self == (Cylinder { waves: self.waves, ..start }),
                new_vertex.len() == index,
                forall|k: int|
                    0 <= k < index ==> new_vertex[k] == displaced_spec(
                        start.vertex[k],
                        start.waves[k],
                        trig[k],
                    ),
                forall|k: int| 0 <= k < index ==> self.waves[k] == advanced_spec(start.waves[k]),
                forall|k: int| index <= k < 440 ==> self.waves[k] == start.waves[k],
        {
            let x = self.vertex[index].position[0];
            let x = x.plus(trig[index][0].times(self.waves[index][1]));
            let y = self.vertex[index].position[1];
            let y = y.plus(trig[index][1].times(self.waves[index][1]));
            let z = self.vertex[index].position[2];
            new_vertex.push(Position { position: [x, y, z] });
            let mut wave = self.waves[index];
            wave[0] = wave[0].plus(wave[2]);
            self.waves[index] = wave;
        }
        assert(new_vertex@ =~= displaced_points(start.vertex@, start.waves@, trig@));
        assert(self.waves@ =~= advanced_waves(start.waves@));
        self.mesh = Cylinder::create_vbo(&new_vertex);
        self.vertex = new_vertex;
    }

    /// Composes the sea's transforms with the model matrix of its parent:
    /// scale, then rotation, then translation, then the parent.
    pub fn compute_model(&self) -> (model: [[S; 4]; 4])
        ensures
            model == self.model_spec(),
    {
        compose(&self.scale, &self.rotate, &self.position, &self.pmodel)
    }

    /// Computes the model matrix and returns the draw call to issue. The sea
    /// itself is left as it was.
    pub fn draw(&self) -> (call: DrawCall<S>)
        ensures
            call == self.draw_spec(),
    {
        DrawCall {
            color: self.color,
            model: self.compute_model(),
            depth_test: DepthTest::IfLess,
            depth_write: true,
            multisampling: true,
            indexed: false,
        }
    }

    /// Takes the model matrix of the parent.
    pub fn set_pmodel(&mut self, model: &[[S; 4]; 4])
        ensures
            *final(self) == (Cylinder { pmodel: *model, ..*old(self) }),
    {
        self.pmodel = *model;
    }

    /// Sets the scale, which is the first transform applied.
    pub fn set_scale(&mut self, x: S, y: S, z: S)
        ensures
            *final(self) == (Cylinder { scale: scaling_spec(x, y, z), ..*old(self) }),
    {
        self.scale = scaling(x, y, z);
    }

    /// Sets the translation, which is the last of the sea's own transforms.
    pub fn set_position(&mut self, x: S, y: S, z: S)
        ensures
            *final(self) == (Cylinder { position: translation_spec(x, y, z), ..*old(self) }),
    {
        self.position = translation(x, y, z);
    }

    /// Sets the colour, as red, green and blue.
    pub fn set_color(&mut self, r: S, g: S, b: S)
        ensures
            *final(self) == (Cylinder { color: [r, g, b], ..*old(self) }),
    {
        self.color = [r, g, b];
    }
}

impl<S: Elementary> Cylinder<S> {
    /// The sea at rest: its rings are forty equal steps round the unit
    /// circle, and each oscillator is drawn from one of the 440 triples of
    /// `samples`, which are taken to lie in the unit interval.
    ///
    /// The circle functions are taken once for each ring, and π once.
    pub fn new(samples: &[[S; 3]; 440]) -> (sea: Cylinder<S>)
        ensures
            sea.wf(),
            exists|circle: Seq<[S; 2]>|
                circle.len() == RINGS && sea.vertex@ == #[trigger] control_points_spec(circle),
            exists|pi: S| sea.waves@ == #[trigger] oscillators_spec(samples@, pi),
            sea.position == identity_spec::<S>(),
            sea.rotate == identity_spec::<S>(),
            sea.scale == identity_spec::<S>(),
            sea.pmodel == identity_spec::<S>(),
            sea.color == sea_color::<S>(),
    {
        let pi = S::pi();
        let zero = S::zero();
        let mut circle: [[S; 2]; 40] = [[zero; 2]; 40];
        for i in 0..40usize {
            let angle = ring_angle(pi, i);
            circle[i] = [angle.cos(), angle.sin()];
        }
        let vertex = control_points(&circle);
        let mut waves: [[S; 3]; 440] = [[zero; 3]; 440];
        for index in 0..440usize
            invariant
                forall|k: int| 0 <= k < index ==> waves[k] == oscillator_spec(samples[k], pi),
        {
            waves[index] = oscillator(samples[index], pi);
        }
        assert(waves@ =~= oscillators_spec(samples@, pi));
        Cylinder::from_parts(vertex, waves)
    }

    /// Moves the sea on by one frame.
    ///
    /// The cosine and the sine of each phase are taken once, and the sea
    /// moves as [`Cylinder::wave_by`] says for whatever they were.
    pub fn wave(&mut self)
        requires
            old(self).vertex.len() == POINTS,
        ensures
            exists|trig: Seq<[S; 2]>|
                trig.len() == POINTS && #[trigger] waved(*old(self), trig, *final(self)),
    {
        let zero = S::zero();
        let mut trig: [[S; 2]; 440] = [[zero; 2]; 440];
        for index in 0..440usize {
            let phase = self.waves[index][0];
            trig[index] = [phase.cos(), phase.sin()];
        }
        self.wave_by(&trig);
    }

    /// Sets the rotation, which is applied after the scale: by `angle`
    /// radians about the axis `xyz` (0 for x, 1 for y, 2 for z). Any other
    /// axis resets the rotation to the identity.
    pub fn set_rotate(&mut self, angle: S, xyz: i32)
        ensures
            exists|c: S, s: S| final(self).rotate == #[trigger] rotation_spec(c, s, xyz),
            !(0 <= xyz <= 2) ==> final(self).rotate == identity_spec::<S>(),
            *final(self) == (Cylinder { rotate: final(self).rotate, ..*old(self) }),
    {
        self.rotate = rotation_by(angle, xyz);
    }
}

} // verus!
