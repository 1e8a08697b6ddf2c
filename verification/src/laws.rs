//! What holds of the transforms over an exact number type.
//!
//! The contracts of the crate say which operations are applied, in which
//! order. The theorems here say what comes of it where the operations obey
//! the algebra of [`Laws`].

use crate::cylinder::displaced_spec;
use crate::cylinder::oscillator_spec;
use crate::fixed::Fixed;
use crate::geom::entry;
use crate::geom::partial_dot;
use crate::geom::product;
use crate::geom::Position;
use crate::scalar::Laws;
use crate::scalar::Scalar;
use crate::transform::compose_spec;
use crate::transform::identity_spec;
use crate::transform::rotation_spec;
use crate::transform::scaling_spec;
use crate::transform::translation_spec;
use vstd::prelude::*;

verus! {

/// Row `i` of the linear part of `m`: its upper left 3×3 block.
pub open spec fn block_row<S: Scalar>(m: [[S; 4]; 4], i: int) -> [S; 3] {
    [m[i][0], m[i][1], m[i][2]]
}

/// Column `j` of the linear part of `m`.
pub open spec fn block_column<S: Scalar>(m: [[S; 4]; 4], j: int) -> [S; 3] {
    [m[0][j], m[1][j], m[2][j]]
}

/// The scalar product of two vectors, summed in the order of the index.
pub open spec fn dot3<S: Scalar>(a: [S; 3], b: [S; 3]) -> S {
    a[0].times_spec(b[0]).plus_spec(a[1].times_spec(b[1])).plus_spec(a[2].times_spec(b[2]))
}

/// One where `i` and `j` are the same, zero where they are not.
pub open spec fn delta<S: Scalar>(i: int, j: int) -> S {
    if i == j {
        S::one_spec()
    } else {
        S::zero_spec()
    }
}

/// The linear part of `m` times its transpose is the identity, and so is its
/// transpose times it: the rows are of length one and at right angles to one
/// another, and so are the columns.
pub open spec fn orthonormal<S: Scalar>(m: [[S; 4]; 4]) -> bool {
    forall|i: int, j: int|
        0 <= i < 3 && 0 <= j < 3 ==> {
            &&& #[trigger] dot3(block_row(m, i), block_row(m, j)) == delta::<S>(i, j)
            &&& #[trigger] dot3(block_column(m, i), block_column(m, j)) == delta::<S>(i, j)
        }
}

/// `a * d - b * c`.
pub open spec fn minor<S: Scalar>(a: S, b: S, c: S, d: S) -> S {
    a.times_spec(d).minus_spec(b.times_spec(c))
}

/// The determinant of the linear part of `m`, expanded along its first row.
pub open spec fn det3<S: Scalar>(m: [[S; 4]; 4]) -> S {
    m[0][0].times_spec(minor(m[1][1], m[1][2], m[2][1], m[2][2])).minus_spec(
        m[0][1].times_spec(minor(m[1][0], m[1][2], m[2][0], m[2][2])),
    ).plus_spec(m[0][2].times_spec(minor(m[1][0], m[1][1], m[2][0], m[2][1])))
}

/// All the laws, of `a` and `b` and in both orders.
proof fn laws_of<S: Laws>(a: S, b: S)
    requires
        a.in_range(),
        b.in_range(),
    ensures
        S::zero_spec().in_range(),
        S::one_spec().in_range(),
        a.plus_spec(b).in_range(),
        b.plus_spec(a).in_range(),
        a.minus_spec(b).in_range(),
        b.minus_spec(a).in_range(),
        a.times_spec(b).in_range(),
        a.negated_spec().in_range(),
        b.negated_spec().in_range(),
        a.plus_spec(S::zero_spec()) == a,
        S::zero_spec().plus_spec(a) == a,
        a.times_spec(S::zero_spec()) == S::zero_spec(),
        S::zero_spec().times_spec(a) == S::zero_spec(),
        a.times_spec(S::one_spec()) == a,
        S::one_spec().times_spec(a) == a,
        a.plus_spec(b) == b.plus_spec(a),
        a.times_spec(b) == b.times_spec(a),
        S::zero_spec().negated_spec() == S::zero_spec(),
        a.negated_spec().negated_spec() == a,
        a.plus_spec(a.negated_spec()) == S::zero_spec(),
        a.negated_spec().plus_spec(a) == S::zero_spec(),
        a.negated_spec().times_spec(b) == a.times_spec(b).negated_spec(),
        a.times_spec(b.negated_spec()) == a.times_spec(b).negated_spec(),
        b.negated_spec().times_spec(a) == a.times_spec(b).negated_spec(),
        b.times_spec(a.negated_spec()) == a.times_spec(b).negated_spec(),
        a.minus_spec(b) == a.plus_spec(b.negated_spec()),
        b.minus_spec(a) == b.plus_spec(a.negated_spec()),
{
    S::law_constants(0);
    S::law_closed(a, b);
    S::law_closed(b, a);
    S::law_neutral(a);
    S::law_commutes(a, b);
    S::law_sign(a, b);
    S::law_sign(b, a);
}

/// What the proofs about a rotation need of its five entries and of their
/// products.
proof fn laws_of_rotation<S: Laws>(c: S, s: S)
    requires
        c.in_range(),
        s.in_range(),
        c.times_spec(c).plus_spec(s.times_spec(s)) == S::one_spec(),
    ensures
        ({
            let o = S::zero_spec();
            let l = S::one_spec();
            let m = s.negated_spec();
            &&& o.times_spec(o) == o && o.times_spec(l) == o && l.times_spec(o) == o
            &&& o.times_spec(c) == o && c.times_spec(o) == o
            &&& o.times_spec(s) == o && s.times_spec(o) == o
            &&& o.times_spec(m) == o && m.times_spec(o) == o
            &&& l.times_spec(l) == l && l.times_spec(c) == c && c.times_spec(l) == c
            &&& l.times_spec(s) == s && s.times_spec(l) == s
            &&& l.times_spec(m) == m && m.times_spec(l) == m
            &&& o.plus_spec(o) == o && o.plus_spec(l) == l && l.plus_spec(o) == l
            &&& o.minus_spec(o) == o && l.minus_spec(o) == l
            &&& o.minus_spec(s) == m && o.minus_spec(m) == s
            &&& c.minus_spec(o) == c && m.minus_spec(o) == m
            &&& c.times_spec(c).minus_spec(o) == c.times_spec(c)
            &&& o.plus_spec(c.times_spec(c)) == c.times_spec(c)
            &&& o.plus_spec(s.times_spec(s)) == s.times_spec(s)
            &&& o.plus_spec(c.times_spec(s)) == c.times_spec(s)
            &&& o.plus_spec(c.times_spec(s).negated_spec()) == c.times_spec(s).negated_spec()
            &&& c.times_spec(c).plus_spec(o) == c.times_spec(c)
            &&& s.times_spec(s).plus_spec(o) == s.times_spec(s)
            &&& c.times_spec(s).plus_spec(o) == c.times_spec(s)
            &&& c.times_spec(s).negated_spec().plus_spec(o) == c.times_spec(s).negated_spec()
            &&& s.times_spec(c) == c.times_spec(s)
            &&& m.times_spec(m) == s.times_spec(s)
            &&& m.times_spec(c) == c.times_spec(s).negated_spec()
            &&& c.times_spec(m) == c.times_spec(s).negated_spec()
            &&& s.times_spec(m) == s.times_spec(s).negated_spec()
            &&& m.times_spec(s) == s.times_spec(s).negated_spec()
            &&& s.times_spec(s).plus_spec(c.times_spec(c)) == l
            &&& c.times_spec(s).plus_spec(c.times_spec(s).negated_spec()) == o
            &&& c.times_spec(s).negated_spec().plus_spec(c.times_spec(s)) == o
            &&& c.times_spec(c).minus_spec(s.times_spec(s).negated_spec()) == l
            &&& s.times_spec(s).negated_spec().negated_spec() == s.times_spec(s)
        }),
{
    let o = S::zero_spec();
    let l = S::one_spec();
    S::law_constants(0);
    let m = s.negated_spec();
    laws_of(o, o);
    laws_of(o, l);
    laws_of(l, l);
    laws_of(c, o);
    laws_of(s, o);
    laws_of(m, o);
    laws_of(c, c);
    laws_of(c, s);
    laws_of(s, m);
    laws_of(m, m);
    let cc = c.times_spec(c);
    let ss = s.times_spec(s);
    let cs = c.times_spec(s);
    laws_of(cc, o);
    laws_of(cs, o);
    laws_of(cs.negated_spec(), o);
    laws_of(cc, ss);
    laws_of(ss, ss);
    laws_of(cc, ss.negated_spec());
}

/// A rotation about a principal axis is orthonormal and keeps volume and
/// handedness: its linear part times its transpose is the identity either
/// way round, and its determinant is one.
///
/// This holds over an exact number type, of a cosine and a sine whose squares
/// add up to one. Any other selector of the axis gives the identity, of which
/// it holds as well.
pub proof fn lemma_rotation_orthonormal<S: Laws>(c: S, s: S, xyz: i32)
    requires
        c.in_range(),
        s.in_range(),
        c.times_spec(c).plus_spec(s.times_spec(s)) == S::one_spec(),
    ensures
        orthonormal(rotation_spec(c, s, xyz)),
        det3(rotation_spec(c, s, xyz)) == S::one_spec(),
{
    laws_of_rotation(c, s);
    let r = rotation_spec(c, s, xyz);
    assert forall|i: int, j: int| 0 <= i < 3 && 0 <= j < 3 implies #[trigger] dot3(
        block_row(r, i),
        block_row(r, j),
    ) == delta::<S>(i, j) && #[trigger] dot3(block_column(r, i), block_column(r, j)) == delta::<S>(
        i,
        j,
    ) by {
    }
}

/// Entry `(i, j)` of `m`.
pub open spec fn at<S: Scalar>(m: [[S; 4]; 4], i: int, j: int) -> S {
    m[i][j]
}

/// Every entry of `m` is in the range on which the laws hold.
pub open spec fn in_range4<S: Laws>(m: [[S; 4]; 4]) -> bool {
    forall|i: int, j: int| 0 <= i < 4 && 0 <= j < 4 ==> (#[trigger] at(m, i, j)).in_range()
}

/// The last row of `m` is that of an affine map: it sends the origin to the
/// offset that the row starts with, and leaves the fourth coordinate alone.
pub open spec fn affine<S: Scalar>(m: [[S; 4]; 4]) -> bool {
    m[3] == [S::zero_spec(), S::zero_spec(), S::zero_spec(), S::one_spec()]
}

proof fn lemma_partial_in_range<S: Laws>(a: [[S; 4]; 4], b: [[S; 4]; 4], i: int, j: int, k: int)
    requires
        in_range4(a),
        in_range4(b),
        0 <= i < 4,
        0 <= j < 4,
        0 <= k <= 4,
    ensures
        partial_dot(a, b, i, j, k).in_range(),
    decreases k,
{
    if k == 0 {
        S::law_constants(0);
    } else {
        lemma_partial_in_range(a, b, i, j, k - 1);
        assert(at(a, i, k - 1).in_range());
        assert(at(b, k - 1, j).in_range());
        S::law_closed(a[i][k - 1], b[k - 1][j]);
        S::law_closed(partial_dot(a, b, i, j, k - 1), a[i][k - 1].times_spec(b[k - 1][j]));
    }
}

proof fn lemma_product_in_range<S: Laws>(a: [[S; 4]; 4], b: [[S; 4]; 4])
    requires
        in_range4(a),
        in_range4(b),
    ensures
        in_range4(product(a, b)),
{
    assert forall|i: int, j: int| 0 <= i < 4 && 0 <= j < 4 implies (#[trigger] at(
        product(a, b),
        i,
        j,
    )).in_range() by {
        lemma_partial_in_range(a, b, i, j, 4);
    }
}

/// Under a matrix whose last row is affine, the last row of a product is the
/// last row of its second factor.
proof fn lemma_affine_row<S: Laws>(a: [[S; 4]; 4], b: [[S; 4]; 4])
    requires
        affine(a),
        in_range4(b),
    ensures
        product(a, b)[3] == b[3],
{
    let o = S::zero_spec();
    S::law_constants(0);
    assert forall|j: int| 0 <= j < 4 implies entry(a, b, 3, j) == b[3][j] by {
        reveal_with_fuel(partial_dot, 5);
        assert(at(b, 0, j).in_range() && at(b, 1, j).in_range() && at(b, 2, j).in_range() && at(
            b,
            3,
            j,
        ).in_range());
        laws_of(o, o);
        laws_of(b[0][j], o);
        laws_of(b[1][j], o);
        laws_of(b[2][j], o);
        laws_of(b[3][j], o);
    }
}

/// Whatever the scale and the rotation of a node, the node's model matrix
/// takes the origin of the mesh to the node's translation, where the parent
/// is the identity: the offset stands untouched in the last row.
///
/// This holds over an exact number type.
pub proof fn lemma_origin_lands_on_offset<S: Laws>(
    size: [S; 3],
    c: S,
    s: S,
    xyz: i32,
    offset: [S; 3],
)
    requires
        size[0].in_range() && size[1].in_range() && size[2].in_range(),
        c.in_range() && s.in_range(),
        offset[0].in_range() && offset[1].in_range() && offset[2].in_range(),
    ensures
        compose_spec(
            scaling_spec(size[0], size[1], size[2]),
            rotation_spec(c, s, xyz),
            translation_spec(offset[0], offset[1], offset[2]),
            identity_spec(),
        )[3] == [offset[0], offset[1], offset[2], S::one_spec()],
{
    let o = S::zero_spec();
    let l = S::one_spec();
    let scale = scaling_spec(size[0], size[1], size[2]);
    let rotate = rotation_spec(c, s, xyz);
    let translate = translation_spec(offset[0], offset[1], offset[2]);
    let parent = identity_spec::<S>();
    S::law_constants(0);
    S::law_closed(s, s);
    assert(in_range4(rotate)) by {
        assert forall|i: int, j: int| 0 <= i < 4 && 0 <= j < 4 implies (#[trigger] at(
            rotate,
            i,
            j,
        )).in_range() by {
        }
    }
    assert(in_range4(translate)) by {
        assert forall|i: int, j: int| 0 <= i < 4 && 0 <= j < 4 implies (#[trigger] at(
            translate,
            i,
            j,
        )).in_range() by {
        }
    }
    assert(in_range4(parent)) by {
        assert forall|i: int, j: int| 0 <= i < 4 && 0 <= j < 4 implies (#[trigger] at(
            parent,
            i,
            j,
        )).in_range() by {
        }
    }
    let placed = product(translate, parent);
    let turned = product(rotate, placed);
    lemma_product_in_range(translate, parent);
    lemma_product_in_range(rotate, placed);
    lemma_affine_row(scale, turned);
    lemma_affine_row(rotate, placed);
    assert(placed[3] == [offset[0], offset[1], offset[2], l]) by {
        reveal_with_fuel(partial_dot, 5);
        laws_of(offset[0], l);
        laws_of(offset[1], l);
        laws_of(offset[2], l);
        laws_of(o, l);
        laws_of(l, l);
    }
}

/// An oscillator without amplitude leaves its control point where it is,
/// whatever its phase. This holds over an exact number type.
pub proof fn lemma_still_water<S: Laws>(p: Position<S>, wave: [S; 3], trig: [S; 2])
    requires
        p.position[0].in_range() && p.position[1].in_range(),
        trig[0].in_range() && trig[1].in_range(),
        wave[1] == S::zero_spec(),
    ensures
        displaced_spec(p, wave, trig) == p,
{
    S::law_neutral(trig[0]);
    S::law_neutral(trig[1]);
    S::law_neutral(p.position[0]);
    S::law_neutral(p.position[1]);
    assert(displaced_spec(p, wave, trig).position =~= p.position);
}

/// Over decimal numbers, samples of the unit interval give oscillators
/// within their ranges: a phase of less than a full turn, an amplitude from
/// 0.01 up to 0.04, and a speed from 0.016 up to 0.048.
pub proof fn lemma_oscillator_ranges(sample: [Fixed; 3], pi: Fixed)
    requires
        0 <= sample[0].milli < 1000,
        0 <= sample[1].milli < 1000,
        0 <= sample[2].milli < 1000,
        0 < pi.milli <= 4000,
    ensures
        0 <= oscillator_spec(sample, pi)[0].milli < 2 * pi.milli,
        10 <= oscillator_spec(sample, pi)[1].milli < 40,
        16 <= oscillator_spec(sample, pi)[2].milli < 48,
{
    let turned = sample[0].milli * pi.milli;
    assert(0 <= turned <= 999 * pi.milli) by (nonlinear_arith)
        requires
            turned == sample[0].milli * pi.milli,
            0 <= sample[0].milli <= 999,
            0 < pi.milli,
    ;
    assert((turned / 1000) * 2000 == 2000 * (turned / 1000)) by (nonlinear_arith);
    assert(0 <= sample[1].milli * 30 <= 29970);
    assert(0 <= sample[2].milli * 32 <= 31968);
}

} // verus!
