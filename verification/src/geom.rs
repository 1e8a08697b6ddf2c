//! Vertex data and the product of two 4×4 matrices.

use crate::scalar::Scalar;
use vstd::prelude::*;

verus! {

/// A point of a mesh, in the mesh's own space.
#[derive(Debug, PartialEq)]
pub struct Position<S> {
    pub position: [S; 3],
}

impl<S: Copy> Clone for Position<S> {
    fn clone(&self) -> (r: Self)
        ensures
            r == *self,
    {
        *self
    }
}

impl<S: Copy> Copy for Position<S> {

}

/// The direction that a vertex of a mesh faces.
#[derive(Debug, PartialEq)]
pub struct Normal<S> {
    pub normal: [S; 3],
}

impl<S: Copy> Clone for Normal<S> {
    fn clone(&self) -> (r: Self)
        ensures
            r == *self,
    {
        *self
    }
}

impl<S: Copy> Copy for Normal<S> {

}

/// The cross product `a × b`.
pub open spec fn cross_spec<S: Scalar>(a: [S; 3], b: [S; 3]) -> [S; 3] {
    [
        a[1].times_spec(b[2]).minus_spec(a[2].times_spec(b[1])),
        a[2].times_spec(b[0]).minus_spec(a[0].times_spec(b[2])),
        a[0].times_spec(b[1]).minus_spec(a[1].times_spec(b[0])),
    ]
}

/// The cross product of two vectors.
pub fn cross<S: Scalar>(a: &[S; 3], b: &[S; 3]) -> (c: [S; 3])
    ensures
        c == cross_spec(*a, *b),
{
    [
        a[1].times(b[2]).minus(a[2].times(b[1])),
        a[2].times(b[0]).minus(a[0].times(b[2])),
        a[0].times(b[1]).minus(a[1].times(b[0])),
    ]
}

/// The sum of the first `k` products of row `i` of `a` with column `j` of
/// `b`, accumulated from zero in the order of the index.
pub open spec fn partial_dot<S: Scalar>(
    a: [[S; 4]; 4],
    b: [[S; 4]; 4],
    i: int,
    j: int,
    k: int,
) -> S
    decreases k,
{
    if k <= 0 {
        S::zero_spec()
    } else {
        partial_dot(a, b, i, j, k - 1).plus_spec(a[i][k - 1].times_spec(b[k - 1][j]))
    }
}

/// Entry `(i, j)` of the product `a · b`.
pub open spec fn entry<S: Scalar>(a: [[S; 4]; 4], b: [[S; 4]; 4], i: int, j: int) -> S {
    partial_dot(a, b, i, j, 4)
}

/// Row `i` of the product `a · b`.
pub open spec fn product_row<S: Scalar>(a: [[S; 4]; 4], b: [[S; 4]; 4], i: int) -> [S; 4] {
    [entry(a, b, i, 0), entry(a, b, i, 1), entry(a, b, i, 2), entry(a, b, i, 3)]
}

/// The matrix product `a · b`.
pub open spec fn product<S: Scalar>(a: [[S; 4]; 4], b: [[S; 4]; 4]) -> [[S; 4]; 4] {
    [product_row(a, b, 0), product_row(a, b, 1), product_row(a, b, 2), product_row(a, b, 3)]
}

/// Multiplies two matrices: entry `(i, j)` of the result is the sum over `k`
/// of `first[i][k] * second[k][j]`.
pub fn matrix_multi<S: Scalar>(first: &[[S; 4]; 4], second: &[[S; 4]; 4]) -> (a: [[S; 4]; 4])
    ensures
        a == product(*first, *second),
{
    let zero = S::zero();
    let mut a: [[S; 4]; 4] = [[zero; 4]; 4];
    for i in 0..4usize
        invariant
            forall|p: int| 0 <= p < i ==> a[p] == product_row(*first, *second, p),
    {
        let mut row: [S; 4] = [zero; 4];
        for j in 0..4usize
            invariant
                i < 4,
                forall|q: int| 0 <= q < j ==> row[q] == entry(*first, *second, i as int, q),
        {
            let mut sum = S::zero();
            for k in 0..4usize
                invariant
                    i < 4,
                    j < 4,
                    sum == partial_dot(*first, *second, i as int, j as int, k as int),
            {
                sum = sum.plus(first[i][k].times(second[k][j]));
            }
            row[j] = sum;
        }
        a[i] = row;
    }
    a
}

} // verus!
