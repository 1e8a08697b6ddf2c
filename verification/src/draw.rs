//! What a node hands to the graphics backend when it is drawn.

use vstd::prelude::*;

verus! {

/// The comparison that decides whether a fragment replaces what the depth
/// buffer holds.
#[derive(Clone, Copy, Debug, PartialEq, Eq)]
pub enum DepthTest {
    /// The fragment is kept if it is nearer than what is there.
    IfLess,
    /// The fragment is kept if it is nearer than, or as near as, what is
    /// there.
    IfLessOrEqual,
}

/// One draw call: the values that the backend needs besides the vertex data
/// of the node and the uniforms of the camera.
#[derive(Debug, PartialEq)]
pub struct DrawCall<S> {
    /// The colour of the object, as red, green and blue.
    pub color: [S; 3],
    /// The matrix that takes the mesh into world space.
    pub model: [[S; 4]; 4],
    /// The depth comparison to draw with.
    pub depth_test: DepthTest,
    /// Whether the call writes to the depth buffer.
    pub depth_write: bool,
    /// Whether the call is multisampled.
    pub multisampling: bool,
    /// Whether the triangles are given by an index buffer, or by the order
    /// of the vertices.
    pub indexed: bool,
}

impl<S: Copy> Clone for DrawCall<S> {
    fn clone(&self) -> (r: Self)
        ensures
            r == *self,
    {
        *self
    }
}

impl<S: Copy> Copy for DrawCall<S> {

}

} // verus!
