//! Scene-graph transforms, a procedurally generated sea and the aeroplane
//! that flies over it, kept apart from the graphics backend that draws them.
//!
//! A node of the scene carries a scale, a rotation and a translation of its
//! own, and the model matrix that its parent hands it before it is drawn;
//! [`transform`] composes them, always in that order. The [`plane`] is six
//! [`cube`]s under one group transform. The sea is a [`cylinder`] whose
//! control points move with their oscillators from frame to frame, and whose
//! mesh is generated anew from them. A node does not draw itself: it returns
//! the [`draw`] call for the backend to issue.
//!
//! All of it is written over the numbers of [`scalar`], so that it runs on
//! floating point and is proved of every number type at once; [`fixed`] is an
//! exact one, and [`laws`] holds what follows of the scene where the numbers
//! are exact.

pub mod camera;
pub mod cube;
pub mod cylinder;
pub mod draw;
pub mod fixed;
pub mod geom;
pub mod laws;
pub mod plane;
pub mod scalar;
pub mod transform;
