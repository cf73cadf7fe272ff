//! GPU skinning for 2D skeletal animation: attachments are baked once into
//! static vertex and index buffers, each frame's pose is extracted into
//! fixed-capacity uniform tables, and a per-slot dispatcher turns the draw
//! order into indexed draw calls with their blend and texture state.
//!
//! Coordinates, colours and matrix cells are never computed with here: they
//! are carried as the 32-bit patterns that the animation engine produced and
//! that the GPU will read. Bone weights are fixed-point fractions, so that
//! their normalisation is exact integer arithmetic.

pub mod attachment;
pub mod bake;
pub mod bake_laws;
pub mod bake_model;
pub mod blend;
pub mod buffers;
pub mod capacity;
pub mod clipping_attachment;
pub mod dispatch;
pub mod dispatch_laws;
pub mod extract;
pub mod extract_laws;
pub mod geometry;
pub mod influence;
pub mod pose;
pub mod report;
pub mod texture;
pub mod vertex;
pub mod weights;
