//! Grid-aligned selection-volume manipulation for a networked voxel/actor
//! world editor.
//!
//! Each client owns one terrain selection box and one actor selection box.
//! This crate covers the logic that drives them: snapping a continuous camera
//! orientation to a stable grid basis, turning discrete directional input into
//! integer bounds deltas with camera-relative anchoring, coalescing rapid
//! local edits into a single outstanding correction per client while an
//! authoritative confirmation is in flight, the terrain/actor tool
//! activation marks, the tool actions that stage insert/remove/rotate change
//! requests, and the procedural frame-outline geometry of a box.
//!
//! Everything here works on plain integers. Continuous camera vectors enter
//! as fixed-point values, and the outline mesh leaves in tenths of a world
//! unit; the engine-facing layer around this crate converts at the boundary.

pub mod aabb;
pub mod axis;
pub mod delta;
pub mod dispatch;
pub mod mesh;
pub mod messages;
pub mod session;
pub mod vec3;
pub mod workspace;
