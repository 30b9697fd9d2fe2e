//! An animated unit-circle diagram, modelled in fixed-point arithmetic.
//!
//! The library owns the whole per-frame computation: advancing the angle,
//! deriving the six trigonometric values (with divergence clamped to a
//! finite sentinel), placing the text labels, detecting overlaps between
//! label pairs and fading overlapping labels in and out.  An external
//! renderer only reads positions, opacities and values.
//!
//! Every quantity is a signed 64-bit integer counting micro-units
//! (`fixed::FP_ONE` per whole unit), so the arithmetic is exact and fully
//! specified.

pub mod consts;
pub mod fixed;
pub mod geometry;
pub mod labels;
pub mod model;
pub mod trig;
