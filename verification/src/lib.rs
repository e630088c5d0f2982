//! A verified model of a small interactive scene demo.
//!
//! The library holds the demo's decision logic: a model-selection state
//! machine that swaps the displayed shape on request, per-frame mutators
//! that spin the active shape and advance every shader's time uniform, and
//! a camera controller whose orientation is always re-derived to face a
//! fixed world target.
//!
//! Scalar quantities are integers so that every update is exact: times are
//! in milliseconds, lengths in thousandths of a world unit, and angles in
//! milliradians. The host that renders the scene converts at its edge.

pub mod camera;
pub mod laws;
pub mod scene;
pub mod selection;
pub mod shape;
