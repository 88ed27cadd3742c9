//! Bounded translation of a point in 3-space.
//!
//! The crate models the movement of a single object that is driven by five
//! logical buttons (reset, up, down, left, right) and confined to an
//! axis-aligned box. Coordinates are fixed-point: one unit of a coordinate
//! is one hundredth of a world unit, so the per-tick step of 0.1 world
//! units, the reset height of 0.5 and the default box of half-width 10.0
//! are all represented exactly. The fixed-point model is a deliberate
//! choice: every representable coordinate is finite, so the translation is
//! total and no not-a-number or infinite value can reach it.

/// The box model and the clamped translation.
pub mod bounds;
/// Per-tick movement: button state to delta, reset, and the full step.
pub mod movement;
