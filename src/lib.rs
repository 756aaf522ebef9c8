//! Bouncing desktop pests: fixed-point physics, the pest registry, and the
//! per-event lifecycle decisions, independent of any windowing toolkit.
pub mod vector2;
pub mod rng;
pub mod physics;
pub mod registry;
pub mod lifecycle;
