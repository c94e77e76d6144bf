//! The style bag, its builders, and pseudo-state resolution.
pub mod builders;
pub mod decor;
pub mod geometry;
pub mod laws;
pub mod per_state;
pub mod resolve;
pub mod shared_style;
pub mod sides;
