//! The domain model.

pub mod clock;
pub mod laws;
pub mod missing;
pub mod recipe;
