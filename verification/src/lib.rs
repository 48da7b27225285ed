//! Validated recipes: each field of a recipe is a value object that can only be
//! built from input that meets its rule, and a recipe is assembled from them
//! in one step that reports the first rule that was broken.

pub mod domain;
