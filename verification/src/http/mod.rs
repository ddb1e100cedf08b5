//! REST layer: errors, JSON handling, response models and the client core.

pub mod client;
pub mod error;
pub mod json;
pub mod models;
