//! A durable store of polls: a counter that hands out identifiers and an
//! ordered map from identifier to record, each in a stable-memory region.

pub mod backing;
pub mod codec;
pub mod error;
pub mod laws;
pub mod model;
pub mod poll;
pub mod store;
