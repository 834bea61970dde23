//! A token-budget-aware map-reduce summarization core.
//!
//! Documents are summarized independently (the map phase), then the partial
//! results are merged batch by batch (the reduce phase) until one remains,
//! while no batch ever exceeds the token budget of the target model's
//! context window.

pub mod batch;
pub mod chain;
pub mod errors;
pub mod map_stage;
pub mod model;
pub mod partial;
pub mod reduce;
pub mod tokens;
pub mod transform;
