//! Correlates a place-search service with a boundary database and encodes
//! the geometry of both in well-known binary form.

pub mod boundary;
pub mod codec;
pub mod environment;
pub mod pipeline;
pub mod repo;
pub mod search;
