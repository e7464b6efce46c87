//! What the indexer asks of the upstream repository, and how it reads the answers.

pub mod address;
pub mod digest;
pub mod endpoints;
pub mod hash;
pub mod headers;
pub mod models;
pub mod resolution;
