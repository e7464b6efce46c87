//! Incremental indexer for a plugin marketplace: the rules that decide what a
//! synchronization pass does, stated and proved over plain values.

pub mod api;
pub mod args;
pub mod codec;
pub mod db;
pub mod error;
pub mod meta;
pub mod statistics;
pub mod text;
