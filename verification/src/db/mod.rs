//! Rows of the local store.

pub mod models;
