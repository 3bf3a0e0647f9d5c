//! A small key-value store kept as one JSON object: string keys map to strings
//! or to objects built with `Tree`.
pub mod database;
pub mod json;
pub mod tree;
