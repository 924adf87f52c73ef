//! Short, unique, URL-safe codes for string payloads: a base-62 encoder, a
//! sequence counter seeded from the persisted record count, and the
//! decisions of the write and read paths around the document store.

pub mod counter;
pub mod encoder;
pub mod records;
pub mod service;
