//! A verified core for a multi-mirror package fetcher.
//!
//! The library covers the logic of the fetcher: building package and
//! mirror-list URLs, parsing a mirror-list body into candidate mirrors,
//! accounting for the bytes of one download attempt, and the sequential
//! mirror-fallback state machine. Network transport, terminal rendering
//! and argument handling live outside the library.

pub mod engine;
pub mod errors;
pub mod fallback;
pub mod mirror;
pub mod mirror_list;
pub mod package;
