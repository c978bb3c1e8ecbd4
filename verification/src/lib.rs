//! A periodically-reseeding pseudo-random number generator facade.
//!
//! The centre of the crate is [`reseeding::ReseedingGenerator`]: a fast,
//! deterministic bit-generator whose internal state is refreshed at a bounded
//! interval from an external entropy source.  [`shared::SharedHandle`] guards
//! one such generator behind a verified lock so that many threads can draw
//! from it, and [`direct::DirectFacade`] exposes the entropy source itself as
//! a bit-generator for callers who want unbuffered freshness on every call.

pub mod core_gen;
pub mod direct;
pub mod entropy;
pub mod laws;
pub mod reseeding;
pub mod seed;
pub mod shared;
