//! A bounded particle engine with a verified core, and two small text
//! utilities beside it.
//!
//! The engine owns a pool of short-lived particles. An emitter fills the pool,
//! an integrator advances and prunes it once per tick, and an exporter
//! flattens it into the buffers a renderer reads. All quantities are
//! fixed-point integers, so every result is exact and every contract speaks of
//! plain arithmetic.

pub mod scalar;
pub mod particle;
pub mod store;
pub mod random;
pub mod emitter;
pub mod integrator;
pub mod exporter;
pub mod system;
pub mod config;
pub mod fileutils;
pub mod responder;
