//! Verified domain logic of a private English-learning lookup service.

pub mod domain;
pub mod keyed;
pub mod ports;
pub mod provider;
pub mod resilience;
pub mod text;
pub mod types;
