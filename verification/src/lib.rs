//! A registry of uniquely identified assets ("kitties"), each with an
//! immutable 16-byte genome, an owner, and an optional sale price.

pub mod genome;
pub mod registry;
