//! Signal conditioning.
pub mod encoder;
