//! Identifiers in canonical UUID text form: random (version 4) when no input
//! is given, or derived from a text input (version 5 over the SHA-256 digest
//! of its UTF-8 bytes, in the OID namespace).

pub mod canonical;
pub mod generator;
mod primitives;

pub use generator::{generate_uuid_with_input, generate_uuid_without_input, uuid};
