//! Protocol constants, messages, validation and serialization.

pub mod access_laws;
pub mod constants;
pub mod error;
pub mod json;
pub mod laws;
pub mod member_laws;
pub mod members;
pub mod nostr;
pub mod serializers;
pub mod session;
pub mod types;
pub mod validation;
pub mod wire;
