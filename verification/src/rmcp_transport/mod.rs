//! The bridge to `rmcp`: its messages, and the workers that run a transport for
//! an `rmcp` service.

pub mod convert;
pub mod laws;
pub mod worker;
