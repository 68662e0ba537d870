//! Core of a small ticket service: session-token resolution, the
//! authorization guard, the in-memory ticket store and the mapping from
//! internal errors to what a client is shown.
//!
//! Everything here is plain data in, plain data out. The HTTP server that
//! drives these functions lives outside this crate.

pub mod ctx;
pub mod error;
pub mod model;
pub mod web;

pub use ctx::Ctx;
pub use error::{ClientError, Error};
