//! A unified error taxonomy for a client of a remote JSON-over-HTTP service.
//!
//! Every failure the client can meet — a transport fault, a local I/O
//! failure, text that is not JSON, a value that does not decode or encode,
//! or a non-success status from the service — is carried by one closed
//! [`errors::Error`] type, with lossless conversion from each collaborator's
//! own failure value, a uniform one-line rendering, and a uniform
//! underlying-cause accessor.

pub mod decimal;

pub mod errors;
