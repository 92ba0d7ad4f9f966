//! Low-level support for a network service that speaks a line-oriented binary
//! protocol and runs several listeners on one port:
//!
//! - [`error`]: the failure type that all subsystems share;
//! - [`case`]: in-place ASCII case normalisation of keyword buffers;
//! - [`listener`]: the steps by which a port-sharing listener is brought up.

pub mod case;
pub mod error;
pub mod listener;

pub use case::{update_to_lower, update_to_upper};
pub use error::{AddrParseFailure, AsResult, Error};
