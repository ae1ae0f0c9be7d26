//! The HTTP interface of the bridge.

pub mod error;
