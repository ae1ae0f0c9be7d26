//! The stand-alone HTTP service.

pub mod config;
