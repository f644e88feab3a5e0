//! Request-to-process bridge of an image-generation HTTP service.
//!
//! The library decides; the program around it performs. It checks the bearer
//! credential, maps a generation request onto the argument vector of the
//! generator executable, and turns what the process and the file system
//! reported into the reply that the client receives.

pub mod text;
pub mod request;
pub mod config;
pub mod args;
pub mod response;
pub mod auth;
pub mod generate;
