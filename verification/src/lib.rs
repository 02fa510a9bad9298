//! A stateless gateway core for the dinodial call-automation service.
//!
//! The crate holds the two halves of the gateway that decide anything: the
//! request translator, which turns a local operation into one outbound HTTP
//! request, and the response normalizer, which turns what the upstream sent
//! back into the local reply. Both work on plain values; sockets, files and
//! the process environment belong to the program that links this library.

pub mod status;
pub mod error;
pub mod json;
pub mod text;
pub mod token;
pub mod operation;
pub mod config;
pub mod structs;
pub mod translator;
pub mod normalizer;
