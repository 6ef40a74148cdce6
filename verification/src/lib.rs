//! Client-side logic for the Fio bank REST API: request composition, response
//! classification, payment-order XML encoding and input validation.
//!
//! The library performs no I/O. It decides what to send and how to read what
//! came back; a transport around it carries the bytes.

pub mod client;
pub mod error;
pub mod literal;
pub mod text;
pub mod types;
pub mod validation;
