//! What is decided about every request and response.

pub mod security;
