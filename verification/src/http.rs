//! The rules of the HTTP layer that do not depend on a transport.

pub mod middleware;
