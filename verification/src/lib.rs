//! Verified core of the Python bindings for `user-permission`.
//!
//! The bindings themselves (Python classes, coroutines, conversions of Python
//! objects) live in the companion `app/` crate; this library holds the logic
//! they rely on, each function with a contract checked by Verus.

pub mod database;
pub mod error;
pub mod group;
pub mod password;
pub mod service_client;
pub mod user;
pub mod text;
pub mod token;
