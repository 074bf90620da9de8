//! The web services that the library is built from.

pub mod steam;
