//! The storefront's native client on this machine.

pub mod steam;
