//! The operations that the user interface calls.

pub mod game;
