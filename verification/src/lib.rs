//! Backend logic of a desktop game library: reconciling the games a user owns
//! on a storefront with a metadata catalog, a local store and an image cache.

pub mod assets;
pub mod client;
pub mod commands;
pub mod config;
pub mod db;
pub mod dotenv;
pub mod igdb;
pub mod service;
pub mod steam;
pub mod text;
pub mod twitch;
