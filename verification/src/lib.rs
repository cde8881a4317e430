//! Verified core of the displex Discord/Plex/Tautulli companion service.

pub mod bot;
pub mod config;
pub mod db;
pub mod entities;
pub mod errors;
pub mod graphql;
pub mod metrics;
pub mod server;
pub mod text;
pub mod services;
pub mod tasks;
