//! Logic of the HTTP server: credentials, sessions, configuration, routes.
pub mod auth;
pub mod config;
pub mod error;
pub mod db;
pub mod service;
pub mod routes;
pub mod web_assets;
