//! The verified core of a small chat backend.

pub mod auth;
pub mod config;
pub mod error;
pub mod gateway;
pub mod json;
pub mod laws;
pub mod middleware;
pub mod models;
pub mod orm;
pub mod string_map;
pub mod text;
pub mod tui;
