//! The terminal dashboard: what it shows, and what keys and commands do to it.

pub mod banner;
pub mod dashboard;
pub mod environment;
pub mod page;
pub mod probe;
pub mod snapshot;
pub mod tables;
