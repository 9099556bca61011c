//! What holds of the library as a whole: what its results come to in terms of what went in.

pub mod access;
pub mod answers;
pub mod dashboard;
pub mod identify;
pub mod lookup;
pub mod models;
pub mod operations;
pub mod presence;
pub mod ready;
pub mod services;
pub mod session;
pub mod statements;
pub mod tables;
pub mod texts;
