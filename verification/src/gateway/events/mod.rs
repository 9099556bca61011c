//! What the gateway does on each event that takes more than an answer.

pub mod identify;
pub mod presence;
pub mod ready;
