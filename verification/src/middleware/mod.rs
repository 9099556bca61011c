//! What is done with every request before it is answered.

pub mod rate_limit;
