//! The gateway: what is said over a socket, and who hears it.

pub mod audience;
pub mod cookie;
pub mod events;
pub mod payload;
pub mod session;
