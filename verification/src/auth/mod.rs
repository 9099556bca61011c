//! Who a request comes from.

pub mod encoding;
pub mod token;
