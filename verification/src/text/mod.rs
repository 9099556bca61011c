//! Text on which the rest of the crate builds its statements, tokens and screens.

pub mod chars;
pub mod decimal;
pub mod number;
pub mod order;
pub mod search;
pub mod split;
