//! Statements for the database, put together from typed builders.

pub mod accounts;
pub mod calls;
pub mod change;
pub mod channels;
pub mod debug;
pub mod error;
pub mod filter;
pub mod guild_members;
pub mod guilds;
pub mod insert;
pub mod jsonb;
pub mod keys;
pub mod lookup;
pub mod messages;
pub mod users;
pub mod value;
