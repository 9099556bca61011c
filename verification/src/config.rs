//! What the service is set up with.

use vstd::prelude::*;
use crate::text::chars::{owned, same_text};
use crate::text::number::{parse_unsigned, read_unsigned, NumberError};

verus! {

/// What the service is set up with.
#[derive(Debug, PartialEq)]
pub struct Config {
    pub database_url: String,
    pub redis_url: String,
    pub port: u16,
    pub token_secret: String,
    pub registration_closed: bool,
    pub verbose: bool,
    pub user_guild_limit: u32,
    pub max_avatar_size: usize,
    pub max_banner_size: usize,
}

impl Clone for Config {
    fn clone(&self) -> (r: Self)
        ensures
            r == *self,
    {
        Config {
            database_url: self.database_url.clone(),
            redis_url: self.redis_url.clone(),
            port: self.port,
            token_secret: self.token_secret.clone(),
            registration_closed: self.registration_closed,
            verbose: self.verbose,
            user_guild_limit: self.user_guild_limit,
            max_avatar_size: self.max_avatar_size,
            max_banner_size: self.max_banner_size,
        }
    }
}

/// The variables that the service is set up by, as far as they could be read. Of those that it
/// cannot do without, the words for why they could not.
#[derive(Debug, PartialEq)]
pub struct Variables {
    pub database_url: Result<String, String>,
    pub redis_url: Option<String>,
    pub port: Option<String>,
    pub token_secret: Result<String, String>,
    pub registration_closed: Option<String>,
    pub verbose: Option<String>,
    pub user_guild_limit: Option<String>,
    pub max_avatar_size: Option<String>,
    pub max_banner_size: Option<String>,
}

/// Why the service cannot be set up.
#[derive(Debug, PartialEq)]
pub enum ConfigError {
    /// A variable that is needed could not be read.
    Unread(String),
    /// A variable is not the number that it has to be.
    NotANumber(NumberError),
}

impl ConfigError {
    /// The words for the error.
    pub open spec fn words(self) -> Seq<char> {
        match self {
            ConfigError::Unread(e) => e@,
            ConfigError::NotANumber(e) => e.words(),
        }
    }

    /// The words for the error.
    pub fn message(&self) -> (r: String)
        ensures
            r@ == self.words(),
    {
        match self {
            ConfigError::Unread(e) => e.clone(),
            ConfigError::NotANumber(e) => e.message(),
        }
    }
}

/// The text of a variable, or a default where it is not set.
pub open spec fn text_or(value: Option<String>, default: Seq<char>) -> Seq<char> {
    match value {
        Some(value) => value@,
        None => default,
    }
}

/// Reads the text of a variable, or a default where it is not set.
fn or_default(value: Option<String>, default: &str) -> (r: String)
    ensures
        r@ == text_or(value, default@),
{
    match value {
        Some(value) => value,
        None => owned(default),
    }
}

impl Variables {
    /// The first error among the variables, in the order in which they are read.
    pub open spec fn error(self) -> Option<ConfigError> {
        let port = read_unsigned(text_or(self.port, "3000"@), u16::MAX as nat);
        let guilds = read_unsigned(text_or(self.user_guild_limit, "100"@), u32::MAX as nat);
        let avatar = read_unsigned(text_or(self.max_avatar_size, "10000000"@), usize::MAX as nat);
        let banner = read_unsigned(text_or(self.max_banner_size, "25000000"@), usize::MAX as nat);
        if let Err(e) = self.database_url {
            Some(ConfigError::Unread(e))
        } else if let Err(e) = port {
            Some(ConfigError::NotANumber(e))
        } else if let Err(e) = self.token_secret {
            Some(ConfigError::Unread(e))
        } else if let Err(e) = guilds {
            Some(ConfigError::NotANumber(e))
        } else if let Err(e) = avatar {
            Some(ConfigError::NotANumber(e))
        } else if let Err(e) = banner {
            Some(ConfigError::NotANumber(e))
        } else {
            None
        }
    }

    /// Whether this is the set-up that the variables describe.
    pub open spec fn describe(self, config: Config) -> bool {
        &&& self.database_url == Ok::<String, String>(config.database_url)
        &&& config.redis_url@ == text_or(self.redis_url, "redis://127.0.0.1"@)
        &&& read_unsigned(text_or(self.port, "3000"@), u16::MAX as nat) == Ok::<nat, NumberError>(
            config.port as nat,
        )
        &&& self.token_secret == Ok::<String, String>(config.token_secret)
        &&& config.registration_closed == (text_or(self.registration_closed, "0"@) == "1"@)
        &&& config.verbose == (text_or(self.verbose, "0"@) == "1"@)
        &&& read_unsigned(text_or(self.user_guild_limit, "100"@), u32::MAX as nat) == Ok::<
            nat,
            NumberError,
        >(config.user_guild_limit as nat)
        &&& read_unsigned(text_or(self.max_avatar_size, "10000000"@), usize::MAX as nat) == Ok::<
            nat,
            NumberError,
        >(config.max_avatar_size as nat)
        &&& read_unsigned(text_or(self.max_banner_size, "25000000"@), usize::MAX as nat) == Ok::<
            nat,
            NumberError,
        >(config.max_banner_size as nat)
    }
}

impl Config {
    /// Reads the set-up from the variables.
    pub fn from_env(variables: Variables) -> (r: Result<Config, ConfigError>)
        ensures
            match r {
                Ok(config) => variables.error() is None && variables.describe(config),
                Err(e) => variables.error() == Some(e),
            },
    {
        let database_url: String = match variables.database_url {
            Ok(url) => url,
            Err(e) => {
                return Err(ConfigError::Unread(e));
            },
        };
        let redis_url: String = or_default(variables.redis_url, "redis://127.0.0.1");
        let port: u64 = match parse_unsigned(
            or_default(variables.port, "3000").as_str(),
            u16::MAX as u64,
        ) {
            Ok(port) => port,
            Err(e) => {
                return Err(ConfigError::NotANumber(e));
            },
        };
        let token_secret: String = match variables.token_secret {
            Ok(secret) => secret,
            Err(e) => {
                return Err(ConfigError::Unread(e));
            },
        };
        let closed: String = or_default(variables.registration_closed, "0");
        let verbose: String = or_default(variables.verbose, "0");
        let guilds: u64 = match parse_unsigned(
            or_default(variables.user_guild_limit, "100").as_str(),
            u32::MAX as u64,
        ) {
            Ok(limit) => limit,
            Err(e) => {
                return Err(ConfigError::NotANumber(e));
            },
        };
        let avatar: u64 = match parse_unsigned(
            or_default(variables.max_avatar_size, "10000000").as_str(),
            usize::MAX as u64,
        ) {
            Ok(size) => size,
            Err(e) => {
                return Err(ConfigError::NotANumber(e));
            },
        };
        let banner: u64 = match parse_unsigned(
            or_default(variables.max_banner_size, "25000000").as_str(),
            usize::MAX as u64,
        ) {
            Ok(size) => size,
            Err(e) => {
                return Err(ConfigError::NotANumber(e));
            },
        };
        Ok(
            Config {
                database_url,
                redis_url,
                port: port as u16,
                token_secret,
                registration_closed: same_text(closed.as_str(), "1"),
                verbose: same_text(verbose.as_str(), "1"),
                user_guild_limit: guilds as u32,
                max_avatar_size: avatar as usize,
                max_banner_size: banner as usize,
            },
        )
    }
}

} // verus!
