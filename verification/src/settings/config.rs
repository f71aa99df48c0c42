//! Settings of the settings service, resolved from the values the
//! environment provides.

use vstd::prelude::*;
use vstd::string::*;
use crate::text::text_eq;

verus! {

#[verifier::external_type_specification]
#[verifier::external_body]
pub struct ExParseIntError(std::num::ParseIntError);

/// Why the settings could not be resolved.
#[derive(Debug)]
pub enum ConfigError {
    MissingDatabaseUrl,
    MissingJwtSecret,
    InvalidServerPort(std::num::ParseIntError),
    InvalidBaseErrorRate,
    InvalidEvenMinuteErrorRate,
}

/// A decimal digit.
pub open spec fn is_decimal_digit(c: char) -> bool {
    48 <= (c as u32) <= 57
}

/// The value of a string of decimal digits.
pub open spec fn decimal_value(digits: Seq<char>) -> nat
    decreases digits.len(),
{
    if digits.len() == 0 {
        0
    } else {
        decimal_value(digits.subrange(0, digits.len() - 1)) * 10 + ((digits[digits.len() - 1] as u32)
            - 48) as nat
    }
}

/// The digits of an unsigned number: the text after an optional '+'.
pub open spec fn unsigned_digits(s: Seq<char>) -> Seq<char> {
    if s.len() > 0 && s[0] == '+' {
        s.subrange(1, s.len() as int)
    } else {
        s
    }
}

/// The text is a `u16` as `str::parse` reads one: an optional '+', then one
/// or more decimal digits whose value is at most 65535.
pub open spec fn reads_as_u16(s: Seq<char>) -> bool {
    let d = unsigned_digits(s);
    &&& d.len() > 0
    &&& forall|i: int| 0 <= i < d.len() ==> is_decimal_digit(#[trigger] d[i])
    &&& decimal_value(d) <= 65535
}

/// Calls `str::parse::<u16>`; its documentation says the text must be an
/// optional '+' followed by decimal digits only, giving their value, and
/// that a value out of range is an error.
#[verifier::external_body]
fn parse_u16(s: &str) -> (r: Result<u16, std::num::ParseIntError>)
    ensures
        r is Ok <==> reads_as_u16(s@),
        r matches Ok(v) ==> v == decimal_value(unsigned_digits(s@)),
{
    s.parse::<u16>()
}

/// The values the environment provides for the settings (`None` when a
/// variable is unset); the error rates are read separately.
#[derive(Clone, Debug)]
pub struct SettingsConfigSource {
    pub server_port: Option<String>,
    pub database_url: Option<String>,
    pub jwt_secret: Option<String>,
    pub default_locale: Option<String>,
    pub fault_injection_enabled: Option<String>,
}

/// The resolved settings, but for the error rates.
#[derive(Clone, Debug)]
pub struct SettingsConfigValues {
    pub server_port: u16,
    pub database_url: String,
    pub jwt_secret: String,
    pub default_locale: String,
    pub fault_injection_enabled: bool,
}

/// The text given, or the default.
pub open spec fn given_or(value: Option<String>, default: Seq<char>) -> Seq<char> {
    match value {
        Some(v) => v@,
        None => default,
    }
}

/// A check made while resolving the settings.
pub enum ConfigCheck {
    ServerPort,
    DatabaseUrl,
    JwtSecret,
}

/// Which check fails first, if any: the port, then the database URL, then
/// the token secret.
pub open spec fn config_failure(source: SettingsConfigSource) -> Option<ConfigCheck> {
    if !reads_as_u16(given_or(source.server_port, "8084"@)) {
        Some(ConfigCheck::ServerPort)
    } else if source.database_url is None {
        Some(ConfigCheck::DatabaseUrl)
    } else if source.jwt_secret is None {
        Some(ConfigCheck::JwtSecret)
    } else {
        None
    }
}

/// Resolves the settings: the port defaults to 8084, the database URL and
/// token secret are required, the locale defaults to "rus", and fault
/// injection is on only for the text "true" (default "false").
pub fn resolve_settings_config(source: SettingsConfigSource) -> (r: Result<
    SettingsConfigValues,
    ConfigError,
>)
    ensures
        match r {
            Ok(v) => {
                &&& config_failure(source) is None
                &&& v.server_port == decimal_value(
                    unsigned_digits(given_or(source.server_port, "8084"@)),
                )
                &&& Some(v.database_url) == source.database_url
                &&& Some(v.jwt_secret) == source.jwt_secret
                &&& v.default_locale@ == given_or(source.default_locale, "rus"@)
                &&& v.fault_injection_enabled == (given_or(
                    source.fault_injection_enabled,
                    "false"@,
                ) == "true"@)
            },
            Err(e) => match config_failure(source) {
                Some(ConfigCheck::ServerPort) => e is InvalidServerPort,
                Some(ConfigCheck::DatabaseUrl) => e is MissingDatabaseUrl,
                Some(ConfigCheck::JwtSecret) => e is MissingJwtSecret,
                None => false,
            },
        },
{
    let port_text = match source.server_port {
        Some(p) => p,
        None => String::from_str("8084"),
    };
    let server_port = match parse_u16(port_text.as_str()) {
        Ok(p) => p,
        Err(e) => return Err(ConfigError::InvalidServerPort(e)),
    };
    let database_url = match source.database_url {
        Some(u) => u,
        None => return Err(ConfigError::MissingDatabaseUrl),
    };
    let jwt_secret = match source.jwt_secret {
        Some(s) => s,
        None => return Err(ConfigError::MissingJwtSecret),
    };
    let default_locale = match source.default_locale {
        Some(l) => l,
        None => String::from_str("rus"),
    };
    let fault_text = match source.fault_injection_enabled {
        Some(f) => f,
        None => String::from_str("false"),
    };
    let fault_injection_enabled = text_eq(fault_text.as_str(), "true");
    Ok(
        SettingsConfigValues {
            server_port,
            database_url,
            jwt_secret,
            default_locale,
            fault_injection_enabled,
        },
    )
}

} // verus!
