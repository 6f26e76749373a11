use vstd::prelude::*;
use vstd::string::*;
use crate::text::{to_upper, upper_of};

verus! {

/// The environment variable that holds the provider's API key.
pub const API_KEY_VAR: &'static str = "API_KEY";

/// The provider's current-weather endpoint.
pub const ENDPOINT: &'static str = "http://api.openweathermap.org/data/2.5/weather";

/// Why no API key is available.
#[derive(Clone, Copy, Debug, PartialEq, Eq, Structural)]
pub enum CredentialError {
    /// The variable is not set, or is empty.
    Missing,
}

/// Why a query brought no record.
#[derive(Debug)]
pub enum FetchError {
    /// The request did not get through (name lookup, connection, time-out).
    Network(String),
    /// The answer is not a weather record (including the provider's error answers).
    Decode(String),
}

impl FetchError {
    pub open spec fn cause(&self) -> Seq<char> {
        match self {
            FetchError::Network(c) => c@,
            FetchError::Decode(c) => c@,
        }
    }
}

/// The query of the request URL: the location as `city,country`, the key, and
/// metric units.
pub open spec fn request_url_view(city: Seq<char>, country_code: Seq<char>, api_key: Seq<char>) -> Seq<
    char,
> {
    ENDPOINT@ + "?q="@ + city + ","@ + country_code + "&appid="@ + api_key + "&units=metric"@
}

/// The URL that asks the provider for the current weather in `city`, `country_code`.
pub fn request_url(city: &str, country_code: &str, api_key: &str) -> (r: String)
    ensures
        r@ == request_url_view(city@, country_code@, api_key@),
{
    let mut r = String::from_str(ENDPOINT);
    r.append("?q=");
    r.append(city);
    r.append(",");
    r.append(country_code);
    r.append("&appid=");
    r.append(api_key);
    r.append("&units=metric");
    r
}

/// The API key from the variable's value, if it has one that is not empty.
pub fn api_key_from(value: Option<String>) -> (r: Result<String, CredentialError>)
    ensures
        match value {
            Some(v) => if v@.len() > 0 {
                r is Ok && r->Ok_0@ == v@
            } else {
                r == Err::<String, CredentialError>(CredentialError::Missing)
            },
            None => r == Err::<String, CredentialError>(CredentialError::Missing),
        },
{
    match value {
        Some(v) => {
            if v.as_str().unicode_len() > 0 {
                Ok(v)
            } else {
                Err(CredentialError::Missing)
            }
        },
        None => Err(CredentialError::Missing),
    }
}

/// The hint that follows the variable's name when no key is found.
pub open spec fn missing_key_hint() -> Seq<char> {
    " is not set in .env file. Visit openweathermap.org to get an API key."@
}

/// The message shown when no key is found: the cause in upper case, the variable's
/// name, and where to get a key.
pub fn missing_key_message(cause: &str) -> (r: String)
    ensures
        r@ == upper_of(cause@) + ": "@ + API_KEY_VAR@ + missing_key_hint(),
{
    let mut r = to_upper(cause);
    r.append(": ");
    r.append(API_KEY_VAR);
    r.append(" is not set in .env file. Visit openweathermap.org to get an API key.");
    r
}

/// The line reported when a query fails: `Error: ` and the cause.
pub fn error_line(e: &FetchError) -> (r: String)
    ensures
        r@ == "Error: "@ + e.cause(),
{
    let mut r = String::from_str("Error: ");
    match e {
        FetchError::Network(c) => r.append(c.as_str()),
        FetchError::Decode(c) => r.append(c.as_str()),
    }
    r
}

} // verus!
