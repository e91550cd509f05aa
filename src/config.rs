use vstd::prelude::*;

verus! {

/// The service's settings.
#[derive(Debug, Clone)]
pub struct Config {
    pub host: String,
    pub port: u16,
    pub database_url: String,
    pub service_name: String,
}

pub const DEFAULT_PORT: u16 = 3003;

pub open spec fn default_host() -> Seq<char> {
    "0.0.0.0"@
}

pub open spec fn default_service_name() -> Seq<char> {
    "todo-api"@
}

pub open spec fn is_digit(c: char) -> bool {
    '0' <= c <= '9'
}

/// The value of a string of decimal digits.
pub open spec fn digits_value(s: Seq<char>) -> int
    decreases s.len(),
{
    if s.len() == 0 {
        0
    } else {
        digits_value(s.drop_last()) * 10 + (s.last() as u32 - '0' as u32)
    }
}

/// What `u16`'s `FromStr` accepts: an optional `+` followed by one or more
/// decimal digits whose value fits in 16 bits.
pub open spec fn decimal_u16(s: Seq<char>) -> Option<u16> {
    let body = if s.len() > 0 && s[0] == '+' {
        s.drop_first()
    } else {
        s
    };
    if body.len() > 0 && (forall|i: int| 0 <= i < body.len() ==> is_digit(#[trigger] body[i]))
        && digits_value(body) <= 65535 {
        Some(digits_value(body) as u16)
    } else {
        None
    }
}

/// Relies on `str::parse::<u16>`: an optional `+` and decimal digits with a
/// value in range; any other text (sign `-`, whitespace, overflow) fails.
#[verifier::external_body]
fn parse_u16(s: &str) -> (r: Option<u16>)
    ensures
        r == decimal_u16(s@),
{
    s.parse::<u16>().ok()
}

/// The port for a `PORT` setting: the configured one when it reads as a
/// port number, else the default.
pub open spec fn port_of(port: Option<String>) -> u16 {
    match port {
        Some(p) => match decimal_u16(p@) {
            Some(n) => n,
            None => DEFAULT_PORT,
        },
        None => DEFAULT_PORT,
    }
}

impl Config {
    /// The settings from the raw values of `HOST`, `PORT`, `DATABASE_URL`
    /// and `SERVICE_NAME`; absent or unreadable values take their defaults.
    pub fn from_values(
        host: Option<String>,
        port: Option<String>,
        database_url: String,
        service_name: Option<String>,
    ) -> (r: Config)
        ensures
            r.host@ == match host {
                Some(h) => h@,
                None => default_host(),
            },
            r.port == port_of(port),
            r.database_url == database_url,
            r.service_name@ == match service_name {
                Some(n) => n@,
                None => default_service_name(),
            },
    {
        let host = match host {
            Some(h) => h,
            None => String::from_str("0.0.0.0"),
        };
        let port = match &port {
            Some(p) => match parse_u16(p.as_str()) {
                Some(n) => n,
                None => DEFAULT_PORT,
            },
            None => DEFAULT_PORT,
        };
        let service_name = match service_name {
            Some(n) => n,
            None => String::from_str("todo-api"),
        };
        Config { host, port, database_url, service_name }
    }
}

} // verus!
