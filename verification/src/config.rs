//! Process-wide configuration, built once from the settings of the
//! environment and read-only afterwards.

use vstd::prelude::*;
use vstd::string::*;
use crate::text::{all_digits, digits_value, is_digit, lemma_digits_value_grows, texts};

verus! {

/// The configuration that every request handler reads.
#[derive(Clone)]
pub struct Context {
    pub port: u16,
    pub token: String,
    pub binary_path: String,
    pub args: Option<Vec<String>>,
    pub models_dir: String,
    pub cache_dir: String,
}

/// The settings as the environment gave them; `None` where one is not set.
pub struct Settings {
    pub port: Option<String>,
    pub token: Option<String>,
    pub binary_path: Option<String>,
    pub args: Option<String>,
    pub models_dir: Option<String>,
    pub cache_dir: Option<String>,
}

/// Why no configuration could be built.
#[derive(Clone, Copy, Debug, PartialEq, Eq)]
pub enum ConfigError {
    PortNotSet,
    PortInvalid,
    TokenNotSet,
    BinaryNotSet,
    ModelsNotSet,
}

/// `s` without its leading plus sign, if it has one.
pub open spec fn unsigned_part(s: Seq<char>) -> Seq<char> {
    if s.len() > 0 && s[0] == '+' {
        s.subrange(1, s.len() as int)
    } else {
        s
    }
}

/// The port that a text names: digits, at least one, after an optional plus
/// sign, whose number is between 1 and 65535. Any other text names none.
pub open spec fn port_of(s: Seq<char>) -> Option<u16> {
    let d = unsigned_part(s);
    if d.len() > 0 && all_digits(d) && 1 <= digits_value(d) <= 65535 {
        Some(digits_value(d) as u16)
    } else {
        None
    }
}

/// Reads a port number.
pub fn parse_port(s: &str) -> (r: Option<u16>)
    ensures
        r == port_of(s@),
{
    let n: usize = s.unicode_len();
    let start: usize = if n > 0 && s.get_char(0) == '+' {
        1
    } else {
        0
    };
    let ghost d = unsigned_part(s@);
    assert(d =~= s@.subrange(start as int, n as int));
    if start == n {
        return None;
    }
    let mut i: usize = start;
    let mut v: u32 = 0;
    while i < n
        invariant
            start <= i <= n,
            n == s@.len(),
            d == unsigned_part(s@),
            d == s@.subrange(start as int, n as int),
            all_digits(d.subrange(0, i - start)),
            v == digits_value(d.subrange(0, i - start)),
            v <= 65535,
        decreases n - i,
    {
        let c: u32 = s.get_char(i) as u32;
        assert(d[i - start] == s@[i as int]);
        if c < 48 || c > 57 {
            assert(!is_digit(d[i - start]));
            return None;
        }
        let ghost before = d.subrange(0, i - start);
        let ghost after = d.subrange(0, i + 1 - start);
        assert(after.drop_last() =~= before);
        assert(after.last() == d[i - start]);
        v = v * 10 + (c - 48);
        assert(v == digits_value(after));
        if v > 65535 {
            proof {
                lemma_digits_value_grows(d, i + 1 - start);
            }
            return None;
        }
        i = i + 1;
    }
    assert(d.subrange(0, i - start) =~= d);
    if v == 0 {
        None
    } else {
        Some(v as u16)
    }
}

/// The pieces of a text between its runs of white space, in order.
pub uninterp spec fn whitespace_tokens(s: Seq<char>) -> Seq<Seq<char>>;

/// Calls `str::split_whitespace` and collects what it yields. The contract
/// claims that the pieces are a function of the text alone.
#[verifier::external_body]
fn split_whitespace(s: &str) -> (r: Vec<String>)
    ensures
        texts(r@) == whitespace_tokens(s@),
{
    let mut out: Vec<String> = Vec::new();
    for piece in s.split_whitespace() {
        out.push(piece.to_string());
    }
    out
}

/// The cache directory used when the environment names none.
pub open spec fn default_cache_dir() -> Seq<char> {
    "/tmp"@
}

impl Settings {
    /// The first thing that keeps these settings from being a configuration,
    /// in the order port, secret, executable, model directory.
    pub open spec fn fault(&self) -> Option<ConfigError> {
        if self.port is None {
            Some(ConfigError::PortNotSet)
        } else if port_of(self.port->0@) is None {
            Some(ConfigError::PortInvalid)
        } else if self.token is None {
            Some(ConfigError::TokenNotSet)
        } else if self.binary_path is None {
            Some(ConfigError::BinaryNotSet)
        } else if self.models_dir is None {
            Some(ConfigError::ModelsNotSet)
        } else {
            None
        }
    }
}

impl Context {
    /// This configuration is the one that `settings` describe.
    pub open spec fn describes(&self, settings: &Settings) -> bool {
        &&& Some(self.port) == port_of(settings.port->0@)
        &&& self.token@ == settings.token->0@
        &&& self.binary_path@ == settings.binary_path->0@
        &&& self.models_dir@ == settings.models_dir->0@
        &&& match settings.args {
            Some(a) => self.args matches Some(v) && texts(v@) == whitespace_tokens(a@),
            None => self.args is None,
        }
        &&& self.cache_dir@ == match settings.cache_dir {
            Some(c) => c@,
            None => default_cache_dir(),
        }
    }

    /// Builds the configuration from the settings, or names the first
    /// required setting that is missing or malformed.
    pub fn from_settings(settings: &Settings) -> (r: Result<Context, ConfigError>)
        ensures
            match r {
                Ok(c) => settings.fault() is None && c.describes(settings),
                Err(e) => settings.fault() == Some(e),
            },
    {
        let port: u16 = match &settings.port {
            None => { return Err(ConfigError::PortNotSet); },
            Some(p) => match parse_port(p.as_str()) {
                None => { return Err(ConfigError::PortInvalid); },
                Some(n) => n,
            },
        };
        let token = match &settings.token {
            None => { return Err(ConfigError::TokenNotSet); },
            Some(t) => String::from_str(t.as_str()),
        };
        let binary_path = match &settings.binary_path {
            None => { return Err(ConfigError::BinaryNotSet); },
            Some(b) => String::from_str(b.as_str()),
        };
        let args = match &settings.args {
            None => None,
            Some(a) => Some(split_whitespace(a.as_str())),
        };
        let models_dir = match &settings.models_dir {
            None => { return Err(ConfigError::ModelsNotSet); },
            Some(m) => String::from_str(m.as_str()),
        };
        let cache_dir = match &settings.cache_dir {
            None => String::from_str("/tmp"),
            Some(c) => String::from_str(c.as_str()),
        };
        Ok(Context { port, token, binary_path, args, models_dir, cache_dir })
    }
}

impl ConfigError {
    /// What the error says.
    pub open spec fn message_text(&self) -> Seq<char> {
        match self {
            ConfigError::PortNotSet => "SD_CPP_SERVER_PORT environment variable not set"@,
            ConfigError::PortInvalid => "SD_CPP_SERVER_PORT must be a valid port number"@,
            ConfigError::TokenNotSet => "SD_CPP_SERVER_TOKEN environment variable not set"@,
            ConfigError::BinaryNotSet => "SD_CPP_SERVER_BINARY environment variable not set"@,
            ConfigError::ModelsNotSet => "SD_CPP_SERVER_MODELS environment variable not set"@,
        }
    }

    /// The message of the error.
    pub fn message(&self) -> (r: String)
        ensures
            r@ == self.message_text(),
    {
        match self {
            ConfigError::PortNotSet => String::from_str(
                "SD_CPP_SERVER_PORT environment variable not set",
            ),
            ConfigError::PortInvalid => String::from_str(
                "SD_CPP_SERVER_PORT must be a valid port number",
            ),
            ConfigError::TokenNotSet => String::from_str(
                "SD_CPP_SERVER_TOKEN environment variable not set",
            ),
            ConfigError::BinaryNotSet => String::from_str(
                "SD_CPP_SERVER_BINARY environment variable not set",
            ),
            ConfigError::ModelsNotSet => String::from_str(
                "SD_CPP_SERVER_MODELS environment variable not set",
            ),
        }
    }
}

} // verus!
