//! The error of configuration loading and the traits that sources implement.
use vstd::prelude::*;

use super::source::Source;

verus! {

/// Why configuration could not be loaded.
#[derive(Debug, Clone, PartialEq, Eq)]
pub enum ConfigError {
    /// The raw settings are not in the expected format.
    FormatError(String),
    /// The raw settings could not be read from their source.
    ParseError(String),
}

/// The text of a configuration error: its kind, then its detail.
pub open spec fn config_error_text(e: ConfigError) -> Seq<char> {
    match e {
        ConfigError::FormatError(m) => "unable to load format: "@ + m@,
        ConfigError::ParseError(m) => "unable to parse configuration: "@ + m@,
    }
}

impl ConfigError {
    /// The text of the error, such as `unable to load format: ...`.
    pub fn to_string(&self) -> (r: String)
        ensures
            r@ == config_error_text(*self),
    {
        let (head, detail) = match self {
            ConfigError::FormatError(m) => (String::from_str("unable to load format: "), m),
            ConfigError::ParseError(m) => (String::from_str("unable to parse configuration: "), m),
        };
        proof {
            reveal_strlit("unable to load format: ");
            reveal_strlit("unable to parse configuration: ");
        }
        head.concat(detail.as_str())
    }
}

/// A value type that holds raw settings and hands out a copy of them.
pub trait SourceFormatter<TValue> {
    fn get_source_value(&self) -> TValue;
}

/// An adapter that fetches raw settings from some source.
pub trait SourceParser<TFormatter: SourceFormatter<TValue>, TValue> {
    fn fetch(&self) -> Result<Source<TFormatter, TValue>, ConfigError>;
}

} // verus!
