//! Start-up configuration: validation of the argument list into an
//! interval in seconds and a canonical target URL.

use vstd::prelude::*;

use crate::decimal::{dec_val, is_u64_decimal, parse_u64};

verus! {

/// Why the argument list was rejected.
#[derive(Clone, Copy, Debug, PartialEq, Eq, Structural)]
pub enum ValidationError {
    /// The list did not hold exactly three tokens.
    ArgumentCount,
    /// The interval token was not a non-negative base-10 integer.
    IntervalFormat,
    /// The host token did not parse as an absolute URL.
    UrlFormat,
}

impl ValidationError {
    /// The fixed user-facing message for this error.
    pub fn message(&self) -> (m: &'static str)
        ensures
            *self == ValidationError::ArgumentCount ==> m@ == "You must pass 2 arguments: interval and hostname"@,
            *self == ValidationError::IntervalFormat ==> m@ == "Interval is not a number."@,
            *self == ValidationError::UrlFormat ==> m@ == "URL parsing error. Hostname is not valid"@,
    {
        match self {
            ValidationError::ArgumentCount => "You must pass 2 arguments: interval and hostname",
            ValidationError::IntervalFormat => "Interval is not a number.",
            ValidationError::UrlFormat => "URL parsing error. Hostname is not valid",
        }
    }
}

/// What `url::Url::parse` makes of a string: `None` when it does not parse
/// as an absolute URL, otherwise the canonical serialization of the parsed
/// URL. The result depends on the characters alone.
pub uninterp spec fn url_normal(s: Seq<char>) -> Option<Seq<char>>;

/// Relies on `url::Url::parse` (which of two results comes back depends on
/// the input characters alone) and `url::Url::as_str` (the canonical
/// serialization of the parsed URL).
#[verifier::external_body]
fn normalize_url(s: &str) -> (r: Option<String>)
    ensures
        match r {
            Some(t) => url_normal(s@) == Some(t@),
            None => url_normal(s@) is None,
        },
{
    match url::Url::parse(s) {
        Ok(u) => Some(u.as_str().to_owned()),
        Err(_) => None,
    }
}

/// The validated configuration: seconds between checks and the canonical
/// form of the URL to check. Built once at start-up and read-only after.
pub struct Configuration {
    pub interval: u64,
    pub host: String,
}

impl Configuration {
    /// Builds the configuration from the full argument list, program name
    /// included. The list must hold exactly three tokens; the second must
    /// be a non-negative base-10 integer that fits in a `u64`; the third
    /// must parse as an absolute URL, stored in its canonical form. Each
    /// failure names the first check that went wrong, in this order.
    pub fn create(args: &Vec<String>) -> (r: Result<Configuration, ValidationError>)
        ensures
            match r {
                Ok(cfg) => {
                    &&& args@.len() == 3
                    &&& is_u64_decimal(args@[1]@)
                    &&& cfg.interval == dec_val(args@[1]@)
                    &&& url_normal(args@[2]@) == Some(cfg.host@)
                },
                Err(e) => match e {
                    ValidationError::ArgumentCount => args@.len() != 3,
                    ValidationError::IntervalFormat => args@.len() == 3 && !is_u64_decimal(args@[1]@),
                    ValidationError::UrlFormat => {
                        &&& args@.len() == 3
                        &&& is_u64_decimal(args@[1]@)
                        &&& url_normal(args@[2]@) is None
                    },
                },
            },
    {
        if args.len() != 3 {
            return Err(ValidationError::ArgumentCount);
        }

        let interval = match parse_u64(args[1].as_str()) {
            Some(v) => v,
            None => return Err(ValidationError::IntervalFormat),
        };

        let host = match normalize_url(args[2].as_str()) {
            Some(h) => h,
            None => return Err(ValidationError::UrlFormat),
        };

        Ok(Configuration { interval, host })
    }
}

} // verus!
