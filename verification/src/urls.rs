//! Normalization of user-entered URLs into the absolute form the navigation
//! core works with.

use vstd::prelude::*;
use vstd::string::StrSliceExecFns;
use vstd::string::StringExecFns;

use crate::text::spec_trim;
use crate::text::trim_whitespace;

verus! {

/// The normalized string form of the URL the input parses to, if it parses
/// as an absolute URL.
pub uninterp spec fn parsed_url_of(input: Seq<char>) -> Option<Seq<char>>;

/// Relies on url::Url::parse and url::Url's serialization: parsing is a
/// function of the input string alone, and on success the result is the
/// parsed URL written back in its normalized form.
#[verifier::external_body]
fn parse_absolute_url(input: &str) -> (r: Option<String>)
    ensures
        match r {
            Some(u) => parsed_url_of(input@) == Some(u@),
            None => parsed_url_of(input@) is None,
        },
{
    match url::Url::parse(input) {
        Ok(parsed) => Some(parsed.to_string()),
        Err(_) => None,
    }
}

/// Why a user-entered URL was rejected.
#[derive(Debug, Clone, Copy, PartialEq, Eq, Structural)]
pub enum UrlError {
    /// The input was empty after trimming white space.
    Empty,
    /// The input parsed neither as entered nor with an `https://` scheme
    /// prepended.
    Invalid,
}

/// Turns what the user typed into a normalized absolute URL: the input is
/// trimmed, parsed as entered, and on failure retried with an `https://`
/// scheme prepended.
pub fn parse_user_url(input: &str) -> (r: Result<String, UrlError>)
    ensures
        ({
            let t = spec_trim(input@);
            match r {
                Ok(u) => t.len() > 0 && if parsed_url_of(t) is Some {
                    parsed_url_of(t) == Some(u@)
                } else {
                    parsed_url_of("https://"@ + t) == Some(u@)
                },
                Err(UrlError::Empty) => t.len() == 0,
                Err(UrlError::Invalid) => t.len() > 0 && parsed_url_of(t) is None
                    && parsed_url_of("https://"@ + t) is None,
            }
        }),
{
    let trimmed = trim_whitespace(input);
    if trimmed.unicode_len() == 0 {
        return Err(UrlError::Empty);
    }
    match parse_absolute_url(trimmed) {
        Some(u) => Ok(u),
        None => {
            let with_scheme = String::from_str("https://").concat(trimmed);
            match parse_absolute_url(with_scheme.as_str()) {
                Some(u) => Ok(u),
                None => Err(UrlError::Invalid),
            }
        },
    }
}

} // verus!
