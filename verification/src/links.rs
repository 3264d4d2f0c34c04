//! Thumbnail links.
//!
//! A create command may carry a thumbnail link; only a string the URL
//! library accepts is used, anything else falls back to the configured
//! default.  The parse is named here and trusted; the fallback choice
//! is verified.

use vstd::prelude::*;

verus! {

/// The normalized text of `s` when the URL library accepts it as an
/// absolute URL, or nothing when it rejects it.
pub uninterp spec fn normalized_url(s: Seq<char>) -> Option<Seq<char>>;

/// Relies on `url::Url::parse` and on the `From<Url>` conversion back
/// to the normalized string.  The result depends on the string alone.
#[verifier::external_body]
pub fn parse_url(s: &str) -> (r: Option<String>)
    ensures
        match r {
            Some(out) => normalized_url(s@) == Some(out@),
            None => normalized_url(s@) is None,
        },
{
    match url::Url::parse(s) {
        Ok(u) => Some(String::from(u)),
        Err(_) => None,
    }
}

/// What the draft stores as its thumbnail: the normalized link when
/// the argument parses, else the configured default.
pub open spec fn spec_thumbnail_choice(arg: Option<Seq<char>>, default_link: Seq<char>) -> Seq<
    char,
> {
    match arg {
        Some(s) => match normalized_url(s) {
            Some(n) => n,
            None => default_link,
        },
        None => default_link,
    }
}

/// Pick the thumbnail link for a draft: the given link if the URL
/// library accepts it, else the configured default.
pub fn choose_thumbnail(arg: Option<&String>, default_link: &String) -> (r: String)
    ensures
        r@ == spec_thumbnail_choice(
            match arg {
                Some(s) => Some(s@),
                None => None,
            },
            default_link@,
        ),
{
    match arg {
        Some(s) => match parse_url(s.as_str()) {
            Some(n) => n,
            None => default_link.clone(),
        },
        None => default_link.clone(),
    }
}

} // verus!
