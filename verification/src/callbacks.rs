//! Callback targets that clients register to be notified about jobs.
use vstd::prelude::*;
use crate::error::{invalid_field, is_invalid_field, GatewayError};
use crate::text::{opt_view, str_eq};

verus! {

/// Where to send a notification, and an optional shared secret.
#[derive(Debug, Clone)]
pub struct CallbackTarget {
    pub url: String,
    pub secret: Option<String>,
}

/// The scheme of the absolute URL that `url::Url::parse` reads from `input`,
/// or `None` when it reads none.
pub uninterp spec fn url_scheme_of(input: Seq<char>) -> Option<Seq<char>>;

/// `url::Url::parse` followed by `Url::scheme`. The contract names the result
/// of WHATWG URL parsing, which depends on the input alone.
#[verifier::external_body]
pub(crate) fn parse_url_scheme(input: &str) -> (r: Option<String>)
    ensures
        opt_view(r) == url_scheme_of(input@),
{
    url::Url::parse(input).ok().map(|u| u.scheme().to_string())
}

/// The callback URL's scheme is acceptable: `http` or `https`.
pub open spec fn scheme_ok(scheme: Seq<char>) -> bool {
    scheme == "http"@ || scheme == "https"@
}

/// The verdict on a callback URL, given the scheme that parsing it gave
/// (`None` when it is not an absolute URL).
pub fn check_callback_scheme(scheme: Option<&str>) -> (r: Result<(), GatewayError>)
    ensures
        match scheme {
            None => r matches Err(e) && is_invalid_field(
                e,
                "callback.url"@,
                "callback.url must be a valid absolute URL"@,
            ),
            Some(s) => if scheme_ok(s@) {
                r == Ok::<(), GatewayError>(())
            } else {
                r matches Err(e) && is_invalid_field(
                    e,
                    "callback.url"@,
                    "callback.url must use http or https scheme"@,
                )
            },
        },
{
    match scheme {
        None => Err(invalid_field("callback.url", "callback.url must be a valid absolute URL")),
        Some(s) => {
            if str_eq(s, "http") || str_eq(s, "https") {
                Ok(())
            } else {
                Err(invalid_field("callback.url", "callback.url must use http or https scheme"))
            }
        },
    }
}

/// Checks an optional callback target: its URL must be an absolute `http` or
/// `https` URL.
pub fn validate_callback_target(callback: Option<&CallbackTarget>) -> (r: Result<(), GatewayError>)
    ensures
        match callback {
            None => r == Ok::<(), GatewayError>(()),
            Some(c) => match url_scheme_of(c.url@) {
                None => r matches Err(e) && is_invalid_field(
                    e,
                    "callback.url"@,
                    "callback.url must be a valid absolute URL"@,
                ),
                Some(s) => if scheme_ok(s) {
                    r == Ok::<(), GatewayError>(())
                } else {
                    r matches Err(e) && is_invalid_field(
                        e,
                        "callback.url"@,
                        "callback.url must use http or https scheme"@,
                    )
                },
            },
        },
{
    let callback = match callback {
        Some(c) => c,
        None => return Ok(()),
    };
    let scheme = parse_url_scheme(callback.url.as_str());
    match &scheme {
        Some(s) => check_callback_scheme(Some(s.as_str())),
        None => check_callback_scheme(None),
    }
}

} // verus!
