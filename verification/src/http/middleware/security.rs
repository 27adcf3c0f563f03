//! The security policy for requests and responses: plain HTTP is refused
//! away from the local machine, and every response carries a fixed set of
//! protective headers.
//!
//! The functions here decide; the transport reads the request's headers
//! before, and writes the response's headers after.

use crate::text::{starts_with, str_eq};
use vstd::prelude::*;

verus! {

/// What happens to a request before it is handled.
#[derive(Debug, Clone, Copy, PartialEq, Eq, Structural)]
pub enum Screening {
    /// The request goes on to its handler; `local` says whether it was
    /// addressed to the local machine.
    Forward { local: bool },
    /// The request is refused with status 403.
    Forbidden,
}

/// Whether a `Host` header addresses the local machine.
pub open spec fn is_local(host: Seq<char>) -> bool {
    ||| "localhost"@.is_prefix_of(host)
    ||| "127.0.0.1"@.is_prefix_of(host)
    ||| "0.0.0.0"@.is_prefix_of(host)
    ||| "[::1]"@.is_prefix_of(host)
}

/// The text of a header that may be absent or unreadable, with the value
/// that stands in for it then.
pub open spec fn text_or(header: Option<&str>, fallback: Seq<char>) -> Seq<char> {
    match header {
        Some(text) => text@,
        None => fallback,
    }
}

/// The decision on a request with the given `Host` and `X-Forwarded-Proto`
/// headers: a missing host counts as empty and so as not local, a missing
/// protocol as `https`.
pub open spec fn screening(host: Option<&str>, forwarded_proto: Option<&str>) -> Screening {
    let local = is_local(text_or(host, Seq::empty()));
    if !local && text_or(forwarded_proto, "https"@) != "https"@ {
        Screening::Forbidden
    } else {
        Screening::Forward { local }
    }
}

/// The headers that a response is given, in the order in which they are
/// set. Each replaces a header of the same name. `has_cache_control` says
/// whether the handler set `Cache-Control` itself, which is then kept.
pub open spec fn policy(local: bool, has_cache_control: bool) -> Seq<(Seq<char>, Seq<char>)> {
    let transport = if local {
        seq![]
    } else {
        seq![("strict-transport-security"@, "max-age=31536000; includeSubDomains"@)]
    };
    let fixed = seq![
        ("x-content-type-options"@, "nosniff"@),
        ("x-frame-options"@, "DENY"@),
        ("x-xss-protection"@, "1; mode=block"@),
        ("content-security-policy"@, "default-src 'none'; frame-ancestors 'none'"@),
        ("referrer-policy"@, "no-referrer"@),
    ];
    let caching = if has_cache_control {
        seq![]
    } else {
        seq![("cache-control"@, "no-store, no-cache, must-revalidate"@)]
    };
    transport + fixed + caching
}

/// The names and values of a list of headers.
pub open spec fn header_texts(headers: Seq<(&'static str, &'static str)>) -> Seq<
    (Seq<char>, Seq<char>),
> {
    Seq::new(headers.len(), |i: int| (headers[i].0@, headers[i].1@))
}

/// Whether a `Host` header addresses the local machine.
pub fn host_is_local(host: &str) -> (local: bool)
    ensures
        local == is_local(host@),
{
    starts_with(host, "localhost") || starts_with(host, "127.0.0.1") || starts_with(
        host,
        "0.0.0.0",
    ) || starts_with(host, "[::1]")
}

/// Decides on a request from its `Host` and `X-Forwarded-Proto` headers,
/// each `None` where the request has no such header or its value is not
/// text.
pub fn screen_request(host: Option<&str>, forwarded_proto: Option<&str>) -> (decision: Screening)
    ensures
        decision == screening(host, forwarded_proto),
{
    let local = match host {
        Some(text) => host_is_local(text),
        None => {
            proof {
                unaddressed_is_remote();
            }
            false
        },
    };
    let secure = match forwarded_proto {
        Some(text) => str_eq(text, "https"),
        None => true,
    };
    if !local && !secure {
        Screening::Forbidden
    } else {
        Screening::Forward { local }
    }
}

/// The headers to set on a response, in order.
pub fn response_headers(local: bool, has_cache_control: bool) -> (headers: Vec<
    (&'static str, &'static str),
>)
    ensures
        header_texts(headers@) == policy(local, has_cache_control),
{
    let mut headers: Vec<(&'static str, &'static str)> = Vec::new();
    if !local {
        headers.push(("strict-transport-security", "max-age=31536000; includeSubDomains"));
    }
    headers.push(("x-content-type-options", "nosniff"));
    headers.push(("x-frame-options", "DENY"));
    headers.push(("x-xss-protection", "1; mode=block"));
    headers.push(("content-security-policy", "default-src 'none'; frame-ancestors 'none'"));
    headers.push(("referrer-policy", "no-referrer"));
    if !has_cache_control {
        headers.push(("cache-control", "no-store, no-cache, must-revalidate"));
    }
    assert(header_texts(headers@) =~= policy(local, has_cache_control));
    headers
}

/// A request without a host is not local.
pub proof fn unaddressed_is_remote()
    ensures
        !is_local(Seq::empty()),
{
    reveal_strlit("localhost");
    reveal_strlit("127.0.0.1");
    reveal_strlit("0.0.0.0");
    reveal_strlit("[::1]");
    assert("localhost"@.len() == 9);
    assert("127.0.0.1"@.len() == 9);
    assert("0.0.0.0"@.len() == 7);
    assert("[::1]"@.len() == 5);
}

/// A request to the local machine is never refused, whatever its protocol.
pub proof fn local_is_never_refused(host: &str, forwarded_proto: Option<&str>)
    requires
        is_local(host@),
    ensures
        screening(Some(host), forwarded_proto) == (Screening::Forward { local: true }),
{
}

} // verus!
