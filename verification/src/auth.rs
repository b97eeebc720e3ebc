//! Authentication: the bearer credential of every request, the
//! elevated credential of the destructive ones.

use vstd::prelude::*;
use vstd::string::StringExecFns;
use crate::rate_limit::{check_and_update_locked, RateLimiter};
use crate::text::{bytes_eq, equals_text, has_prefix, is_text, skip, starts_with, strip, utf8};

verus! {

/// What the gateway is started with.
#[derive(Clone, Debug, Default, PartialEq)]
pub struct Config {
    pub secret_key: String,
    pub port: u16,
}

/// Why a request is turned away.
#[derive(Clone, Copy, Debug, PartialEq, Eq, Structural)]
pub enum Denial {
    /// The client has failed to authenticate too often.
    TooManyAttempts,
    /// The request has no `Authorization` header.
    MissingHeader,
    /// The credential is not the configured one.
    InvalidToken,
    /// The elevated credential is malformed.
    ElevatedRejected,
    /// The request has no elevated credential.
    ElevatedMissing,
}

/// The verdict on a request.
#[derive(Clone, Copy, Debug, PartialEq, Eq, Structural)]
pub enum AuthResult {
    Authorized,
    Unauthorized(Denial),
}

/// The HTTP status that goes with a denial.
pub open spec fn denial_status(d: Denial) -> u16 {
    match d {
        Denial::TooManyAttempts => 429,
        Denial::MissingHeader => 401,
        Denial::InvalidToken => 401,
        Denial::ElevatedRejected => 403,
        Denial::ElevatedMissing => 403,
    }
}

/// The text that goes with a denial.
pub open spec fn denial_chars(d: Denial) -> Seq<char> {
    match d {
        Denial::TooManyAttempts => "Too many authentication attempts. Please try again later."@,
        Denial::MissingHeader => "Unauthorized: Missing Authorization header"@,
        Denial::InvalidToken => "Unauthorized: Invalid token"@,
        Denial::ElevatedRejected => "Elevated permissions required for this operation"@,
        Denial::ElevatedMissing =>
            "Elevated permissions required. Please provide X-LIFX-Elevated-Token header"@,
    }
}

/// The name of the header that goes with a denial, if one does.
pub open spec fn denial_header_name(d: Denial) -> Option<Seq<char>> {
    match d {
        Denial::TooManyAttempts => Some("Retry-After"@),
        Denial::MissingHeader => Some("WWW-Authenticate"@),
        Denial::InvalidToken => Some("WWW-Authenticate"@),
        Denial::ElevatedRejected => None,
        Denial::ElevatedMissing => None,
    }
}

/// The value of the header that goes with a denial, if one does.
pub open spec fn denial_header_value(d: Denial) -> Option<Seq<char>> {
    match d {
        Denial::TooManyAttempts => Some("60"@),
        Denial::MissingHeader => Some("Bearer realm=\"LIFX API\""@),
        Denial::InvalidToken => Some("Bearer realm=\"LIFX API\""@),
        Denial::ElevatedRejected => None,
        Denial::ElevatedMissing => None,
    }
}

impl Denial {
    /// The HTTP status of the answer.
    pub fn status(&self) -> (r: u16)
        ensures
            r == denial_status(*self),
    {
        match self {
            Denial::TooManyAttempts => 429,
            Denial::MissingHeader => 401,
            Denial::InvalidToken => 401,
            Denial::ElevatedRejected => 403,
            Denial::ElevatedMissing => 403,
        }
    }

    /// The text of the answer.
    pub fn message(&self) -> (r: String)
        ensures
            r@ == denial_chars(*self),
    {
        match self {
            Denial::TooManyAttempts => String::from_str(
                "Too many authentication attempts. Please try again later.",
            ),
            Denial::MissingHeader => String::from_str("Unauthorized: Missing Authorization header"),
            Denial::InvalidToken => String::from_str("Unauthorized: Invalid token"),
            Denial::ElevatedRejected => String::from_str(
                "Elevated permissions required for this operation",
            ),
            Denial::ElevatedMissing => String::from_str(
                "Elevated permissions required. Please provide X-LIFX-Elevated-Token header",
            ),
        }
    }

    /// The header that is added to the answer: its name and its value.
    pub fn header(&self) -> (r: Option<(String, String)>)
        ensures
            r.is_some() == denial_header_name(*self).is_some(),
            r.is_some() ==> r.unwrap().0@ == denial_header_name(*self).unwrap() && r.unwrap().1@
                == denial_header_value(*self).unwrap(),
    {
        match self {
            Denial::TooManyAttempts => Some(
                (String::from_str("Retry-After"), String::from_str("60")),
            ),
            Denial::MissingHeader => Some(
                (
                    String::from_str("WWW-Authenticate"),
                    String::from_str("Bearer realm=\"LIFX API\""),
                ),
            ),
            Denial::InvalidToken => Some(
                (
                    String::from_str("WWW-Authenticate"),
                    String::from_str("Bearer realm=\"LIFX API\""),
                ),
            ),
            Denial::ElevatedRejected => None,
            Denial::ElevatedMissing => None,
        }
    }
}

/// The bytes of a header, if the request has it.
pub open spec fn header_bytes(header: Option<&str>) -> Option<Seq<u8>> {
    match header {
        Some(h) => Some(utf8(h@)),
        None => None,
    }
}

/// Is the header the word `Bearer`, a space and the secret?
pub open spec fn bears(header: Seq<u8>, secret: Seq<u8>) -> bool {
    has_prefix(header, "Bearer "@) && strip(header, "Bearer "@) == secret
}

/// Does the endpoint ask for the elevated credential?
pub open spec fn is_elevated_endpoint(endpoint: Seq<u8>) -> bool {
    is_text(endpoint, "/wifi"@) || is_text(endpoint, "/reboot"@)
}

/// Does the endpoint ask for the elevated credential?  The endpoints that
/// change the Wi-Fi settings and that reboot a device do.
pub fn requires_elevated_permissions(endpoint: &str) -> (r: bool)
    ensures
        r == is_elevated_endpoint(utf8(endpoint@)),
{
    let e: &[u8] = endpoint.as_bytes();
    equals_text(e, "/wifi") || equals_text(e, "/reboot")
}

/// The verdict on the bearer credential alone: `None` where the
/// credential is the configured one, the reason where it is not.
pub open spec fn credential_fault(auth_header: Option<Seq<u8>>, secret: Seq<u8>) -> Option<
    Denial,
> {
    match auth_header {
        None => Some(Denial::MissingHeader),
        Some(h) => if bears(h, secret) {
            None
        } else {
            Some(Denial::InvalidToken)
        },
    }
}

fn check_credential(auth_header: Option<&str>, secret_key: &str) -> (r: Option<Denial>)
    ensures
        r == credential_fault(
            header_bytes(auth_header),
            utf8(secret_key@),
        ),
{
    match auth_header {
        None => Some(Denial::MissingHeader),
        Some(h) => {
            let hb: &[u8] = h.as_bytes();
            let prefix: &[u8] = "Bearer ".as_bytes();
            if starts_with(hb, prefix) && bytes_eq(skip(hb, prefix.len()), secret_key.as_bytes()) {
                None
            } else {
                Some(Denial::InvalidToken)
            }
        },
    }
}

/// Is `r` the verdict on a request, and `n` the limiter `o` after it?  A
/// request with the configured credential is authorized and counts for
/// nothing.  Any other request counts as a failed authentication of its
/// client at time `now`: it is turned away for its fault or, once the
/// client has used up its attempts, for that.
pub open spec fn gate_verdict(
    o: RateLimiter,
    n: RateLimiter,
    fault: Option<Denial>,
    client_ip: Seq<char>,
    now: u64,
    r: AuthResult,
) -> bool {
    match fault {
        None => r == AuthResult::Authorized && n == o,
        Some(d) => exists|allowed: bool|
            {
                &&& #[trigger] o.auth_counted(n, client_ip, now, allowed)
                &&& r == AuthResult::Unauthorized(
                    if allowed {
                        d
                    } else {
                        Denial::TooManyAttempts
                    },
                )
            },
    }
}

/// Decides at time `now` whether a request is admitted.
pub fn authenticate_request_at(
    auth_header: Option<&str>,
    client_ip: String,
    secret_key: &str,
    rate_limiter: &mut RateLimiter,
    now: u64,
) -> (r: AuthResult)
    requires
        old(rate_limiter).wf(),
    ensures
        final(rate_limiter).wf(),
        gate_verdict(
            *old(rate_limiter),
            *final(rate_limiter),
            credential_fault(
                header_bytes(auth_header),
                utf8(secret_key@),
            ),
            client_ip@,
            now,
            r,
        ),
{
    match check_credential(auth_header, secret_key) {
        None => AuthResult::Authorized,
        Some(d) => {
            if rate_limiter.check_and_update_at(client_ip, now) {
                AuthResult::Unauthorized(d)
            } else {
                AuthResult::Unauthorized(Denial::TooManyAttempts)
            }
        },
    }
}

/// Decides whether a request is admitted.
pub fn authenticate_request(
    auth_header: Option<&str>,
    client_ip: String,
    secret_key: &str,
    rate_limiter: &mut RateLimiter,
) -> (r: AuthResult)
    requires
        old(rate_limiter).wf(),
    ensures
        final(rate_limiter).wf(),
        exists|now: u64|
            #[trigger] gate_verdict(
                *old(rate_limiter),
                *final(rate_limiter),
                credential_fault(
                    header_bytes(auth_header),
                    utf8(secret_key@),
                ),
                client_ip@,
                now,
                r,
            ),
{
    match check_credential(auth_header, secret_key) {
        None => {
            assert(gate_verdict(
                *old(rate_limiter),
                *rate_limiter,
                None,
                client_ip@,
                0,
                AuthResult::Authorized,
            ));
            AuthResult::Authorized
        },
        Some(d) => {
            let allowed: bool = rate_limiter.check_and_update(client_ip);
            let r: AuthResult = if allowed {
                AuthResult::Unauthorized(d)
            } else {
                AuthResult::Unauthorized(Denial::TooManyAttempts)
            };
            proof {
                let now = choose|now: u64|
                    old(rate_limiter).auth_counted(*rate_limiter, client_ip@, now, allowed);
                assert(gate_verdict(
                    *old(rate_limiter),
                    *rate_limiter,
                    Some(d),
                    client_ip@,
                    now,
                    r,
                ));
            }
            r
        },
    }
}

/// Decides whether a request is admitted, where the counters of the rate
/// limiter stand behind a lock.  `lock` is the limiter, or `None` where
/// the lock could not be had.  A request with the configured credential
/// counts for nothing and is admitted either way.  Any other request
/// needs the limiter: without it the request is turned away as one of a
/// client that has tried too often.
pub fn authenticate_locked(
    lock: Option<&mut RateLimiter>,
    auth_header: Option<&str>,
    client_ip: String,
    secret_key: &str,
) -> (r: AuthResult)
    requires
        lock.is_some() ==> (*lock.unwrap()).wf(),
    ensures
        lock.is_none() ==> r == (match credential_fault(
            header_bytes(auth_header),
            utf8(secret_key@),
        ) {
            None => AuthResult::Authorized,
            Some(_) => AuthResult::Unauthorized(Denial::TooManyAttempts),
        }),
        lock.is_some() ==> (*final(lock.unwrap())).wf() && exists|now: u64|
            #[trigger] gate_verdict(
                *lock.unwrap(),
                *final(lock.unwrap()),
                credential_fault(header_bytes(auth_header), utf8(secret_key@)),
                client_ip@,
                now,
                r,
            ),
{
    match check_credential(auth_header, secret_key) {
        None => {
            proof {
                if lock.is_some() {
                    assert(gate_verdict(
                        *lock.unwrap(),
                        *lock.unwrap(),
                        None,
                        client_ip@,
                        0,
                        AuthResult::Authorized,
                    ));
                }
            }
            AuthResult::Authorized
        },
        Some(d) => {
            let allowed: bool = check_and_update_locked(lock, client_ip);
            let r: AuthResult = if allowed {
                AuthResult::Unauthorized(d)
            } else {
                AuthResult::Unauthorized(Denial::TooManyAttempts)
            };
            proof {
                if lock.is_some() {
                    let now = choose|now: u64|
                        (*lock.unwrap()).auth_counted(*final(lock.unwrap()), client_ip@, now, allowed);
                    assert(gate_verdict(
                        *lock.unwrap(),
                        *final(lock.unwrap()),
                        Some(d),
                        client_ip@,
                        now,
                        r,
                    ));
                }
            }
            r
        },
    }
}

/// Is the text an elevated credential: does it begin with `ELEVATED-` and
/// go on after it?
pub open spec fn is_elevated_token(token: Seq<u8>) -> bool {
    has_prefix(token, "ELEVATED-"@) && token.len() > 9
}

/// The verdict on the elevated credential of a request whose bearer
/// credential was accepted.
pub open spec fn elevated_verdict(elevated_header: Option<Seq<u8>>) -> AuthResult {
    match elevated_header {
        None => AuthResult::Unauthorized(Denial::ElevatedMissing),
        Some(t) => if is_elevated_token(t) {
            AuthResult::Authorized
        } else {
            AuthResult::Unauthorized(Denial::ElevatedRejected)
        },
    }
}

/// Checks the elevated credential of a request.
pub fn check_elevated(elevated_header: Option<&str>) -> (r: AuthResult)
    ensures
        r == elevated_verdict(
            header_bytes(elevated_header),
        ),
{
    match elevated_header {
        None => AuthResult::Unauthorized(Denial::ElevatedMissing),
        Some(t) => {
            let tb: &[u8] = t.as_bytes();
            if starts_with(tb, "ELEVATED-".as_bytes()) && tb.len() > 9 {
                AuthResult::Authorized
            } else {
                AuthResult::Unauthorized(Denial::ElevatedRejected)
            }
        },
    }
}

/// Decides whether a request for a destructive operation is admitted: it
/// has to bear the configured credential like any request, and an
/// elevated credential besides.
pub fn authenticate_elevated_request(
    auth_header: Option<&str>,
    elevated_header: Option<&str>,
    client_ip: String,
    secret_key: &str,
    rate_limiter: &mut RateLimiter,
) -> (r: AuthResult)
    requires
        old(rate_limiter).wf(),
    ensures
        final(rate_limiter).wf(),
        exists|now: u64, basic: AuthResult|
            {
                &&& #[trigger] gate_verdict(
                    *old(rate_limiter),
                    *final(rate_limiter),
                    credential_fault(
                        header_bytes(auth_header),
                        utf8(secret_key@),
                    ),
                    client_ip@,
                    now,
                    basic,
                )
                &&& r == (if basic == AuthResult::Authorized {
                    elevated_verdict(
                        header_bytes(elevated_header),
                    )
                } else {
                    basic
                })
            },
{
    let basic: AuthResult = authenticate_request(auth_header, client_ip, secret_key, rate_limiter);
    match basic {
        AuthResult::Authorized => check_elevated(elevated_header),
        denied => denied,
    }
}

} // verus!
