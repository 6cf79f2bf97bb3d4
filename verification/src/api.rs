//! The remote API client's decision logic: classifying one HTTP exchange
//! into a closed error set, and reading a credential-validation body.
//!
//! The crate performs no I/O. The caller issues the authenticated GET,
//! turns what came back into an [`HttpOutcome`] of plain values (status
//! code, the rate-limit header's text, the body parsed as JSON), and every
//! classification rule is verified here.

use vstd::prelude::*;
use crate::json::JsonValue;
use crate::text::{dec_digits, dec_value, is_dec_digits, parse_u64, u64_to_string};

verus! {

/// The closed error set of the remote API client.
#[derive(Debug, Clone, PartialEq)]
pub enum ApiError {
    /// The response broke the service's contract: not JSON, or a field
    /// missing or of the wrong type. Never silently coerced to a default.
    Unexpected,
    /// A transport failure (DNS, TLS, timeout, reset), with a diagnostic
    /// for the user-facing message.
    ConnectionError(String),
    /// The service rate-limited the request; holds the seconds to wait
    /// before the next attempt may begin.
    RateLimited(u64),
    /// The service judged the credential invalid.
    TokenInvalid,
    /// Any other status, surfaced with its code.
    OtherStatus(u16),
}

/// One HTTP exchange, reduced to plain values by the caller that performed
/// it: either the transport failed, or a response arrived with a status
/// code, the text of its `X-RateLimit-Reset-In` header if that header was
/// present and readable, and its body if it parsed as JSON.
#[derive(Debug, PartialEq)]
pub enum HttpOutcome {
    TransportFailed { detail: String },
    Response { status: u16, reset_in: Option<String>, body: Option<JsonValue> },
}

/// How one exchange is classified: `Ok(Some(body))` on 200, `Ok(None)` on
/// 404 (a legitimate absence, not an error), and one error kind for
/// everything else.
pub open spec fn spec_classify(outcome: HttpOutcome) -> Result<Option<JsonValue>, ApiError> {
    match outcome {
        HttpOutcome::TransportFailed { detail } => Err(ApiError::ConnectionError(detail)),
        HttpOutcome::Response { status, reset_in, body } => {
            if status == 200 {
                match body {
                    Some(v) => Ok(Some(v)),
                    None => Err(ApiError::Unexpected),
                }
            } else if status == 429 {
                match reset_in {
                    Some(h) => if is_dec_digits(h@) && dec_value(h@) <= u64::MAX {
                        Err(ApiError::RateLimited(dec_value(h@) as u64))
                    } else {
                        Err(ApiError::Unexpected)
                    },
                    None => Err(ApiError::Unexpected),
                }
            } else if status == 404 {
                Ok(None)
            } else if status == 401 {
                Err(ApiError::TokenInvalid)
            } else {
                Err(ApiError::OtherStatus(status))
            }
        },
    }
}

/// Classifies one exchange on the generalized request path.
///
/// A 429 yields `RateLimited` exactly when the rate-limit header is
/// present and reads as a decimal number of seconds; a missing or
/// unreadable header is `Unexpected`, never a wait of zero. A 404 is
/// `Ok(None)`, distinct from every error kind.
pub fn classify_response(outcome: HttpOutcome) -> (r: Result<Option<JsonValue>, ApiError>)
    ensures
        r == spec_classify(outcome),
        outcome matches HttpOutcome::Response { status: 429, reset_in: Some(h), .. } ==> r == (
        if is_dec_digits(h@) && dec_value(h@) <= u64::MAX {
            Err::<Option<JsonValue>, ApiError>(ApiError::RateLimited(dec_value(h@) as u64))
        } else {
            Err::<Option<JsonValue>, ApiError>(ApiError::Unexpected)
        }),
        outcome matches HttpOutcome::Response { status: 429, reset_in: None, .. } ==> r == Err::<
            Option<JsonValue>,
            ApiError,
        >(ApiError::Unexpected),
        outcome matches HttpOutcome::Response { status: 404, .. } ==> r == Ok::<
            Option<JsonValue>,
            ApiError,
        >(None),
{
    match outcome {
        HttpOutcome::TransportFailed { detail } => Err(ApiError::ConnectionError(detail)),
        HttpOutcome::Response { status, reset_in, body } => {
            if status == 200 {
                match body {
                    Some(v) => Ok(Some(v)),
                    None => Err(ApiError::Unexpected),
                }
            } else if status == 429 {
                match reset_in {
                    Some(h) => match parse_u64(h.as_str()) {
                        Some(secs) => Err(ApiError::RateLimited(secs)),
                        None => Err(ApiError::Unexpected),
                    },
                    None => Err(ApiError::Unexpected),
                }
            } else if status == 404 {
                Ok(None)
            } else if status == 401 {
                Err(ApiError::TokenInvalid)
            } else {
                Err(ApiError::OtherStatus(status))
            }
        },
    }
}

/// What verifying a credential reads out of a classified exchange: the
/// username exactly when the body is an object whose `valid` member is the
/// boolean `true` and whose `user_name` member is a string; `TokenInvalid`
/// when `valid` is the boolean `false`; `Unexpected` whenever either field
/// is missing or of the wrong type.
pub open spec fn spec_verify(outcome: HttpOutcome) -> Result<Seq<char>, ApiError> {
    match spec_classify(outcome) {
        Err(e) => Err(e),
        Ok(None) => Err(ApiError::Unexpected),
        Ok(Some(v)) => match v.spec_get("valid"@) {
            None => Err(ApiError::Unexpected),
            Some(flag) => match flag.spec_as_bool() {
                None => Err(ApiError::Unexpected),
                Some(false) => Err(ApiError::TokenInvalid),
                Some(true) => match v.spec_get("user_name"@) {
                    None => Err(ApiError::Unexpected),
                    Some(name) => match name.spec_as_str() {
                        None => Err(ApiError::Unexpected),
                        Some(chars) => Ok(chars),
                    },
                },
            },
        },
    }
}

/// Verifies a credential from the exchange its validation request
/// produced. Every exchange is classified into exactly one outcome, and a
/// username is returned only when the service's validity flag was the
/// boolean `true`.
pub fn verify_token(outcome: HttpOutcome) -> (r: Result<String, ApiError>)
    ensures
        r is Ok <==> spec_verify(outcome) is Ok,
        r matches Ok(name) ==> spec_verify(outcome) == Ok::<Seq<char>, ApiError>(name@),
        r matches Err(e) ==> spec_verify(outcome) == Err::<Seq<char>, ApiError>(e),
        r is Ok ==> (spec_classify(outcome) matches Ok(Some(v)) && v.spec_get("valid"@) matches Some(
            flag,
        ) && flag.spec_as_bool() == Some(true)),
{
    let classified = classify_response(outcome);
    match classified {
        Err(e) => Err(e),
        Ok(None) => Err(ApiError::Unexpected),
        Ok(Some(v)) => {
            let flag = match v.get("valid") {
                Some(f) => f,
                None => {
                    return Err(ApiError::Unexpected);
                },
            };
            match flag.as_bool() {
                None => Err(ApiError::Unexpected),
                Some(false) => Err(ApiError::TokenInvalid),
                Some(true) => {
                    let name = match v.get("user_name") {
                        Some(n) => n,
                        None => {
                            return Err(ApiError::Unexpected);
                        },
                    };
                    match name.as_str() {
                        None => Err(ApiError::Unexpected),
                        Some(s) => Ok(s.to_owned()),
                    }
                },
            }
        },
    }
}

/// Verification is a function of the exchange alone: the same exchange
/// always reads out to the same outcome, so two calls on an unchanged
/// remote answer agree.
pub proof fn lemma_verify_idempotent(first: HttpOutcome, second: HttpOutcome)
    requires
        first == second,
    ensures
        spec_verify(first) == spec_verify(second),
{
}

/// An exchange whose body carries the validity flag `false` always reads
/// out to `TokenInvalid`: an invalid credential never yields a transient
/// success.
pub proof fn lemma_invalid_flag_never_verifies(outcome: HttpOutcome)
    requires
        spec_classify(outcome) matches Ok(Some(v)) && v.spec_get("valid"@) matches Some(flag)
            && flag.spec_as_bool() == Some(false),
    ensures
        spec_verify(outcome) == Err::<Seq<char>, ApiError>(ApiError::TokenInvalid),
{
}

/// A stored `(token, username)` pair, read back from the credential store.
#[derive(Debug, Clone, PartialEq)]
pub struct User {
    pub token: String,
    pub username: String,
}

/// Pairs what the store returned for a user: a `User` exactly when both
/// the token and the username were present.
pub fn get_user(token: Option<String>, username: Option<String>) -> (r: Option<User>)
    ensures
        r is Some <==> token is Some && username is Some,
        r matches Some(u) ==> token == Some(u.token) && username == Some(u.username),
{
    match (token, username) {
        (Some(token), Some(username)) => Some(User { token, username }),
        _ => None,
    }
}

/// The platform user a command acts for: the named member if one was
/// given, else the invoking author.
pub fn effective_user_id(member: Option<u64>, author: u64) -> (r: u64)
    ensures
        r == (match member {
            Some(m) => m,
            None => author,
        }),
{
    match member {
        Some(m) => m,
        None => author,
    }
}

/// The store key under which a user's token lives.
pub fn user_token_key(user_id: u64) -> (k: String)
    ensures
        k@ == "user:"@ + dec_digits(user_id as nat) + ":token"@,
{
    let mut k = String::from_str("user:");
    let digits = u64_to_string(user_id);
    k.append(digits.as_str());
    k.append(":token");
    k
}

/// The store key under which a user's verified username lives.
pub fn user_username_key(user_id: u64) -> (k: String)
    ensures
        k@ == "user:"@ + dec_digits(user_id as nat) + ":username"@,
{
    let mut k = String::from_str("user:");
    let digits = u64_to_string(user_id);
    k.append(digits.as_str());
    k.append(":username");
    k
}

} // verus!
