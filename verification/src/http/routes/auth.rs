//! The claims of the tokens that the login routes issue.

use crate::http::models::auth::Claims;
use vstd::prelude::*;
use vstd::string::StringExecFns;

verus! {

/// Number of seconds for which a token is valid.
pub const TOKEN_LIFETIME_SECS: i64 = 86400;

/// Claims of a token for the archive's own API, issued at `now`.
pub open spec fn api_claims(now: i64, user_id: i32, name: Seq<char>, claims: Claims) -> bool {
    signed_path_claims(now, user_id, name, "centaureissi"@, claims)
}

/// Claims of a token for the audience `audience`, issued at `now`: valid
/// for 24 hours from then.
pub open spec fn signed_path_claims(
    now: i64,
    user_id: i32,
    name: Seq<char>,
    audience: Seq<char>,
    claims: Claims,
) -> bool {
    &&& claims.iat == now
    &&& claims.exp == now + TOKEN_LIFETIME_SECS
    &&& claims.sub == user_id
    &&& claims.name@ == name
    &&& claims.iss@ == "centaureissi-api"@
    &&& claims.aud@ == audience
}

/// Whether claims can be issued at `now`: the time is not before the epoch
/// and the expiry fits the machine word.
pub open spec fn can_issue_at(now: i64) -> bool {
    0 <= now && now + TOKEN_LIFETIME_SECS <= usize::MAX && now + TOKEN_LIFETIME_SECS <= i64::MAX
}

/// The claims of a token for `audience`, issued to a user at `now` (seconds
/// since the Unix epoch) and valid for 24 hours. `None` where no such
/// claims can be issued at `now`.
pub fn issue_claims(now: i64, user_id: i32, name: String, audience: String) -> (claims: Option<
    Claims,
>)
    ensures
        can_issue_at(now) <==> claims is Some,
        claims matches Some(c) ==> signed_path_claims(now, user_id, name@, audience@, c),
{
    if now < 0 {
        return None;
    }
    let expiry = match now.checked_add(TOKEN_LIFETIME_SECS) {
        Some(expiry) => expiry,
        None => {
            return None;
        },
    };
    if expiry as u64 > usize::MAX as u64 {
        return None;
    }
    Some(
        Claims {
            exp: expiry as usize,
            iat: now as usize,
            name,
            iss: String::from_str("centaureissi-api"),
            sub: user_id,
            aud: audience,
        },
    )
}

/// The claims of a token for the archive's own API.
pub fn issue_api_claims(now: i64, user_id: i32, name: String) -> (claims: Option<Claims>)
    ensures
        can_issue_at(now) <==> claims is Some,
        claims matches Some(c) ==> api_claims(now, user_id, name@, c),
{
    issue_claims(now, user_id, name, String::from_str("centaureissi"))
}

} // verus!
