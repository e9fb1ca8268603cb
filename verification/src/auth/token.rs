//! Finding the access token of a request and deciding what the request is
//! allowed.

use vstd::prelude::*;
use crate::ids::{parse_uuid, uuid_parse_result};
use crate::text::{opt_str, opt_string, find_char_from, has_prefix, lemma_next_index_of_bounds, next_index_of, starts_with, substring};

verus! {

/// The token of an `Authorization` header: what follows `Bearer `, or
/// nothing when the header has another form.
pub open spec fn bearer_token(h: Seq<char>) -> Option<Seq<char>> {
    if has_prefix(h, "Bearer "@) {
        Some(h.skip("Bearer "@.len() as int))
    } else {
        None
    }
}

/// The value of the first `&`-separated part of `q`, at or after `from`,
/// that begins with `token=`.
pub open spec fn query_token_at(q: Seq<char>, from: int) -> Option<Seq<char>>
    decreases q.len() - from,
{
    if from < 0 || from > q.len() {
        None
    } else {
        let end = next_index_of(q, from, '&');
        let part = q.subrange(from, end);
        if has_prefix(part, "token="@) {
            Some(part.skip("token="@.len() as int))
        } else if end < q.len() {
            proof {
                lemma_next_index_of_bounds(q, from, '&');
            }
            query_token_at(q, end + 1)
        } else {
            None
        }
    }
}

/// The access token of a request: from the `Authorization` header when it is
/// there (and readable), else from the `token` query parameter, the way
/// browsers' WebSockets send it.
pub open spec fn request_token(auth_header: Option<Seq<char>>, query: Option<Seq<char>>) -> Option<Seq<char>> {
    match auth_header {
        Some(h) => bearer_token(h),
        None => match query {
            Some(q) => query_token_at(q, 0),
            None => query_token_at(""@, 0),
        },
    }
}

fn query_token(q: &str) -> (r: Option<String>)
    ensures
        match r {
            Some(t) => query_token_at(q@, 0) == Some(t@),
            None => query_token_at(q@, 0) is None,
        },
{
    let n = q.unicode_len();
    let plen = "token=".unicode_len();
    let mut start: usize = 0;
    loop
        invariant
            n == q@.len(),
            plen == "token="@.len(),
            start <= n,
            query_token_at(q@, 0) == query_token_at(q@, start as int),
        decreases n - start,
    {
        let end = find_char_from(q, start, '&');
        let part = substring(q, start, end);
        if starts_with(part.as_str(), "token=") {
            return Some(substring(part.as_str(), plen, part.unicode_len()));
        }
        if end < n {
            start = end + 1;
        } else {
            return None;
        }
    }
}

/// Reads the access token of a request from its `Authorization` header
/// (`None` when absent or not visible ASCII) or, failing that, from its query
/// string.
pub fn extract_token(auth_header: Option<&str>, query: Option<&str>) -> (r: Option<String>)
    ensures
        match r {
            Some(t) => request_token(opt_str(auth_header), opt_str(query)) == Some(t@),
            None => request_token(opt_str(auth_header), opt_str(query)) is None,
        },
{
    match auth_header {
        Some(h) => {
            if starts_with(h, "Bearer ") {
                let plen = "Bearer ".unicode_len();
                Some(substring(h, plen, h.unicode_len()))
            } else {
                None
            }
        },
        None => match query {
            Some(q) => query_token(q),
            None => query_token(""),
        },
    }
}

/// What an access token's subject gives: a user, or no user.
pub open spec fn subject_user(sub: Option<Seq<char>>) -> Option<u128> {
    match sub {
        Some(s) => uuid_parse_result(s),
        None => None,
    }
}

/// The claims of `token` when it passes every check of `jsonwebtoken::decode`
/// with `Validation::new(HS256)` and the key `secret` other than the time
/// checks (its form, header and algorithm, signature, required claims),
/// none otherwise. Of the claims: `sub` when it is a string, and `exp` when
/// it is a whole number that fits in a `u64`.
pub uninterp spec fn hs256_claims(token: Seq<char>, secret: Seq<char>) -> Option<(Option<Seq<char>>, Option<u64>)>;

/// The subject of decoded claims that read as `{ sub: String, exp: integer }`:
/// both must be there and of these types.
pub open spec fn checked_subject(claims: Option<(Option<Seq<char>>, Option<u64>)>) -> Option<Seq<char>> {
    match claims {
        Some((Some(sub), Some(_))) => Some(sub),
        _ => None,
    }
}

/// The checked subject of `token` under `secret`, the clock aside.
pub open spec fn hs256_subject(token: Seq<char>, secret: Seq<char>) -> Option<Seq<char>> {
    checked_subject(hs256_claims(token, secret))
}

/// `t` holds at least two `.`, as the three parts of a JWT need.
pub open spec fn jwt_shaped(t: Seq<char>) -> bool {
    exists|i: int, j: int| 0 <= i < j < t.len() && t[i] == '.' && t[j] == '.'
}

/// The text of decoded claims.
pub open spec fn claims_view(c: Option<(Option<String>, Option<u64>)>) -> Option<(Option<Seq<char>>, Option<u64>)> {
    match c {
        Some((sub, exp)) => Some((opt_string(sub), exp)),
        None => None,
    }
}

/// Checks an access token with `jsonwebtoken::decode` (HS256 with `secret`,
/// expiry included) and reads its `sub` claim as a string (`as_str`) and its
/// `exp` claim as an unsigned integer (`as_u64`). Claims it gives are the
/// token's checked claims; when the token fails the checks that do not
/// depend on the clock, or has fewer than two `.`, there are none. Whether
/// an otherwise good token has expired depends on the clock and is not
/// stated.
#[verifier::external_body]
fn decode_claims(token: &str, secret: &str) -> (c: Option<(Option<String>, Option<u64>)>)
    ensures
        c is Some ==> hs256_claims(token@, secret@) == claims_view(c),
        hs256_claims(token@, secret@) is None ==> c is None,
        !jwt_shaped(token@) ==> c is None,
{
    let key = jsonwebtoken::DecodingKey::from_secret(secret.as_bytes());
    let validation = jsonwebtoken::Validation::new(jsonwebtoken::Algorithm::HS256);
    let data = jsonwebtoken::decode::<std::collections::HashMap<String, serde_json::Value>>(token, &key, &validation);
    data.ok().map(|d| {
        let sub = d.claims.get("sub").and_then(|v| v.as_str()).map(|v| v.to_string());
        (sub, d.claims.get("exp").and_then(|v| v.as_u64()))
    })
}

/// The subject of decoded claims: `sub`, provided that `exp` is an integer.
pub fn subject_from_claims(claims: Option<(Option<String>, Option<u64>)>) -> (r: Option<String>)
    ensures
        opt_string(r) == checked_subject(claims_view(claims)),
{
    match claims {
        Some((Some(sub), Some(_))) => Some(sub),
        _ => None,
    }
}

/// The user named by a decoded subject, if the subject is a UUID.
pub fn user_from_subject(sub: Option<String>) -> (r: Option<u128>)
    ensures
        r == subject_user(opt_string(sub)),
{
    match sub {
        Some(s) => parse_uuid(s.as_str()),
        None => None,
    }
}

/// Checks an access token and reads the user it names: a user it gives is
/// the UUID of the token's checked subject. `None` when the token is not a
/// JWT, is forged, has expired or names no UUID; whether it has expired
/// depends on the clock.
pub fn token_user(token: &str, secret: &str) -> (r: Option<u128>)
    ensures
        r matches Some(u) ==> subject_user(hs256_subject(token@, secret@)) == Some(u),
        subject_user(hs256_subject(token@, secret@)) is None ==> r is None,
        !jwt_shaped(token@) ==> r is None,
{
    let claims = decode_claims(token, secret);
    let sub = subject_from_claims(claims);
    user_from_subject(sub)
}

/// What the authentication layer does with a request before it looks at the
/// session.
pub enum AuthVerdict {
    /// Answer 401.
    Unauthorized,
    /// `JWT_SECRET` is not set: answer 500.
    MissingSecret,
    /// The token is valid and names this user; look for a live session.
    CheckSession(u128),
}

/// The first part of the authentication layer: find the token, then check
/// it with the secret.
pub fn authenticate(auth_header: Option<&str>, query: Option<&str>, secret: Option<&str>) -> (v: AuthVerdict)
    ensures
        request_token(opt_str(auth_header), opt_str(query)) is None ==> v == AuthVerdict::Unauthorized,
        v is MissingSecret <==> (request_token(opt_str(auth_header), opt_str(query)) is Some && secret is None),
        v matches AuthVerdict::CheckSession(u) ==> (secret matches Some(k)
            && request_token(opt_str(auth_header), opt_str(query)) matches Some(t)
            && subject_user(hs256_subject(t, k@)) == Some(u)),
        (secret matches Some(k) && request_token(opt_str(auth_header), opt_str(query)) matches Some(t)
            && (subject_user(hs256_subject(t, k@)) is None || !jwt_shaped(t)))
            ==> v == AuthVerdict::Unauthorized,
{
    let token = match extract_token(auth_header, query) {
        Some(t) => t,
        None => return AuthVerdict::Unauthorized,
    };
    let secret = match secret {
        Some(s) => s,
        None => return AuthVerdict::MissingSecret,
    };
    match token_user(token.as_str(), secret) {
        Some(u) => AuthVerdict::CheckSession(u),
        None => AuthVerdict::Unauthorized,
    }
}

/// What the session table said of the token's user.
pub enum SessionLookup {
    /// A refresh token that has not expired.
    Found,
    /// No live refresh token.
    NotFound,
    /// The query failed.
    Failed,
}

/// The end of the authentication layer.
pub enum AuthOutcome {
    /// Pass the request on, marked with this user.
    Authorized(u128),
    /// Answer 401.
    Unauthorized,
    /// Answer 500.
    ServerError,
}

/// The second part of the authentication layer: a live session lets the
/// user through.
pub fn session_outcome(user: u128, lookup: SessionLookup) -> (o: AuthOutcome)
    ensures
        lookup is Found ==> o == AuthOutcome::Authorized(user),
        lookup is NotFound ==> o == AuthOutcome::Unauthorized,
        lookup is Failed ==> o == AuthOutcome::ServerError,
{
    match lookup {
        SessionLookup::Found => AuthOutcome::Authorized(user),
        SessionLookup::NotFound => AuthOutcome::Unauthorized,
        SessionLookup::Failed => AuthOutcome::ServerError,
    }
}

/// A request that carries an `Authorization` header is judged by that header
/// alone: its query string is never read, and a header of another form than
/// `Bearer <token>` gives no token.
pub proof fn header_decides_token(header: Seq<char>, query: Option<Seq<char>>, other_query: Option<Seq<char>>)
    ensures
        request_token(Some(header), query) == request_token(Some(header), other_query),
        !has_prefix(header, "Bearer "@) ==> request_token(Some(header), query) is None,
{
}

} // verus!
