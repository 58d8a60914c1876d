//! Signed tokens: the calls into `jsonwebtoken`, and the names under which
//! the rest of the library speaks of what they return.

use jsonwebtoken::errors::Error;
use jsonwebtoken::{decode, encode, DecodingKey, EncodingKey, Header, Validation};
use crate::util::text::is_solid;
use serde_json::Value;
use vstd::prelude::*;

verus! {

/// What a session token carries: who it was issued to, in which role, and
/// the second (since the Unix epoch) at which it stops being valid.
#[derive(Debug)]
pub struct Claims {
    pub user: String,
    pub role: String,
    pub exp: u64,
}

/// The mathematical content of [`Claims`].
pub struct ClaimsView {
    pub user: Seq<char>,
    pub role: Seq<char>,
    pub exp: u64,
}

impl View for Claims {
    type V = ClaimsView;

    open spec fn view(&self) -> ClaimsView {
        ClaimsView { user: self.user@, role: self.role@, exp: self.exp }
    }
}

/// The error type of `jsonwebtoken`, carried through unopened.
#[verifier::external_type_specification]
#[verifier::external_body]
pub struct ExTokenError(Error);

/// The token that signing `claims` under `secret` yields. Signing is not
/// modelled: the name only records that the token depends on the claims and
/// the secret alone.
pub uninterp spec fn signed_token(claims: ClaimsView, secret: Seq<char>) -> Seq<char>;

/// What the payload of a token holds under the three names that claims
/// are made of. A member is absent where the payload has nothing under the
/// name, or something of another kind.
#[derive(Debug)]
pub struct Members {
    pub user: Option<String>,
    pub role: Option<String>,
    pub exp: Option<u64>,
}

/// The mathematical content of [`Members`].
pub struct MembersView {
    pub user: Option<Seq<char>>,
    pub role: Option<Seq<char>>,
    pub exp: Option<u64>,
}

impl View for Members {
    type V = MembersView;

    open spec fn view(&self) -> MembersView {
        MembersView { user: self.user.deep_view(), role: self.role.deep_view(), exp: self.exp }
    }
}

/// The members of the payload of `token`, where `token` is accepted under
/// `secret`, or `None` where it is turned down: not three dot-separated
/// parts, a header that does not ask for HS256, a signature that does not
/// match, a payload that is no JSON or has no `exp`. Whether the token has
/// expired plays no part in it. Verification is not modelled: the name only
/// records that the outcome depends on the token and the secret alone.
pub uninterp spec fn token_members(token: Seq<char>, secret: Seq<char>) -> Option<MembersView>;

/// The claims that `members` make up: all three must be there.
pub open spec fn claims_of(members: MembersView) -> Option<ClaimsView> {
    match (members.user, members.role, members.exp) {
        (Some(user), Some(role), Some(exp)) => Some(
            ClaimsView { user: user, role: role, exp: exp },
        ),
        _ => None,
    }
}

/// The claims that `token` is accepted to carry under `secret`.
pub open spec fn token_claims(token: Seq<char>, secret: Seq<char>) -> Option<ClaimsView> {
    match token_members(token, secret) {
        Some(members) => claims_of(members),
        None => None,
    }
}

/// The content of optional claims.
pub open spec fn carried(claims: Option<Claims>) -> Option<ClaimsView> {
    match claims {
        Some(claims) => Some(claims@),
        None => None,
    }
}

impl Claims {
    /// Makes claims of the members of a payload, if all three are there.
    pub fn from_members(members: Members) -> (claims: Option<Claims>)
        ensures
            carried(claims) == claims_of(members@),
    {
        match (members.user, members.role, members.exp) {
            (Some(user), Some(role), Some(exp)) => Some(
                Claims { user: user, role: role, exp: exp },
            ),
            _ => None,
        }
    }
}

/// Trusted: `jsonwebtoken::encode` with the default header (HS256) and an
/// HMAC key made of the bytes of `secret`. The claims are handed over as a
/// JSON object into which `user`, `role` and `exp` are put, one after the
/// other; in which order the object writes them out is the JSON crate's
/// choice and is the same for every call.
///
/// The contract names the token and states three things that are not proved
/// here. Signing succeeds: for an HMAC key and the default header `encode`
/// has nothing left that could fail, since a header and an object of two
/// texts and a number always serialise and an HMAC is always computed. The
/// token is not empty and holds no white space: it is three runs of the
/// URL-safe base64 alphabet, joined by two dots.
#[verifier::external_body]
pub(crate) fn sign_claims(claims: &Claims, secret: &str) -> (signed: Result<String, Error>)
    ensures
        signed is Ok,
        signed->Ok_0@ == signed_token(claims@, secret@),
        signed->Ok_0@.len() > 0,
        is_solid(signed->Ok_0@),
{
    let mut payload = serde_json::Map::new();
    payload.insert("user".to_string(), Value::from(claims.user.as_str()));
    payload.insert("role".to_string(), Value::from(claims.role.as_str()));
    payload.insert("exp".to_string(), Value::from(claims.exp));
    encode(&Header::default(), &payload, &EncodingKey::from_secret(secret.as_bytes()))
}

/// Trusted: `jsonwebtoken::decode` with an HMAC key made of the bytes of
/// `secret` and the default validation (HS256, `exp` required), except that
/// the crate's own expiry test is switched off: the caller decides expiry
/// against a time of its choice. The crate still reads the system clock for
/// every token whose signature matches, but with the test off what it reads
/// decides nothing. That reading panics where the clock stands before 1970,
/// which no argument can rule out. The payload is read as a JSON value;
/// what it holds under `user` and `role` as text and under `exp` as an
/// unsigned 64-bit number is moved into [`Members`]. The contract names the
/// outcome and states one thing of it that is not proved here: the empty
/// token is turned down, as `decode` turns down whatever does not split
/// into three parts at its dots.
#[verifier::external_body]
fn decode_token(token: &str, secret: &str) -> (decoded: Result<Members, Error>)
    ensures
        match decoded {
            Ok(members) => token_members(token@, secret@) == Some(members@),
            Err(_) => token_members(token@, secret@) is None,
        },
        token@.len() == 0 ==> decoded is Err,
{
    let mut rule = Validation::default();
    rule.validate_exp = false;
    let key = DecodingKey::from_secret(secret.as_bytes());
    let payload = decode::<Value>(token, &key, &rule)?.claims;
    Ok(Members {
        user: payload.get("user").and_then(Value::as_str).map(str::to_string),
        role: payload.get("role").and_then(Value::as_str).map(str::to_string),
        exp: payload.get("exp").and_then(Value::as_u64),
    })
}

/// Opens `token` under `secret`: the claims it carries, or nothing where the
/// token is turned down or its payload lacks one of them. Panics where the
/// system clock stands before 1970.
pub fn open_token(token: &str, secret: &str) -> (opened: Option<Claims>)
    ensures
        carried(opened) == token_claims(token@, secret@),
        token@.len() == 0 ==> opened is None,
{
    match decode_token(token, secret) {
        Ok(members) => Claims::from_members(members),
        Err(_) => None,
    }
}

/// Trusted: `jsonwebtoken::get_current_timestamp`, the seconds since the
/// Unix epoch by the system clock. Nothing is claimed of the value. The call
/// panics where the clock stands before 1970, which no argument can rule
/// out.
pub assume_specification[ jsonwebtoken::get_current_timestamp ]() -> (now: u64)
;

} // verus!
