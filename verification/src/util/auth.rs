//! Session authentication: identity keys, issuing and verifying session
//! tokens, and reading an identity out of an authorization header.
//!
//! Every function that needs the time comes in two forms: one that takes the
//! time as an argument and has an exact contract, and one that reads the
//! system clock and then calls the first. Reading the clock, and opening a
//! token, panic on a machine whose clock stands before 1970; nothing else
//! here panics.

use crate::util::digest::{
    decimal, digit, fixed_decimal, lemma_fixed_decimal_len, lemma_fixed_decimal_of_u64, sip_digest,
    sip_digest_of, to_fixed_decimal,
};
use crate::util::text::{
    is_blank, is_solid, lemma_words_after_gap, lemma_words_after_run, lemma_words_of_pair,
    lemma_words_of_run, split_whitespace, words,
};
use crate::util::token::{open_token, sign_claims, signed_token, token_claims, Claims, ClaimsView};
use jsonwebtoken::get_current_timestamp;
use vstd::prelude::*;
use vstd::string::StringExecFns;

verus! {

/// The secret that every token is signed with.
pub const KEY: &'static str = "starn_magic_auth";

/// How long a token issued without an explicit lifetime is valid: seven days,
/// in seconds.
pub const DEFAULT_TTL: u64 = 604800;

/// A user as the request layer sees it. An identity read from a token has a
/// `uid` and a `role` and never a `pswd`.
#[derive(Clone, Debug)]
pub struct User {
    pub uid: Option<String>,
    pub name: String,
    pub role: Option<String>,
    pub pswd: Option<String>,
}

/// The mathematical content of a [`User`].
pub struct UserView {
    pub uid: Option<Seq<char>>,
    pub name: Seq<char>,
    pub role: Option<Seq<char>>,
    pub pswd: Option<Seq<char>>,
}

impl View for User {
    type V = UserView;

    open spec fn view(&self) -> UserView {
        UserView {
            uid: self.uid.deep_view(),
            name: self.name@,
            role: self.role.deep_view(),
            pswd: self.pswd.deep_view(),
        }
    }
}

/// The content of an optional user.
pub open spec fn shown(user: Option<User>) -> Option<UserView> {
    match user {
        Some(user) => Some(user@),
        None => None,
    }
}

/// The text that is hashed for the identity key of `name`.
pub open spec fn uid_message(name: Seq<char>) -> Seq<char> {
    "user--"@ + name + "--name"@
}

/// How many characters an identity key has.
pub const UID_LEN: usize = 20;

/// The identity key of `name`: the digest of the name between its two
/// markers, written as a decimal numeral of [`UID_LEN`] digits, zeros in
/// front where the digest has fewer. A function of the name alone.
pub open spec fn identity_key(name: Seq<char>) -> Seq<char> {
    fixed_decimal(sip_digest(uid_message(name)) as nat, UID_LEN as nat)
}

/// Derives the identity key of `name`. Every key has the same length.
pub fn generate_uid(name: &str) -> (uid: String)
    ensures
        uid@ == identity_key(name@),
        uid@.len() == UID_LEN,
{
    let message = String::from_str("user--").concat(name).concat("--name");
    to_fixed_decimal(sip_digest_of(message.as_str()), UID_LEN)
}

/// Every identity key has [`UID_LEN`] characters, and is the plain decimal
/// numeral of the digest behind as many zeros as fill that length.
pub proof fn lemma_identity_key_len(name: Seq<char>)
    ensures
        identity_key(name).len() == UID_LEN,
        identity_key(name) == Seq::new(
            (UID_LEN - decimal(sip_digest(uid_message(name)) as nat).len()) as nat,
            |i: int| digit(0),
        ) + decimal(sip_digest(uid_message(name)) as nat),
{
    lemma_fixed_decimal_len(sip_digest(uid_message(name)) as nat, UID_LEN as nat);
    lemma_fixed_decimal_of_u64(sip_digest(uid_message(name)));
}

/// The identity that `claims` stand for.
pub open spec fn identity_of(claims: ClaimsView) -> UserView {
    UserView {
        uid: Some(identity_key(claims.user)),
        name: claims.user,
        role: Some(claims.role),
        pswd: None,
    }
}

/// The identity that `claims` give at the time `now`: none once the claims
/// have expired, and they have as soon as `now` reaches `exp`.
pub open spec fn identity_at(claims: ClaimsView, now: u64) -> Option<UserView> {
    if claims.exp > now {
        Some(identity_of(claims))
    } else {
        None
    }
}

/// The identity that `token` proves at the time `now`.
pub open spec fn verified_at(token: Seq<char>, now: u64) -> Option<UserView> {
    match token_claims(token, KEY@) {
        Some(claims) => identity_at(claims, now),
        None => None,
    }
}

/// The token inside an authorization header: the header must consist of
/// exactly two words, the first of them `Bearer`; the second is the token.
pub open spec fn bearer_token(header: Seq<char>) -> Option<Seq<char>> {
    let parts = words(header);
    if parts.len() == 2 && parts[0] == "Bearer"@ {
        Some(parts[1])
    } else {
        None
    }
}

/// The identity that an optional authorization header proves at the time
/// `now`.
pub open spec fn extracted_at(header: Option<Seq<char>>, now: u64) -> Option<UserView> {
    match header {
        Some(header) => match bearer_token(header) {
            Some(token) => verified_at(token, now),
            None => None,
        },
        None => None,
    }
}

/// Finds the token in an authorization header.
pub fn bearer_token_of(header: &str) -> (token: Option<String>)
    ensures
        token.deep_view() == bearer_token(header@),
{
    let mut parts = split_whitespace(header);
    if parts.len() != 2 {
        return None;
    }
    let scheme = String::from_str("Bearer");
    assert(parts.deep_view()[0] == parts[0]@);
    assert(parts.deep_view()[1] == parts[1]@);
    if parts[0] != scheme {
        return None;
    }
    parts.pop()
}

impl User {
    /// The identity behind verified claims, as of the time `now`.
    pub fn from_claims(claims: Claims, now: u64) -> (identity: Option<User>)
        ensures
            shown(identity) == identity_at(claims@, now),
            claims.exp <= now ==> identity is None,
    {
        if claims.exp <= now {
            return None;
        }
        let uid = generate_uid(claims.user.as_str());
        Some(User { uid: Some(uid), name: claims.user, role: Some(claims.role), pswd: None })
    }

    /// Verifies `token` as of the time `now`. A token that is malformed,
    /// wrongly signed or expired proves nothing; that is a value, not a
    /// failure. The time is the caller's, but opening a token still has the
    /// system clock read: this panics where that clock stands before 1970.
    pub fn from_jwt_at(token: &str, now: u64) -> (identity: Option<User>)
        ensures
            shown(identity) == verified_at(token@, now),
            token_claims(token@, KEY@) is None ==> identity is None,
            token_claims(token@, KEY@) matches Some(claims) && claims.exp <= now ==> identity
                is None,
            token@.len() == 0 ==> identity is None,
    {
        match open_token(token, KEY) {
            Some(claims) => User::from_claims(claims, now),
            None => None,
        }
    }

    /// Verifies `token` as of now, by the system clock. Whatever the clock
    /// says, an identity is only ever that of the claims the token carries.
    /// Panics where the clock stands before 1970.
    pub fn from_jwt(token: &str) -> (identity: Option<User>)
        ensures
            exists|now: u64| shown(identity) == #[trigger] verified_at(token@, now),
            token_claims(token@, KEY@) is None ==> identity is None,
            identity matches Some(user) ==> token_claims(token@, KEY@) matches Some(claims)
                && user@ == identity_of(claims),
            token@.len() == 0 ==> identity is None,
    {
        let now = get_current_timestamp();
        let identity = User::from_jwt_at(token, now);
        assert(shown(identity) == verified_at(token@, now));
        identity
    }

    /// Reads the identity out of an authorization header, as of the time
    /// `now`. Panics, as opening a token does, where the system clock stands
    /// before 1970.
    pub fn from_request_at(header: &str, now: u64) -> (identity: Option<User>)
        ensures
            shown(identity) == extracted_at(Some(header@), now),
    {
        match bearer_token_of(header) {
            Some(token) => User::from_jwt_at(token.as_str(), now),
            None => None,
        }
    }

    /// Reads the identity out of an authorization header, as of now, by the
    /// system clock. Panics where that clock stands before 1970.
    pub fn from_request(header: &str) -> (identity: Option<User>)
        ensures
            exists|now: u64| shown(identity) == #[trigger] extracted_at(Some(header@), now),
    {
        let now = get_current_timestamp();
        let identity = User::from_request_at(header, now);
        assert(shown(identity) == extracted_at(Some(header@), now));
        identity
    }

    /// Reads the identity out of a request's authorization header, if it has
    /// one, as of the time `now`. Panics, as opening a token does, where the
    /// system clock stands before 1970.
    pub fn extract_at(header: Option<&str>, now: u64) -> (identity: Option<User>)
        ensures
            shown(identity) == extracted_at(header.deep_view(), now),
            header is None ==> identity is None,
    {
        match header {
            Some(header) => User::from_request_at(header, now),
            None => None,
        }
    }

    /// Reads the identity out of a request's authorization header, if it has
    /// one, as of now, by the system clock. Panics where that clock stands
    /// before 1970.
    pub fn extract(header: Option<&str>) -> (identity: Option<User>)
        ensures
            exists|now: u64| shown(identity) == #[trigger] extracted_at(header.deep_view(), now),
            header is None ==> identity is None,
    {
        let now = get_current_timestamp();
        let identity = User::extract_at(header, now);
        assert(shown(identity) == extracted_at(header.deep_view(), now));
        identity
    }
}

/// The claims of a token issued at `now` for `ttl` seconds, if that expiry
/// still is a 64-bit time.
pub open spec fn claims_issued(name: Seq<char>, role: Seq<char>, now: u64, ttl: u64) -> Option<
    ClaimsView,
> {
    if now + ttl <= u64::MAX {
        Some(ClaimsView { user: name, role: role, exp: (now + ttl) as u64 })
    } else {
        None
    }
}

/// The token issued at `now` for `ttl` seconds: none where the expiry is no
/// 64-bit time.
pub open spec fn issued_at(name: Seq<char>, role: Seq<char>, now: u64, ttl: u64) -> Option<
    Seq<char>,
> {
    match claims_issued(name, role, now, ttl) {
        Some(claims) => Some(signed_token(claims, KEY@)),
        None => None,
    }
}

/// Whether `token` can stand in an authorization header behind `Bearer`
/// and a space, and be found there again: it is one word.
pub open spec fn fits_header(token: Seq<char>) -> bool {
    &&& token.len() > 0
    &&& is_solid(token)
    &&& bearer_token("Bearer "@ + token) == Some(token)
}

/// Signs a token for `name` in `role` that expires at the second `expire`.
/// There always is a token, and it is one word, fit for a header.
pub fn generate_jwt(name: String, role: String, expire: u64) -> (token: Option<String>)
    ensures
        token matches Some(signed) && signed@ == signed_token(
            (ClaimsView { user: name@, role: role@, exp: expire }),
            KEY@,
        ),
        token matches Some(signed) && fits_header(signed@),
{
    let claims = Claims { user: name, role: role, exp: expire };
    match sign_claims(&claims, KEY) {
        Ok(token) => {
            proof {
                lemma_bearer_and_space(token@);
            }
            Some(token)
        },
        Err(_) => None,
    }
}

/// Issues, at the time `now`, a token for `name` in `role` that is valid for
/// `ttl` seconds. `None` where, and only where, the expiry would not be a
/// 64-bit time.
pub fn issue_at(name: String, role: String, now: u64, ttl: u64) -> (token: Option<String>)
    ensures
        token.deep_view() == issued_at(name@, role@, now, ttl),
        token is Some <==> now + ttl <= u64::MAX,
        token matches Some(signed) ==> fits_header(signed@),
{
    match now.checked_add(ttl) {
        Some(expire) => generate_jwt(name, role, expire),
        None => None,
    }
}

/// Issues a token for `name` in `role` that is valid for `ttl` seconds from
/// now, by the system clock. Panics where that clock stands before 1970.
pub fn issue(name: String, role: String, ttl: u64) -> (token: Option<String>)
    ensures
        exists|now: u64| token.deep_view() == #[trigger] issued_at(name@, role@, now, ttl),
        token matches Some(signed) ==> fits_header(signed@),
{
    let ghost user = name@;
    let ghost part = role@;
    let now = get_current_timestamp();
    let token = issue_at(name, role, now, ttl);
    assert(token.deep_view() == issued_at(user, part, now, ttl));
    token
}

/// Issues a token for `name` in `role` with the default lifetime of seven
/// days from now, by the system clock. Panics where that clock stands
/// before 1970.
pub fn generate_default_jwt(name: String, role: String) -> (token: Option<String>)
    ensures
        exists|now: u64|
            token.deep_view() == #[trigger] issued_at(name@, role@, now, DEFAULT_TTL),
        token matches Some(signed) ==> fits_header(signed@),
{
    issue(name, role, DEFAULT_TTL)
}

/// `Bearer` is a word: it holds no white space.
proof fn lemma_bearer_is_solid()
    ensures
        is_solid("Bearer"@),
        "Bearer"@.len() == 6,
{
    reveal_strlit("Bearer");
}

/// A header made of `Bearer`, white space and a token without white space
/// holds that token, and proves whatever the token proves.
pub proof fn lemma_bearer_header(gap: Seq<char>, token: Seq<char>, now: u64)
    requires
        is_blank(gap),
        gap.len() > 0,
        is_solid(token),
        token.len() > 0,
    ensures
        bearer_token("Bearer"@ + gap + token) == Some(token),
        extracted_at(Some("Bearer"@ + gap + token), now) == verified_at(token, now),
{
    lemma_bearer_is_solid();
    lemma_words_of_pair("Bearer"@, gap, token);
}

/// A token of one word, behind `Bearer` and one space, is found again in
/// the header, and the header proves whatever the token proves. Every token
/// that [`generate_jwt`] signs is such a token.
pub proof fn lemma_bearer_and_space(token: Seq<char>)
    requires
        is_solid(token),
        token.len() > 0,
    ensures
        fits_header(token),
        forall|now: u64|
            #[trigger] extracted_at(Some("Bearer "@ + token), now) == verified_at(token, now),
{
    reveal_strlit("Bearer ");
    reveal_strlit("Bearer");
    reveal_strlit(" ");
    assert(is_blank(" "@));
    assert("Bearer "@ =~= "Bearer"@ + " "@);
    assert("Bearer "@ + token =~= "Bearer"@ + " "@ + token);
    lemma_bearer_header(" "@, token, 0);
}

/// A header whose first word is not exactly `Bearer` holds no token.
pub proof fn lemma_scheme_must_be_bearer(scheme: Seq<char>, gap: Seq<char>, token: Seq<char>)
    requires
        is_solid(scheme),
        scheme.len() > 0,
        scheme != "Bearer"@,
        is_blank(gap),
        gap.len() > 0,
        is_solid(token),
        token.len() > 0,
    ensures
        bearer_token(scheme + gap + token) is None,
{
    lemma_words_of_pair(scheme, gap, token);
}

/// A header of one word, `Bearer` or another, holds no token, and neither
/// does an empty one.
pub proof fn lemma_one_word_is_no_header(word: Seq<char>)
    requires
        is_solid(word),
    ensures
        bearer_token(word) is None,
        bearer_token("Bearer"@) is None,
{
    lemma_words_of_run(word);
    lemma_bearer_is_solid();
    lemma_words_of_run("Bearer"@);
}

/// A header of three words holds no token, whatever the words are.
pub proof fn lemma_three_words_are_no_header(
    first: Seq<char>,
    gap: Seq<char>,
    second: Seq<char>,
    space: Seq<char>,
    third: Seq<char>,
)
    requires
        is_solid(first) && first.len() > 0,
        is_blank(gap) && gap.len() > 0,
        is_solid(second) && second.len() > 0,
        is_blank(space) && space.len() > 0,
        is_solid(third) && third.len() > 0,
    ensures
        words(first + gap + second + space + third) == seq![first, second, third],
        bearer_token(first + gap + second + space + third) is None,
{
    let empty = Seq::<char>::empty();
    let tail = second + space + third;
    assert(first + gap + second + space + third =~= first + (gap + tail));
    lemma_words_after_run(empty, first, gap + tail);
    assert(empty + first =~= first);
    lemma_words_after_gap(first, gap, tail);
    lemma_words_of_pair(second, space, third);
    assert(seq![first] + seq![second, third] =~= seq![first, second, third]);
}

/// Claims issued at `now` for `ttl` seconds, `ttl` not zero, give the
/// identity of the name and role they were issued for at every time from
/// `now` until just before they expire. This speaks of claims, not of the
/// token that carries them: that a token gives back the claims it was signed
/// over is the signature scheme's business.
pub proof fn lemma_issued_claims_verify(
    name: Seq<char>,
    role: Seq<char>,
    now: u64,
    ttl: u64,
    later: u64,
)
    requires
        ttl > 0,
        now + ttl <= u64::MAX,
        now <= later < now + ttl,
    ensures
        claims_issued(name, role, now, ttl) matches Some(claims) && identity_at(claims, later)
            == Some(
            UserView { uid: Some(identity_key(name)), name: name, role: Some(role), pswd: None },
        ),
{
}

/// Claims issued for the default lifetime expire seven days after they were
/// issued, which is later than they were issued: they give their identity
/// at the time of issue.
pub proof fn lemma_default_lifetime(name: Seq<char>, role: Seq<char>, now: u64)
    requires
        now + DEFAULT_TTL <= u64::MAX,
    ensures
        claims_issued(name, role, now, DEFAULT_TTL) matches Some(claims) && claims.exp == now
            + 604800 && claims.exp > now && identity_at(claims, now) is Some,
{
}

/// Claims give no identity from the second of their expiry on. Claims issued
/// for zero seconds therefore never give one.
pub proof fn lemma_expired_claims_rejected(
    name: Seq<char>,
    role: Seq<char>,
    now: u64,
    ttl: u64,
    later: u64,
)
    requires
        now + ttl <= later,
    ensures
        claims_issued(name, role, now, ttl) matches Some(claims) && identity_at(claims, later)
            is None,
{
}

/// A token proves nothing from the second on at which the claims it carries
/// expire, and a token that carries no claims proves nothing at any time.
pub proof fn lemma_expired_token_rejected(token: Seq<char>, now: u64)
    ensures
        token_claims(token, KEY@) is None ==> verified_at(token, now) is None,
        token_claims(token, KEY@) matches Some(claims) && claims.exp <= now ==> verified_at(
            token,
            now,
        ) is None,
{
}

/// Once a token proves nothing it never proves anything again: time only
/// takes identities away.
pub proof fn lemma_verification_is_monotone(token: Seq<char>, now: u64, later: u64)
    requires
        now <= later,
    ensures
        verified_at(token, now) is None ==> verified_at(token, later) is None,
{
}

} // verus!
