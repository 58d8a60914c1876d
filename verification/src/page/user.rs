//! The account pages: what each of them decides once the store has answered.
//!
//! The store itself is not reached from here. Whoever runs a page asks the
//! store and hands in what came back; the functions below decide on the
//! answer.

use crate::page::resp;
use crate::page::resp::{refusal, Resp, RespView};
use crate::util::auth::{
    generate_uid, identity_key, issue_at, issued_at, uid_message, User, UserView, DEFAULT_TTL,
};
use crate::util::digest::{decimal, sip_digest, sip_digest_of, to_decimal};
use jsonwebtoken::get_current_timestamp;
use vstd::prelude::*;
use vstd::string::StringExecFns;

verus! {

/// Why an account could not be had from the store.
#[derive(Debug, Clone)]
pub enum UserError {
    NoSuchUser,
    NoSuchField(String),
    ReadDbFail(String),
}

/// The mathematical content of a [`UserError`].
pub enum UserErrorView {
    NoSuchUser,
    NoSuchField(Seq<char>),
    ReadDbFail(Seq<char>),
}

impl View for UserError {
    type V = UserErrorView;

    open spec fn view(&self) -> UserErrorView {
        match self {
            UserError::NoSuchUser => UserErrorView::NoSuchUser,
            UserError::NoSuchField(reason) => UserErrorView::NoSuchField(reason@),
            UserError::ReadDbFail(reason) => UserErrorView::ReadDbFail(reason@),
        }
    }
}

impl UserErrorView {
    /// The message that explains the error. It starts with a space.
    pub open spec fn message(self) -> Seq<char> {
        match self {
            UserErrorView::NoSuchUser => " no such user"@,
            UserErrorView::NoSuchField(reason) => " "@ + reason,
            UserErrorView::ReadDbFail(reason) => " read db fail: "@ + reason,
        }
    }
}

impl UserError {
    /// The message that explains the error.
    pub fn message(&self) -> (text: String)
        ensures
            text@ == self@.message(),
    {
        match self {
            UserError::NoSuchUser => String::from_str(" no such user"),
            UserError::NoSuchField(reason) => String::from_str(" ").concat(reason.as_str()),
            UserError::ReadDbFail(reason) => String::from_str(" read db fail: ").concat(
                reason.as_str(),
            ),
        }
    }
}

/// The text that is hashed for the representation of the password `pswd`.
pub open spec fn pswd_message(pswd: Seq<char>) -> Seq<char> {
    "pass--"@ + pswd + "--word"@
}

/// The representation under which the password `pswd` is stored: the decimal
/// numeral of the digest of the password between its two markers. It is not
/// keyed per user: equal passwords have equal representations.
pub open spec fn password_hash(pswd: Seq<char>) -> Seq<char> {
    decimal(sip_digest(pswd_message(pswd)) as nat)
}

/// Computes the representation under which `pswd` is stored.
pub fn generate_pswd(pswd: &str) -> (stored: String)
    ensures
        stored@ == password_hash(pswd@),
{
    let message = String::from_str("pass--").concat(pswd).concat("--word");
    to_decimal(sip_digest_of(message.as_str()))
}

/// The text hashed for an identity key and the text hashed for a password
/// are never the same text, whatever name and password are chosen: the two
/// begin with different markers. A representation of a password is thus
/// never the digest of what an identity key is the digest of.
pub proof fn lemma_messages_differ(name: Seq<char>, pswd: Seq<char>)
    ensures
        uid_message(name) != pswd_message(pswd),
{
    reveal_strlit("user--");
    reveal_strlit("pass--");
    assert(uid_message(name)[0] == 'u');
    assert(pswd_message(pswd)[0] == 'p');
}

/// Different names are hashed as different texts, and so are different
/// passwords: the markers around them cannot be shifted by a crafted input.
pub proof fn lemma_messages_are_injective(a: Seq<char>, b: Seq<char>)
    ensures
        uid_message(a) == uid_message(b) ==> a == b,
        pswd_message(a) == pswd_message(b) ==> a == b,
{
    reveal_strlit("user--");
    reveal_strlit("--name");
    reveal_strlit("pass--");
    reveal_strlit("--word");
    if uid_message(a) == uid_message(b) {
        assert(a =~= uid_message(a).subrange(6, 6 + a.len() as int));
        assert(b =~= uid_message(b).subrange(6, 6 + b.len() as int));
        assert(uid_message(a).len() == a.len() + 12);
        assert(uid_message(b).len() == b.len() + 12);
    }
    if pswd_message(a) == pswd_message(b) {
        assert(a =~= pswd_message(a).subrange(6, 6 + a.len() as int));
        assert(b =~= pswd_message(b).subrange(6, 6 + b.len() as int));
        assert(pswd_message(a).len() == a.len() + 12);
        assert(pswd_message(b).len() == b.len() + 12);
    }
}

/// Equal names have equal identity keys and equal passwords have equal
/// representations: both are functions of their argument alone, with no
/// part for chance, time or the user.
pub proof fn lemma_codec_is_deterministic(a: Seq<char>, b: Seq<char>)
    requires
        a == b,
    ensures
        identity_key(a) == identity_key(b),
        password_hash(a) == password_hash(b),
{
}

/// `user` without its password.
pub open spec fn without_pswd(user: UserView) -> UserView {
    UserView { uid: user.uid, name: user.name, role: user.role, pswd: None }
}

/// Strips the password from `m`, so that it can be shown.
pub fn remove_pswd(m: User) -> (shown: User)
    ensures
        shown@ == without_pswd(m@),
{
    User { uid: m.uid, name: m.name, role: m.role, pswd: None }
}

/// A copy of `user`.
fn copy_of(user: &User) -> (copy: User)
    ensures
        copy@ == user@,
{
    User {
        uid: copy_of_text(&user.uid),
        name: user.name.clone(),
        role: copy_of_text(&user.role),
        pswd: copy_of_text(&user.pswd),
    }
}

fn copy_of_text(text: &Option<String>) -> (copy: Option<String>)
    ensures
        copy.deep_view() == text.deep_view(),
{
    match text {
        Some(text) => Some(text.clone()),
        None => None,
    }
}

/// One text member of a stored record as the store gave it: the text, or the
/// reason why it could not be read.
pub type Member = Result<String, String>;

/// The content of a [`Member`].
pub open spec fn member_view(member: Member) -> Result<Seq<char>, Seq<char>> {
    match member {
        Ok(text) => Ok(text@),
        Err(reason) => Err(reason@),
    }
}

/// An account as the store holds it: four text members, each of which may
/// be missing or be no text.
#[derive(Debug)]
pub struct UserDocument {
    pub uid: Member,
    pub name: Member,
    pub role: Member,
    pub pswd: Member,
}

/// The mathematical content of a [`UserDocument`].
pub struct UserDocumentView {
    pub uid: Result<Seq<char>, Seq<char>>,
    pub name: Result<Seq<char>, Seq<char>>,
    pub role: Result<Seq<char>, Seq<char>>,
    pub pswd: Result<Seq<char>, Seq<char>>,
}

impl View for UserDocument {
    type V = UserDocumentView;

    open spec fn view(&self) -> UserDocumentView {
        UserDocumentView {
            uid: member_view(self.uid),
            name: member_view(self.name),
            role: member_view(self.role),
            pswd: member_view(self.pswd),
        }
    }
}

/// The content of an account, or of the reason why there is none.
pub open spec fn found_view(found: Result<User, UserError>) -> Result<UserView, UserErrorView> {
    match found {
        Ok(user) => Ok(user@),
        Err(error) => Err(error@),
    }
}

/// The account in a stored record. The members are read in the order `uid`,
/// `name`, `role`, `pswd`; the first that cannot be read decides the error.
pub open spec fn meta_of(d: UserDocumentView) -> Result<UserView, UserErrorView> {
    match (d.uid, d.name, d.role, d.pswd) {
        (Err(reason), _, _, _) => Err(UserErrorView::NoSuchField(reason)),
        (Ok(_), Err(reason), _, _) => Err(UserErrorView::NoSuchField(reason)),
        (Ok(_), Ok(_), Err(reason), _) => Err(UserErrorView::NoSuchField(reason)),
        (Ok(_), Ok(_), Ok(_), Err(reason)) => Err(UserErrorView::NoSuchField(reason)),
        (Ok(uid), Ok(name), Ok(role), Ok(pswd)) => Ok(
            UserView { uid: Some(uid), name: name, role: Some(role), pswd: Some(pswd) },
        ),
    }
}

/// Reads the account out of a stored record.
pub fn get_meta_from_doc(d: &UserDocument) -> (found: Result<User, UserError>)
    ensures
        found_view(found) == meta_of(d@),
{
    let uid = match &d.uid {
        Err(reason) => return Err(UserError::NoSuchField(reason.clone())),
        Ok(uid) => uid.clone(),
    };
    let name = match &d.name {
        Err(reason) => return Err(UserError::NoSuchField(reason.clone())),
        Ok(name) => name.clone(),
    };
    let role = match &d.role {
        Err(reason) => return Err(UserError::NoSuchField(reason.clone())),
        Ok(role) => role.clone(),
    };
    let pswd = match &d.pswd {
        Err(reason) => return Err(UserError::NoSuchField(reason.clone())),
        Ok(pswd) => pswd.clone(),
    };
    Ok(User { uid: Some(uid), name: name, role: Some(role), pswd: Some(pswd) })
}

/// The account in a stored record, as it may be shown: without its password.
pub open spec fn userinfo_of(d: UserDocumentView) -> Result<UserView, UserErrorView> {
    match meta_of(d) {
        Ok(user) => Ok(without_pswd(user)),
        Err(error) => Err(error),
    }
}

/// Reads the account out of a stored record and strips its password.
pub fn get_userinfo_from_doc(d: &UserDocument) -> (found: Result<User, UserError>)
    ensures
        found_view(found) == userinfo_of(d@),
{
    match get_meta_from_doc(d) {
        Ok(m) => Ok(remove_pswd(m)),
        Err(e) => Err(e),
    }
}

/// What a lookup by user id comes to. `answer` is what the store gave: the
/// record found, if any, or the reason why the store could not be read.
pub open spec fn meta_of_lookup(
    answer: Result<Option<UserDocumentView>, Seq<char>>,
) -> Result<UserView, UserErrorView> {
    match answer {
        Ok(Some(d)) => meta_of(d),
        Ok(None) => Err(UserErrorView::NoSuchUser),
        Err(reason) => Err(UserErrorView::ReadDbFail(reason)),
    }
}

/// The content of what the store gave for a lookup.
pub open spec fn lookup_view(answer: Result<Option<UserDocument>, String>) -> Result<
    Option<UserDocumentView>,
    Seq<char>,
> {
    match answer {
        Ok(Some(d)) => Ok(Some(d@)),
        Ok(None) => Ok(None),
        Err(reason) => Err(reason@),
    }
}

/// Decides what a lookup by user id comes to.
pub fn get_meta_from_db(answer: Result<Option<UserDocument>, String>) -> (found: Result<
    User,
    UserError,
>)
    ensures
        found_view(found) == meta_of_lookup(lookup_view(answer)),
{
    match answer {
        Ok(Some(d)) => get_meta_from_doc(&d),
        Ok(None) => Err(UserError::NoSuchUser),
        Err(reason) => Err(UserError::ReadDbFail(reason)),
    }
}

/// Decides what a deletion comes to. `answer` is the number of records the
/// store deleted, or the reason why it could not.
pub fn delete_meta_from_db(answer: Result<u64, String>) -> (done: Result<(), UserError>)
    ensures
        match answer {
            Ok(deleted) => if deleted == 0 {
                done matches Err(error) && error@ == UserErrorView::NoSuchUser
            } else {
                done is Ok
            },
            Err(reason) => done matches Err(error) && error@ == UserErrorView::ReadDbFail(
                reason@,
            ),
        },
{
    match answer {
        Ok(deleted) => {
            if deleted == 0 {
                return Err(UserError::NoSuchUser);
            }
            Ok(())
        },
        Err(reason) => Err(UserError::ReadDbFail(reason)),
    }
}

/// Decides what inserting `m` comes to. `answer` is empty where the store
/// took the record, or the reason why it did not.
pub fn insert_meta_into_db(m: &User, answer: Result<(), String>) -> (stored: Result<
    User,
    UserError,
>)
    ensures
        match answer {
            Ok(_) => found_view(stored) == Ok::<UserView, UserErrorView>(m@),
            Err(reason) => found_view(stored) == Err::<UserView, UserErrorView>(
                UserErrorView::ReadDbFail(reason@),
            ),
        },
{
    match answer {
        Ok(_) => Ok(copy_of(m)),
        Err(reason) => Err(UserError::ReadDbFail(reason)),
    }
}

/// The answer of the page that shows one account.
pub open spec fn user_answer(found: Result<UserView, UserErrorView>) -> RespView<UserView> {
    match found {
        Ok(user) => RespView { errno: 0, msg: "success"@, data: Some(without_pswd(user)) },
        Err(error) => refusal(1000001, error.message()),
    }
}

/// Answers the page that shows one account, from what the lookup came to.
pub fn get_user(found: Result<User, UserError>) -> (answer: Resp<User>)
    ensures
        answer@ == user_answer(found_view(found)),
{
    match found {
        Ok(m) => resp::create(0, String::from_str("success"), Some(remove_pswd(m))),
        Err(e) => resp::create(1000001, e.message(), None),
    }
}

/// What registering `user` asks of the store, given what a lookup of the
/// user's id came to: the record to insert, or the answer that ends the
/// request. A name that is taken, a store that cannot be read and a request
/// without a password all end it.
pub open spec fn registration(user: UserView, lookup: Result<UserView, UserErrorView>) -> Result<
    UserView,
    RespView<UserView>,
> {
    match lookup {
        Ok(_) => Err(refusal(1000011, "username exists"@)),
        Err(UserErrorView::NoSuchUser) => match user.pswd {
            Some(pswd) => Ok(
                UserView {
                    uid: Some(identity_key(user.name)),
                    name: user.name,
                    role: user.role,
                    pswd: Some(password_hash(pswd)),
                },
            ),
            None => Err(refusal(1000014, "password empty"@)),
        },
        Err(error) => Err(refusal(1000012, error.message())),
    }
}

/// The content of a record to insert, or of the answer given instead.
pub open spec fn step_view(step: Result<User, Resp<User>>) -> Result<UserView, RespView<UserView>> {
    match step {
        Ok(user) => Ok(user@),
        Err(answer) => Err(answer@),
    }
}

/// Decides the first step of registering `user`.
pub fn create(user: &User, lookup: Result<User, UserError>) -> (step: Result<User, Resp<User>>)
    ensures
        step_view(step) == registration(user@, found_view(lookup)),
{
    match lookup {
        Ok(_) => Err(resp::create(1000011, String::from_str("username exists"), None)),
        Err(UserError::NoSuchUser) => {
            let pswd = match &user.pswd {
                None => {
                    return Err(resp::create(1000014, String::from_str("password empty"), None));
                },
                Some(p) => generate_pswd(p.as_str()),
            };
            Ok(
                User {
                    uid: Some(generate_uid(user.name.as_str())),
                    name: user.name.clone(),
                    role: copy_of_text(&user.role),
                    pswd: Some(pswd),
                },
            )
        },
        Err(e) => Err(resp::create(1000012, e.message(), None)),
    }
}

/// The answer that ends a registration, given what the insertion came to.
pub open spec fn created_answer(stored: Result<UserView, UserErrorView>) -> RespView<UserView> {
    match stored {
        Ok(user) => RespView { errno: 0, msg: "success"@, data: Some(without_pswd(user)) },
        Err(error) => refusal(1000014, error.message()),
    }
}

/// Answers a registration, from what the insertion came to.
pub fn created(stored: Result<User, UserError>) -> (answer: Resp<User>)
    ensures
        answer@ == created_answer(found_view(stored)),
{
    match stored {
        Ok(m) => resp::create(0, String::from_str("success"), Some(remove_pswd(m))),
        Err(e) => resp::create(1000014, e.message(), None),
    }
}

/// Answers the page that deletes an account, from what the deletion came to.
pub fn delete(done: Result<(), UserError>) -> (answer: Resp<Option<()>>)
    ensures
        answer.data is None,
        match done {
            Ok(_) => answer.errno == 0 && answer.msg@ == "success"@,
            Err(error) => answer.errno == 1000040 && answer.msg@ == error@.message(),
        },
{
    match done {
        Ok(_) => resp::create(0, String::from_str("success"), None),
        Err(e) => resp::create(1000040, e.message(), None),
    }
}

/// Answers the page that ends a session. Sessions are not kept anywhere, so
/// there is nothing to undo.
pub fn logout() -> (answer: Resp<Option<User>>)
    ensures
        answer.errno == 0,
        answer.msg@ == "success"@,
        answer.data is None,
{
    resp::create(0, String::from_str("success"), None)
}

/// What a successful login hands out: a session token, or nothing where
/// none could be issued.
#[derive(Debug)]
pub struct Jwt {
    pub jwt: Option<String>,
}

/// The mathematical content of a [`Jwt`].
pub struct JwtView {
    pub jwt: Option<Seq<char>>,
}

impl View for Jwt {
    type V = JwtView;

    open spec fn view(&self) -> JwtView {
        JwtView { jwt: self.jwt.deep_view() }
    }
}

/// Whether `pswd` is the password whose representation `stored` is.
pub fn password_matches(stored: &String, pswd: &str) -> (matches: bool)
    ensures
        matches == (stored@ == password_hash(pswd@)),
{
    *stored == generate_pswd(pswd)
}

/// The answer to a login of `user` at the time `now`, given what a lookup of
/// the user's id came to. A token is issued only where the account was
/// found, the request has a password, the account has one and the two
/// match, and the account has a role.
pub open spec fn login_answer(user: UserView, found: Result<UserView, UserErrorView>, now: u64)
    -> RespView<JwtView> {
    match found {
        Err(_) => refusal(1000030, "read from db fail"@),
        Ok(stored) => match (user.pswd, stored.pswd, stored.role) {
            (None, _, _) => refusal(1000031, "password empty"@),
            (Some(_), None, _) => refusal(1000032, "pswd and name does not match"@),
            (Some(pswd), Some(kept), role) => if kept != password_hash(pswd) {
                refusal(1000033, "pswd and name does not match"@)
            } else {
                match role {
                    None => refusal(1000032, "no role in db"@),
                    Some(role) => RespView {
                        errno: 0,
                        msg: "success"@,
                        data: Some(JwtView { jwt: issued_at(user.name, role, now, DEFAULT_TTL) }),
                    },
                }
            },
        },
    }
}

/// Answers a login of `user` at the time `now`, from what the lookup of the
/// user's id came to.
pub fn login_at(user: &User, found: Result<User, UserError>, now: u64) -> (answer: Resp<Jwt>)
    ensures
        answer@ == login_answer(user@, found_view(found), now),
{
    let m = match found {
        Ok(m) => m,
        Err(_) => {
            return resp::create(1000030, String::from_str("read from db fail"), None);
        },
    };
    let pswd = match &user.pswd {
        None => {
            return resp::create(1000031, String::from_str("password empty"), None);
        },
        Some(p) => p,
    };
    let dbpswd = match &m.pswd {
        None => {
            return resp::create(
                1000032,
                String::from_str("pswd and name does not match"),
                None,
            );
        },
        Some(p) => p,
    };
    if !password_matches(dbpswd, pswd.as_str()) {
        return resp::create(1000033, String::from_str("pswd and name does not match"), None);
    }
    let role = match m.role {
        None => {
            return resp::create(1000032, String::from_str("no role in db"), None);
        },
        Some(r) => r,
    };
    let jwt = issue_at(user.name.clone(), role, now, DEFAULT_TTL);
    resp::create(0, String::from_str("success"), Some(Jwt { jwt: jwt }))
}

/// Answers a login of `user` as of now, by the system clock. Panics where
/// that clock stands before 1970.
pub fn login(user: &User, found: Result<User, UserError>) -> (answer: Resp<Jwt>)
    ensures
        exists|now: u64| answer@ == #[trigger] login_answer(user@, found_view(found), now),
{
    let ghost before = found_view(found);
    let now = get_current_timestamp();
    let answer = login_at(user, found, now);
    assert(answer@ == login_answer(user@, before, now));
    answer
}

/// How many accounts one page of the list shows.
pub const PAGE_SIZE: usize = 20;

/// The part of the collection that page `pn` of the list asks the store for:
/// how many records to skip, and how many to fetch at most. Pages count from
/// 1, and page 0 is read as page 1. One record more than a page shows is
/// fetched, to learn whether another page follows. A page so far out that
/// the records before it cannot be counted in 64 bits skips as many as can
/// be.
pub open spec fn window(pn: u64) -> (u64, i64) {
    let before = if pn > 0 {
        pn - 1
    } else {
        0
    };
    let skip = if PAGE_SIZE * before <= u64::MAX {
        (PAGE_SIZE * before) as u64
    } else {
        u64::MAX
    };
    (skip, (PAGE_SIZE + 1) as i64)
}

/// Computes the part of the collection to ask the store for.
pub fn page_window(pn: u64) -> (asked: (u64, i64))
    ensures
        asked == window(pn),
{
    let before = if pn > 0 {
        pn - 1
    } else {
        0
    };
    let skip = if before <= u64::MAX / 20 {
        before * 20
    } else {
        u64::MAX
    };
    (skip, 21)
}

/// One page of the list of accounts, and whether another follows.
#[derive(Debug)]
pub struct Users {
    pub users: Vec<User>,
    pub has_more: bool,
}

/// The mathematical content of [`Users`].
pub struct UsersView {
    pub users: Seq<UserView>,
    pub has_more: bool,
}

impl View for Users {
    type V = UsersView;

    open spec fn view(&self) -> UsersView {
        UsersView { users: self.users@.map_values(|user: User| user@), has_more: self.has_more }
    }
}

/// The content of the records fetched for a page.
pub open spec fn documents_view(docs: &Vec<UserDocument>) -> Seq<UserDocumentView> {
    docs@.map_values(|d: UserDocument| d@)
}

/// The error of the first record among `docs` that holds no account.
pub open spec fn first_error(docs: Seq<UserDocumentView>) -> Option<UserErrorView>
    decreases docs.len(),
{
    if docs.len() == 0 {
        None
    } else {
        match first_error(docs.drop_last()) {
            Some(error) => Some(error),
            None => match meta_of(docs.last()) {
                Ok(_) => None,
                Err(error) => Some(error),
            },
        }
    }
}

/// The account that a readable record is listed as.
pub open spec fn listed(d: UserDocumentView) -> UserView {
    without_pswd(meta_of(d)->Ok_0)
}

/// The answer of the page that lists accounts, given the records fetched for
/// it. Only the first [`PAGE_SIZE`] records are looked at; a record beyond
/// them only tells that another page follows. The first record that holds
/// no account fails the whole page.
pub open spec fn users_answer(docs: Seq<UserDocumentView>) -> RespView<UsersView> {
    let page = if docs.len() > PAGE_SIZE {
        docs.take(PAGE_SIZE as int)
    } else {
        docs
    };
    match first_error(page) {
        Some(error) => refusal(1000023, error.message()),
        None => RespView {
            errno: 0,
            msg: "success"@,
            data: Some(
                UsersView {
                    users: page.map_values(|d: UserDocumentView| listed(d)),
                    has_more: docs.len() > PAGE_SIZE,
                },
            ),
        },
    }
}

/// An error found among the first records of `docs` is the first error of
/// every longer run of them.
proof fn lemma_first_error_stays(docs: Seq<UserDocumentView>, i: int, j: int)
    requires
        0 <= i <= j <= docs.len(),
        first_error(docs.take(i)) is Some,
    ensures
        first_error(docs.take(j)) == first_error(docs.take(i)),
    decreases j - i,
{
    if i < j {
        lemma_first_error_stays(docs, i, j - 1);
        assert(docs.take(j).drop_last() =~= docs.take(j - 1));
    }
}

/// Answers the page that lists accounts, from the records fetched for it.
pub fn get_users(docs: &Vec<UserDocument>) -> (answer: Resp<Users>)
    ensures
        answer@ == users_answer(documents_view(docs)),
{
    let has_more = docs.len() > PAGE_SIZE;
    let shown = if has_more {
        PAGE_SIZE
    } else {
        docs.len()
    };
    let ghost page = documents_view(docs).take(shown as int);
    assert(!has_more ==> page =~= documents_view(docs));
    let mut users: Vec<User> = Vec::new();
    let mut i: usize = 0;
    assert(page.take(0) =~= Seq::empty());
    while i < shown
        invariant
            i <= shown <= docs.len(),
            shown == if docs.len() > PAGE_SIZE {
                PAGE_SIZE
            } else {
                docs.len()
            },
            page == documents_view(docs).take(shown as int),
            first_error(page.take(i as int)) is None,
            users@.map_values(|user: User| user@) == page.take(i as int).map_values(
                |d: UserDocumentView| listed(d),
            ),
        decreases shown - i,
    {
        let ghost before = users@.map_values(|user: User| user@);
        assert(page.take(i + 1).drop_last() =~= page.take(i as int));
        assert(page.take(i + 1).last() == docs[i as int]@);
        match get_userinfo_from_doc(&docs[i]) {
            Ok(d) => {
                users.push(d);
                assert(users@.map_values(|user: User| user@) =~= before.push(d@));
                assert(page.take(i + 1).map_values(|d: UserDocumentView| listed(d))
                    =~= page.take(i as int).map_values(|d: UserDocumentView| listed(d)).push(
                    listed(page[i as int]),
                ));
            },
            Err(e) => {
                proof {
                    assert(meta_of(page[i as int]) == Err::<UserView, UserErrorView>(e@));
                    assert(first_error(page.take(i + 1)) == Some(e@));
                    lemma_first_error_stays(page, i + 1, shown as int);
                    assert(page.take(shown as int) =~= page);
                    assert(shown == docs.len() ==> page =~= documents_view(docs));
                }
                return resp::create(1000023, e.message(), None);
            },
        }
        i += 1;
    }
    assert(page.take(shown as int) =~= page);
    resp::create(
        0,
        String::from_str("success"),
        Some(Users { users: users, has_more: has_more }),
    )
}

/// The answer of the page that lists accounts where the store could not be
/// asked at all.
pub fn find_failed(reason: String) -> (answer: Resp<Users>)
    ensures
        answer.errno == 1000021,
        answer.msg == reason,
        answer.data is None,
{
    resp::create(1000021, reason, None)
}

/// The answer of the page that lists accounts where the store failed while
/// its records were being fetched.
pub fn fetch_failed(reason: String) -> (answer: Resp<Users>)
    ensures
        answer.errno == 1000022,
        answer.msg == reason,
        answer.data is None,
{
    resp::create(1000022, reason, None)
}

} // verus!
