//! Accounts: a user with a role, and the representation under which a
//! password is kept.

use crate::auth::role::{Role, RoleView};
use crate::util::auth::{generate_uid, identity_key, UID_LEN};
use crate::util::digest::{md5_hex, md5_hex_of};
use vstd::prelude::*;
use vstd::string::StringExecFns;

verus! {

/// The representation of the password `passwd`: the digest of the password
/// between two fixed markers. It is not keyed per user: equal passwords have
/// equal representations.
pub open spec fn salted(passwd: Seq<char>) -> Seq<char> {
    md5_hex("pass-"@ + passwd + "-world"@)
}

/// Computes the representation under which `passwd` is kept.
pub fn salt(passwd: &str) -> (kept: String)
    ensures
        kept@ == salted(passwd@),
        kept@.len() == 32,
{
    let marked = String::from_str("pass-").concat(passwd).concat("-world");
    md5_hex_of(marked.as_str())
}

/// An account. The user id is the identity key of the name, so two accounts
/// of one name share their id. What is kept of the password is its
/// representation, never the password.
pub struct User {
    name: String,
    uid: String,
    passwd: String,
    role: Role,
}

/// The mathematical content of a [`User`].
pub struct UserView {
    pub name: Seq<char>,
    pub uid: Seq<char>,
    pub passwd: Seq<char>,
    pub role: RoleView,
}

impl View for User {
    type V = UserView;

    closed spec fn view(&self) -> UserView {
        UserView { name: self.name@, uid: self.uid@, passwd: self.passwd@, role: self.role@ }
    }
}

impl User {
    #[verifier::type_invariant]
    spec fn id_is_key_of_name(&self) -> bool {
        self.uid@ == identity_key(self.name@)
    }

    /// Builds an account from its name, the representation of its password
    /// and its role. The representation is made before the account is: the
    /// password itself never reaches it.
    pub fn create(name: String, passwd: String, role: Role) -> (user: User)
        ensures
            user@.name == name@,
            user@.uid == identity_key(name@),
            user@.uid.len() == UID_LEN,
            user@.passwd == passwd@,
            user@.role == role@,
    {
        let uid = generate_uid(name.as_str());
        User { name: name, uid: uid, passwd: passwd, role: role }
    }

    /// The account's name.
    pub fn name(&self) -> (name: &String)
        ensures
            name@ == self@.name,
    {
        &self.name
    }

    /// The user id: the identity key of the account's name.
    pub fn uid(&self) -> (uid: &String)
        ensures
            uid@ == self@.uid,
            self@.uid == identity_key(self@.name),
    {
        proof {
            use_type_invariant(self);
        }
        &self.uid
    }

    /// The representation of the account's password.
    pub fn passwd(&self) -> (passwd: &String)
        ensures
            passwd@ == self@.passwd,
    {
        &self.passwd
    }

    /// The account's role.
    pub fn role(&self) -> (role: &Role)
        ensures
            role@ == self@.role,
    {
        &self.role
    }
}

} // verus!
