//! Role-based access decisions.
//!
//! A [`Role`] grants an [`Action`] per catalog key. A decision looks up the
//! privilege held under the key that is asked about, and resolves that same
//! key against a separately supplied [`Catalog`] to find the pages the
//! privilege covers. Every lookup that does not resolve is a denial.

use crate::util::auth::{generate_uid, identity_key, UID_LEN};
use vstd::hash_map::StringHashMap;
use vstd::prelude::*;

verus! {

/// What a privilege allows. The levels are compared by exact match: `Write`
/// does not stand in for `Read` where `Write` is asked for, and the other way
/// round.
#[derive(PartialEq, Eq, Structural, Clone, Copy, Debug)]
pub enum Action {
    NoAccess,
    Read,
    Write,
}

/// The ordered page identifiers of one catalog entry.
pub type Sections = Vec<String>;

/// One catalog entry: a name and the pages it contains.
#[derive(Debug)]
pub struct Chapter {
    pub name: String,
    pub sections: Sections,
}

/// The mathematical content of a [`Chapter`].
pub struct ChapterView {
    pub name: Seq<char>,
    pub sections: Seq<Seq<char>>,
}

impl View for Chapter {
    type V = ChapterView;

    open spec fn view(&self) -> ChapterView {
        ChapterView { name: self.name@, sections: self.sections.deep_view() }
    }
}

/// Reference data: catalog key to chapter.
pub type Catalog = StringHashMap<Chapter>;

/// The mathematical content of a [`Catalog`].
pub open spec fn catalog_view(catalog: &Catalog) -> Map<Seq<char>, ChapterView> {
    catalog@.map_values(|chapter: Chapter| chapter@)
}

/// One grant of a role: the catalog entry it refers to and the action allowed
/// on that entry's pages. A role holds each of its privileges under the key
/// of the catalog entry the privilege is for; that key is the one a decision
/// resolves.
#[derive(Debug)]
pub struct Privilege {
    pub catalog_key: String,
    pub action: Action,
}

/// The mathematical content of a [`Privilege`].
pub struct PrivilegeView {
    pub catalog_key: Seq<char>,
    pub action: Action,
}

impl View for Privilege {
    type V = PrivilegeView;

    open spec fn view(&self) -> PrivilegeView {
        PrivilegeView { catalog_key: self.catalog_key@, action: self.action }
    }
}

/// Whether `page` is one of the pages that `catalog` lists under `key`.
/// An unknown key lists nothing.
pub open spec fn lists_page(
    catalog: Map<Seq<char>, ChapterView>,
    key: Seq<char>,
    page: Seq<char>,
) -> bool {
    catalog.contains_key(key) && catalog[key].sections.contains(page)
}

/// The grants of a role, by the key under which each is looked up.
pub type Privileges = StringHashMap<Privilege>;

/// A named role and its grants. The role id is the identity key of the
/// name, so two roles of one name share their id.
pub struct Role {
    rid: String,
    name: String,
    privileges: Privileges,
}

/// The mathematical content of a [`Role`].
pub struct RoleView {
    pub rid: Seq<char>,
    pub name: Seq<char>,
    pub privileges: Map<Seq<char>, PrivilegeView>,
}

/// Whether `role` may read `page` under `key`: the role holds a privilege
/// under `key`, that privilege is not `NoAccess`, and the catalog entry of
/// `key` lists the page.
pub open spec fn may_read(
    role: RoleView,
    catalog: Map<Seq<char>, ChapterView>,
    key: Seq<char>,
    page: Seq<char>,
) -> bool {
    &&& role.privileges.contains_key(key)
    &&& role.privileges[key].action != Action::NoAccess
    &&& lists_page(catalog, key, page)
}

/// Whether `role` may write `page` under `key`: as [`may_read`], but the
/// privilege must be exactly `Write`.
pub open spec fn may_write(
    role: RoleView,
    catalog: Map<Seq<char>, ChapterView>,
    key: Seq<char>,
    page: Seq<char>,
) -> bool {
    &&& role.privileges.contains_key(key)
    &&& role.privileges[key].action == Action::Write
    &&& lists_page(catalog, key, page)
}

impl View for Role {
    type V = RoleView;

    closed spec fn view(&self) -> RoleView {
        RoleView {
            rid: self.rid@,
            name: self.name@,
            privileges: self.privileges@.map_values(|privilege: Privilege| privilege@),
        }
    }
}

impl Role {
    #[verifier::type_invariant]
    spec fn id_is_key_of_name(&self) -> bool {
        self.rid@ == identity_key(self.name@)
    }

    /// Builds a role from its name and its full set of grants. Nothing is
    /// checked against a catalog here: a grant that refers to no catalog
    /// entry simply never allows anything.
    pub fn create(name: String, privileges: Privileges) -> (role: Role)
        ensures
            role@.name == name@,
            role@.rid == identity_key(name@),
            role@.rid.len() == UID_LEN,
            role@.privileges == privileges@.map_values(|privilege: Privilege| privilege@),
    {
        let rid = generate_uid(name.as_str());
        Role { rid, name, privileges }
    }

    /// The role id: the identity key of the role's name.
    pub fn rid(&self) -> (rid: &String)
        ensures
            rid@ == self@.rid,
            self@.rid == identity_key(self@.name),
    {
        proof {
            use_type_invariant(self);
        }
        &self.rid
    }

    /// The role's name.
    pub fn name(&self) -> (name: &String)
        ensures
            name@ == self@.name,
    {
        &self.name
    }

    /// The privilege granted under `key`, if any.
    pub fn privilege(&self, key: &str) -> (granted: Option<&Privilege>)
        ensures
            match granted {
                Some(privilege) => self@.privileges.contains_key(key@)
                    && privilege@ == self@.privileges[key@],
                None => !self@.privileges.contains_key(key@),
            },
    {
        self.privileges.get(key)
    }

    /// Decides whether this role may read `page` under `key`, against
    /// `catalog`. Never fails: whatever does not resolve is denied.
    pub fn can_read(&self, catalog: &Catalog, key: &str, page: &str) -> (granted: bool)
        ensures
            granted == may_read(self@, catalog_view(catalog), key@, page@),
            !self@.privileges.contains_key(key@) ==> !granted,
            self@.privileges.contains_key(key@) && self@.privileges[key@].action
                == Action::NoAccess ==> !granted,
            !catalog_view(catalog).contains_key(key@) ==> !granted,
            catalog_view(catalog).contains_key(key@) && !catalog_view(
                catalog,
            )[key@].sections.contains(page@) ==> !granted,
    {
        match self.privileges.get(key) {
            Some(privilege) => {
                if privilege.action == Action::NoAccess {
                    return false;
                }
                chapter_lists(catalog, key, page)
            },
            None => false,
        }
    }

    /// Decides whether this role may write `page` under `key`, against
    /// `catalog`. Only a privilege that is exactly `Write` allows it.
    pub fn can_write(&self, catalog: &Catalog, key: &str, page: &str) -> (granted: bool)
        ensures
            granted == may_write(self@, catalog_view(catalog), key@, page@),
            !self@.privileges.contains_key(key@) ==> !granted,
            self@.privileges.contains_key(key@) && self@.privileges[key@].action
                != Action::Write ==> !granted,
            !catalog_view(catalog).contains_key(key@) ==> !granted,
            catalog_view(catalog).contains_key(key@) && !catalog_view(
                catalog,
            )[key@].sections.contains(page@) ==> !granted,
    {
        match self.privileges.get(key) {
            Some(privilege) => {
                if privilege.action != Action::Write {
                    return false;
                }
                chapter_lists(catalog, key, page)
            },
            None => false,
        }
    }
}

/// Whoever may write a page may read it: a privilege that is `Write` is not
/// `NoAccess`, and both decisions look the page up in the chapter of the key
/// asked.
pub proof fn lemma_write_implies_read(
    role: RoleView,
    catalog: Map<Seq<char>, ChapterView>,
    key: Seq<char>,
    page: Seq<char>,
)
    requires
        may_write(role, catalog, key, page),
    ensures
        may_read(role, catalog, key, page),
{
}

/// A privilege that is only `Read` allows reading every page that the
/// chapter of its key lists, and writing none.
pub proof fn lemma_read_only(
    role: RoleView,
    catalog: Map<Seq<char>, ChapterView>,
    key: Seq<char>,
    page: Seq<char>,
)
    requires
        role.privileges.contains_key(key),
        role.privileges[key].action == Action::Read,
    ensures
        !may_write(role, catalog, key, page),
        may_read(role, catalog, key, page) == lists_page(catalog, key, page),
{
}

/// Whether every privilege of `role` is held under the key of the catalog
/// entry it refers to.
pub open spec fn keyed_by_catalog(role: RoleView) -> bool {
    forall|key: Seq<char>| #[trigger]
        role.privileges.contains_key(key) ==> role.privileges[key].catalog_key == key
}

/// For a role whose privileges are held under their own catalog keys, the
/// entry that a decision resolves is the entry that the privilege refers
/// to; a privilege that refers to no entry of the catalog grants nothing.
pub proof fn lemma_keyed_by_catalog(
    role: RoleView,
    catalog: Map<Seq<char>, ChapterView>,
    key: Seq<char>,
    page: Seq<char>,
)
    requires
        keyed_by_catalog(role),
        role.privileges.contains_key(key),
    ensures
        may_read(role, catalog, key, page) == (role.privileges[key].action != Action::NoAccess
            && lists_page(catalog, role.privileges[key].catalog_key, page)),
        may_write(role, catalog, key, page) == (role.privileges[key].action == Action::Write
            && lists_page(catalog, role.privileges[key].catalog_key, page)),
        !catalog.contains_key(role.privileges[key].catalog_key) ==> !may_read(
            role,
            catalog,
            key,
            page,
        ) && !may_write(role, catalog, key, page),
{
}

/// Nothing is granted against a catalog without entries, and nothing to a
/// role without privileges.
pub proof fn lemma_deny_by_default(
    role: RoleView,
    catalog: Map<Seq<char>, ChapterView>,
    key: Seq<char>,
    page: Seq<char>,
)
    requires
        catalog == Map::<Seq<char>, ChapterView>::empty() || role.privileges == Map::<
            Seq<char>,
            PrivilegeView,
        >::empty(),
    ensures
        !may_read(role, catalog, key, page),
        !may_write(role, catalog, key, page),
{
}

/// Looks for `page` among `sections`, by exact equality.
fn has_section(sections: &Sections, page: &String) -> (found: bool)
    ensures
        found == sections.deep_view().contains(page@),
{
    let mut i: usize = 0;
    while i < sections.len()
        invariant
            i <= sections.len(),
            forall|j: int| 0 <= j < i ==> sections.deep_view()[j] != page@,
        decreases sections.len() - i,
    {
        if sections[i] == *page {
            assert(sections.deep_view()[i as int] == page@);
            return true;
        }
        i += 1;
    }
    false
}

/// Resolves `key` against `catalog` and looks for `page` among the pages of
/// the chapter found.
fn chapter_lists(catalog: &Catalog, key: &str, page: &str) -> (found: bool)
    ensures
        found == lists_page(catalog_view(catalog), key@, page@),
{
    match catalog.get(key) {
        Some(chapter) => {
            let wanted = page.to_owned();
            has_section(&chapter.sections, &wanted)
        },
        None => false,
    }
}

} // verus!
