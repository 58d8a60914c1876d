use starn::auth::role::{Action, Privilege, Privileges, Role};
use starn::auth::user::{salt, User};
use starn::util::auth::generate_uid;

fn reader() -> Role {
    let mut privileges = Privileges::new();
    privileges.insert(
        "docs".to_string(),
        Privilege { catalog_key: "docs".to_string(), action: Action::Read },
    );
    Role::create("reader".to_string(), privileges)
}

#[test]
fn salt_is_the_md5_of_the_marked_password() {
    assert_eq!(salt("secret"), "b974f90abb08c902c5fb01b67308597c");
    assert_eq!(salt(""), "6415cf32ade9368f742a5e2221201f6a");
    assert_eq!(salt("x"), "518a57474e82f01eb8c6e90257ce6387");
}

#[test]
fn salt_is_the_same_for_equal_passwords() {
    assert_eq!(salt("hunter2"), salt("hunter2"));
    assert_ne!(salt("hunter2"), salt("hunter3"));
    assert_eq!(salt("hunter2").len(), 32);
}

#[test]
fn salt_is_no_plain_digest_of_the_password() {
    assert_ne!(salt("admin"), "21232f297a57a5a743894a0e4a801fc3");
}

#[test]
fn account_id_is_the_identity_key_of_the_name() {
    let user = User::create("alice".to_string(), salt("secret"), reader());
    assert_eq!(user.name(), "alice");
    assert_eq!(user.uid(), "17083881075607367863");
    assert_eq!(user.uid(), &generate_uid("alice"));
    assert_eq!(user.passwd(), "b974f90abb08c902c5fb01b67308597c");
    assert_eq!(user.role().name(), "reader");
}

#[test]
fn accounts_of_one_name_share_their_id() {
    let first = User::create("alice".to_string(), salt("one"), reader());
    let second = User::create("alice".to_string(), salt("two"), reader());
    assert_eq!(first.uid(), second.uid());
}

#[test]
fn account_ids_have_one_length() {
    for name in ["", "a", "bob", "alice", "Ünïcode"] {
        let user = User::create(name.to_string(), salt("x"), reader());
        assert_eq!(user.uid().len(), 20);
        assert_eq!(user.role().rid().len(), 20);
    }
}
