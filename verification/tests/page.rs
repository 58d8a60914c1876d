use starn::page::catcher::{default_catcher, fail_guard};
use starn::page::user::{
    created, delete, delete_meta_from_db, fetch_failed, find_failed, generate_pswd, get_meta_from_db,
    get_meta_from_doc, get_user, get_userinfo_from_doc, get_users, insert_meta_into_db, login,
    login_at, logout, page_window, password_matches, remove_pswd, UserDocument, UserError,
    PAGE_SIZE,
};
use starn::page::{failure, resp, success, user};
use starn::util::auth::{generate_uid, issue_at, User};

const NOW: u64 = 1_700_000_000;

fn text(value: &str) -> Result<String, String> {
    Ok(value.to_string())
}

fn unread(reason: &str) -> Result<String, String> {
    Err(reason.to_string())
}

fn alice_doc() -> UserDocument {
    UserDocument {
        uid: text(&generate_uid("alice")),
        name: text("alice"),
        role: text("admin"),
        pswd: text(&generate_pswd("secret")),
    }
}

fn doc_named(name: &str) -> UserDocument {
    UserDocument { uid: text(&generate_uid(name)), name: text(name), role: text("guest"), pswd: text("0") }
}

fn stored_alice() -> User {
    User {
        uid: Some(generate_uid("alice")),
        name: "alice".to_string(),
        role: Some("admin".to_string()),
        pswd: Some(generate_pswd("secret")),
    }
}

fn request(name: &str, pswd: Option<&str>) -> User {
    User { uid: None, name: name.to_string(), role: Some("guest".to_string()), pswd: pswd.map(|p| p.to_string()) }
}

#[test]
fn default_catcher_answers_90000() {
    let answer = default_catcher();
    assert_eq!(answer.errno, 90000);
    assert_eq!(answer.msg, "default error catcher");
}

#[test]
fn fail_guard_answers_90001() {
    let answer = fail_guard();
    assert_eq!(answer.errno, 90001);
    assert_eq!(answer.msg, "parse input fail");
}

#[test]
fn failure_keeps_what_it_is_given() {
    let failed = failure::create(404, "not here".to_string(), vec![1, 2, 3]);
    assert_eq!(failed.errno, 404);
    assert_eq!(failed.msg, "not here");
    assert_eq!(failed.data, vec![1, 2, 3]);
}

#[test]
fn success_is_number_zero() {
    let done = success::create("payload".to_string());
    assert_eq!(done.errno, 0);
    assert_eq!(done.msg, "success");
    assert_eq!(done.data, "payload");
}

#[test]
fn resp_keeps_what_it_is_given() {
    let with = resp::create(7, "seven".to_string(), Some(7u8));
    assert_eq!((with.errno, with.msg.as_str(), with.data), (7, "seven", Some(7u8)));
    let without = resp::create::<u8>(1000001, " no such user".to_string(), None);
    assert_eq!((without.errno, without.msg.as_str(), without.data), (1000001, " no such user", None));
}

#[test]
fn error_messages_start_with_a_space() {
    assert_eq!(UserError::NoSuchUser.message(), " no such user");
    assert_eq!(UserError::NoSuchField("field not present".to_string()).message(), " field not present");
    assert_eq!(UserError::ReadDbFail("timeout".to_string()).message(), " read db fail: timeout");
    assert_eq!(UserError::NoSuchField(String::new()).message(), " ");
    assert_eq!(UserError::ReadDbFail(String::new()).message(), " read db fail: ");
}

#[test]
fn remove_pswd_strips_the_password_only() {
    let shown = remove_pswd(stored_alice());
    assert_eq!(shown.uid, Some(generate_uid("alice")));
    assert_eq!(shown.name, "alice");
    assert_eq!(shown.role.as_deref(), Some("admin"));
    assert_eq!(shown.pswd, None);
    let bare = remove_pswd(User { uid: None, name: String::new(), role: None, pswd: None });
    assert_eq!((bare.uid, bare.name.as_str(), bare.role, bare.pswd), (None, "", None, None));
}

#[test]
fn record_with_all_members_is_an_account() {
    let m = get_meta_from_doc(&alice_doc()).expect("an account");
    assert_eq!(m.uid.as_deref(), Some("17083881075607367863"));
    assert_eq!(m.name, "alice");
    assert_eq!(m.role.as_deref(), Some("admin"));
    assert_eq!(m.pswd.as_deref(), Some("13147178722196665167"));
}

#[test]
fn first_unreadable_member_decides_the_error() {
    let all = UserDocument { uid: unread("u"), name: unread("n"), role: unread("r"), pswd: unread("p") };
    assert!(matches!(get_meta_from_doc(&all), Err(UserError::NoSuchField(reason)) if reason == "u"));
    let from_name = UserDocument { uid: text("1"), ..all };
    assert!(matches!(get_meta_from_doc(&from_name), Err(UserError::NoSuchField(reason)) if reason == "n"));
    let from_role = UserDocument { name: text("alice"), ..from_name };
    assert!(matches!(get_meta_from_doc(&from_role), Err(UserError::NoSuchField(reason)) if reason == "r"));
    let from_pswd = UserDocument { role: text("admin"), ..from_role };
    assert!(matches!(get_meta_from_doc(&from_pswd), Err(UserError::NoSuchField(reason)) if reason == "p"));
    let none = UserDocument { pswd: text("9"), ..from_pswd };
    assert!(get_meta_from_doc(&none).is_ok());
}

#[test]
fn userinfo_is_the_account_without_its_password() {
    let shown = get_userinfo_from_doc(&alice_doc()).expect("an account");
    assert_eq!(shown.name, "alice");
    assert_eq!(shown.role.as_deref(), Some("admin"));
    assert_eq!(shown.pswd, None);
    let broken = UserDocument { pswd: unread("field not present"), ..alice_doc() };
    assert!(matches!(
        get_userinfo_from_doc(&broken),
        Err(UserError::NoSuchField(reason)) if reason == "field not present"
    ));
}

#[test]
fn lookup_comes_to_an_account_or_an_error() {
    let found = get_meta_from_db(Ok(Some(alice_doc()))).expect("an account");
    assert_eq!(found.name, "alice");
    assert_eq!(found.pswd, Some(generate_pswd("secret")));
    assert!(matches!(get_meta_from_db(Ok(None)), Err(UserError::NoSuchUser)));
    assert!(matches!(
        get_meta_from_db(Err("connection reset".to_string())),
        Err(UserError::ReadDbFail(reason)) if reason == "connection reset"
    ));
    let broken = UserDocument { role: unread("unexpected type"), ..alice_doc() };
    assert!(matches!(
        get_meta_from_db(Ok(Some(broken))),
        Err(UserError::NoSuchField(reason)) if reason == "unexpected type"
    ));
}

#[test]
fn deletion_of_nothing_is_no_such_user() {
    assert!(matches!(delete_meta_from_db(Ok(0)), Err(UserError::NoSuchUser)));
    assert!(matches!(delete_meta_from_db(Ok(1)), Ok(())));
    assert!(matches!(delete_meta_from_db(Ok(u64::MAX)), Ok(())));
    assert!(matches!(
        delete_meta_from_db(Err("down".to_string())),
        Err(UserError::ReadDbFail(reason)) if reason == "down"
    ));
}

#[test]
fn insertion_hands_the_record_back() {
    let m = stored_alice();
    let stored = insert_meta_into_db(&m, Ok(())).expect("the record");
    assert_eq!((stored.uid, stored.name, stored.role, stored.pswd), (m.uid.clone(), m.name.clone(), m.role.clone(), m.pswd.clone()));
    assert!(matches!(
        insert_meta_into_db(&m, Err("duplicate key".to_string())),
        Err(UserError::ReadDbFail(reason)) if reason == "duplicate key"
    ));
}

#[test]
fn get_user_shows_the_account_without_password() {
    let answer = get_user(Ok(stored_alice()));
    assert_eq!((answer.errno, answer.msg.as_str()), (0, "success"));
    let shown = answer.data.expect("the account");
    assert_eq!(shown.name, "alice");
    assert_eq!(shown.uid, Some(generate_uid("alice")));
    assert_eq!(shown.role.as_deref(), Some("admin"));
    assert_eq!(shown.pswd, None);
}

#[test]
fn get_user_answers_1000001_on_any_error() {
    let missing = get_user(Err(UserError::NoSuchUser));
    assert_eq!((missing.errno, missing.msg.as_str()), (1000001, " no such user"));
    assert!(missing.data.is_none());
    let down = get_user(Err(UserError::ReadDbFail("down".to_string())));
    assert_eq!((down.errno, down.msg.as_str()), (1000001, " read db fail: down"));
    let field = get_user(Err(UserError::NoSuchField("field not present".to_string())));
    assert_eq!((field.errno, field.msg.as_str()), (1000001, " field not present"));
}

#[test]
fn create_refuses_a_name_that_is_taken() {
    let answer = user::create(&request("alice", Some("secret")), Ok(stored_alice())).expect_err("an answer");
    assert_eq!((answer.errno, answer.msg.as_str()), (1000011, "username exists"));
    assert!(answer.data.is_none());
}

#[test]
fn create_refuses_when_the_store_cannot_be_read() {
    let down = user::create(&request("alice", Some("secret")), Err(UserError::ReadDbFail("down".to_string())))
        .expect_err("an answer");
    assert_eq!((down.errno, down.msg.as_str()), (1000012, " read db fail: down"));
    let field = user::create(&request("alice", None), Err(UserError::NoSuchField("x".to_string())))
        .expect_err("an answer");
    assert_eq!((field.errno, field.msg.as_str()), (1000012, " x"));
}

#[test]
fn create_refuses_a_request_without_password() {
    let answer = user::create(&request("alice", None), Err(UserError::NoSuchUser)).expect_err("an answer");
    assert_eq!((answer.errno, answer.msg.as_str()), (1000014, "password empty"));
    assert!(answer.data.is_none());
}

#[test]
fn create_prepares_the_record_to_insert() {
    let record = user::create(&request("alice", Some("secret")), Err(UserError::NoSuchUser)).expect("a record");
    assert_eq!(record.uid.as_deref(), Some("17083881075607367863"));
    assert_eq!(record.name, "alice");
    assert_eq!(record.role.as_deref(), Some("guest"));
    assert_eq!(record.pswd.as_deref(), Some("13147178722196665167"));
    let mut unassigned = request("bob", Some(""));
    unassigned.role = None;
    unassigned.uid = Some("chosen by the caller".to_string());
    let record = user::create(&unassigned, Err(UserError::NoSuchUser)).expect("a record");
    assert_eq!(record.uid, Some(generate_uid("bob")));
    assert_eq!(record.role, None);
    assert_eq!(record.pswd, Some(generate_pswd("")));
}

#[test]
fn created_shows_the_new_account_without_password() {
    let answer = created(Ok(stored_alice()));
    assert_eq!((answer.errno, answer.msg.as_str()), (0, "success"));
    let shown = answer.data.expect("the account");
    assert_eq!((shown.name.as_str(), shown.pswd), ("alice", None));
    let failed = created(Err(UserError::ReadDbFail("disk full".to_string())));
    assert_eq!((failed.errno, failed.msg.as_str()), (1000014, " read db fail: disk full"));
    assert!(failed.data.is_none());
}

#[test]
fn delete_answers_success_or_1000040() {
    let done = delete(Ok(()));
    assert_eq!((done.errno, done.msg.as_str(), done.data), (0, "success", None));
    let missing = delete(Err(UserError::NoSuchUser));
    assert_eq!((missing.errno, missing.msg.as_str(), missing.data), (1000040, " no such user", None));
    let down = delete(delete_meta_from_db(Err("down".to_string())));
    assert_eq!((down.errno, down.msg.as_str()), (1000040, " read db fail: down"));
}

#[test]
fn logout_always_succeeds() {
    let answer = logout();
    assert_eq!((answer.errno, answer.msg.as_str()), (0, "success"));
    assert!(answer.data.is_none());
}

#[test]
fn password_matches_its_representation_only() {
    assert!(password_matches(&generate_pswd("secret"), "secret"));
    assert!(!password_matches(&generate_pswd("secret"), "secreT"));
    assert!(!password_matches(&"secret".to_string(), "secret"));
    assert!(!password_matches(&String::new(), ""));
}

#[test]
fn login_with_the_right_password_issues_a_token() {
    let answer = login_at(&request("alice", Some("secret")), Ok(stored_alice()), NOW);
    assert_eq!((answer.errno, answer.msg.as_str()), (0, "success"));
    let token = answer.data.expect("a token").jwt.expect("a token");
    assert_eq!(Some(token.clone()), issue_at("alice".to_string(), "admin".to_string(), NOW, 604800));
    let identity = User::from_jwt_at(&token, NOW + 604799).expect("an identity");
    assert_eq!(identity.name, "alice");
    assert_eq!(identity.role.as_deref(), Some("admin"));
    assert!(User::from_jwt_at(&token, NOW + 604800).is_none());
}

#[test]
fn login_by_the_clock_issues_a_token_for_now() {
    let answer = login(&request("alice", Some("secret")), Ok(stored_alice()));
    assert_eq!(answer.errno, 0);
    let token = answer.data.expect("a token").jwt.expect("a token");
    let identity = User::from_jwt(&token).expect("an identity");
    assert_eq!((identity.name.as_str(), identity.role.as_deref()), ("alice", Some("admin")));
}

#[test]
fn login_answers_1000030_when_the_lookup_failed() {
    for error in [
        UserError::NoSuchUser,
        UserError::NoSuchField("pswd".to_string()),
        UserError::ReadDbFail("down".to_string()),
    ] {
        let answer = login_at(&request("alice", Some("secret")), Err(error), NOW);
        assert_eq!((answer.errno, answer.msg.as_str()), (1000030, "read from db fail"));
        assert!(answer.data.is_none());
    }
}

#[test]
fn login_answers_1000031_without_a_password() {
    let answer = login_at(&request("alice", None), Ok(stored_alice()), NOW);
    assert_eq!((answer.errno, answer.msg.as_str()), (1000031, "password empty"));
    assert!(answer.data.is_none());
}

#[test]
fn login_answers_1000032_when_the_account_has_no_password() {
    let mut stored = stored_alice();
    stored.pswd = None;
    let answer = login_at(&request("alice", Some("secret")), Ok(stored), NOW);
    assert_eq!((answer.errno, answer.msg.as_str()), (1000032, "pswd and name does not match"));
    assert!(answer.data.is_none());
}

#[test]
fn login_answers_1000033_on_a_wrong_password() {
    let answer = login_at(&request("alice", Some("guess")), Ok(stored_alice()), NOW);
    assert_eq!((answer.errno, answer.msg.as_str()), (1000033, "pswd and name does not match"));
    assert!(answer.data.is_none());
    let hashed = generate_pswd("secret");
    let replay = login_at(&request("alice", Some(&hashed)), Ok(stored_alice()), NOW);
    assert_eq!(replay.errno, 1000033);
}

#[test]
fn login_answers_1000032_when_the_account_has_no_role() {
    let mut stored = stored_alice();
    stored.role = None;
    let answer = login_at(&request("alice", Some("secret")), Ok(stored), NOW);
    assert_eq!((answer.errno, answer.msg.as_str()), (1000032, "no role in db"));
    assert!(answer.data.is_none());
}

#[test]
fn login_checks_the_password_before_the_role() {
    let mut stored = stored_alice();
    stored.role = None;
    let answer = login_at(&request("alice", Some("guess")), Ok(stored), NOW);
    assert_eq!(answer.errno, 1000033);
}

#[test]
fn login_succeeds_without_a_token_where_none_can_be_issued() {
    let answer = login_at(&request("alice", Some("secret")), Ok(stored_alice()), u64::MAX);
    assert_eq!((answer.errno, answer.msg.as_str()), (0, "success"));
    assert!(answer.data.expect("the token part").jwt.is_none());
}

#[test]
fn window_of_a_page() {
    assert_eq!(PAGE_SIZE, 20);
    assert_eq!(page_window(0), (0, 21));
    assert_eq!(page_window(1), (0, 21));
    assert_eq!(page_window(2), (20, 21));
    assert_eq!(page_window(3), (40, 21));
    assert_eq!(page_window(101), (2000, 21));
    assert_eq!(page_window(u64::MAX / 20 + 1), (u64::MAX / 20 * 20, 21));
    assert_eq!(page_window(u64::MAX / 20 + 2), (u64::MAX, 21));
    assert_eq!(page_window(u64::MAX), (u64::MAX, 21));
}

#[test]
fn list_of_no_records_is_an_empty_page() {
    let answer = get_users(&Vec::new());
    assert_eq!((answer.errno, answer.msg.as_str()), (0, "success"));
    let page = answer.data.expect("a page");
    assert!(page.users.is_empty());
    assert!(!page.has_more);
}

#[test]
fn list_shows_accounts_in_order_without_passwords() {
    let docs = vec![doc_named("a"), alice_doc(), doc_named("c")];
    let page = get_users(&docs).data.expect("a page");
    let names: Vec<&str> = page.users.iter().map(|user| user.name.as_str()).collect();
    assert_eq!(names, vec!["a", "alice", "c"]);
    assert!(page.users.iter().all(|user| user.pswd.is_none()));
    assert_eq!(page.users[1].uid, Some(generate_uid("alice")));
    assert_eq!(page.users[1].role.as_deref(), Some("admin"));
    assert!(!page.has_more);
}

#[test]
fn list_of_a_full_page_has_no_more() {
    let docs: Vec<UserDocument> = (0..20).map(|i| doc_named(&format!("user{}", i))).collect();
    let page = get_users(&docs).data.expect("a page");
    assert_eq!(page.users.len(), 20);
    assert_eq!(page.users[19].name, "user19");
    assert!(!page.has_more);
}

#[test]
fn list_with_one_record_beyond_the_page_has_more() {
    let docs: Vec<UserDocument> = (0..21).map(|i| doc_named(&format!("user{}", i))).collect();
    let page = get_users(&docs).data.expect("a page");
    assert_eq!(page.users.len(), 20);
    assert_eq!(page.users[0].name, "user0");
    assert_eq!(page.users[19].name, "user19");
    assert!(page.has_more);
    let many: Vec<UserDocument> = (0..50).map(|i| doc_named(&format!("user{}", i))).collect();
    let page = get_users(&many).data.expect("a page");
    assert_eq!(page.users.len(), 20);
    assert!(page.has_more);
}

#[test]
fn list_fails_on_the_first_record_that_is_no_account() {
    let mut docs: Vec<UserDocument> = (0..5).map(|i| doc_named(&format!("user{}", i))).collect();
    docs[1].role = unread("first");
    docs[3].name = unread("second");
    let answer = get_users(&docs);
    assert_eq!((answer.errno, answer.msg.as_str()), (1000023, " first"));
    assert!(answer.data.is_none());
}

#[test]
fn list_does_not_read_the_record_beyond_the_page() {
    let mut docs: Vec<UserDocument> = (0..21).map(|i| doc_named(&format!("user{}", i))).collect();
    docs[20].name = unread("not looked at");
    let page = get_users(&docs).data.expect("a page");
    assert_eq!(page.users.len(), 20);
    assert!(page.has_more);
    docs[19].name = unread("looked at");
    let answer = get_users(&docs);
    assert_eq!((answer.errno, answer.msg.as_str()), (1000023, " looked at"));
}

#[test]
fn list_failures_of_the_store() {
    let find = find_failed("no connection".to_string());
    assert_eq!((find.errno, find.msg.as_str()), (1000021, "no connection"));
    assert!(find.data.is_none());
    let fetch = fetch_failed("cursor lost".to_string());
    assert_eq!((fetch.errno, fetch.msg.as_str()), (1000022, "cursor lost"));
    assert!(fetch.data.is_none());
}
