use secure_website::database::{hash_with_salt, HashError, Hashing, User};
use secure_website::parse::{AdminCommand, CatastrophicFailure, Query, QueryKind};
use secure_website::response::{
    check_registration, credentials_error, dispatch, error, handle_query, invalid_credentials, register_with, resume,
    wrapped_db_auth, wrapped_db_retrieve, Admin, ErrorKind, Get, Index, Login, Page, Pending, Purpose, SetPage, Step,
    StoreReply, StoreRequest,
};

const SECRET: &str = "hunter2";
const SALT: [u8; 8] = [9, 8, 7, 6, 5, 4, 3, 2];

/// A store held in memory: rows in the order they were added, and a count
/// of the questions it was asked.
struct Rows {
    rows: Vec<(u64, String, [u8; 32], [u8; 8], u64, bool)>,
    asked: usize,
}

impl Rows {
    fn new() -> Self {
        Rows { rows: Vec::new(), asked: 0 }
    }

    fn find(&self, username: &str) -> Option<usize> {
        self.rows.iter().position(|row| row.1 == username)
    }

    fn answer(&mut self, request: &StoreRequest) -> StoreReply {
        self.asked += 1;
        match request {
            StoreRequest::VerifiedUsers => {
                StoreReply::Usernames(self.rows.iter().filter(|row| row.5).map(|row| row.1.clone()).collect())
            }
            StoreRequest::AllUsernames => StoreReply::Usernames(self.rows.iter().map(|row| row.1.clone()).collect()),
            StoreRequest::Retrieve { username } => StoreReply::User(self.find(username).map(|at| {
                let row = &self.rows[at];
                User::new(row.0, row.1.clone(), row.2, row.3, row.4, row.5)
            })),
            StoreRequest::Insert { username, password, salt } => {
                if self.find(username).is_some() {
                    return StoreReply::Done(false);
                }
                let id = self.rows.len() as u64 + 1;
                self.rows.push((id, username.to_string(), *password, *salt, 0, false));
                StoreReply::Done(true)
            }
            StoreRequest::Update { username, set, keep } => match self.find(username) {
                Some(at) => {
                    self.rows[at].4 = (self.rows[at].4 | set) & keep;
                    StoreReply::Done(true)
                }
                None => StoreReply::Done(false),
            },
            StoreRequest::SetVerified { username, verified } => match self.find(username) {
                Some(at) => {
                    self.rows[at].5 = *verified;
                    StoreReply::Done(true)
                }
                None => StoreReply::Done(false),
            },
            StoreRequest::Delete { username } => match self.find(username) {
                Some(at) => {
                    self.rows.remove(at);
                    StoreReply::Done(true)
                }
                None => StoreReply::Done(false),
            },
        }
    }
}

fn serve<'a>(store: &mut Rows, label: &'a str) -> Page<'a> {
    let mut step = handle_query(label, SECRET, Hashing::Fast);
    loop {
        match step {
            Step::Show(page) => return page,
            Step::Ask(request, pending) => {
                let reply = store.answer(&request);
                step = resume(pending, reply, Hashing::Fast);
            }
        }
    }
}

fn alice(boxes: u64) -> User {
    let digest = hash_with_salt("secret1", SALT, Hashing::Fast).unwrap();
    User::new(1, "alice".to_string(), digest, SALT, boxes, true)
}

#[test]
fn registering_then_getting_shows_an_empty_board() {
    let mut store = Rows::new();
    match serve(&mut store, "register-username-alice-password-secret1") {
        Page::SetPage(page) => {
            assert_eq!(page.username(), "alice");
            assert_eq!(page.password(), "secret1");
            assert_eq!(page.user.boxes(), 0);
            assert!(!page.verified());
        }
        other => panic!("{:?}", other),
    }
    match serve(&mut store, "get-username-alice") {
        Page::Get(page) => {
            assert_eq!(page.username(), "alice");
            assert_eq!(page.user.boxes(), 0);
        }
        other => panic!("{:?}", other),
    }
}

#[test]
fn checking_two_two_sets_bit_twelve() {
    let mut store = Rows::new();
    serve(&mut store, "register-username-alice-password-secret1");
    match serve(&mut store, "check-2-2-username-alice-password-secret1") {
        Page::SetPage(page) => assert_eq!(page.user.boxes(), 0b1_0000_0000_0000),
        other => panic!("{:?}", other),
    }
    match serve(&mut store, "get-username-alice") {
        Page::Get(page) => assert_eq!(page.user.boxes(), 1 << 12),
        other => panic!("{:?}", other),
    }
}

#[test]
fn board_reflects_every_write_in_order() {
    let mut store = Rows::new();
    serve(&mut store, "register-username-alice-password-secret1");
    for label in [
        "check-0-0-username-alice-password-secret1",
        "check-4-4-username-alice-password-secret1",
        "check-0-0-username-alice-password-secret1",
        "uncheck-4-4-username-alice-password-secret1",
        "check-1-3-username-alice-password-secret1",
        "uncheck-2-2-username-alice-password-secret1",
    ] {
        serve(&mut store, label);
    }
    match serve(&mut store, "get-username-alice") {
        Page::Get(page) => assert_eq!(page.user.boxes(), 1 | (1 << 16)),
        other => panic!("{:?}", other),
    }
}

#[test]
fn wrong_password_is_invalid_credentials() {
    let mut store = Rows::new();
    serve(&mut store, "register-username-alice-password-secret1");
    match serve(&mut store, "login-username-alice-password-wrong") {
        Page::Error(page) => {
            assert_eq!(page.kind, ErrorKind::InvalidCredentials);
            assert_eq!(page.header, "invalid credentials!");
            assert_eq!(page.description, "unfortunately, either your username or password was incorrect.");
        }
        other => panic!("{:?}", other),
    }
    match serve(&mut store, "login-username-nobody-password-secret1") {
        Page::Error(page) => assert_eq!(page.kind, ErrorKind::InvalidCredentials),
        other => panic!("{:?}", other),
    }
    match serve(&mut store, "check-1-1-username-alice-password-wrong") {
        Page::Error(page) => assert_eq!(page.kind, ErrorKind::InvalidCredentials),
        other => panic!("{:?}", other),
    }
    match serve(&mut store, "get-username-alice") {
        Page::Get(page) => assert_eq!(page.user.boxes(), 0),
        other => panic!("{:?}", other),
    }
}

#[test]
fn right_password_opens_the_board() {
    let mut store = Rows::new();
    serve(&mut store, "register-username-alice-password-secret1");
    match serve(&mut store, "login-username-alice-password-secret1") {
        Page::SetPage(page) => {
            assert_eq!(page.username(), "alice");
            assert_eq!(page.password(), "secret1");
        }
        other => panic!("{:?}", other),
    }
}

#[test]
fn unknown_user_is_not_found() {
    let mut store = Rows::new();
    match serve(&mut store, "get-username-bob") {
        Page::Error(page) => {
            assert_eq!(page.kind, ErrorKind::NotFound);
            assert_eq!(page.header, "invalid username");
            assert_eq!(page.description, "could not find a user with the name bob!");
        }
        other => panic!("{:?}", other),
    }
}

#[test]
fn off_board_label_is_rejected_before_the_store() {
    let mut store = Rows::new();
    serve(&mut store, "register-username-alice-password-secret1");
    let asked = store.asked;
    match serve(&mut store, "uncheck-9-9-username-alice-password-secret1") {
        Page::Rejected(failure) => {
            assert_eq!(failure, CatastrophicFailure::Unparseable { position: 1, kind: QueryKind::Uncheck })
        }
        other => panic!("{:?}", other),
    }
    assert_eq!(store.asked, asked);
}

#[test]
fn pages_without_the_store() {
    let mut store = Rows::new();
    assert!(matches!(serve(&mut store, "index"), Page::Index(Index)));
    assert!(matches!(serve(&mut store, "login"), Page::Login(Login)));
    match serve(&mut store, "register") {
        Page::Register(page) => {
            assert_eq!(page.username_err, "");
            assert_eq!(page.password_err, "");
        }
        other => panic!("{:?}", other),
    }
    assert!(matches!(serve(&mut store, "admin-hunter2"), Page::Admin(Admin)));
    assert!(matches!(
        serve(&mut store, "nonsense"),
        Page::Rejected(CatastrophicFailure::UnknownQueryKind(word)) if word == "nonsense"
    ));
    assert_eq!(store.asked, 0);
}

#[test]
fn logout_shows_the_index_whatever_the_password() {
    let mut store = Rows::new();
    serve(&mut store, "register-username-alice-password-secret1");
    assert!(matches!(serve(&mut store, "logout-username-alice-password-secret1"), Page::Index(Index)));
    assert!(matches!(serve(&mut store, "logout-username-alice-password-wrong"), Page::Index(Index)));
    assert!(matches!(serve(&mut store, "logout-username-nobody-password-x"), Page::Index(Index)));
}

#[test]
fn registration_complains_about_names_and_passwords() {
    let complaints = |username: &str, password: &str| {
        check_registration(username, password).map(|page| (page.username_err, page.password_err))
    };
    assert_eq!(complaints("alice", "secret1"), None);
    assert_eq!(complaints("abc", "x"), None);
    assert_eq!(complaints("abcdefghijklmnop", "1234567"), None);
    assert_eq!(complaints("", "secret1"), Some(("trying to register an empty username! how special.", "")));
    assert_eq!(complaints("a", "secret1"), Some(("too short. at least 3 characters please", "")));
    assert_eq!(complaints("ab", "secret1"), Some(("too short. at least 3 characters please", "")));
    assert_eq!(complaints("abcdefghijklmnopq", "123456"), Some(("too long. at most 16 characters please", "")));
    assert_eq!(complaints("alice", ""), Some(("", "okay, not that insecure.")));
    assert_eq!(
        complaints("abcdefghijklmnop", "12345678"),
        Some(("read the big red message !!", "read the big red message !!"))
    );
    assert_eq!(
        complaints("", "123456789012345678901234"),
        Some(("read the big red message !!", "read the big red message !!"))
    );
    assert_eq!(complaints("zoë", "x"), None);
    assert_eq!(complaints("ëë", "x"), None);
    assert_eq!(complaints("ë", "x"), Some(("too short. at least 3 characters please", "")));
}

#[test]
fn a_rejected_registration_never_reaches_the_store() {
    let mut store = Rows::new();
    match serve(&mut store, "register-username-al-password-secret1") {
        Page::Register(page) => assert_eq!(page.username_err, "too short. at least 3 characters please"),
        other => panic!("{:?}", other),
    }
    assert_eq!(store.asked, 0);
}

#[test]
fn a_taken_name_is_reported_by_the_store() {
    let mut store = Rows::new();
    serve(&mut store, "register-username-alice-password-secret1");
    match serve(&mut store, "register-username-alice-password-other") {
        Page::Register(page) => {
            assert_eq!(page.username_err, "that username is taken !");
            assert_eq!(page.password_err, "");
        }
        other => panic!("{:?}", other),
    }
    assert!(matches!(serve(&mut store, "login-username-alice-password-secret1"), Page::SetPage(_)));
}

#[test]
fn registration_asks_to_insert_the_digest_of_the_password() {
    match dispatch(Query::RegisterAttempt { username: "alice", password: "secret1" }, Hashing::Fast) {
        Step::Ask(StoreRequest::Insert { username, password, salt }, Pending::Insert { username: kept, password: word }) => {
            assert_eq!(username, "alice");
            assert_eq!(kept, "alice");
            assert_eq!(word, "secret1");
            assert_eq!(hash_with_salt("secret1", salt, Hashing::Fast).unwrap(), password);
        }
        other => panic!("{:?}", other),
    }
}

#[test]
fn register_with_reports_a_failed_digest() {
    match register_with("alice", "secret1", Err(HashError::Randomness("no entropy".to_string()))) {
        Step::Show(Page::Error(page)) => {
            assert_eq!(page.kind, ErrorKind::Hashing);
            assert_eq!(page.header, "an error occurred while validating your username or password: ");
            assert_eq!(page.description, "Could not get OS random: no entropy");
        }
        other => panic!("{:?}", other),
    }
    match register_with("alice", "secret1", Ok(([3; 32], SALT))) {
        Step::Ask(StoreRequest::Insert { username, password, salt }, Pending::Insert { .. }) => {
            assert_eq!(username, "alice");
            assert_eq!(password, [3; 32]);
            assert_eq!(salt, SALT);
        }
        other => panic!("{:?}", other),
    }
}

#[test]
fn first_steps_name_what_the_store_is_asked() {
    assert!(matches!(
        dispatch(Query::BrowsePage, Hashing::Fast),
        Step::Ask(StoreRequest::VerifiedUsers, Pending::Browse)
    ));
    assert!(matches!(
        dispatch(Query::GetGrid { username: "bob" }, Hashing::Fast),
        Step::Ask(StoreRequest::Retrieve { username: "bob" }, Pending::Show { username: "bob", password: None })
    ));
    assert!(matches!(
        dispatch(Query::LoginAttempt { username: "bob", password: "pw" }, Hashing::Fast),
        Step::Ask(
            StoreRequest::Retrieve { username: "bob" },
            Pending::Authenticate { username: "bob", password: "pw", purpose: Purpose::Login }
        )
    ));
    let write = Query::SetCell { x: 2, y: 2, checked: false, username: "bob", password: "pw" };
    match dispatch(write, Hashing::Fast) {
        Step::Ask(StoreRequest::Retrieve { username: "bob" }, Pending::Authenticate { purpose, .. }) => {
            assert_eq!(purpose, Purpose::Write { set: 0, keep: !(1 << 12) })
        }
        other => panic!("{:?}", other),
    }
    let verify = Query::AdminAction { subcommand: AdminCommand::Verify, target_username: Some("bob") };
    assert!(matches!(
        dispatch(verify, Hashing::Fast),
        Step::Ask(StoreRequest::SetVerified { username: "bob", verified: true }, Pending::Admin)
    ));
    let unverify = Query::AdminAction { subcommand: AdminCommand::Unverify, target_username: Some("bob") };
    assert!(matches!(
        dispatch(unverify, Hashing::Fast),
        Step::Ask(StoreRequest::SetVerified { username: "bob", verified: false }, Pending::Admin)
    ));
    let delete = Query::AdminAction { subcommand: AdminCommand::Delete, target_username: Some("bob") };
    assert!(matches!(
        dispatch(delete, Hashing::Fast),
        Step::Ask(StoreRequest::Delete { username: "bob" }, Pending::Admin)
    ));
    let dump = Query::AdminAction { subcommand: AdminCommand::Dump, target_username: None };
    assert!(matches!(dispatch(dump, Hashing::Fast), Step::Ask(StoreRequest::AllUsernames, Pending::Dump)));
}

#[test]
fn administrator_verifies_lists_and_deletes() {
    let mut store = Rows::new();
    serve(&mut store, "register-username-alice-password-secret1");
    serve(&mut store, "register-username-bobby-password-secret2");
    match serve(&mut store, "browse") {
        Page::Browse(page) => assert!(page.users.is_empty()),
        other => panic!("{:?}", other),
    }
    assert!(matches!(serve(&mut store, "admin-hunter2-verify-bobby"), Page::Admin(Admin)));
    match serve(&mut store, "browse") {
        Page::Browse(page) => assert_eq!(page.users, vec!["bobby".to_string()]),
        other => panic!("{:?}", other),
    }
    assert!(matches!(serve(&mut store, "admin-hunter2-unverify-bobby"), Page::Admin(Admin)));
    match serve(&mut store, "browse") {
        Page::Browse(page) => assert!(page.users.is_empty()),
        other => panic!("{:?}", other),
    }
    match serve(&mut store, "admin-hunter2-username-dump") {
        Page::Dump(page) => assert_eq!(page.usernames, vec!["alice".to_string(), "bobby".to_string()]),
        other => panic!("{:?}", other),
    }
    assert!(matches!(serve(&mut store, "admin-hunter2-delete-alice"), Page::Admin(Admin)));
    assert!(matches!(serve(&mut store, "get-username-alice"), Page::Error(page) if page.kind == ErrorKind::NotFound));
    assert!(matches!(
        serve(&mut store, "admin-wrong-delete-bobby"),
        Page::Rejected(CatastrophicFailure::UnknownQueryKind(word)) if word == "admin"
    ));
    assert!(matches!(serve(&mut store, "get-username-bobby"), Page::Get(_)));
}

#[test]
fn store_failures_are_reported_with_the_stores_words() {
    let failed = || StoreReply::Failed("disk on fire".to_string());
    let cases: Vec<(Pending, String)> = vec![
        (Pending::Browse, "could not get users".to_string()),
        (Pending::Dump, "sql error".to_string()),
        (Pending::Admin, "sql error".to_string()),
        (
            Pending::Authenticate { username: "bob", password: "pw", purpose: Purpose::Logout },
            "an error occurred while validating your username or password: ".to_string(),
        ),
        (
            Pending::Insert { username: "bob", password: "pw" },
            "an error occurred while validating your username or password: ".to_string(),
        ),
        (
            Pending::Show { username: "bob", password: None },
            "an error occurred while retrieving the data for user bob:".to_string(),
        ),
        (Pending::Update { username: "bob", password: "pw" }, "sql error while updating db".to_string()),
    ];
    for (pending, header) in cases {
        match resume(pending, failed(), Hashing::Fast) {
            Step::Show(Page::Error(page)) => {
                assert_eq!(page.kind, ErrorKind::Store);
                assert_eq!(page.header, header);
                assert_eq!(page.description, "disk on fire");
            }
            other => panic!("{:?}", other),
        }
    }
}

#[test]
fn a_reply_to_another_question_is_reported() {
    let stray = |step: Step| match step {
        Step::Show(Page::Error(page)) => {
            page.kind == ErrorKind::Store
                && page.header == "store error"
                && page.description == "the store answered what it was not asked"
        }
        _ => false,
    };
    assert!(stray(resume(Pending::Browse, StoreReply::Done(true), Hashing::Fast)));
    assert!(stray(resume(Pending::Browse, StoreReply::User(None), Hashing::Fast)));
    assert!(stray(resume(Pending::Admin, StoreReply::Usernames(Vec::new()), Hashing::Fast)));
    assert!(stray(resume(Pending::Admin, StoreReply::User(Some(alice(0))), Hashing::Fast)));
    assert!(stray(resume(Pending::Insert { username: "a", password: "b" }, StoreReply::User(None), Hashing::Fast)));
    assert!(stray(resume(
        Pending::Show { username: "a", password: None },
        StoreReply::Done(true),
        Hashing::Fast
    )));
    assert!(stray(resume(
        Pending::Authenticate { username: "a", password: "b", purpose: Purpose::Login },
        StoreReply::Usernames(Vec::new()),
        Hashing::Fast
    )));
}

#[test]
fn a_granted_write_asks_for_one_update() {
    let purpose = Purpose::Write { set: 1 << 12, keep: u64::MAX };
    match wrapped_db_auth(Some(alice(0)), "alice", "secret1", purpose, Hashing::Fast) {
        Step::Ask(StoreRequest::Update { username, set, keep }, Pending::Update { username: kept, password }) => {
            assert_eq!(username, "alice");
            assert_eq!(kept, "alice");
            assert_eq!(password, "secret1");
            assert_eq!(set, 1 << 12);
            assert_eq!(keep, u64::MAX);
        }
        other => panic!("{:?}", other),
    }
    match wrapped_db_auth(Some(alice(0)), "alice", "wrong", purpose, Hashing::Fast) {
        Step::Show(Page::Error(page)) => assert_eq!(page.kind, ErrorKind::InvalidCredentials),
        other => panic!("{:?}", other),
    }
    match wrapped_db_auth(None, "alice", "secret1", purpose, Hashing::Fast) {
        Step::Show(Page::Error(page)) => assert_eq!(page.kind, ErrorKind::InvalidCredentials),
        other => panic!("{:?}", other),
    }
    assert!(matches!(
        wrapped_db_auth(Some(alice(0)), "alice", "secret1", Purpose::Logout, Hashing::Fast),
        Step::Show(Page::Index(Index))
    ));
    match wrapped_db_auth(Some(alice(0)), "alice", "secret1", Purpose::Login, Hashing::Secure) {
        Step::Show(Page::Error(page)) => assert_eq!(page.kind, ErrorKind::InvalidCredentials),
        other => panic!("{:?}", other),
    }
}

#[test]
fn after_a_write_the_board_is_read_again() {
    for changed in [true, false] {
        assert!(matches!(
            resume(Pending::Update { username: "alice", password: "pw" }, StoreReply::Done(changed), Hashing::Fast),
            Step::Ask(
                StoreRequest::Retrieve { username: "alice" },
                Pending::Show { username: "alice", password: Some("pw") }
            )
        ));
    }
    assert!(matches!(
        resume(Pending::Insert { username: "alice", password: "pw" }, StoreReply::Done(true), Hashing::Fast),
        Step::Ask(
            StoreRequest::Retrieve { username: "alice" },
            Pending::Show { username: "alice", password: Some("pw") }
        )
    ));
}

#[test]
fn retrieved_user_is_shown_with_or_without_password() {
    match wrapped_db_retrieve(Some(alice(5)), "alice", None) {
        Step::Show(Page::Get(page)) => assert_eq!(page.user.boxes(), 5),
        other => panic!("{:?}", other),
    }
    match wrapped_db_retrieve(Some(alice(5)), "alice", Some("secret1")) {
        Step::Show(Page::SetPage(page)) => {
            assert_eq!(page.user.boxes(), 5);
            assert_eq!(page.password, "secret1");
        }
        other => panic!("{:?}", other),
    }
    match wrapped_db_retrieve(None, "zoë", Some("secret1")) {
        Step::Show(Page::Error(page)) => {
            assert_eq!(page.kind, ErrorKind::NotFound);
            assert_eq!(page.description, "could not find a user with the name zoë!");
        }
        other => panic!("{:?}", other),
    }
}

#[test]
fn pages_tell_how_to_draw_each_box() {
    let boxes = (1 << 12) | 1;
    let get = Get { user: alice(boxes) };
    let set = SetPage { user: alice(boxes), password: "secret1" };
    assert_eq!(get.username(), "alice");
    assert!(get.verified());
    assert_eq!(set.username(), "alice");
    assert_eq!(set.password(), "secret1");
    assert!(set.verified());
    for x in 0..5u32 {
        for y in 0..5u32 {
            let ticked = (x, y) == (2, 2) || (x, y) == (0, 0);
            assert_eq!(get.checked(&x, &y), if ticked { " checked" } else { "" });
            assert_eq!(set.checked(&x, &y), if ticked { " checked" } else { "" });
            assert_eq!(set.prefix(&x, &y), if ticked { "uncheck" } else { "check" });
        }
    }
}

#[test]
fn error_pages_carry_their_words() {
    let page = error(ErrorKind::NotFound, "a header", "a description");
    assert_eq!(page.kind, ErrorKind::NotFound);
    assert_eq!(page.header, "a header");
    assert_eq!(page.description, "a description");
    let page = credentials_error("the pool is empty");
    assert_eq!(page.kind, ErrorKind::Store);
    assert_eq!(page.header, "an error occurred while validating your username or password: ");
    assert_eq!(page.description, "the pool is empty");
    let page = invalid_credentials();
    assert_eq!(page.kind, ErrorKind::InvalidCredentials);
    assert_eq!(page.header, "invalid credentials!");
    assert_eq!(page.description, "unfortunately, either your username or password was incorrect.");
}
