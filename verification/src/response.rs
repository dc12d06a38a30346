//! From a query to a page.
//!
//! The store is not reached from here. A query is answered in steps: each
//! step either shows a page or asks the store one thing and says what is
//! pending; the caller puts the question to the store and comes back with
//! the reply.
use vstd::prelude::*;
use vstd::string::*;
use crate::database::{authenticates, db_authenticate, hash, salted_digest, HashError, Hashing, User};
use crate::grid::{get_box, lemma_masks_apply_write, on_board, spec_get_box, spec_set_box, write_masks};
use crate::parse::{parse_label, parse_query, AdminCommand, CatastrophicFailure, Query};

verus! {

/// The front page.
#[derive(Debug)]
pub struct Index;

/// The page that asks for a name and a password.
#[derive(Debug)]
pub struct Login;

/// The administrator's page.
#[derive(Debug)]
pub struct Admin;

/// The list of verified users.
#[derive(Debug)]
pub struct Browse {
    pub users: Vec<String>,
}

/// Every username, one to a line.
#[derive(Debug)]
pub struct Dump {
    pub usernames: Vec<String>,
}

/// The page that offers registration, with a complaint beside the name or
/// the password where there is one.
#[derive(Debug)]
pub struct Register<'a> {
    pub username_err: &'a str,
    pub password_err: &'a str,
}

/// A user's board, to look at.
#[derive(Debug)]
pub struct Get {
    pub user: User,
}

/// A user's board, to tick and clear, open to whoever knows the password.
#[derive(Debug)]
pub struct SetPage<'a> {
    pub user: User,
    pub password: &'a str,
}

/// What went wrong, for the caller to tell one failure from another.
#[derive(Clone, Copy, Debug, PartialEq, Eq, Structural)]
pub enum ErrorKind {
    /// The store failed, or answered what it was not asked.
    Store,
    /// Name or password was wrong; which of the two is not told.
    InvalidCredentials,
    /// No user of that name exists.
    NotFound,
    /// A password could not be digested.
    Hashing,
}

/// A page that reports a failure.
#[derive(Debug)]
pub struct Error {
    pub kind: ErrorKind,
    pub header: String,
    pub description: String,
}

/// Every page the site can show.
#[derive(Debug)]
pub enum Page<'a> {
    Index(Index),
    Login(Login),
    Register(Register<'a>),
    Browse(Browse),
    Get(Get),
    SetPage(SetPage<'a>),
    Admin(Admin),
    Dump(Dump),
    Error(Error),
    /// The label was no query; the failure says why.
    Rejected(CatastrophicFailure),
}

impl Get {
    /// The name of the user whose board is shown.
    pub fn username(&self) -> (name: &str)
        ensures
            name@ == self.user@.username,
    {
        self.user.username()
    }

    /// Whether the user is verified.
    pub fn verified(&self) -> (verified: bool)
        ensures
            verified == self.user@.verified,
    {
        self.user.verified()
    }

    /// The attribute to write into the box in column `x` of row `y`.
    pub fn checked(&self, x: &u32, y: &u32) -> (attribute: &'static str)
        requires
            on_board(*x, *y),
        ensures
            attribute@ == checked_attribute(spec_get_box(self.user@.boxes, *x, *y)),
    {
        if get_box(self.user.boxes(), *x, *y) {
            " checked"
        } else {
            ""
        }
    }
}

impl<'a> SetPage<'a> {
    /// The name of the user whose board is shown.
    pub fn username(&self) -> (name: &str)
        ensures
            name@ == self.user@.username,
    {
        self.user.username()
    }

    /// The password that opened the board.
    pub fn password(&self) -> (password: &str)
        ensures
            password@ == self.password@,
    {
        self.password
    }

    /// Whether the user is verified.
    pub fn verified(&self) -> (verified: bool)
        ensures
            verified == self.user@.verified,
    {
        self.user.verified()
    }

    /// The attribute to write into the box in column `x` of row `y`.
    pub fn checked(&self, x: &u32, y: &u32) -> (attribute: &'static str)
        requires
            on_board(*x, *y),
        ensures
            attribute@ == checked_attribute(spec_get_box(self.user@.boxes, *x, *y)),
    {
        if get_box(self.user.boxes(), *x, *y) {
            " checked"
        } else {
            ""
        }
    }

    /// The word that opens the label behind the box in column `x` of row
    /// `y`: the one that undoes what the box shows.
    pub fn prefix(&self, x: &u32, y: &u32) -> (word: &'static str)
        requires
            on_board(*x, *y),
        ensures
            word@ == if spec_get_box(self.user@.boxes, *x, *y) {
                "uncheck"@
            } else {
                "check"@
            },
    {
        if get_box(self.user.boxes(), *x, *y) {
            "uncheck"
        } else {
            "check"
        }
    }
}

/// The attribute of a box that is ticked, and of one that is not.
pub open spec fn checked_attribute(checked: bool) -> Seq<char> {
    if checked {
        " checked"@
    } else {
        ""@
    }
}

/// The header over every failure to check a name and a password.
pub open spec fn credentials_header() -> Seq<char> {
    "an error occurred while validating your username or password: "@
}

/// A page that reports a failure of the given kind.
pub fn error(kind: ErrorKind, header: &str, description: &str) -> (page: Error)
    ensures
        page.kind == kind,
        page.header@ == header@,
        page.description@ == description@,
{
    Error { kind, header: header.to_owned(), description: description.to_owned() }
}

/// The page for a store that failed while a name and a password were
/// being checked.
pub fn credentials_error(description: &str) -> (page: Error)
    ensures
        page.kind == ErrorKind::Store,
        page.header@ == credentials_header(),
        page.description@ == description@,
{
    error(ErrorKind::Store, "an error occurred while validating your username or password: ", description)
}

/// The page for a wrong name or password.
pub fn invalid_credentials() -> (page: Error)
    ensures
        page.kind == ErrorKind::InvalidCredentials,
        page.header@ == "invalid credentials!"@,
        page.description@ == "unfortunately, either your username or password was incorrect."@,
{
    error(
        ErrorKind::InvalidCredentials,
        "invalid credentials!",
        "unfortunately, either your username or password was incorrect.",
    )
}

/// What a check of name and password is for.
#[derive(Clone, Copy, Debug, PartialEq, Eq, Structural)]
pub enum Purpose {
    /// To open the user's board.
    Login,
    /// To leave; whether the check succeeds makes no difference.
    Logout,
    /// To write to the board: a store that holds the board `old` is to
    /// hold `(old | set) & keep` afterwards.
    Write { set: u64, keep: u64 },
}

/// One question to the store.
#[derive(Debug)]
pub enum StoreRequest<'a> {
    /// The names of all verified users.
    VerifiedUsers,
    /// The names of all users.
    AllUsernames,
    /// The user of this name.
    Retrieve { username: &'a str },
    /// Add a user with an empty board, unless the name is taken.
    Insert { username: &'a str, password: [u8; 32], salt: [u8; 8] },
    /// Replace the user's board `old` by `(old | set) & keep`, in one
    /// statement.
    Update { username: &'a str, set: u64, keep: u64 },
    /// Mark the user as verified or not.
    SetVerified { username: &'a str, verified: bool },
    /// Remove the user.
    Delete { username: &'a str },
}

/// What the store said.
#[derive(Debug)]
pub enum StoreReply {
    /// The store failed, with its own words for it.
    Failed(String),
    /// A list of names.
    Usernames(Vec<String>),
    /// The user asked for, or none of that name.
    User(Option<User>),
    /// A change was made (`true`) or found nothing to change (`false`).
    Done(bool),
}

/// What a query is waiting for while the store is asked.
#[derive(Debug)]
#[allow(inconsistent_fields)]
pub enum Pending<'a> {
    /// The verified users, to list them.
    Browse,
    /// All usernames, to list them.
    Dump,
    /// The user, to check the password against.
    Authenticate { username: &'a str, password: &'a str, purpose: Purpose },
    /// The user, to show the board: to look at, or with a password to
    /// write to.
    Show { username: &'a str, password: Option<&'a str> },
    /// Word on whether the new user was added.
    Insert { username: &'a str, password: &'a str },
    /// Word that the board was written.
    Update { username: &'a str, password: &'a str },
    /// Word that the administrator's change was made.
    Admin,
}

/// One step towards a page: the page itself, or a question to the store
/// together with what is pending on its answer.
#[derive(Debug)]
pub enum Step<'a> {
    Ask(StoreRequest<'a>, Pending<'a>),
    Show(Page<'a>),
}

/// Whether `step` shows a failure of this kind with these very words.
pub open spec fn shows_error(step: Step<'_>, kind: ErrorKind, header: Seq<char>, description: Seq<char>) -> bool {
    match step {
        Step::Show(Page::Error(page)) => page.kind == kind && page.header@ == header && page.description@
            == description,
        _ => false,
    }
}

/// Whether `step` shows the registration page with these complaints.
pub open spec fn shows_register(step: Step<'_>, username_err: Seq<char>, password_err: Seq<char>) -> bool {
    match step {
        Step::Show(Page::Register(page)) => page.username_err@ == username_err && page.password_err@
            == password_err,
        _ => false,
    }
}

/// Whether `text` opens with `opening`.
pub open spec fn begins_with(text: Seq<char>, opening: Seq<char>) -> bool {
    text.len() >= opening.len() && text.subrange(0, opening.len() as int) == opening
}

/// Whether `step` reports that a password could not be digested: for want
/// of random bytes where `randomness` allows it, or because the digest
/// itself failed where `digest` allows it. What follows the opening words
/// of the description is what the failure itself says.
pub open spec fn shows_hash_failure(step: Step<'_>, randomness: bool, digest: bool) -> bool {
    match step {
        Step::Show(Page::Error(page)) => {
            &&& page.kind == ErrorKind::Hashing
            &&& page.header@ == credentials_header()
            &&& {
                ||| randomness && begins_with(page.description@, "Could not get OS random: "@)
                ||| digest && begins_with(page.description@, "Could not hash password: "@)
            }
        },
        _ => false,
    }
}

/// The page for a password that could not be digested.
fn hash_failure<'a>(failure: &HashError) -> (step: Step<'a>)
    ensures
        shows_error(step, ErrorKind::Hashing, credentials_header(), failure.spec_message()),
        shows_hash_failure(step, failure is Randomness, failure is Digest),
{
    let text = failure.message();
    proof {
        let opening = if failure is Randomness {
            "Could not get OS random: "@
        } else {
            "Could not hash password: "@
        };
        assert((opening + failure.detail()).subrange(0, opening.len() as int) =~= opening);
    }
    Step::Show(
        Page::Error(
            error(ErrorKind::Hashing, "an error occurred while validating your username or password: ", text.as_str()),
        ),
    )
}

/// The complaints about a name and a password offered for registration,
/// first the one beside the name, or `None` where both will do. Lengths
/// are counted in bytes: name and password together take at most 23, the
/// password at least one, the name from 3 to 16.
pub open spec fn registration_fault(username: Seq<char>, password: Seq<char>) -> Option<(Seq<char>, Seq<char>)> {
    let name_len = vstd::utf8::encode_utf8(username).len();
    let password_len = vstd::utf8::encode_utf8(password).len();
    if name_len + password_len > 23 {
        Some(("read the big red message !!"@, "read the big red message !!"@))
    } else if password_len == 0 {
        Some((""@, "okay, not that insecure."@))
    } else if name_len == 0 {
        Some(("trying to register an empty username! how special."@, ""@))
    } else if name_len <= 2 {
        Some(("too short. at least 3 characters please"@, ""@))
    } else if name_len <= 16 {
        None
    } else {
        Some(("too long. at most 16 characters please"@, ""@))
    }
}

/// Looks a name and a password over before registration and returns the
/// page that complains, if there is something to complain about.
pub fn check_registration(username: &str, password: &str) -> (fault: Option<Register<'static>>)
    ensures
        match fault {
            Some(page) => registration_fault(username@, password@) == Some(
                (page.username_err@, page.password_err@),
            ),
            None => registration_fault(username@, password@) is None,
        },
{
    let name_len = username.as_bytes().len();
    let password_len = password.as_bytes().len();
    if name_len > 23 || password_len > 23 - name_len {
        let response = "read the big red message !!";
        Some(Register { username_err: response, password_err: response })
    } else if password_len == 0 {
        Some(Register { username_err: "", password_err: "okay, not that insecure." })
    } else if name_len == 0 {
        Some(Register { username_err: "trying to register an empty username! how special.", password_err: "" })
    } else if name_len <= 2 {
        Some(Register { username_err: "too short. at least 3 characters please", password_err: "" })
    } else if name_len <= 16 {
        None
    } else {
        Some(Register { username_err: "too long. at most 16 characters please", password_err: "" })
    }
}

/// The step that follows the digesting of a new user's password: the
/// request to add the user under that digest and salt, or the page that
/// reports why there is no digest.
pub fn register_with<'a>(
    username: &'a str,
    password: &'a str,
    hashed: Result<([u8; 32], [u8; 8]), HashError>,
) -> (step: Step<'a>)
    ensures
        match hashed {
            Ok(pair) => step == Step::Ask(
                StoreRequest::Insert { username, password: pair.0, salt: pair.1 },
                Pending::Insert { username, password },
            ),
            Err(failure) => {
                &&& shows_error(step, ErrorKind::Hashing, credentials_header(), failure.spec_message())
                &&& shows_hash_failure(step, failure is Randomness, failure is Digest)
            },
        },
{
    match hashed {
        Ok((digest, salt)) => Step::Ask(
            StoreRequest::Insert { username, password: digest, salt },
            Pending::Insert { username, password },
        ),
        Err(failure) => hash_failure(&failure),
    }
}

/// What the first step for `query` must be.
pub open spec fn dispatch_post(query: Query<'_>, hashing: Hashing, step: Step<'_>) -> bool {
    match query {
        Query::Index => step == Step::Show(Page::Index(Index)),
        Query::LoginPage => step == Step::Show(Page::Login(Login)),
        Query::RegisterPage => shows_register(step, ""@, ""@),
        Query::BrowsePage => step == Step::Ask(StoreRequest::VerifiedUsers, Pending::Browse),
        Query::LoginAttempt { username, password } => step == Step::Ask(
            StoreRequest::Retrieve { username },
            Pending::Authenticate { username, password, purpose: Purpose::Login },
        ),
        Query::Logout { username, password } => step == Step::Ask(
            StoreRequest::Retrieve { username },
            Pending::Authenticate { username, password, purpose: Purpose::Logout },
        ),
        Query::RegisterAttempt { username, password } => match registration_fault(username@, password@) {
            Some(fault) => shows_register(step, fault.0, fault.1),
            None => match step {
                Step::Ask(
                    StoreRequest::Insert { username: asked, password: digest, salt },
                    Pending::Insert { username: kept, password: kept_password },
                ) => {
                    &&& asked == username
                    &&& kept == username
                    &&& kept_password == password
                    &&& salted_digest(password@, salt@, hashing) == Some(digest@)
                },
                _ => shows_hash_failure(step, true, hashing == Hashing::Secure),
            },
        },
        Query::GetGrid { username } => step == Step::Ask(
            StoreRequest::Retrieve { username },
            Pending::Show { username, password: None },
        ),
        Query::SetCell { x, y, checked, username, password } => step == Step::Ask(
            StoreRequest::Retrieve { username },
            Pending::Authenticate {
                username,
                password,
                purpose: Purpose::Write {
                    set: spec_set_box(0, x, y, checked),
                    keep: spec_set_box(u64::MAX, x, y, checked),
                },
            },
        ),
        Query::AdminAction { subcommand, target_username } => match subcommand {
            AdminCommand::Panel => step == Step::Show(Page::Admin(Admin)),
            AdminCommand::Dump => step == Step::Ask(StoreRequest::AllUsernames, Pending::Dump),
            AdminCommand::Verify => step == Step::Ask(
                StoreRequest::SetVerified { username: target_username->0, verified: true },
                Pending::Admin,
            ),
            AdminCommand::Unverify => step == Step::Ask(
                StoreRequest::SetVerified { username: target_username->0, verified: false },
                Pending::Admin,
            ),
            AdminCommand::Delete => step == Step::Ask(
                StoreRequest::Delete { username: target_username->0 },
                Pending::Admin,
            ),
        },
    }
}

/// Takes the first step for a query. Pages that need nothing from the
/// store are shown at once. A name and a password are checked against the
/// user that the store is asked for; a new user's name and password are
/// looked over before the store hears of them.
pub fn dispatch<'a>(query: Query<'a>, hashing: Hashing) -> (step: Step<'a>)
    requires
        query.well_formed(),
    ensures
        dispatch_post(query, hashing, step),
{
    match query {
        Query::Index => Step::Show(Page::Index(Index)),
        Query::LoginPage => Step::Show(Page::Login(Login)),
        Query::RegisterPage => Step::Show(Page::Register(Register { username_err: "", password_err: "" })),
        Query::BrowsePage => Step::Ask(StoreRequest::VerifiedUsers, Pending::Browse),
        Query::LoginAttempt { username, password } => Step::Ask(
            StoreRequest::Retrieve { username },
            Pending::Authenticate { username, password, purpose: Purpose::Login },
        ),
        Query::Logout { username, password } => Step::Ask(
            StoreRequest::Retrieve { username },
            Pending::Authenticate { username, password, purpose: Purpose::Logout },
        ),
        Query::RegisterAttempt { username, password } => match check_registration(username, password) {
            Some(page) => Step::Show(Page::Register(page)),
            None => register_with(username, password, hash(password, hashing)),
        },
        Query::GetGrid { username } => Step::Ask(
            StoreRequest::Retrieve { username },
            Pending::Show { username, password: None },
        ),
        Query::SetCell { x, y, checked, username, password } => {
            let (set, keep) = write_masks(x, y, checked);
            Step::Ask(
                StoreRequest::Retrieve { username },
                Pending::Authenticate { username, password, purpose: Purpose::Write { set, keep } },
            )
        },
        Query::AdminAction { subcommand, target_username } => match target_username {
            None => match subcommand {
                AdminCommand::Dump => Step::Ask(StoreRequest::AllUsernames, Pending::Dump),
                _ => Step::Show(Page::Admin(Admin)),
            },
            Some(username) => match subcommand {
                AdminCommand::Verify => Step::Ask(
                    StoreRequest::SetVerified { username, verified: true },
                    Pending::Admin,
                ),
                AdminCommand::Unverify => Step::Ask(
                    StoreRequest::SetVerified { username, verified: false },
                    Pending::Admin,
                ),
                _ => Step::Ask(StoreRequest::Delete { username }, Pending::Admin),
            },
        },
    }
}

/// The header over a failure to fetch the user `username`.
pub open spec fn retrieval_header(username: Seq<char>) -> Seq<char> {
    "an error occurred while retrieving the data for user "@ + username + ":"@
}

/// The sentence that says no user is called `username`.
pub open spec fn missing_user(username: Seq<char>) -> Seq<char> {
    "could not find a user with the name "@ + username + "!"@
}

/// What follows a check of name and password that did not succeed: the
/// front page for someone who was leaving anyway, else the page that says
/// that name or password was wrong.
pub open spec fn denied(step: Step<'_>, purpose: Purpose) -> bool {
    if purpose == Purpose::Logout {
        step == Step::Show(Page::Index(Index))
    } else {
        shows_error(
            step,
            ErrorKind::InvalidCredentials,
            "invalid credentials!"@,
            "unfortunately, either your username or password was incorrect."@,
        )
    }
}

/// What follows a check of name and password that succeeded.
pub open spec fn granted(step: Step<'_>, purpose: Purpose, user: User, username: &str, password: &str) -> bool {
    match purpose {
        Purpose::Login => step == Step::Show(Page::SetPage(SetPage { user, password })),
        Purpose::Logout => step == Step::Show(Page::Index(Index)),
        Purpose::Write { set, keep } => step == Step::Ask(
            StoreRequest::Update { username, set, keep },
            Pending::Update { username, password },
        ),
    }
}

/// What the step after a failure of the store must be: a page that
/// carries the store's own words under a header that says what was being
/// done.
pub open spec fn failed_post(pending: Pending<'_>, words: Seq<char>, step: Step<'_>) -> bool {
    match pending {
        Pending::Browse => shows_error(step, ErrorKind::Store, "could not get users"@, words),
        Pending::Dump => shows_error(step, ErrorKind::Store, "sql error"@, words),
        Pending::Admin => shows_error(step, ErrorKind::Store, "sql error"@, words),
        Pending::Authenticate { .. } => shows_error(step, ErrorKind::Store, credentials_header(), words),
        Pending::Insert { .. } => shows_error(step, ErrorKind::Store, credentials_header(), words),
        Pending::Show { username, .. } => shows_error(step, ErrorKind::Store, retrieval_header(username@), words),
        Pending::Update { .. } => shows_error(step, ErrorKind::Store, "sql error while updating db"@, words),
    }
}

/// Whether `step` reports a reply that does not answer what was asked.
pub open spec fn shows_stray_reply(step: Step<'_>) -> bool {
    shows_error(step, ErrorKind::Store, "store error"@, "the store answered what it was not asked"@)
}

/// What the step after the store's reply must be.
pub open spec fn resume_post(pending: Pending<'_>, reply: StoreReply, hashing: Hashing, step: Step<'_>) -> bool {
    match reply {
        StoreReply::Failed(words) => failed_post(pending, words@, step),
        StoreReply::Usernames(names) => match pending {
            Pending::Browse => step == Step::Show(Page::Browse(Browse { users: names })),
            Pending::Dump => step == Step::Show(Page::Dump(Dump { usernames: names })),
            _ => shows_stray_reply(step),
        },
        StoreReply::User(found) => match pending {
            Pending::Authenticate { username, password, purpose } => match authenticates(
                found,
                password@,
                hashing,
            ) {
                None => shows_hash_failure(step, false, true),
                Some(false) => denied(step, purpose),
                Some(true) => found is Some && granted(step, purpose, found->0, username, password),
            },
            Pending::Show { username, password } => match found {
                None => shows_error(step, ErrorKind::NotFound, "invalid username"@, missing_user(username@)),
                Some(user) => match password {
                    None => step == Step::Show(Page::Get(Get { user })),
                    Some(password) => step == Step::Show(Page::SetPage(SetPage { user, password })),
                },
            },
            _ => shows_stray_reply(step),
        },
        StoreReply::Done(changed) => match pending {
            Pending::Insert { username, password } => if changed {
                step == Step::Ask(
                    StoreRequest::Retrieve { username },
                    Pending::Show { username, password: Some(password) },
                )
            } else {
                shows_register(step, "that username is taken !"@, ""@)
            },
            Pending::Update { username, password } => step == Step::Ask(
                StoreRequest::Retrieve { username },
                Pending::Show { username, password: Some(password) },
            ),
            Pending::Admin => step == Step::Show(Page::Admin(Admin)),
            _ => shows_stray_reply(step),
        },
    }
}

/// `before`, then `name`, then `after`, in one string.
fn sentence(before: &str, name: &str, after: &str) -> (text: String)
    ensures
        text@ == before@ + name@ + after@,
{
    String::from_str(before).concat(name).concat(after)
}

/// The page for a store that failed while `pending` waited on it.
fn store_failure<'a>(pending: Pending<'a>, words: &str) -> (step: Step<'a>)
    ensures
        failed_post(pending, words@, step),
{
    let page = match pending {
        Pending::Browse => error(ErrorKind::Store, "could not get users", words),
        Pending::Dump => error(ErrorKind::Store, "sql error", words),
        Pending::Admin => error(ErrorKind::Store, "sql error", words),
        Pending::Authenticate { .. } => credentials_error(words),
        Pending::Insert { .. } => credentials_error(words),
        Pending::Show { username, .. } => {
            let header = sentence("an error occurred while retrieving the data for user ", username, ":");
            error(ErrorKind::Store, header.as_str(), words)
        },
        Pending::Update { .. } => error(ErrorKind::Store, "sql error while updating db", words),
    };
    Step::Show(Page::Error(page))
}

/// The page for a reply that does not answer what was asked.
fn stray_reply<'a>() -> (step: Step<'a>)
    ensures
        shows_stray_reply(step),
{
    Step::Show(Page::Error(error(ErrorKind::Store, "store error", "the store answered what it was not asked")))
}

/// The step after a check of name and password that did not succeed.
fn deny<'a>(purpose: Purpose) -> (step: Step<'a>)
    ensures
        denied(step, purpose),
{
    match purpose {
        Purpose::Logout => Step::Show(Page::Index(Index)),
        _ => Step::Show(Page::Error(invalid_credentials())),
    }
}

/// Checks the password against the user that the store returned and takes
/// the step that the purpose of the check calls for.
pub fn wrapped_db_auth<'a>(
    found: Option<User>,
    username: &'a str,
    password: &'a str,
    purpose: Purpose,
    hashing: Hashing,
) -> (step: Step<'a>)
    ensures
        resume_post(Pending::Authenticate { username, password, purpose }, StoreReply::User(found), hashing, step),
{
    let verdict = db_authenticate(&found, password, hashing);
    let user = match found {
        Some(user) => user,
        None => {
            return deny(purpose);
        },
    };
    match verdict {
        Err(failure) => hash_failure(&failure),
        Ok(false) => deny(purpose),
        Ok(true) => match purpose {
            Purpose::Login => Step::Show(Page::SetPage(SetPage { user, password })),
            Purpose::Logout => Step::Show(Page::Index(Index)),
            Purpose::Write { set, keep } => Step::Ask(
                StoreRequest::Update { username, set, keep },
                Pending::Update { username, password },
            ),
        },
    }
}

/// Shows the board of the user that the store returned: to write to where
/// a password came along, else to look at. Where the store found no such
/// user, says so.
pub fn wrapped_db_retrieve<'a>(found: Option<User>, username: &'a str, password: Option<&'a str>) -> (step: Step<
    'a,
>)
    ensures
        resume_post(Pending::Show { username, password }, StoreReply::User(found), Hashing::Fast, step),
{
    match found {
        None => {
            let description = sentence("could not find a user with the name ", username, "!");
            Step::Show(Page::Error(error(ErrorKind::NotFound, "invalid username", description.as_str())))
        },
        Some(user) => match password {
            None => Step::Show(Page::Get(Get { user })),
            Some(password) => Step::Show(Page::SetPage(SetPage { user, password })),
        },
    }
}

/// Takes the step that follows the store's reply to what was pending. A
/// failure of the store always ends in a page that reports it.
pub fn resume<'a>(pending: Pending<'a>, reply: StoreReply, hashing: Hashing) -> (step: Step<'a>)
    ensures
        resume_post(pending, reply, hashing, step),
{
    match reply {
        StoreReply::Failed(words) => store_failure(pending, words.as_str()),
        StoreReply::Usernames(names) => match pending {
            Pending::Browse => Step::Show(Page::Browse(Browse { users: names })),
            Pending::Dump => Step::Show(Page::Dump(Dump { usernames: names })),
            _ => stray_reply(),
        },
        StoreReply::User(found) => match pending {
            Pending::Authenticate { username, password, purpose } => wrapped_db_auth(
                found,
                username,
                password,
                purpose,
                hashing,
            ),
            Pending::Show { username, password } => wrapped_db_retrieve(found, username, password),
            _ => stray_reply(),
        },
        StoreReply::Done(changed) => match pending {
            Pending::Insert { username, password } => if changed {
                Step::Ask(StoreRequest::Retrieve { username }, Pending::Show { username, password: Some(password) })
            } else {
                Step::Show(Page::Register(Register { username_err: "that username is taken !", password_err: "" }))
            },
            Pending::Update { username, password } => Step::Ask(
                StoreRequest::Retrieve { username },
                Pending::Show { username, password: Some(password) },
            ),
            Pending::Admin => Step::Show(Page::Admin(Admin)),
            _ => stray_reply(),
        },
    }
}

/// Reads a label and takes the first step towards its page. A label that
/// is no query is answered with the failure, and the store is not asked.
pub fn handle_query<'a>(string: &'a str, admin_secret: &str, hashing: Hashing) -> (step: Step<'a>)
    ensures
        match parse_label(string@, admin_secret@) {
            Err(failure) => step matches Step::Show(Page::Rejected(reported)) && reported@ == failure,
            Ok(read) => exists|query: Query<'a>|
                query@ == read && query.well_formed() && #[trigger] dispatch_post(query, hashing, step),
        },
{
    match parse_query(string, admin_secret) {
        Err(failure) => Step::Show(Page::Rejected(failure)),
        Ok(query) => dispatch(query, hashing),
    }
}

/// A query to tick or clear a box writes only behind the right password.
/// Its first step asks for the user. Where the password then opens the
/// account, the next step asks for one update, whose masks turn any board
/// into that board with the box ticked or cleared; where it does not, the
/// next step shows a page and the store is asked nothing more.
pub proof fn lemma_write_needs_password(
    query: Query<'_>,
    hashing: Hashing,
    found: Option<User>,
    first: Step<'_>,
    second: Step<'_>,
    boxes: u64,
)
    requires
        query matches Query::SetCell { .. },
        query.well_formed(),
        dispatch_post(query, hashing, first),
        first matches Step::Ask(_, pending) && resume_post(pending, StoreReply::User(found), hashing, second),
    ensures
        first matches Step::Ask(StoreRequest::Retrieve { username }, _) && username == query->SetCell_username,
        match authenticates(found, query->SetCell_password@, hashing) {
            Some(true) => second matches Step::Ask(StoreRequest::Update { username, set, keep }, _) && {
                &&& username == query->SetCell_username
                &&& (boxes | set) & keep == spec_set_box(
                    boxes,
                    query->SetCell_x,
                    query->SetCell_y,
                    query->SetCell_checked,
                )
            },
            _ => second is Show,
        },
{
    lemma_masks_apply_write(boxes, query->SetCell_x, query->SetCell_y, query->SetCell_checked);
}

} // verus!
