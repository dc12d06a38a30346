//! Reading a hostname as a command.
//!
//! The label in front of the site's own name is cut at every `-`. The first
//! segment names the kind of query; each kind has templates that fix how
//! many segments follow, which of them are fixed words and which carry a
//! value.
use vstd::prelude::*;
use crate::text::{segment_views, split, split_dashes, str_eq, Scan};
use crate::{HEIGHT, WIDTH};

verus! {

/// The kinds of query, one for each word that may open a label.
#[derive(Clone, Copy, Debug, PartialEq, Eq, Structural)]
pub enum QueryKind {
    Index,
    Login,
    Register,
    Browse,
    Logout,
    Get,
    Check,
    Uncheck,
    Admin,
}

impl QueryKind {
    /// The word that opens a label of this kind.
    pub open spec fn keyword(self) -> Seq<char> {
        match self {
            QueryKind::Index => "index"@,
            QueryKind::Login => "login"@,
            QueryKind::Register => "register"@,
            QueryKind::Browse => "browse"@,
            QueryKind::Logout => "logout"@,
            QueryKind::Get => "get"@,
            QueryKind::Check => "check"@,
            QueryKind::Uncheck => "uncheck"@,
            QueryKind::Admin => "admin"@,
        }
    }

    /// The word that opens a label of this kind.
    pub fn name(self) -> (word: &'static str)
        ensures
            word@ == self.keyword(),
    {
        match self {
            QueryKind::Index => "index",
            QueryKind::Login => "login",
            QueryKind::Register => "register",
            QueryKind::Browse => "browse",
            QueryKind::Logout => "logout",
            QueryKind::Get => "get",
            QueryKind::Check => "check",
            QueryKind::Uncheck => "uncheck",
            QueryKind::Admin => "admin",
        }
    }
}

/// The kind that `segment` opens, if it is one of the nine words.
pub open spec fn kind_of(segment: Seq<char>) -> Option<QueryKind> {
    if segment == "index"@ {
        Some(QueryKind::Index)
    } else if segment == "login"@ {
        Some(QueryKind::Login)
    } else if segment == "register"@ {
        Some(QueryKind::Register)
    } else if segment == "browse"@ {
        Some(QueryKind::Browse)
    } else if segment == "logout"@ {
        Some(QueryKind::Logout)
    } else if segment == "get"@ {
        Some(QueryKind::Get)
    } else if segment == "check"@ {
        Some(QueryKind::Check)
    } else if segment == "uncheck"@ {
        Some(QueryKind::Uncheck)
    } else if segment == "admin"@ {
        Some(QueryKind::Admin)
    } else {
        None
    }
}

/// Reads the first segment of a label.
pub fn recognize(segment: &str) -> (kind: Option<QueryKind>)
    ensures
        kind == kind_of(segment@),
{
    if str_eq(segment, "index") {
        Some(QueryKind::Index)
    } else if str_eq(segment, "login") {
        Some(QueryKind::Login)
    } else if str_eq(segment, "register") {
        Some(QueryKind::Register)
    } else if str_eq(segment, "browse") {
        Some(QueryKind::Browse)
    } else if str_eq(segment, "logout") {
        Some(QueryKind::Logout)
    } else if str_eq(segment, "get") {
        Some(QueryKind::Get)
    } else if str_eq(segment, "check") {
        Some(QueryKind::Check)
    } else if str_eq(segment, "uncheck") {
        Some(QueryKind::Uncheck)
    } else if str_eq(segment, "admin") {
        Some(QueryKind::Admin)
    } else {
        None
    }
}

/// What an administrator can ask for.
#[derive(Clone, Copy, Debug, PartialEq, Eq, Structural)]
pub enum AdminCommand {
    /// Show the administrator's page.
    Panel,
    /// Mark a user as verified.
    Verify,
    /// Take the mark away again.
    Unverify,
    /// Remove a user.
    Delete,
    /// List every username.
    Dump,
}

impl AdminCommand {
    /// Whether the command names a user.
    pub open spec fn takes_target(self) -> bool {
        self == AdminCommand::Verify || self == AdminCommand::Unverify || self == AdminCommand::Delete
    }
}

/// A query sent to the site. Names and passwords are slices of the label
/// that was read.
#[derive(Clone, Copy, Debug, PartialEq, Eq)]
pub enum Query<'a> {
    Index,
    LoginPage,
    RegisterPage,
    BrowsePage,
    LoginAttempt { username: &'a str, password: &'a str },
    RegisterAttempt { username: &'a str, password: &'a str },
    Logout { username: &'a str, password: &'a str },
    GetGrid { username: &'a str },
    SetCell { x: u32, y: u32, checked: bool, username: &'a str, password: &'a str },
    AdminAction { subcommand: AdminCommand, target_username: Option<&'a str> },
}

impl<'a> Query<'a> {
    /// What holds of every query that was read from a label: a box lies on
    /// the board, and an administrator's command names a user exactly where
    /// it takes one.
    pub open spec fn well_formed(&self) -> bool {
        match *self {
            Query::SetCell { x, y, .. } => x < WIDTH && y < HEIGHT,
            Query::AdminAction { subcommand, target_username } => subcommand.takes_target()
                == target_username is Some,
            _ => true,
        }
    }
}

/// A query as contracts speak of it: every string by its characters.
pub ghost enum QueryView {
    Index,
    LoginPage,
    RegisterPage,
    BrowsePage,
    LoginAttempt { username: Seq<char>, password: Seq<char> },
    RegisterAttempt { username: Seq<char>, password: Seq<char> },
    Logout { username: Seq<char>, password: Seq<char> },
    GetGrid { username: Seq<char> },
    SetCell { x: u32, y: u32, checked: bool, username: Seq<char>, password: Seq<char> },
    AdminAction { subcommand: AdminCommand, target_username: Option<Seq<char>> },
}

impl<'a> View for Query<'a> {
    type V = QueryView;

    open spec fn view(&self) -> QueryView {
        match *self {
            Query::Index => QueryView::Index,
            Query::LoginPage => QueryView::LoginPage,
            Query::RegisterPage => QueryView::RegisterPage,
            Query::BrowsePage => QueryView::BrowsePage,
            Query::LoginAttempt { username, password } => QueryView::LoginAttempt {
                username: username@,
                password: password@,
            },
            Query::RegisterAttempt { username, password } => QueryView::RegisterAttempt {
                username: username@,
                password: password@,
            },
            Query::Logout { username, password } => QueryView::Logout {
                username: username@,
                password: password@,
            },
            Query::GetGrid { username } => QueryView::GetGrid { username: username@ },
            Query::SetCell { x, y, checked, username, password } => QueryView::SetCell {
                x,
                y,
                checked,
                username: username@,
                password: password@,
            },
            Query::AdminAction { subcommand, target_username } => QueryView::AdminAction {
                subcommand,
                target_username: match target_username {
                    Some(name) => Some(name@),
                    None => None,
                },
            },
        }
    }
}

/// Why a hostname could not be read as a query.
#[derive(Debug, PartialEq, Eq)]
#[allow(inconsistent_fields)]
pub enum CatastrophicFailure {
    /// The hostname does not end in the site's own name.
    BadHostname,
    /// The first segment is none of the nine words; it is carried along.
    UnknownQueryKind(String),
    /// The label has `actual` segments where the kind takes `expected`.
    InvalidLength { expected: usize, actual: usize, kind: QueryKind },
    /// The segment at `position` is not the word `expected`.
    ExpectedLiteral { expected: String, position: usize, kind: QueryKind },
    /// The segment at `position` is not a number of the board.
    Unparseable { position: usize, kind: QueryKind },
    /// The segment at `position` is none of the words allowed there.
    IllegalToken { position: usize, kind: QueryKind },
}

/// A failure as contracts speak of it: every string by its characters.
#[allow(inconsistent_fields)]
pub ghost enum Rejection {
    BadHostname,
    UnknownQueryKind(Seq<char>),
    InvalidLength { expected: usize, actual: usize, kind: QueryKind },
    ExpectedLiteral { expected: Seq<char>, position: usize, kind: QueryKind },
    Unparseable { position: usize, kind: QueryKind },
    IllegalToken { position: usize, kind: QueryKind },
}

impl View for CatastrophicFailure {
    type V = Rejection;

    open spec fn view(&self) -> Rejection {
        match *self {
            CatastrophicFailure::BadHostname => Rejection::BadHostname,
            CatastrophicFailure::UnknownQueryKind(segment) => Rejection::UnknownQueryKind(segment@),
            CatastrophicFailure::InvalidLength { expected, actual, kind } => Rejection::InvalidLength {
                expected,
                actual,
                kind,
            },
            CatastrophicFailure::ExpectedLiteral { expected, position, kind } => Rejection::ExpectedLiteral {
                expected: expected@,
                position,
                kind,
            },
            CatastrophicFailure::Unparseable { position, kind } => Rejection::Unparseable { position, kind },
            CatastrophicFailure::IllegalToken { position, kind } => Rejection::IllegalToken { position, kind },
        }
    }
}

/// The outcome of reading a label, every string by its characters.
pub open spec fn outcome_view(outcome: Result<Query<'_>, CatastrophicFailure>) -> Result<QueryView, Rejection> {
    match outcome {
        Ok(query) => Ok(query@),
        Err(failure) => Err(failure@),
    }
}

/// Whether a template slot stands for any value rather than a fixed word.
pub open spec fn is_wildcard(slot: Seq<char>) -> bool {
    slot == "_"@
}

/// Whether segment `position` breaks the template: the slot there holds a
/// word and the segment is another.
pub open spec fn mismatch_at(segments: Seq<Seq<char>>, template: Seq<Seq<char>>, position: int) -> bool {
    !is_wildcard(template[position]) && segments[position] != template[position]
}

/// The first position from `from` on at which the segments break the template.
pub open spec fn first_mismatch(segments: Seq<Seq<char>>, template: Seq<Seq<char>>, from: int) -> Option<int>
    decreases template.len() - from,
{
    if from < 0 || from >= template.len() {
        None
    } else if mismatch_at(segments, template, from) {
        Some(from)
    } else {
        first_mismatch(segments, template, from + 1)
    }
}

/// Whether the segments fit the template: as many as it has slots, and at
/// every slot that holds a word, that word.
pub open spec fn fits(segments: Seq<Seq<char>>, template: Seq<Seq<char>>) -> bool {
    &&& segments.len() == template.len()
    &&& forall|i: int| 0 <= i < template.len() ==> !mismatch_at(segments, template, i)
}

/// What is wrong with the segments as an instance of the template, if
/// anything: first their number, then the first word out of place.
pub open spec fn template_failure(
    segments: Seq<Seq<char>>,
    template: Seq<Seq<char>>,
    kind: QueryKind,
) -> Option<Rejection> {
    if segments.len() != template.len() {
        Some(
            Rejection::InvalidLength {
                expected: template.len() as usize,
                actual: segments.len() as usize,
                kind,
            },
        )
    } else {
        match first_mismatch(segments, template, 0) {
            Some(position) => Some(
                Rejection::ExpectedLiteral {
                    expected: template[position],
                    position: position as usize,
                    kind,
                },
            ),
            None => None,
        }
    }
}

/// `first_mismatch` finds the least position that breaks the template, and
/// none exactly when no position from `from` on breaks it.
pub proof fn lemma_first_mismatch(segments: Seq<Seq<char>>, template: Seq<Seq<char>>, from: int)
    requires
        0 <= from,
    ensures
        match first_mismatch(segments, template, from) {
            Some(position) => {
                &&& from <= position < template.len()
                &&& mismatch_at(segments, template, position)
                &&& forall|i: int| from <= i < position ==> !mismatch_at(segments, template, i)
            },
            None => forall|i: int| from <= i < template.len() ==> !mismatch_at(segments, template, i),
        },
    decreases template.len() - from,
{
    if from < template.len() && !mismatch_at(segments, template, from) {
        lemma_first_mismatch(segments, template, from + 1);
    }
}

/// Segments fail a template exactly when they do not fit it.
pub proof fn lemma_template_failure(segments: Seq<Seq<char>>, template: Seq<Seq<char>>, kind: QueryKind)
    ensures
        template_failure(segments, template, kind) is None <==> fits(segments, template),
{
    lemma_first_mismatch(segments, template, 0);
}

/// Holds the segments of a label against a template, in which `_` stands
/// for any value. Reports a wrong number of segments before a wrong word,
/// and of several wrong words the first.
pub fn require_params<const N: usize>(query: &Vec<&str>, params: [&str; N], kind: QueryKind) -> (outcome: Result<
    (),
    CatastrophicFailure,
>)
    ensures
        match outcome {
            Ok(()) => template_failure(segment_views(query@), segment_views(params@), kind) is None,
            Err(failure) => template_failure(segment_views(query@), segment_views(params@), kind) == Some(
                failure@,
            ),
        },
{
    let ghost segments = segment_views(query@);
    let ghost template = segment_views(params@);
    if query.len() != N {
        return Err(CatastrophicFailure::InvalidLength { expected: N, actual: query.len(), kind });
    }
    let mut position: usize = 0;
    while position < N
        invariant
            position <= N,
            N == params@.len(),
            query@.len() == N,
            segments == segment_views(query@),
            template == segment_views(params@),
            first_mismatch(segments, template, 0) == first_mismatch(segments, template, position as int),
        decreases N - position,
    {
        let word: &str = params[position];
        if !str_eq(word, "_") && !str_eq(query[position], word) {
            return Err(
                CatastrophicFailure::ExpectedLiteral { expected: word.to_owned(), position, kind },
            );
        }
        position += 1;
    }
    Ok(())
}

/// Whether the segments of a label fit a template, in which `_` stands for
/// any value.
pub fn check<const N: usize>(query: &Vec<&str>, params: [&str; N]) -> (fitting: bool)
    ensures
        fitting == fits(segment_views(query@), segment_views(params@)),
{
    if query.len() != N {
        return false;
    }
    let mut position: usize = 0;
    while position < N
        invariant
            position <= N,
            N == params@.len(),
            query@.len() == N,
            forall|i: int| 0 <= i < position ==> !mismatch_at(segment_views(query@), segment_views(params@), i),
        decreases N - position,
    {
        let word: &str = params[position];
        if !str_eq(word, "_") && !str_eq(query[position], word) {
            assert(mismatch_at(segment_views(query@), segment_views(params@), position as int));
            return false;
        }
        position += 1;
    }
    true
}

/// Whether `c` is one of the ten decimal digits.
pub open spec fn is_digit(c: char) -> bool {
    '0' <= c <= '9'
}

/// The number that a run of decimal digits writes.
pub open spec fn digits_value(digits: Seq<char>) -> nat
    decreases digits.len(),
{
    if digits.len() == 0 {
        0
    } else {
        digits_value(digits.drop_last()) * 10 + (digits.last() as u32 - '0' as u32) as nat
    }
}

/// What is left of `text` once a leading `+` is taken off.
pub open spec fn unsigned(text: Seq<char>) -> Seq<char> {
    if text.len() > 0 && text[0] == '+' {
        text.drop_first()
    } else {
        text
    }
}

/// The number that `text` writes: one or more decimal digits, which a single
/// `+` may precede. Any other text writes no number.
pub open spec fn unsigned_value(text: Seq<char>) -> Option<nat> {
    let digits = unsigned(text);
    if digits.len() > 0 && (forall|i: int| 0 <= i < digits.len() ==> is_digit(digits[i])) {
        Some(digits_value(digits))
    } else {
        None
    }
}

/// The coordinate that `text` writes: a number below `limit`.
pub open spec fn coordinate(text: Seq<char>, limit: u32) -> Option<u32> {
    match unsigned_value(text) {
        Some(value) => if value < limit {
            Some(value as u32)
        } else {
            None
        },
        None => None,
    }
}

/// Reads a coordinate: a decimal number below `limit`, however many zeros
/// lead it and however long it is.
pub fn parse_coordinate(text: &str, limit: u32) -> (value: Option<u32>)
    ensures
        value == coordinate(text@, limit),
{
    let scan = Scan::new(text);
    let n = scan.len();
    let first: usize = if n > 0 && scan.at(0) == '+' {
        1
    } else {
        0
    };
    let ghost digits = text@.subrange(first as int, n as int);
    assert(digits =~= unsigned(text@));
    if first == n {
        return None;
    }
    // `seen` is the number read so far, held at `limit` once it has reached it.
    let mut seen: u32 = 0;
    let mut i: usize = first;
    assert(digits.take(0) =~= Seq::<char>::empty());
    while i < n
        invariant
            scan.wf(),
            scan.chars() == text@,
            n == text@.len(),
            first <= i <= n,
            digits == text@.subrange(first as int, n as int),
            digits == unsigned(text@),
            forall|k: int| 0 <= k < i - first ==> is_digit(digits[k]),
            seen <= limit,
            seen as nat == if digits_value(digits.take(i - first)) < limit {
                digits_value(digits.take(i - first))
            } else {
                limit as nat
            },
        decreases n - i,
    {
        let c = scan.at(i);
        let code: u32 = c as u32;
        if code < 48 || code > 57 {
            assert(!is_digit(digits[i - first]));
            return None;
        }
        let ghost shorter = digits.take(i - first);
        let ghost longer = digits.take(i - first + 1);
        assert(longer.drop_last() =~= shorter);
        assert(longer.last() == c);
        let next: u64 = seen as u64 * 10 + (code - 48) as u64;
        seen = if next >= limit as u64 {
            limit
        } else {
            next as u32
        };
        i += 1;
    }
    assert(digits.take(n - first) =~= digits);
    if seen < limit {
        Some(seen)
    } else {
        None
    }
}

/// Reads the segment at `segment` with `parser`, and reports a segment that
/// `parser` turns down as unparseable at that position.
pub fn require_parse<T, F: Fn(&str) -> Option<T>>(
    query: &Vec<&str>,
    segment: usize,
    kind: QueryKind,
    parser: F,
) -> (outcome: Result<T, CatastrophicFailure>)
    requires
        segment < query@.len(),
        parser.requires((query@[segment as int],)),
    ensures
        match outcome {
            Ok(value) => parser.ensures((query@[segment as int],), Some(value)),
            Err(failure) => {
                &&& parser.ensures((query@[segment as int],), None)
                &&& failure@ == (Rejection::Unparseable { position: segment, kind })
            },
        },
{
    match parser(query[segment]) {
        Some(value) => Ok(value),
        None => Err(CatastrophicFailure::Unparseable { position: segment, kind }),
    }
}

/// The label of a hostname's last part: what follows its last `.`, or all
/// of it where it has none.
pub open spec fn last_label(name: Seq<char>) -> Seq<char>
    decreases name.len(),
{
    if name.len() == 0 || name.last() == '.' {
        Seq::empty()
    } else {
        last_label(name.drop_last()).push(name.last())
    }
}

/// The label that `host` carries for the site `site`: `host` must end in a
/// `.` followed by `site`, and the label is what stands directly before
/// that `.`, back to the `.` before it or to the start.
pub open spec fn host_label(host: Seq<char>, site: Seq<char>) -> Option<Seq<char>> {
    let cut = host.len() - site.len() - 1;
    if cut >= 0 && host.subrange(cut, host.len() as int) == seq!['.'] + site {
        Some(last_label(host.take(cut)))
    } else {
        None
    }
}

/// Cuts the query label out of a hostname. Labels further to the left are
/// dropped, and no character of the label is looked at.
pub fn parse_host<'a>(host: &'a str, site: &str) -> (outcome: Result<&'a str, CatastrophicFailure>)
    ensures
        match outcome {
            Ok(label) => host_label(host@, site@) == Some(label@),
            Err(failure) => failure@ == Rejection::BadHostname && host_label(host@, site@) is None,
        },
{
    let whole = Scan::new(host);
    let tail = Scan::new(site);
    let n = whole.len();
    let m = tail.len();
    if n <= m {
        return Err(CatastrophicFailure::BadHostname);
    }
    let cut: usize = n - m - 1;
    let ghost ending = host@.subrange(cut as int, n as int);
    let ghost wanted = seq!['.'] + site@;
    if whole.at(cut) != '.' {
        assert(ending[0] != wanted[0]);
        return Err(CatastrophicFailure::BadHostname);
    }
    let mut i: usize = 0;
    while i < m
        invariant
            whole.wf(),
            tail.wf(),
            whole.chars() == host@,
            tail.chars() == site@,
            n == host@.len(),
            m == site@.len(),
            cut == n - m - 1,
            i <= m,
            ending == host@.subrange(cut as int, n as int),
            wanted == seq!['.'] + site@,
            forall|k: int| 0 <= k < i + 1 ==> ending[k] == wanted[k],
        decreases m - i,
    {
        if whole.at(cut + 1 + i) != tail.at(i) {
            assert(ending[i + 1] != wanted[i + 1]);
            return Err(CatastrophicFailure::BadHostname);
        }
        i += 1;
    }
    assert(ending =~= wanted);
    let ghost front = host@.take(cut as int);
    let mut start: usize = cut;
    let mut found = false;
    assert(front.take(cut as int) =~= front);
    assert(front.subrange(cut as int, cut as int) =~= Seq::<char>::empty());
    assert(last_label(front) + Seq::<char>::empty() =~= last_label(front));
    while start > 0 && !found
        invariant
            whole.wf(),
            whole.chars() == host@,
            start <= cut < n,
            n == host@.len(),
            front == host@.take(cut as int),
            found ==> start > 0 && front[start - 1] == '.',
            last_label(front) == last_label(front.take(start as int)) + front.subrange(
                start as int,
                cut as int,
            ),
        decreases start + if found { 0int } else { 1int },
    {
        if whole.at(start - 1) == '.' {
            found = true;
        } else {
            let ghost longer = front.take(start as int);
            let ghost shorter = front.take(start - 1);
            assert(longer.drop_last() =~= shorter);
            assert(last_label(longer) == last_label(shorter).push(front[start - 1]));
            assert(last_label(shorter).push(front[start - 1]) + front.subrange(start as int, cut as int)
                =~= last_label(shorter) + front.subrange(start - 1, cut as int));
            start -= 1;
        }
    }
    assert(last_label(front.take(start as int)) =~= Seq::<char>::empty());
    assert(front.subrange(start as int, cut as int) =~= host@.subrange(start as int, cut as int));
    assert(Seq::<char>::empty() + front.subrange(start as int, cut as int) =~= front.subrange(
        start as int,
        cut as int,
    ));
    Ok(whole.slice(start, cut))
}

/// The template of a query that is its opening word and nothing else.
pub open spec fn page_template(kind: QueryKind) -> Seq<Seq<char>> {
    seq![kind.keyword()]
}

/// The template of a query that carries a username and a password.
pub open spec fn credentials_template(kind: QueryKind) -> Seq<Seq<char>> {
    seq![kind.keyword(), "username"@, "_"@, "password"@, "_"@]
}

/// The template of a query for a user's board.
pub open spec fn board_template() -> Seq<Seq<char>> {
    seq!["get"@, "username"@, "_"@]
}

/// The template of a query that ticks or clears a box.
pub open spec fn cell_template(kind: QueryKind) -> Seq<Seq<char>> {
    seq![kind.keyword(), "_"@, "_"@, "username"@, "_"@, "password"@, "_"@]
}

/// Reads segments as a query that is its opening word alone.
pub open spec fn parse_page(segments: Seq<Seq<char>>, kind: QueryKind, page: QueryView) -> Result<
    QueryView,
    Rejection,
> {
    match template_failure(segments, page_template(kind), kind) {
        Some(failure) => Err(failure),
        None => Ok(page),
    }
}

/// Reads segments as a query with a username and a password: an attempt
/// to log in or to register, or else a logout.
pub open spec fn parse_credentials(segments: Seq<Seq<char>>, kind: QueryKind) -> Result<
    QueryView,
    Rejection,
> {
    match template_failure(segments, credentials_template(kind), kind) {
        Some(failure) => Err(failure),
        None => Ok(
            match kind {
                QueryKind::Login => QueryView::LoginAttempt { username: segments[2], password: segments[4] },
                QueryKind::Register => QueryView::RegisterAttempt {
                    username: segments[2],
                    password: segments[4],
                },
                _ => QueryView::Logout { username: segments[2], password: segments[4] },
            },
        ),
    }
}

/// Reads segments as a query that ticks (`check`) or clears (`uncheck`) a
/// box: first the template, then the column, then the row.
pub open spec fn parse_cell(segments: Seq<Seq<char>>, kind: QueryKind) -> Result<QueryView, Rejection> {
    match template_failure(segments, cell_template(kind), kind) {
        Some(failure) => Err(failure),
        None => match coordinate(segments[1], WIDTH) {
            None => Err(Rejection::Unparseable { position: 1, kind }),
            Some(x) => match coordinate(segments[2], HEIGHT) {
                None => Err(Rejection::Unparseable { position: 2, kind }),
                Some(y) => Ok(
                    QueryView::SetCell {
                        x,
                        y,
                        checked: kind == QueryKind::Check,
                        username: segments[4],
                        password: segments[6],
                    },
                ),
            },
        },
    }
}

/// Reads segments that open with `admin`. Without the secret in second
/// place the label is turned down as if `admin` were no word at all, before
/// anything else about it is told.
pub open spec fn parse_admin(segments: Seq<Seq<char>>, secret: Seq<char>) -> Result<QueryView, Rejection> {
    let kind = QueryKind::Admin;
    if segments.len() < 2 {
        Err(Rejection::InvalidLength { expected: 2, actual: segments.len() as usize, kind })
    } else if segments[1] != secret {
        Err(Rejection::UnknownQueryKind(segments[0]))
    } else if segments.len() == 2 {
        Ok(QueryView::AdminAction { subcommand: AdminCommand::Panel, target_username: None })
    } else if segments.len() != 4 {
        Err(Rejection::InvalidLength { expected: 4, actual: segments.len() as usize, kind })
    } else if segments[2] == "verify"@ {
        Ok(QueryView::AdminAction { subcommand: AdminCommand::Verify, target_username: Some(segments[3]) })
    } else if segments[2] == "unverify"@ {
        Ok(QueryView::AdminAction { subcommand: AdminCommand::Unverify, target_username: Some(segments[3]) })
    } else if segments[2] == "delete"@ {
        Ok(QueryView::AdminAction { subcommand: AdminCommand::Delete, target_username: Some(segments[3]) })
    } else if segments[2] == "username"@ {
        if segments[3] == "dump"@ {
            Ok(QueryView::AdminAction { subcommand: AdminCommand::Dump, target_username: None })
        } else {
            Err(Rejection::ExpectedLiteral { expected: "dump"@, position: 3, kind })
        }
    } else {
        Err(Rejection::IllegalToken { position: 2, kind })
    }
}

/// Reads the segments of a label. The first segment picks the kind. `login`
/// and `register` alone ask for a page; with anything after them they are
/// held against the template with credentials, so that a label that is too
/// long or too short is never taken for the bare word.
pub open spec fn parse_segments(segments: Seq<Seq<char>>, secret: Seq<char>) -> Result<QueryView, Rejection> {
    match kind_of(segments[0]) {
        None => Err(Rejection::UnknownQueryKind(segments[0])),
        Some(kind) => match kind {
            QueryKind::Index => parse_page(segments, kind, QueryView::Index),
            QueryKind::Browse => parse_page(segments, kind, QueryView::BrowsePage),
            QueryKind::Login => if segments.len() == 1 {
                Ok(QueryView::LoginPage)
            } else {
                parse_credentials(segments, kind)
            },
            QueryKind::Register => if segments.len() == 1 {
                Ok(QueryView::RegisterPage)
            } else {
                parse_credentials(segments, kind)
            },
            QueryKind::Logout => parse_credentials(segments, kind),
            QueryKind::Get => match template_failure(segments, board_template(), kind) {
                Some(failure) => Err(failure),
                None => Ok(QueryView::GetGrid { username: segments[2] }),
            },
            QueryKind::Check | QueryKind::Uncheck => parse_cell(segments, kind),
            QueryKind::Admin => parse_admin(segments, secret),
        },
    }
}

/// What a label says, or why it says nothing, given the administrator's
/// secret.
pub open spec fn parse_label(label: Seq<char>, secret: Seq<char>) -> Result<QueryView, Rejection> {
    parse_segments(split(label), secret)
}

/// Reads a query with a username in third and a password in fifth place.
fn read_credentials<'a>(sections: &Vec<&'a str>, kind: QueryKind) -> (outcome: Result<
    (&'a str, &'a str),
    CatastrophicFailure,
>)
    ensures
        match outcome {
            Ok(pair) => {
                &&& template_failure(segment_views(sections@), credentials_template(kind), kind) is None
                &&& sections@.len() == 5
                &&& pair.0@ == sections@[2]@
                &&& pair.1@ == sections@[4]@
            },
            Err(failure) => template_failure(segment_views(sections@), credentials_template(kind), kind)
                == Some(failure@),
        },
{
    let template = [kind.name(), "username", "_", "password", "_"];
    assert(segment_views(template@) =~= credentials_template(kind));
    match require_params(sections, template, kind) {
        Ok(()) => Ok((sections[2], sections[4])),
        Err(failure) => Err(failure),
    }
}

/// Reads a query that ticks or clears a box.
fn read_cell<'a>(sections: &Vec<&'a str>, kind: QueryKind) -> (outcome: Result<Query<'a>, CatastrophicFailure>)
    requires
        kind == QueryKind::Check || kind == QueryKind::Uncheck,
    ensures
        outcome_view(outcome) == parse_cell(segment_views(sections@), kind),
        outcome matches Ok(query) ==> query.well_formed(),
{
    let template = [kind.name(), "_", "_", "username", "_", "password", "_"];
    assert(segment_views(template@) =~= cell_template(kind));
    match require_params(sections, template, kind) {
        Ok(()) => {},
        Err(failure) => {
            return Err(failure);
        },
    }
    let column = |text: &str| -> (value: Option<u32>)
        ensures
            value == coordinate(text@, WIDTH),
        { parse_coordinate(text, WIDTH) };
    let row = |text: &str| -> (value: Option<u32>)
        ensures
            value == coordinate(text@, HEIGHT),
        { parse_coordinate(text, HEIGHT) };
    let x: u32 = match require_parse(sections, 1, kind, column) {
        Ok(x) => x,
        Err(failure) => {
            return Err(failure);
        },
    };
    let y: u32 = match require_parse(sections, 2, kind, row) {
        Ok(y) => y,
        Err(failure) => {
            return Err(failure);
        },
    };
    let checked = match kind {
        QueryKind::Check => true,
        _ => false,
    };
    Ok(Query::SetCell { x, y, checked, username: sections[4], password: sections[6] })
}

/// Reads a query that opens with `admin`.
fn read_admin<'a>(sections: &Vec<&'a str>, admin_secret: &str) -> (outcome: Result<
    Query<'a>,
    CatastrophicFailure,
>)
    requires
        sections@.len() >= 1,
    ensures
        outcome_view(outcome) == parse_admin(segment_views(sections@), admin_secret@),
        outcome matches Ok(query) ==> query.well_formed(),
{
    let kind = QueryKind::Admin;
    let count = sections.len();
    if count < 2 {
        return Err(CatastrophicFailure::InvalidLength { expected: 2, actual: count, kind });
    }
    if !str_eq(sections[1], admin_secret) {
        return Err(CatastrophicFailure::UnknownQueryKind(sections[0].to_owned()));
    }
    if count == 2 {
        return Ok(Query::AdminAction { subcommand: AdminCommand::Panel, target_username: None });
    }
    if count != 4 {
        return Err(CatastrophicFailure::InvalidLength { expected: 4, actual: count, kind });
    }
    let word = sections[2];
    let target = sections[3];
    if str_eq(word, "verify") {
        Ok(Query::AdminAction { subcommand: AdminCommand::Verify, target_username: Some(target) })
    } else if str_eq(word, "unverify") {
        Ok(Query::AdminAction { subcommand: AdminCommand::Unverify, target_username: Some(target) })
    } else if str_eq(word, "delete") {
        Ok(Query::AdminAction { subcommand: AdminCommand::Delete, target_username: Some(target) })
    } else if str_eq(word, "username") {
        if str_eq(target, "dump") {
            Ok(Query::AdminAction { subcommand: AdminCommand::Dump, target_username: None })
        } else {
            Err(CatastrophicFailure::ExpectedLiteral { expected: "dump".to_owned(), position: 3, kind })
        }
    } else {
        Err(CatastrophicFailure::IllegalToken { position: 2, kind })
    }
}

/// Reads a label as a query. `admin_secret` is the segment that must follow
/// `admin`. Every label gets an answer: a query, or the first thing that is
/// wrong with it.
pub fn parse_query<'a>(string: &'a str, admin_secret: &str) -> (outcome: Result<Query<'a>, CatastrophicFailure>)
    ensures
        outcome_view(outcome) == parse_label(string@, admin_secret@),
        kind_of(split(string@)[0]) is None ==> outcome_view(outcome) == Err::<QueryView, Rejection>(
            Rejection::UnknownQueryKind(split(string@)[0]),
        ),
        outcome matches Ok(query) ==> query.well_formed(),
{
    let sections = split_dashes(string);
    let ghost segments = segment_views(sections@);
    let first = sections[0];
    assert(first@ == segments[0]);
    let kind = match recognize(first) {
        Some(kind) => kind,
        None => {
            return Err(CatastrophicFailure::UnknownQueryKind(first.to_owned()));
        },
    };
    match kind {
        QueryKind::Index => {
            let template = ["index"];
            assert(segment_views(template@) =~= page_template(kind));
            match require_params(&sections, template, kind) {
                Ok(()) => Ok(Query::Index),
                Err(failure) => Err(failure),
            }
        },
        QueryKind::Browse => {
            let template = ["browse"];
            assert(segment_views(template@) =~= page_template(kind));
            match require_params(&sections, template, kind) {
                Ok(()) => Ok(Query::BrowsePage),
                Err(failure) => Err(failure),
            }
        },
        QueryKind::Login => {
            if sections.len() == 1 {
                return Ok(Query::LoginPage);
            }
            match read_credentials(&sections, kind) {
                Ok((username, password)) => Ok(Query::LoginAttempt { username, password }),
                Err(failure) => Err(failure),
            }
        },
        QueryKind::Register => {
            if sections.len() == 1 {
                return Ok(Query::RegisterPage);
            }
            match read_credentials(&sections, kind) {
                Ok((username, password)) => Ok(Query::RegisterAttempt { username, password }),
                Err(failure) => Err(failure),
            }
        },
        QueryKind::Logout => {
            match read_credentials(&sections, kind) {
                Ok((username, password)) => Ok(Query::Logout { username, password }),
                Err(failure) => Err(failure),
            }
        },
        QueryKind::Get => {
            let template = ["get", "username", "_"];
            assert(segment_views(template@) =~= board_template());
            match require_params(&sections, template, kind) {
                Ok(()) => Ok(Query::GetGrid { username: sections[2] }),
                Err(failure) => Err(failure),
            }
        },
        QueryKind::Check | QueryKind::Uncheck => read_cell(&sections, kind),
        QueryKind::Admin => read_admin(&sections, admin_secret),
    }
}

} // verus!
