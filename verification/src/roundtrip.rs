//! Writing a query as a label, and what reading promises about labels.
//!
//! `spell` gives the segments that write a query. The lemmas here say that
//! reading is the inverse of spelling, and which labels reading turns down.
use vstd::prelude::*;
use crate::parse::{
    board_template, cell_template, coordinate, credentials_template, digits_value, fits, host_label, is_wildcard,
    kind_of,
    last_label, lemma_template_failure, mismatch_at, page_template, parse_label, parse_segments, unsigned, unsigned_value, AdminCommand,
    Rejection, QueryKind, QueryView,
};
use crate::text::{all_dash_free, dash_free, join, lemma_split_join, split};
use crate::{HEIGHT, WIDTH};

verus! {

/// The digit that writes `n`, for `n` below ten.
pub open spec fn digit_char(n: u32) -> char {
    ('0' as u32 + n) as char
}

/// The word that asks for `command`, for the commands that are asked for
/// with a word and a name.
pub open spec fn admin_word(command: AdminCommand) -> Seq<char> {
    match command {
        AdminCommand::Verify => "verify"@,
        AdminCommand::Unverify => "unverify"@,
        _ => "delete"@,
    }
}

/// Whether a query can be written as a label: its names and passwords hold
/// no `-`, its box lies on the board, and it names a user exactly where the
/// command takes one.
pub open spec fn spellable(query: QueryView) -> bool {
    match query {
        QueryView::LoginAttempt { username, password } => dash_free(username) && dash_free(password),
        QueryView::RegisterAttempt { username, password } => dash_free(username) && dash_free(password),
        QueryView::Logout { username, password } => dash_free(username) && dash_free(password),
        QueryView::GetGrid { username } => dash_free(username),
        QueryView::SetCell { x, y, checked, username, password } => {
            &&& x < WIDTH
            &&& y < HEIGHT
            &&& dash_free(username)
            &&& dash_free(password)
        },
        QueryView::AdminAction { subcommand, target_username } => match target_username {
            Some(name) => subcommand.takes_target() && dash_free(name),
            None => !subcommand.takes_target(),
        },
        _ => true,
    }
}

/// The segments that write `query`, with `secret` as the administrator's
/// secret.
pub open spec fn spell(query: QueryView, secret: Seq<char>) -> Seq<Seq<char>> {
    match query {
        QueryView::Index => seq!["index"@],
        QueryView::LoginPage => seq!["login"@],
        QueryView::RegisterPage => seq!["register"@],
        QueryView::BrowsePage => seq!["browse"@],
        QueryView::LoginAttempt { username, password } => seq![
            "login"@,
            "username"@,
            username,
            "password"@,
            password,
        ],
        QueryView::RegisterAttempt { username, password } => seq![
            "register"@,
            "username"@,
            username,
            "password"@,
            password,
        ],
        QueryView::Logout { username, password } => seq!["logout"@, "username"@, username, "password"@, password],
        QueryView::GetGrid { username } => seq!["get"@, "username"@, username],
        QueryView::SetCell { x, y, checked, username, password } => seq![
            if checked {
                "check"@
            } else {
                "uncheck"@
            },
            seq![digit_char(x)],
            seq![digit_char(y)],
            "username"@,
            username,
            "password"@,
            password,
        ],
        QueryView::AdminAction { subcommand, target_username } => match target_username {
            Some(name) => seq!["admin"@, secret, admin_word(subcommand), name],
            None => if subcommand == AdminCommand::Dump {
                seq!["admin"@, secret, "username"@, "dump"@]
            } else {
                seq!["admin"@, secret]
            },
        },
    }
}

/// Each kind's opening word holds no `-`, is no wildcard, and is read as
/// that kind.
pub proof fn lemma_opening_words(kind: QueryKind)
    ensures
        dash_free(kind.keyword()),
        !is_wildcard(kind.keyword()),
        kind_of(kind.keyword()) == Some(kind),
{
    reveal_strlit("_");
    reveal_strlit("index");
    reveal_strlit("login");
    reveal_strlit("register");
    reveal_strlit("browse");
    reveal_strlit("logout");
    reveal_strlit("get");
    reveal_strlit("check");
    reveal_strlit("uncheck");
    reveal_strlit("admin");
    assert("index"@[0] == 'i' && "login"@[0] == 'l' && "check"@[0] == 'c' && "admin"@[0] == 'a');
    assert("browse"@[0] == 'b' && "logout"@[0] == 'l');
    assert("register"@.len() == 8 && "uncheck"@.len() == 7 && "get"@.len() == 3);
}

/// The words that follow the opening word hold no `-`, and the words that
/// name an administrator's command differ from one another.
pub proof fn lemma_inner_words()
    ensures
        dash_free("username"@),
        dash_free("password"@),
        dash_free("verify"@),
        dash_free("unverify"@),
        dash_free("delete"@),
        dash_free("dump"@),
        "verify"@ != "unverify"@,
        "verify"@ != "delete"@,
        "verify"@ != "username"@,
        "unverify"@ != "delete"@,
        "unverify"@ != "username"@,
        "delete"@ != "username"@,
{
    reveal_strlit("username");
    reveal_strlit("password");
    reveal_strlit("verify");
    reveal_strlit("unverify");
    reveal_strlit("delete");
    reveal_strlit("dump");
    assert("verify"@[0] == 'v' && "delete"@[0] == 'd');
    assert("unverify"@[1] == 'n' && "username"@[1] == 's');
}

/// A single digit below `limit` is read as the coordinate it writes.
pub proof fn lemma_digit_is_coordinate(n: u32, limit: u32)
    requires
        n < limit,
        n < 10,
    ensures
        coordinate(seq![digit_char(n)], limit) == Some(n),
{
    let text = seq![digit_char(n)];
    assert(unsigned(text) == text);
    assert(text.drop_last() =~= Seq::<char>::empty());
    reveal_with_fuel(digits_value, 2);
    assert(digits_value(text) == n as nat);
}

/// The kind whose word opens the label that spells `query`.
pub open spec fn kind_spelled(query: QueryView) -> QueryKind {
    match query {
        QueryView::Index => QueryKind::Index,
        QueryView::LoginPage => QueryKind::Login,
        QueryView::RegisterPage => QueryKind::Register,
        QueryView::BrowsePage => QueryKind::Browse,
        QueryView::LoginAttempt { .. } => QueryKind::Login,
        QueryView::RegisterAttempt { .. } => QueryKind::Register,
        QueryView::Logout { .. } => QueryKind::Logout,
        QueryView::GetGrid { .. } => QueryKind::Get,
        QueryView::SetCell { checked, .. } => if checked {
            QueryKind::Check
        } else {
            QueryKind::Uncheck
        },
        QueryView::AdminAction { .. } => QueryKind::Admin,
    }
}

/// The segments that spell a query are free of `-` and open with the word
/// of the query's kind.
pub proof fn lemma_spelling_is_plain(query: QueryView, secret: Seq<char>)
    requires
        spellable(query),
        dash_free(secret),
    ensures
        spell(query, secret).len() >= 1,
        spell(query, secret)[0] == kind_spelled(query).keyword(),
        all_dash_free(spell(query, secret)),
{
    lemma_opening_words(kind_spelled(query));
    lemma_inner_words();
    match query {
        QueryView::SetCell { x, y, .. } => {
            assert(dash_free(seq![digit_char(x)]));
            assert(dash_free(seq![digit_char(y)]));
        },
        _ => {},
    }
}

/// Read without cutting, the segments that spell a query give it back.
pub proof fn lemma_read_spelled_segments(query: QueryView, secret: Seq<char>)
    requires
        spellable(query),
        dash_free(secret),
    ensures
        parse_segments(spell(query, secret), secret) == Ok::<QueryView, Rejection>(query),
{
    let segments = spell(query, secret);
    let kind = kind_spelled(query);
    lemma_opening_words(kind);
    assert(kind_of(segments[0]) == Some(kind));
    match query {
        QueryView::SetCell { x, y, checked, username, password } => {
            lemma_digit_is_coordinate(x, WIDTH);
            lemma_digit_is_coordinate(y, HEIGHT);
            lemma_template_failure(segments, cell_template(kind), kind);
            assert(fits(segments, cell_template(kind)));
        },
        QueryView::LoginAttempt { .. } | QueryView::RegisterAttempt { .. } | QueryView::Logout { .. } => {
            lemma_template_failure(segments, credentials_template(kind), kind);
            assert(fits(segments, credentials_template(kind)));
        },
        QueryView::GetGrid { .. } => {
            lemma_template_failure(segments, board_template(), kind);
            assert(fits(segments, board_template()));
        },
        QueryView::Index | QueryView::BrowsePage => {
            lemma_template_failure(segments, page_template(kind), kind);
            assert(fits(segments, page_template(kind)));
        },
        QueryView::AdminAction { .. } => {
            lemma_inner_words();
        },
        _ => {},
    }
}

/// Reading the label that spells a query gives that query back, with
/// exactly the names, passwords and coordinates that were spelled.
pub proof fn lemma_read_what_was_spelled(query: QueryView, secret: Seq<char>)
    requires
        spellable(query),
        dash_free(secret),
    ensures
        parse_label(join(spell(query, secret)), secret) == Ok::<QueryView, Rejection>(query),
{
    lemma_spelling_is_plain(query, secret);
    lemma_split_join(spell(query, secret));
    lemma_read_spelled_segments(query, secret);
}

/// A label whose first segment is none of the nine words is turned down as
/// of unknown kind, whatever follows.
pub proof fn lemma_unknown_word(label: Seq<char>, secret: Seq<char>)
    requires
        kind_of(split(label)[0]) is None,
    ensures
        parse_label(label, secret) == Err::<QueryView, Rejection>(
            Rejection::UnknownQueryKind(split(label)[0]),
        ),
{
}

/// A label that fits the template for ticking or clearing a box, but whose
/// column or row is a number off the board, is turned down as unparseable
/// at the first coordinate that is off, and yields no query.
pub proof fn lemma_off_board(segments: Seq<Seq<char>>, secret: Seq<char>, kind: QueryKind, x: nat, y: nat)
    requires
        kind == QueryKind::Check || kind == QueryKind::Uncheck,
        fits(segments, cell_template(kind)),
        all_dash_free(segments),
        unsigned_value(segments[1]) == Some(x),
        unsigned_value(segments[2]) == Some(y),
        !(x < WIDTH && y < HEIGHT),
    ensures
        parse_label(join(segments), secret) == Err::<QueryView, Rejection>(
            Rejection::Unparseable {
                position: if x >= WIDTH {
                    1
                } else {
                    2
                },
                kind,
            },
        ),
{
    lemma_opening_words(kind);
    assert(!mismatch_at(segments, cell_template(kind), 0));
    assert(segments[0] == kind.keyword());
    lemma_template_failure(segments, cell_template(kind), kind);
    lemma_split_join(segments);
}

/// A label that ticks or clears a box is read with the coordinates that
/// its second and third segment write, however they write them.
pub proof fn lemma_read_cell(
    checked: bool,
    column: Seq<char>,
    row: Seq<char>,
    username: Seq<char>,
    password: Seq<char>,
    secret: Seq<char>,
)
    requires
        dash_free(column),
        dash_free(row),
        dash_free(username),
        dash_free(password),
        coordinate(column, WIDTH) is Some,
        coordinate(row, HEIGHT) is Some,
    ensures
        parse_label(
            join(
                seq![
                    if checked {
                        "check"@
                    } else {
                        "uncheck"@
                    },
                    column,
                    row,
                    "username"@,
                    username,
                    "password"@,
                    password,
                ],
            ),
            secret,
        ) == Ok::<QueryView, Rejection>(
            QueryView::SetCell {
                x: coordinate(column, WIDTH)->0,
                y: coordinate(row, HEIGHT)->0,
                checked,
                username,
                password,
            },
        ),
{
    let kind = if checked {
        QueryKind::Check
    } else {
        QueryKind::Uncheck
    };
    let segments = seq![kind.keyword(), column, row, "username"@, username, "password"@, password];
    lemma_opening_words(kind);
    lemma_inner_words();
    assert(all_dash_free(segments));
    lemma_split_join(segments);
    lemma_template_failure(segments, cell_template(kind), kind);
    assert(fits(segments, cell_template(kind)));
}

/// A hostname made of a label without `.`, a `.` and the site's name, with
/// or without further labels in front, carries that label.
pub proof fn lemma_host_carries_label(front: Seq<char>, label: Seq<char>, site: Seq<char>)
    requires
        forall|i: int| 0 <= i < label.len() ==> label[i] != '.',
        front.len() == 0 || front.last() == '.',
    ensures
        host_label(front + label + seq!['.'] + site, site) == Some(label),
{
    let host = front + label + seq!['.'] + site;
    let cut = host.len() - site.len() - 1;
    assert(host.subrange(cut, host.len() as int) =~= seq!['.'] + site);
    assert(host.take(cut) =~= front + label);
    lemma_last_label_append(front, label);
}

/// Text without `.` that follows a name is the end of that name's last
/// label.
pub proof fn lemma_last_label_append(front: Seq<char>, tail: Seq<char>)
    requires
        forall|i: int| 0 <= i < tail.len() ==> tail[i] != '.',
    ensures
        last_label(front + tail) == last_label(front) + tail,
    decreases tail.len(),
{
    if tail.len() == 0 {
        assert(front + tail =~= front);
        assert(last_label(front) + tail =~= last_label(front));
    } else {
        let shorter = tail.drop_last();
        lemma_last_label_append(front, shorter);
        assert((front + tail).drop_last() =~= front + shorter);
        assert(last_label(front) + tail =~= (last_label(front) + shorter).push(tail.last()));
    }
}

} // verus!
