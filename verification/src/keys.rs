//! What each key does in each mode, and the slash commands.
use vstd::prelude::*;
use crate::api::{opt_str, string_of_str, user_page_url, user_page_url_spec};
use crate::app::{
    App, Feed, LoginField, Mode, Pane, ViewMode, close_reader_post, close_user_profile_post,
    comment_at_cursor, logout_post, mark_unseen_post, save_comment_pos_post,
    scroll_comment_down_post, scroll_comment_up_post, scroll_story_down_post,
    scroll_story_up_post, selected, start_login_post, start_search_post,
    toggle_comment_expand_post, toggle_current_comment_post,
};
use crate::text::{
    chars_of, digit_char, find_char, find_from, lemma_find_from_props, lowercase_of, push_str, string_of,
    string_of_range, to_lowercase_range, trim, trim_vec,
};

verus! {

broadcast use vstd::string::group_string_axioms;

/// A key as the application reads it.
#[derive(Debug, Clone, Copy, PartialEq, Eq, Structural)]
pub enum Key {
    Char(char),
    Enter,
    Esc,
    Tab,
    BackTab,
    Backspace,
    Up,
    Down,
    Other,
}

/// A line of text after an editing key: backspace removes the last character, a
/// character is appended, other keys leave it.
pub open spec fn edited(s: Seq<char>, key: Key) -> Seq<char> {
    match key {
        Key::Backspace => if s.len() > 0 {
            s.drop_last()
        } else {
            s
        },
        Key::Char(c) => s.push(c),
        _ => s,
    }
}

/// Applies an editing key to `s`.
fn edit(s: &mut String, key: Key)
    ensures
        final(s)@ == edited(old(s)@, key),
{
    match key {
        Key::Backspace => {
            s.pop();
        },
        Key::Char(c) => s.push(c),
        _ => {},
    }
}

// ---------------------------------------------------------------------------
// Login form
// ---------------------------------------------------------------------------

/// The state after a key in the login form; `submit` says whether to log in now.
pub open spec fn login_key_post(pre: App, post: App, key: Key, submit: bool) -> bool {
    match key {
        Key::Esc => !submit && post.status_message@ == "Login cancelled."@ && post == (App {
            mode: Mode::Normal,
            status_message: post.status_message,
            ..pre
        }),
        Key::Tab | Key::BackTab => !submit && post.login_state.field == (
        if pre.login_state.field == LoginField::Username {
            LoginField::Password
        } else {
            LoginField::Username
        }) && post.login_state.username == pre.login_state.username
            && post.login_state.password == pre.login_state.password
            && post.login_state.error == pre.login_state.error && post == (App {
            login_state: post.login_state,
            ..pre
        }),
        Key::Enter => if pre.login_state.field == LoginField::Username {
            !submit && post.login_state.field == LoginField::Password
                && post.login_state.username == pre.login_state.username
                && post.login_state.password == pre.login_state.password
                && post.login_state.error == pre.login_state.error && post == (App {
                login_state: post.login_state,
                ..pre
            })
        } else {
            submit && post == pre
        },
        Key::Backspace | Key::Char(_) => !submit && post.login_state.field
            == pre.login_state.field && post.login_state.error == pre.login_state.error && (
        if pre.login_state.field == LoginField::Username {
            post.login_state.username@ == edited(pre.login_state.username@, key)
                && post.login_state.password == pre.login_state.password
        } else {
            post.login_state.password@ == edited(pre.login_state.password@, key)
                && post.login_state.username == pre.login_state.username
        }) && post == (App { login_state: post.login_state, ..pre }),
        _ => !submit && post == pre,
    }
}

// ---------------------------------------------------------------------------
// Reader mode
// ---------------------------------------------------------------------------

/// The first section offset after `x`, if any.
pub open spec fn next_section(offsets: Seq<usize>, x: usize) -> Option<usize>
    decreases offsets.len(),
{
    if offsets.len() == 0 {
        None
    } else {
        match next_section(offsets.drop_last(), x) {
            Some(o) => Some(o),
            None => if offsets.last() > x {
                Some(offsets.last())
            } else {
                None
            },
        }
    }
}

/// The last section offset before `x`, if any.
pub open spec fn prev_section(offsets: Seq<usize>, x: usize) -> Option<usize>
    decreases offsets.len(),
{
    if offsets.len() == 0 {
        None
    } else if offsets.last() < x {
        Some(offsets.last())
    } else {
        prev_section(offsets.drop_last(), x)
    }
}

/// Half a page of `inner_h` lines, at least one line.
pub open spec fn half_page(inner_h: usize) -> usize {
    if inner_h / 2 > 1 {
        (inner_h / 2) as usize
    } else {
        1
    }
}

/// `a - b`, or 0.
pub open spec fn usub(a: usize, b: usize) -> usize {
    if a >= b {
        (a - b) as usize
    } else {
        0
    }
}

/// Where reader mode scrolls to after `key`, on a page of `inner_h` lines.
pub open spec fn reader_scroll_after(pre: App, key: Key, inner_h: usize) -> usize {
    let s = pre.reader_scroll;
    match key {
        Key::Char('j') | Key::Down => (s + 1) as usize,
        Key::Char('k') | Key::Up => usub(s, 1),
        Key::Char('d') => (s + half_page(inner_h)) as usize,
        Key::Char('u') => usub(s, half_page(inner_h)),
        Key::Char('g') => 0,
        Key::Char('G') => usub(pre.reader_total_lines, inner_h),
        Key::Char('n') => match next_section(pre.reader_section_offsets@, s) {
            Some(o) => o,
            None => s,
        },
        Key::Char('N') => match prev_section(pre.reader_section_offsets@, s) {
            Some(o) => o,
            None => s,
        },
        _ => s,
    }
}

/// Whether the scroll position that `key` moves to from `scroll`, on a page of `inner_h`
/// lines, fits in a `usize` (only moving down adds to it).
pub open spec fn reader_scroll_fits(scroll: usize, key: Key, inner_h: usize) -> bool {
    match key {
        Key::Char('j') | Key::Down => scroll + 1 <= usize::MAX,
        Key::Char('d') => scroll + half_page(inner_h) <= usize::MAX,
        _ => true,
    }
}

/// The state after a key in reader mode; `open` says whether to open the article in the
/// browser now.
pub open spec fn reader_key_post(pre: App, post: App, key: Key, inner_h: usize, open: bool) -> bool {
    match key {
        Key::Char('o') => open && close_reader_post(pre, post),
        Key::Esc | Key::Char('q') | Key::Char('r') => !open && close_reader_post(pre, post),
        _ => !open && post == (App { reader_scroll: reader_scroll_after(pre, key, inner_h), ..pre }),
    }
}

/// The first of `offsets` above `x`.
fn next_section_exec(offsets: &Vec<usize>, x: usize) -> (r: Option<usize>)
    ensures
        r == next_section(offsets@, x),
{
    let mut i: usize = 0;
    while i < offsets.len()
        invariant
            i <= offsets@.len(),
            next_section(offsets@.take(i as int), x) is None,
        decreases offsets@.len() - i,
    {
        proof {
            assert(offsets@.take(i + 1).drop_last() =~= offsets@.take(i as int));
        }
        if offsets[i] > x {
            proof {
                lemma_next_section_prefix(offsets@, x, i + 1);
            }
            return Some(offsets[i]);
        }
        i = i + 1;
    }
    assert(offsets@.take(offsets@.len() as int) =~= offsets@);
    None
}

/// Once a prefix finds an offset, every longer prefix finds the same one.
proof fn lemma_next_section_prefix(s: Seq<usize>, x: usize, k: int)
    requires
        0 < k <= s.len(),
        next_section(s.take(k), x) is Some,
    ensures
        next_section(s, x) == next_section(s.take(k), x),
    decreases s.len() - k,
{
    if k < s.len() {
        assert(s.take(k + 1).drop_last() =~= s.take(k));
        lemma_next_section_prefix(s, x, k + 1);
    } else {
        assert(s.take(k) =~= s);
    }
}

/// The last of `offsets` below `x`.
fn prev_section_exec(offsets: &Vec<usize>, x: usize) -> (r: Option<usize>)
    ensures
        r == prev_section(offsets@, x),
{
    let mut i: usize = offsets.len();
    assert(offsets@.take(offsets@.len() as int) =~= offsets@);
    while i > 0
        invariant
            i <= offsets@.len(),
            prev_section(offsets@.take(i as int), x) == prev_section(offsets@, x),
        decreases i,
    {
        proof {
            assert(offsets@.take(i as int).drop_last() =~= offsets@.take(i - 1));
        }
        if offsets[i - 1] < x {
            return Some(offsets[i - 1]);
        }
        i = i - 1;
    }
    None
}

// ---------------------------------------------------------------------------
// Slash commands
// ---------------------------------------------------------------------------

/// A slash command.
pub enum Command {
    Exit,
    Login,
    Logout,
    Feed(Feed),
    Bookmark,
    Search,
    Refresh,
    Open,
    Hn,
    Vote,
    /// Show a user's profile: the named one, or with no name the author under the cursor.
    User(String),
    Help,
    /// A verb that is not known.
    Unknown(String),
}

/// A command line cut into its verb (up to the first space) and its argument (the rest,
/// trimmed).
pub open spec fn split_command(s: Seq<char>) -> (Seq<char>, Seq<char>) {
    match find_from(s, 0, seq![' ']) {
        None => (s, Seq::empty()),
        Some(i) => (s.take(i), trim(s.skip(i + 1))),
    }
}

/// The feed a verb switches to.
pub open spec fn feed_verb(v: Seq<char>) -> Option<Feed> {
    if v == "top"@ || v == "1"@ {
        Some(Feed::Top)
    } else if v == "new"@ || v == "2"@ {
        Some(Feed::New)
    } else if v == "best"@ || v == "3"@ {
        Some(Feed::Best)
    } else if v == "ask"@ || v == "4"@ {
        Some(Feed::Ask)
    } else if v == "show"@ || v == "5"@ {
        Some(Feed::Show)
    } else if v == "jobs"@ || v == "6"@ {
        Some(Feed::Jobs)
    } else if v == "bookmarks"@ || v == "7"@ {
        Some(Feed::Bookmarks)
    } else {
        None
    }
}

/// What the command line `s` means, `logged_in` or not.
pub open spec fn command_matches(s: Seq<char>, logged_in: bool, r: Command) -> bool {
    let (verb, arg) = split_command(s);
    if verb == "q"@ || verb == "quit"@ || verb == "exit"@ {
        r is Exit
    } else if (verb == "login"@ || verb == "l"@) && !logged_in {
        r is Login
    } else if (verb == "logout"@ || verb == "l"@) && logged_in {
        r is Logout
    } else if feed_verb(verb) is Some {
        r == Command::Feed(feed_verb(verb)->Some_0)
    } else if verb == "bookmark"@ || verb == "b"@ {
        r is Bookmark
    } else if verb == "search"@ || verb == "s"@ {
        r is Search
    } else if verb == "refresh"@ || verb == "r"@ {
        r is Refresh
    } else if verb == "open"@ || verb == "o"@ {
        r is Open
    } else if verb == "hn"@ {
        r is Hn
    } else if verb == "vote"@ || verb == "v"@ {
        r is Vote
    } else if verb == "user"@ || verb == "u"@ || verb == "p"@ {
        r matches Command::User(a) && a@ == arg
    } else if verb == "help"@ || verb == "?"@ {
        r is Help
    } else {
        r matches Command::Unknown(v) && v@ == verb
    }
}

/// The names of the feeds' slash commands, in the order of their numbers.
pub open spec fn feed_names() -> Seq<Seq<char>> {
    seq!["top"@, "new"@, "best"@, "ask"@, "show"@, "jobs"@, "bookmarks"@]
}

/// A command line without a space is all verb.
proof fn lemma_no_space_is_verb(v: Seq<char>)
    requires
        forall|k: int| 0 <= k < v.len() ==> v[k] != ' ',
    ensures
        split_command(v) == (v, Seq::<char>::empty()),
{
    lemma_find_from_props(v, 0, seq![' ']);
    if let Some(i) = find_from(v, 0, seq![' ']) {
        assert(v.subrange(i, i + 1)[0] == v[i]);
    }
}

/// The characters of the verbs that come before and among the feed commands.
proof fn lemma_command_words()
    ensures
        "q"@ == seq!['q'],
        "quit"@ == seq!['q', 'u', 'i', 't'],
        "exit"@ == seq!['e', 'x', 'i', 't'],
        "login"@ == seq!['l', 'o', 'g', 'i', 'n'],
        "l"@ == seq!['l'],
        "logout"@ == seq!['l', 'o', 'g', 'o', 'u', 't'],
        "top"@ == seq!['t', 'o', 'p'],
        "1"@ == seq!['1'],
        "new"@ == seq!['n', 'e', 'w'],
        "2"@ == seq!['2'],
        "best"@ == seq!['b', 'e', 's', 't'],
        "3"@ == seq!['3'],
        "ask"@ == seq!['a', 's', 'k'],
        "4"@ == seq!['4'],
        "show"@ == seq!['s', 'h', 'o', 'w'],
        "5"@ == seq!['5'],
        "jobs"@ == seq!['j', 'o', 'b', 's'],
        "6"@ == seq!['6'],
        "bookmarks"@ == seq!['b', 'o', 'o', 'k', 'm', 'a', 'r', 'k', 's'],
        "7"@ == seq!['7'],
{
    reveal_strlit("q");
    reveal_strlit("quit");
    reveal_strlit("exit");
    reveal_strlit("login");
    reveal_strlit("l");
    reveal_strlit("logout");
    reveal_strlit("top");
    reveal_strlit("1");
    reveal_strlit("new");
    reveal_strlit("2");
    reveal_strlit("best");
    reveal_strlit("3");
    reveal_strlit("ask");
    reveal_strlit("4");
    reveal_strlit("show");
    reveal_strlit("5");
    reveal_strlit("jobs");
    reveal_strlit("6");
    reveal_strlit("bookmarks");
    reveal_strlit("7");
    assert("q"@ =~= seq!['q']);
    assert("quit"@ =~= seq!['q', 'u', 'i', 't']);
    assert("exit"@ =~= seq!['e', 'x', 'i', 't']);
    assert("login"@ =~= seq!['l', 'o', 'g', 'i', 'n']);
    assert("l"@ =~= seq!['l']);
    assert("logout"@ =~= seq!['l', 'o', 'g', 'o', 'u', 't']);
    assert("top"@ =~= seq!['t', 'o', 'p']);
    assert("1"@ =~= seq!['1']);
    assert("new"@ =~= seq!['n', 'e', 'w']);
    assert("2"@ =~= seq!['2']);
    assert("best"@ =~= seq!['b', 'e', 's', 't']);
    assert("3"@ =~= seq!['3']);
    assert("ask"@ =~= seq!['a', 's', 'k']);
    assert("4"@ =~= seq!['4']);
    assert("show"@ =~= seq!['s', 'h', 'o', 'w']);
    assert("5"@ =~= seq!['5']);
    assert("jobs"@ =~= seq!['j', 'o', 'b', 's']);
    assert("6"@ =~= seq!['6']);
    assert("bookmarks"@ =~= seq!['b', 'o', 'o', 'k', 'm', 'a', 'r', 'k', 's']);
    assert("7"@ =~= seq!['7']);
}

/// The feed commands by name: `/top`, `/new`, `/best`, `/ask`, `/show`, `/jobs` and
/// `/bookmarks` switch to the feed of that name, the i-th name to the i-th numbered feed.
pub proof fn law_feed_commands_by_name(i: int, logged_in: bool, r: Command)
    requires
        0 <= i < 7,
        command_matches(feed_names()[i], logged_in, r),
    ensures
        r == Command::Feed(numbered_feeds()[i]),
{
    lemma_command_words();
    let v = feed_names()[i];
    assert forall|k: int| 0 <= k < v.len() implies v[k] != ' ' by {
        if i == 0 {} else if i == 1 {} else if i == 2 {} else if i == 3 {} else if i == 4 {}
        else if i == 5 {} else {}
    }
    lemma_no_space_is_verb(v);
    if i == 0 {
        assert(v != "q"@ && v != "quit"@ && v != "exit"@ && v != "login"@ && v != "l"@
            && v != "logout"@);
    } else if i == 1 {
        assert(v != "q"@ && v != "quit"@ && v != "exit"@ && v != "login"@ && v != "l"@
            && v != "logout"@ && v != "top"@ && v != "1"@);
    } else if i == 2 {
        assert(v != "q"@ && v != "quit"@ && v != "exit"@ && v != "login"@ && v != "l"@
            && v != "logout"@ && v != "top"@ && v != "1"@ && v != "new"@ && v != "2"@);
    } else if i == 3 {
        assert(v != "q"@ && v != "quit"@ && v != "exit"@ && v != "login"@ && v != "l"@
            && v != "logout"@ && v != "top"@ && v != "1"@ && v != "new"@ && v != "2"@
            && v != "best"@ && v != "3"@);
    } else if i == 4 {
        assert(v != "q"@ && v != "quit"@ && v != "exit"@ && v != "login"@ && v != "l"@
            && v != "logout"@ && v != "top"@ && v != "1"@ && v != "new"@ && v != "2"@
            && v != "best"@ && v != "3"@ && v != "ask"@ && v != "4"@);
    } else if i == 5 {
        assert(v != "q"@ && v != "quit"@ && v != "exit"@ && v != "login"@ && v != "l"@
            && v != "logout"@ && v != "top"@ && v != "1"@ && v != "new"@ && v != "2"@
            && v != "best"@ && v != "3"@ && v != "ask"@ && v != "4"@ && v != "show"@
            && v != "5"@);
    } else {
        assert(v != "q"@ && v != "quit"@ && v != "exit"@ && v != "login"@ && v != "l"@
            && v != "logout"@ && v != "top"@ && v != "1"@ && v != "new"@ && v != "2"@
            && v != "best"@ && v != "3"@ && v != "ask"@ && v != "4"@ && v != "show"@
            && v != "5"@ && v != "jobs"@ && v != "6"@);
    }
}

/// The feed commands by number: `/1` to `/7` switch to the feeds in the order of their
/// number keys.
pub proof fn law_feed_commands_by_number(i: int, logged_in: bool, r: Command)
    requires
        0 <= i < 7,
        command_matches(seq![digit_char((i + 1) as nat)], logged_in, r),
    ensures
        r == Command::Feed(numbered_feeds()[i]),
{
    lemma_command_words();
    let d = digit_char((i + 1) as nat);
    let v = seq![d];
    assert(v.len() == 1);
    assert(d == '1' || d == '2' || d == '3' || d == '4' || d == '5' || d == '6' || d == '7');
    lemma_no_space_is_verb(v);
    assert(v != "q"@ && v != "quit"@ && v != "exit"@ && v != "login"@ && v != "l"@
        && v != "logout"@) by {
        assert(v[0] != 'q' && v[0] != 'e' && v[0] != 'l');
    }
    assert(v != "top"@ && v != "new"@ && v != "best"@ && v != "ask"@ && v != "show"@
        && v != "jobs"@ && v != "bookmarks"@);
    if i == 0 {
        assert(d == '1');
        assert(v =~= "1"@);
    } else if i == 1 {
        assert(d == '2');
        assert(v =~= "2"@);
    } else if i == 2 {
        assert(d == '3');
        assert(v =~= "3"@);
        assert(v != "1"@ && v != "2"@);
    } else if i == 3 {
        assert(d == '4');
        assert(v =~= "4"@);
        assert(v != "1"@ && v != "2"@ && v != "3"@);
    } else if i == 4 {
        assert(d == '5');
        assert(v =~= "5"@);
        assert(v != "1"@ && v != "2"@ && v != "3"@ && v != "4"@);
    } else if i == 5 {
        assert(d == '6');
        assert(v =~= "6"@);
        assert(v[0] == '6');
        assert(v != "1"@ && v != "2"@ && v != "3"@ && v != "4"@ && v != "5"@);
    } else {
        assert(d == '7');
        assert(v =~= "7"@);
        assert(v != "1"@ && v != "2"@ && v != "3"@ && v != "4"@ && v != "5"@ && v != "6"@);
    }
}

/// Whether `v` holds exactly the characters of `lit`.
fn is_word(v: &Vec<char>, lit: &str) -> (r: bool)
    ensures
        r == (v@ == lit@),
{
    let w = chars_of(lit);
    if v.len() != w.len() {
        return false;
    }
    let mut i: usize = 0;
    while i < v.len()
        invariant
            v@.len() == w@.len(),
            w@ == lit@,
            i <= v@.len(),
            forall|j: int| 0 <= j < i ==> v@[j] == w@[j],
        decreases v@.len() - i,
    {
        if v[i] != w[i] {
            return false;
        }
        i = i + 1;
    }
    assert(v@ =~= w@);
    true
}

/// The feed a verb switches to.
fn feed_verb_exec(v: &Vec<char>) -> (r: Option<Feed>)
    ensures
        r == feed_verb(v@),
{
    if is_word(v, "top") || is_word(v, "1") {
        Some(Feed::Top)
    } else if is_word(v, "new") || is_word(v, "2") {
        Some(Feed::New)
    } else if is_word(v, "best") || is_word(v, "3") {
        Some(Feed::Best)
    } else if is_word(v, "ask") || is_word(v, "4") {
        Some(Feed::Ask)
    } else if is_word(v, "show") || is_word(v, "5") {
        Some(Feed::Show)
    } else if is_word(v, "jobs") || is_word(v, "6") {
        Some(Feed::Jobs)
    } else if is_word(v, "bookmarks") || is_word(v, "7") {
        Some(Feed::Bookmarks)
    } else {
        None
    }
}

/// What the command line `cmd` (already trimmed and lowercased) means.
pub fn parse_command(cmd: &str, logged_in: bool) -> (r: Command)
    ensures
        command_matches(cmd@, logged_in, r),
{
    let s = chars_of(cmd);
    proof {
        lemma_find_from_props(s@, 0, seq![' ']);
    }
    let (verb, arg) = match find_char(&s, 0, ' ') {
        None => (s.clone(), Vec::new()),
        Some(i) => {
            assert(seq![' '].len() == 1);
            assert(i < s@.len());
            let mut v: Vec<char> = Vec::new();
            let mut k: usize = 0;
            while k < i
                invariant
                    k <= i < s@.len(),
                    v@ == s@.take(k as int),
                decreases i - k,
            {
                v.push(s[k]);
                assert(s@.take(k + 1) =~= s@.take(k as int).push(s@[k as int]));
                k = k + 1;
            }
            let mut rest: Vec<char> = Vec::new();
            assert(i < s.len());
            let mut j: usize = i + 1;
            while j < s.len()
                invariant
                    i + 1 <= j <= s@.len(),
                    rest@ == s@.subrange(i + 1, j as int),
                decreases s@.len() - j,
            {
                rest.push(s[j]);
                j = j + 1;
            }
            assert(rest@ =~= s@.skip(i + 1));
            (v, trim_vec(&rest))
        },
    };
    assert(verb@ == split_command(cmd@).0 && arg@ == split_command(cmd@).1);
    if is_word(&verb, "q") || is_word(&verb, "quit") || is_word(&verb, "exit") {
        Command::Exit
    } else if (is_word(&verb, "login") || is_word(&verb, "l")) && !logged_in {
        Command::Login
    } else if (is_word(&verb, "logout") || is_word(&verb, "l")) && logged_in {
        Command::Logout
    } else if let Some(f) = feed_verb_exec(&verb) {
        Command::Feed(f)
    } else if is_word(&verb, "bookmark") || is_word(&verb, "b") {
        Command::Bookmark
    } else if is_word(&verb, "search") || is_word(&verb, "s") {
        Command::Search
    } else if is_word(&verb, "refresh") || is_word(&verb, "r") {
        Command::Refresh
    } else if is_word(&verb, "open") || is_word(&verb, "o") {
        Command::Open
    } else if is_word(&verb, "hn") {
        Command::Hn
    } else if is_word(&verb, "vote") || is_word(&verb, "v") {
        Command::Vote
    } else if is_word(&verb, "user") || is_word(&verb, "u") || is_word(&verb, "p") {
        Command::User(string_of(&arg))
    } else if is_word(&verb, "help") || is_word(&verb, "?") {
        Command::Help
    } else {
        Command::Unknown(string_of(&verb))
    }
}

// ---------------------------------------------------------------------------
// What the front end is asked to do
// ---------------------------------------------------------------------------

/// Work a key leaves for the front end, which can wait on the network, the disk, the
/// clipboard or the browser.
pub enum Action {
    Nothing,
    /// Quit the application.
    Exit,
    /// Load the current feed (`begin_feed` and what follows).
    LoadFeed,
    /// Remove the kept session.
    DeleteSession,
    /// Keep the set of read stories.
    SaveSeen,
    /// Load the selected story's comments (`begin_comments` and what follows).
    LoadComments,
    /// Load this user's profile (`begin_load_user` and what follows).
    LoadUser(String),
    /// Toggle the selected story's bookmark against the kept list (`toggle_bookmark`).
    ToggleBookmark,
    /// Vote on what is under the cursor (`begin_vote` and what follows).
    Vote,
    /// Reply to what is under the cursor (`begin_compose` and what follows).
    Compose,
    /// Open the selected story (`open_story_in_browser`).
    OpenStory,
    /// Open the selected story's HN page (`open_hn_page_in_browser`).
    OpenHn,
    /// Copy the selected story's address (`story_link`, `clipboard_done`).
    CopyUrl,
    /// Fetch the selected story's article (`begin_reader` and what follows).
    Reader,
    /// Open this address in the browser.
    OpenUrl(String),
}

/// The help line.
pub open spec fn help_text() -> Seq<char> {
    "1-7:feeds  j/k/\u{2191}\u{2193}:nav  Enter:comments/expand  Tab/Esc:pane  Space:collapse  r:read  y:copy  v:vote  c:reply  p:profile  u:unread  b:bookmark  ?:search  o:open  O:hn  R:refresh  l:login/logout  /:cmd  q:quit"@
}

/// The help line of the slash commands.
pub open spec fn command_help_text() -> Seq<char> {
    "login \u{b7} logout \u{b7} top/new/best/ask/show/bookmarks \u{b7} search \u{b7} user <n> \u{b7} bookmark \u{b7} refresh \u{b7} open \u{b7} hn \u{b7} vote \u{b7} quit"@
}

/// The state after switching to `feed`; `load` says whether the feed is to be loaded.
pub open spec fn switch_feed_post(pre: App, post: App, feed: Feed, load: bool) -> bool {
    if pre.feed != feed || pre.search_query is Some {
        load && post == (App { feed, search_query: None, ..pre })
    } else {
        !load && post == pre
    }
}

/// The feed a digit key switches to.
pub open spec fn feed_key(key: Key) -> Option<Feed> {
    match key {
        Key::Char('1') => Some(Feed::Top),
        Key::Char('2') => Some(Feed::New),
        Key::Char('3') => Some(Feed::Best),
        Key::Char('4') => Some(Feed::Ask),
        Key::Char('5') => Some(Feed::Show),
        Key::Char('6') => Some(Feed::Jobs),
        Key::Char('7') => Some(Feed::Bookmarks),
        _ => None,
    }
}

/// The feeds in the order of their number keys and numbered slash commands.
pub open spec fn numbered_feeds() -> Seq<Feed> {
    seq![Feed::Top, Feed::New, Feed::Best, Feed::Ask, Feed::Show, Feed::Jobs, Feed::Bookmarks]
}

/// The digit keys 1 to 7 switch to Top, New, Best, Ask, Show, Jobs and Bookmarks in turn:
/// after the key the feed is the one of its number, search results are left, and the feed
/// is loaded unless it was shown already.
pub proof fn law_digit_keys_switch_feeds(pre: App, post: App, c: char, height: usize, a: Action)
    requires
        '1' <= c <= '7',
        pre.view_mode != ViewMode::User,
        normal_key_post(pre, post, Key::Char(c), false, height, a),
    ensures
        post.feed == numbered_feeds()[c as int - '1' as int],
        post.search_query is None,
        a is LoadFeed || (a is Nothing && post == pre),
{
    let f = numbered_feeds()[c as int - '1' as int];
    assert(feed_key(Key::Char(c)) == Some(f)) by {
        if c == '1' {} else if c == '2' {} else if c == '3' {} else if c == '4' {}
        else if c == '5' {} else if c == '6' {} else {}
    }
    let load = choose|load: bool| switch_feed_post(pre, post, f, load) && (if load {
        a is LoadFeed
    } else {
        a is Nothing
    });
    assert(switch_feed_post(pre, post, f, load));
}

/// The keys both panes share and the action each leaves (the state is unchanged).
pub open spec fn pane_common_action(key: Key) -> Option<Action> {
    match key {
        Key::Char('b') => Some(Action::ToggleBookmark),
        Key::Char('v') => Some(Action::Vote),
        Key::Char('c') => Some(Action::Compose),
        Key::Char('o') => Some(Action::OpenStory),
        Key::Char('O') => Some(Action::OpenHn),
        Key::Char('y') => Some(Action::CopyUrl),
        Key::Char('r') => Some(Action::Reader),
        _ => None,
    }
}

/// The author under the cursor, as `App::username_at_cursor` gives it.
pub open spec fn user_at_cursor(a: App) -> Option<Seq<char>> {
    match a.active_pane {
        Pane::Stories => match selected(a) {
            Some(s) => opt_str(s.by),
            None => None,
        },
        Pane::Comments => match comment_at_cursor(a) {
            Some(n) => opt_str(n.item.by),
            None => None,
        },
    }
}

/// `a` asks to load the profile of the author under the cursor, or nothing when there is
/// none.
pub open spec fn load_user_action(pre: App, a: Action) -> bool {
    match user_at_cursor(pre) {
        Some(u) => a matches Action::LoadUser(n) && n@ == u,
        None => a is Nothing,
    }
}

/// The state and action after a key in normal mode, with a terminal of `height` rows.
pub open spec fn normal_key_post(pre: App, post: App, key: Key, ctrl: bool, height: usize, a: Action) -> bool {
    let visible = usub(height, 10);
    if key == Key::Char('c') && ctrl {
        a is Exit && post == pre
    } else if key == Key::Char('/') {
        a is Nothing && post == (App { mode: Mode::Command, ..pre })
    } else if key == Key::Char('?') {
        a is Nothing && start_search_post(pre, post)
    } else if pre.view_mode == ViewMode::User {
        match key {
            Key::Esc | Key::Char('q') => a is Nothing && close_user_profile_post(pre, post),
            Key::Char('o') => post == pre && match pre.user_profile {
                Some(u) => a matches Action::OpenUrl(url) && url@ == user_page_url_spec(u.id@),
                None => a is Nothing,
            },
            _ => a is Nothing && post == pre,
        }
    } else if key == Key::Char('h') {
        a is Nothing && post.status_message@ == help_text() && post == (App {
            status_message: post.status_message,
            ..pre
        })
    } else if key == Key::Char('R') {
        a is LoadFeed && post == pre
    } else if key == Key::Char('l') {
        if pre.session is Some {
            a is DeleteSession && logout_post(pre, post)
        } else {
            a is Nothing && start_login_post(pre, post)
        }
    } else if feed_key(key) is Some {
        exists|load: bool|
            switch_feed_post(pre, post, feed_key(key)->Some_0, load) && (if load {
                a is LoadFeed
            } else {
                a is Nothing
            })
    } else if key == Key::Char('p') {
        post == pre && load_user_action(pre, a)
    } else if key == Key::Char('u') {
        exists|changed: bool|
            mark_unseen_post(pre, post, changed) && (if changed {
                a is SaveSeen
            } else {
                a is Nothing
            })
    } else if pane_common_action(key) is Some {
        post == pre && a == pane_common_action(key)->Some_0
    } else {
        match pre.active_pane {
            Pane::Stories => match key {
                Key::Char('j') | Key::Down => a is Nothing && scroll_story_down_post(
                    pre,
                    post,
                    visible,
                ),
                Key::Char('k') | Key::Up => a is Nothing && scroll_story_up_post(pre, post),
                Key::Enter => a is LoadComments && post == (App {
                    active_pane: Pane::Comments,
                    ..pre
                }),
                Key::Tab => a is Nothing && if pre.comments@.len() > 0 {
                    post == (App { active_pane: Pane::Comments, ..pre })
                } else {
                    post == pre
                },
                _ => a is Nothing && post == pre,
            },
            Pane::Comments => match key {
                Key::Char('j') | Key::Down => a is Nothing && scroll_comment_down_post(
                    pre,
                    post,
                    visible,
                ),
                Key::Char('k') | Key::Up => a is Nothing && scroll_comment_up_post(pre, post),
                Key::Enter => a is Nothing && toggle_comment_expand_post(pre, post),
                Key::Char(' ') => a is Nothing && toggle_current_comment_post(pre, post),
                Key::Tab | Key::Esc => a is Nothing && exists|mid: App|
                    save_comment_pos_post(pre, mid) && post == (App {
                        active_pane: Pane::Stories,
                        ..mid
                    }),
                _ => a is Nothing && post == pre,
            },
        }
    }
}

impl App {
    /// Switches to `feed`; returns whether it is to be loaded (when it is another feed,
    /// or search results are shown).
    pub fn switch_feed(&mut self, feed: Feed) -> (load: bool)
        ensures
            switch_feed_post(*old(self), *final(self), feed, load),
    {
        if self.feed != feed || self.search_query.is_some() {
            self.feed = feed;
            self.search_query = None;
            true
        } else {
            false
        }
    }

    /// Handles a key in the login form; returns whether to log in now.
    pub fn handle_login_key(&mut self, key: Key) -> (submit: bool)
        ensures
            login_key_post(*old(self), *final(self), key, submit),
    {
        match key {
            Key::Esc => {
                self.mode = Mode::Normal;
                self.status_message = string_of_str("Login cancelled.");
                false
            },
            Key::Tab | Key::BackTab => {
                self.login_state.field = match self.login_state.field {
                    LoginField::Username => LoginField::Password,
                    LoginField::Password => LoginField::Username,
                };
                false
            },
            Key::Enter => match self.login_state.field {
                LoginField::Username => {
                    self.login_state.field = LoginField::Password;
                    false
                },
                LoginField::Password => true,
            },
            Key::Backspace | Key::Char(_) => {
                match self.login_state.field {
                    LoginField::Username => edit(&mut self.login_state.username, key),
                    LoginField::Password => edit(&mut self.login_state.password, key),
                }
                false
            },
            _ => false,
        }
    }

    /// Handles a key in the compose box (`ctrl` says whether Control is held); returns
    /// whether to post the reply now. Escape drops the reply; Enter adds a new line.
    pub fn handle_compose_key(&mut self, key: Key, ctrl: bool) -> (submit: bool)
        ensures
            key == Key::Esc ==> !submit && final(self).status_message@ == "Compose cancelled."@
                && *final(self) == (App {
                compose_state: None,
                mode: Mode::Normal,
                status_message: final(self).status_message,
                ..*old(self)
            }),
            key == Key::Char('s') && ctrl ==> submit && *final(self) == *old(self),
            key != Key::Esc && !(key == Key::Char('s') && ctrl) ==> !submit && match old(
                self,
            ).compose_state {
                None => *final(self) == *old(self),
                Some(c) => {
                    let k = if key == Key::Enter {
                        Key::Char('\n')
                    } else {
                        key
                    };
                    &&& final(self).compose_state matches Some(d) && d.text@ == edited(
                        c.text@,
                        k,
                    ) && d.parent_id == c.parent_id && d.story_id == c.story_id && d.hmac
                        == c.hmac && d.parent_by == c.parent_by
                    &&& *final(self) == (App {
                        compose_state: final(self).compose_state,
                        ..*old(self)
                    })
                },
            },
    {
        if key == Key::Esc {
            self.compose_state = None;
            self.mode = Mode::Normal;
            self.status_message = string_of_str("Compose cancelled.");
            return false;
        }
        if key == Key::Char('s') && ctrl {
            return true;
        }
        let k = if key == Key::Enter {
            Key::Char('\n')
        } else {
            key
        };
        match self.compose_state.take() {
            Some(mut st) => {
                edit(&mut st.text, k);
                self.compose_state = Some(st);
            },
            None => {},
        }
        false
    }

    /// Handles a key at the command prompt; on Enter returns the command line, trimmed
    /// and lowercased, to run.
    pub fn handle_command_key(&mut self, key: Key) -> (r: Option<String>)
        ensures
            match key {
                Key::Esc => r is None && final(self).command_input@ == Seq::<char>::empty()
                    && *final(self) == (App {
                    mode: Mode::Normal,
                    command_input: final(self).command_input,
                    ..*old(self)
                }),
                Key::Enter => r matches Some(c) && c@ == lowercase_of(
                    trim(old(self).command_input@),
                ) && final(self).command_input@ == Seq::<char>::empty() && *final(self) == (
                App { mode: Mode::Normal, command_input: final(self).command_input, ..*old(self) }),
                Key::Backspace | Key::Char(_) => r is None && final(self).command_input@
                    == edited(old(self).command_input@, key) && *final(self) == (App {
                    command_input: final(self).command_input,
                    ..*old(self)
                }),
                _ => r is None && *final(self) == *old(self),
            },
    {
        match key {
            Key::Esc => {
                self.mode = Mode::Normal;
                self.command_input = String::new();
                None
            },
            Key::Enter => {
                let v = chars_of(self.command_input.as_str());
                let t = trim_vec(&v);
                let lower = to_lowercase_range(&t, 0, t.len());
                assert(t@.subrange(0, t@.len() as int) =~= t@);
                self.command_input = String::new();
                self.mode = Mode::Normal;
                Some(string_of(&lower))
            },
            Key::Backspace | Key::Char(_) => {
                edit(&mut self.command_input, key);
                None
            },
            _ => None,
        }
    }

    /// Handles a key at the search prompt; returns whether to run the search now.
    pub fn handle_search_key(&mut self, key: Key) -> (run: bool)
        ensures
            match key {
                Key::Esc => !run && final(self).search_input@ == Seq::<char>::empty()
                    && final(self).status_message@ == "Search cancelled."@ && *final(self) == (
                App {
                    mode: Mode::Normal,
                    search_input: final(self).search_input,
                    status_message: final(self).status_message,
                    ..*old(self)
                }),
                Key::Enter => run && *final(self) == *old(self),
                Key::Backspace | Key::Char(_) => !run && final(self).search_input@ == edited(
                    old(self).search_input@,
                    key,
                ) && *final(self) == (App { search_input: final(self).search_input, ..*old(self) }),
                _ => !run && *final(self) == *old(self),
            },
    {
        match key {
            Key::Esc => {
                self.mode = Mode::Normal;
                self.search_input = String::new();
                self.status_message = string_of_str("Search cancelled.");
                false
            },
            Key::Enter => true,
            Key::Backspace | Key::Char(_) => {
                edit(&mut self.search_input, key);
                false
            },
            _ => false,
        }
    }

    /// Whether the scroll position that `key` moves to, on a page of `inner_h` lines, fits
    /// in a `usize`.
    pub fn reader_key_fits(&self, key: Key, inner_h: usize) -> (r: bool)
        ensures
            r == reader_scroll_fits(self.reader_scroll, key, inner_h),
    {
        let half = if inner_h / 2 > 1 {
            inner_h / 2
        } else {
            1
        };
        match key {
            Key::Char('j') | Key::Down => self.reader_scroll < usize::MAX,
            Key::Char('d') => self.reader_scroll <= usize::MAX - half,
            _ => true,
        }
    }

    /// Handles a key in reader mode, on a page of `inner_h` lines; returns whether to
    /// open the article in the browser now.
    pub fn handle_reader_key(&mut self, key: Key, inner_h: usize) -> (open: bool)
        requires
            reader_scroll_fits(old(self).reader_scroll, key, inner_h),
        ensures
            reader_key_post(*old(self), *final(self), key, inner_h, open),
    {
        let half = if inner_h / 2 > 1 {
            inner_h / 2
        } else {
            1
        };
        let s = self.reader_scroll;
        match key {
            Key::Char('o') => {
                self.close_reader();
                return true;
            },
            Key::Esc | Key::Char('q') | Key::Char('r') => {
                self.close_reader();
                return false;
            },
            _ => {},
        }
        let next = match key {
            Key::Char('j') | Key::Down => s + 1,
            Key::Char('k') | Key::Up => if s >= 1 {
                s - 1
            } else {
                0
            },
            Key::Char('d') => s + half,
            Key::Char('u') => if s >= half {
                s - half
            } else {
                0
            },
            Key::Char('g') => 0,
            Key::Char('G') => if self.reader_total_lines >= inner_h {
                self.reader_total_lines - inner_h
            } else {
                0
            },
            Key::Char('n') => match next_section_exec(&self.reader_section_offsets, s) {
                Some(o) => o,
                None => s,
            },
            Key::Char('N') => match prev_section_exec(&self.reader_section_offsets, s) {
                Some(o) => o,
                None => s,
            },
            _ => s,
        };
        self.reader_scroll = next;
        false
    }

    /// Handles a key in normal mode, with a terminal of `height` rows (`ctrl` says
    /// whether Control is held); returns the work left for the front end.
    pub fn handle_normal_key(&mut self, key: Key, ctrl: bool, height: usize) -> (a: Action)
        ensures
            normal_key_post(*old(self), *final(self), key, ctrl, height, a),
    {
        if key == Key::Char('c') && ctrl {
            return Action::Exit;
        }
        if key == Key::Char('/') {
            self.mode = Mode::Command;
            return Action::Nothing;
        }
        if key == Key::Char('?') {
            self.start_search();
            return Action::Nothing;
        }
        if self.view_mode == ViewMode::User {
            match key {
                Key::Esc | Key::Char('q') => {
                    self.close_user_profile();
                    return Action::Nothing;
                },
                Key::Char('o') => {
                    return match &self.user_profile {
                        Some(u) => Action::OpenUrl(user_page_url(u.id.as_str())),
                        None => Action::Nothing,
                    };
                },
                _ => {
                    return Action::Nothing;
                },
            }
        }
        if key == Key::Char('h') {
            self.status_message = string_of_str(
                "1-7:feeds  j/k/\u{2191}\u{2193}:nav  Enter:comments/expand  Tab/Esc:pane  Space:collapse  r:read  y:copy  v:vote  c:reply  p:profile  u:unread  b:bookmark  ?:search  o:open  O:hn  R:refresh  l:login/logout  /:cmd  q:quit",
            );
            return Action::Nothing;
        }
        if key == Key::Char('R') {
            return Action::LoadFeed;
        }
        if key == Key::Char('l') {
            if self.session.is_some() {
                self.logout();
                return Action::DeleteSession;
            } else {
                self.start_login();
                return Action::Nothing;
            }
        }
        let fk = match key {
            Key::Char('1') => Some(Feed::Top),
            Key::Char('2') => Some(Feed::New),
            Key::Char('3') => Some(Feed::Best),
            Key::Char('4') => Some(Feed::Ask),
            Key::Char('5') => Some(Feed::Show),
            Key::Char('6') => Some(Feed::Jobs),
            Key::Char('7') => Some(Feed::Bookmarks),
            _ => None,
        };
        if let Some(f) = fk {
            let load = self.switch_feed(f);
            return if load {
                Action::LoadFeed
            } else {
                Action::Nothing
            };
        }
        if key == Key::Char('p') {
            return match self.username_at_cursor() {
                Some(name) => Action::LoadUser(name),
                None => Action::Nothing,
            };
        }
        if key == Key::Char('u') {
            let changed = self.mark_unseen();
            return if changed {
                Action::SaveSeen
            } else {
                Action::Nothing
            };
        }
        match key {
            Key::Char('b') => {
                return Action::ToggleBookmark;
            },
            Key::Char('v') => {
                return Action::Vote;
            },
            Key::Char('c') => {
                return Action::Compose;
            },
            Key::Char('o') => {
                return Action::OpenStory;
            },
            Key::Char('O') => {
                return Action::OpenHn;
            },
            Key::Char('y') => {
                return Action::CopyUrl;
            },
            Key::Char('r') => {
                return Action::Reader;
            },
            _ => {},
        }
        let visible = if height >= 10 {
            height - 10
        } else {
            0
        };
        match self.active_pane {
            Pane::Stories => match key {
                Key::Char('j') | Key::Down => {
                    self.scroll_story_down(visible);
                    Action::Nothing
                },
                Key::Char('k') | Key::Up => {
                    self.scroll_story_up();
                    Action::Nothing
                },
                Key::Enter => {
                    self.active_pane = Pane::Comments;
                    Action::LoadComments
                },
                Key::Tab => {
                    if self.comments.len() > 0 {
                        self.active_pane = Pane::Comments;
                    }
                    Action::Nothing
                },
                _ => Action::Nothing,
            },
            Pane::Comments => match key {
                Key::Char('j') | Key::Down => {
                    self.scroll_comment_down(visible);
                    Action::Nothing
                },
                Key::Char('k') | Key::Up => {
                    self.scroll_comment_up();
                    Action::Nothing
                },
                Key::Enter => {
                    self.toggle_comment_expand();
                    Action::Nothing
                },
                Key::Char(' ') => {
                    self.toggle_current_comment();
                    Action::Nothing
                },
                Key::Tab | Key::Esc => {
                    self.save_comment_pos();
                    let ghost mid = *self;
                    self.active_pane = Pane::Stories;
                    assert(save_comment_pos_post(*old(self), mid));
                    Action::Nothing
                },
                _ => Action::Nothing,
            },
        }
    }

    /// Whether the application quits after a key handled in normal mode: a `q` that
    /// leaves it in normal mode outside a user profile.
    pub fn quits_after_normal_key(&self, key: Key) -> (r: bool)
        ensures
            r == (self.mode == Mode::Normal && key == Key::Char('q') && self.view_mode
                != ViewMode::User),
    {
        self.mode == Mode::Normal && key == Key::Char('q') && self.view_mode != ViewMode::User
    }

    /// Carries out a slash command as far as the state goes, and returns the work left
    /// for the front end.
    pub fn apply_command(&mut self, cmd: Command) -> (a: Action)
        ensures
            match cmd {
                Command::Exit => a is Exit && *final(self) == *old(self),
                Command::Login => a is Nothing && start_login_post(*old(self), *final(self)),
                Command::Logout => a is DeleteSession && logout_post(*old(self), *final(self)),
                Command::Feed(f) => exists|load: bool|
                    switch_feed_post(*old(self), *final(self), f, load) && (if load {
                        a is LoadFeed
                    } else {
                        a is Nothing
                    }),
                Command::Bookmark => a is ToggleBookmark && *final(self) == *old(self),
                Command::Search => a is Nothing && start_search_post(*old(self), *final(self)),
                Command::Refresh => a is LoadFeed && *final(self) == *old(self),
                Command::Open => a is OpenStory && *final(self) == *old(self),
                Command::Hn => a is OpenHn && *final(self) == *old(self),
                Command::Vote => a is Vote && *final(self) == *old(self),
                Command::User(arg) => if arg@.len() > 0 {
                    a matches Action::LoadUser(n) && n@ == arg@ && *final(self) == *old(self)
                } else {
                    match user_at_cursor(*old(self)) {
                        Some(u) => a matches Action::LoadUser(n) && n@ == u && *final(self)
                            == *old(self),
                        None => a is Nothing && final(self).status_message@
                            == "Usage: /user <username>"@ && *final(self) == (App {
                            status_message: final(self).status_message,
                            ..*old(self)
                        }),
                    }
                },
                Command::Help => a is Nothing && final(self).status_message@ == command_help_text()
                    && *final(self) == (App {
                    status_message: final(self).status_message,
                    ..*old(self)
                }),
                Command::Unknown(v) => a is Nothing && final(self).status_message@ == "Unknown: '"@
                    + v@ + "' \u{2014} try /help"@ && *final(self) == (App {
                    status_message: final(self).status_message,
                    ..*old(self)
                }),
            },
    {
        match cmd {
            Command::Exit => Action::Exit,
            Command::Login => {
                self.start_login();
                Action::Nothing
            },
            Command::Logout => {
                self.logout();
                Action::DeleteSession
            },
            Command::Feed(f) => {
                if self.switch_feed(f) {
                    Action::LoadFeed
                } else {
                    Action::Nothing
                }
            },
            Command::Bookmark => Action::ToggleBookmark,
            Command::Search => {
                self.start_search();
                Action::Nothing
            },
            Command::Refresh => Action::LoadFeed,
            Command::Open => Action::OpenStory,
            Command::Hn => Action::OpenHn,
            Command::Vote => Action::Vote,
            Command::User(arg) => {
                if arg.as_str().is_empty() {
                    match self.username_at_cursor() {
                        Some(name) => Action::LoadUser(name),
                        None => {
                            self.status_message = string_of_str("Usage: /user <username>");
                            Action::Nothing
                        },
                    }
                } else {
                    Action::LoadUser(arg)
                }
            },
            Command::Help => {
                self.status_message = string_of_str(
                    "login \u{b7} logout \u{b7} top/new/best/ask/show/bookmarks \u{b7} search \u{b7} user <n> \u{b7} bookmark \u{b7} refresh \u{b7} open \u{b7} hn \u{b7} vote \u{b7} quit",
                );
                Action::Nothing
            },
            Command::Unknown(v) => {
                let mut s = string_of_str("Unknown: '");
                push_str(&mut s, v.as_str());
                push_str(&mut s, "' \u{2014} try /help");
                self.status_message = s;
                Action::Nothing
            },
        }
    }
}

} // verus!
