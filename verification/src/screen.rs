//! What the screen shows, as text: the lines of a text, the preview of a comment, the
//! title of the story list, how a score is highlighted, a masked password, and the lines
//! an article is shown as in reader mode. The terminal front end only styles them.
use vstd::prelude::*;
use crate::api::{opt_str, string_of_str};
use crate::app::{App, Feed, Mode, Pane, selected};
use crate::comments::CommentNode;
use crate::reader::{Block, BlockView, char_utf8_len_exec, line_count, newlines, utf8_len};
use crate::text::{
    chars_of, find_char, find_from, lemma_find_from_props, push_str, string_of_range, trim, trim_vec,
};

verus! {

// ---------------------------------------------------------------------------
// Lines of a text
// ---------------------------------------------------------------------------

/// `s` without one trailing carriage return.
pub open spec fn strip_cr(s: Seq<char>) -> Seq<char> {
    if s.len() > 0 && s.last() == '\r' {
        s.drop_last()
    } else {
        s
    }
}

/// The lines of `s` from index `start` on, as `str::lines` gives them: each line ends
/// before a `\n` (a `\r` just before it is dropped too); the last line needs no `\n`, and
/// nothing follows a final `\n`.
pub open spec fn lines_from(s: Seq<char>, start: int) -> Seq<Seq<char>>
    decreases s.len() - start,
{
    if start < 0 || start >= s.len() {
        Seq::empty()
    } else {
        match find_from(s, start, seq!['\n']) {
            None => seq![s.subrange(start, s.len() as int)],
            Some(e) => {
                proof {
                    lemma_find_from_props(s, start, seq!['\n']);
                }
                seq![strip_cr(s.subrange(start, e))] + lines_from(s, e + 1)
            },
        }
    }
}

/// The lines of `s`.
pub open spec fn lines_of(s: Seq<char>) -> Seq<Seq<char>> {
    lines_from(s, 0)
}

/// The character sequences of a list of strings.
pub open spec fn strings_view(v: Seq<String>) -> Seq<Seq<char>> {
    v.map_values(|x: String| x@)
}

/// The lines of `s`, as `str::lines` splits it.
pub fn text_lines(s: &str) -> (r: Vec<String>)
    ensures
        strings_view(r@) == lines_of(s@),
{
    let v = chars_of(s);
    let mut out: Vec<String> = Vec::new();
    let mut start: usize = 0;
    while start < v.len()
        invariant
            start <= v@.len(),
            v@ == s@,
            strings_view(out@) + lines_from(v@, start as int) == lines_from(v@, 0),
        decreases v@.len() - start,
    {
        let ghost before = strings_view(out@);
        proof {
            lemma_find_from_props(v@, start as int, seq!['\n']);
        }
        match find_char(&v, start, '\n') {
            None => {
                let line = string_of_range(&v, start, v.len());
                out.push(line);
                assert(strings_view(out@) =~= before.push(v@.subrange(start as int, v@.len() as int)));
                assert(lines_from(v@, v@.len() as int) =~= Seq::<Seq<char>>::empty());
                assert(lines_from(v@, start as int) =~= seq![v@.subrange(start as int, v@.len() as int)]);
                start = v.len();
            },
            Some(e) => {
                assert(seq!['\n'].len() == 1);
                let end = if e > start && v[e - 1] == '\r' {
                    e - 1
                } else {
                    e
                };
                let line = string_of_range(&v, start, end);
                assert(line@ == strip_cr(v@.subrange(start as int, e as int)));
                out.push(line);
                assert(strings_view(out@) =~= before.push(line@));
                assert(before.push(line@) + lines_from(v@, e + 1) =~= before + (seq![line@]
                    + lines_from(v@, e + 1)));
                start = e + 1;
            },
        }
    }
    assert(lines_from(v@, start as int) =~= Seq::<Seq<char>>::empty());
    assert(strings_view(out@) + Seq::<Seq<char>>::empty() =~= strings_view(out@));
    out
}

proof fn lemma_newlines_concat(a: Seq<char>, b: Seq<char>)
    ensures
        newlines(a + b) == newlines(a) + newlines(b),
    decreases b.len(),
{
    if b.len() > 0 {
        lemma_newlines_concat(a, b.drop_last());
        assert((a + b).drop_last() =~= a + b.drop_last());
    } else {
        assert(a + b =~= a);
    }
}

proof fn lemma_no_newlines(t: Seq<char>)
    requires
        forall|k: int| 0 <= k < t.len() ==> t[k] != '\n',
    ensures
        newlines(t) == 0,
    decreases t.len(),
{
    if t.len() > 0 {
        lemma_no_newlines(t.drop_last());
    }
}

proof fn lemma_lines_from_count(s: Seq<char>, start: int)
    requires
        0 <= start <= s.len(),
    ensures
        lines_from(s, start).len() == newlines(s.subrange(start, s.len() as int)) + if start
            < s.len() && s.last() != '\n' {
            1nat
        } else {
            0nat
        },
    decreases s.len() - start,
{
    let t = s.subrange(start, s.len() as int);
    if start == s.len() {
        assert(t.len() == 0);
    } else {
        lemma_find_from_props(s, start, seq!['\n']);
        match find_from(s, start, seq!['\n']) {
            None => {
                assert forall|k: int| 0 <= k < t.len() implies t[k] != '\n' by {
                    if t[k] == '\n' {
                        assert(s.subrange(start + k, start + k + 1) =~= seq!['\n']);
                        assert(crate::text::matches_at(s, start + k, seq!['\n']));
                    }
                }
                lemma_no_newlines(t);
                assert(t[t.len() - 1] == s.last());
                assert(t[t.len() - 1] != '\n');
                assert(lines_from(s, start).len() == 1);
            },
            Some(e) => {
                assert(s.subrange(e, e + 1) =~= seq!['\n']);
                let a = s.subrange(start, e);
                let b = s.subrange(e + 1, s.len() as int);
                assert forall|k: int| 0 <= k < a.len() implies a[k] != '\n' by {
                    if a[k] == '\n' {
                        assert(s.subrange(start + k, start + k + 1) =~= seq!['\n']);
                        assert(crate::text::matches_at(s, start + k, seq!['\n']));
                    }
                }
                lemma_no_newlines(a);
                assert(t =~= a + seq!['\n'] + b);
                lemma_newlines_concat(a + seq!['\n'], b);
                lemma_newlines_concat(a, seq!['\n']);
                assert(seq!['\n'].drop_last() =~= Seq::<char>::empty());
                lemma_lines_from_count(s, e + 1);
                assert(newlines(seq!['\n']) == 1) by {
                    assert(seq!['\n'].drop_last() =~= Seq::<char>::empty());
                    assert(seq!['\n'].last() == '\n');
                    assert(newlines(Seq::<char>::empty()) == 0);
                }
                assert(newlines(t) == 1 + newlines(b));
                assert(lines_from(s, start).len() == 1 + lines_from(s, e + 1).len());
                if e + 1 == s.len() {
                    assert(s.last() == s[e]);
                    assert(b.len() == 0);
                }
            },
        }
    }
}

/// Code and quotes take as many lines on screen as reader mode counts for them when it
/// places the sections: the lines of a text are its newlines, plus one for a last line
/// without a newline.
pub proof fn law_shown_lines_are_counted(t: Seq<char>)
    ensures
        lines_of(t).len() == line_count(t),
{
    lemma_lines_from_count(t, 0);
    assert(t.subrange(0, t.len() as int) =~= t);
}

// ---------------------------------------------------------------------------
// Comments
// ---------------------------------------------------------------------------

/// The first line of `s`, or nothing when it has no lines.
pub open spec fn first_line(s: Seq<char>) -> Seq<char> {
    if lines_of(s).len() > 0 {
        lines_of(s)[0]
    } else {
        Seq::empty()
    }
}

/// The preview of a collapsed-to-one-line comment: its first line, cut to `width`
/// characters.
pub open spec fn preview_of(s: Seq<char>, width: nat) -> Seq<char> {
    let f = first_line(s);
    if f.len() <= width {
        f
    } else {
        f.take(width as int)
    }
}

/// The one-line preview of a comment's text at most `width` characters wide.
pub fn comment_preview(text: &str, width: usize) -> (r: String)
    ensures
        r@ == preview_of(text@, width as nat),
{
    let lines = text_lines(text);
    if lines.len() == 0 {
        return String::new();
    }
    proof {
        assert(strings_view(lines@)[0] == lines@[0]@);
    }
    let first = chars_of(lines[0].as_str());
    let n = if first.len() <= width {
        first.len()
    } else {
        width
    };
    let r = string_of_range(&first, 0, n);
    assert(first@.subrange(0, first@.len() as int) =~= first@);
    assert(first@.subrange(0, n as int) =~= first@.take(n as int));
    r
}

// ---------------------------------------------------------------------------
// The story list
// ---------------------------------------------------------------------------

/// The title above the story list.
pub open spec fn list_title_of(a: App) -> Seq<char> {
    match a.search_query {
        Some(q) => "Search: "@ + q@,
        None => match a.feed {
            Feed::Bookmarks => "bookmarks"@,
            Feed::Jobs => "jobs"@,
            Feed::Top => "top stories"@,
            Feed::New => "new stories"@,
            Feed::Best => "best stories"@,
            Feed::Ask => "ask hn stories"@,
            Feed::Show => "show hn stories"@,
        },
    }
}

impl App {
    /// The title above the story list: the search, or the feed in lower case.
    pub fn list_title(&self) -> (r: String)
        ensures
            r@ == list_title_of(*self),
    {
        let mut s = String::new();
        match &self.search_query {
            Some(q) => {
                push_str(&mut s, "Search: ");
                push_str(&mut s, q.as_str());
            },
            None => {
                let t = match self.feed {
                    Feed::Bookmarks => "bookmarks",
                    Feed::Jobs => "jobs",
                    Feed::Top => "top stories",
                    Feed::New => "new stories",
                    Feed::Best => "best stories",
                    Feed::Ask => "ask hn stories",
                    Feed::Show => "show hn stories",
                };
                push_str(&mut s, t);
            },
        }
        s
    }
}

/// The mark before a story's title: a star when it is bookmarked.
pub open spec fn bookmark_mark_of(a: App, id: u64) -> Seq<char> {
    if a.bookmark_ids@.contains(id) {
        "\u{2605} "@
    } else {
        ""@
    }
}

impl App {
    /// The mark before the title of story `id`: a star when it is bookmarked.
    pub fn bookmark_mark(&self, id: u64) -> (r: &'static str)
        ensures
            r@ == bookmark_mark_of(*self, id),
    {
        if self.bookmark_ids.contains(&id) {
            "\u{2605} "
        } else {
            ""
        }
    }

    /// Whether `node` was written by the author of the selected story.
    pub fn by_story_author(&self, node: &CommentNode) -> (r: bool)
        ensures
            r == (match selected(*self) {
                Some(s) => opt_str(s.by) is Some && opt_str(s.by) == opt_str(node.item.by),
                None => false,
            }),
    {
        if self.story_cursor >= self.stories.len() {
            return false;
        }
        match (&self.stories[self.story_cursor].by, &node.item.by) {
            (Some(a), Some(b)) => same_text(a.as_str(), b.as_str()),
            _ => false,
        }
    }

    /// At start-up with a kept session, the status greets its user while the feed loads.
    pub fn greet_session(&mut self)
        ensures
            match old(self).session {
                Some(s) => final(self).status_message@ == "Logged in as "@ + s.username@
                    + " | Loading..."@ && *final(self) == (App {
                    status_message: final(self).status_message,
                    ..*old(self)
                }),
                None => *final(self) == *old(self),
            },
    {
        let m = match &self.session {
            Some(s) => {
                let mut m = string_of_str("Logged in as ");
                push_str(&mut m, s.username.as_str());
                push_str(&mut m, " | Loading...");
                Some(m)
            },
            None => None,
        };
        match m {
            Some(m) => self.status_message = m,
            None => {},
        }
    }

    /// What the comment pane shows in place of comments: that they are loading, that none
    /// are asked for yet, or that the story has none; nothing when there are comments.
    pub fn comments_placeholder(&self) -> (r: Option<&'static str>)
        ensures
            match r {
                Some(t) => Some(t@) == comments_placeholder_of(*self),
                None => comments_placeholder_of(*self) is None,
            },
    {
        if self.comments_loading {
            Some("Loading comments\u{2026}")
        } else if self.comments_story_id.is_none() {
            Some("Press Enter to load comments.")
        } else if self.comments.len() == 0 {
            Some("No comments yet.")
        } else {
            None
        }
    }

    /// The prompt shown on the status line while a command or a search is typed.
    pub fn prompt_line(&self) -> (r: Option<String>)
        ensures
            match r {
                Some(t) => Some(t@) == prompt_of(*self),
                None => prompt_of(*self) is None,
            },
    {
        match self.mode {
            Mode::Command => {
                let mut t = string_of_str(":");
                push_str(&mut t, self.command_input.as_str());
                Some(t)
            },
            Mode::Search => {
                let mut t = string_of_str("?");
                push_str(&mut t, self.search_input.as_str());
                Some(t)
            },
            _ => None,
        }
    }

    /// The groups of key hints shown for the current mode, pane and session.
    pub fn hints(&self) -> (r: Vec<Vec<(String, String)>>)
        ensures
            groups_view(r@) == hint_groups(*self),
    {
        let r = match self.mode {
            Mode::Login => vec![vec![pair("Tab", "field"), pair("Enter", "submit"), pair("Esc", "cancel")]],
            Mode::Compose => vec![vec![pair("Ctrl+S", "post"), pair("Esc", "cancel")]],
            Mode::Command => vec![vec![pair("Enter", "run"), pair("Esc", "cancel")]],
            Mode::Search => vec![vec![pair("Type", "to search"), pair("Enter", "run"), pair("Esc", "cancel")]],
            Mode::Reader => vec![
                vec![
                    pair("j/k/\u{2191}\u{2193}", "scroll"),
                    pair("d/u", "page"),
                    pair("n/N", "section"),
                    pair("o", "browser"),
                    pair("Esc", "close"),
                ],
            ],
            Mode::Normal => {
                let login = if self.session.is_some() {
                    "logout"
                } else {
                    "login"
                };
                let global = vec![
                    pair("h", "help"),
                    pair("R", "refresh"),
                    pair("l", login),
                    pair("/", "cmd"),
                    pair("q", "quit"),
                ];
                let pane = match self.active_pane {
                    Pane::Stories => vec![
                        pair("j/k/\u{2191}\u{2193}", "nav"),
                        pair("Enter", "comments"),
                        pair("Tab", "\u{2192}pane"),
                        pair("r", "read"),
                        pair("b", "bookmark"),
                        pair("u", "unread"),
                        pair("o", "open"),
                        pair("y", "copy url"),
                        pair("v", "vote"),
                        pair("p", "profile"),
                    ],
                    Pane::Comments => vec![
                        pair("j/k/\u{2191}\u{2193}", "nav"),
                        pair("Enter", "expand/collapse"),
                        pair("Space", "thread collapse"),
                        pair("Esc", "\u{2190}back"),
                        pair("u", "unread"),
                        pair("o", "open"),
                        pair("O", "hn"),
                        pair("y", "copy url"),
                        pair("v", "vote"),
                        pair("c", "reply"),
                        pair("p", "profile"),
                    ],
                };
                vec![global, pane]
            },
        };
        assert(groups_view(r@) =~~= hint_groups(*self));
        r
    }
}

/// What the comment pane shows in place of comments, if anything.
pub open spec fn comments_placeholder_of(a: App) -> Option<Seq<char>> {
    if a.comments_loading {
        Some("Loading comments\u{2026}"@)
    } else if a.comments_story_id is None {
        Some("Press Enter to load comments."@)
    } else if a.comments@.len() == 0 {
        Some("No comments yet."@)
    } else {
        None
    }
}

/// The prompt on the status line: `:` and the command typed, `?` and the search typed,
/// or none outside those prompts.
pub open spec fn prompt_of(a: App) -> Option<Seq<char>> {
    match a.mode {
        Mode::Command => Some(":"@ + a.command_input@),
        Mode::Search => Some("?"@ + a.search_input@),
        _ => None,
    }
}

/// The lines an expanded comment shows: its lines when it has text (the flag is true),
/// else the one line `[no text]` (the flag is false).
pub open spec fn expanded_of(text: Seq<char>) -> (bool, Seq<Seq<char>>) {
    if trim(text).len() > 0 {
        (true, lines_of(text))
    } else {
        (false, seq!["[no text]"@])
    }
}

/// The lines an expanded comment shows, and whether they are its text.
pub fn expanded_lines(text: &str) -> (r: (bool, Vec<String>))
    ensures
        (r.0, strings_view(r.1@)) == expanded_of(text@),
{
    let v = chars_of(text);
    let t = trim_vec(&v);
    if t.len() > 0 {
        (true, text_lines(text))
    } else {
        let mut out: Vec<String> = Vec::new();
        out.push(string_of_str("[no text]"));
        assert(strings_view(out@) =~= seq!["[no text]"@]);
        (false, out)
    }
}

/// Whether two strings hold the same characters.
fn same_text(a: &str, b: &str) -> (r: bool)
    ensures
        r == (a@ == b@),
{
    let x = chars_of(a);
    let y = chars_of(b);
    if x.len() != y.len() {
        return false;
    }
    let mut i: usize = 0;
    while i < x.len()
        invariant
            x@ == a@,
            y@ == b@,
            x@.len() == y@.len(),
            i <= x@.len(),
            forall|j: int| 0 <= j < i ==> x@[j] == y@[j],
        decreases x@.len() - i,
    {
        if x[i] != y[i] {
            return false;
        }
        i = i + 1;
    }
    assert(x@ =~= y@);
    true
}

/// A key and what it does, as strings.
fn pair(key: &str, what: &str) -> (r: (String, String))
    ensures
        r.0@ == key@,
        r.1@ == what@,
{
    (string_of_str(key), string_of_str(what))
}

/// The texts of a group of hints.
pub open spec fn pairs_view(v: Seq<(String, String)>) -> Seq<(Seq<char>, Seq<char>)> {
    v.map_values(|p: (String, String)| (p.0@, p.1@))
}

/// The texts of groups of hints.
pub open spec fn groups_view(v: Seq<Vec<(String, String)>>) -> Seq<Seq<(Seq<char>, Seq<char>)>> {
    v.map_values(|g: Vec<(String, String)>| pairs_view(g@))
}

/// The key hints for a state: one group in the prompts and reader mode; in normal mode
/// the keys that work everywhere, then those of the focused pane.
pub open spec fn hint_groups(a: App) -> Seq<Seq<(Seq<char>, Seq<char>)>> {
    match a.mode {
        Mode::Login => seq![seq![("Tab"@, "field"@), ("Enter"@, "submit"@), ("Esc"@, "cancel"@)]],
        Mode::Compose => seq![seq![("Ctrl+S"@, "post"@), ("Esc"@, "cancel"@)]],
        Mode::Command => seq![seq![("Enter"@, "run"@), ("Esc"@, "cancel"@)]],
        Mode::Search => seq![seq![("Type"@, "to search"@), ("Enter"@, "run"@), ("Esc"@, "cancel"@)]],
        Mode::Reader => seq![
            seq![
                ("j/k/\u{2191}\u{2193}"@, "scroll"@),
                ("d/u"@, "page"@),
                ("n/N"@, "section"@),
                ("o"@, "browser"@),
                ("Esc"@, "close"@),
            ],
        ],
        Mode::Normal => seq![
            seq![
                ("h"@, "help"@),
                ("R"@, "refresh"@),
                ("l"@, if a.session is Some { "logout"@ } else { "login"@ }),
                ("/"@, "cmd"@),
                ("q"@, "quit"@),
            ],
            match a.active_pane {
                Pane::Stories => seq![
                    ("j/k/\u{2191}\u{2193}"@, "nav"@),
                    ("Enter"@, "comments"@),
                    ("Tab"@, "\u{2192}pane"@),
                    ("r"@, "read"@),
                    ("b"@, "bookmark"@),
                    ("u"@, "unread"@),
                    ("o"@, "open"@),
                    ("y"@, "copy url"@),
                    ("v"@, "vote"@),
                    ("p"@, "profile"@),
                ],
                Pane::Comments => seq![
                    ("j/k/\u{2191}\u{2193}"@, "nav"@),
                    ("Enter"@, "expand/collapse"@),
                    ("Space"@, "thread collapse"@),
                    ("Esc"@, "\u{2190}back"@),
                    ("u"@, "unread"@),
                    ("o"@, "open"@),
                    ("O"@, "hn"@),
                    ("y"@, "copy url"@),
                    ("v"@, "vote"@),
                    ("c"@, "reply"@),
                    ("p"@, "profile"@),
                ],
            },
        ],
    }
}

/// The marker before a comment's author: pointing right when its thread is collapsed,
/// down when it is open.
pub fn comment_marker(collapsed: bool) -> (r: &'static str)
    ensures
        r@ == if collapsed {
            "\u{25b8}"@
        } else {
            "\u{25be}"@
        },
{
    if collapsed {
        "\u{25b8}"
    } else {
        "\u{25be}"
    }
}

/// The lines of the reader page on a terminal `height` rows tall: nine tenths of it, less
/// the two border lines.
pub fn reader_inner_height(height: u16) -> (r: usize)
    ensures
        r == if (height as int) * 90 / 100 >= 2 {
            ((height as int) * 90 / 100 - 2) as usize
        } else {
            0usize
        },
{
    let h = (height as usize) * 90 / 100;
    if h >= 2 {
        h - 2
    } else {
        0
    }
}

/// How strongly a score is highlighted: 0 for 0 to 99, 1 for 100 to 299, 2 otherwise
/// (a negative score included).
pub fn score_tier(score: i64) -> (r: u8)
    ensures
        r == if 0 <= score <= 99 {
            0u8
        } else if 100 <= score <= 299 {
            1u8
        } else {
            2u8
        },
{
    if 0 <= score && score <= 99 {
        0
    } else if 100 <= score && score <= 299 {
        1
    } else {
        2
    }
}

/// `n` asterisks.
pub open spec fn stars(n: nat) -> Seq<char> {
    Seq::new(n, |i: int| '*')
}

/// A password shown as one `*` per byte of its UTF-8 text.
pub fn masked(password: &str) -> (r: String)
    ensures
        r@ == stars(utf8_len(password@)),
{
    let v = chars_of(password);
    let mut s = String::new();
    let mut i: usize = 0;
    while i < v.len()
        invariant
            i <= v@.len(),
            s@ == stars(utf8_len(v@.take(i as int))),
        decreases v@.len() - i,
    {
        let w = char_utf8_len_exec(v[i]);
        let ghost base = s@;
        let mut k: usize = 0;
        while k < w
            invariant
                k <= w,
                s@ == base + stars(k as nat),
            decreases w - k,
        {
            s.push('*');
            assert(s@ =~= base + stars((k + 1) as nat));
            k = k + 1;
        }
        proof {
            assert(v@.take(i + 1).drop_last() =~= v@.take(i as int));
            assert(v@.take(i + 1).last() == v@[i as int]);
            assert(base + stars(w as nat) =~= stars(utf8_len(v@.take(i + 1))));
        }
        i = i + 1;
    }
    assert(v@.take(v@.len() as int) =~= v@);
    s
}

// ---------------------------------------------------------------------------
// Reader mode
// ---------------------------------------------------------------------------

/// How a line of an article is shown.
#[derive(Debug, Clone, Copy, PartialEq, Eq, Structural)]
pub enum LineKind {
    /// A heading of this level.
    Heading(u8),
    Text,
    Code,
    Quote,
    /// A list item.
    Bullet,
    Blank,
}

/// One line of an article in reader mode: its prefix, then its text.
pub struct ReaderLine {
    pub kind: LineKind,
    pub prefix: String,
    pub text: String,
}

/// What a line of kind `k` starts with: a rule for headings of level 1 and 2, a dot for
/// deeper ones, an indent for code, a bar for quotes, a bullet for list items.
pub open spec fn prefix_of(k: LineKind) -> Seq<char> {
    match k {
        LineKind::Heading(l) => if l == 1 {
            "\u{2501}\u{2501} "@
        } else if l == 2 {
            "\u{2500}\u{2500} "@
        } else {
            "\u{b7}  "@
        },
        LineKind::Code => "  "@,
        LineKind::Quote => "\u{2502} "@,
        LineKind::Bullet => "\u{2022} "@,
        LineKind::Text => ""@,
        LineKind::Blank => ""@,
    }
}

/// Each line starts with the prefix of its kind.
pub open spec fn prefixes_fit(v: Seq<ReaderLine>) -> bool {
    forall|i: int| 0 <= i < v.len() ==> (#[trigger] v[i]).prefix@ == prefix_of(v[i].kind)
}

/// The prefix of a line of kind `k`.
pub fn line_prefix(k: LineKind) -> (r: String)
    ensures
        r@ == prefix_of(k),
{
    let t = match k {
        LineKind::Heading(l) => if l == 1 {
            "\u{2501}\u{2501} "
        } else if l == 2 {
            "\u{2500}\u{2500} "
        } else {
            "\u{b7}  "
        },
        LineKind::Code => "  ",
        LineKind::Quote => "\u{2502} ",
        LineKind::Bullet => "\u{2022} ",
        LineKind::Text => "",
        LineKind::Blank => "",
    };
    string_of_str(t)
}

/// The kinds and texts of a list of reader lines.
pub open spec fn reader_lines_view(v: Seq<ReaderLine>) -> Seq<(LineKind, Seq<char>)> {
    v.map_values(|l: ReaderLine| (l.kind, l.text@))
}

/// Each line of `s` as a line of kind `k`.
pub open spec fn kind_lines(k: LineKind, s: Seq<char>) -> Seq<(LineKind, Seq<char>)> {
    lines_of(s).map_values(|l: Seq<char>| (k, l))
}

/// The lines a block is shown as: a heading and a paragraph on one line, code and quotes
/// line by line, each of these followed by a blank line; a list item on one line.
pub open spec fn block_shown(b: BlockView) -> Seq<(LineKind, Seq<char>)> {
    let blank = seq![(LineKind::Blank, Seq::<char>::empty())];
    match b {
        BlockView::Heading(l, t) => seq![(LineKind::Heading(l), t)] + blank,
        BlockView::Paragraph(t) => seq![(LineKind::Text, t)] + blank,
        BlockView::Code(t) => kind_lines(LineKind::Code, t) + blank,
        BlockView::Quote(t) => kind_lines(LineKind::Quote, t) + blank,
        BlockView::ListItem(t) => seq![(LineKind::Bullet, t)],
    }
}

/// The lines the blocks are shown as, block after block.
pub open spec fn blocks_shown(bs: Seq<BlockView>) -> Seq<(LineKind, Seq<char>)>
    decreases bs.len(),
{
    if bs.len() == 0 {
        Seq::empty()
    } else {
        blocks_shown(bs.drop_last()) + block_shown(bs.last())
    }
}

/// Appends each line of `t` as a line of kind `k`.
fn push_kind_lines(out: &mut Vec<ReaderLine>, k: LineKind, t: &str)
    requires
        prefixes_fit(old(out)@),
    ensures
        reader_lines_view(final(out)@) == reader_lines_view(old(out)@) + kind_lines(k, t@),
        prefixes_fit(final(out)@),
{
    let lines = text_lines(t);
    let ghost start = reader_lines_view(out@);
    let mut i: usize = 0;
    while i < lines.len()
        invariant
            i <= lines@.len(),
            strings_view(lines@) == lines_of(t@),
            reader_lines_view(out@) == start + kind_lines(k, t@).take(i as int),
            prefixes_fit(out@),
        decreases lines@.len() - i,
    {
        let ghost before = reader_lines_view(out@);
        proof {
            assert(strings_view(lines@)[i as int] == lines@[i as int]@);
        }
        out.push(ReaderLine { kind: k, prefix: line_prefix(k), text: lines[i].clone() });
        proof {
            assert(kind_lines(k, t@).take(i + 1) =~= kind_lines(k, t@).take(i as int).push(
                (k, lines@[i as int]@),
            ));
            assert(reader_lines_view(out@) =~= before.push((k, lines@[i as int]@)));
        }
        i = i + 1;
    }
    assert(kind_lines(k, t@).take(lines@.len() as int) =~= kind_lines(k, t@));
}

fn push_line(out: &mut Vec<ReaderLine>, k: LineKind, t: &String)
    requires
        prefixes_fit(old(out)@),
    ensures
        reader_lines_view(final(out)@) == reader_lines_view(old(out)@).push((k, t@)),
        prefixes_fit(final(out)@),
{
    let ghost before = reader_lines_view(out@);
    out.push(ReaderLine { kind: k, prefix: line_prefix(k), text: t.clone() });
    assert(reader_lines_view(out@) =~= before.push((k, t@)));
}

/// The lines an article's blocks are shown as in reader mode, each starting with the
/// prefix of its kind.
pub fn reader_lines(blocks: &Vec<Block>) -> (r: Vec<ReaderLine>)
    ensures
        reader_lines_view(r@) == blocks_shown(crate::reader::blocks_view(blocks@)),
        prefixes_fit(r@),
{
    let mut out: Vec<ReaderLine> = Vec::new();
    let mut i: usize = 0;
    let blank = String::new();
    while i < blocks.len()
        invariant
            i <= blocks@.len(),
            blank@ == Seq::<char>::empty(),
            prefixes_fit(out@),
            reader_lines_view(out@) == blocks_shown(
                crate::reader::blocks_view(blocks@.take(i as int)),
            ),
        decreases blocks@.len() - i,
    {
        let ghost before = reader_lines_view(out@);
        match &blocks[i] {
            Block::Heading(l, t) => {
                push_line(&mut out, LineKind::Heading(*l), t);
                push_line(&mut out, LineKind::Blank, &blank);
            },
            Block::Paragraph(t) => {
                push_line(&mut out, LineKind::Text, t);
                push_line(&mut out, LineKind::Blank, &blank);
            },
            Block::Code(t) => {
                push_kind_lines(&mut out, LineKind::Code, t.as_str());
                push_line(&mut out, LineKind::Blank, &blank);
            },
            Block::Quote(t) => {
                push_kind_lines(&mut out, LineKind::Quote, t.as_str());
                push_line(&mut out, LineKind::Blank, &blank);
            },
            Block::ListItem(t) => {
                push_line(&mut out, LineKind::Bullet, t);
            },
        }
        proof {
            let bv = crate::reader::blocks_view(blocks@.take(i + 1));
            assert(bv.drop_last() =~= crate::reader::blocks_view(blocks@.take(i as int)));
            assert(bv.last() == blocks@[i as int]@);
            assert(reader_lines_view(out@) =~= before + block_shown(blocks@[i as int]@));
        }
        i = i + 1;
    }
    assert(blocks@.take(blocks@.len() as int) =~= blocks@);
    out
}

} // verus!
