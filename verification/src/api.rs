//! Hacker News items and users as the API gives them, what is shown of them, the
//! addresses the client talks to, and what it reads back out of HN's pages.
use vstd::prelude::*;
use crate::text::{
    char_alphanumeric, chars_of, decimal, find_exec, find_from, is_alphanumeric,
    lemma_find_from_props, push_decimal, push_str, string_of, string_of_range, trim, trim_vec,
};

verus! {

broadcast use vstd::string::group_string_axioms;

// ---------------------------------------------------------------------------
// Items
// ---------------------------------------------------------------------------

/// A story, comment, job or poll, with the fields the API may send.
pub struct Item {
    pub id: u64,
    pub kind: Option<String>,
    pub title: Option<String>,
    pub url: Option<String>,
    pub text: Option<String>,
    pub by: Option<String>,
    pub score: Option<i64>,
    pub time: Option<u64>,
    pub descendants: Option<u64>,
    pub kids: Option<Vec<u64>>,
    pub parent: Option<u64>,
    pub deleted: Option<bool>,
    pub dead: Option<bool>,
}

/// An item with its strings and lists as sequences.
pub struct ItemView {
    pub id: u64,
    pub kind: Option<Seq<char>>,
    pub title: Option<Seq<char>>,
    pub url: Option<Seq<char>>,
    pub text: Option<Seq<char>>,
    pub by: Option<Seq<char>>,
    pub score: Option<i64>,
    pub time: Option<u64>,
    pub descendants: Option<u64>,
    pub kids: Option<Seq<u64>>,
    pub parent: Option<u64>,
    pub deleted: Option<bool>,
    pub dead: Option<bool>,
}

/// The view of an optional string.
pub open spec fn opt_str(o: Option<String>) -> Option<Seq<char>> {
    match o {
        Some(s) => Some(s@),
        None => None,
    }
}

/// The view of an optional list of ids.
pub open spec fn opt_ids(o: Option<Vec<u64>>) -> Option<Seq<u64>> {
    match o {
        Some(v) => Some(v@),
        None => None,
    }
}

impl View for Item {
    type V = ItemView;

    open spec fn view(&self) -> ItemView {
        ItemView {
            id: self.id,
            kind: opt_str(self.kind),
            title: opt_str(self.title),
            url: opt_str(self.url),
            text: opt_str(self.text),
            by: opt_str(self.by),
            score: self.score,
            time: self.time,
            descendants: self.descendants,
            kids: opt_ids(self.kids),
            parent: self.parent,
            deleted: self.deleted,
            dead: self.dead,
        }
    }
}

/// A copy of an optional string.
pub fn clone_opt_str(o: &Option<String>) -> (r: Option<String>)
    ensures
        opt_str(r) == opt_str(*o),
{
    match o {
        Some(s) => Some(s.clone()),
        None => None,
    }
}

/// A copy of an optional list of ids.
pub fn clone_opt_ids(o: &Option<Vec<u64>>) -> (r: Option<Vec<u64>>)
    ensures
        opt_ids(r) == opt_ids(*o),
{
    match o {
        Some(v) => Some(v.clone()),
        None => None,
    }
}

impl Clone for Item {
    fn clone(&self) -> (r: Self)
        ensures
            r@ == self@,
    {
        Item {
            id: self.id,
            kind: clone_opt_str(&self.kind),
            title: clone_opt_str(&self.title),
            url: clone_opt_str(&self.url),
            text: clone_opt_str(&self.text),
            by: clone_opt_str(&self.by),
            score: self.score,
            time: self.time,
            descendants: self.descendants,
            kids: clone_opt_ids(&self.kids),
            parent: self.parent,
            deleted: self.deleted,
            dead: self.dead,
        }
    }
}

/// The title shown for an item: its title, or `[untitled]`.
pub open spec fn shown_title(i: ItemView) -> Seq<char> {
    match i.title {
        Some(t) => t,
        None => "[untitled]"@,
    }
}

/// The author shown for an item: its author, or `?`.
pub open spec fn shown_by(i: ItemView) -> Seq<char> {
    match i.by {
        Some(b) => b,
        None => "?"@,
    }
}

/// How long ago `secs` seconds is, in its largest whole unit: `"42s ago"`, `"5m ago"`,
/// `"3h ago"`, `"12d ago"`.
pub open spec fn ago_text(secs: u64) -> Seq<char> {
    if secs < 60 {
        decimal(secs as nat) + "s ago"@
    } else if secs < 3600 {
        decimal((secs / 60) as nat) + "m ago"@
    } else if secs < 86400 {
        decimal((secs / 3600) as nat) + "h ago"@
    } else {
        decimal((secs / 86400) as nat) + "d ago"@
    }
}

/// `a - b`, or 0 when `b > a` (as `u64::saturating_sub`).
pub open spec fn sat_sub(a: u64, b: u64) -> u64 {
    if a >= b {
        (a - b) as u64
    } else {
        0
    }
}

/// What `html2text::from_read` renders the HTML `html` to at `width` columns, or `None`
/// when it reports an error.
pub uninterp spec fn html_plain(html: Seq<char>, width: usize) -> Option<Seq<char>>;

/// Calls `html2text::from_read` on the bytes of `html`. Claims only that the result is
/// the named rendering `html_plain(html, width)` (`None` for an error).
#[verifier::external_body]
fn html_to_text(html: &str, width: usize) -> (r: Option<String>)
    ensures
        match r {
            Some(s) => html_plain(html@, width) == Some(s@),
            None => html_plain(html@, width) is None,
        },
{
    html2text::from_read(html.as_bytes(), width).ok()
}

/// The plain text of an optional HTML string, rendered at 80 columns; empty when there
/// is none or the rendering fails.
pub open spec fn plain_of(html: Option<Seq<char>>) -> Seq<char> {
    match html {
        None => Seq::empty(),
        Some(h) => match html_plain(h, 80) {
            Some(p) => p,
            None => Seq::empty(),
        },
    }
}

/// The plain text of an optional HTML string.
fn plain_text(html: &Option<String>) -> (r: String)
    ensures
        r@ == plain_of(opt_str(*html)),
{
    match html {
        Some(t) => match html_to_text(t.as_str(), 80) {
            Some(p) => p,
            None => String::new(),
        },
        None => String::new(),
    }
}

/// Milliseconds since the Unix epoch by the system clock (0 if the clock is before it).
/// Nothing is claimed of the value: it is the time of the call.
#[verifier::external_body]
pub(crate) fn unix_time_millis() -> u64 {
    std::time::SystemTime::now().duration_since(std::time::UNIX_EPOCH).map(
        |d| d.as_millis() as u64,
    ).unwrap_or(0)
}

impl Item {
    /// The title, or `[untitled]`.
    pub fn display_title(&self) -> (r: &str)
        ensures
            r@ == shown_title(self@),
    {
        match &self.title {
            Some(t) => t.as_str(),
            None => "[untitled]",
        }
    }

    /// The author, or `?`.
    pub fn display_by(&self) -> (r: &str)
        ensures
            r@ == shown_by(self@),
    {
        match &self.by {
            Some(b) => b.as_str(),
            None => "?",
        }
    }

    /// The number of comments, or 0.
    pub fn comment_count(&self) -> (r: u64)
        ensures
            r == match self.descendants {
                Some(d) => d,
                None => 0,
            },
    {
        match self.descendants {
            Some(d) => d,
            None => 0,
        }
    }

    /// The score, or 0.
    pub fn score(&self) -> (r: i64)
        ensures
            r == match self.score {
                Some(s) => s,
                None => 0,
            },
    {
        match self.score {
            Some(s) => s,
            None => 0,
        }
    }

    /// Whether the item was deleted or killed.
    pub fn is_deleted_or_dead(&self) -> (r: bool)
        ensures
            r == (self.deleted == Some(true) || self.dead == Some(true)),
    {
        let deleted = match self.deleted {
            Some(b) => b,
            None => false,
        };
        let dead = match self.dead {
            Some(b) => b,
            None => false,
        };
        deleted || dead
    }

    /// How long before `now` (seconds since the epoch) the item was posted; empty when
    /// its time is unknown.
    pub fn time_ago_at(&self, now: u64) -> (r: String)
        ensures
            r@ == match self.time {
                None => Seq::empty(),
                Some(t) => ago_text(sat_sub(now, t)),
            },
    {
        match self.time {
            None => String::new(),
            Some(t) => ago_string(if now >= t {
                now - t
            } else {
                0
            }),
        }
    }

    /// How long ago the item was posted, by the system clock.
    pub fn time_ago(&self) -> (r: String)
        ensures
            self.time is None ==> r@ == Seq::<char>::empty(),
            self.time matches Some(t) ==> exists|now: u64| r@ == ago_text(sat_sub(now, t)),
    {
        let now = unix_time_millis() / 1000;
        self.time_ago_at(now)
    }

    /// The item's text rendered from HTML to plain text.
    pub fn text_plain(&self) -> (r: String)
        ensures
            r@ == plain_of(self@.text),
    {
        plain_text(&self.text)
    }
}

/// `ago_text(secs)` as a string.
fn ago_string(secs: u64) -> (r: String)
    ensures
        r@ == ago_text(secs),
{
    let mut s = String::new();
    if secs < 60 {
        push_decimal(&mut s, secs);
        push_str(&mut s, "s ago");
    } else if secs < 3600 {
        push_decimal(&mut s, secs / 60);
        push_str(&mut s, "m ago");
    } else if secs < 86400 {
        push_decimal(&mut s, secs / 3600);
        push_str(&mut s, "h ago");
    } else {
        push_decimal(&mut s, secs / 86400);
        push_str(&mut s, "d ago");
    }
    s
}

/// An item like the ones the API sends for stories: title `Story <id>`, address
/// `https://example.com/<id>`, author `user<id>`, score 100 and 10 comments.
pub fn make_item(id: u64) -> (r: Item)
    ensures
        r.id == id,
        r@.title == Some("Story "@ + decimal(id as nat)),
        r@.url == Some("https://example.com/"@ + decimal(id as nat)),
        r@.by == Some("user"@ + decimal(id as nat)),
        r.score == Some(100i64),
        r.descendants == Some(10u64),
        r.kind is None && r.text is None && r.time is None && r.kids is None,
        r.parent is None && r.deleted is None && r.dead is None,
{
    let mut title = String::new();
    push_str(&mut title, "Story ");
    push_decimal(&mut title, id);
    let mut url = String::new();
    push_str(&mut url, "https://example.com/");
    push_decimal(&mut url, id);
    let mut by = String::new();
    push_str(&mut by, "user");
    push_decimal(&mut by, id);
    Item {
        id,
        kind: None,
        title: Some(title),
        url: Some(url),
        text: None,
        by: Some(by),
        score: Some(100),
        time: None,
        descendants: Some(10),
        kids: None,
        parent: None,
        deleted: None,
        dead: None,
    }
}

/// A story as a search hit describes it: `None` when the hit's `objectID` is not a
/// number.
pub fn item_from_search_hit(
    object_id: &str,
    title: Option<String>,
    url: Option<String>,
    author: Option<String>,
    points: Option<i64>,
    num_comments: Option<u64>,
    created_at: Option<u64>,
) -> (r: Option<Item>)
    ensures
        match crate::text::parse_u64(object_id@) {
            None => r is None,
            Some(id) => r matches Some(it) && it@ == (ItemView {
                id,
                kind: Some("story"@),
                title: opt_str(title),
                url: opt_str(url),
                text: None,
                by: opt_str(author),
                score: points,
                time: created_at,
                descendants: num_comments,
                kids: None,
                parent: None,
                deleted: None,
                dead: None,
            }),
        },
{
    let v = chars_of(object_id);
    assert(v@.subrange(0, v@.len() as int) =~= v@);
    match crate::text::parse_u64_range(&v, 0, v.len()) {
        None => None,
        Some(id) => {
            let kind = string_of_str("story");
            Some(
                Item {
                    id,
                    kind: Some(kind),
                    title,
                    url,
                    text: None,
                    by: author,
                    score: points,
                    time: created_at,
                    descendants: num_comments,
                    kids: None,
                    parent: None,
                    deleted: None,
                    dead: None,
                },
            )
        },
    }
}

/// A `String` holding `t`.
pub fn string_of_str(t: &str) -> (r: String)
    ensures
        r@ == t@,
{
    let mut s = String::new();
    push_str(&mut s, t);
    s
}

// ---------------------------------------------------------------------------
// Users
// ---------------------------------------------------------------------------

/// A Hacker News account.
pub struct User {
    pub id: String,
    pub karma: i64,
    pub created: u64,
    pub about: Option<String>,
    pub submitted: Option<Vec<u64>>,
}

/// How long ago `secs` seconds is, for an account: whole days under 30 days, then
/// 30-day months under 365 days, then 365-day years.
pub open spec fn joined_text(secs: u64) -> Seq<char> {
    let days = secs / 86400;
    if days < 30 {
        decimal(days as nat) + " days ago"@
    } else if days < 365 {
        decimal((days / 30) as nat) + " months ago"@
    } else {
        decimal((days / 365) as nat) + " years ago"@
    }
}

impl User {
    /// The profile's "about" text rendered from HTML to plain text.
    pub fn about_plain(&self) -> (r: String)
        ensures
            r@ == plain_of(opt_str(self.about)),
    {
        plain_text(&self.about)
    }

    /// The number of submissions, or 0 when none are listed.
    pub fn submission_count(&self) -> (r: usize)
        ensures
            r == match self.submitted {
                Some(v) => v@.len(),
                None => 0,
            },
    {
        match &self.submitted {
            Some(v) => v.len(),
            None => 0,
        }
    }

    /// How long before `now` (seconds since the epoch) the account was made.
    pub fn joined_ago_at(&self, now: u64) -> (r: String)
        ensures
            r@ == joined_text(sat_sub(now, self.created)),
    {
        let secs = if now >= self.created {
            now - self.created
        } else {
            0
        };
        let days = secs / 86400;
        let mut s = String::new();
        if days < 30 {
            push_decimal(&mut s, days);
            push_str(&mut s, " days ago");
        } else if days < 365 {
            push_decimal(&mut s, days / 30);
            push_str(&mut s, " months ago");
        } else {
            push_decimal(&mut s, days / 365);
            push_str(&mut s, " years ago");
        }
        s
    }

    /// How long ago the account was made, by the system clock.
    pub fn joined_ago(&self) -> (r: String)
        ensures
            exists|now: u64| r@ == joined_text(sat_sub(now, self.created)),
    {
        let now = unix_time_millis() / 1000;
        self.joined_ago_at(now)
    }
}

// ---------------------------------------------------------------------------
// Addresses
// ---------------------------------------------------------------------------

/// The address of the HN discussion page of item `id`.
pub open spec fn item_page_url_spec(id: u64) -> Seq<char> {
    "https://news.ycombinator.com/item?id="@ + decimal(id as nat)
}

/// The address of the HN discussion page of item `id`.
pub fn item_page_url(id: u64) -> (r: String)
    ensures
        r@ == item_page_url_spec(id),
{
    let mut s = string_of_str("https://news.ycombinator.com/item?id=");
    push_decimal(&mut s, id);
    s
}

/// The address of the HN profile page of user `name`.
pub open spec fn user_page_url_spec(name: Seq<char>) -> Seq<char> {
    "https://news.ycombinator.com/user?id="@ + name
}

/// The address of the HN profile page of user `name`.
pub fn user_page_url(name: &str) -> (r: String)
    ensures
        r@ == user_page_url_spec(name@),
{
    let mut s = string_of_str("https://news.ycombinator.com/user?id=");
    push_str(&mut s, name);
    s
}

/// The API address of item `id` under `base`.
pub fn item_url(base: &str, id: u64) -> (r: String)
    ensures
        r@ == base@ + "/item/"@ + decimal(id as nat) + ".json"@,
{
    let mut s = string_of_str(base);
    push_str(&mut s, "/item/");
    push_decimal(&mut s, id);
    push_str(&mut s, ".json");
    s
}

/// The API address of user `name` under `base`.
pub fn user_url(base: &str, name: &str) -> (r: String)
    ensures
        r@ == base@ + "/user/"@ + name@ + ".json"@,
{
    let mut s = string_of_str(base);
    push_str(&mut s, "/user/");
    push_str(&mut s, name);
    push_str(&mut s, ".json");
    s
}

/// The page that holds the upvote link of a story's items.
pub fn vote_page_url(story_id: u64) -> (r: String)
    ensures
        r@ == item_page_url_spec(story_id),
{
    item_page_url(story_id)
}

/// The address that upvotes `item_id` with the token `auth`, coming back to the story.
pub fn vote_url(item_id: u64, auth: &str, story_id: u64) -> (r: String)
    ensures
        r@ == "https://news.ycombinator.com/vote?id="@ + decimal(item_id as nat)
            + "&how=up&auth="@ + auth@ + "&goto=item%3Fid%3D"@ + decimal(story_id as nat),
{
    let mut s = string_of_str("https://news.ycombinator.com/vote?id=");
    push_decimal(&mut s, item_id);
    push_str(&mut s, "&how=up&auth=");
    push_str(&mut s, auth);
    push_str(&mut s, "&goto=item%3Fid%3D");
    push_decimal(&mut s, story_id);
    s
}

/// The page that holds the reply form for `parent_id`.
pub fn reply_url(parent_id: u64) -> (r: String)
    ensures
        r@ == "https://news.ycombinator.com/reply?id="@ + decimal(parent_id as nat),
{
    let mut s = string_of_str("https://news.ycombinator.com/reply?id=");
    push_decimal(&mut s, parent_id);
    s
}

/// The form fields that post a comment: `parent`, `goto`, `hmac` and `text`.
pub fn comment_form(parent_id: u64, story_id: u64, hmac: &str, text: &str) -> (r: Vec<
    (String, String),
>)
    ensures
        r@.len() == 4,
        r@[0].0@ == "parent"@ && r@[0].1@ == decimal(parent_id as nat),
        r@[1].0@ == "goto"@ && r@[1].1@ == "item?id="@ + decimal(story_id as nat),
        r@[2].0@ == "hmac"@ && r@[2].1@ == hmac@,
        r@[3].0@ == "text"@ && r@[3].1@ == text@,
{
    let mut parent = String::new();
    push_decimal(&mut parent, parent_id);
    assert(parent@ =~= decimal(parent_id as nat));
    let mut goto = string_of_str("item?id=");
    push_decimal(&mut goto, story_id);
    let mut r: Vec<(String, String)> = Vec::new();
    r.push((string_of_str("parent"), parent));
    r.push((string_of_str("goto"), goto));
    r.push((string_of_str("hmac"), string_of_str(hmac)));
    r.push((string_of_str("text"), string_of_str(text)));
    r
}

// ---------------------------------------------------------------------------
// Reading HN's pages
// ---------------------------------------------------------------------------

/// Index of the first character at or after `i` for which `ok` fails, or `s.len()`.
pub open spec fn run_end(s: Seq<char>, i: int, alnum: bool) -> int
    decreases s.len() - i,
{
    if i >= s.len() {
        s.len() as int
    } else if (alnum && char_alphanumeric(s[i])) || (!alnum && s[i] != '"') {
        run_end(s, i + 1, alnum)
    } else {
        i
    }
}

/// The characters of `s` from `i` up to the end of the run that `run_end` finds.
pub open spec fn run_from(s: Seq<char>, i: int, alnum: bool) -> Seq<char> {
    s.subrange(i, run_end(s, i, alnum))
}

proof fn lemma_run_end_bounds(s: Seq<char>, i: int, alnum: bool)
    requires
        0 <= i <= s.len(),
    ensures
        i <= run_end(s, i, alnum) <= s.len(),
    decreases s.len() - i,
{
    if i < s.len() && ((alnum && char_alphanumeric(s[i])) || (!alnum && s[i] != '"')) {
        lemma_run_end_bounds(s, i + 1, alnum);
    }
}

/// The token that follows the first occurrence of `needle` in `h`: its alphanumeric run
/// (`alnum`) or the run up to the next `"`; `None` when `needle` does not occur or the
/// run is empty.
pub open spec fn token_after(h: Seq<char>, needle: Seq<char>, alnum: bool) -> Option<Seq<char>> {
    match find_from(h, 0, needle) {
        None => None,
        Some(p) => {
            let t = run_from(h, p + needle.len(), alnum);
            if t.len() > 0 {
                Some(t)
            } else {
                None
            }
        },
    }
}

/// Whether `c` continues a run: an alphanumeric character (`alnum`), or anything but `"`.
fn run_char(c: char, alnum: bool) -> (r: bool)
    ensures
        r == ((alnum && char_alphanumeric(c)) || (!alnum && c != '"')),
{
    if alnum {
        is_alphanumeric(c)
    } else {
        c != '"'
    }
}

fn token_after_exec(h: &Vec<char>, needle: &Vec<char>, alnum: bool) -> (r: Option<String>)
    ensures
        match r {
            Some(s) => token_after(h@, needle@, alnum) == Some(s@),
            None => token_after(h@, needle@, alnum) is None,
        },
{
    proof {
        lemma_find_from_props(h@, 0, needle@);
    }
    match find_exec(h, 0, needle) {
        None => None,
        Some(p) => {
            let _hl = h.len();
            let start = p + needle.len();
            let mut k = start;
            while k < h.len() && run_char(h[k], alnum)
                invariant
                    start <= k <= h@.len(),
                    run_end(h@, k as int, alnum) == run_end(h@, start as int, alnum),
                decreases h@.len() - k,
            {
                k = k + 1;
            }
            if k == start {
                None
            } else {
                Some(string_of_range(h, start, k))
            }
        },
    }
}

/// The text before the upvote token of item `id` on its story's page.
pub open spec fn vote_needle(id: u64) -> Seq<char> {
    "vote?id="@ + decimal(id as nat) + "&amp;how=up&amp;auth="@
}

/// The text before the reply token on a reply page.
pub open spec fn hmac_needle() -> Seq<char> {
    "name=\"hmac\" value=\""@
}

/// The upvote token for `item_id` on a story page: the alphanumeric run after the first
/// `vote?id=<id>&amp;how=up&amp;auth=`; `None` when there is none (already voted, or the
/// item is too old).
pub fn extract_vote_auth(html: &str, item_id: u64) -> (r: Option<String>)
    ensures
        match r {
            Some(s) => token_after(html@, vote_needle(item_id), true) == Some(s@),
            None => token_after(html@, vote_needle(item_id), true) is None,
        },
{
    let h = chars_of(html);
    let mut n = string_of_str("vote?id=");
    push_decimal(&mut n, item_id);
    push_str(&mut n, "&amp;how=up&amp;auth=");
    let needle = chars_of(n.as_str());
    token_after_exec(&h, &needle, true)
}

/// The reply token on a reply page: what stands between `name="hmac" value="` and the
/// next `"`; `None` when there is none (not logged in).
pub fn extract_reply_hmac(html: &str) -> (r: Option<String>)
    ensures
        match r {
            Some(s) => token_after(html@, hmac_needle(), false) == Some(s@),
            None => token_after(html@, hmac_needle(), false) is None,
        },
{
    let h = chars_of(html);
    let needle = chars_of("name=\"hmac\" value=\"");
    token_after_exec(&h, &needle, false)
}

/// The part of `s` before its first `;`, or all of `s`.
pub open spec fn before_semicolon(s: Seq<char>) -> Seq<char> {
    match find_from(s, 0, seq![';']) {
        Some(i) => s.take(i),
        None => s,
    }
}

/// `v` is a session cookie that logs in: it starts with `user=` and does not say
/// `user=deleted`.
pub open spec fn is_login_cookie(v: Seq<char>) -> bool {
    v.len() >= 5 && v.take(5) == "user="@ && find_from(v, 0, "user=deleted"@) is None
}

/// The session cookie among the `Set-Cookie` values `vs` from index `i` on: the first
/// login cookie, cut at its first `;` and trimmed.
pub open spec fn login_cookie_from(vs: Seq<Seq<char>>, i: int) -> Option<Seq<char>>
    decreases vs.len() - i,
{
    if i < 0 || i >= vs.len() {
        None
    } else if is_login_cookie(vs[i]) {
        Some(trim(before_semicolon(vs[i])))
    } else {
        login_cookie_from(vs, i + 1)
    }
}

/// The views of a list of strings.
pub open spec fn strs_view(v: Seq<String>) -> Seq<Seq<char>> {
    v.map_values(|s: String| s@)
}

/// The session cookie that a login response sets, given its `Set-Cookie` values.
pub fn extract_login_cookie(set_cookies: &Vec<String>) -> (r: Option<String>)
    ensures
        match r {
            Some(c) => login_cookie_from(strs_view(set_cookies@), 0) == Some(c@),
            None => login_cookie_from(strs_view(set_cookies@), 0) is None,
        },
{
    let ghost vs = strs_view(set_cookies@);
    let prefix = chars_of("user=");
    let deleted = chars_of("user=deleted");
    let semi = chars_of(";");
    proof {
        reveal_strlit(";");
    }
    assert(semi@ =~= seq![';']);
    let mut i: usize = 0;
    while i < set_cookies.len()
        invariant
            i <= set_cookies@.len(),
            vs == strs_view(set_cookies@),
            prefix@ == "user="@,
            deleted@ == "user=deleted"@,
            semi@ == seq![';'],
            login_cookie_from(vs, i as int) == login_cookie_from(vs, 0),
        decreases set_cookies@.len() - i,
    {
        let v = chars_of(set_cookies[i].as_str());
        assert(vs[i as int] == v@);
        proof {
            lemma_find_from_props(v@, 0, deleted@);
        }
        let starts = crate::text::matches_at_exec(&v, 0, &prefix);
        let has_deleted = find_exec(&v, 0, &deleted).is_some();
        proof {
            reveal_strlit("user=");
            if starts {
                assert(v@.subrange(0, 5) =~= v@.take(5));
            } else if v@.len() >= 5 {
                assert(v@.subrange(0, 5) =~= v@.take(5));
            }
        }
        if starts && !has_deleted {
            proof {
                lemma_find_from_props(v@, 0, seq![';']);
            }
            let cut = match crate::text::find_char(&v, 0, ';') {
                Some(j) => {
                    let mut c: Vec<char> = Vec::new();
                    let mut k: usize = 0;
                    while k < j
                        invariant
                            k <= j <= v@.len(),
                            c@ == v@.take(k as int),
                        decreases j - k,
                    {
                        c.push(v[k]);
                        assert(v@.take(k + 1) =~= v@.take(k as int).push(v@[k as int]));
                        k = k + 1;
                    }
                    c
                },
                None => v,
            };
            proof {
                lemma_find_from_props(v@, 0, seq![';']);
            }
            let t = trim_vec(&cut);
            return Some(string_of(&t));
        }
        i = i + 1;
    }
    None
}

} // verus!
