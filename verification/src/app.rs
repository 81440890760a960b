//! The application state: the feed, the story list and comment pane, modes, login and
//! compose forms, bookmarks and read stories, reader mode, and the moves that change it.
use vstd::prelude::*;
use std::collections::{HashMap, HashSet};
use std::time::Instant;
use crate::clock::clock_now;
use crate::api::{
    Item, ItemView, User, item_page_url, item_page_url_spec, opt_str, sat_sub, shown_title,
    string_of_str,
};
use crate::comments::{CommentNode, flat_list, flatten_all, rows_match, toggle_in_tree, toggled};
use crate::reader::Block;
use crate::session::{Session, session_of_text};
use crate::seen::{seen_from_text, seen_of_text};
use crate::shimmer::Progress;
use crate::text::push_str;

verus! {

broadcast use vstd::std_specs::hash::group_hash_axioms;

/// Which list of stories is shown.
#[derive(Debug, Clone, Copy, PartialEq, Eq, Structural)]
pub enum Feed {
    Top,
    New,
    Best,
    Ask,
    Show,
    Jobs,
    Bookmarks,
}

/// The name a feed is shown by.
pub open spec fn feed_label(f: Feed) -> Seq<char> {
    match f {
        Feed::Top => "Top"@,
        Feed::New => "New"@,
        Feed::Best => "Best"@,
        Feed::Ask => "Ask HN"@,
        Feed::Show => "Show HN"@,
        Feed::Jobs => "Jobs"@,
        Feed::Bookmarks => "Bookmarks"@,
    }
}

/// The API list a feed is read from (bookmarks are kept locally).
pub open spec fn feed_endpoint(f: Feed) -> Option<Seq<char>> {
    match f {
        Feed::Top => Some("topstories"@),
        Feed::New => Some("newstories"@),
        Feed::Best => Some("beststories"@),
        Feed::Ask => Some("askstories"@),
        Feed::Show => Some("showstories"@),
        Feed::Jobs => Some("jobstories"@),
        Feed::Bookmarks => None,
    }
}

impl Feed {
    /// The feed's name.
    pub fn label(&self) -> (r: &str)
        ensures
            r@ == feed_label(*self),
    {
        match self {
            Feed::Top => "Top",
            Feed::New => "New",
            Feed::Best => "Best",
            Feed::Ask => "Ask HN",
            Feed::Show => "Show HN",
            Feed::Jobs => "Jobs",
            Feed::Bookmarks => "Bookmarks",
        }
    }

    /// The API list the feed is read from, if any.
    pub fn endpoint(&self) -> (r: Option<&str>)
        ensures
            match r {
                Some(e) => feed_endpoint(*self) == Some(e@),
                None => feed_endpoint(*self) is None,
            },
    {
        match self {
            Feed::Top => Some("topstories"),
            Feed::New => Some("newstories"),
            Feed::Best => Some("beststories"),
            Feed::Ask => Some("askstories"),
            Feed::Show => Some("showstories"),
            Feed::Jobs => Some("jobstories"),
            Feed::Bookmarks => None,
        }
    }
}

/// The API address of a feed's list of ids under `base`.
pub fn feed_url(base: &str, feed: Feed) -> (r: Option<String>)
    ensures
        match feed_endpoint(feed) {
            Some(e) => r matches Some(u) && u@ == base@ + "/"@ + e + ".json"@,
            None => r is None,
        },
{
    match feed.endpoint() {
        None => None,
        Some(e) => {
            let mut s = string_of_str(base);
            push_str(&mut s, "/");
            push_str(&mut s, e);
            push_str(&mut s, ".json");
            Some(s)
        },
    }
}

/// Which pane has the focus.
#[derive(Debug, Clone, Copy, PartialEq, Eq, Structural)]
pub enum Pane {
    Stories,
    Comments,
}

/// What the main area shows.
#[derive(Debug, Clone, Copy, PartialEq, Eq, Structural)]
pub enum ViewMode {
    Story,
    User,
}

/// The login form's field with the focus.
#[derive(Debug, Clone, Copy, PartialEq, Eq, Structural)]
pub enum LoginField {
    Username,
    Password,
}

/// The login form.
pub struct LoginState {
    pub username: String,
    pub password: String,
    pub field: LoginField,
    pub error: String,
}

impl LoginState {
    /// An empty form with the focus on the user name.
    pub fn new() -> (r: Self)
        ensures
            r.username@ == Seq::<char>::empty(),
            r.password@ == Seq::<char>::empty(),
            r.field == LoginField::Username,
            r.error@ == Seq::<char>::empty(),
    {
        LoginState {
            username: String::new(),
            password: String::new(),
            field: LoginField::Username,
            error: String::new(),
        }
    }
}

/// A reply being written.
pub struct ComposeState {
    pub text: String,
    pub parent_id: u64,
    pub story_id: u64,
    pub hmac: String,
    pub parent_by: String,
}

/// What keys are read as.
#[derive(Debug, Clone, Copy, PartialEq, Eq, Structural)]
pub enum Mode {
    Normal,
    Command,
    Login,
    Compose,
    Search,
    Reader,
}

/// An article as reader mode shows it.
pub struct ReaderContent {
    pub title: String,
    pub blocks: Vec<Block>,
}

/// The whole state of the application.
pub struct App {
    pub feed: Feed,
    pub stories: Vec<Item>,
    pub story_ids: Vec<u64>,
    pub story_cursor: usize,
    pub story_scroll: usize,
    pub comments: Vec<CommentNode>,
    pub comments_story_id: Option<u64>,
    pub comments_loading: bool,
    pub comment_cursor: usize,
    pub comment_scroll: usize,
    pub active_pane: Pane,
    pub mode: Mode,
    pub command_input: String,
    pub status_message: String,
    pub view_mode: ViewMode,
    pub user_profile: Option<User>,
    pub session: Option<Session>,
    pub login_state: LoginState,
    pub compose_state: Option<ComposeState>,
    pub expanded_comment: Option<u64>,
    pub bookmark_ids: HashSet<u64>,
    pub seen_ids: HashSet<u64>,
    pub search_input: String,
    pub search_query: Option<String>,
    pub search_base: String,
    pub reader_content: Option<ReaderContent>,
    pub reader_scroll: usize,
    pub reader_section_offsets: Vec<usize>,
    pub reader_total_lines: usize,
    /// When the selected story was last changed to, in milliseconds since the epoch.
    pub story_dwell_start: Option<Instant>,
    pub prefetching_story_id: Option<u64>,
    pub progress: Option<Progress>,
    pub loading: bool,
    pub api_base: String,
    pub item_cache: HashMap<u64, Item>,
    pub comment_pos_cache: HashMap<u64, (usize, usize)>,
}

/// The story under the cursor.
pub open spec fn selected(a: App) -> Option<Item> {
    if a.story_cursor < a.stories@.len() {
        Some(a.stories@[a.story_cursor as int])
    } else {
        None
    }
}

/// The visible comment rows.
pub open spec fn rows(a: App) -> Seq<(CommentNode, usize)> {
    flat_list(a.comments@)
}

/// The comment under the comment cursor.
pub open spec fn comment_at_cursor(a: App) -> Option<CommentNode> {
    if a.comment_cursor < rows(a).len() {
        Some(rows(a)[a.comment_cursor as int].0)
    } else {
        None
    }
}

/// `x - 1`, or 0.
pub open spec fn minus_one(x: nat) -> nat {
    if x > 0 {
        (x - 1) as nat
    } else {
        0
    }
}

/// The smaller of two numbers.
pub open spec fn min_nat(x: nat, y: nat) -> nat {
    if x <= y {
        x
    } else {
        y
    }
}

/// The start-up state apart from the kept session, bookmarks and read stories: the top
/// feed, nothing loaded yet, the story list focused in normal mode.
pub open spec fn start_state(r: App) -> bool {
    &&& r.feed == Feed::Top
    &&& r.stories@.len() == 0 && r.story_ids@.len() == 0
    &&& r.story_cursor == 0 && r.story_scroll == 0
    &&& r.comments@.len() == 0 && r.comments_story_id is None && !r.comments_loading
    &&& r.comment_cursor == 0 && r.comment_scroll == 0
    &&& r.active_pane == Pane::Stories && r.mode == Mode::Normal
    &&& r.command_input@ == Seq::<char>::empty()
    &&& r.status_message@ == "Loading..."@
    &&& r.view_mode == ViewMode::Story && r.user_profile is None
    &&& r.compose_state is None && r.expanded_comment is None
    &&& r.login_state.username@ == Seq::<char>::empty()
    &&& r.login_state.password@ == Seq::<char>::empty()
    &&& r.login_state.field == LoginField::Username
    &&& r.login_state.error@ == Seq::<char>::empty()
    &&& r.search_input@ == Seq::<char>::empty() && r.search_query is None
    &&& r.search_base@ == "https://hn.algolia.com/api/v1"@
    &&& r.reader_content is None && r.reader_scroll == 0
    &&& r.reader_section_offsets@.len() == 0 && r.reader_total_lines == 0
    &&& r.story_dwell_start is Some && r.prefetching_story_id is None && r.progress is None
    &&& !r.loading
    &&& r.api_base@ == "https://hacker-news.firebaseio.com/v0"@
    &&& r.item_cache@ == Map::<u64, Item>::empty()
    &&& r.comment_pos_cache@ == Map::<u64, (usize, usize)>::empty()
}

/// The session that the kept session text holds; none without a kept text.
pub open spec fn kept_session(text: Option<Seq<char>>, s: Option<Session>) -> bool {
    match text {
        None => s is None,
        Some(t) => match session_of_text(t) {
            None => s is None,
            Some((u, c)) => s matches Some(x) && x.username@ == u && x.cookie@ == c,
        },
    }
}

/// The ids of a list of items.
pub open spec fn ids_of(items: Seq<Item>) -> Set<u64> {
    items.map_values(|i: Item| i.id).to_set()
}

impl App {
    /// The state at start-up: the top feed, nothing loaded yet, not logged in, nothing
    /// bookmarked or read.
    pub fn new() -> (r: App)
        ensures
            start_state(r),
            r.session is None,
            r.bookmark_ids@ == Set::<u64>::empty() && r.seen_ids@ == Set::<u64>::empty(),
    {
        App {
            feed: Feed::Top,
            stories: Vec::new(),
            story_ids: Vec::new(),
            story_cursor: 0,
            story_scroll: 0,
            comments: Vec::new(),
            comments_story_id: None,
            comments_loading: false,
            comment_cursor: 0,
            comment_scroll: 0,
            active_pane: Pane::Stories,
            mode: Mode::Normal,
            command_input: String::new(),
            status_message: string_of_str("Loading..."),
            view_mode: ViewMode::Story,
            user_profile: None,
            session: None,
            login_state: LoginState::new(),
            compose_state: None,
            expanded_comment: None,
            bookmark_ids: HashSet::new(),
            seen_ids: HashSet::new(),
            search_input: String::new(),
            search_query: None,
            search_base: string_of_str("https://hn.algolia.com/api/v1"),
            reader_content: None,
            reader_scroll: 0,
            reader_section_offsets: Vec::new(),
            reader_total_lines: 0,
            story_dwell_start: Some(clock_now()),
            prefetching_story_id: None,
            progress: None,
            loading: false,
            api_base: string_of_str("https://hacker-news.firebaseio.com/v0"),
            item_cache: HashMap::new(),
            comment_pos_cache: HashMap::new(),
        }
    }

    /// The state at start-up with the kept data: the session that `session_text` holds
    /// (none without a kept session), the ids of the kept `bookmarks`, and the read
    /// stories that `seen_text` lists.
    pub fn from_kept(session_text: Option<&str>, bookmarks: &Vec<Item>, seen_text: &str) -> (r: App)
        ensures
            start_state(r),
            kept_session(
                match session_text {
                    Some(t) => Some(t@),
                    None => None,
                },
                r.session,
            ),
            r.bookmark_ids@ == ids_of(bookmarks@),
            r.seen_ids@ == seen_of_text(seen_text@),
    {
        let mut app = App::new();
        app.session = match session_text {
            Some(t) => Session::from_text(t),
            None => None,
        };
        let mut i: usize = 0;
        while i < bookmarks.len()
            invariant
                start_state(app),
                i <= bookmarks@.len(),
                app.bookmark_ids@ == ids_of(bookmarks@.take(i as int)),
                kept_session(
                    match session_text {
                        Some(t) => Some(t@),
                        None => None,
                    },
                    app.session,
                ),
            decreases bookmarks@.len() - i,
        {
            app.bookmark_ids.insert(bookmarks[i].id);
            proof {
                let t = bookmarks@.take(i + 1);
                assert(t.map_values(|x: Item| x.id) =~= bookmarks@.take(i as int).map_values(
                    |x: Item| x.id,
                ).push(bookmarks@[i as int].id));
                bookmarks@.take(i as int).map_values(|x: Item| x.id).lemma_push_to_set_commute(
                    bookmarks@[i as int].id,
                );
            }
            i = i + 1;
        }
        assert(bookmarks@.take(bookmarks@.len() as int) =~= bookmarks@);
        app.seen_ids = seen_from_text(seen_text);
        app
    }

    /// The story under the cursor.
    pub fn selected_story(&self) -> (r: Option<&Item>)
        ensures
            match r {
                Some(s) => selected(*self) == Some(*s),
                None => selected(*self) is None,
            },
    {
        if self.story_cursor < self.stories.len() {
            Some(&self.stories[self.story_cursor])
        } else {
            None
        }
    }

    /// The visible comment rows, each with its depth.
    pub fn flat_comments(&self) -> (r: Vec<(&CommentNode, usize)>)
        ensures
            rows_match(r@, rows(*self)),
    {
        flatten_all(&self.comments)
    }

    /// Moves the story cursor down one, scrolling when it passes the bottom of the
    /// `visible` rows; a move at the moment `now` restarts the wait before comments are
    /// fetched ahead from then.
    pub fn scroll_story_down_at(&mut self, visible: usize, now: Instant)
        ensures
            scroll_story_down_at_post(*old(self), *final(self), visible, now),
    {
        if self.story_cursor < self.stories.len() && self.story_cursor + 1 < self.stories.len() {
            self.story_cursor = self.story_cursor + 1;
            if self.story_cursor >= self.story_scroll && self.story_cursor - self.story_scroll
                >= visible {
                self.story_scroll = self.story_scroll + 1;
            }
            self.story_dwell_start = Some(now);
            self.prefetching_story_id = None;
            self.progress = None;
        }
    }

    /// `scroll_story_down_at` at the current time.
    pub fn scroll_story_down(&mut self, visible: usize)
        ensures
            scroll_story_down_post(*old(self), *final(self), visible),
            exists|now: Instant| scroll_story_down_at_post(*old(self), *final(self), visible, now),
    {
        let now = clock_now();
        self.scroll_story_down_at(visible, now);
        assert(scroll_story_down_at_post(*old(self), *self, visible, now));
    }

    /// Moves the story cursor up one, scrolling up when it passes the top; a move at the
    /// moment `now` restarts the wait before comments are fetched ahead from then.
    pub fn scroll_story_up_at(&mut self, now: Instant)
        ensures
            scroll_story_up_at_post(*old(self), *final(self), now),
    {
        if self.story_cursor > 0 {
            self.story_cursor = self.story_cursor - 1;
            if self.story_cursor < self.story_scroll {
                self.story_scroll = self.story_cursor;
            }
            self.story_dwell_start = Some(now);
            self.prefetching_story_id = None;
            self.progress = None;
        }
    }

    /// `scroll_story_up_at` at the current time.
    pub fn scroll_story_up(&mut self)
        ensures
            scroll_story_up_post(*old(self), *final(self)),
            exists|now: Instant| scroll_story_up_at_post(*old(self), *final(self), now),
    {
        let now = clock_now();
        self.scroll_story_up_at(now);
        assert(scroll_story_up_at_post(*old(self), *self, now));
    }

    /// Moves the comment cursor down one visible row, scrolling when it passes the bottom
    /// of the `visible` rows.
    pub fn scroll_comment_down(&mut self, visible: usize)
        ensures
            scroll_comment_down_post(*old(self), *final(self), visible),

    {
        let total = self.flat_comments().len();
        if self.comment_cursor < total && self.comment_cursor + 1 < total {
            self.comment_cursor = self.comment_cursor + 1;
            if self.comment_cursor >= self.comment_scroll && self.comment_cursor
                - self.comment_scroll >= visible {
                self.comment_scroll = self.comment_scroll + 1;
            }
        }
    }

    /// Moves the comment cursor up one row, scrolling up when it passes the top.
    pub fn scroll_comment_up(&mut self)
        ensures
            scroll_comment_up_post(*old(self), *final(self)),

    {
        if self.comment_cursor > 0 {
            self.comment_cursor = self.comment_cursor - 1;
            if self.comment_cursor < self.comment_scroll {
                self.comment_scroll = self.comment_cursor;
            }
        }
    }

    /// The id of the comment under the comment cursor.
    fn comment_id_at_cursor(&self) -> (r: Option<u64>)
        ensures
            match comment_at_cursor(*self) {
                Some(n) => r == Some(n.item.id),
                None => r is None,
            },
    {
        let flat = self.flat_comments();
        if self.comment_cursor < flat.len() {
            Some(flat[self.comment_cursor].0.item.id)
        } else {
            None
        }
    }

    /// Collapses or expands the thread under the comment cursor.
    pub fn toggle_current_comment(&mut self)
        ensures
            toggle_current_comment_post(*old(self), *final(self)),

    {
        if let Some(id) = self.comment_id_at_cursor() {
            toggle_in_tree(&mut self.comments, id);
        }
    }

    /// The author of what is under the cursor: the selected story in the story pane, the
    /// comment under the comment cursor in the comment pane.
    pub fn username_at_cursor(&self) -> (r: Option<String>)
        ensures
            opt_str(r) == match self.active_pane {
                Pane::Stories => match selected(*self) {
                    Some(s) => opt_str(s.by),
                    None => None,
                },
                Pane::Comments => match comment_at_cursor(*self) {
                    Some(n) => opt_str(n.item.by),
                    None => None,
                },
            },
    {
        match self.active_pane {
            Pane::Stories => match self.selected_story() {
                Some(s) => crate::api::clone_opt_str(&s.by),
                None => None,
            },
            Pane::Comments => {
                let flat = self.flat_comments();
                if self.comment_cursor < flat.len() {
                    crate::api::clone_opt_str(&flat[self.comment_cursor].0.item.by)
                } else {
                    None
                }
            },
        }
    }

    /// Opens an empty login form.
    pub fn start_login(&mut self)
        ensures
            start_login_post(*old(self), *final(self)),

    {
        self.login_state = LoginState::new();
        self.mode = Mode::Login;
    }

    /// Forgets the session (the kept copy is removed by the caller).
    pub fn logout(&mut self)
        ensures
            logout_post(*old(self), *final(self)),

    {
        self.session = None;
        self.status_message = string_of_str("Logged out.");
    }

    /// Leaves the user profile.
    pub fn close_user_profile(&mut self)
        ensures
            close_user_profile_post(*old(self), *final(self)),

    {
        self.view_mode = ViewMode::Story;
        self.user_profile = None;
        self.status_message = string_of_str(
            "j/k navigate | Enter open | Tab switch pane | / command",
        );
    }

    /// Leaves reader mode.
    pub fn close_reader(&mut self)
        ensures
            close_reader_post(*old(self), *final(self)),

    {
        self.reader_content = None;
        self.mode = Mode::Normal;
    }

    /// Opens the search prompt, empty.
    pub fn start_search(&mut self)
        ensures
            start_search_post(*old(self), *final(self)),

    {
        self.search_input = String::new();
        self.mode = Mode::Search;
    }

    /// Shows the full text of the comment under the cursor inline, or hides it when it is
    /// the one shown.
    pub fn toggle_comment_expand(&mut self)
        ensures
            toggle_comment_expand_post(*old(self), *final(self)),

    {
        if let Some(id) = self.comment_id_at_cursor() {
            if self.expanded_comment == Some(id) {
                self.expanded_comment = None;
            } else {
                self.expanded_comment = Some(id);
            }
        }
    }

    /// Remembers where the comment cursor and scroll are for the selected story.
    pub fn save_comment_pos(&mut self)
        ensures
            save_comment_pos_post(*old(self), *final(self)),

    {
        if self.story_cursor < self.stories.len() {
            let id = self.stories[self.story_cursor].id;
            self.comment_pos_cache.insert(id, (self.comment_cursor, self.comment_scroll));
        }
    }

    /// Marks the selected story as not read. Returns whether the set of read stories
    /// changed (and so should be kept again).
    pub fn mark_unseen(&mut self) -> (changed: bool)
        ensures
            mark_unseen_post(*old(self), *final(self), changed),

    {
        if self.story_cursor < self.stories.len() {
            let id = self.stories[self.story_cursor].id;
            let removed = self.seen_ids.remove(&id);
            if removed {
                let mut msg = string_of_str("Marked unread: ");
                push_str(&mut msg, self.stories[self.story_cursor].display_title());
                self.status_message = msg;
            } else {
                assert(self.seen_ids@ =~= old(self).seen_ids@);
            }
            removed
        } else {
            false
        }
    }

    /// Bookmarks the selected story or removes its bookmark. `saved` is the list of
    /// bookmarks as kept; the result is the list to keep now (`None` when no story is
    /// selected).
    pub fn toggle_bookmark(&mut self, saved: Vec<Item>) -> (r: Option<Vec<Item>>)
        ensures
            toggle_bookmark_post(
                *old(self),
                *final(self),
                items_view(saved@),
                match r {
                    Some(list) => Some(items_view(list@)),
                    None => None,
                },
            ),
    {
        if self.story_cursor >= self.stories.len() {
            return None;
        }
        let story = self.stories[self.story_cursor].clone();
        let id = story.id;
        if self.bookmark_ids.contains(&id) {
            let items = remove_id(&saved, id);
            self.bookmark_ids.remove(&id);
            let mut msg = string_of_str("Removed bookmark: ");
            push_str(&mut msg, story.display_title());
            self.status_message = msg;
            Some(items)
        } else {
            let mut msg = string_of_str("\u{2605} Bookmarked: ");
            push_str(&mut msg, story.display_title());
            self.bookmark_ids.insert(id);
            let mut items = saved;
            let ghost before = items_view(items@);
            items.push(story);
            assert(items_view(items@) =~= before.push(story@));
            self.status_message = msg;
            Some(items)
        }
    }

    /// Shows or hides the "Fetching comments" indicator: shown while the selected story
    /// has comments that are not loaded yet, hidden otherwise.
    pub fn tick_progress(&mut self)
        ensures
            tick_progress_post(*old(self), *final(self)),

    {
        let (sid, has_comments) = if self.story_cursor < self.stories.len() {
            let s = &self.stories[self.story_cursor];
            (Some(s.id), has_comments(s))
        } else {
            (None, false)
        };
        let ready = self.comments_story_id == sid && self.comments.len() > 0;
        if !has_comments || ready {
            self.progress = None;
        } else if self.progress.is_none() {
            self.progress = Some(Progress::new("Fetching comments"));
        }
    }
}

/// The state after `App::scroll_story_down`, given the state before.
pub open spec fn scroll_story_down_post(pre: App, post: App, visible: usize) -> bool {
    &&& (pre.story_cursor + 1 < pre.stories@.len() ==> {
            let c = (pre.story_cursor + 1) as usize;
            let sc = if c >= pre.story_scroll + visible {
                (pre.story_scroll + 1) as usize
            } else {
                pre.story_scroll
            };
            &&& post.story_dwell_start is Some
            &&& post == (App {
                story_cursor: c,
                story_scroll: sc,
                story_dwell_start: post.story_dwell_start,
                prefetching_story_id: None,
                progress: None,
                ..pre
            })
        })
    &&& (pre.story_cursor + 1 >= pre.stories@.len() ==> post == pre)
}

/// The state after `App::scroll_story_down_at` at the moment `now`: a move also starts
/// the wait before comments are fetched ahead at `now`.
pub open spec fn scroll_story_down_at_post(pre: App, post: App, visible: usize, now: Instant) -> bool {
    &&& scroll_story_down_post(pre, post, visible)
    &&& (pre.story_cursor + 1 < pre.stories@.len() ==> post.story_dwell_start == Some(now))
}

/// The state after `App::scroll_story_up_at` at the moment `now`: a move also starts the
/// wait before comments are fetched ahead at `now`.
pub open spec fn scroll_story_up_at_post(pre: App, post: App, now: Instant) -> bool {
    &&& scroll_story_up_post(pre, post)
    &&& (pre.story_cursor > 0 ==> post.story_dwell_start == Some(now))
}

/// The state after `App::scroll_story_up`, given the state before.
pub open spec fn scroll_story_up_post(pre: App, post: App) -> bool {
    &&& (pre.story_cursor > 0 ==> {
            let c = (pre.story_cursor - 1) as usize;
            let sc = if c < pre.story_scroll {
                c
            } else {
                pre.story_scroll
            };
            &&& post.story_dwell_start is Some
            &&& post == (App {
                story_cursor: c,
                story_scroll: sc,
                story_dwell_start: post.story_dwell_start,
                prefetching_story_id: None,
                progress: None,
                ..pre
            })
        })
    &&& (pre.story_cursor == 0 ==> post == pre)
}

/// The state after `App::scroll_comment_down`, given the state before.
pub open spec fn scroll_comment_down_post(pre: App, post: App, visible: usize) -> bool {
    &&& (pre.comment_cursor + 1 < rows(pre).len() ==> {
            let c = (pre.comment_cursor + 1) as usize;
            let sc = if c >= pre.comment_scroll + visible {
                (pre.comment_scroll + 1) as usize
            } else {
                pre.comment_scroll
            };
            post == (App { comment_cursor: c, comment_scroll: sc, ..pre })
        })
    &&& (pre.comment_cursor + 1 >= rows(pre).len() ==> post == pre)
}

/// The state after `App::scroll_comment_up`, given the state before.
pub open spec fn scroll_comment_up_post(pre: App, post: App) -> bool {
    &&& (pre.comment_cursor > 0 ==> {
            let c = (pre.comment_cursor - 1) as usize;
            let sc = if c < pre.comment_scroll {
                c
            } else {
                pre.comment_scroll
            };
            post == (App { comment_cursor: c, comment_scroll: sc, ..pre })
        })
    &&& (pre.comment_cursor == 0 ==> post == pre)
}

/// The state after `App::toggle_current_comment`, given the state before.
pub open spec fn toggle_current_comment_post(pre: App, post: App) -> bool {
    &&& (match comment_at_cursor(pre) {
            Some(n) => toggled(pre.comments@, post.comments@, n.item.id)
                && post == (App { comments: post.comments, ..pre }),
            None => post == pre,
        })
}

/// The state after `App::start_login`, given the state before.
pub open spec fn start_login_post(pre: App, post: App) -> bool {
    &&& (post.login_state.username@ == Seq::<char>::empty())
    &&& (post.login_state.password@ == Seq::<char>::empty())
    &&& (post.login_state.field == LoginField::Username)
    &&& (post.login_state.error@ == Seq::<char>::empty())
    &&& (post == (App {
            login_state: post.login_state,
            mode: Mode::Login,
            ..pre
        }))
}

/// The state after `App::logout`, given the state before.
pub open spec fn logout_post(pre: App, post: App) -> bool {
    &&& (post.status_message@ == "Logged out."@)
    &&& (post == (App {
            session: None,
            status_message: post.status_message,
            ..pre
        }))
}

/// The state after `App::close_user_profile`, given the state before.
pub open spec fn close_user_profile_post(pre: App, post: App) -> bool {
    &&& (post.status_message@ == "j/k navigate | Enter open | Tab switch pane | / command"@)
    &&& (post == (App {
            view_mode: ViewMode::Story,
            user_profile: None,
            status_message: post.status_message,
            ..pre
        }))
}

/// The state after `App::close_reader`, given the state before.
pub open spec fn close_reader_post(pre: App, post: App) -> bool {
    &&& (post == (App { reader_content: None, mode: Mode::Normal, ..pre }))
}

/// The state after `App::start_search`, given the state before.
pub open spec fn start_search_post(pre: App, post: App) -> bool {
    &&& (post.search_input@ == Seq::<char>::empty())
    &&& (post == (App {
            search_input: post.search_input,
            mode: Mode::Search,
            ..pre
        }))
}

/// The state after `App::toggle_comment_expand`, given the state before.
pub open spec fn toggle_comment_expand_post(pre: App, post: App) -> bool {
    &&& (match comment_at_cursor(pre) {
            Some(n) => post == (App {
                expanded_comment: if pre.expanded_comment == Some(n.item.id) {
                    None
                } else {
                    Some(n.item.id)
                },
                ..pre
            }),
            None => post == pre,
        })
}

/// The state after `App::save_comment_pos`, given the state before.
pub open spec fn save_comment_pos_post(pre: App, post: App) -> bool {
    &&& (match selected(pre) {
            Some(s) => post.comment_pos_cache@ == pre.comment_pos_cache@.insert(
                s.id,
                (pre.comment_cursor, pre.comment_scroll),
            ) && post == (App {
                comment_pos_cache: post.comment_pos_cache,
                ..pre
            }),
            None => post == pre,
        })
}

/// The state after `App::mark_unseen`, given the state before.
pub open spec fn mark_unseen_post(pre: App, post: App, changed: bool) -> bool {
    &&& (match selected(pre) {
            Some(s) => if pre.seen_ids@.contains(s.id) {
                &&& changed
                &&& post.seen_ids@ == pre.seen_ids@.remove(s.id)
                &&& post.status_message@ == "Marked unread: "@ + shown_title(s@)
                &&& post == (App {
                    seen_ids: post.seen_ids,
                    status_message: post.status_message,
                    ..pre
                })
            } else {
                !changed && post.seen_ids@ == pre.seen_ids@ && post
                    == (App { seen_ids: post.seen_ids, ..pre })
            },
            None => !changed && post == pre,
        })
}

/// The state after `App::tick_progress`, given the state before.
pub open spec fn tick_progress_post(pre: App, post: App) -> bool {
    &&& (({
            let sid = match selected(pre) {
                Some(s) => Some(s.id),
                None => None,
            };
            let has_comments = match selected(pre) {
                Some(s) => has_comments_spec(s),
                None => false,
            };
            let ready = pre.comments_story_id == sid && pre.comments@.len() > 0;
            if !has_comments || ready {
                post == (App { progress: None, ..pre })
            } else if pre.progress is None {
                post.progress matches Some(p) && p.label@ == "Fetching comments"@
                    && post == (App { progress: post.progress, ..pre })
            } else {
                post == pre
            }
        }))
}

/// A story has comments to fetch: it lists replies or counts comments.
pub open spec fn has_comments_spec(s: Item) -> bool {
    (match s.kids {
        Some(k) => k@.len() > 0,
        None => false,
    }) || (match s.descendants {
        Some(d) => d > 0,
        None => false,
    })
}

/// Whether a story has comments to fetch.
pub fn has_comments(s: &Item) -> (r: bool)
    ensures
        r == has_comments_spec(*s),
{
    let kids = match &s.kids {
        Some(k) => k.len() > 0,
        None => false,
    };
    let desc = match s.descendants {
        Some(d) => d > 0,
        None => false,
    };
    kids || desc
}

/// The state and bookmark list after `App::toggle_bookmark`, given the state and the
/// bookmark list `saved` before.
pub open spec fn toggle_bookmark_post(
    pre: App,
    post: App,
    saved: Seq<ItemView>,
    r: Option<Seq<ItemView>>,
) -> bool {
    match selected(pre) {
        None => r is None && post == pre,
        Some(s) => r matches Some(list) && if pre.bookmark_ids@.contains(s.id) {
            &&& list == without_id(saved, s.id)
            &&& post.bookmark_ids@ == pre.bookmark_ids@.remove(s.id)
            &&& post.status_message@ == "Removed bookmark: "@ + shown_title(s@)
            &&& post == (App {
                bookmark_ids: post.bookmark_ids,
                status_message: post.status_message,
                ..pre
            })
        } else {
            &&& list == saved.push(s@)
            &&& post.bookmark_ids@ == pre.bookmark_ids@.insert(s.id)
            &&& post.status_message@ == "\u{2605} Bookmarked: "@ + shown_title(s@)
            &&& post == (App {
                bookmark_ids: post.bookmark_ids,
                status_message: post.status_message,
                ..pre
            })
        },
    }
}

/// Whether no item of `s` has id `id`.
pub open spec fn lacks_id(s: Seq<ItemView>, id: u64) -> bool {
    forall|k: int| 0 <= k < s.len() ==> s[k].id != id
}

proof fn lemma_without_absent(s: Seq<ItemView>, id: u64)
    requires
        lacks_id(s, id),
    ensures
        without_id(s, id) == s,
    decreases s.len(),
{
    if s.len() > 0 {
        lemma_without_absent(s.drop_last(), id);
        assert(s.drop_last().push(s.last()) =~= s);
    }
}

/// Bookmarking a story and toggling its bookmark again gives back the bookmarks as they
/// were: the same set of bookmarked ids, and, where the list held no entry for the story,
/// the same list.
pub proof fn law_bookmark_twice_restores(
    a: App,
    b: App,
    c: App,
    saved: Seq<ItemView>,
    r1: Seq<ItemView>,
    r2: Option<Seq<ItemView>>,
)
    requires
        toggle_bookmark_post(a, b, saved, Some(r1)),
        toggle_bookmark_post(b, c, r1, r2),
    ensures
        c.bookmark_ids@ == a.bookmark_ids@,
        selected(c) == selected(a),
        selected(a) matches Some(s) && !a.bookmark_ids@.contains(s.id) && lacks_id(saved, s.id)
            ==> r2 == Some(saved),
{
    if let Some(s) = selected(a) {
        assert(selected(b) == selected(a));
        if a.bookmark_ids@.contains(s.id) {
            assert(c.bookmark_ids@ =~= a.bookmark_ids@);
        } else {
            assert(c.bookmark_ids@ =~= a.bookmark_ids@);
            if lacks_id(saved, s.id) {
                lemma_without_absent(saved, s.id);
                assert(saved.push(s@).drop_last() =~= saved);
            }
        }
    }
}

/// Expanding the comment under the cursor and toggling it again gives back the state as it
/// was, when no other comment was expanded before.
pub proof fn law_expand_twice_restores(a: App, b: App, c: App)
    requires
        toggle_comment_expand_post(a, b),
        toggle_comment_expand_post(b, c),
        match comment_at_cursor(a) {
            Some(n) => a.expanded_comment is None || a.expanded_comment == Some(n.item.id),
            None => true,
        },
    ensures
        c == a,
{
    if let Some(n) = comment_at_cursor(a) {
        assert(comment_at_cursor(b) == comment_at_cursor(a));
    }
}

/// The story under the cursor stays on screen: when the cursor lies within a window of
/// `visible` rows starting at the scroll offset, it still does after moving down or up,
/// and it never leaves the list.
pub proof fn law_story_cursor_stays_visible(a: App, b: App, visible: usize)
    requires
        visible >= 1,
        a.story_scroll <= a.story_cursor < a.story_scroll + visible,
        a.story_cursor < a.stories@.len(),
        scroll_story_down_post(a, b, visible) || scroll_story_up_post(a, b),
    ensures
        b.story_scroll <= b.story_cursor < b.story_scroll + visible,
        b.story_cursor < b.stories@.len(),
        b.stories == a.stories,
{
    assert(a.stories@.len() == a.stories.len());
    if scroll_story_down_post(a, b, visible) && a.story_cursor + 1 < a.stories@.len() {
        assert(b.story_cursor == a.story_cursor + 1);
        if a.story_cursor + 1 >= a.story_scroll + visible {
            assert(b.story_scroll == a.story_scroll + 1);
        } else {
            assert(b.story_scroll == a.story_scroll);
        }
    } else if scroll_story_up_post(a, b) && a.story_cursor > 0 {
        assert(b.story_cursor == a.story_cursor - 1);
    }
}

/// The comment under the cursor stays on screen, as for stories (for a list of rows that
/// a machine can hold).
pub proof fn law_comment_cursor_stays_visible(a: App, b: App, visible: usize)
    requires
        visible >= 1,
        a.comment_scroll <= a.comment_cursor < a.comment_scroll + visible,
        a.comment_cursor < rows(a).len() <= usize::MAX,
        scroll_comment_down_post(a, b, visible) || scroll_comment_up_post(a, b),
    ensures
        b.comment_scroll <= b.comment_cursor < b.comment_scroll + visible,
        b.comment_cursor < rows(b).len(),
        b.comments == a.comments,
{
    if scroll_comment_down_post(a, b, visible) && a.comment_cursor + 1 < rows(a).len() {
        assert(b.comment_cursor == a.comment_cursor + 1);
        if a.comment_cursor + 1 >= a.comment_scroll + visible {
            assert(b.comment_scroll == a.comment_scroll + 1);
        } else {
            assert(b.comment_scroll == a.comment_scroll);
        }
    } else if scroll_comment_up_post(a, b) && a.comment_cursor > 0 {
        assert(b.comment_cursor == a.comment_cursor - 1);
    }
}

/// The views of a list of items.
pub open spec fn items_view(s: Seq<Item>) -> Seq<ItemView> {
    s.map_values(|i: Item| i@)
}

/// `s` without the items whose id is `id`, in order.
pub open spec fn without_id(s: Seq<ItemView>, id: u64) -> Seq<ItemView>
    decreases s.len(),
{
    if s.len() == 0 {
        s
    } else if s.last().id == id {
        without_id(s.drop_last(), id)
    } else {
        without_id(s.drop_last(), id).push(s.last())
    }
}

/// A copy of `items` without the items whose id is `id`.
fn remove_id(items: &Vec<Item>, id: u64) -> (r: Vec<Item>)
    ensures
        items_view(r@) == without_id(items_view(items@), id),
{
    let mut r: Vec<Item> = Vec::new();
    let mut i: usize = 0;
    while i < items.len()
        invariant
            i <= items@.len(),
            items_view(r@) == without_id(items_view(items@.take(i as int)), id),
        decreases items@.len() - i,
    {
        let ghost before = items_view(r@);
        proof {
            assert(items_view(items@.take(i + 1)).drop_last() =~= items_view(items@.take(i as int)));
        }
        if items[i].id != id {
            r.push(items[i].clone());
            assert(items_view(r@) =~= before.push(items@[i as int]@));
        }
        i = i + 1;
    }
    assert(items@.take(items@.len() as int) =~= items@);
    r
}

} // verus!
