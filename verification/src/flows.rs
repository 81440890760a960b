//! The steps of the operations that wait on the network: each step takes what came
//! back, updates the state, and says what to fetch or send next. The front end performs
//! the fetches and hands the results to the next step.
use vstd::prelude::*;
use std::collections::HashMap;
use crate::api::{
    Item, ItemView, User, item_page_url, item_page_url_spec, opt_str, sat_sub, shown_by,
    shown_title, string_of_str,
};
use crate::app::{
    App, ComposeState, Feed, Mode, Pane, ReaderContent, ViewMode, comment_at_cursor,
    feed_label, has_comments, has_comments_spec, items_view, min_nat, minus_one, rows,
    selected, save_comment_pos_post, mark_unseen_post,
};
use std::time::Instant;
use crate::clock::{clock_now, secs_before, secs_since};
use crate::comments::CommentNode;
use crate::reader::{Block, parse_html};
use crate::session::Session;
use crate::shimmer::Progress;
use crate::text::{chars_of, decimal, push_decimal, push_signed, push_str, signed_decimal, trim, trim_vec, string_of};

verus! {

broadcast use vstd::std_specs::hash::group_hash_axioms;

/// The most stories a feed shows.
pub const FEED_LIMIT: usize = 60;

/// `m` with each item of `items` put under its id, in order (a later one replaces an
/// earlier one with the same id).
pub open spec fn insert_all(m: Map<u64, ItemView>, items: Seq<ItemView>) -> Map<u64, ItemView>
    decreases items.len(),
{
    if items.len() == 0 {
        m
    } else {
        insert_all(m, items.drop_last()).insert(items.last().id, items.last())
    }
}

/// The items of `cache` for the ids `ids`, in the order of `ids`, skipping ids it lacks.
pub open spec fn cached_stories(ids: Seq<u64>, cache: Map<u64, ItemView>) -> Seq<ItemView>
    decreases ids.len(),
{
    if ids.len() == 0 {
        Seq::empty()
    } else if cache.contains_key(ids.last()) {
        cached_stories(ids.drop_last(), cache).push(cache[ids.last()])
    } else {
        cached_stories(ids.drop_last(), cache)
    }
}

/// The views of the items a cache holds.
pub open spec fn cache_view(m: Map<u64, Item>) -> Map<u64, ItemView> {
    m.map_values(|i: Item| i@)
}

/// The status line while the comments of a story are shown.
pub open spec fn threads_status(n: nat) -> Seq<char> {
    decimal(n) + " top-level threads \u{b7} j/k nav \u{b7} Space collapse \u{b7} u unread \u{b7} v vote \u{b7} c reply \u{b7} Tab back"@
}

/// The comment cursor restored for a story: the remembered one, kept on a visible row.
pub open spec fn restored_cursor(a: App, story_id: u64) -> usize {
    let saved = if a.comment_pos_cache@.contains_key(story_id) {
        a.comment_pos_cache@[story_id]
    } else {
        (0usize, 0usize)
    };
    min_nat(saved.0 as nat, minus_one(rows(a).len())) as usize
}

/// The comment scroll restored for a story.
pub open spec fn restored_scroll(a: App, story_id: u64) -> usize {
    if a.comment_pos_cache@.contains_key(story_id) {
        a.comment_pos_cache@[story_id].1
    } else {
        0
    }
}

/// What loading a story's comments needs next.
pub enum CommentsStart {
    /// No story is selected: nothing was done.
    NoStory,
    /// The comments were already loaded and are shown again.
    Cached,
    /// Fetch these top-level comments and hand them to `comments_loaded`.
    Fetch(Vec<u64>),
    /// The story does not list its comments (a search hit): fetch the story itself and
    /// hand its replies to `comments_kids_ready`.
    Hydrate(u64),
}

/// Whom a vote goes to.
pub struct VoteTarget {
    pub cookie: String,
    pub item_id: u64,
    pub story_id: u64,
}

/// How a vote went.
pub enum VoteOutcome {
    Voted,
    /// The vote request failed, with this message.
    VoteFailed(String),
    /// No vote token could be had, with this message.
    NoToken(String),
}

/// Whom a reply goes to.
pub struct ComposeTarget {
    pub cookie: String,
    pub parent_id: u64,
    pub story_id: u64,
    pub parent_by: String,
}

/// How copying to the clipboard went.
pub enum ClipboardOutcome {
    Copied,
    SetFailed,
    Unavailable,
}

/// What an article fetched for reader mode becomes: its title, blocks, section offsets
/// and estimated length in lines.
pub type ReaderResult = (String, Vec<Block>, Vec<usize>, usize);

/// `a` followed by `b` as a `String`.
fn cat(a: &str, b: &str) -> (r: String)
    ensures
        r@ == a@ + b@,
{
    let mut s = string_of_str(a);
    push_str(&mut s, b);
    s
}

/// The status line for `n` threads.
fn threads_status_exec(n: usize) -> (r: String)
    ensures
        r@ == threads_status(n as nat),
{
    let mut s = String::new();
    push_decimal(&mut s, n as u64);
    push_str(
        &mut s,
        " top-level threads \u{b7} j/k nav \u{b7} Space collapse \u{b7} u unread \u{b7} v vote \u{b7} c reply \u{b7} Tab back",
    );
    s
}

/// The state after `App::begin_comments`, given the state before, and its result `r`.
pub open spec fn begin_comments_post(pre: App, post: App, r: (CommentsStart, bool)) -> bool {
    match selected(pre) {
        None => r.0 is NoStory && !r.1 && post == pre,
        Some(s) => {
            &&& r.1 == !pre.seen_ids@.contains(s.id)
            &&& post.seen_ids@ == pre.seen_ids@.insert(s.id)
            &&& if pre.comments_story_id == Some(s.id) && pre.comments@.len() > 0 {
                &&& r.0 is Cached
                &&& post.status_message@ == threads_status(pre.comments@.len())
                &&& post == (App {
                    seen_ids: post.seen_ids,
                    expanded_comment: None,
                    comment_cursor: restored_cursor(pre, s.id),
                    comment_scroll: restored_scroll(pre, s.id),
                    status_message: post.status_message,
                    ..pre
                })
            } else {
                &&& match s.kids {
                    Some(k) => if k@.len() > 0 {
                        r.0 matches CommentsStart::Fetch(f) && f@ == k@
                    } else {
                        r.0 == CommentsStart::Hydrate(s.id)
                    },
                    None => r.0 == CommentsStart::Hydrate(s.id),
                }
                &&& post.comments@.len() == 0
                &&& post.status_message@ == "Loading comments..."@
                &&& post == (App {
                    seen_ids: post.seen_ids,
                    expanded_comment: None,
                    comments: post.comments,
                    comments_story_id: Some(s.id),
                    comments_loading: true,
                    status_message: post.status_message,
                    ..pre
                })
            }
        },
    }
}

/// The state after `App::feed_ids_loaded` took the ids `ids` and returned `r`: the first
/// `FEED_LIMIT` of them are kept.
pub open spec fn feed_ids_post(pre: App, post: App, ids: Seq<u64>, r: Seq<u64>) -> bool {
    &&& r == if ids.len() > FEED_LIMIT {
        ids.take(FEED_LIMIT as int)
    } else {
        ids
    }
    &&& post.story_ids@ == r
    &&& post.status_message@ == "Fetching "@ + decimal(r.len()) + " items..."@
    &&& post == (App { story_ids: post.story_ids, status_message: post.status_message, ..pre })
}

/// The state after `App::feed_items_loaded` took the fetched items `items`: the items are
/// cached, and the cached stories for the kept ids are shown, from the top.
pub open spec fn feed_items_post(pre: App, post: App, items: Seq<ItemView>) -> bool {
    &&& cache_view(post.item_cache@) == insert_all(cache_view(pre.item_cache@), items)
    &&& items_view(post.stories@) == cached_stories(pre.story_ids@, cache_view(post.item_cache@))
    &&& post.comments@.len() == 0
    &&& post.status_message@ == decimal(post.stories@.len())
        + " stories \u{b7} j/k navigate \u{b7} Enter comments \u{b7} Tab pane \u{b7} v vote \u{b7} c reply \u{b7} / cmd"@
    &&& post == (App {
        item_cache: post.item_cache,
        stories: post.stories,
        story_cursor: 0,
        story_scroll: 0,
        comments: post.comments,
        comments_story_id: None,
        comments_loading: false,
        comment_cursor: 0,
        comment_scroll: 0,
        active_pane: Pane::Stories,
        status_message: post.status_message,
        loading: false,
        progress: None,
        ..pre
    })
}

proof fn lemma_cached_stories_len(ids: Seq<u64>, cache: Map<u64, ItemView>)
    ensures
        cached_stories(ids, cache).len() <= ids.len(),
    decreases ids.len(),
{
    if ids.len() > 0 {
        lemma_cached_stories_len(ids.drop_last(), cache);
    }
}

/// A feed shows at most `FEED_LIMIT` stories, however many ids the feed lists.
pub proof fn law_feed_shows_at_most_limit(
    a: App,
    b: App,
    c: App,
    ids: Seq<u64>,
    kept: Seq<u64>,
    items: Seq<ItemView>,
)
    requires
        feed_ids_post(a, b, ids, kept),
        feed_items_post(b, c, items),
    ensures
        c.stories@.len() <= FEED_LIMIT,
        c.stories@.len() <= ids.len(),
{
    lemma_cached_stories_len(b.story_ids@, cache_view(c.item_cache@));
    assert(items_view(c.stories@).len() == c.stories@.len());
}

/// The state after `App::open_story_in_browser_since` with the wait counted from
/// `wait_start`, and the address `r` it returns.
pub open spec fn open_story_post(pre: App, post: App, wait_start: Instant, r: Option<String>) -> bool {
    &&& match selected(pre) {
        None => r is None,
        Some(s) => r matches Some(u) && u@ == match opt_str(s.url) {
            Some(l) => l,
            None => item_page_url_spec(s.id),
        },
    }
    &&& post == (App {
        story_dwell_start: Some(wait_start),
        prefetching_story_id: None,
        progress: None,
        ..pre
    })
}

/// The state after `App::apply_pending_reader_since` took `result`, with the wait
/// counted from `wait_start`.
pub open spec fn reader_applied_post(
    pre: App,
    post: App,
    result: Result<ReaderResult, String>,
    wait_start: Instant,
) -> bool {
    match result {
        Ok((title, blocks, offsets, total)) => {
            &&& post.reader_content matches Some(c) && c.title == title && c.blocks == blocks
            &&& post == (App {
                reader_section_offsets: offsets,
                reader_total_lines: total,
                reader_content: post.reader_content,
                reader_scroll: 0,
                mode: Mode::Reader,
                progress: None,
                story_dwell_start: Some(wait_start),
                prefetching_story_id: None,
                ..pre
            })
        },
        Err(e) => post.status_message@ == "Reader: "@ + e@ && post == (App {
            status_message: post.status_message,
            progress: None,
            ..pre
        }),
    }
}

/// The state after `App::maybe_start_prefetch_after` when the selected story has been
/// selected for `elapsed_secs` whole seconds, given the state before, and its result `r`.
pub open spec fn prefetch_post(
    pre: App,
    post: App,
    elapsed_secs: u64,
    r: Option<(u64, Option<Vec<u64>>)>,
) -> bool {
    let go = match selected(pre) {
        Some(s) => {
            &&& has_comments_spec(s)
            &&& pre.prefetching_story_id != Some(s.id)
            &&& !(pre.comments_story_id == Some(s.id) && pre.comments@.len() > 0)
            &&& pre.story_dwell_start is Some
            &&& elapsed_secs >= 3
        },
        None => false,
    };
    if go {
        let s = selected(pre)->Some_0;
        &&& r matches Some((id, kids)) && id == s.id && crate::api::opt_ids(kids)
            == crate::api::opt_ids(s.kids)
        &&& post.progress matches Some(p) && p.label@ == "Fetching comments"@
        &&& post == (App { prefetching_story_id: Some(s.id), progress: post.progress, ..pre })
    } else {
        r is None && post == pre
    }
}

/// Leaving a story's comments remembers where the cursor was, and coming back to them
/// puts the cursor and scroll back there.
pub proof fn law_comment_position_restored(a: App, b: App, c: App, r: (CommentsStart, bool))
    requires
        save_comment_pos_post(a, b),
        begin_comments_post(b, c, r),
        selected(a) matches Some(s) && a.comments_story_id == Some(s.id),
        a.comments@.len() > 0,
        a.comment_cursor < rows(a).len(),
    ensures
        c.comment_cursor == a.comment_cursor,
        c.comment_scroll == a.comment_scroll,
{
    let s = selected(a)->Some_0;
    assert(selected(b) == selected(a));
    assert(b.comment_pos_cache@.contains_key(s.id));
    assert(rows(b) == rows(a));
}

/// Opening a story's comments marks it as read, and marking it unread afterwards takes
/// it out of the read stories again, leaving the others as they were.
pub proof fn law_open_then_unread(
    a: App,
    b: App,
    c: App,
    r: (CommentsStart, bool),
    changed: bool,
)
    requires
        begin_comments_post(a, b, r),
        mark_unseen_post(b, c, changed),
        selected(a) is Some,
    ensures
        b.seen_ids@.contains(selected(a)->Some_0.id),
        changed,
        c.seen_ids@ == a.seen_ids@.remove(selected(a)->Some_0.id),
{
    let s = selected(a)->Some_0;
    assert(selected(b) == selected(a));
    assert(c.seen_ids@ =~= a.seen_ids@.remove(s.id));
}

impl App {
    /// The comment cursor and scroll remembered for `story_id`, the cursor kept on a
    /// visible row.
    fn restore_comment_pos(&mut self, story_id: u64)
        ensures
            (App {
                comment_cursor: old(self).comment_cursor,
                comment_scroll: old(self).comment_scroll,
                ..*final(self)
            }) == *old(self),
            final(self).comment_cursor == restored_cursor(*old(self), story_id),
            final(self).comment_scroll == restored_scroll(*old(self), story_id),
    {
        let (cursor, scroll) = match self.comment_pos_cache.get(&story_id) {
            Some(p) => *p,
            None => (0, 0),
        };
        let total = self.flat_comments().len();
        let last = if total > 0 {
            total - 1
        } else {
            0
        };
        self.comment_cursor = if cursor <= last {
            cursor
        } else {
            last
        };
        self.comment_scroll = scroll;
    }

    // -----------------------------------------------------------------------
    // Feeds
    // -----------------------------------------------------------------------
    /// Shows the kept bookmarks as the story list.
    pub fn show_bookmarks(&mut self, items: Vec<Item>)
        ensures
            final(self).stories == items,
            final(self).status_message@ == if items@.len() == 0 {
                "No bookmarks yet \u{2014} press b to save a story."@
            } else {
                decimal(items@.len()) + " bookmarks | b to toggle | j/k navigate"@
            },
            final(self).comments@.len() == 0,
            *final(self) == (App {
                stories: items,
                story_cursor: 0,
                story_scroll: 0,
                comments: final(self).comments,
                comments_story_id: None,
                comments_loading: false,
                comment_cursor: 0,
                comment_scroll: 0,
                active_pane: Pane::Stories,
                status_message: final(self).status_message,
                ..*old(self)
            }),
    {
        let n = items.len();
        self.stories = items;
        self.story_cursor = 0;
        self.story_scroll = 0;
        self.comments = Vec::new();
        self.comments_story_id = None;
        self.comments_loading = false;
        self.comment_cursor = 0;
        self.comment_scroll = 0;
        self.active_pane = Pane::Stories;
        if n == 0 {
            self.status_message = string_of_str("No bookmarks yet \u{2014} press b to save a story.");
        } else {
            let mut s = String::new();
            push_decimal(&mut s, n as u64);
            push_str(&mut s, " bookmarks | b to toggle | j/k navigate");
            self.status_message = s;
        }
    }

    /// Starts loading the current feed. For bookmarks nothing changes and `None` comes
    /// back (the caller reads them and calls `show_bookmarks`); otherwise the state shows
    /// the loading and the address of the feed's list of ids comes back.
    pub fn begin_feed(&mut self) -> (r: Option<String>)
        ensures
            old(self).feed == Feed::Bookmarks ==> r is None && *final(self) == *old(self),
            old(self).feed != Feed::Bookmarks ==> {
                &&& r matches Some(u) && Some(u@) == (match crate::app::feed_endpoint(
                    old(self).feed,
                ) {
                    Some(e) => Some(old(self).api_base@ + "/"@ + e + ".json"@),
                    None => None,
                })
                &&& final(self).progress matches Some(p) && p.label@ == "Refreshing"@
                &&& final(self).status_message@ == "Loading "@ + feed_label(old(self).feed)
                    + " stories..."@
                &&& *final(self) == (App {
                    loading: true,
                    progress: final(self).progress,
                    status_message: final(self).status_message,
                    ..*old(self)
                })
            },
    {
        if self.feed == Feed::Bookmarks {
            return None;
        }
        self.loading = true;
        self.progress = Some(Progress::new("Refreshing"));
        let mut s = cat("Loading ", self.feed.label());
        push_str(&mut s, " stories...");
        self.status_message = s;
        crate::app::feed_url(self.api_base.as_str(), self.feed)
    }

    /// Takes the ids a feed listed: keeps the first `FEED_LIMIT` of them and returns
    /// them, to be fetched and handed to `feed_items_loaded`.
    pub fn feed_ids_loaded(&mut self, ids: Vec<u64>) -> (r: Vec<u64>)
        ensures
            feed_ids_post(*old(self), *final(self), ids@, r@),
    {
        let ghost all = ids@;
        let mut ids = ids;
        ids.truncate(FEED_LIMIT);
        assert(ids@ =~= if all.len() > FEED_LIMIT {
            all.take(FEED_LIMIT as int)
        } else {
            all
        });
        self.story_ids = ids.clone();
        let mut s = string_of_str("Fetching ");
        push_decimal(&mut s, ids.len() as u64);
        push_str(&mut s, " items...");
        self.status_message = s;
        assert(self.status_message@ =~= "Fetching "@ + decimal(ids@.len()) + " items..."@);
        ids
    }

    /// Takes the items fetched for the feed's ids: caches them, and shows the cached
    /// stories in the order of the ids, from the top, with the comment pane cleared.
    pub fn feed_items_loaded(&mut self, items: Vec<Item>)
        ensures
            feed_items_post(*old(self), *final(self), items_view(items@)),
    {
        let mut i: usize = 0;
        let ghost c0 = cache_view(self.item_cache@);
        let ghost s0 = *self;
        while i < items.len()
            invariant
                i <= items@.len(),
                *self == (App { item_cache: self.item_cache, ..s0 }),
                cache_view(self.item_cache@) == insert_all(c0, items_view(items@.take(i as int))),
            decreases items@.len() - i,
        {
            let it = items[i].clone();
            let ghost before = cache_view(self.item_cache@);
            self.item_cache.insert(it.id, it);
            proof {
                let t = items_view(items@.take(i + 1));
                assert(t.drop_last() =~= items_view(items@.take(i as int)));
                assert(t.last() == items@[i as int]@);
                assert(cache_view(self.item_cache@) =~= before.insert(
                    items@[i as int].id,
                    items@[i as int]@,
                ));
            }
            i = i + 1;
        }
        assert(items@.take(items@.len() as int) =~= items@);
        let mut stories: Vec<Item> = Vec::new();
        let mut k: usize = 0;
        let ghost cv = cache_view(self.item_cache@);
        let ghost s1 = *self;
        while k < self.story_ids.len()
            invariant
                k <= self.story_ids@.len(),
                *self == s1,
                s1.story_ids == s0.story_ids,
                cv == cache_view(self.item_cache@),
                items_view(stories@) == cached_stories(self.story_ids@.take(k as int), cv),
            decreases self.story_ids@.len() - k,
        {
            let id = self.story_ids[k];
            proof {
                let t = self.story_ids@.take(k + 1);
                assert(t.drop_last() =~= self.story_ids@.take(k as int));
                assert(t.last() == id);
            }
            match self.item_cache.get(&id) {
                Some(it) => {
                    let ghost before = items_view(stories@);
                    stories.push(it.clone());
                    assert(items_view(stories@) =~= before.push(cv[id]));
                },
                None => {},
            }
            k = k + 1;
        }
        assert(self.story_ids@.take(self.story_ids@.len() as int) =~= self.story_ids@);
        self.stories = stories;
        self.story_cursor = 0;
        self.story_scroll = 0;
        self.comments = Vec::new();
        self.comments_story_id = None;
        self.comments_loading = false;
        self.comment_cursor = 0;
        self.comment_scroll = 0;
        self.active_pane = Pane::Stories;
        let mut s = String::new();
        push_decimal(&mut s, self.stories.len() as u64);
        push_str(
            &mut s,
            " stories \u{b7} j/k navigate \u{b7} Enter comments \u{b7} Tab pane \u{b7} v vote \u{b7} c reply \u{b7} / cmd",
        );
        self.status_message = s;
        self.loading = false;
        self.progress = None;
    }

    /// Loading the feed failed with `err`.
    pub fn feed_failed(&mut self, err: &str)
        ensures
            final(self).status_message@ == "Error: "@ + err@,
            *final(self) == (App {
                status_message: final(self).status_message,
                loading: false,
                progress: None,
                ..*old(self)
            }),
    {
        self.status_message = cat("Error: ", err);
        self.loading = false;
        self.progress = None;
    }

    // -----------------------------------------------------------------------
    // Comments
    // -----------------------------------------------------------------------
    /// Starts loading the selected story's comments. The story is marked as read (the
    /// second result says whether the set of read stories changed). Comments already
    /// loaded for it are shown again at the remembered position; otherwise the pane is
    /// cleared and what to fetch comes back.
    pub fn begin_comments(&mut self) -> (r: (CommentsStart, bool))
        ensures
            begin_comments_post(*old(self), *final(self), r),
    {
        if self.story_cursor >= self.stories.len() {
            return (CommentsStart::NoStory, false);
        }
        let story_id = self.stories[self.story_cursor].id;
        let changed = self.seen_ids.insert(story_id);
        self.expanded_comment = None;
        if self.comments_story_id == Some(story_id) && self.comments.len() > 0 {
            self.restore_comment_pos(story_id);
            self.status_message = threads_status_exec(self.comments.len());
            return (CommentsStart::Cached, changed);
        }
        let kids = match &self.stories[self.story_cursor].kids {
            Some(k) => if k.len() > 0 {
                Some(k.clone())
            } else {
                None
            },
            None => None,
        };
        self.comments = Vec::new();
        self.comments_story_id = Some(story_id);
        self.comments_loading = true;
        self.status_message = string_of_str("Loading comments...");
        match kids {
            Some(k) => (CommentsStart::Fetch(k), changed),
            None => (CommentsStart::Hydrate(story_id), changed),
        }
    }

    /// The story could not be fetched to find its comments.
    pub fn comments_hydrate_failed(&mut self)
        ensures
            final(self).status_message@ == "Failed to load comments."@,
            *final(self) == (App {
                status_message: final(self).status_message,
                comments_loading: false,
                ..*old(self)
            }),
    {
        self.status_message = string_of_str("Failed to load comments.");
        self.comments_loading = false;
    }

    /// Takes the ids of the story's top-level comments; returns whether there are any to
    /// fetch (with none, the pane says so).
    pub fn comments_kids_ready(&mut self, kids: &Vec<u64>) -> (r: bool)
        ensures
            r == (kids@.len() > 0),
            r ==> *final(self) == *old(self),
            !r ==> final(self).status_message@ == "No comments."@ && *final(self) == (App {
                status_message: final(self).status_message,
                comments_loading: false,
                ..*old(self)
            }),
    {
        if kids.len() == 0 {
            self.status_message = string_of_str("No comments.");
            self.comments_loading = false;
            false
        } else {
            true
        }
    }

    /// Takes the comment tree fetched for `story_id` and shows it at the remembered
    /// position.
    pub fn comments_loaded(&mut self, story_id: u64, nodes: Vec<CommentNode>)
        ensures
            final(self).comments == nodes,
            final(self).status_message@ == threads_status(nodes@.len()),
            ({
                let mid = App { comments: nodes, comments_loading: false, ..*old(self) };
                *final(self) == (App {
                    comment_cursor: restored_cursor(mid, story_id),
                    comment_scroll: restored_scroll(mid, story_id),
                    status_message: final(self).status_message,
                    ..mid
                })
            }),
    {
        self.comments = nodes;
        self.comments_loading = false;
        self.restore_comment_pos(story_id);
        self.status_message = threads_status_exec(self.comments.len());
    }

    /// Takes comments fetched ahead for `story_id`: they are used when that story is
    /// still selected and its comments are not loaded yet; and when the story list has
    /// the focus in normal mode, the comment pane opens on them.
    pub fn apply_pending_comments(&mut self, story_id: u64, nodes: Vec<CommentNode>)
        ensures
            ({
                let current = match selected(*old(self)) {
                    Some(s) => Some(s.id),
                    None => None,
                };
                if current == Some(story_id) && old(self).comments_story_id != Some(story_id) {
                    let mid = App {
                        comments_story_id: Some(story_id),
                        comments: nodes,
                        comments_loading: false,
                        progress: None,
                        ..*old(self)
                    };
                    if old(self).mode == Mode::Normal && old(self).active_pane == Pane::Stories {
                        &&& final(self).status_message@ == threads_status(nodes@.len())
                        &&& *final(self) == (App {
                            comment_cursor: restored_cursor(mid, story_id),
                            comment_scroll: restored_scroll(mid, story_id),
                            active_pane: Pane::Comments,
                            status_message: final(self).status_message,
                            ..mid
                        })
                    } else {
                        *final(self) == mid
                    }
                } else {
                    *final(self) == *old(self)
                }
            }),
    {
        let current = if self.story_cursor < self.stories.len() {
            Some(self.stories[self.story_cursor].id)
        } else {
            None
        };
        if current == Some(story_id) && self.comments_story_id != Some(story_id) {
            self.comments_story_id = Some(story_id);
            self.comments = nodes;
            self.comments_loading = false;
            self.progress = None;
            if self.mode == Mode::Normal && self.active_pane == Pane::Stories {
                self.restore_comment_pos(story_id);
                self.active_pane = Pane::Comments;
                self.status_message = threads_status_exec(self.comments.len());
            }
        }
    }

    /// Decides, when the selected story has been selected for `elapsed_secs` whole seconds,
    /// whether to start fetching its comments ahead: when it has comments, they are
    /// neither being fetched ahead nor loaded, and the wait has reached three seconds. Returns the story and its
    /// listed replies to fetch.
    pub fn maybe_start_prefetch_after(&mut self, elapsed_secs: u64) -> (r: Option<(u64, Option<Vec<u64>>)>)
        ensures
            prefetch_post(*old(self), *final(self), elapsed_secs, r),
    {
        if self.story_cursor >= self.stories.len() {
            return None;
        }
        if !has_comments(&self.stories[self.story_cursor]) {
            return None;
        }
        let story_id = self.stories[self.story_cursor].id;
        if self.prefetching_story_id == Some(story_id) {
            return None;
        }
        if self.comments_story_id == Some(story_id) && self.comments.len() > 0 {
            return None;
        }
        if self.story_dwell_start.is_none() {
            return None;
        }
        if elapsed_secs < 3 {
            return None;
        }
        let kids = crate::api::clone_opt_ids(&self.stories[self.story_cursor].kids);
        self.prefetching_story_id = Some(story_id);
        self.progress = Some(Progress::new("Fetching comments"));
        Some((story_id, kids))
    }

    /// `maybe_start_prefetch_after` the whole seconds the selected story has been selected
    /// for, by the monotonic clock.
    pub fn maybe_start_prefetch(&mut self) -> (r: Option<(u64, Option<Vec<u64>>)>)
        ensures
            exists|elapsed_secs: u64| prefetch_post(*old(self), *final(self), elapsed_secs, r),
    {
        let e = match &self.story_dwell_start {
            Some(t) => secs_since(t),
            None => 0,
        };
        let r = self.maybe_start_prefetch_after(e);
        assert(prefetch_post(*old(self), *self, e, r));
        r
    }

    // -----------------------------------------------------------------------
    // Search
    // -----------------------------------------------------------------------
    /// Submits the search prompt: an empty query cancels; otherwise the state shows the
    /// search and the trimmed query comes back, to be sent and its results handed to
    /// `search_done`.
    pub fn begin_search(&mut self) -> (r: Option<String>)
        ensures
            ({
                let q = trim(old(self).search_input@);
                if q.len() == 0 {
                    &&& r is None
                    &&& final(self).status_message@ == "Search cancelled."@
                    &&& *final(self) == (App {
                        mode: Mode::Normal,
                        status_message: final(self).status_message,
                        ..*old(self)
                    })
                } else {
                    &&& r matches Some(query) && query@ == q
                    &&& final(self).progress matches Some(p) && p.label@ == "Searching"@
                    &&& final(self).status_message@ == "Searching for '"@ + q + "'..."@
                    &&& *final(self) == (App {
                        mode: Mode::Normal,
                        loading: true,
                        progress: final(self).progress,
                        status_message: final(self).status_message,
                        ..*old(self)
                    })
                }
            }),
    {
        let v = chars_of(self.search_input.as_str());
        let t = trim_vec(&v);
        self.mode = Mode::Normal;
        if t.len() == 0 {
            self.status_message = string_of_str("Search cancelled.");
            return None;
        }
        let query = string_of(&t);
        self.loading = true;
        self.progress = Some(Progress::new("Searching"));
        let mut s = string_of_str("Searching for '");
        push_str(&mut s, query.as_str());
        push_str(&mut s, "'...");
        self.status_message = s;
        Some(query)
    }

    /// Shows the stories a search for `query` found.
    pub fn search_done(&mut self, query: String, items: Vec<Item>)
        ensures
            final(self).status_message@ == decimal(items@.len()) + " results for '"@ + query@
                + "' | j/k navigate | 1-6 back to feeds"@,
            final(self).comments@.len() == 0,
            opt_str(final(self).search_query) == Some(query@),
            *final(self) == (App {
                search_query: final(self).search_query,
                stories: items,
                story_cursor: 0,
                story_scroll: 0,
                comments: final(self).comments,
                comment_cursor: 0,
                comment_scroll: 0,
                active_pane: Pane::Stories,
                status_message: final(self).status_message,
                loading: false,
                progress: None,
                ..*old(self)
            }),
    {
        let mut s = String::new();
        push_decimal(&mut s, items.len() as u64);
        push_str(&mut s, " results for '");
        push_str(&mut s, query.as_str());
        push_str(&mut s, "' | j/k navigate | 1-6 back to feeds");
        self.search_query = Some(query);
        self.stories = items;
        self.story_cursor = 0;
        self.story_scroll = 0;
        self.comments = Vec::new();
        self.comment_cursor = 0;
        self.comment_scroll = 0;
        self.active_pane = Pane::Stories;
        self.status_message = s;
        self.loading = false;
        self.progress = None;
    }

    /// The search failed with `err`.
    pub fn search_failed(&mut self, err: &str)
        ensures
            final(self).status_message@ == "Search error: "@ + err@,
            *final(self) == (App {
                search_query: None,
                status_message: final(self).status_message,
                loading: false,
                progress: None,
                ..*old(self)
            }),
    {
        self.search_query = None;
        self.status_message = cat("Search error: ", err);
        self.loading = false;
        self.progress = None;
    }

    // -----------------------------------------------------------------------
    // Login
    // -----------------------------------------------------------------------
    /// Submits the login form: with a user name (trimmed) and a password it returns them
    /// to be sent; with either missing the form says so.
    pub fn begin_login(&mut self) -> (r: Option<(String, String)>)
        ensures
            ({
                let u = trim(old(self).login_state.username@);
                let p = old(self).login_state.password@;
                let ok = u.len() > 0 && p.len() > 0;
                &&& final(self).login_state.error@ == if ok {
                    "Logging in..."@
                } else {
                    "Username and password required"@
                }
                &&& final(self).login_state.username == old(self).login_state.username
                &&& final(self).login_state.password == old(self).login_state.password
                &&& final(self).login_state.field == old(self).login_state.field
                &&& *final(self) == (App { login_state: final(self).login_state, ..*old(self) })
                &&& ok ==> (r matches Some((user, pass)) && user@ == u && pass@ == p)
                &&& !ok ==> r is None
            }),
    {
        let v = chars_of(self.login_state.username.as_str());
        let t = trim_vec(&v);
        let username = string_of(&t);
        let password = self.login_state.password.clone();
        if t.len() == 0 || password.as_str().is_empty() {
            self.login_state.error = string_of_str("Username and password required");
            return None;
        }
        self.login_state.error = string_of_str("Logging in...");
        Some((username, password))
    }

    /// The login succeeded: the session is held (the caller keeps a copy of it).
    pub fn login_succeeded(&mut self, username: String, cookie: String)
        ensures
            final(self).session matches Some(s) && s.username@ == username@ && s.cookie@
                == cookie@,
            final(self).status_message@ == "Logged in as "@ + username@ + " | v vote | c comment"@,
            *final(self) == (App {
                session: final(self).session,
                mode: Mode::Normal,
                status_message: final(self).status_message,
                ..*old(self)
            }),
    {
        let mut s = string_of_str("Logged in as ");
        push_str(&mut s, username.as_str());
        push_str(&mut s, " | v vote | c comment");
        self.session = Some(Session { username, cookie });
        self.mode = Mode::Normal;
        self.status_message = s;
    }

    /// The login failed with `err`: the form shows it.
    pub fn login_failed(&mut self, err: &str)
        ensures
            final(self).login_state.error@ == err@,
            final(self).login_state.username == old(self).login_state.username,
            final(self).login_state.password == old(self).login_state.password,
            final(self).login_state.field == old(self).login_state.field,
            *final(self) == (App { login_state: final(self).login_state, ..*old(self) }),
    {
        self.login_state.error = string_of_str(err);
    }

    // -----------------------------------------------------------------------
    // Voting and replying
    // -----------------------------------------------------------------------
    /// What is under the cursor to vote on or reply to: the story in the story pane,
    /// the comment in the comment pane (with the story it belongs to).
    fn cursor_target(&self) -> (r: Option<(u64, u64, String)>)
        ensures
            match target_spec(*self) {
                None => r is None,
                Some((item, story, by)) => r matches Some((i, s, b)) && i == item && s == story
                    && b@ == by,
            },
    {
        if self.story_cursor >= self.stories.len() {
            return None;
        }
        let story = &self.stories[self.story_cursor];
        match self.active_pane {
            Pane::Stories => Some((story.id, story.id, string_of_str(story.display_by()))),
            Pane::Comments => {
                let flat = self.flat_comments();
                if self.comment_cursor < flat.len() {
                    let node = flat[self.comment_cursor].0;
                    Some((node.item.id, story.id, string_of_str(node.item.display_by())))
                } else {
                    None
                }
            },
        }
    }

    /// Starts a vote on what is under the cursor: without a session the status says to
    /// log in; with nothing under the cursor nothing happens; otherwise the state shows
    /// the vote and the target comes back.
    pub fn begin_vote(&mut self) -> (r: Option<VoteTarget>)
        ensures
            match old(self).session {
                None => r is None && final(self).status_message@
                    == "Not logged in \u{2014} /login first"@ && *final(self) == (App {
                    status_message: final(self).status_message,
                    ..*old(self)
                }),
                Some(sess) => match target_spec(*old(self)) {
                    None => r is None && *final(self) == *old(self),
                    Some((item, story, _)) => {
                        &&& r matches Some(t) && t.cookie@ == sess.cookie@ && t.item_id == item
                            && t.story_id == story
                        &&& final(self).status_message@ == "Fetching vote token..."@
                        &&& *final(self) == (App {
                            status_message: final(self).status_message,
                            loading: true,
                            ..*old(self)
                        })
                    },
                },
            },
    {
        let cookie = match &self.session {
            Some(s) => s.cookie.clone(),
            None => {
                self.status_message = string_of_str("Not logged in \u{2014} /login first");
                return None;
            },
        };
        let (item_id, story_id, _) = match self.cursor_target() {
            Some(t) => t,
            None => return None,
        };
        self.status_message = string_of_str("Fetching vote token...");
        self.loading = true;
        Some(VoteTarget { cookie, item_id, story_id })
    }

    /// The vote went as `outcome`.
    pub fn vote_finished(&mut self, outcome: &VoteOutcome)
        ensures
            final(self).status_message@ == match outcome {
                VoteOutcome::Voted => "Voted!"@,
                VoteOutcome::VoteFailed(e) => "Vote failed: "@ + e@,
                VoteOutcome::NoToken(e) => "Vote: "@ + e@,
            },
            *final(self) == (App {
                status_message: final(self).status_message,
                loading: false,
                ..*old(self)
            }),
    {
        self.status_message = match outcome {
            VoteOutcome::Voted => string_of_str("Voted!"),
            VoteOutcome::VoteFailed(e) => cat("Vote failed: ", e.as_str()),
            VoteOutcome::NoToken(e) => cat("Vote: ", e.as_str()),
        };
        self.loading = false;
    }

    /// Starts a reply to what is under the cursor: without a session the status says to
    /// log in; with nothing under the cursor nothing happens; otherwise the state shows
    /// that the reply form is being fetched and the target comes back.
    pub fn begin_compose(&mut self) -> (r: Option<ComposeTarget>)
        ensures
            match old(self).session {
                None => r is None && final(self).status_message@
                    == "Not logged in \u{2014} /login first"@ && *final(self) == (App {
                    status_message: final(self).status_message,
                    ..*old(self)
                }),
                Some(sess) => match target_spec(*old(self)) {
                    None => r is None && *final(self) == *old(self),
                    Some((item, story, by)) => {
                        &&& r matches Some(t) && t.cookie@ == sess.cookie@ && t.parent_id == item
                            && t.story_id == story && t.parent_by@ == by
                        &&& final(self).status_message@ == "Fetching reply token..."@
                        &&& *final(self) == (App {
                            status_message: final(self).status_message,
                            loading: true,
                            ..*old(self)
                        })
                    },
                },
            },
    {
        let cookie = match &self.session {
            Some(s) => s.cookie.clone(),
            None => {
                self.status_message = string_of_str("Not logged in \u{2014} /login first");
                return None;
            },
        };
        let (parent_id, story_id, parent_by) = match self.cursor_target() {
            Some(t) => t,
            None => return None,
        };
        self.status_message = string_of_str("Fetching reply token...");
        self.loading = true;
        Some(ComposeTarget { cookie, parent_id, story_id, parent_by })
    }

    /// The reply form's token `hmac` came back: the compose box opens, empty.
    pub fn compose_ready(&mut self, target: ComposeTarget, hmac: String)
        ensures
            final(self).compose_state matches Some(c) && c.text@ == Seq::<char>::empty()
                && c.parent_id == target.parent_id && c.story_id == target.story_id && c.hmac
                == hmac && c.parent_by == target.parent_by,
            final(self).status_message@ == "Ctrl+S submit | Esc cancel"@,
            *final(self) == (App {
                compose_state: final(self).compose_state,
                mode: Mode::Compose,
                status_message: final(self).status_message,
                loading: false,
                ..*old(self)
            }),
    {
        self.compose_state = Some(
            ComposeState {
                text: String::new(),
                parent_id: target.parent_id,
                story_id: target.story_id,
                hmac,
                parent_by: target.parent_by,
            },
        );
        self.mode = Mode::Compose;
        self.status_message = string_of_str("Ctrl+S submit | Esc cancel");
        self.loading = false;
    }

    /// The reply form could not be had: `err`.
    pub fn compose_failed(&mut self, err: &str)
        ensures
            final(self).status_message@ == "Compose: "@ + err@,
            *final(self) == (App {
                status_message: final(self).status_message,
                loading: false,
                ..*old(self)
            }),
    {
        self.status_message = cat("Compose: ", err);
        self.loading = false;
    }

    /// Submits the reply being written: without a session or a reply nothing happens; an
    /// empty reply stays open and the status says so; otherwise the compose box closes
    /// and the session cookie and the reply come back, to be posted.
    pub fn begin_submit_comment(&mut self) -> (r: Option<(String, ComposeState)>)
        ensures
            match (old(self).session, old(self).compose_state) {
                (Some(sess), Some(c)) => if trim(c.text@).len() == 0 {
                    r is None && final(self).status_message@ == "Comment is empty."@
                        && *final(self) == (App {
                        status_message: final(self).status_message,
                        ..*old(self)
                    })
                } else {
                    &&& r matches Some((cookie, state)) && cookie@ == sess.cookie@ && state == c
                    &&& final(self).status_message@ == "Posting comment..."@
                    &&& *final(self) == (App {
                        compose_state: None,
                        mode: Mode::Normal,
                        status_message: final(self).status_message,
                        loading: true,
                        ..*old(self)
                    })
                },
                _ => r is None && *final(self) == *old(self),
            },
    {
        let cookie = match &self.session {
            Some(s) => s.cookie.clone(),
            None => return None,
        };
        let state = match self.compose_state.take() {
            Some(s) => s,
            None => return None,
        };
        let v = chars_of(state.text.as_str());
        let t = trim_vec(&v);
        if t.len() == 0 {
            self.compose_state = Some(state);
            self.status_message = string_of_str("Comment is empty.");
            return None;
        }
        self.mode = Mode::Normal;
        self.status_message = string_of_str("Posting comment...");
        self.loading = true;
        Some((cookie, state))
    }

    /// The reply was posted; the comments are reloaded next.
    pub fn comment_posted(&mut self)
        ensures
            final(self).status_message@ == "Comment posted! Reloading..."@,
            *final(self) == (App { status_message: final(self).status_message, ..*old(self) }),
    {
        self.status_message = string_of_str("Comment posted! Reloading...");
    }

    /// Posting the reply failed with `err`.
    pub fn comment_failed(&mut self, err: &str)
        ensures
            final(self).status_message@ == "Post failed: "@ + err@,
            *final(self) == (App {
                status_message: final(self).status_message,
                loading: false,
                ..*old(self)
            }),
    {
        self.status_message = cat("Post failed: ", err);
        self.loading = false;
    }

    /// A request that showed the loading state is over.
    pub fn finish_loading(&mut self)
        ensures
            *final(self) == (App { loading: false, ..*old(self) }),
    {
        self.loading = false;
    }

    // -----------------------------------------------------------------------
    // Profiles
    // -----------------------------------------------------------------------
    /// Starts loading the profile of `username`.
    pub fn begin_load_user(&mut self, username: &str)
        ensures
            final(self).status_message@ == "Loading profile for "@ + username@ + "..."@,
            *final(self) == (App {
                status_message: final(self).status_message,
                loading: true,
                ..*old(self)
            }),
    {
        let mut s = cat("Loading profile for ", username);
        push_str(&mut s, "...");
        self.status_message = s;
        self.loading = true;
    }

    /// Shows the profile that came back.
    pub fn user_loaded(&mut self, user: User)
        ensures
            final(self).status_message@ == user.id@ + " | "@ + signed_decimal(user.karma)
                + " karma | Esc back"@,
            *final(self) == (App {
                user_profile: Some(user),
                view_mode: ViewMode::User,
                status_message: final(self).status_message,
                loading: false,
                ..*old(self)
            }),
    {
        let mut s = string_of_str(user.id.as_str());
        push_str(&mut s, " | ");
        push_signed(&mut s, user.karma);
        push_str(&mut s, " karma | Esc back");
        self.status_message = s;
        self.user_profile = Some(user);
        self.view_mode = ViewMode::User;
        self.loading = false;
    }

    /// Loading the profile failed with `err`.
    pub fn user_failed(&mut self, err: &str)
        ensures
            final(self).status_message@ == "Failed to load user: "@ + err@,
            *final(self) == (App {
                status_message: final(self).status_message,
                loading: false,
                ..*old(self)
            }),
    {
        self.status_message = cat("Failed to load user: ", err);
        self.loading = false;
    }

    // -----------------------------------------------------------------------
    // Reader mode, links
    // -----------------------------------------------------------------------
    /// Starts fetching the selected story's article: returns its address, or says there
    /// is none.
    pub fn begin_reader(&mut self) -> (r: Option<String>)
        ensures
            match selected(*old(self)) {
                Some(s) if s.url is Some => {
                    &&& r matches Some(u) && Some(u@) == opt_str(s.url)
                    &&& final(self).progress matches Some(p) && p.label@ == "Fetching article"@
                    &&& *final(self) == (App { progress: final(self).progress, ..*old(self) })
                },
                _ => r is None && final(self).status_message@ == "No URL for this story."@
                    && *final(self) == (App {
                    status_message: final(self).status_message,
                    ..*old(self)
                }),
            },
    {
        let url = if self.story_cursor < self.stories.len() {
            crate::api::clone_opt_str(&self.stories[self.story_cursor].url)
        } else {
            None
        };
        match url {
            None => {
                self.status_message = string_of_str("No URL for this story.");
                None
            },
            Some(u) => {
                self.progress = Some(Progress::new("Fetching article"));
                Some(u)
            },
        }
    }

    /// Takes what fetching the article gave: the article opens in reader mode at the top,
    /// with the wait before comments are fetched ahead counted from `wait_start`; or the
    /// status shows the error.
    pub fn apply_pending_reader_since(
        &mut self,
        result: Result<ReaderResult, String>,
        wait_start: Instant,
    )
        ensures
            reader_applied_post(*old(self), *final(self), result, wait_start),
    {
        match result {
            Ok((title, blocks, offsets, total)) => {
                self.reader_section_offsets = offsets;
                self.reader_total_lines = total;
                self.reader_content = Some(ReaderContent { title, blocks });
                self.reader_scroll = 0;
                self.mode = Mode::Reader;
                self.progress = None;
                self.story_dwell_start = Some(wait_start);
                self.prefetching_story_id = None;
            },
            Err(e) => {
                self.status_message = cat("Reader: ", e.as_str());
                self.progress = None;
            },
        }
    }

    /// `apply_pending_reader_since` three seconds before now: an article counts as three
    /// seconds of waiting, so comments are fetched ahead at once after it.
    pub fn apply_pending_reader(&mut self, result: Result<ReaderResult, String>)
        ensures
            exists|wait_start: Instant| reader_applied_post(*old(self), *final(self), result, wait_start),
    {
        let start = secs_before(&clock_now(), 3);
        let ghost res = result;
        self.apply_pending_reader_since(result, start);
        assert(reader_applied_post(*old(self), *self, res, start));
    }

    /// The address of the selected story: its link, or its HN page for a post without
    /// one.
    pub fn story_link(&self) -> (r: Option<String>)
        ensures
            match selected(*self) {
                None => r is None,
                Some(s) => r matches Some(u) && u@ == match opt_str(s.url) {
                    Some(l) => l,
                    None => item_page_url_spec(s.id),
                },
            },
    {
        if self.story_cursor >= self.stories.len() {
            return None;
        }
        let s = &self.stories[self.story_cursor];
        match &s.url {
            Some(u) => Some(u.clone()),
            None => Some(item_page_url(s.id)),
        }
    }

    /// Copying `url` to the clipboard went as `outcome`.
    pub fn clipboard_done(&mut self, url: &str, outcome: ClipboardOutcome)
        ensures
            final(self).status_message@ == match outcome {
                ClipboardOutcome::Copied => "Copied: "@ + url@,
                ClipboardOutcome::SetFailed => "Failed to copy to clipboard"@,
                ClipboardOutcome::Unavailable => "Clipboard unavailable"@,
            },
            *final(self) == (App { status_message: final(self).status_message, ..*old(self) }),
    {
        self.status_message = match outcome {
            ClipboardOutcome::Copied => cat("Copied: ", url),
            ClipboardOutcome::SetFailed => string_of_str("Failed to copy to clipboard"),
            ClipboardOutcome::Unavailable => string_of_str("Clipboard unavailable"),
        };
    }

    /// The address to open for the selected story (see `story_link`); the wait before
    /// comments are fetched ahead then counts from `wait_start`.
    pub fn open_story_in_browser_since(&mut self, wait_start: Instant) -> (r: Option<String>)
        ensures
            open_story_post(*old(self), *final(self), wait_start, r),
    {
        let r = self.story_link();
        self.story_dwell_start = Some(wait_start);
        self.prefetching_story_id = None;
        self.progress = None;
        r
    }

    /// `open_story_in_browser_since` three seconds before now, so that comments are
    /// fetched ahead at once.
    pub fn open_story_in_browser(&mut self) -> (r: Option<String>)
        ensures
            exists|wait_start: Instant| open_story_post(*old(self), *final(self), wait_start, r),
    {
        let start = secs_before(&clock_now(), 3);
        let r = self.open_story_in_browser_since(start);
        assert(open_story_post(*old(self), *self, start, r));
        r
    }

    /// The HN discussion page of the selected story.
    pub fn open_hn_page_in_browser(&self) -> (r: Option<String>)
        ensures
            match selected(*self) {
                None => r is None,
                Some(s) => r matches Some(u) && u@ == item_page_url_spec(s.id),
            },
    {
        if self.story_cursor < self.stories.len() {
            Some(item_page_url(self.stories[self.story_cursor].id))
        } else {
            None
        }
    }
}

/// What is under the cursor to vote on or reply to: the item's id, its story's id, and
/// its author as shown.
pub open spec fn target_spec(a: App) -> Option<(u64, u64, Seq<char>)> {
    match selected(a) {
        None => None,
        Some(s) => match a.active_pane {
            Pane::Stories => Some((s.id, s.id, shown_by(s@))),
            Pane::Comments => match comment_at_cursor(a) {
                Some(n) => Some((n.item.id, s.id, shown_by(n.item@))),
                None => None,
            },
        },
    }
}

/// What an article becomes in reader mode, given its title and HTML: the blocks, the
/// section offsets, and the estimated length (40 lines past the last section).
pub fn reader_result(title: String, html: &str) -> (r: ReaderResult)
    requires
        html@.len() + 40 <= usize::MAX,
    ensures
        r.0 == title,
        crate::reader::blocks_view(r.1@) == crate::reader::parse_from(html@, 0),
        crate::reader::offsets_view(r.2@) == crate::reader::section_offsets(
            crate::reader::parse_from(html@, 0),
        ),
        r.3 == if r.2@.len() > 0 {
            r.2@.last() + 40
        } else {
            40
        },
{
    let (blocks, offsets) = parse_html(html);
    let total = if offsets.len() > 0 {
        offsets[offsets.len() - 1] + 40
    } else {
        40
    };
    (title, blocks, offsets, total)
}

} // verus!
