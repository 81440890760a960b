//! The loading steps of the library, fed with the data the network would return.
use std::collections::HashSet;

use hnr::api::{item_from_search_hit, make_item, Item, User};
use hnr::app::{App, Mode, ViewMode};
use hnr::comments::{level_nodes, CommentNode};
use hnr::flows::CommentsStart;
use hnr::seen::{seen_from_text, seen_to_text};

fn story_item(id: u64, descendants: u64) -> Item {
    Item {
        id,
        kind: Some("story".into()),
        title: Some(format!("Story {id}")),
        url: None,
        text: None,
        by: Some(format!("user{id}")),
        score: Some(100),
        time: None,
        descendants: Some(descendants),
        kids: None,
        parent: None,
        deleted: None,
        dead: None,
    }
}

fn comment_item(id: u64, text: &str, by: &str) -> Item {
    Item {
        id,
        kind: Some("comment".into()),
        title: None,
        url: None,
        text: Some(text.into()),
        by: Some(by.into()),
        score: None,
        time: None,
        descendants: None,
        kids: None,
        parent: None,
        deleted: None,
        dead: None,
    }
}

/// Loads the selected story's comments, answering each request with `fetched`.
fn load_comments(app: &mut App, hydrated_kids: Option<Vec<u64>>, fetched: Vec<Item>) {
    let story_id = app.selected_story().unwrap().id;
    let (start, _) = app.begin_comments();
    let kids = match start {
        CommentsStart::Fetch(k) => k,
        CommentsStart::Hydrate(_) => {
            let kids = hydrated_kids.unwrap_or_default();
            if !app.comments_kids_ready(&kids) {
                return;
            }
            kids
        }
        _ => return,
    };
    let items: Vec<Item> = fetched.into_iter().filter(|i| kids.contains(&i.id)).collect();
    app.comments_loaded(story_id, level_nodes(items, 0));
}

#[test]
fn load_feed_populates_stories() {
    let mut app = App::new();
    assert!(app.begin_feed().is_some());
    let ids = app.feed_ids_loaded(vec![1, 2, 3]);
    app.feed_items_loaded(ids.iter().map(|id| story_item(*id, 5)).collect());

    assert_eq!(app.stories.len(), 3);
    assert_eq!(app.stories[0].display_title(), "Story 1");
    assert_eq!(app.stories[0].score(), 100);
    assert!(app.status_message.contains("stories"), "got: {}", app.status_message);
}

#[test]
fn load_feed_bookmarks_reads_from_disk() {
    let mut app = App::new();
    app.feed = hnr::app::Feed::Bookmarks;
    assert!(app.begin_feed().is_none());
    app.show_bookmarks(vec![make_item(1), make_item(2)]);
    assert_eq!(app.stories.len(), 2);
    assert_eq!(app.stories[0].id, 1);
}

#[test]
fn load_comments_builds_tree() {
    let mut app = App::new();
    let mut story = make_item(1);
    story.kids = Some(vec![10]);
    app.stories = vec![story];

    load_comments(&mut app, None, vec![comment_item(10, "<p>Hello world</p>", "alice")]);

    assert_eq!(app.comments.len(), 1);
    assert_eq!(app.comments[0].item.id, 10);
    assert_eq!(app.comments[0].item.display_by(), "alice");
}

#[test]
fn load_comments_skips_deleted() {
    let mut app = App::new();
    let mut story = make_item(1);
    story.kids = Some(vec![10, 11]);
    app.stories = vec![story];
    let mut gone = comment_item(10, "", "x");
    gone.deleted = Some(true);

    load_comments(&mut app, None, vec![gone, comment_item(11, "alive", "bob")]);

    assert_eq!(app.comments.len(), 1, "deleted comment should be filtered");
    assert_eq!(app.comments[0].item.id, 11);
}

#[test]
fn load_comments_hydrates_kids_from_hn_for_algolia_story() {
    let mut app = App::new();
    let mut story = make_item(1);
    story.kids = None; // search-style: no kids
    story.descendants = Some(1);
    app.stories = vec![story];

    load_comments(&mut app, Some(vec![10]), vec![comment_item(10, "hello", "alice")]);

    assert_eq!(app.comments.len(), 1);
    assert_eq!(app.comments[0].item.id, 10);
}

#[test]
fn hydrated_story_without_kids_says_so() {
    let mut app = App::new();
    let mut story = make_item(1);
    story.kids = None;
    app.stories = vec![story];
    load_comments(&mut app, Some(Vec::new()), Vec::new());
    assert!(app.comments.is_empty());
    assert_eq!(app.status_message, "No comments.");
    assert!(!app.comments_loading);
}

#[test]
fn load_comments_uses_cache_when_prefetched() {
    let mut app = App::new();
    let mut story = make_item(1);
    story.kids = Some(vec![10]);
    app.stories = vec![story];
    // Simulate already-prefetched comments
    app.comments_story_id = Some(1);
    app.comments = vec![CommentNode::new(make_item(10), 0)];

    let (start, _) = app.begin_comments();

    // Should reuse cache, not re-fetch
    assert!(matches!(start, CommentsStart::Cached));
    assert_eq!(app.comments.len(), 1);
    assert_eq!(app.comments[0].item.id, 10);
}

#[test]
fn load_comments_marks_story_as_seen() {
    let mut app = App::new();
    app.seen_ids = HashSet::new();
    let mut story = make_item(1);
    story.kids = Some(vec![10]);
    app.stories = vec![story];

    load_comments(&mut app, None, vec![comment_item(10, "hi", "alice")]);

    assert!(app.seen_ids.contains(&1), "story should be seen after loading comments");
    let text = seen_to_text(app.seen_ids.iter().copied().collect()).unwrap();
    assert!(seen_from_text(&text).contains(&1), "seen state should persist to disk");
}

#[test]
fn load_user_populates_profile() {
    let mut app = App::new();
    app.begin_load_user("pg");
    assert!(app.loading);
    app.user_loaded(User {
        id: "pg".into(),
        karma: 155000,
        created: 1000000,
        about: Some("<p>Lisp hacker</p>".into()),
        submitted: Some(vec![1, 2, 3]),
    });

    let user = app.user_profile.as_ref().expect("user should be loaded");
    assert_eq!(user.id, "pg");
    assert_eq!(user.karma, 155000);
    assert_eq!(user.submission_count(), 3);
    assert_eq!(app.view_mode, ViewMode::User);
    assert_eq!(app.status_message, "pg | 155000 karma | Esc back");
    assert!(!app.loading);
}

#[test]
fn load_user_error_sets_error_status() {
    let mut app = App::new();
    app.begin_load_user("nobody");
    app.user_failed("not found");

    assert!(app.user_profile.is_none());
    assert!(app.status_message.contains("Failed to load user"), "got: {}", app.status_message);
}

#[test]
fn run_search_populates_stories_on_success() {
    let mut app = App::new();
    app.search_input = "rust".into();
    let query = app.begin_search().unwrap();
    let hits = vec![
        item_from_search_hit("1", Some("Rust is great".into()), Some("https://example.com/1".into()),
            Some("alice".into()), Some(200), Some(42), Some(0)).unwrap(),
        item_from_search_hit("2", Some("Go is fast".into()), Some("https://example.com/2".into()),
            Some("bob".into()), Some(150), Some(20), Some(0)).unwrap(),
    ];
    app.search_done(query, hits);

    assert_eq!(app.stories.len(), 2, "expected 2 results");
    assert_eq!(app.stories[0].display_title(), "Rust is great");
    assert_eq!(app.stories[1].display_title(), "Go is fast");
    assert_eq!(app.search_query.as_deref(), Some("rust"));
    assert_eq!(app.mode, Mode::Normal);
    assert!(app.status_message.contains("rust"), "got: {}", app.status_message);
}

#[test]
fn prefetch_waits_for_the_dwell() {
    let mut app = App::new();
    let mut story = make_item(1);
    story.kids = Some(vec![10]);
    app.stories = vec![story];
    assert!(app.story_dwell_start.is_some());
    assert!(app.maybe_start_prefetch_after(2).is_none());
    let (id, kids) = app.maybe_start_prefetch_after(3).unwrap();
    assert_eq!(id, 1);
    assert_eq!(kids, Some(vec![10]));
    assert_eq!(app.prefetching_story_id, Some(1));
    assert!(app.progress.is_some());
    // Not started twice for the same story.
    assert!(app.maybe_start_prefetch_after(20).is_none());
    // The fetched comments open the pane while the list has the focus.
    app.apply_pending_comments(1, vec![CommentNode::new(make_item(10), 0)]);
    assert_eq!(app.comments_story_id, Some(1));
    assert_eq!(app.comments.len(), 1);
    assert_eq!(app.active_pane, hnr::app::Pane::Comments);
    assert!(app.progress.is_none());
}
