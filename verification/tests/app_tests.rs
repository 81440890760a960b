use hnr::api::{make_item, User};
use hnr::app::{App, Feed, Mode, Pane, ViewMode};
use hnr::comments::CommentNode;
use hnr::flows::ClipboardOutcome;
use hnr::seen::{seen_from_text, seen_to_text};
use hnr::session::Session;

fn make_app_with_stories(n: usize) -> App {
    let mut app = App::new();
    app.stories = (1..=n as u64).map(make_item).collect();
    app
}

fn make_app_with_comments(n: usize) -> App {
    let mut app = make_app_with_stories(1);
    app.comments = (100..100 + n as u64).map(|id| CommentNode::new(make_item(id), 0)).collect();
    app
}

#[test]
fn story_scroll_down_increments_cursor() {
    let mut app = make_app_with_stories(5);
    app.scroll_story_down(10);
    assert_eq!(app.story_cursor, 1);
    assert_eq!(app.story_scroll, 0);
}

#[test]
fn story_scroll_advances_when_cursor_hits_visible_boundary() {
    let mut app = make_app_with_stories(10);
    for _ in 0..5 {
        app.scroll_story_down(5);
    }
    assert_eq!(app.story_cursor, 5);
    assert_eq!(app.story_scroll, 1);
}

#[test]
fn story_scroll_up_decrements_cursor() {
    let mut app = make_app_with_stories(5);
    app.story_cursor = 3;
    app.story_scroll = 2;
    app.scroll_story_up();
    assert_eq!(app.story_cursor, 2);
    assert_eq!(app.story_scroll, 2);
}

#[test]
fn story_scroll_up_adjusts_scroll_when_cursor_above_window() {
    let mut app = make_app_with_stories(5);
    app.story_cursor = 2;
    app.story_scroll = 3;
    app.scroll_story_up();
    assert_eq!(app.story_cursor, 1);
    assert_eq!(app.story_scroll, 1);
}

#[test]
fn story_scroll_down_stops_at_end() {
    let mut app = make_app_with_stories(3);
    app.story_cursor = 2;
    app.scroll_story_down(10);
    assert_eq!(app.story_cursor, 2);
}

#[test]
fn story_scroll_up_stops_at_zero() {
    let mut app = make_app_with_stories(3);
    app.story_cursor = 0;
    app.scroll_story_up();
    assert_eq!(app.story_cursor, 0);
    assert_eq!(app.story_scroll, 0);
}

#[test]
fn selected_story_returns_correct_item() {
    let mut app = make_app_with_stories(5);
    app.story_cursor = 2;
    assert_eq!(app.selected_story().unwrap().id, 3);
}

#[test]
fn selected_story_none_when_empty() {
    let app = App::new();
    assert!(app.selected_story().is_none());
}

#[test]
fn save_comment_pos_stores_cursor_and_scroll() {
    let mut app = make_app_with_stories(3);
    app.story_cursor = 1;
    app.comment_cursor = 5;
    app.comment_scroll = 3;
    app.save_comment_pos();
    let story_id = app.stories[1].id;
    assert_eq!(app.comment_pos_cache.get(&story_id).copied(), Some((5, 3)));
}

#[test]
fn save_comment_pos_noop_when_no_stories() {
    let mut app = App::new();
    app.save_comment_pos();
    assert!(app.comment_pos_cache.is_empty());
}

#[test]
fn save_comment_pos_overwrites_previous_entry() {
    let mut app = make_app_with_stories(2);
    app.story_cursor = 0;
    app.comment_cursor = 2;
    app.comment_scroll = 1;
    app.save_comment_pos();
    app.comment_cursor = 7;
    app.comment_scroll = 4;
    app.save_comment_pos();
    let story_id = app.stories[0].id;
    assert_eq!(app.comment_pos_cache.get(&story_id).copied(), Some((7, 4)));
}

#[test]
fn copy_url_no_op_when_no_stories() {
    let app = App::new();
    assert!(app.story_link().is_none());
    assert!(!app.status_message.starts_with("Copied:"));
}

#[test]
fn copy_url_uses_story_url() {
    let mut app = make_app_with_stories(1);
    // make_item sets url = "https://example.com/1"
    let url = app.story_link().unwrap();
    app.clipboard_done(&url, ClipboardOutcome::Copied);
    let msg = &app.status_message;
    assert!(
        msg.starts_with("Copied: https://example.com/1")
            || msg == "Failed to copy to clipboard"
            || msg == "Clipboard unavailable",
        "unexpected: {msg}"
    );
}

#[test]
fn copy_url_falls_back_to_hn_url_when_no_story_url() {
    let mut app = make_app_with_stories(1);
    app.stories[0].url = None;
    let url = app.story_link().unwrap();
    app.clipboard_done(&url, ClipboardOutcome::Copied);
    let msg = &app.status_message;
    assert!(
        msg.starts_with("Copied: https://news.ycombinator.com/item?id=")
            || msg == "Failed to copy to clipboard"
            || msg == "Clipboard unavailable",
        "unexpected: {msg}"
    );
}

#[test]
fn clipboard_failures_are_reported() {
    let mut app = make_app_with_stories(1);
    app.clipboard_done("x", ClipboardOutcome::SetFailed);
    assert_eq!(app.status_message, "Failed to copy to clipboard");
    app.clipboard_done("x", ClipboardOutcome::Unavailable);
    assert_eq!(app.status_message, "Clipboard unavailable");
}

#[test]
fn feed_label_returns_correct_strings() {
    assert_eq!(Feed::Top.label(), "Top");
    assert_eq!(Feed::New.label(), "New");
    assert_eq!(Feed::Best.label(), "Best");
    assert_eq!(Feed::Ask.label(), "Ask HN");
    assert_eq!(Feed::Show.label(), "Show HN");
    assert_eq!(Feed::Jobs.label(), "Jobs");
    assert_eq!(Feed::Bookmarks.label(), "Bookmarks");
}

#[test]
fn flat_comments_empty_when_no_comments() {
    let app = make_app_with_stories(1);
    assert!(app.flat_comments().is_empty());
}

#[test]
fn flat_comments_includes_nested_nodes() {
    let mut app = make_app_with_stories(1);
    let child = CommentNode::new(make_item(101), 1);
    app.comments = vec![
        CommentNode { item: make_item(100), text: String::new(), depth: 0, collapsed: false, children: vec![child] },
        CommentNode::new(make_item(102), 0),
    ];
    // root 100, child 101, root 102
    assert_eq!(app.flat_comments().len(), 3);
    assert_eq!(app.flat_comments()[0].0.item.id, 100);
    assert_eq!(app.flat_comments()[1].0.item.id, 101);
    assert_eq!(app.flat_comments()[2].0.item.id, 102);
}

#[test]
fn scroll_comment_down_increments_cursor() {
    let mut app = make_app_with_comments(5);
    app.scroll_comment_down(10);
    assert_eq!(app.comment_cursor, 1);
    assert_eq!(app.comment_scroll, 0);
}

#[test]
fn scroll_comment_down_advances_scroll_at_boundary() {
    let mut app = make_app_with_comments(10);
    for _ in 0..5 {
        app.scroll_comment_down(5);
    }
    assert_eq!(app.comment_cursor, 5);
    assert_eq!(app.comment_scroll, 1);
}

#[test]
fn scroll_comment_down_stops_at_end() {
    let mut app = make_app_with_comments(3);
    app.comment_cursor = 2;
    app.scroll_comment_down(10);
    assert_eq!(app.comment_cursor, 2);
}

#[test]
fn scroll_comment_up_decrements_cursor() {
    let mut app = make_app_with_comments(5);
    app.comment_cursor = 3;
    app.comment_scroll = 2;
    app.scroll_comment_up();
    assert_eq!(app.comment_cursor, 2);
    assert_eq!(app.comment_scroll, 2);
}

#[test]
fn scroll_comment_up_adjusts_scroll_when_cursor_above_window() {
    let mut app = make_app_with_comments(5);
    app.comment_cursor = 2;
    app.comment_scroll = 3;
    app.scroll_comment_up();
    assert_eq!(app.comment_cursor, 1);
    assert_eq!(app.comment_scroll, 1);
}

#[test]
fn scroll_comment_up_stops_at_zero() {
    let mut app = make_app_with_comments(3);
    app.scroll_comment_up();
    assert_eq!(app.comment_cursor, 0);
    assert_eq!(app.comment_scroll, 0);
}

#[test]
fn toggle_current_comment_collapses_and_expands() {
    let child = CommentNode::new(make_item(101), 1);
    let mut app = make_app_with_stories(1);
    app.comments = vec![CommentNode {
        item: make_item(100),
        text: String::new(),
        depth: 0,
        collapsed: false,
        children: vec![child],
    }];
    app.comment_cursor = 0;
    app.toggle_current_comment();
    assert!(app.comments[0].collapsed);
    app.toggle_current_comment();
    assert!(!app.comments[0].collapsed);
}

#[test]
fn toggle_current_comment_noop_when_no_comments() {
    let mut app = make_app_with_stories(1);
    app.toggle_current_comment(); // should not panic
}

#[test]
fn username_at_cursor_stories_pane() {
    let app = make_app_with_stories(3);
    // make_item(1) sets by = "user1"
    assert_eq!(app.username_at_cursor(), Some("user1".to_string()));
}

#[test]
fn username_at_cursor_comments_pane() {
    let mut app = make_app_with_stories(1);
    app.active_pane = Pane::Comments;
    app.comments = vec![CommentNode::new(make_item(100), 0)];
    app.comment_cursor = 0;
    assert_eq!(app.username_at_cursor(), Some("user100".to_string()));
}

#[test]
fn username_at_cursor_none_when_empty() {
    let app = App::new();
    assert!(app.username_at_cursor().is_none());
}

#[test]
fn start_login_sets_mode_and_clears_state() {
    let mut app = make_app_with_stories(1);
    app.login_state.username = "old".into();
    app.login_state.password = "pw".into();
    app.start_login();
    assert_eq!(app.mode, Mode::Login);
    assert!(app.login_state.username.is_empty());
    assert!(app.login_state.password.is_empty());
}

#[test]
fn logout_clears_session_and_sets_status() {
    let mut app = App::new();
    app.session = Some(Session { username: "pg".into(), cookie: "user=abc".into() });
    app.logout();
    assert!(app.session.is_none());
    assert!(app.status_message.contains("Logged out"), "got: {}", app.status_message);
}

#[test]
fn toggle_bookmark_adds_then_removes() {
    let mut app = make_app_with_stories(1);
    let saved = app.toggle_bookmark(Vec::new()).unwrap();
    assert!(app.bookmark_ids.contains(&1));
    assert!(app.status_message.contains("Bookmarked"), "got: {}", app.status_message);
    let saved = app.toggle_bookmark(saved).unwrap();
    assert!(!app.bookmark_ids.contains(&1));
    assert!(app.status_message.contains("Removed bookmark"), "got: {}", app.status_message);
    assert!(saved.is_empty());
}

#[test]
fn toggle_bookmark_keeps_the_list_to_save() {
    let mut app = make_app_with_stories(1);
    let saved = app.toggle_bookmark(vec![make_item(9)]).unwrap();
    assert_eq!(saved.len(), 2);
    assert_eq!(saved[0].id, 9);
    assert_eq!(saved[1].id, 1);
    let saved = app.toggle_bookmark(saved).unwrap();
    assert_eq!(saved.len(), 1);
    assert_eq!(saved[0].id, 9);
}

#[test]
fn toggle_bookmark_persists_to_disk() {
    let mut app = make_app_with_stories(1);
    let saved = app.toggle_bookmark(Vec::new()).unwrap();
    assert_eq!(saved.len(), 1);
    assert_eq!(saved[0].id, 1);
    let saved = app.toggle_bookmark(saved).unwrap();
    assert!(saved.is_empty());
}

#[test]
fn toggle_bookmark_noop_when_no_stories() {
    let mut app = make_app_with_stories(0);
    assert!(app.toggle_bookmark(Vec::new()).is_none()); // should not panic
    assert!(app.bookmark_ids.is_empty());
}

#[test]
fn toggle_comment_expand_sets_and_clears_expanded() {
    let mut app = make_app_with_stories(1);
    let mut item = make_item(100);
    item.text = Some("<p>Hello world</p>".into());
    app.comments = vec![CommentNode::new(item, 0)];
    app.comment_cursor = 0;
    app.toggle_comment_expand();
    assert_eq!(app.expanded_comment, Some(100));
    app.toggle_comment_expand();
    assert!(app.expanded_comment.is_none());
}

#[test]
fn toggle_comment_expand_switches_to_different_comment() {
    let mut app = make_app_with_stories(1);
    app.comments = vec![CommentNode::new(make_item(100), 0), CommentNode::new(make_item(101), 0)];
    app.comment_cursor = 0;
    app.toggle_comment_expand();
    assert_eq!(app.expanded_comment, Some(100));
    app.comment_cursor = 1;
    app.toggle_comment_expand();
    assert_eq!(app.expanded_comment, Some(101));
}

#[test]
fn toggle_comment_expand_noop_when_no_comments() {
    let mut app = make_app_with_stories(1);
    app.toggle_comment_expand(); // should not panic
    assert!(app.expanded_comment.is_none());
}

#[test]
fn mark_unseen_removes_from_seen_ids_and_saves() {
    let mut app = make_app_with_stories(1);
    app.seen_ids.insert(1);
    let changed = app.mark_unseen();
    assert!(changed);
    assert!(!app.seen_ids.contains(&1));
    assert!(app.status_message.contains("unread"), "got: {}", app.status_message);
    let text = seen_to_text(app.seen_ids.iter().copied().collect()).unwrap();
    let on_disk = seen_from_text(&text);
    assert!(!on_disk.contains(&1));
}

#[test]
fn mark_unseen_noop_when_story_not_seen() {
    let mut app = make_app_with_stories(1);
    let prev = app.status_message.clone();
    assert!(!app.mark_unseen());
    assert!(app.seen_ids.is_empty());
    assert_eq!(app.status_message, prev, "status should not change");
}

#[test]
fn mark_unseen_noop_when_no_stories() {
    let mut app = make_app_with_stories(0);
    assert!(!app.mark_unseen()); // should not panic
}

#[test]
fn start_search_sets_mode_and_clears_input() {
    let mut app = make_app_with_stories(1);
    app.search_input = "old query".into();
    app.start_search();
    assert_eq!(app.mode, Mode::Search);
    assert!(app.search_input.is_empty());
}

#[test]
fn run_search_empty_input_cancels() {
    let mut app = make_app_with_stories(1);
    app.search_input = "  ".into();
    assert!(app.begin_search().is_none());
    assert_eq!(app.mode, Mode::Normal);
    assert!(app.status_message.contains("cancelled"), "got: {}", app.status_message);
    assert!(app.search_query.is_none());
}

#[test]
fn close_user_profile_resets_view_mode_and_clears_profile() {
    let mut app = App::new();
    app.view_mode = ViewMode::User;
    app.user_profile = Some(User { id: "pg".into(), karma: 1, created: 0, about: None, submitted: None });
    app.close_user_profile();
    assert_eq!(app.view_mode, ViewMode::Story);
    assert!(app.user_profile.is_none());
}

#[test]
fn tick_progress_shows_for_algolia_story_with_descendants() {
    // Algolia items have kids=None but descendants>0 — progress should show
    let mut app = App::new();
    let mut story = make_item(1);
    story.kids = None;
    story.descendants = Some(42);
    app.stories = vec![story];

    app.tick_progress();

    assert!(app.progress.is_some(), "should show Fetching comments when descendants>0 and kids=None");
}

#[test]
fn tick_progress_hidden_when_no_descendants() {
    let mut app = App::new();
    let mut story = make_item(1);
    story.kids = None;
    story.descendants = Some(0);
    app.stories = vec![story];

    app.tick_progress();

    assert!(app.progress.is_none());
}
