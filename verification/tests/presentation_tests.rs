use std::time::{Duration, Instant};

use hnr::api::{make_item, user_page_url};
use hnr::app::{App, Mode, Pane};
use hnr::comments::{attach_replies, level_nodes, CommentNode};
use hnr::keys::Key;
use hnr::screen::{comment_marker, reader_inner_height};
use hnr::session::Session;

fn texts(groups: &[Vec<(String, String)>]) -> Vec<Vec<(&str, &str)>> {
    groups.iter().map(|g| g.iter().map(|(k, d)| (k.as_str(), d.as_str())).collect()).collect()
}

#[test]
fn hints_stories_pane_shows_nav_and_bookmark() {
    let app = App::new();
    let groups = app.hints();
    assert_eq!(groups.len(), 2);
    let t = texts(&groups);
    assert!(t[0].contains(&("l", "login")), "login hint missing when not logged in");
    assert!(t[1].contains(&("j/k/↑↓", "nav")));
    assert!(t[1].contains(&("b", "bookmark")));
}

#[test]
fn hints_comments_pane_shows_collapse_and_back() {
    let mut app = App::new();
    app.active_pane = Pane::Comments;
    app.session = Some(Session { username: "pg".into(), cookie: "user=abc".into() });
    let groups = app.hints();
    let t = texts(&groups).concat();
    assert!(t.contains(&("Space", "thread collapse")));
    assert!(t.contains(&("Esc", "←back")));
    assert!(t.contains(&("l", "logout")));
}

#[test]
fn search_mode_hints_show_type_and_enter() {
    let mut app = App::new();
    app.mode = Mode::Search;
    let groups = app.hints();
    let t = texts(&groups);
    assert_eq!(t, vec![vec![("Type", "to search"), ("Enter", "run"), ("Esc", "cancel")]]);
}

#[test]
fn bookmark_star_only_for_bookmarked() {
    let mut app = App::new();
    app.bookmark_ids.insert(1);
    assert_eq!(app.bookmark_mark(1), "★ ");
    assert_eq!(app.bookmark_mark(2), "");
}

#[test]
fn comment_markers() {
    assert_eq!(comment_marker(true), "▸");
    assert_eq!(comment_marker(false), "▾");
}

#[test]
fn story_author_is_recognised_in_comments() {
    let mut app = App::new();
    app.stories = vec![make_item(1)];
    let mut own = make_item(10);
    own.by = Some("user1".into());
    assert!(app.by_story_author(&CommentNode::new(own, 0)));
    assert!(!app.by_story_author(&CommentNode::new(make_item(11), 0)));
    let mut none = make_item(12);
    none.by = None;
    app.stories[0].by = None;
    assert!(!app.by_story_author(&CommentNode::new(none, 0)));
}

#[test]
fn kept_session_greets_the_user() {
    let mut app = App::new();
    app.session = Some(Session { username: "pg".into(), cookie: "user=abc".into() });
    app.greet_session();
    assert_eq!(app.status_message, "Logged in as pg | Loading...");
    let mut app = App::new();
    app.greet_session();
    assert_eq!(app.status_message, "Loading...");
}

#[test]
fn reader_page_height() {
    assert_eq!(reader_inner_height(40), 34);
    assert_eq!(reader_inner_height(2), 0);
    assert_eq!(reader_inner_height(0), 0);
}

#[test]
fn profile_address() {
    assert_eq!(user_page_url("pg"), "https://news.ycombinator.com/user?id=pg");
}

#[test]
fn reader_key_fits_only_limits_moving_down() {
    let mut app = App::new();
    app.reader_scroll = usize::MAX;
    assert!(!app.reader_key_fits(Key::Char('j'), 10));
    assert!(!app.reader_key_fits(Key::Char('d'), 10));
    assert!(app.reader_key_fits(Key::Char('k'), 10));
    app.handle_reader_key(Key::Char('k'), 10);
    assert_eq!(app.reader_scroll, usize::MAX - 1);
}

#[test]
fn moves_at_a_given_time_restart_the_wait() {
    let mut app = App::new();
    app.stories = (1..=3).map(make_item).collect();
    let t0 = Instant::now();
    app.scroll_story_down_at(10, t0);
    assert_eq!(app.story_dwell_start, Some(t0));
    let t1 = t0 + Duration::from_secs(5);
    app.scroll_story_up_at(t1);
    assert_eq!(app.story_dwell_start, Some(t1));
    // At the top, a move up does nothing and keeps the wait.
    app.scroll_story_up_at(t0);
    assert_eq!(app.story_dwell_start, Some(t1));
    let url = app.open_story_in_browser_since(t0);
    assert_eq!(url.as_deref(), Some("https://example.com/1"));
    assert_eq!(app.story_dwell_start, Some(t0));
    app.apply_pending_reader_since(Ok(("T".into(), Vec::new(), Vec::new(), 40)), t1);
    assert_eq!(app.story_dwell_start, Some(t1));
    assert_eq!(app.mode, Mode::Reader);
}

#[test]
fn opening_counts_as_three_seconds_of_waiting() {
    let mut app = App::new();
    app.stories = vec![make_item(1)];
    let before = Instant::now();
    app.open_story_in_browser();
    let start = app.story_dwell_start.unwrap();
    if let Some(limit) = before.checked_sub(Duration::from_secs(2)) {
        assert!(start <= limit);
    }
    let mut story = make_item(2);
    story.kids = Some(vec![5]);
    app.stories = vec![story];
    assert!(app.maybe_start_prefetch().is_some());
}

#[test]
fn comment_pane_placeholders() {
    let mut app = App::new();
    assert_eq!(app.comments_placeholder(), Some("Press Enter to load comments."));
    app.comments_loading = true;
    assert_eq!(app.comments_placeholder(), Some("Loading comments…"));
    app.comments_loading = false;
    app.comments_story_id = Some(1);
    assert_eq!(app.comments_placeholder(), Some("No comments yet."));
    app.comments = vec![CommentNode::new(make_item(10), 0)];
    assert_eq!(app.comments_placeholder(), None);
}

#[test]
fn status_bar_shows_command_input() {
    let mut app = App::new();
    assert_eq!(app.prompt_line(), None);
    app.mode = Mode::Command;
    app.command_input = "top".into();
    assert_eq!(app.prompt_line().as_deref(), Some(":top"));
    app.mode = Mode::Search;
    app.search_input = "rust async".into();
    assert_eq!(app.prompt_line().as_deref(), Some("?rust async"));
}

#[test]
fn expanded_comment_lines() {
    let (has, lines) = hnr::screen::expanded_lines("Rust is amazing\nfor systems");
    assert!(has);
    assert_eq!(lines, vec!["Rust is amazing".to_string(), "for systems".to_string()]);
    let (has, lines) = hnr::screen::expanded_lines("  \n ");
    assert!(!has);
    assert_eq!(lines, vec!["[no text]".to_string()]);
}

#[test]
fn progress_text_cycles_dots() {
    let p = hnr::shimmer::Progress::new("Refreshing");
    assert_eq!(p.text_after(0), "Refreshing.  ");
    assert_eq!(p.text_after(1), "Refreshing.. ");
    assert_eq!(p.text_after(2), "Refreshing...");
    assert_eq!(p.text_after(3), "Refreshing.  ");
    assert!(p.text().starts_with("Refreshing."));
}

#[test]
fn start_state_from_kept_data() {
    let mut gone = make_item(3);
    gone.title = None;
    let app = App::from_kept(Some("pg\nuser=abc"), &vec![make_item(1), gone], "[\n  7,\n  9\n]");
    let s = app.session.as_ref().unwrap();
    assert_eq!((s.username.as_str(), s.cookie.as_str()), ("pg", "user=abc"));
    assert!(app.bookmark_ids.contains(&1) && app.bookmark_ids.contains(&3));
    assert_eq!(app.bookmark_ids.len(), 2);
    assert!(app.seen_ids.contains(&7) && app.seen_ids.contains(&9));
    assert_eq!(app.seen_ids.len(), 2);
    assert_eq!(app.status_message, "Loading...");
    assert!(app.selected_story().is_none());
    let app = App::from_kept(None, &Vec::new(), "");
    assert!(app.session.is_none() && app.bookmark_ids.is_empty() && app.seen_ids.is_empty());
    let app = App::from_kept(Some("pg"), &Vec::new(), "not json");
    assert!(app.session.is_none() && app.seen_ids.is_empty());
}

#[test]
fn attached_replies_keep_only_live_comments() {
    let mut dead = make_item(11);
    dead.dead = Some(true);
    let level = level_nodes(vec![make_item(1), dead, make_item(2)], 0);
    assert_eq!(level.len(), 2);
    let mut gone = make_item(21);
    gone.deleted = Some(true);
    let replies = vec![level_nodes(vec![gone, make_item(22)], 1), Vec::new()];
    let tree = attach_replies(level, replies);
    assert_eq!(tree.len(), 2);
    assert_eq!(tree[0].children.len(), 1);
    assert_eq!(tree[0].children[0].item.id, 22);
    assert!(tree[1].children.is_empty());
}
