use hnr::api::{
    comment_form, extract_login_cookie, extract_reply_hmac, extract_vote_auth, item_from_search_hit,
    item_page_url, item_url, make_item, reply_url, user_url, vote_url, Item,
};
use hnr::app::{feed_url, App, Feed, Mode, Pane};
use hnr::comments::CommentNode;
use hnr::flows::{reader_result, CommentsStart, VoteOutcome, FEED_LIMIT};
use hnr::session::Session;

#[test]
fn addresses_are_built_from_ids() {
    assert_eq!(item_page_url(42), "https://news.ycombinator.com/item?id=42");
    assert_eq!(item_url("http://b", 7), "http://b/item/7.json");
    assert_eq!(user_url("http://b", "pg"), "http://b/user/pg.json");
    assert_eq!(reply_url(9), "https://news.ycombinator.com/reply?id=9");
    assert_eq!(
        vote_url(5, "abc", 3),
        "https://news.ycombinator.com/vote?id=5&how=up&auth=abc&goto=item%3Fid%3D3"
    );
    assert_eq!(feed_url("http://b", Feed::Jobs).as_deref(), Some("http://b/jobstories.json"));
    assert_eq!(feed_url("http://b", Feed::Ask).as_deref(), Some("http://b/askstories.json"));
    assert!(feed_url("http://b", Feed::Bookmarks).is_none());
}

#[test]
fn comment_form_fields() {
    let f = comment_form(11, 3, "h", "hi there");
    assert_eq!(f.len(), 4);
    assert_eq!(f[0], ("parent".to_string(), "11".to_string()));
    assert_eq!(f[1], ("goto".to_string(), "item?id=3".to_string()));
    assert_eq!(f[2], ("hmac".to_string(), "h".to_string()));
    assert_eq!(f[3], ("text".to_string(), "hi there".to_string()));
}

#[test]
fn vote_auth_is_read_from_the_page() {
    let html = "<a href=\"vote?id=12&amp;how=up&amp;auth=abc123&amp;goto=x\">up</a>";
    assert_eq!(extract_vote_auth(html, 12).as_deref(), Some("abc123"));
    assert!(extract_vote_auth(html, 13).is_none());
    assert!(extract_vote_auth("vote?id=12&amp;how=up&amp;auth=&amp;", 12).is_none());
}

#[test]
fn reply_hmac_is_read_from_the_form() {
    let html = "<input type=\"hidden\" name=\"hmac\" value=\"f00d\">";
    assert_eq!(extract_reply_hmac(html).as_deref(), Some("f00d"));
    assert!(extract_reply_hmac("<input name=\"hmac\" value=\"\">").is_none());
    assert!(extract_reply_hmac("<p>no form</p>").is_none());
}

#[test]
fn login_cookie_is_the_first_user_cookie() {
    let headers = vec![
        "other=1; Path=/".to_string(),
        "user=deleted; Expires=Thu, 01 Jan 1970".to_string(),
        "user=pg&abc; Path=/; HttpOnly".to_string(),
    ];
    assert_eq!(extract_login_cookie(&headers).as_deref(), Some("user=pg&abc"));
    assert!(extract_login_cookie(&vec!["other=1".to_string()]).is_none());
}

#[test]
fn search_hits_become_stories() {
    let it = item_from_search_hit(
        "42",
        Some("Rust is great".into()),
        Some("https://example.com/1".into()),
        Some("alice".into()),
        Some(150),
        Some(20),
        Some(1000),
    )
    .unwrap();
    assert_eq!(it.id, 42);
    assert_eq!(it.kind.as_deref(), Some("story"));
    assert_eq!(it.display_title(), "Rust is great");
    assert_eq!(it.display_by(), "alice");
    assert_eq!(it.score(), 150);
    assert_eq!(it.comment_count(), 20);
    assert!(it.kids.is_none());
    assert!(item_from_search_hit("x1", None, None, None, None, None, None).is_none());
}

#[test]
fn load_feed_truncates_to_60_stories() {
    let mut app = App::new();
    let url = app.begin_feed().unwrap();
    assert_eq!(url, "https://hacker-news.firebaseio.com/v0/topstories.json");
    assert!(app.loading);
    let ids: Vec<u64> = (1..=70).collect();
    let kept = app.feed_ids_loaded(ids);
    assert_eq!(kept.len(), FEED_LIMIT);
    assert_eq!(kept.len(), 60, "should truncate to 60, got {}", kept.len());
    let items: Vec<Item> = kept.iter().map(|id| make_item(*id)).collect();
    app.feed_items_loaded(items);
    assert_eq!(app.stories.len(), 60);
    assert_eq!(app.stories[0].display_title(), "Story 1");
    assert!(!app.loading);
    assert!(app.status_message.contains("stories"), "got: {}", app.status_message);
}

#[test]
fn feed_items_follow_the_order_of_the_ids() {
    let mut app = App::new();
    app.feed_ids_loaded(vec![3, 1, 2]);
    app.feed_items_loaded(vec![make_item(1), make_item(2), make_item(3)]);
    let ids: Vec<u64> = app.stories.iter().map(|s| s.id).collect();
    assert_eq!(ids, vec![3, 1, 2]);
    assert_eq!(app.story_cursor, 0);
    assert_eq!(app.active_pane, Pane::Stories);
}

#[test]
fn load_feed_api_error_sets_error_status() {
    let mut app = App::new();
    app.begin_feed();
    app.feed_failed("boom");
    assert!(app.status_message.starts_with("Error:"), "got: {}", app.status_message);
    assert!(app.stories.is_empty());
    assert!(!app.loading);
}

#[test]
fn load_feed_bookmarks_empty_shows_help_message() {
    let mut app = App::new();
    app.feed = Feed::Bookmarks;
    assert!(app.begin_feed().is_none());
    app.show_bookmarks(Vec::new());
    assert!(app.stories.is_empty());
    assert!(app.status_message.contains("No bookmarks"), "got: {}", app.status_message);
}

#[test]
fn opening_comments_asks_for_kids_then_uses_them() {
    let mut app = App::new();
    let mut story = make_item(1);
    story.kids = Some(vec![10, 11]);
    app.stories = vec![story];
    let (start, changed) = app.begin_comments();
    assert!(changed);
    assert!(app.seen_ids.contains(&1), "story should be seen after loading comments");
    assert!(matches!(start, CommentsStart::Fetch(ref k) if *k == vec![10, 11]));
    app.comments_loaded(1, vec![CommentNode::new(make_item(11), 0)]);
    assert_eq!(app.comments.len(), 1);
    assert_eq!(app.comments[0].item.id, 11);
    // Opening them again uses what is loaded.
    let (start, changed) = app.begin_comments();
    assert!(!changed);
    assert!(matches!(start, CommentsStart::Cached));
}

#[test]
fn search_story_without_kids_needs_hydrating() {
    let mut app = App::new();
    let mut story = make_item(7);
    story.kids = None;
    app.stories = vec![story];
    let (start, _) = app.begin_comments();
    assert!(matches!(start, CommentsStart::Hydrate(7)));
}

#[test]
fn search_results_replace_the_list() {
    let mut app = App::new();
    app.search_input = "rust".into();
    let q = app.begin_search().unwrap();
    assert_eq!(q, "rust");
    app.search_done(q, vec![make_item(42), make_item(43)]);
    assert_eq!(app.stories.len(), 2, "expected 2 results");
    assert_eq!(app.search_query.as_deref(), Some("rust"));
    assert!(app.status_message.contains("results"), "got: {}", app.status_message);
}

#[test]
fn run_search_error_clears_search_query() {
    let mut app = App::new();
    app.search_query = Some("old".into());
    app.search_input = "rust".into();
    app.begin_search();
    app.search_failed("down");
    assert!(app.search_query.is_none());
    assert!(app.status_message.contains("Search error"), "got: {}", app.status_message);
}

#[test]
fn login_flow() {
    let mut app = App::new();
    app.start_login();
    app.login_state.username = "pg".into();
    app.login_state.password = "pw".into();
    let (u, p) = app.begin_login().unwrap();
    assert_eq!((u.as_str(), p.as_str()), ("pg", "pw"));
    app.login_succeeded("pg".into(), "user=abc".into());
    assert_eq!(app.mode, Mode::Normal);
    let s = app.session.as_ref().unwrap();
    assert_eq!(s.username, "pg");
    assert_eq!(s.cookie, "user=abc");
}

#[test]
fn vote_needs_a_session() {
    let mut app = App::new();
    app.stories = vec![make_item(1)];
    assert!(app.begin_vote().is_none());
    assert!(app.status_message.contains("Not logged in"), "got: {}", app.status_message);
    app.session = Some(Session { username: "pg".into(), cookie: "user=abc".into() });
    let t = app.begin_vote().unwrap();
    assert_eq!((t.item_id, t.story_id), (1, 1));
    assert_eq!(t.cookie, "user=abc");
    app.vote_finished(&VoteOutcome::Voted);
    assert_eq!(app.status_message, "Voted!");
    app.vote_finished(&VoteOutcome::VoteFailed("x".into()));
    assert_eq!(app.status_message, "Vote failed: x");
}

#[test]
fn reply_to_comment_under_cursor() {
    let mut app = App::new();
    app.stories = vec![make_item(1)];
    app.session = Some(Session { username: "pg".into(), cookie: "user=abc".into() });
    app.active_pane = Pane::Comments;
    app.comments = vec![CommentNode::new(make_item(100), 0)];
    let t = app.begin_compose().unwrap();
    assert_eq!((t.parent_id, t.story_id), (100, 1));
    assert_eq!(t.parent_by, "user100");
    app.compose_ready(t, "hm".into());
    assert_eq!(app.mode, Mode::Compose);
    assert!(app.begin_submit_comment().is_none());
    assert_eq!(app.status_message, "Comment is empty.");
}

#[test]
fn reader_result_estimates_length() {
    let r = reader_result("T".into(), "<h1>A</h1><p>x</p><h2>B</h2>");
    assert_eq!(r.0, "T");
    assert_eq!(r.1.len(), 3);
    assert_eq!(r.2, vec![0, 4]);
    assert_eq!(r.3, 44);
    let r = reader_result("T".into(), "");
    assert!(r.1.is_empty());
    assert_eq!(r.3, 40);
}
