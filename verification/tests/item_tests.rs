use hnr::api::{make_item, Item, User};

fn item(id: u64) -> Item {
    make_item(id)
}

fn deleted_item(id: u64) -> Item {
    Item { id, deleted: Some(true), ..item(id) }
}

fn dead_item(id: u64) -> Item {
    Item { id, dead: Some(true), ..item(id) }
}

fn bare_item(id: u64) -> Item {
    Item {
        id,
        kind: None,
        title: None,
        url: None,
        text: None,
        by: None,
        score: None,
        time: None,
        descendants: None,
        kids: None,
        parent: None,
        deleted: None,
        dead: None,
    }
}

fn user(created: u64) -> User {
    User { id: "x".into(), karma: 1, created, about: None, submitted: None }
}

#[test]
fn display_title_falls_back() {
    assert_eq!(bare_item(1).display_title(), "[untitled]");
    assert_eq!(item(1).display_title(), "Story 1");
}

#[test]
fn display_by_falls_back() {
    assert_eq!(bare_item(1).display_by(), "?");
    assert_eq!(item(1).display_by(), "user1");
}

#[test]
fn score_defaults_zero() {
    assert_eq!(bare_item(1).score(), 0);
    assert_eq!(item(1).score(), 100);
}

#[test]
fn comment_count_defaults_zero() {
    assert_eq!(bare_item(1).comment_count(), 0);
    assert_eq!(item(1).comment_count(), 10);
}

#[test]
fn deleted_and_dead_detection() {
    assert!(!item(1).is_deleted_or_dead());
    assert!(deleted_item(1).is_deleted_or_dead());
    assert!(dead_item(1).is_deleted_or_dead());
}

#[test]
fn text_plain_empty_when_no_text() {
    assert_eq!(bare_item(1).text_plain(), "");
}

#[test]
fn text_plain_strips_html() {
    let item = Item { text: Some("<p>Hello <b>world</b></p>".into()), ..bare_item(1) };
    let plain = item.text_plain();
    assert!(plain.contains("Hello"));
    assert!(plain.contains("world"));
    assert!(!plain.contains("<p>"));
}

#[test]
fn user_submission_count() {
    let user = User {
        id: "pg".into(),
        karma: 155000,
        created: 1000000,
        about: None,
        submitted: Some(vec![1, 2, 3]),
    };
    assert_eq!(user.submission_count(), 3);

    let no_subs = User { submitted: None, ..user };
    assert_eq!(no_subs.submission_count(), 0);
}

#[test]
fn user_joined_ago_formats_correctly() {
    let now = std::time::SystemTime::now()
        .duration_since(std::time::UNIX_EPOCH)
        .unwrap()
        .as_secs();

    let recent = user(now - 5 * 86400);
    assert!(recent.joined_ago().contains("days ago"), "got: {}", recent.joined_ago());

    let months = user(now - 60 * 86400);
    assert!(months.joined_ago().contains("months ago"), "got: {}", months.joined_ago());

    let years = user(now - 400 * 86400);
    assert!(years.joined_ago().contains("years ago"), "got: {}", years.joined_ago());
}

#[test]
fn user_about_strips_html() {
    let user = User {
        id: "pg".into(),
        karma: 1,
        created: 0,
        about: Some("<a href='http://x.com'>My site</a>".into()),
        submitted: None,
    };
    let plain = user.about_plain();
    assert!(plain.contains("My site"));
    assert!(!plain.contains("<a"));
}

#[test]
fn time_ago_at_formats_each_unit() {
    let it = Item { time: Some(1000), ..bare_item(1) };
    assert_eq!(it.time_ago_at(1030), "30s ago");
    assert_eq!(it.time_ago_at(1000 + 5 * 60), "5m ago");
    assert_eq!(it.time_ago_at(1000 + 3 * 3600), "3h ago");
    assert_eq!(it.time_ago_at(1000 + 2 * 86400), "2d ago");
    // A clock behind the item counts as no time at all.
    assert_eq!(it.time_ago_at(10), "0s ago");
    assert_eq!(bare_item(1).time_ago_at(5000), "");
    assert_eq!(bare_item(1).time_ago(), "");
}

#[test]
fn joined_ago_at_exact_values() {
    let u = user(0);
    assert_eq!(u.joined_ago_at(29 * 86400), "29 days ago");
    assert_eq!(u.joined_ago_at(30 * 86400), "1 months ago");
    assert_eq!(u.joined_ago_at(364 * 86400), "12 months ago");
    assert_eq!(u.joined_ago_at(365 * 86400), "1 years ago");
    assert_eq!(user(500).joined_ago_at(100), "0 days ago");
}

#[test]
fn negative_score_is_kept() {
    let it = Item { score: Some(-3), ..bare_item(1) };
    assert_eq!(it.score(), -3);
}

#[test]
fn make_item_fields() {
    let it = make_item(42);
    assert_eq!(it.id, 42);
    assert_eq!(it.title.as_deref(), Some("Story 42"));
    assert_eq!(it.url.as_deref(), Some("https://example.com/42"));
    assert_eq!(it.by.as_deref(), Some("user42"));
    assert_eq!(it.score, Some(100));
    assert_eq!(it.descendants, Some(10));
    assert!(it.kids.is_none());
}
