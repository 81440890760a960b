//! The library's laws on concrete values.
use hnr::api::make_item;
use hnr::app::{App, Pane};
use hnr::comments::CommentNode;
use hnr::flows::CommentsStart;
use hnr::reader::{parse_html, Block};
use hnr::screen::{reader_lines, text_lines, LineKind};

fn app_with_comments(n: u64) -> App {
    let mut app = App::new();
    let mut story = make_item(1);
    story.kids = Some((100..100 + n).collect());
    app.stories = vec![story];
    app.comments_story_id = Some(1);
    app.comments = (100..100 + n).map(|id| CommentNode::new(make_item(id), 0)).collect();
    app
}

#[test]
fn comment_position_is_restored_on_return() {
    let mut app = app_with_comments(8);
    app.active_pane = Pane::Comments;
    for _ in 0..6 {
        app.scroll_comment_down(4);
    }
    let (cursor, scroll) = (app.comment_cursor, app.comment_scroll);
    assert_eq!((cursor, scroll), (6, 3));
    app.save_comment_pos();
    app.comment_cursor = 0;
    app.comment_scroll = 0;
    let (start, _) = app.begin_comments();
    assert!(matches!(start, CommentsStart::Cached));
    assert_eq!((app.comment_cursor, app.comment_scroll), (cursor, scroll));
}

#[test]
fn opening_then_marking_unread_leaves_other_reads() {
    let mut app = app_with_comments(1);
    app.seen_ids.insert(42);
    app.comments.clear();
    app.begin_comments();
    assert!(app.seen_ids.contains(&1));
    assert!(app.mark_unseen());
    assert!(!app.seen_ids.contains(&1));
    assert!(app.seen_ids.contains(&42));
}

#[test]
fn cursor_stays_in_the_window() {
    let mut app = App::new();
    app.stories = (1..=20).map(make_item).collect();
    let visible = 5;
    for step in 0..40 {
        if step % 7 < 5 {
            app.scroll_story_down(visible);
        } else {
            app.scroll_story_up();
        }
        assert!(app.story_scroll <= app.story_cursor);
        assert!(app.story_cursor < app.story_scroll + visible);
        assert!(app.story_cursor < app.stories.len());
    }
}

#[test]
fn shown_code_lines_match_the_estimate() {
    let html = "<h1>A</h1><pre>one\ntwo\nthree\n</pre><h2>B</h2>";
    let (blocks, offsets) = parse_html(html);
    let code = match &blocks[1] {
        Block::Code(t) => t.clone(),
        _ => panic!("expected code"),
    };
    assert_eq!(text_lines(&code).len(), 3);
    let shown = reader_lines(&blocks);
    let code_lines = shown.iter().filter(|l| l.kind == LineKind::Code).count();
    // The heading takes 2 lines, the code its lines and a blank.
    assert_eq!(offsets, vec![0, 2 + code_lines + 1]);
}
