use hnr::app::{App, Feed};
use hnr::reader::Block;
use hnr::screen::{comment_preview, masked, reader_lines, score_tier, text_lines, LineKind};

#[test]
fn text_lines_follow_str_lines() {
    for s in ["", "a", "a\n", "a\nb", "\n", "\n\n", "a\r\nb\r\n", "a\rb", "x\r", "one\n\ntwo\n"] {
        let ours = text_lines(s);
        let std_lines: Vec<String> = s.lines().map(|l| l.to_string()).collect();
        assert_eq!(ours, std_lines, "input {:?}", s);
    }
}

#[test]
fn comment_preview_takes_first_line_cut_to_width() {
    assert_eq!(comment_preview("First line.\n\nSecond line should not appear.", 100), "First line.");
    assert_eq!(comment_preview("abcdef", 3), "abc");
    assert_eq!(comment_preview("", 5), "");
    assert_eq!(comment_preview("\nafter", 5), "");
    assert_eq!(comment_preview("héllo wörld", 4), "héll");
}

#[test]
fn list_title_shows_search_or_feed() {
    let mut app = App::new();
    assert_eq!(app.list_title(), "top stories");
    app.feed = Feed::Ask;
    assert_eq!(app.list_title(), "ask hn stories");
    app.feed = Feed::Bookmarks;
    assert_eq!(app.list_title(), "bookmarks");
    app.feed = Feed::Jobs;
    assert_eq!(app.list_title(), "jobs");
    app.search_query = Some("rust".into());
    assert_eq!(app.list_title(), "Search: rust");
}

#[test]
fn score_tiers() {
    assert_eq!(score_tier(0), 0);
    assert_eq!(score_tier(99), 0);
    assert_eq!(score_tier(100), 1);
    assert_eq!(score_tier(299), 1);
    assert_eq!(score_tier(300), 2);
    assert_eq!(score_tier(-1), 2);
}

#[test]
fn masked_counts_bytes() {
    assert_eq!(masked("pw"), "**");
    assert_eq!(masked(""), "");
    assert_eq!(masked("é"), "**");
}

#[test]
fn reader_lines_of_each_block() {
    let blocks = vec![
        Block::Heading(2, "Intro".into()),
        Block::Paragraph("Body".into()),
        Block::Code("a\nb".into()),
        Block::Quote("q".into()),
        Block::ListItem("item".into()),
    ];
    let lines = reader_lines(&blocks);
    let kinds: Vec<LineKind> = lines.iter().map(|l| l.kind).collect();
    let texts: Vec<&str> = lines.iter().map(|l| l.text.as_str()).collect();
    assert_eq!(
        kinds,
        vec![
            LineKind::Heading(2),
            LineKind::Blank,
            LineKind::Text,
            LineKind::Blank,
            LineKind::Code,
            LineKind::Code,
            LineKind::Blank,
            LineKind::Quote,
            LineKind::Blank,
            LineKind::Bullet,
        ]
    );
    assert_eq!(texts, vec!["Intro", "", "Body", "", "a", "b", "", "q", "", "item"]);
    let prefixes: Vec<&str> = lines.iter().map(|l| l.prefix.as_str()).collect();
    assert_eq!(prefixes, vec!["── ", "", "", "", "  ", "  ", "", "│ ", "", "• "]);
    let h1 = reader_lines(&vec![Block::Heading(1, "T".into()), Block::Heading(3, "U".into())]);
    assert_eq!(h1[0].prefix, "━━ ");
    assert_eq!(h1[2].prefix, "·  ");
}
