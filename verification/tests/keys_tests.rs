use hnr::api::make_item;
use hnr::app::{App, Feed, Mode, Pane};
use hnr::comments::CommentNode;
use hnr::keys::{parse_command, Action, Command, Key};
use hnr::session::Session;

fn app_with_stories(n: u64) -> App {
    let mut app = App::new();
    app.stories = (1..=n).map(make_item).collect();
    app
}

#[test]
fn parse_command_recognises_verbs() {
    assert!(matches!(parse_command("q", false), Command::Exit));
    assert!(matches!(parse_command("quit", true), Command::Exit));
    assert!(matches!(parse_command("l", false), Command::Login));
    assert!(matches!(parse_command("l", true), Command::Logout));
    assert!(matches!(parse_command("login", true), Command::Unknown(v) if v == "login"));
    assert!(matches!(parse_command("logout", false), Command::Unknown(v) if v == "logout"));
    assert!(matches!(parse_command("top", false), Command::Feed(Feed::Top)));
    assert!(matches!(parse_command("4", false), Command::Feed(Feed::Ask)));
    assert!(matches!(parse_command("bookmarks", false), Command::Feed(Feed::Bookmarks)));
    assert!(matches!(parse_command("b", false), Command::Bookmark));
    assert!(matches!(parse_command("s", false), Command::Search));
    assert!(matches!(parse_command("r", false), Command::Refresh));
    assert!(matches!(parse_command("hn", false), Command::Hn));
    assert!(matches!(parse_command("v", false), Command::Vote));
    assert!(matches!(parse_command("?", false), Command::Help));
    assert!(matches!(parse_command("user   pg  ", false), Command::User(a) if a == "pg"));
    assert!(matches!(parse_command("u", false), Command::User(a) if a.is_empty()));
    assert!(matches!(parse_command("frobnicate now", false), Command::Unknown(v) if v == "frobnicate"));
}

#[test]
fn command_prompt_trims_and_lowercases() {
    let mut app = App::new();
    app.mode = Mode::Command;
    for c in " ToP ".chars() {
        assert!(app.handle_command_key(Key::Char(c)).is_none());
    }
    assert_eq!(app.command_input, " ToP ");
    app.handle_command_key(Key::Backspace);
    assert_eq!(app.command_input, " ToP");
    let line = app.handle_command_key(Key::Enter).unwrap();
    assert_eq!(line, "top");
    assert_eq!(app.mode, Mode::Normal);
    assert!(app.command_input.is_empty());
}

#[test]
fn apply_command_switches_feed_once() {
    let mut app = App::new();
    assert!(matches!(app.apply_command(Command::Feed(Feed::New)), Action::LoadFeed));
    assert_eq!(app.feed, Feed::New);
    assert!(matches!(app.apply_command(Command::Feed(Feed::New)), Action::Nothing));
    app.search_query = Some("rust".into());
    assert!(matches!(app.apply_command(Command::Feed(Feed::New)), Action::LoadFeed));
    assert!(app.search_query.is_none());
}

#[test]
fn apply_command_user_without_name_uses_cursor_or_explains() {
    let mut app = App::new();
    assert!(matches!(app.apply_command(Command::User(String::new())), Action::Nothing));
    assert_eq!(app.status_message, "Usage: /user <username>");
    let mut app = app_with_stories(2);
    assert!(matches!(app.apply_command(Command::User(String::new())), Action::LoadUser(n) if n == "user1"));
    assert!(matches!(app.apply_command(Command::User("pg".into())), Action::LoadUser(n) if n == "pg"));
}

#[test]
fn apply_command_unknown_reports_it() {
    let mut app = App::new();
    assert!(matches!(app.apply_command(Command::Unknown("zz".into())), Action::Nothing));
    assert_eq!(app.status_message, "Unknown: 'zz' \u{2014} try /help");
}

#[test]
fn normal_keys_move_and_switch_panes() {
    let mut app = app_with_stories(3);
    assert!(matches!(app.handle_normal_key(Key::Char('j'), false, 30), Action::Nothing));
    assert_eq!(app.story_cursor, 1);
    assert!(matches!(app.handle_normal_key(Key::Up, false, 30), Action::Nothing));
    assert_eq!(app.story_cursor, 0);
    assert!(matches!(app.handle_normal_key(Key::Tab, false, 30), Action::Nothing));
    assert_eq!(app.active_pane, Pane::Stories);
    assert!(matches!(app.handle_normal_key(Key::Enter, false, 30), Action::LoadComments));
    assert_eq!(app.active_pane, Pane::Comments);
    app.comments = vec![CommentNode::new(make_item(100), 0), CommentNode::new(make_item(101), 0)];
    app.handle_normal_key(Key::Down, false, 30);
    assert_eq!(app.comment_cursor, 1);
    app.handle_normal_key(Key::Esc, false, 30);
    assert_eq!(app.active_pane, Pane::Stories);
    assert_eq!(app.comment_pos_cache.get(&1).copied(), Some((1, 0)));
}

#[test]
fn normal_keys_leave_work_for_the_front_end() {
    let mut app = app_with_stories(1);
    assert!(matches!(app.handle_normal_key(Key::Char('c'), true, 30), Action::Exit));
    assert!(matches!(app.handle_normal_key(Key::Char('R'), false, 30), Action::LoadFeed));
    assert!(matches!(app.handle_normal_key(Key::Char('b'), false, 30), Action::ToggleBookmark));
    assert!(matches!(app.handle_normal_key(Key::Char('y'), false, 30), Action::CopyUrl));
    assert!(matches!(app.handle_normal_key(Key::Char('p'), false, 30), Action::LoadUser(n) if n == "user1"));
    assert!(matches!(app.handle_normal_key(Key::Char('2'), false, 30), Action::LoadFeed));
    assert_eq!(app.feed, Feed::New);
    assert!(matches!(app.handle_normal_key(Key::Char('/'), false, 30), Action::Nothing));
    assert_eq!(app.mode, Mode::Command);
}

#[test]
fn login_key_toggles_between_login_and_logout() {
    let mut app = App::new();
    assert!(matches!(app.handle_normal_key(Key::Char('l'), false, 30), Action::Nothing));
    assert_eq!(app.mode, Mode::Login);
    let mut app = App::new();
    app.session = Some(Session { username: "pg".into(), cookie: "user=abc".into() });
    assert!(matches!(app.handle_normal_key(Key::Char('l'), false, 30), Action::DeleteSession));
    assert!(app.session.is_none());
}

#[test]
fn quit_key_only_in_normal_mode() {
    let mut app = App::new();
    assert!(app.quits_after_normal_key(Key::Char('q')));
    app.mode = Mode::Command;
    assert!(!app.quits_after_normal_key(Key::Char('q')));
}

#[test]
fn search_prompt_edits_and_runs() {
    let mut app = App::new();
    app.start_search();
    for c in "rust".chars() {
        assert!(!app.handle_search_key(Key::Char(c)));
    }
    assert_eq!(app.search_input, "rust");
    assert!(app.handle_search_key(Key::Enter));
}

#[test]
fn reader_keys_scroll_and_jump_sections() {
    let mut app = App::new();
    app.mode = Mode::Reader;
    app.reader_total_lines = 100;
    app.reader_section_offsets = vec![0, 20, 50];
    assert!(!app.handle_reader_key(Key::Char('j'), 10));
    assert_eq!(app.reader_scroll, 1);
    app.handle_reader_key(Key::Char('n'), 10);
    assert_eq!(app.reader_scroll, 20);
    app.handle_reader_key(Key::Char('n'), 10);
    assert_eq!(app.reader_scroll, 50);
    app.handle_reader_key(Key::Char('n'), 10);
    assert_eq!(app.reader_scroll, 50);
    app.handle_reader_key(Key::Char('N'), 10);
    assert_eq!(app.reader_scroll, 20);
    app.handle_reader_key(Key::Char('d'), 10);
    assert_eq!(app.reader_scroll, 25);
    app.handle_reader_key(Key::Char('u'), 10);
    assert_eq!(app.reader_scroll, 20);
    app.handle_reader_key(Key::Char('G'), 10);
    assert_eq!(app.reader_scroll, 90);
    app.handle_reader_key(Key::Char('g'), 10);
    assert_eq!(app.reader_scroll, 0);
    app.handle_reader_key(Key::Char('k'), 10);
    assert_eq!(app.reader_scroll, 0);
    assert!(app.handle_reader_key(Key::Char('o'), 10));
    assert_eq!(app.mode, Mode::Normal);
}

#[test]
fn login_form_fields_and_submit() {
    let mut app = App::new();
    app.start_login();
    for c in "pg".chars() {
        assert!(!app.handle_login_key(Key::Char(c)));
    }
    app.handle_login_key(Key::Tab);
    for c in "pw".chars() {
        app.handle_login_key(Key::Char(c));
    }
    assert_eq!(app.login_state.username, "pg");
    assert_eq!(app.login_state.password, "pw");
    assert!(app.handle_login_key(Key::Enter));
    app.handle_login_key(Key::Esc);
    assert_eq!(app.mode, Mode::Normal);
}
