use pasta::display::{App, QUIT_KEY};
use pasta::event::{Event, KeyCode, KeyEvent, KeyEventKind};
use pasta::history::{History, PasteboardItem};

fn item(content: &str, created_at: u64) -> PasteboardItem {
    PasteboardItem { content: content.to_string(), created_at }
}

#[test]
fn handle_key_event() {
    let mut app = App::default();
    app.handle_key_event(KeyCode::Char('q').into());
    assert_eq!(app.exit, true);
}

#[test]
fn default_app_shows_nothing_and_stays_open() {
    let app = App::default();
    assert_eq!(app.exit, false);
    assert!(app.items.is_empty());
    assert_eq!(app.lines(), Vec::<String>::new());
}

#[test]
fn other_keys_leave_the_view_open() {
    for code in [
        KeyCode::Char('Q'),
        KeyCode::Char('w'),
        KeyCode::Char('p'),
        KeyCode::Char(' '),
        KeyCode::Char('\n'),
        KeyCode::Other,
    ] {
        let mut app = App::default();
        app.handle_key_event(code.into());
        assert_eq!(app.exit, false);
    }
}

#[test]
fn quit_key_is_q() {
    assert_eq!(QUIT_KEY, 'q');
}

#[test]
fn a_closed_view_stays_closed() {
    let mut app = App::default();
    app.handle_key_event(KeyCode::Char('q').into());
    app.handle_key_event(KeyCode::Char('x').into());
    app.handle_event(Event::Other);
    assert_eq!(app.exit, true);
}

#[test]
fn exit_closes_the_view_and_keeps_the_items() {
    let mut app = App::default();
    app.refresh(vec![item("a", 0)]);
    app.exit();
    assert_eq!(app.exit, true);
    assert_eq!(app.items, vec![item("a", 0)]);
}

#[test]
fn handle_event_quits_on_a_press_of_the_quit_key_only() {
    let mut app = App::default();
    app.handle_event(Event::Other);
    assert_eq!(app.exit, false);
    app.handle_event(Event::Key(KeyEvent { code: KeyCode::Char('q'), kind: KeyEventKind::Release }));
    assert_eq!(app.exit, false);
    app.handle_event(Event::Key(KeyEvent { code: KeyCode::Char('q'), kind: KeyEventKind::Repeat }));
    assert_eq!(app.exit, false);
    app.handle_event(Event::Key(KeyEvent { code: KeyCode::Char('a'), kind: KeyEventKind::Press }));
    assert_eq!(app.exit, false);
    app.handle_event(Event::Key(KeyEvent { code: KeyCode::Other, kind: KeyEventKind::Press }));
    assert_eq!(app.exit, false);
    app.handle_event(Event::Key(KeyEvent { code: KeyCode::Char('q'), kind: KeyEventKind::Press }));
    assert_eq!(app.exit, true);
}

#[test]
fn events_keep_the_items() {
    let mut app = App::default();
    app.refresh(vec![item("a", 0), item("b", 1)]);
    app.handle_event(Event::Key(KeyEvent::new(KeyCode::Char('x'))));
    app.handle_key_event(KeyEvent::new(KeyCode::Char('q')));
    assert_eq!(app.items, vec![item("a", 0), item("b", 1)]);
}

#[test]
fn key_event_from_a_code_is_its_press() {
    let expected = KeyEvent { code: KeyCode::Char('q'), kind: KeyEventKind::Press };
    assert_eq!(KeyEvent::from(KeyCode::Char('q')), expected);
    assert_eq!(KeyEvent::new(KeyCode::Char('q')), expected);
    assert_eq!(KeyEvent::new(KeyCode::Other), KeyEvent { code: KeyCode::Other, kind: KeyEventKind::Press });
}

#[test]
fn refresh_replaces_the_items_and_keeps_the_flag() {
    let mut app = App::default();
    app.refresh(vec![item("a", 0), item("b", 1)]);
    assert_eq!(app.items, vec![item("a", 0), item("b", 1)]);
    assert_eq!(app.exit, false);
    app.refresh(vec![item("c", 5)]);
    assert_eq!(app.items, vec![item("c", 5)]);
    app.exit();
    app.refresh(Vec::new());
    assert!(app.items.is_empty());
    assert_eq!(app.exit, true);
}

#[test]
fn lines_hold_the_contents_in_order() {
    let mut app = App::default();
    app.refresh(vec![item("first", 0), item("", 1), item("two\nlines", 2), item("first", 3)]);
    assert_eq!(app.lines(), vec!["first", "", "two\nlines", "first"]);
}

#[test]
fn view_shows_the_whole_history() {
    let mut history = History::new();
    history.append("a".to_string());
    history.append("b".to_string());
    let mut app = App::default();
    app.refresh(history.all());
    assert_eq!(app.lines(), vec!["a", "b"]);
}
