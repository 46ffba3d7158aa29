use cuervo::editor::{input_cursor, input_text};
use cuervo::keys::{KeyCode, KeyEvent, KeyKind};
use cuervo::ui::{App, BarState, Command, Directive};

fn press(code: KeyCode) -> KeyEvent {
    KeyEvent { code, kind: KeyKind::Press, ctrl: false, alt: false, shift: false, meta: false }
}

fn ctrl(code: KeyCode) -> KeyEvent {
    KeyEvent { code, kind: KeyKind::Press, ctrl: true, alt: false, shift: false, meta: false }
}

fn release(code: KeyCode) -> KeyEvent {
    KeyEvent { code, kind: KeyKind::Release, ctrl: false, alt: false, shift: false, meta: false }
}

fn type_text(app: &mut App, text: &str) {
    for c in text.chars() {
        let d = app.handle_key(&press(KeyCode::Char(c)));
        assert_eq!(d, Directive::Continue);
    }
}

fn buffer_of(app: &App) -> String {
    input_text(app.url_input().expect("entry line should be active")).to_string()
}

#[test]
fn base_ignores_ordinary_keys() {
    let mut app = App::new();
    let keys = [
        press(KeyCode::Char('x')),
        press(KeyCode::Char('1')),
        press(KeyCode::Enter),
        press(KeyCode::Esc),
        press(KeyCode::Left),
        press(KeyCode::Backspace),
        press(KeyCode::Other),
        release(KeyCode::Char('q')),
        release(KeyCode::Char('g')),
    ];
    for k in keys.iter() {
        let d = app.handle_key(k);
        assert_eq!(d, Directive::Continue);
        assert!(app.url_input().is_none());
        assert_eq!(*app.bar(), BarState::Idle);
    }
}

#[test]
fn base_quit_on_q() {
    let mut app = App::new();
    let d = app.handle_key(&press(KeyCode::Char('q')));
    assert_eq!(d, Directive::Quit);
}

#[test]
fn entry_seeds_default_prefix() {
    let mut app = App::new();
    let d = app.handle_key(&press(KeyCode::Char('g')));
    assert_eq!(d, Directive::Continue);
    let input = app.url_input().expect("entry line should be active");
    assert_eq!(input_text(input), "https://");
    assert_eq!(input_cursor(input), 8);
}

#[test]
fn esc_right_after_entry_cancels_with_no_command() {
    let mut app = App::new();
    assert_eq!(app.handle_key(&press(KeyCode::Char('g'))), Directive::Continue);
    let d = app.handle_key(&press(KeyCode::Esc));
    assert_eq!(d, Directive::Continue);
    assert!(app.url_input().is_none());
}

#[test]
fn ctrl_c_cancels_entry() {
    let mut app = App::new();
    app.handle_key(&press(KeyCode::Char('g')));
    type_text(&mut app, "exa");
    let d = app.handle_key(&ctrl(KeyCode::Char('c')));
    assert_eq!(d, Directive::Continue);
    assert!(app.url_input().is_none());
}

#[test]
fn enter_with_valid_url_submits_exactly_that_url() {
    let mut app = App::new();
    app.handle_key(&press(KeyCode::Char('g')));
    type_text(&mut app, "example.com");
    let d = app.handle_key(&press(KeyCode::Enter));
    assert_eq!(d, Directive::Submit(Command::Open("https://example.com".to_string())));
    assert!(app.url_input().is_none());
    assert_eq!(*app.bar(), BarState::UrlLoading);
}

#[test]
fn enter_with_invalid_url_keeps_entry_and_reports() {
    let mut app = App::new();
    app.handle_key(&press(KeyCode::Char('g')));
    // "https://" alone has no host and does not parse.
    let d = app.handle_key(&press(KeyCode::Enter));
    assert_eq!(d, Directive::Continue);
    assert_eq!(buffer_of(&app), "https://");
    assert_eq!(*app.bar(), BarState::UrlParse("https://".to_string()));
}

#[test]
fn next_keystroke_dismisses_parse_error() {
    let mut app = App::new();
    app.handle_key(&press(KeyCode::Char('g')));
    app.handle_key(&press(KeyCode::Enter));
    assert_eq!(*app.bar(), BarState::UrlParse("https://".to_string()));
    app.handle_key(&press(KeyCode::Char('e')));
    assert_eq!(*app.bar(), BarState::Idle);
    assert_eq!(buffer_of(&app), "https://e");
}

#[test]
fn ctrl_q_quits_from_entry_with_buffer_mid_edit() {
    let mut app = App::new();
    app.handle_key(&press(KeyCode::Char('g')));
    type_text(&mut app, "partial");
    let d = app.handle_key(&ctrl(KeyCode::Char('q')));
    assert_eq!(d, Directive::Quit);
}

#[test]
fn ctrl_q_quits_from_entry_with_empty_buffer() {
    let mut app = App::new();
    app.handle_key(&press(KeyCode::Char('g')));
    app.handle_key(&ctrl(KeyCode::Char('u')));
    assert_eq!(buffer_of(&app), "");
    let d = app.handle_key(&ctrl(KeyCode::Char('q')));
    assert_eq!(d, Directive::Quit);
}

#[test]
fn releases_are_ignored_in_entry() {
    let mut app = App::new();
    app.handle_key(&press(KeyCode::Char('g')));
    let d = app.handle_key(&release(KeyCode::Enter));
    assert_eq!(d, Directive::Continue);
    assert_eq!(buffer_of(&app), "https://");
    let d2 = app.handle_key(&release(KeyCode::Char('x')));
    assert_eq!(d2, Directive::Continue);
    assert_eq!(buffer_of(&app), "https://");
}

#[test]
fn backspace_deletes_before_cursor() {
    let mut app = App::new();
    app.handle_key(&press(KeyCode::Char('g')));
    app.handle_key(&press(KeyCode::Backspace));
    assert_eq!(buffer_of(&app), "https:/");
    assert_eq!(input_cursor(app.url_input().unwrap()), 7);
}

#[test]
fn arrows_home_end_move_cursor() {
    let mut app = App::new();
    app.handle_key(&press(KeyCode::Char('g')));
    app.handle_key(&press(KeyCode::Left));
    assert_eq!(input_cursor(app.url_input().unwrap()), 7);
    app.handle_key(&press(KeyCode::Right));
    assert_eq!(input_cursor(app.url_input().unwrap()), 8);
    app.handle_key(&press(KeyCode::Home));
    assert_eq!(input_cursor(app.url_input().unwrap()), 0);
    app.handle_key(&press(KeyCode::End));
    assert_eq!(input_cursor(app.url_input().unwrap()), 8);
}

#[test]
fn insertion_lands_at_cursor() {
    let mut app = App::new();
    app.handle_key(&press(KeyCode::Char('g')));
    app.handle_key(&press(KeyCode::Home));
    app.handle_key(&press(KeyCode::Char('x')));
    assert_eq!(buffer_of(&app), "xhttps://");
    assert_eq!(input_cursor(app.url_input().unwrap()), 1);
}

#[test]
fn delete_removes_after_cursor() {
    let mut app = App::new();
    app.handle_key(&press(KeyCode::Char('g')));
    app.handle_key(&press(KeyCode::Home));
    app.handle_key(&press(KeyCode::Delete));
    assert_eq!(buffer_of(&app), "ttps://");
    assert_eq!(input_cursor(app.url_input().unwrap()), 0);
}

#[test]
fn ctrl_k_truncates_to_cursor() {
    let mut app = App::new();
    app.handle_key(&press(KeyCode::Char('g')));
    for _ in 0..3 {
        app.handle_key(&press(KeyCode::Left));
    }
    app.handle_key(&ctrl(KeyCode::Char('k')));
    assert_eq!(buffer_of(&app), "https");
    assert_eq!(input_cursor(app.url_input().unwrap()), 5);
}

#[test]
fn end_to_end_open_example_com() {
    let mut app = App::new();
    assert_eq!(app.handle_key(&press(KeyCode::Char('g'))), Directive::Continue);
    assert_eq!(buffer_of(&app), "https://");
    let mut submitted: Vec<Command> = Vec::new();
    for c in "example.com".chars() {
        match app.handle_key(&press(KeyCode::Char(c))) {
            Directive::Submit(cmd) => submitted.push(cmd),
            Directive::Quit => panic!("typing must not quit"),
            Directive::Continue => {},
        }
    }
    match app.handle_key(&press(KeyCode::Enter)) {
        Directive::Submit(cmd) => submitted.push(cmd),
        other => panic!("enter should submit, got {other:?}"),
    }
    assert_eq!(submitted, vec![Command::Open("https://example.com".to_string())]);
    assert!(app.url_input().is_none());
}

#[test]
fn ctrl_u_then_yank_restores_the_line() {
    let mut app = App::new();
    app.handle_key(&press(KeyCode::Char('g')));
    app.handle_key(&ctrl(KeyCode::Char('u')));
    assert_eq!(buffer_of(&app), "");
    app.handle_key(&ctrl(KeyCode::Char('y')));
    assert_eq!(buffer_of(&app), "https://");
    assert_eq!(input_cursor(app.url_input().unwrap()), 8);
}

#[test]
fn ctrl_w_deletes_the_previous_word() {
    let mut app = App::new();
    app.handle_key(&press(KeyCode::Char('g')));
    type_text(&mut app, "example.com");
    app.handle_key(&ctrl(KeyCode::Char('w')));
    // "example.com" is one word (the dot does not break it), so the whole
    // host goes.
    assert_eq!(buffer_of(&app), "https://");
}

#[test]
fn ctrl_left_moves_a_word_back() {
    let mut app = App::new();
    app.handle_key(&press(KeyCode::Char('g')));
    type_text(&mut app, "example.com");
    let before = input_cursor(app.url_input().unwrap());
    app.handle_key(&ctrl(KeyCode::Left));
    let after = input_cursor(app.url_input().unwrap());
    assert!(after < before);
}
