use penteract::app::App;
use penteract::input::{handle_key, Key, Turn};

#[test]
fn digit_keys_select_planes() {
    let mut app = App::new();
    for d in 0..10u32 {
        let c = char::from_digit(d, 10).unwrap();
        assert_eq!(handle_key(&mut app, Key::Char(c)), None);
        assert_eq!(app.active_plane, d as usize);
    }
}

#[test]
fn arrow_keys_ask_for_turns() {
    let mut app = App::new();
    app.select_plane(4);
    assert_eq!(handle_key(&mut app, Key::Left), Some(Turn::Negative));
    assert_eq!(handle_key(&mut app, Key::Right), Some(Turn::Positive));
    assert_eq!(app.active_plane, 4);
    assert!(app.running && !app.auto_rotate);
}

#[test]
fn space_toggles_auto_rotation() {
    let mut app = App::new();
    assert_eq!(handle_key(&mut app, Key::Char(' ')), None);
    assert!(app.auto_rotate);
    handle_key(&mut app, Key::Char(' '));
    assert!(!app.auto_rotate);
}

#[test]
fn q_and_escape_quit() {
    let mut app = App::new();
    handle_key(&mut app, Key::Char('q'));
    assert!(!app.running);
    let mut app = App::new();
    handle_key(&mut app, Key::Esc);
    assert!(!app.running);
}

#[test]
fn other_keys_do_nothing() {
    let mut app = App::new();
    app.select_plane(2);
    for key in [Key::Char('a'), Key::Char('Q'), Key::Char('/'), Key::Other] {
        assert_eq!(handle_key(&mut app, key), None);
        assert_eq!(app.active_plane, 2);
        assert!(app.running);
        assert!(!app.auto_rotate);
    }
}
