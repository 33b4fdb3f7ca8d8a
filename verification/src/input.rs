use vstd::prelude::*;
use crate::app::App;

verus! {

/// A key press, as far as the controls tell keys apart.
#[derive(Debug, Clone, Copy, PartialEq, Eq, Structural)]
pub enum Key {
    Char(char),
    Left,
    Right,
    Esc,
    /// Any other key.
    Other,
}

/// A request to turn the selected plane one step, by the negative or the positive angle.
#[derive(Debug, Clone, Copy, PartialEq, Eq, Structural)]
pub enum Turn {
    Negative,
    Positive,
}

/// The plane index that a digit key selects.
pub open spec fn digit_value(c: char) -> Option<int> {
    if '0' <= c && c <= '9' {
        Some(c as int - '0' as int)
    } else {
        None
    }
}

/// What a key press does to the control state, and which turn it asks for:
/// `0`-`9` select a plane, Left and Right ask for a turn of the selected plane,
/// Space switches auto-rotation, `q` and Esc stop the viewer; other keys do nothing.
pub open spec fn key_effect(app: App, key: Key) -> (App, Option<Turn>) {
    match key {
        Key::Char(c) => {
            if digit_value(c) is Some {
                (app.with_plane_selected(digit_value(c)->0), None)
            } else if c == ' ' {
                (app.with_auto_rotate_toggled(), None)
            } else if c == 'q' {
                (app.stopped(), None)
            } else {
                (app, None)
            }
        },
        Key::Left => (app, Some(Turn::Negative)),
        Key::Right => (app, Some(Turn::Positive)),
        Key::Esc => (app.stopped(), None),
        Key::Other => (app, None),
    }
}

/// Applies a key press to the control state. A turn request is handed back to the caller,
/// which owns the rotation angles.
pub fn handle_key(app: &mut App, key: Key) -> (turn: Option<Turn>)
    ensures
        (*final(app), turn) == key_effect(*old(app), key),
{
    match key {
        Key::Char('0') => {
            app.select_plane(0);
            None
        },
        Key::Char('1') => {
            app.select_plane(1);
            None
        },
        Key::Char('2') => {
            app.select_plane(2);
            None
        },
        Key::Char('3') => {
            app.select_plane(3);
            None
        },
        Key::Char('4') => {
            app.select_plane(4);
            None
        },
        Key::Char('5') => {
            app.select_plane(5);
            None
        },
        Key::Char('6') => {
            app.select_plane(6);
            None
        },
        Key::Char('7') => {
            app.select_plane(7);
            None
        },
        Key::Char('8') => {
            app.select_plane(8);
            None
        },
        Key::Char('9') => {
            app.select_plane(9);
            None
        },
        Key::Left => Some(Turn::Negative),
        Key::Right => Some(Turn::Positive),
        Key::Char(' ') => {
            app.toggle_auto_rotate();
            None
        },
        Key::Char('q') => {
            app.quit();
            None
        },
        Key::Esc => {
            app.quit();
            None
        },
        _ => None,
    }
}

/// A key press keeps the selected plane index among the ten planes.
pub proof fn lemma_key_keeps_wf(app: App, key: Key)
    requires
        app.wf(),
    ensures
        key_effect(app, key).0.wf(),
{
}

/// The digit keys select the plane of their digit, whatever the state: the key `c` in
/// `'0'..='9'` sets the selected plane index to `c - '0'`, leaves auto-rotation and running as
/// they were, and asks for no turn.
pub proof fn lemma_digit_keys_select(app: App, c: char)
    requires
        '0' <= c && c <= '9',
    ensures
        key_effect(app, Key::Char(c)).0.active_plane == c as int - '0' as int,
        key_effect(app, Key::Char(c)).0.auto_rotate == app.auto_rotate,
        key_effect(app, Key::Char(c)).0.running == app.running,
        key_effect(app, Key::Char(c)).1 is None,
{
}

/// Left always asks for a negative turn and Right for a positive one, in every state, and
/// neither changes the state.
pub proof fn lemma_arrow_keys_turn(app: App)
    ensures
        key_effect(app, Key::Left).0 == app,
        key_effect(app, Key::Left).1 == Some(Turn::Negative),
        key_effect(app, Key::Right).0 == app,
        key_effect(app, Key::Right).1 == Some(Turn::Positive),
{
}

/// `q` and Esc stop the viewer in every state: running becomes false, the selected plane and
/// auto-rotation stay as they were, and no turn is asked for.
pub proof fn lemma_quit_keys_stop(app: App)
    ensures
        key_effect(app, Key::Esc).0 == (App {
            active_plane: app.active_plane,
            auto_rotate: app.auto_rotate,
            running: false,
        }),
        key_effect(app, Key::Esc).1 is None,
        key_effect(app, Key::Char('q')).0 == (App {
            active_plane: app.active_plane,
            auto_rotate: app.auto_rotate,
            running: false,
        }),
        key_effect(app, Key::Char('q')).1 is None,
{
}

/// Space switches auto-rotation in every state and changes nothing else.
pub proof fn lemma_space_toggles(app: App)
    ensures
        key_effect(app, Key::Char(' ')).0 == (App {
            active_plane: app.active_plane,
            auto_rotate: !app.auto_rotate,
            running: app.running,
        }),
        key_effect(app, Key::Char(' ')).1 is None,
{
}

/// Any key other than the digits, Space, `q`, Left, Right and Esc leaves the state as it is
/// and asks for no turn.
pub proof fn lemma_other_keys_ignored(app: App, key: Key)
    requires
        key != Key::Left,
        key != Key::Right,
        key != Key::Esc,
        key matches Key::Char(c) ==> !('0' <= c && c <= '9') && c != ' ' && c != 'q',
    ensures
        key_effect(app, key) == (app, None::<Turn>),
{
}

} // verus!
