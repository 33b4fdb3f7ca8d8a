use penteract::app::{App, AutoRotation};
use penteract::rotation::RotationPlane;

#[test]
fn test_initial_state() {
    let app = App::new();
    assert_eq!(app.active_plane, 0);
    assert!(!app.auto_rotate);
    assert!(app.running);
    assert_eq!(app.selected_plane(), RotationPlane::XY);
}

#[test]
fn test_select_plane() {
    let mut app = App::new();
    app.select_plane(7);
    assert_eq!(app.active_plane, 7);
    // Out-of-range should be ignored
    app.select_plane(15);
    assert_eq!(app.active_plane, 7);
}

#[test]
fn test_toggle_auto_rotate() {
    let mut app = App::new();
    assert!(!app.auto_rotate);
    app.toggle_auto_rotate();
    assert!(app.auto_rotate);
    app.toggle_auto_rotate();
    assert!(!app.auto_rotate);
}

#[test]
fn test_update_with_auto_rotate() {
    let mut app = App::new();
    app.toggle_auto_rotate();
    let steps = app.update();
    // The active plane (0 = XY) should rotate
    assert_eq!(steps.map(|s| s.primary), Some(RotationPlane::XY));
}

#[test]
fn test_quit() {
    let mut app = App::new();
    assert!(app.running);
    app.quit();
    assert!(!app.running);
}

#[test]
fn update_without_auto_rotate_does_nothing() {
    let app = App::new();
    assert_eq!(app.update(), None);
}

#[test]
fn secondary_plane_is_wv() {
    let mut app = App::new();
    app.toggle_auto_rotate();
    assert_eq!(
        app.update(),
        Some(AutoRotation { primary: RotationPlane::XY, secondary: RotationPlane::WV })
    );
    app.select_plane(7);
    assert_eq!(
        app.update(),
        Some(AutoRotation { primary: RotationPlane::ZW, secondary: RotationPlane::WV })
    );
    for k in 0..10 {
        app.select_plane(k);
        let s = app.update().unwrap();
        assert_eq!(s.primary.index(), k);
        assert_eq!(s.secondary, RotationPlane::WV);
    }
}

#[test]
fn selected_plane_follows_selection() {
    let mut app = App::default();
    app.select_plane(9);
    assert_eq!(app.selected_plane(), RotationPlane::WV);
    app.select_plane(10);
    assert_eq!(app.selected_plane(), RotationPlane::WV);
    app.select_plane(3);
    assert_eq!(app.selected_plane(), RotationPlane::XV);
    assert!(app.running && !app.auto_rotate);
}

#[test]
fn update_ignores_plane_index_when_auto_rotation_is_off() {
    let app = App { active_plane: 12, auto_rotate: false, running: true };
    assert_eq!(app.update(), None);
}
