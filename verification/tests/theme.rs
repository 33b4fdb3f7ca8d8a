use penteract::app::App;
use penteract::hud::{auto_rotate_status, plane_row, side_panel, PanelLine, StyledText};
use penteract::rotation::RotationPlane;
use penteract::theme::{
    active_plane_style, angle_value_style, border_style, dim_text_style, inactive_plane_style,
    key_hint_style, title_style, TextStyle, ACCENT_ACTIVE, ACCENT_INACTIVE, BORDER_COLOR,
    KEY_HINT_COLOR, TEXT_DIM, TEXT_PRIMARY, TITLE_COLOR,
};

#[test]
fn styles_use_the_palette() {
    assert_eq!(title_style(), TextStyle { fg: (80, 160, 255), bold: true, underlined: false });
    assert_eq!(title_style().fg, TITLE_COLOR);
    assert_eq!(active_plane_style(), TextStyle { fg: ACCENT_ACTIVE, bold: true, underlined: true });
    assert_eq!(active_plane_style().fg, (0, 255, 200));
    assert_eq!(inactive_plane_style(), TextStyle { fg: ACCENT_INACTIVE, bold: false, underlined: false });
    assert_eq!(key_hint_style().fg, KEY_HINT_COLOR);
    assert_eq!(border_style().fg, BORDER_COLOR);
    assert_eq!(angle_value_style().fg, TEXT_PRIMARY);
    assert_eq!(dim_text_style(), TextStyle { fg: TEXT_DIM, bold: false, underlined: false });
    assert_eq!(dim_text_style().fg, (90, 90, 110));
}

#[test]
fn plane_rows_highlight_the_selected_plane() {
    let mut app = App::new();
    app.select_plane(6);
    for idx in 0..10 {
        let row = plane_row(&app, idx);
        assert_eq!(row.plane, RotationPlane::ALL[idx]);
        assert_eq!(row.active, idx == 6);
        assert_eq!(row.key, format!("[{}]", idx));
        assert_eq!(row.name, format!(" {:<3}", row.plane.label()));
        if idx == 6 {
            assert_eq!(row.marker, "▸ ");
            assert_eq!(row.style, active_plane_style());
        } else {
            assert_eq!(row.marker, "  ");
            assert_eq!(row.style, inactive_plane_style());
        }
    }
}

#[test]
fn auto_rotate_status_lines() {
    let mut app = App::new();
    let off = auto_rotate_status(&app);
    assert_eq!(off.text, "○ Auto-rotate: off");
    assert_eq!(off.style, dim_text_style());
    app.toggle_auto_rotate();
    let on = auto_rotate_status(&app);
    assert_eq!(on.text, "● AUTO-ROTATE: ON ");
    assert_eq!(on.style, active_plane_style());
}

#[test]
fn side_panel_layout() {
    let mut app = App::new();
    let lines = side_panel(&app);
    assert_eq!(lines.len(), 21);
    assert_eq!(
        lines[0],
        PanelLine::Text(StyledText { text: "╔══ ROTATION PLANES ══╗", style: title_style() })
    );
    assert_eq!(lines[1], PanelLine::Blank);
    for k in 0..10 {
        assert_eq!(lines[2 + k], PanelLine::Plane(k));
    }
    assert_eq!(lines[12], PanelLine::Blank);
    assert_eq!(lines[13], PanelLine::Text(auto_rotate_status(&app)));
    assert_eq!(lines[14], PanelLine::Blank);
    assert_eq!(
        lines[15],
        PanelLine::Text(StyledText { text: "╔══ CONTROLS ═════════╗", style: title_style() })
    );
    assert_eq!(lines[16], PanelLine::Blank);
    let hints = [("0-9", "Select plane"), ("←/→", "Rotate"), ("Space", "Auto-rotate"), ("q/Esc", "Quit")];
    for (n, (key, desc)) in hints.iter().enumerate() {
        let expected_key = format!(" {:<7}", key);
        match lines[17 + n] {
            PanelLine::Hint(k, d) => {
                assert_eq!(k.text, expected_key);
                assert_eq!(k.style, active_plane_style());
                assert_eq!(d.text, *desc);
                assert_eq!(d.style, key_hint_style());
            }
            other => panic!("expected a hint, got {:?}", other),
        }
    }
    app.toggle_auto_rotate();
    let lines = side_panel(&app);
    assert_eq!(lines[13], PanelLine::Text(auto_rotate_status(&app)));
    assert_eq!(auto_rotate_status(&app).text, "● AUTO-ROTATE: ON ");
}
