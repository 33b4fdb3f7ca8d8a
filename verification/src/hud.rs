use vstd::prelude::*;
use crate::app::App;
use crate::rotation::{RotationPlane, PLANE_COUNT, axis_letter};
use crate::theme::{
    TextStyle,
    active_plane_style,
    inactive_plane_style,
    dim_text_style,
    key_hint_style,
    title_style,
    ACCENT_ACTIVE,
    ACCENT_INACTIVE,
    KEY_HINT_COLOR,
    TEXT_DIM,
    TITLE_COLOR,
};

verus! {

/// One row of the plane list in the side panel.
#[derive(Debug, Clone, Copy)]
pub struct PlaneRow {
    /// The plane the row describes.
    pub plane: RotationPlane,
    /// Whether it is the selected plane.
    pub active: bool,
    /// The marker in front of the row: an arrow for the selected plane, blanks otherwise.
    pub marker: &'static str,
    /// The key that selects the plane, in brackets: `[k]` for index `k`.
    pub key: &'static str,
    /// The plane's label after a blank, padded to three columns.
    pub name: &'static str,
    /// The style of the marker, key and label.
    pub style: TextStyle,
}

/// A piece of text with its style.
#[derive(Debug, Clone, Copy, PartialEq, Eq)]
pub struct StyledText {
    pub text: &'static str,
    pub style: TextStyle,
}

/// One line of the side panel.
#[derive(Debug, Clone, Copy, PartialEq, Eq)]
pub enum PanelLine {
    /// An empty spacer line.
    Blank,
    /// A line of styled text.
    Text(StyledText),
    /// The row of the plane with this index, followed by its angle.
    Plane(usize),
    /// A key hint: the key, then what it does.
    Hint(StyledText, StyledText),
}

/// The style of a plane row: the accent style for the selected plane, the muted one otherwise.
pub open spec fn row_style(active: bool) -> TextStyle {
    if active {
        TextStyle { fg: ACCENT_ACTIVE, bold: true, underlined: true }
    } else {
        TextStyle { fg: ACCENT_INACTIVE, bold: false, underlined: false }
    }
}

/// The marker of a plane row.
pub open spec fn row_marker(active: bool) -> Seq<char> {
    if active {
        seq!['\u{25b8}', ' ']
    } else {
        seq![' ', ' ']
    }
}

/// The row of the side panel for the plane of index `idx`.
pub fn plane_row(app: &App, idx: usize) -> (row: PlaneRow)
    requires
        idx < PLANE_COUNT,
    ensures
        row.plane.spec_index() == idx,
        row.active == (idx == app.active_plane),
        row.marker@ == row_marker(row.active),
        row.key@ == key_text(idx as int),
        row.name@ == name_text(row.plane),
        row.style == row_style(row.active),
{
    proof {
        crate::rotation::lemma_all_in_canonical_order();
    }
    let plane = RotationPlane::ALL[idx];
    let active = idx == app.active_plane;
    let key = plane_key_text(idx);
    let name = plane_name_text(plane);
    if active {
        proof {
            reveal_strlit("\u{25b8} ");
        }
        PlaneRow { plane, active, marker: "\u{25b8} ", key, name, style: active_plane_style() }
    } else {
        proof {
            reveal_strlit("  ");
        }
        PlaneRow { plane, active, marker: "  ", key, name, style: inactive_plane_style() }
    }
}

/// The decimal digit for `d` in 0..9.
pub open spec fn digit_char(d: int) -> char {
    (d + '0' as int) as char
}

/// The key text of the row of plane index `idx`: the index in brackets.
pub open spec fn key_text(idx: int) -> Seq<char> {
    seq!['[', digit_char(idx), ']']
}

/// The name text of a plane's row: a blank, then the two axis letters, padded to three columns.
pub open spec fn name_text(p: RotationPlane) -> Seq<char> {
    seq![' ', axis_letter(p.axes().0), axis_letter(p.axes().1), ' ']
}

/// The bracketed key that selects the plane of index `idx`.
pub fn plane_key_text(idx: usize) -> (r: &'static str)
    requires
        idx < PLANE_COUNT,
    ensures
        r@ == key_text(idx as int),
{
    if idx == 0 {
        proof { reveal_strlit("[0]"); }
        "[0]"
    } else if idx == 1 {
        proof { reveal_strlit("[1]"); }
        "[1]"
    } else if idx == 2 {
        proof { reveal_strlit("[2]"); }
        "[2]"
    } else if idx == 3 {
        proof { reveal_strlit("[3]"); }
        "[3]"
    } else if idx == 4 {
        proof { reveal_strlit("[4]"); }
        "[4]"
    } else if idx == 5 {
        proof { reveal_strlit("[5]"); }
        "[5]"
    } else if idx == 6 {
        proof { reveal_strlit("[6]"); }
        "[6]"
    } else if idx == 7 {
        proof { reveal_strlit("[7]"); }
        "[7]"
    } else if idx == 8 {
        proof { reveal_strlit("[8]"); }
        "[8]"
    } else {
        proof { reveal_strlit("[9]"); }
        "[9]"
    }
}

/// The plane's label after a blank, padded to three columns.
pub fn plane_name_text(p: RotationPlane) -> (r: &'static str)
    ensures
        r@ == name_text(p),
{
    match p {
        RotationPlane::XY => {
            proof { reveal_strlit(" XY "); }
            " XY "
        },
        RotationPlane::XZ => {
            proof { reveal_strlit(" XZ "); }
            " XZ "
        },
        RotationPlane::XW => {
            proof { reveal_strlit(" XW "); }
            " XW "
        },
        RotationPlane::XV => {
            proof { reveal_strlit(" XV "); }
            " XV "
        },
        RotationPlane::YZ => {
            proof { reveal_strlit(" YZ "); }
            " YZ "
        },
        RotationPlane::YW => {
            proof { reveal_strlit(" YW "); }
            " YW "
        },
        RotationPlane::YV => {
            proof { reveal_strlit(" YV "); }
            " YV "
        },
        RotationPlane::ZW => {
            proof { reveal_strlit(" ZW "); }
            " ZW "
        },
        RotationPlane::ZV => {
            proof { reveal_strlit(" ZV "); }
            " ZV "
        },
        RotationPlane::WV => {
            proof { reveal_strlit(" WV "); }
            " WV "
        },
    }
}

/// The auto-rotation status: highlighted when on, dim when off.
pub fn auto_rotate_status(app: &App) -> (line: StyledText)
    ensures
        line == status_spec(app.auto_rotate),
{
    if app.auto_rotate {
        StyledText { text: "\u{25cf} AUTO-ROTATE: ON ", style: active_plane_style() }
    } else {
        StyledText { text: "\u{25cb} Auto-rotate: off", style: dim_text_style() }
    }
}

/// The status line that `auto_rotate_status` gives.
pub open spec fn status_spec(auto_rotate: bool) -> StyledText {
    if auto_rotate {
        StyledText { text: "\u{25cf} AUTO-ROTATE: ON ", style: row_style(true) }
    } else {
        StyledText {
            text: "\u{25cb} Auto-rotate: off",
            style: TextStyle { fg: TEXT_DIM, bold: false, underlined: false },
        }
    }
}

/// Style of titles.
pub open spec fn title_spec() -> TextStyle {
    TextStyle { fg: TITLE_COLOR, bold: true, underlined: false }
}

/// A key hint line: the key, padded to seven columns after a leading blank, in the accent
/// style, then its description in the hint style.
pub open spec fn hint_spec(key: &'static str, description: &'static str) -> PanelLine {
    PanelLine::Hint(
        StyledText { text: key, style: row_style(true) },
        StyledText {
            text: description,
            style: TextStyle { fg: KEY_HINT_COLOR, bold: false, underlined: false },
        },
    )
}

/// The side panel, top to bottom: the planes title, a blank line, the ten plane rows in
/// canonical order, a blank line, the auto-rotation status, a blank line, the controls title,
/// a blank line and the four key hints.
pub open spec fn side_panel_spec(auto_rotate: bool) -> Seq<PanelLine> {
    seq![
        PanelLine::Text(StyledText { text: "\u{2554}\u{2550}\u{2550} ROTATION PLANES \u{2550}\u{2550}\u{2557}", style: title_spec() }),
        PanelLine::Blank,
    ] + Seq::new(PLANE_COUNT as nat, |k: int| PanelLine::Plane(k as usize)) + seq![
        PanelLine::Blank,
        PanelLine::Text(status_spec(auto_rotate)),
        PanelLine::Blank,
        PanelLine::Text(StyledText { text: "\u{2554}\u{2550}\u{2550} CONTROLS \u{2550}\u{2550}\u{2550}\u{2550}\u{2550}\u{2550}\u{2550}\u{2550}\u{2550}\u{2557}", style: title_spec() }),
        PanelLine::Blank,
        hint_spec(" 0-9    ", "Select plane"),
        hint_spec(" \u{2190}/\u{2192}    ", "Rotate"),
        hint_spec(" Space  ", "Auto-rotate"),
        hint_spec(" q/Esc  ", "Quit"),
    ]
}

/// The side panel has 21 lines whatever the state. Only the status line (line 13) depends on
/// auto-rotation; lines 2 to 11 are the ten planes in order, and the last four are the key
/// hints for the digits, the arrows, Space and `q`/Esc.
pub proof fn lemma_side_panel_shape(auto_rotate: bool)
    ensures
        side_panel_spec(auto_rotate).len() == 21,
        forall|k: int|
            0 <= k < 21 && k != 13 ==> #[trigger] side_panel_spec(auto_rotate)[k]
                == side_panel_spec(!auto_rotate)[k],
        forall|k: int| 2 <= k < 12 ==> #[trigger] side_panel_spec(auto_rotate)[k] == PanelLine::Plane((k - 2) as usize),
        side_panel_spec(auto_rotate)[13] == PanelLine::Text(status_spec(auto_rotate)),
        side_panel_spec(auto_rotate)[17] == PanelLine::Hint(
            StyledText { text: " 0-9    ", style: TextStyle { fg: ACCENT_ACTIVE, bold: true, underlined: true } },
            StyledText { text: "Select plane", style: TextStyle { fg: KEY_HINT_COLOR, bold: false, underlined: false } },
        ),
        side_panel_spec(auto_rotate)[18] == PanelLine::Hint(
            StyledText { text: " \u{2190}/\u{2192}    ", style: TextStyle { fg: ACCENT_ACTIVE, bold: true, underlined: true } },
            StyledText { text: "Rotate", style: TextStyle { fg: KEY_HINT_COLOR, bold: false, underlined: false } },
        ),
        side_panel_spec(auto_rotate)[19] == PanelLine::Hint(
            StyledText { text: " Space  ", style: TextStyle { fg: ACCENT_ACTIVE, bold: true, underlined: true } },
            StyledText { text: "Auto-rotate", style: TextStyle { fg: KEY_HINT_COLOR, bold: false, underlined: false } },
        ),
        side_panel_spec(auto_rotate)[20] == PanelLine::Hint(
            StyledText { text: " q/Esc  ", style: TextStyle { fg: ACCENT_ACTIVE, bold: true, underlined: true } },
            StyledText { text: "Quit", style: TextStyle { fg: KEY_HINT_COLOR, bold: false, underlined: false } },
        ),
{
}

/// The status line names the auto-rotation state: it reads "on" in the accent style when
/// auto-rotation is on and "off" in the dim style when it is off.
pub proof fn lemma_status_line(auto_rotate: bool)
    ensures
        auto_rotate ==> status_spec(auto_rotate) == (StyledText {
            text: "\u{25cf} AUTO-ROTATE: ON ",
            style: TextStyle { fg: ACCENT_ACTIVE, bold: true, underlined: true },
        }),
        !auto_rotate ==> status_spec(auto_rotate) == (StyledText {
            text: "\u{25cb} Auto-rotate: off",
            style: TextStyle { fg: TEXT_DIM, bold: false, underlined: false },
        }),
{
}

/// A plane row shows the plane's index digit in brackets and its two axis letters between
/// blanks; the selected row is marked with an arrow in the bold, underlined accent colour and
/// every other row has a blank marker in the plain muted colour.
pub proof fn lemma_plane_row_text(idx: int, p: RotationPlane, active: bool)
    requires
        0 <= idx < PLANE_COUNT,
    ensures
        key_text(idx).len() == 3,
        key_text(idx)[0] == '[' && key_text(idx)[2] == ']',
        key_text(idx)[1] as int == '0' as int + idx,
        name_text(p).len() == 4,
        name_text(p)[0] == ' ' && name_text(p)[3] == ' ',
        name_text(p)[1] == axis_letter(p.axes().0) && name_text(p)[2] == axis_letter(p.axes().1),
        active ==> row_style(active) == (TextStyle { fg: ACCENT_ACTIVE, bold: true, underlined: true }),
        !active ==> row_style(active) == (TextStyle { fg: ACCENT_INACTIVE, bold: false, underlined: false }),
        active ==> row_marker(active) == seq!['\u{25b8}', ' '],
        !active ==> row_marker(active) == seq![' ', ' '],
{
}

/// The lines of the side panel for the given control state.
pub fn side_panel(app: &App) -> (lines: Vec<PanelLine>)
    ensures
        lines@ == side_panel_spec(app.auto_rotate),
{
    let title = title_style();
    let accent = active_plane_style();
    let hint = key_hint_style();
    let mut lines: Vec<PanelLine> = Vec::new();
    lines.push(PanelLine::Text(StyledText { text: "\u{2554}\u{2550}\u{2550} ROTATION PLANES \u{2550}\u{2550}\u{2557}", style: title }));
    lines.push(PanelLine::Blank);
    let mut idx: usize = 0;
    while idx < PLANE_COUNT
        invariant
            idx <= PLANE_COUNT,
            lines@.len() == 2 + idx,
            lines@[0] == PanelLine::Text(StyledText { text: "\u{2554}\u{2550}\u{2550} ROTATION PLANES \u{2550}\u{2550}\u{2557}", style: title_spec() }),
            lines@[1] == PanelLine::Blank,
            forall|k: int| 0 <= k < idx ==> #[trigger] lines@[2 + k] == PanelLine::Plane(k as usize),
        decreases PLANE_COUNT - idx,
    {
        lines.push(PanelLine::Plane(idx));
        idx += 1;
    }
    lines.push(PanelLine::Blank);
    lines.push(PanelLine::Text(auto_rotate_status(app)));
    lines.push(PanelLine::Blank);
    lines.push(PanelLine::Text(StyledText { text: "\u{2554}\u{2550}\u{2550} CONTROLS \u{2550}\u{2550}\u{2550}\u{2550}\u{2550}\u{2550}\u{2550}\u{2550}\u{2550}\u{2557}", style: title }));
    lines.push(PanelLine::Blank);
    lines.push(PanelLine::Hint(StyledText { text: " 0-9    ", style: accent }, StyledText { text: "Select plane", style: hint }));
    lines.push(PanelLine::Hint(StyledText { text: " \u{2190}/\u{2192}    ", style: accent }, StyledText { text: "Rotate", style: hint }));
    lines.push(PanelLine::Hint(StyledText { text: " Space  ", style: accent }, StyledText { text: "Auto-rotate", style: hint }));
    lines.push(PanelLine::Hint(StyledText { text: " q/Esc  ", style: accent }, StyledText { text: "Quit", style: hint }));
    proof {
        let sp = side_panel_spec(app.auto_rotate);
        assert forall|k: int| 0 <= k < sp.len() implies lines@[k] == sp[k] by {
            if 2 <= k < 12 {
                assert(lines@[2 + (k - 2)] == PanelLine::Plane((k - 2) as usize));
            }
        }
        assert(lines@ =~= sp);
    }
    lines
}

} // verus!
