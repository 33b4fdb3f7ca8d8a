use vstd::prelude::*;

verus! {

/// What a text style sets: the foreground colour (red, green, blue) and the bold and
/// underline modifiers.
#[derive(Debug, Clone, Copy, PartialEq, Eq)]
pub struct TextStyle {
    pub fg: (u8, u8, u8),
    pub bold: bool,
    pub underlined: bool,
}

/// Background of the whole interface.
pub const BG_COLOR: (u8, u8, u8) = (10, 10, 18);

/// Primary text (soft white).
pub const TEXT_PRIMARY: (u8, u8, u8) = (200, 200, 210);

/// Dimmed, secondary text.
pub const TEXT_DIM: (u8, u8, u8) = (90, 90, 110);

/// The selected plane (bright cyan).
pub const ACCENT_ACTIVE: (u8, u8, u8) = (0, 255, 200);

/// The planes that are not selected (muted teal).
pub const ACCENT_INACTIVE: (u8, u8, u8) = (50, 80, 90);

/// Titles and headers (electric blue).
pub const TITLE_COLOR: (u8, u8, u8) = (80, 160, 255);

/// Panel borders.
pub const BORDER_COLOR: (u8, u8, u8) = (40, 60, 80);

/// Key hints.
pub const KEY_HINT_COLOR: (u8, u8, u8) = (120, 140, 160);

/// Colour of the edges nearest the viewer (vivid green).
pub const EDGE_NEAR: (u8, u8, u8) = (0, 255, 140);

/// Colour of the edges farthest from the viewer (dark blue-grey).
pub const EDGE_FAR: (u8, u8, u8) = (30, 40, 70);

/// A style that sets only a foreground colour.
pub open spec fn plain(fg: (u8, u8, u8)) -> TextStyle {
    TextStyle { fg, bold: false, underlined: false }
}

/// Titles: bold electric blue.
pub fn title_style() -> (s: TextStyle)
    ensures
        s == (TextStyle { fg: TITLE_COLOR, bold: true, underlined: false }),
{
    TextStyle { fg: TITLE_COLOR, bold: true, underlined: false }
}

/// The selected plane: bold, underlined bright cyan.
pub fn active_plane_style() -> (s: TextStyle)
    ensures
        s == (TextStyle { fg: ACCENT_ACTIVE, bold: true, underlined: true }),
{
    TextStyle { fg: ACCENT_ACTIVE, bold: true, underlined: true }
}

/// The planes that are not selected: muted teal.
pub fn inactive_plane_style() -> (s: TextStyle)
    ensures
        s == plain(ACCENT_INACTIVE),
{
    TextStyle { fg: ACCENT_INACTIVE, bold: false, underlined: false }
}

/// Key hints.
pub fn key_hint_style() -> (s: TextStyle)
    ensures
        s == plain(KEY_HINT_COLOR),
{
    TextStyle { fg: KEY_HINT_COLOR, bold: false, underlined: false }
}

/// Panel borders.
pub fn border_style() -> (s: TextStyle)
    ensures
        s == plain(BORDER_COLOR),
{
    TextStyle { fg: BORDER_COLOR, bold: false, underlined: false }
}

/// Angle read-outs.
pub fn angle_value_style() -> (s: TextStyle)
    ensures
        s == plain(TEXT_PRIMARY),
{
    TextStyle { fg: TEXT_PRIMARY, bold: false, underlined: false }
}

/// Dim, secondary text.
pub fn dim_text_style() -> (s: TextStyle)
    ensures
        s == plain(TEXT_DIM),
{
    TextStyle { fg: TEXT_DIM, bold: false, underlined: false }
}

} // verus!
