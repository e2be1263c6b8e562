//! The hotkey reference menu: its placement on screen and its rows.
use vstd::prelude::*;

use crate::state::Page;
use crate::text::{pad_right, padded_right};

verus! {

broadcast use vstd::string::group_string_axioms;

/// A rectangle of terminal cells.
#[derive(Debug, Clone, Copy, PartialEq, Eq, Structural, Default)]
pub struct Rect {
    pub x: u16,
    pub y: u16,
    pub width: u16,
    pub height: u16,
}

/// Widest the hotkey menu gets.
pub const MODAL_MAX_WIDTH: u16 = 90;
/// Tallest the hotkey menu gets.
pub const MODAL_MAX_HEIGHT: u16 = 28;

/// Width of the hotkey menu in a screen `w` cells wide: the whole width, at
/// most 90 cells.
pub open spec fn modal_width(w: u16) -> u16 {
    if w > MODAL_MAX_WIDTH {
        MODAL_MAX_WIDTH
    } else {
        w
    }
}

/// Height of the hotkey menu in a screen `h` rows high: the whole height, at
/// most 28 rows.
pub open spec fn modal_height(h: u16) -> u16 {
    if h > MODAL_MAX_HEIGHT {
        MODAL_MAX_HEIGHT
    } else {
        h
    }
}

/// The hotkey menu centred in `area`.
pub open spec fn centered(area: Rect) -> Rect {
    Rect {
        x: (area.x + (area.width - modal_width(area.width)) / 2) as u16,
        y: (area.y + (area.height - modal_height(area.height)) / 2) as u16,
        width: modal_width(area.width),
        height: modal_height(area.height),
    }
}

/// The centred menu's corner stays within the coordinate range.
pub open spec fn centering_fits(area: Rect) -> bool {
    &&& area.x + (area.width - modal_width(area.width)) / 2 <= u16::MAX
    &&& area.y + (area.height - modal_height(area.height)) / 2 <= u16::MAX
}

/// Placement of the hotkey menu: at least 40x16 cells when the screen has
/// room, at most 90x28, centred; a smaller screen is used whole.
pub fn centered_rect(area: Rect) -> (r: Rect)
    requires
        centering_fits(area),
    ensures
        r == centered(area),
        r.width <= area.width,
        r.height <= area.height,
        r.x >= area.x,
        r.y >= area.y,
        r.x + r.width <= area.x + area.width,
        r.y + r.height <= area.y + area.height,
{
    let width = if area.width >= 40 {
        if area.width > 90 {
            90
        } else {
            area.width
        }
    } else {
        area.width
    };
    let height = if area.height >= 16 {
        if area.height > 28 {
            28
        } else {
            area.height
        }
    } else {
        area.height
    };
    let x = area.x + (area.width - width) / 2;
    let y = area.y + (area.height - height) / 2;
    Rect { x, y, width, height }
}

/// Rows of the "Global" section.
pub open spec fn global_rows() -> Seq<(&'static str, &'static str)> {
    seq![
        ("q", "Quit"),
        ("p / Space", "Play/Pause"),
        ("h", "Previous track"),
        ("l", "Next track"),
        ("Ctrl+R", "Refresh data"),
        ("t", "Cycle theme"),
        ("F1..F7", "Page navigation"),
        ("?", "Toggle this menu"),
    ]
}

/// Rows of the "Volume" section.
pub open spec fn volume_rows() -> Seq<(&'static str, &'static str)> {
    seq![("-", "Volume down (2%)"), ("+ / =", "Volume up (2%)")]
}

/// Rows of the "Current page" section.
pub open spec fn page_rows(page: Page) -> Seq<(&'static str, &'static str)> {
    match page {
        Page::Browse => seq![("Tab", "Switch focus"), ("Enter", "Play selected"), ("/", "Search")],
        Page::Artists => seq![
            ("/", "Filter artists"),
            ("← / →", "Switch pane"),
            ("Enter", "Expand / play"),
        ],
        Page::Queue => seq![
            ("Enter", "Play selected"),
            ("d", "Remove selected"),
            ("J / K", "Move selected"),
        ],
        Page::Playlists => seq![
            ("Tab / ← / →", "Switch pane"),
            ("Enter", "Play / load"),
            ("e / n", "Queue append/next"),
        ],
        Page::Radio => seq![
            ("Enter", "Play station"),
            ("Space", "Play selected / pause"),
            ("Ctrl+R", "Refresh stations"),
        ],
        Page::Server => seq![
            ("Tab", "Next field"),
            ("Enter", "Test / Save"),
            ("Backspace", "Delete char"),
        ],
        Page::Settings => seq![("↑ / ↓", "Select setting"), ("← / → / Enter", "Change option")],
    }
}

fn rows_of(items: &[(&'static str, &'static str)]) -> (r: Vec<(&'static str, &'static str)>)
    ensures
        r@ == items@,
{
    let mut v: Vec<(&'static str, &'static str)> = Vec::new();
    let mut i: usize = 0;
    while i < items.len()
        invariant
            i <= items@.len(),
            v@ == items@.take(i as int),
        decreases items@.len() - i,
    {
        v.push(items[i]);
        assert(items@.take(i + 1) =~= items@.take(i as int).push(items@[i as int]));
        i = i + 1;
    }
    assert(items@.take(items@.len() as int) =~= items@);
    v
}

/// Rows of the "Global" section: key and description.
pub fn global_hotkey_lines() -> (r: Vec<(&'static str, &'static str)>)
    ensures
        r@ == global_rows(),
{
    let rows = [
        ("q", "Quit"),
        ("p / Space", "Play/Pause"),
        ("h", "Previous track"),
        ("l", "Next track"),
        ("Ctrl+R", "Refresh data"),
        ("t", "Cycle theme"),
        ("F1..F7", "Page navigation"),
        ("?", "Toggle this menu"),
    ];
    rows_of(&rows)
}

/// Rows of the "Volume" section: key and description.
pub fn volume_hotkey_lines() -> (r: Vec<(&'static str, &'static str)>)
    ensures
        r@ == volume_rows(),
{
    let rows = [("-", "Volume down (2%)"), ("+ / =", "Volume up (2%)")];
    rows_of(&rows)
}

/// Rows of the "Current page" section for `page`: key and description.
pub fn page_specific_lines(page: Page) -> (r: Vec<(&'static str, &'static str)>)
    ensures
        r@ == page_rows(page),
{
    match page {
        Page::Browse => {
            let rows = [("Tab", "Switch focus"), ("Enter", "Play selected"), ("/", "Search")];
            rows_of(&rows)
        },
        Page::Artists => {
            let rows = [
                ("/", "Filter artists"),
                ("← / →", "Switch pane"),
                ("Enter", "Expand / play"),
            ];
            rows_of(&rows)
        },
        Page::Queue => {
            let rows = [
                ("Enter", "Play selected"),
                ("d", "Remove selected"),
                ("J / K", "Move selected"),
            ];
            rows_of(&rows)
        },
        Page::Playlists => {
            let rows = [
                ("Tab / ← / →", "Switch pane"),
                ("Enter", "Play / load"),
                ("e / n", "Queue append/next"),
            ];
            rows_of(&rows)
        },
        Page::Radio => {
            let rows = [
                ("Enter", "Play station"),
                ("Space", "Play selected / pause"),
                ("Ctrl+R", "Refresh stations"),
            ];
            rows_of(&rows)
        },
        Page::Server => {
            let rows = [
                ("Tab", "Next field"),
                ("Enter", "Test / Save"),
                ("Backspace", "Delete char"),
            ];
            rows_of(&rows)
        },
        Page::Settings => {
            let rows = [("↑ / ↓", "Select setting"), ("← / → / Enter", "Change option")];
            rows_of(&rows)
        },
    }
}

/// Width of the key column of the menu.
pub const KEY_COLUMN_WIDTH: usize = 10;

/// The key of a menu row, left-aligned in the key column.
pub fn key_column(key: &str) -> (r: String)
    ensures
        r@ == pad_right(key@, KEY_COLUMN_WIDTH as nat),
{
    padded_right(key, KEY_COLUMN_WIDTH)
}

/// The text of a menu row: the key column, a space, the description.
pub open spec fn row_text(key: Seq<char>, desc: Seq<char>) -> Seq<char> {
    pad_right(key, KEY_COLUMN_WIDTH as nat) + " "@ + desc
}

/// The text of a menu row.
pub fn key_line_text(key: &str, desc: &str) -> (r: String)
    ensures
        r@ == row_text(key@, desc@),
{
    let mut s = key_column(key);
    s.append(" ");
    s.append(desc);
    s
}

} // verus!
