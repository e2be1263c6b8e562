//! Screen layout of the Browse page and what a mouse click on it does.
use vstd::prelude::*;

use ratatui::layout::Constraint as C;

use crate::hotkeys::Rect;
use crate::state::{song_option_at, BrowseState, BrowseTab, SongOption};

verus! {

/// A size constraint of one section of a layout.
#[derive(Debug, Clone, Copy, PartialEq, Eq, Structural)]
pub enum Constraint {
    /// Exactly this many cells.
    Length(u16),
    /// At least this many cells.
    Min(u16),
    /// At most this many cells.
    Max(u16),
    /// A share of the space left over, in proportion to the weight.
    Fill(u16),
}

/// The sections into which the layout engine of `ratatui` divides `area`
/// from top to bottom under `constraints`.
pub uninterp spec fn vertical_layout(area: Rect, constraints: Seq<Constraint>) -> Seq<Rect>;

/// `ratatui::layout::Layout::vertical(..).split(..)`: divides `area` from top
/// to bottom into one section per constraint. Its result is named; the only
/// fact claimed of it is that there is one section per constraint.
#[verifier::external_body]
pub(crate) fn split_vertical(area: Rect, constraints: &Vec<Constraint>) -> (r: Vec<Rect>)
    ensures
        r@ == vertical_layout(area, constraints@),
        r@.len() == constraints@.len(),
{
    let cs: Vec<C> = constraints.iter().map(|c| match *c {
        Constraint::Length(n) => C::Length(n),
        Constraint::Min(n) => C::Min(n),
        Constraint::Max(n) => C::Max(n),
        Constraint::Fill(n) => C::Fill(n),
    }).collect();
    let r = ratatui::layout::Rect { x: area.x, y: area.y, width: area.width, height: area.height };
    ratatui::layout::Layout::vertical(cs).split(r).iter().map(|s| Rect {
        x: s.x, y: s.y, width: s.width, height: s.height }).collect()
}

/// The four sections of the Browse page, from top to bottom.
#[derive(Debug, Clone, Copy, PartialEq, Eq, Structural)]
pub struct BrowseAreas {
    pub tabs: Rect,
    pub options: Rect,
    pub search: Rect,
    pub list: Rect,
}

/// The constraints of the Browse page: tab bar 3 rows, options 5 rows,
/// search box 3 rows, the list takes the rest.
pub open spec fn browse_constraints() -> Seq<Constraint> {
    seq![
        Constraint::Length(3),
        Constraint::Length(5),
        Constraint::Length(3),
        Constraint::Fill(1),
    ]
}

/// The sections that the layout engine gives the Browse page in `content`.
pub open spec fn browse_layout(content: Rect) -> BrowseAreas {
    let parts = vertical_layout(content, browse_constraints());
    BrowseAreas { tabs: parts[0], options: parts[1], search: parts[2], list: parts[3] }
}

/// The sections of the Browse page in its content area.
pub fn browse_areas(content: Rect) -> (r: BrowseAreas)
    ensures
        r == browse_layout(content),
{
    let mut cs: Vec<Constraint> = Vec::new();
    cs.push(Constraint::Length(3));
    cs.push(Constraint::Length(5));
    cs.push(Constraint::Length(3));
    cs.push(Constraint::Fill(1));
    assert(cs@ =~= browse_constraints());
    let parts = split_vertical(content, &cs);
    BrowseAreas { tabs: parts[0], options: parts[1], search: parts[2], list: parts[3] }
}

/// The tab under column `x` of the tab bar whose left edge is `area_x`: the
/// bar is drawn inside a border, as " Songs " then a divider then " Albums ".
pub open spec fn tab_under(area_x: u16, x: u16) -> Option<BrowseTab> {
    let col = x - area_x;
    if 1 <= col < 8 {
        Some(BrowseTab::Songs)
    } else if 9 <= col < 17 {
        Some(BrowseTab::Albums)
    } else {
        None
    }
}

/// The tab under column `x` of the tab bar whose left edge is `area_x`.
pub fn tab_at_column(area_x: u16, x: u16) -> (r: Option<BrowseTab>)
    ensures
        r == tab_under(area_x, x),
{
    if x < area_x {
        return None;
    }
    let col = x - area_x;
    if 1 <= col && col < 8 {
        Some(BrowseTab::Songs)
    } else if 9 <= col && col < 17 {
        Some(BrowseTab::Albums)
    } else {
        None
    }
}

/// What a click on the Browse page asks of the application beyond the state
/// change.
#[derive(Debug, Clone, Copy, PartialEq, Eq, Structural)]
pub enum BrowseClick {
    Nothing,
    /// Load the list of this option on this tab.
    LoadOption(BrowseTab, SongOption),
    /// Queue the displayed songs and play from this row.
    PlaySongs(usize),
    /// Fetch the album on this row, queue its songs and play.
    PlayAlbum(usize),
}

/// Row `y` lies within the rows of `a`.
pub open spec fn in_rows(a: Rect, y: u16) -> bool {
    a.y <= y < a.y + a.height
}

/// The row of `y` inside the border of a box whose top is `top` (0 above it).
pub open spec fn row_inside(top: u16, y: u16) -> int {
    if y >= top + 1 {
        y - (top + 1)
    } else {
        0
    }
}

fn row_inside_exec(top: u16, y: u16) -> (r: usize)
    ensures
        r == row_inside(top, y),
{
    let inner: u32 = top as u32 + 1;
    if y as u32 >= inner {
        (y as u32 - inner) as usize
    } else {
        0
    }
}

fn in_rows_exec(a: Rect, y: u16) -> (r: bool)
    ensures
        r == in_rows(a, y),
{
    a.y <= y && (y as u32) < a.y as u32 + a.height as u32
}

/// What a click at row `y` does to the Browse state `s`, giving `t` and the
/// request `r` (see `BrowseState::click_at`).
pub open spec fn click_outcome(
    s: BrowseState,
    areas: BrowseAreas,
    y: u16,
    tab_hit: Option<BrowseTab>,
    repeat: bool,
    t: BrowseState,
    r: BrowseClick,
) -> bool {
    if in_rows(areas.tabs, y) {
        match tab_hit {
            Some(tab) => if tab != s.browse_tab {
                &&& r == BrowseClick::LoadOption(
                    tab,
                    match s.selected_option {
                        Some(o) => o,
                        None => SongOption::All,
                    },
                )
                &&& t.filter@.len() == 0
                &&& t == (BrowseState { browse_tab: tab, filter: t.filter, focus: 0, ..s })
            } else {
                r == BrowseClick::Nothing && t == s
            },
            None => r == BrowseClick::Nothing && t == s,
        }
    } else if in_rows(areas.options, y) {
        match song_option_at(row_inside(areas.options.y, y)) {
            Some(o) => if s.selected_option != Some(o) {
                &&& r == BrowseClick::LoadOption(s.browse_tab, o)
                &&& t == (BrowseState {
                    focus: 0,
                    selected_option: Some(o),
                    scroll_offset: 0,
                    album_scroll_offset: 0,
                    ..s
                })
            } else {
                r == BrowseClick::Nothing && t == (BrowseState { focus: 0, ..s })
            },
            None => r == BrowseClick::Nothing && t == (BrowseState { focus: 0, ..s }),
        }
    } else if in_rows(areas.search, y) {
        r == BrowseClick::Nothing && t == (BrowseState { filter_active: true, ..s })
    } else if in_rows(areas.list, y) {
        let row = row_inside(areas.list.y, y);
        match s.browse_tab {
            BrowseTab::Songs => {
                let item = s.scroll_offset + row;
                if item < s.songs@.len() {
                    &&& t == (BrowseState { focus: 1, selected_index: Some(item as usize), ..s })
                    &&& r == (if s.selected_index == Some(item as usize) && repeat {
                        BrowseClick::PlaySongs(item as usize)
                    } else {
                        BrowseClick::Nothing
                    })
                } else {
                    r == BrowseClick::Nothing && t == s
                }
            },
            BrowseTab::Albums => {
                let item = s.album_scroll_offset + row;
                if item < s.albums@.len() {
                    &&& t == (BrowseState { focus: 1, selected_album: Some(item as usize), ..s })
                    &&& r == (if s.selected_album == Some(item as usize) && repeat {
                        BrowseClick::PlayAlbum(item as usize)
                    } else {
                        BrowseClick::Nothing
                    })
                } else {
                    r == BrowseClick::Nothing && t == s
                }
            },
        }
    } else {
        r == BrowseClick::Nothing && t == s
    }
}

impl BrowseState {
    /// A click on row `y` of the Browse page with these sections, given
    /// the tab under the click (when on the tab bar) and whether the previous
    /// click was on the same cell moments ago.
    ///
    /// Tab bar: a different tab is selected, the filter cleared and the
    /// options pane focused, and that tab's list is loaded. Options pane: the
    /// options pane is focused; a different option on the clicked row is
    /// selected, scrolled to the top and loaded. Search box: filtering starts.
    /// List: the clicked row, if it holds an item, is focused and selected; a
    /// repeated click on the selected row plays it.
    pub fn click_at(
        &mut self,
        areas: BrowseAreas,
        y: u16,
        tab_hit: Option<BrowseTab>,
        repeat: bool,
    ) -> (r: BrowseClick)
        ensures
            click_outcome(*old(self), areas, y, tab_hit, repeat, *final(self), r),
    {
        if in_rows_exec(areas.tabs, y) {
            match tab_hit {
                Some(new_tab) => {
                    if new_tab != self.browse_tab {
                        self.browse_tab = new_tab;
                        self.filter = String::new();
                        self.focus = 0;
                        let opt = match self.selected_option {
                            Some(o) => o,
                            None => SongOption::All,
                        };
                        return BrowseClick::LoadOption(new_tab, opt);
                    }
                    return BrowseClick::Nothing;
                },
                None => {
                    return BrowseClick::Nothing;
                },
            }
        } else if in_rows_exec(areas.options, y) {
            let row = row_inside_exec(areas.options.y, y);
            self.focus = 0;
            if let Some(opt) = SongOption::nth(row) {
                if self.selected_option != Some(opt) {
                    self.selected_option = Some(opt);
                    self.scroll_offset = 0;
                    self.album_scroll_offset = 0;
                    return BrowseClick::LoadOption(self.browse_tab, opt);
                }
            }
            return BrowseClick::Nothing;
        } else if in_rows_exec(areas.search, y) {
            self.filter_active = true;
            return BrowseClick::Nothing;
        } else if in_rows_exec(areas.list, y) {
            let row = row_inside_exec(areas.list.y, y);
            match self.browse_tab {
                BrowseTab::Songs => {
                    let count = self.songs.len();
                    if self.scroll_offset <= usize::MAX - row {
                        let item = self.scroll_offset + row;
                        if item < count {
                            let was_selected = self.selected_index == Some(item);
                            self.focus = 1;
                            self.selected_index = Some(item);
                            if was_selected && repeat {
                                return BrowseClick::PlaySongs(item);
                            }
                        }
                    }
                },
                BrowseTab::Albums => {
                    let count = self.albums.len();
                    if self.album_scroll_offset <= usize::MAX - row {
                        let item = self.album_scroll_offset + row;
                        if item < count {
                            let was_selected = self.selected_album == Some(item);
                            self.focus = 1;
                            self.selected_album = Some(item);
                            if was_selected && repeat {
                                return BrowseClick::PlayAlbum(item);
                            }
                        }
                    }
                },
            }
        }
        BrowseClick::Nothing
    }

    /// A click at (`x`, `y`) on the Browse page drawn in `content`: the
    /// page's sections are laid out, the tab bar is hit-tested, and the click
    /// is handled as `click_at` describes.
    pub fn handle_click(&mut self, content: Rect, x: u16, y: u16, repeat: bool) -> (r: BrowseClick)
        ensures
            click_outcome(
                *old(self),
                browse_layout(content),
                y,
                tab_under(browse_layout(content).tabs.x, x),
                repeat,
                *final(self),
                r,
            ),
    {
        let areas = browse_areas(content);
        let hit = tab_at_column(areas.tabs.x, x);
        self.click_at(areas, y, hit, repeat)
    }
}

/// Longest gap, in milliseconds, between two clicks on one cell that counts
/// as a repeated click.
pub const REPEAT_CLICK_MS: u64 = 500;

/// A click at (`x`, `y`) repeats the previous click when that one was on the
/// same cell less than the repeat interval ago (`last` holds its cell and the
/// milliseconds since it).
pub fn is_repeat_click(last: Option<(u16, u16, u64)>, x: u16, y: u16) -> (r: bool)
    ensures
        r == (last matches Some((lx, ly, ms)) && lx == x && ly == y && ms < REPEAT_CLICK_MS),
{
    match last {
        Some((lx, ly, ms)) => lx == x && ly == y && ms < REPEAT_CLICK_MS,
        None => false,
    }
}

} // verus!
