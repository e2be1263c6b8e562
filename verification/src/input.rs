//! Keyboard input: the key model, what a key press asks the application to
//! do, and the Radio page's key handling.
use vstd::prelude::*;

use crate::models::InternetRadioStation;
use crate::state::{
    move_selection_down, move_selection_up, select_down, select_up, station_at, Page, RadioState,
};
use crate::text::text_equals;

verus! {

/// A key of the keyboard.
#[derive(Debug, Clone, Copy, PartialEq, Eq, Structural)]
pub enum KeyCode {
    Backspace,
    Enter,
    Left,
    Right,
    Up,
    Down,
    Home,
    End,
    PageUp,
    PageDown,
    Tab,
    BackTab,
    Delete,
    Insert,
    /// Function key `F(n)`.
    F(u8),
    Char(char),
    Null,
    Esc,
    /// Any other key (lock keys, media keys, lone modifier keys, ...).
    Other,
}

/// No modifier held.
pub const MOD_NONE: u8 = 0;
/// Shift held.
pub const MOD_SHIFT: u8 = 1;
/// Control held.
pub const MOD_CONTROL: u8 = 2;
/// Alt held.
pub const MOD_ALT: u8 = 4;

/// Whether the key went down, repeats or went up.
#[derive(Debug, Clone, Copy, PartialEq, Eq, Structural)]
pub enum KeyEventKind {
    Press,
    Repeat,
    Release,
}

/// A key event: the key and the set of modifiers held (a bit set of the
/// `MOD_*` flags).
#[derive(Debug, Clone, Copy, PartialEq, Eq, Structural)]
pub struct KeyEvent {
    pub code: KeyCode,
    pub modifiers: u8,
    pub kind: KeyEventKind,
}

impl KeyEvent {
    /// Only key presses are handled; releases and repeats are not.
    pub fn is_press(&self) -> (r: bool)
        ensures
            r == (self.kind == KeyEventKind::Press),
    {
        self.kind == KeyEventKind::Press
    }

    /// A key press.
    pub fn new(code: KeyCode, modifiers: u8) -> (r: KeyEvent)
        ensures
            r == (KeyEvent { code, modifiers, kind: KeyEventKind::Press }),
    {
        KeyEvent { code, modifiers, kind: KeyEventKind::Press }
    }
}

/// What a key does while the hotkey menu is open.
#[derive(Debug, Clone, Copy, PartialEq, Eq, Structural)]
pub enum HotkeysOverlayAction {
    Close,
    Quit,
    Ignore,
}

/// Esc, or `?` alone or with Shift, closes the menu; `q` alone quits; every
/// other key is ignored.
pub open spec fn overlay_action(key: KeyEvent) -> HotkeysOverlayAction {
    if key.code == KeyCode::Esc || (key.code == KeyCode::Char('?') && (key.modifiers == MOD_NONE
        || key.modifiers == MOD_SHIFT)) {
        HotkeysOverlayAction::Close
    } else if key.code == KeyCode::Char('q') && key.modifiers == MOD_NONE {
        HotkeysOverlayAction::Quit
    } else {
        HotkeysOverlayAction::Ignore
    }
}

/// What a key does while the hotkey menu is open.
pub fn hotkeys_overlay_action(key: KeyEvent) -> (r: HotkeysOverlayAction)
    ensures
        r == overlay_action(key),
{
    match (key.code, key.modifiers) {
        (KeyCode::Esc, _) | (KeyCode::Char('?'), MOD_NONE) | (KeyCode::Char('?'), MOD_SHIFT) => {
            HotkeysOverlayAction::Close
        },
        (KeyCode::Char('q'), MOD_NONE) => HotkeysOverlayAction::Quit,
        _ => HotkeysOverlayAction::Ignore,
    }
}

/// The parts of the application state that decide where a key goes.
#[derive(Debug, Clone, Copy, PartialEq, Eq, Structural)]
pub struct KeyContext {
    pub page: Page,
    pub show_hotkeys: bool,
    /// Focused field of the Server page (0-2 are text fields)
    pub server_field: usize,
    pub artists_filter_active: bool,
    pub browse_filter_active: bool,
}

/// What the application does with a key press.
#[derive(Debug, Clone, Copy, PartialEq, Eq, Structural)]
pub enum KeyAction {
    /// Close the hotkey menu.
    CloseHotkeys,
    /// Open or close the hotkey menu.
    ToggleHotkeys,
    Quit,
    /// Nothing happens.
    Ignore,
    /// The key goes to the page's own key handler.
    PageKeys(Page),
    SwitchPage(Page),
    TogglePause,
    NextTrack,
    PrevTrack,
    CycleTheme,
    /// Reload the data from the server.
    Refresh,
    /// Change the volume by this many percent.
    AdjustVolume(i32),
}

/// Keys are typed into a text field: a text field of the Server page (for
/// every key but the function keys) or an active filter of the Artists or
/// Browse page.
pub open spec fn typing_text(ctx: KeyContext, key: KeyEvent) -> bool {
    ||| ctx.page == Page::Server && ctx.server_field <= 2 && !(key.code is F)
    ||| ctx.page == Page::Artists && ctx.artists_filter_active
    ||| ctx.page == Page::Browse && ctx.browse_filter_active
}

/// The page that function key `n` opens.
pub open spec fn page_of_function_key(n: u8) -> Option<Page> {
    if n == 1 {
        Some(Page::Browse)
    } else if n == 2 {
        Some(Page::Artists)
    } else if n == 3 {
        Some(Page::Queue)
    } else if n == 4 {
        Some(Page::Playlists)
    } else if n == 5 {
        Some(Page::Radio)
    } else if n == 6 {
        Some(Page::Server)
    } else if n == 7 {
        Some(Page::Settings)
    } else {
        None
    }
}

/// The application-wide key bindings, on page `page`.
pub open spec fn global_binding(page: Page, key: KeyEvent) -> Option<KeyAction> {
    let plain = key.modifiers == MOD_NONE;
    let shifted = key.modifiers == MOD_SHIFT;
    match key.code {
        KeyCode::F(n) => match page_of_function_key(n) {
            Some(p) => Some(KeyAction::SwitchPage(p)),
            None => None,
        },
        KeyCode::Char(c) => if c == 'q' && plain {
            Some(KeyAction::Quit)
        } else if c == ' ' && plain && page == Page::Radio {
            Some(KeyAction::PageKeys(Page::Radio))
        } else if (c == 'p' || c == ' ') && plain {
            Some(KeyAction::TogglePause)
        } else if c == 'l' && plain {
            Some(KeyAction::NextTrack)
        } else if c == 'h' && plain {
            Some(KeyAction::PrevTrack)
        } else if c == 't' && plain {
            Some(KeyAction::CycleTheme)
        } else if c == 'r' && key.modifiers == MOD_CONTROL {
            Some(KeyAction::Refresh)
        } else if c == '?' && (plain || shifted) {
            Some(KeyAction::ToggleHotkeys)
        } else if c == '-' && plain {
            Some(KeyAction::AdjustVolume(-2i32))
        } else if (c == '+' && (plain || shifted)) || (c == '=' && plain) {
            Some(KeyAction::AdjustVolume(2i32))
        } else {
            None
        },
        _ => None,
    }
}

/// Where a key press goes: the hotkey menu, while open, takes every key; then
/// a text field being typed into; then the application-wide bindings; then
/// the current page.
pub open spec fn key_route(ctx: KeyContext, key: KeyEvent) -> KeyAction {
    if ctx.show_hotkeys {
        match overlay_action(key) {
            HotkeysOverlayAction::Close => KeyAction::CloseHotkeys,
            HotkeysOverlayAction::Quit => KeyAction::Quit,
            HotkeysOverlayAction::Ignore => KeyAction::Ignore,
        }
    } else if typing_text(ctx, key) {
        KeyAction::PageKeys(ctx.page)
    } else {
        match global_binding(ctx.page, key) {
            Some(a) => a,
            None => KeyAction::PageKeys(ctx.page),
        }
    }
}

fn page_for_function_key(n: u8) -> (r: Option<Page>)
    ensures
        r == page_of_function_key(n),
{
    match n {
        1 => Some(Page::Browse),
        2 => Some(Page::Artists),
        3 => Some(Page::Queue),
        4 => Some(Page::Playlists),
        5 => Some(Page::Radio),
        6 => Some(Page::Server),
        7 => Some(Page::Settings),
        _ => None,
    }
}

/// Decides what a key press does.
pub fn route_key(ctx: KeyContext, key: KeyEvent) -> (r: KeyAction)
    ensures
        r == key_route(ctx, key),
{
    if ctx.show_hotkeys {
        return match hotkeys_overlay_action(key) {
            HotkeysOverlayAction::Close => KeyAction::CloseHotkeys,
            HotkeysOverlayAction::Quit => KeyAction::Quit,
            HotkeysOverlayAction::Ignore => KeyAction::Ignore,
        };
    }
    let is_function_key = match key.code {
        KeyCode::F(_) => true,
        _ => false,
    };
    let is_server_text_field = ctx.page == Page::Server && ctx.server_field <= 2;
    let is_filtering = (ctx.page == Page::Artists && ctx.artists_filter_active) || (ctx.page
        == Page::Browse && ctx.browse_filter_active);
    if (is_server_text_field && !is_function_key) || is_filtering {
        return KeyAction::PageKeys(ctx.page);
    }
    let plain = key.modifiers == MOD_NONE;
    let shifted = key.modifiers == MOD_SHIFT;
    match key.code {
        KeyCode::F(n) => match page_for_function_key(n) {
            Some(p) => KeyAction::SwitchPage(p),
            None => KeyAction::PageKeys(ctx.page),
        },
        KeyCode::Char(c) => {
            if c == 'q' && plain {
                KeyAction::Quit
            } else if c == ' ' && plain && ctx.page == Page::Radio {
                KeyAction::PageKeys(Page::Radio)
            } else if (c == 'p' || c == ' ') && plain {
                KeyAction::TogglePause
            } else if c == 'l' && plain {
                KeyAction::NextTrack
            } else if c == 'h' && plain {
                KeyAction::PrevTrack
            } else if c == 't' && plain {
                KeyAction::CycleTheme
            } else if c == 'r' && key.modifiers == MOD_CONTROL {
                KeyAction::Refresh
            } else if c == '?' && (plain || shifted) {
                KeyAction::ToggleHotkeys
            } else if c == '-' && plain {
                KeyAction::AdjustVolume(-2)
            } else if (c == '+' && (plain || shifted)) || (c == '=' && plain) {
                KeyAction::AdjustVolume(2)
            } else {
                KeyAction::PageKeys(ctx.page)
            }
        },
        _ => KeyAction::PageKeys(ctx.page),
    }
}

/// What the Radio page does with a key.
#[derive(Debug, Clone, PartialEq)]
pub enum RadioAction {
    /// Nothing beyond the selection change already made.
    Nothing,
    /// Start playing this station.
    Play(InternetRadioStation),
    /// Pause or resume playback.
    TogglePause,
}

/// The station is the one now playing.
pub open spec fn is_current_station(
    station: InternetRadioStation,
    current_id: Option<Seq<char>>,
) -> bool {
    current_id == Some(station.id@)
}

impl RadioState {
    /// Handles a key on the Radio page, given the id of the station now
    /// playing: Up/`k` and Down/`j` move the selection; Enter plays the
    /// selected station; Space plays the selected station unless it is the
    /// one playing, in which case (or with no station selected) it pauses or
    /// resumes.
    pub fn handle_key(&mut self, code: KeyCode, current_id: Option<&str>) -> (r: RadioAction)
        ensures
            final(self).stations == old(self).stations,
            final(self).scroll_offset == old(self).scroll_offset,
            code == KeyCode::Up || code == KeyCode::Char('k') ==> final(self).selected
                == select_up(old(self).selected, old(self).stations@.len()) && r
                == RadioAction::Nothing,
            code == KeyCode::Down || code == KeyCode::Char('j') ==> final(self).selected
                == select_down(old(self).selected, old(self).stations@.len()) && r
                == RadioAction::Nothing,
            !(code == KeyCode::Up || code == KeyCode::Char('k') || code == KeyCode::Down || code
                == KeyCode::Char('j')) ==> final(self).selected == old(self).selected,
            code == KeyCode::Enter ==> r == match station_at(old(self).stations@, old(self).selected) {
                Some(st) => RadioAction::Play(st),
                None => RadioAction::Nothing,
            },
            code == KeyCode::Char(' ') ==> r == match station_at(
                old(self).stations@,
                old(self).selected,
            ) {
                Some(st) => if is_current_station(
                    st,
                    match current_id {
                        Some(id) => Some(id@),
                        None => None,
                    },
                ) {
                    RadioAction::TogglePause
                } else {
                    RadioAction::Play(st)
                },
                None => RadioAction::TogglePause,
            },
            !(code == KeyCode::Up || code == KeyCode::Char('k') || code == KeyCode::Down || code
                == KeyCode::Char('j') || code == KeyCode::Enter || code == KeyCode::Char(' ')) ==> r
                == RadioAction::Nothing,
    {
        match code {
            KeyCode::Up | KeyCode::Char('k') => {
                self.selected = move_selection_up(self.selected, self.stations.len());
                RadioAction::Nothing
            },
            KeyCode::Down | KeyCode::Char('j') => {
                self.selected = move_selection_down(self.selected, self.stations.len());
                RadioAction::Nothing
            },
            KeyCode::Enter => match self.selected_station() {
                Some(station) => RadioAction::Play(station),
                None => RadioAction::Nothing,
            },
            KeyCode::Char(' ') => match self.selected_station() {
                Some(station) => {
                    let is_current = match current_id {
                        Some(id) => text_equals(id, station.id.as_str()),
                        None => false,
                    };
                    if is_current {
                        RadioAction::TogglePause
                    } else {
                        RadioAction::Play(station)
                    }
                },
                None => RadioAction::TogglePause,
            },
            _ => RadioAction::Nothing,
        }
    }
}

/// Lowest volume, in percent.
pub const VOLUME_MIN: i32 = 0;
/// Highest volume, in percent.
pub const VOLUME_MAX: i32 = 100;

/// A volume kept within 0..=100 percent.
pub open spec fn clamped_volume(v: int) -> int {
    if v < VOLUME_MIN {
        VOLUME_MIN as int
    } else if v > VOLUME_MAX {
        VOLUME_MAX as int
    } else {
        v
    }
}

/// A requested volume kept within 0..=100 percent.
pub fn clamp_volume(v: i32) -> (r: i32)
    ensures
        r == clamped_volume(v as int),
{
    if v < VOLUME_MIN {
        VOLUME_MIN
    } else if v > VOLUME_MAX {
        VOLUME_MAX
    } else {
        v
    }
}

/// The volume after a step of `delta` percent from `current`, kept within
/// 0..=100.
pub fn adjusted_volume(current: i32, delta: i32) -> (r: i32)
    ensures
        r == clamped_volume(current + delta),
{
    let sum: i64 = current as i64 + delta as i64;
    if sum < VOLUME_MIN as i64 {
        VOLUME_MIN
    } else if sum > VOLUME_MAX as i64 {
        VOLUME_MAX
    } else {
        sum as i32
    }
}

/// Milliseconds between redraws: about 60 frames a second while the
/// visualizer runs, ten otherwise.
pub fn tick_millis(visualizer_active: bool) -> (r: u64)
    ensures
        r == (if visualizer_active {
            16u64
        } else {
            100u64
        }),
{
    if visualizer_active {
        16
    } else {
        100
    }
}

/// Milliseconds after the last filter keystroke before the server is searched.
pub const FILTER_DEBOUNCE_MS: u64 = 300;

/// The server search for the filter text is due once the filter has not
/// changed for the debounce interval.
pub fn filter_search_due(elapsed_ms: u64) -> (r: bool)
    ensures
        r == (elapsed_ms >= FILTER_DEBOUNCE_MS),
{
    elapsed_ms >= FILTER_DEBOUNCE_MS
}

/// Milliseconds between two reads of the playback position from the player.
pub const PLAYBACK_UPDATE_MS: u64 = 500;

/// The playback position is read again once the interval has passed since
/// the last read.
pub fn playback_update_due(elapsed_ms: u64) -> (r: bool)
    ensures
        r == (elapsed_ms >= PLAYBACK_UPDATE_MS),
{
    elapsed_ms >= PLAYBACK_UPDATE_MS
}

} // verus!
