//! What a key press changes in the application state before a page handler
//! or the audio player takes over.
use vstd::prelude::*;

use crate::input::{adjusted_volume, clamped_volume, key_route, route_key, KeyAction, KeyContext, KeyEvent};
use crate::state::{next_index, SettingsState};
use crate::text::{decimal, push_decimal};

verus! {

broadcast use vstd::string::group_string_axioms;

/// A message for the footer: its text and whether it reports an error.
#[derive(Debug, Clone)]
pub struct Notice {
    pub message: String,
    pub is_error: bool,
}

/// The part of the application state that the application-wide key handling
/// reads and changes.
#[derive(Debug, Clone)]
pub struct KeyState {
    /// Page, hotkey menu and text-entry flags: where a key goes.
    pub context: KeyContext,
    pub should_quit: bool,
    /// Playback volume, percent.
    pub volume: i32,
    pub settings: SettingsState,
    /// Name of the theme recorded in the configuration.
    pub config_theme: String,
    /// The notification on screen, if any.
    pub notice: Option<Notice>,
}

/// Page and hotkey menu after `action`.
pub open spec fn context_after(c: KeyContext, action: KeyAction) -> KeyContext {
    match action {
        KeyAction::CloseHotkeys => KeyContext { show_hotkeys: false, ..c },
        KeyAction::ToggleHotkeys => KeyContext { show_hotkeys: !c.show_hotkeys, ..c },
        KeyAction::SwitchPage(p) => KeyContext { page: p, ..c },
        _ => c,
    }
}

/// The volume after `action`.
pub open spec fn volume_after(volume: i32, action: KeyAction) -> int {
    match action {
        KeyAction::AdjustVolume(d) => clamped_volume(volume + d),
        _ => volume as int,
    }
}

/// The theme index after `action`.
pub open spec fn theme_index_after(settings: SettingsState, action: KeyAction) -> int {
    match action {
        KeyAction::CycleTheme => next_index(
            settings.theme_index as int,
            settings.themes@.len() as int,
        ),
        _ => settings.theme_index as int,
    }
}

/// The notification a key press leaves on screen: the previous one is always
/// cleared; cycling the theme names the new theme, a volume step gives the new
/// volume, a refresh says that it is under way.
pub open spec fn notice_after(s: KeyState, action: KeyAction) -> Option<Seq<char>> {
    match action {
        KeyAction::CycleTheme => Some(
            "Theme: "@ + s.settings.themes@[theme_index_after(s.settings, action)].name@,
        ),
        KeyAction::AdjustVolume(_) => Some(
            "Volume: "@ + decimal(volume_after(s.volume, action) as nat) + "%"@,
        ),
        KeyAction::Refresh => Some("Refreshing..."@),
        _ => None,
    }
}

/// Applies a key press to the state: routes it (`key_route`), clears the
/// notification, and makes the changes that the chosen action makes here.
/// What remains to be done (page handlers, the player, loading data) is
/// named by the returned action.
pub fn apply_key(s: KeyState, key: KeyEvent) -> (r: (KeyState, KeyAction))
    requires
        key_route(s.context, key) == KeyAction::CycleTheme ==> s.settings.wf(),
    ensures
        r.1 == key_route(s.context, key),
        r.0.context == context_after(s.context, r.1),
        r.0.should_quit == (s.should_quit || r.1 == KeyAction::Quit),
        r.0.volume == volume_after(s.volume, r.1),
        r.0.settings == (SettingsState {
            theme_index: theme_index_after(s.settings, r.1) as usize,
            ..s.settings
        }),
        r.1 == KeyAction::CycleTheme ==> r.0.settings.wf() && r.0.config_theme@
            == r.0.settings.themes@[r.0.settings.theme_index as int].name@,
        r.1 != KeyAction::CycleTheme ==> r.0.config_theme == s.config_theme,
        r.0.notice is Some <==> notice_after(s, r.1) is Some,
        r.0.notice matches Some(n) ==> n.message@ == notice_after(s, r.1)->0 && !n.is_error,
{
    let mut s = s;
    let ghost old_s = s;
    let action = route_key(s.context, key);
    s.notice = None;
    match action {
        KeyAction::CloseHotkeys => {
            s.context.show_hotkeys = false;
        },
        KeyAction::ToggleHotkeys => {
            s.context.show_hotkeys = !s.context.show_hotkeys;
        },
        KeyAction::Quit => {
            s.should_quit = true;
        },
        KeyAction::SwitchPage(p) => {
            s.context.page = p;
        },
        KeyAction::CycleTheme => {
            s.settings.next_theme();
            let name = s.settings.theme_name();
            let mut message = String::from_str("Theme: ");
            message.append(name);
            s.config_theme = String::from_str(name);
            s.notice = Some(Notice { message, is_error: false });
        },
        KeyAction::Refresh => {
            s.notice = Some(Notice { message: String::from_str("Refreshing..."), is_error: false });
        },
        KeyAction::AdjustVolume(d) => {
            let v = adjusted_volume(s.volume, d);
            s.volume = v;
            let mut message = String::from_str("Volume: ");
            push_decimal(&mut message, v as u64);
            message.append("%");
            s.notice = Some(Notice { message, is_error: false });
        },
        _ => {},
    }
    proof {
        assert(s.settings == (SettingsState {
            theme_index: theme_index_after(old_s.settings, action) as usize,
            ..old_s.settings
        }));
    }
    (s, action)
}

} // verus!
