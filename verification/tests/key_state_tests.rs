use ferrosonic::input::{playback_update_due, KeyAction, KeyCode, KeyContext, KeyEvent, MOD_NONE, MOD_SHIFT};
use ferrosonic::key_state::{apply_key, KeyState, Notice};
use ferrosonic::models::InternetRadioStation;
use ferrosonic::state::{Page, RadioState, SettingsState};
use ferrosonic::subsonic::SubsonicError;
use ferrosonic::theme::ThemeData;

fn themed(names: &[&str]) -> SettingsState {
    let mut s = SettingsState::default();
    s.themes = names
        .iter()
        .map(|n| {
            let mut t = ThemeData::default_theme();
            t.name = n.to_string();
            t
        })
        .collect();
    s
}

fn key_state(page: Page, show_hotkeys: bool, volume: i32) -> KeyState {
    KeyState {
        context: KeyContext {
            page,
            show_hotkeys,
            server_field: 3,
            artists_filter_active: false,
            browse_filter_active: false,
        },
        should_quit: false,
        volume,
        settings: themed(&["Default", "Nord"]),
        config_theme: "Default".to_string(),
        notice: Some(Notice { message: "old".to_string(), is_error: true }),
    }
}

#[test]
fn quit_with_the_help_menu_open_keeps_the_rest() {
    let (s, a) = apply_key(key_state(Page::Queue, true, 40), KeyEvent::new(KeyCode::Char('q'), MOD_NONE));
    assert_eq!(a, KeyAction::Quit);
    assert!(s.should_quit);
    assert!(s.context.show_hotkeys);
    assert_eq!(s.context.page, Page::Queue);
    assert_eq!(s.volume, 40);
    assert!(s.notice.is_none());
}

#[test]
fn help_menu_closes_and_ignores_other_keys() {
    let (s, a) = apply_key(key_state(Page::Radio, true, 40), KeyEvent::new(KeyCode::Esc, MOD_NONE));
    assert_eq!(a, KeyAction::CloseHotkeys);
    assert!(!s.context.show_hotkeys);
    assert!(!s.should_quit);
    let (s, a) = apply_key(key_state(Page::Radio, true, 40), KeyEvent::new(KeyCode::Char('-'), MOD_NONE));
    assert_eq!(a, KeyAction::Ignore);
    assert!(s.context.show_hotkeys);
    assert_eq!(s.context.page, Page::Radio);
    assert_eq!(s.volume, 40);
    assert_eq!(s.settings.theme_index, 0);
    assert!(s.notice.is_none());
}

#[test]
fn volume_keys_step_by_two_and_notify() {
    let (s, a) = apply_key(key_state(Page::Queue, false, 50), KeyEvent::new(KeyCode::Char('-'), MOD_NONE));
    assert_eq!(a, KeyAction::AdjustVolume(-2));
    assert_eq!(s.volume, 48);
    let n = s.notice.unwrap();
    assert_eq!(n.message, "Volume: 48%");
    assert!(!n.is_error);
    let (s, _) = apply_key(key_state(Page::Queue, false, 99), KeyEvent::new(KeyCode::Char('+'), MOD_SHIFT));
    assert_eq!(s.volume, 100);
    assert_eq!(s.notice.unwrap().message, "Volume: 100%");
    let (s, _) = apply_key(key_state(Page::Queue, false, 1), KeyEvent::new(KeyCode::Char('-'), MOD_NONE));
    assert_eq!(s.volume, 0);
    assert_eq!(s.notice.unwrap().message, "Volume: 0%");
}

#[test]
fn theme_key_cycles_records_and_notifies() {
    let (s, a) = apply_key(key_state(Page::Queue, false, 50), KeyEvent::new(KeyCode::Char('t'), MOD_NONE));
    assert_eq!(a, KeyAction::CycleTheme);
    assert_eq!(s.settings.theme_index, 1);
    assert_eq!(s.config_theme, "Nord");
    assert_eq!(s.notice.as_ref().unwrap().message, "Theme: Nord");
    let (s, _) = apply_key(s, KeyEvent::new(KeyCode::Char('t'), MOD_NONE));
    assert_eq!(s.settings.theme_index, 0);
    assert_eq!(s.config_theme, "Default");
}

#[test]
fn function_key_switches_page_and_clears_the_notification() {
    let (s, a) = apply_key(key_state(Page::Queue, false, 50), KeyEvent::new(KeyCode::F(5), MOD_NONE));
    assert_eq!(a, KeyAction::SwitchPage(Page::Radio));
    assert_eq!(s.context.page, Page::Radio);
    assert!(s.notice.is_none());
    let (s, a) = apply_key(key_state(Page::Queue, false, 50), KeyEvent::new(KeyCode::Char('r'), ferrosonic::input::MOD_CONTROL));
    assert_eq!(a, KeyAction::Refresh);
    assert_eq!(s.notice.unwrap().message, "Refreshing...");
}

#[test]
fn station_loading_outcomes() {
    let mut r = RadioState::default();
    let st = InternetRadioStation {
        id: "1".to_string(),
        name: "One".to_string(),
        stream_url: "https://example.com/one".to_string(),
        home_page_url: None,
        cover_art: None,
    };
    assert_eq!(r.finish_loading(Ok(vec![st.clone()])), Ok(1));
    assert_eq!(r.selected, Some(0));
    assert_eq!(r.stations.len(), 1);
    let err = SubsonicError::Http("down".to_string());
    assert_eq!(r.finish_loading(Err(err)), Err(SubsonicError::Http("down".to_string())));
    assert_eq!(r.stations.len(), 1);
    assert_eq!(r.selected, Some(0));
    assert_eq!(r.finish_loading(Ok(Vec::new())), Ok(0));
    assert_eq!(r.selected, None);
}

#[test]
fn playback_position_is_read_every_half_second() {
    assert!(!playback_update_due(499));
    assert!(playback_update_due(500));
    assert!(playback_update_due(1200));
}
