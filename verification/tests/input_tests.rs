use ferrosonic::input::{
    adjusted_volume, clamp_volume, filter_search_due, hotkeys_overlay_action, route_key,
    tick_millis, HotkeysOverlayAction, KeyAction, KeyCode, KeyContext, KeyEvent, KeyEventKind,
    RadioAction, MOD_CONTROL, MOD_NONE, MOD_SHIFT,
};
use ferrosonic::models::InternetRadioStation;
use ferrosonic::state::{move_selection_down, move_selection_up, Page, RadioState};

fn station(id: &str, name: &str) -> InternetRadioStation {
    InternetRadioStation {
        id: id.to_string(),
        name: name.to_string(),
        stream_url: "https://example.com/stream".to_string(),
        home_page_url: None,
        cover_art: None,
    }
}

fn ctx(page: Page) -> KeyContext {
    KeyContext {
        page,
        show_hotkeys: false,
        server_field: 3,
        artists_filter_active: false,
        browse_filter_active: false,
    }
}

#[test]
fn overlay_allows_close_keys() {
    let esc = KeyEvent::new(KeyCode::Esc, MOD_NONE);
    let qmark = KeyEvent::new(KeyCode::Char('?'), MOD_NONE);
    assert_eq!(hotkeys_overlay_action(esc), HotkeysOverlayAction::Close);
    assert_eq!(hotkeys_overlay_action(qmark), HotkeysOverlayAction::Close);
}

#[test]
fn overlay_allows_quit_key() {
    let quit = KeyEvent::new(KeyCode::Char('q'), MOD_NONE);
    assert_eq!(hotkeys_overlay_action(quit), HotkeysOverlayAction::Quit);
}

#[test]
fn overlay_ignores_other_keys() {
    let down = KeyEvent::new(KeyCode::Down, MOD_NONE);
    let vol = KeyEvent::new(KeyCode::Char('-'), MOD_NONE);
    assert_eq!(hotkeys_overlay_action(down), HotkeysOverlayAction::Ignore);
    assert_eq!(hotkeys_overlay_action(vol), HotkeysOverlayAction::Ignore);
}

#[test]
fn overlay_question_mark_with_shift_closes() {
    let key = KeyEvent::new(KeyCode::Char('?'), MOD_SHIFT);
    assert_eq!(hotkeys_overlay_action(key), HotkeysOverlayAction::Close);
    let ctrl_q = KeyEvent::new(KeyCode::Char('q'), MOD_CONTROL);
    assert_eq!(hotkeys_overlay_action(ctrl_q), HotkeysOverlayAction::Ignore);
}

#[test]
fn radio_selection_moves_with_bounds() {
    assert_eq!(move_selection_up(None, 0), None);
    assert_eq!(move_selection_down(None, 0), None);
    assert_eq!(move_selection_up(None, 3), Some(0));
    assert_eq!(move_selection_down(None, 3), Some(0));
    assert_eq!(move_selection_up(Some(0), 3), Some(0));
    assert_eq!(move_selection_up(Some(2), 3), Some(1));
    assert_eq!(move_selection_down(Some(0), 3), Some(1));
    assert_eq!(move_selection_down(Some(2), 3), Some(2));
}

#[test]
fn selected_station_returns_cloned_station() {
    let mut radio = RadioState::default();
    radio.stations = vec![station("id-1", "Station")];
    radio.selected = Some(0);

    let station = radio.selected_station().expect("station expected");
    assert_eq!(station.id, "id-1");
    assert_eq!(station.name, "Station");
}

#[test]
fn selected_station_out_of_range_is_none() {
    let mut radio = RadioState::default();
    radio.stations = vec![station("id-1", "Station")];
    radio.selected = Some(1);
    assert!(radio.selected_station().is_none());
    radio.selected = None;
    assert!(radio.selected_station().is_none());
}

#[test]
fn selection_down_then_up_returns() {
    let start = Some(1);
    let down = move_selection_down(start, 4);
    assert_eq!(down, Some(2));
    assert_eq!(move_selection_up(down, 4), start);
}

#[test]
fn radio_keys_move_and_play() {
    let mut radio = RadioState::default();
    radio.load_stations(vec![station("a", "A"), station("b", "B")]);
    assert_eq!(radio.selected, Some(0));
    assert_eq!(radio.handle_key(KeyCode::Char('j'), None), RadioAction::Nothing);
    assert_eq!(radio.selected, Some(1));
    assert_eq!(radio.handle_key(KeyCode::Down, None), RadioAction::Nothing);
    assert_eq!(radio.selected, Some(1));
    assert_eq!(radio.handle_key(KeyCode::Up, None), RadioAction::Nothing);
    assert_eq!(radio.selected, Some(0));
    assert_eq!(radio.handle_key(KeyCode::Enter, None), RadioAction::Play(station("a", "A")));
    // Space plays a station that is not the current one ...
    assert_eq!(
        radio.handle_key(KeyCode::Char(' '), Some("b")),
        RadioAction::Play(station("a", "A"))
    );
    // ... and pauses/resumes the one that is.
    assert_eq!(radio.handle_key(KeyCode::Char(' '), Some("a")), RadioAction::TogglePause);
    assert_eq!(radio.handle_key(KeyCode::Char('x'), None), RadioAction::Nothing);
}

#[test]
fn radio_keys_without_stations() {
    let mut radio = RadioState::default();
    radio.load_stations(Vec::new());
    assert_eq!(radio.selected, None);
    assert_eq!(radio.handle_key(KeyCode::Enter, None), RadioAction::Nothing);
    assert_eq!(radio.handle_key(KeyCode::Char(' '), None), RadioAction::TogglePause);
    assert_eq!(radio.handle_key(KeyCode::Char('k'), None), RadioAction::Nothing);
    assert_eq!(radio.selected, None);
}

#[test]
fn hotkey_menu_takes_every_key() {
    let mut c = ctx(Page::Queue);
    c.show_hotkeys = true;
    assert_eq!(route_key(c, KeyEvent::new(KeyCode::Esc, MOD_NONE)), KeyAction::CloseHotkeys);
    assert_eq!(route_key(c, KeyEvent::new(KeyCode::Char('?'), MOD_NONE)), KeyAction::CloseHotkeys);
    assert_eq!(route_key(c, KeyEvent::new(KeyCode::Char('q'), MOD_NONE)), KeyAction::Quit);
    assert_eq!(route_key(c, KeyEvent::new(KeyCode::Char('p'), MOD_NONE)), KeyAction::Ignore);
    assert_eq!(route_key(c, KeyEvent::new(KeyCode::F(2), MOD_NONE)), KeyAction::Ignore);
}

#[test]
fn global_bindings() {
    let c = ctx(Page::Queue);
    let k = |code, m| route_key(c, KeyEvent::new(code, m));
    assert_eq!(k(KeyCode::Char('q'), MOD_NONE), KeyAction::Quit);
    assert_eq!(k(KeyCode::Char('p'), MOD_NONE), KeyAction::TogglePause);
    assert_eq!(k(KeyCode::Char(' '), MOD_NONE), KeyAction::TogglePause);
    assert_eq!(k(KeyCode::Char('l'), MOD_NONE), KeyAction::NextTrack);
    assert_eq!(k(KeyCode::Char('h'), MOD_NONE), KeyAction::PrevTrack);
    assert_eq!(k(KeyCode::Char('t'), MOD_NONE), KeyAction::CycleTheme);
    assert_eq!(k(KeyCode::Char('r'), MOD_CONTROL), KeyAction::Refresh);
    assert_eq!(k(KeyCode::Char('r'), MOD_NONE), KeyAction::PageKeys(Page::Queue));
    assert_eq!(k(KeyCode::Char('?'), MOD_SHIFT), KeyAction::ToggleHotkeys);
    assert_eq!(k(KeyCode::Char('-'), MOD_NONE), KeyAction::AdjustVolume(-2));
    assert_eq!(k(KeyCode::Char('+'), MOD_NONE), KeyAction::AdjustVolume(2));
    assert_eq!(k(KeyCode::Char('+'), MOD_SHIFT), KeyAction::AdjustVolume(2));
    assert_eq!(k(KeyCode::Char('='), MOD_NONE), KeyAction::AdjustVolume(2));
    assert_eq!(k(KeyCode::Char('d'), MOD_NONE), KeyAction::PageKeys(Page::Queue));
    assert_eq!(k(KeyCode::Enter, MOD_NONE), KeyAction::PageKeys(Page::Queue));
}

#[test]
fn function_keys_switch_pages() {
    let c = ctx(Page::Queue);
    let pages = [
        Page::Browse,
        Page::Artists,
        Page::Queue,
        Page::Playlists,
        Page::Radio,
        Page::Server,
        Page::Settings,
    ];
    for (i, p) in pages.iter().enumerate() {
        let key = KeyEvent::new(KeyCode::F(i as u8 + 1), MOD_NONE);
        assert_eq!(route_key(c, key), KeyAction::SwitchPage(*p));
        assert_eq!(p.shortcut(), format!("F{}", i + 1));
        assert_eq!(p.index(), i);
    }
    assert_eq!(route_key(c, KeyEvent::new(KeyCode::F(8), MOD_NONE)), KeyAction::PageKeys(Page::Queue));
}

#[test]
fn space_on_radio_goes_to_the_page() {
    let c = ctx(Page::Radio);
    assert_eq!(
        route_key(c, KeyEvent::new(KeyCode::Char(' '), MOD_NONE)),
        KeyAction::PageKeys(Page::Radio)
    );
    assert_eq!(route_key(c, KeyEvent::new(KeyCode::Char('p'), MOD_NONE)), KeyAction::TogglePause);
}

#[test]
fn text_fields_keep_their_keys() {
    let mut c = ctx(Page::Server);
    c.server_field = 1;
    for ch in ['-', '+', '=', '?', 'q'] {
        assert_eq!(
            route_key(c, KeyEvent::new(KeyCode::Char(ch), MOD_NONE)),
            KeyAction::PageKeys(Page::Server)
        );
    }
    assert_eq!(route_key(c, KeyEvent::new(KeyCode::F(1), MOD_NONE)), KeyAction::SwitchPage(Page::Browse));
    c.server_field = 3;
    assert_eq!(route_key(c, KeyEvent::new(KeyCode::Char('q'), MOD_NONE)), KeyAction::Quit);

    let mut a = ctx(Page::Artists);
    a.artists_filter_active = true;
    assert_eq!(
        route_key(a, KeyEvent::new(KeyCode::F(1), MOD_NONE)),
        KeyAction::PageKeys(Page::Artists)
    );
    let mut b = ctx(Page::Browse);
    b.browse_filter_active = true;
    assert_eq!(
        route_key(b, KeyEvent::new(KeyCode::Char('q'), MOD_NONE)),
        KeyAction::PageKeys(Page::Browse)
    );
    // The Browse filter flag does not matter on another page.
    let mut q = ctx(Page::Queue);
    q.browse_filter_active = true;
    assert_eq!(route_key(q, KeyEvent::new(KeyCode::Char('q'), MOD_NONE)), KeyAction::Quit);
}

#[test]
fn only_key_presses_are_handled() {
    let mut key = KeyEvent::new(KeyCode::Char('q'), MOD_NONE);
    assert!(key.is_press());
    key.kind = KeyEventKind::Release;
    assert!(!key.is_press());
    key.kind = KeyEventKind::Repeat;
    assert!(!key.is_press());
}

#[test]
fn volume_steps_are_clamped() {
    assert_eq!(adjusted_volume(50, -2), 48);
    assert_eq!(adjusted_volume(50, 2), 52);
    assert_eq!(adjusted_volume(1, -2), 0);
    assert_eq!(adjusted_volume(99, 2), 100);
    assert_eq!(adjusted_volume(100, 2), 100);
    assert_eq!(adjusted_volume(i32::MAX, 2), 100);
    assert_eq!(adjusted_volume(i32::MIN, -2), 0);
    assert_eq!(adjusted_volume(adjusted_volume(40, 2), -2), 40);
    assert_eq!(clamp_volume(-5), 0);
    assert_eq!(clamp_volume(150), 100);
    assert_eq!(clamp_volume(73), 73);
}

#[test]
fn loop_timing() {
    assert_eq!(tick_millis(true), 16);
    assert_eq!(tick_millis(false), 100);
    assert!(!filter_search_due(299));
    assert!(filter_search_due(300));
}
