use ferrosonic::config::Config;
use ferrosonic::hotkeys::Rect;
use ferrosonic::layout::{is_repeat_click, tab_at_column, BrowseAreas, BrowseClick};
use ferrosonic::models::{Album, Artist, Child};
use ferrosonic::queue::{song_at, QueuePersist};
use ferrosonic::state::{
    notification_expired, ArtistsState, BrowseState, BrowseTab, Notification, Page, ServerState,
    SettingsState, SongOption, ALL_ALBUMS_PAGE_SIZE, ALL_SONGS_PAGE_SIZE,
};
use ferrosonic::theme::ThemeData;

fn song(id: &str, title: &str, artist: Option<&str>, album: Option<&str>) -> Child {
    Child {
        id: id.to_string(),
        title: title.to_string(),
        artist: artist.map(|s| s.to_string()),
        album: album.map(|s| s.to_string()),
        ..Default::default()
    }
}

fn album(id: &str, name: &str, artist: Option<&str>) -> Album {
    Album {
        id: id.to_string(),
        name: name.to_string(),
        artist: artist.map(|s| s.to_string()),
        ..Default::default()
    }
}

fn ids(songs: &[Child]) -> Vec<&str> {
    songs.iter().map(|s| s.id.as_str()).collect()
}

fn theme(name: &str) -> ThemeData {
    let mut t = ThemeData::default_theme();
    t.name = name.to_string();
    t
}

#[test]
fn page_labels_and_indices() {
    assert_eq!(Page::Browse.label(), "Browse");
    assert_eq!(Page::Radio.label(), "Radio");
    assert_eq!(Page::Settings.label(), "Settings");
    assert_eq!(Page::Radio.index(), 4);
    assert_eq!(Page::Server.shortcut(), "F6");
    assert_eq!(Page::default(), Page::Browse);
}

#[test]
fn song_filter_matches_title_artist_album_case_insensitively() {
    let mut b = BrowseState::default();
    b.backing_songs = vec![
        song("1", "Hello World", Some("Alice"), None),
        song("2", "Other", Some("BOB"), Some("Greatest")),
        song("3", "Nothing", None, Some("Hits")),
    ];
    b.filter = "bob".to_string();
    b.scroll_offset = 7;
    b.apply_filter();
    assert_eq!(ids(&b.songs), vec!["2"]);
    assert_eq!(b.selected_index, Some(0));
    assert_eq!(b.scroll_offset, 0);

    b.filter = "WORLD".to_string();
    b.apply_filter();
    assert_eq!(ids(&b.songs), vec!["1"]);

    b.filter = "hit".to_string();
    b.apply_filter();
    assert_eq!(ids(&b.songs), vec!["3"]);

    b.filter = "o".to_string();
    b.apply_filter();
    assert_eq!(ids(&b.songs), vec!["1", "2", "3"]);

    b.filter = "zzz".to_string();
    b.apply_filter();
    assert!(b.songs.is_empty());
    assert_eq!(b.selected_index, None);
}

#[test]
fn empty_filter_shows_everything() {
    let mut b = BrowseState::default();
    b.backing_songs = vec![song("1", "A", None, None), song("2", "B", None, None)];
    b.apply_filter();
    assert_eq!(ids(&b.songs), vec!["1", "2"]);
    // Filtering twice gives the same list.
    b.apply_filter();
    assert_eq!(ids(&b.songs), vec!["1", "2"]);
}

#[test]
fn narrowing_the_filter_never_adds_songs_or_albums() {
    let mut b = BrowseState::default();
    b.backing_songs = vec![
        song("1", "Blue Moon", Some("Elvis"), None),
        song("2", "Bluebird", None, Some("Wings")),
        song("3", "Red", Some("Blues Band"), None),
        song("4", "Green", None, None),
    ];
    b.backing_albums = vec![
        album("a", "Blue Train", None),
        album("b", "Bluest", Some("Someone")),
        album("c", "Other", Some("BLUE Group")),
    ];
    b.filter = "blu".to_string();
    b.apply_filter();
    b.apply_album_filter();
    let wide_songs: Vec<String> = ids(&b.songs).iter().map(|s| s.to_string()).collect();
    let wide_albums: Vec<String> = b.albums.iter().map(|a| a.id.clone()).collect();
    assert_eq!(wide_songs, vec!["1", "2", "3"]);
    assert_eq!(wide_albums, vec!["a", "b", "c"]);

    b.filter = "BLUES".to_string();
    b.apply_filter();
    b.apply_album_filter();
    assert_eq!(ids(&b.songs), vec!["3"]);
    let narrow_albums: Vec<&str> = b.albums.iter().map(|a| a.id.as_str()).collect();
    assert_eq!(narrow_albums, vec!["b"]);
    assert!(ids(&b.songs).iter().all(|id| wide_songs.iter().any(|w| w == id)));
    assert!(narrow_albums.iter().all(|id| wide_albums.iter().any(|w| w == id)));
}

#[test]
fn album_filter_matches_name_or_artist() {
    let mut b = BrowseState::default();
    b.backing_albums = vec![
        album("a", "Blue Train", Some("John Coltrane")),
        album("b", "Kind of Blue", Some("Miles Davis")),
        album("c", "Giant Steps", None),
    ];
    b.filter = "blue".to_string();
    b.album_scroll_offset = 4;
    b.apply_album_filter();
    let got: Vec<&str> = b.albums.iter().map(|a| a.id.as_str()).collect();
    assert_eq!(got, vec!["a", "b"]);
    assert_eq!(b.selected_album, Some(0));
    assert_eq!(b.album_scroll_offset, 0);

    b.filter = "DAVIS".to_string();
    b.apply_album_filter();
    let got: Vec<&str> = b.albums.iter().map(|a| a.id.as_str()).collect();
    assert_eq!(got, vec!["b"]);

    b.filter = "none".to_string();
    b.apply_album_filter();
    assert!(b.albums.is_empty());
    assert_eq!(b.selected_album, None);
}

#[test]
fn all_songs_pages() {
    let mut b = BrowseState::default();
    b.all_songs_loading = true;
    let first: Vec<Child> = (0..ALL_SONGS_PAGE_SIZE)
        .map(|i| song(&i.to_string(), "t", None, None))
        .collect();
    b.finish_all_songs_page(0, first, false);
    assert_eq!(b.songs.len(), ALL_SONGS_PAGE_SIZE);
    assert_eq!(b.all_songs_offset, ALL_SONGS_PAGE_SIZE);
    assert!(b.all_songs_has_more);
    assert!(!b.all_songs_loading);
    assert_eq!(b.selected_index, Some(0));

    b.selected_index = Some(17);
    b.finish_all_songs_page(ALL_SONGS_PAGE_SIZE, vec![song("x", "t", None, None)], true);
    assert_eq!(b.songs.len(), ALL_SONGS_PAGE_SIZE + 1);
    assert_eq!(b.songs.last().unwrap().id, "x");
    assert_eq!(b.selected_index, Some(17));
    assert_eq!(b.all_songs_offset, ALL_SONGS_PAGE_SIZE + 1);
    assert!(!b.all_songs_has_more);

    b.finish_all_songs_page(0, Vec::new(), false);
    assert!(b.songs.is_empty());
    assert_eq!(b.selected_index, None);
    assert_eq!(b.all_songs_offset, 0);
}

#[test]
fn album_pages_refilter_and_keep_position_when_appending() {
    let mut b = BrowseState::default();
    b.filter = "blue".to_string();
    b.finish_albums_page(0, vec![album("a", "Blue", None), album("b", "Red", None)], false);
    assert_eq!(b.backing_albums.len(), 2);
    assert_eq!(b.albums.len(), 1);
    assert_eq!(b.albums_offset, 2);
    assert!(!b.albums_has_more);
    b.selected_album = Some(0);
    b.album_scroll_offset = 3;
    b.finish_albums_page(2, vec![album("c", "Deep Blue", None)], true);
    assert_eq!(b.backing_albums.len(), 3);
    assert_eq!(b.albums.len(), 2);
    assert_eq!(b.selected_album, Some(0));
    assert_eq!(b.album_scroll_offset, 3);
    assert_eq!(b.albums_offset, 3);
    let full: Vec<Album> = (0..ALL_ALBUMS_PAGE_SIZE).map(|i| album(&i.to_string(), "x", None)).collect();
    b.finish_albums_page(0, full, false);
    assert!(b.albums_has_more);
}

#[test]
fn paging_restart_and_views() {
    let mut b = BrowseState::default();
    b.all_songs_offset = 500;
    b.restart_all_songs_paging();
    assert_eq!(b.all_songs_offset, 0);
    assert!(b.all_songs_has_more);
    assert!(!b.is_all_songs_view());
    b.selected_option = Some(SongOption::All);
    assert!(b.is_all_songs_view());
    b.browse_tab = BrowseTab::Albums;
    assert!(!b.is_all_songs_view());
}

#[test]
fn starred_refresh_only_when_dirty_on_starred() {
    let mut b = BrowseState::default();
    b.starred_songs_dirty = true;
    b.starred_albums_dirty = true;
    assert_eq!(b.starred_refresh_needed(), (false, false));
    b.selected_option = Some(SongOption::Starred);
    assert_eq!(b.starred_refresh_needed(), (true, false));
    b.browse_tab = BrowseTab::Albums;
    assert_eq!(b.starred_refresh_needed(), (false, true));
}

#[test]
fn theme_cycling() {
    let mut s = SettingsState::default();
    s.themes = vec![theme("Default"), theme("Nord"), theme("Gruvbox")];
    assert_eq!(s.theme_name(), "Default");
    s.next_theme();
    assert_eq!(s.theme_name(), "Nord");
    s.prev_theme();
    assert_eq!(s.theme_name(), "Default");
    s.prev_theme();
    assert_eq!(s.theme_name(), "Gruvbox");
    s.next_theme();
    assert_eq!(s.theme_index, 0);
    s.next_theme();
    s.next_theme();
    s.next_theme();
    assert_eq!(s.theme_index, 0);
}

#[test]
fn theme_by_name_ignores_ascii_case() {
    let mut s = SettingsState::default();
    s.themes = vec![theme("Default"), theme("Tokyo Night"), theme("Nord")];
    assert!(s.set_theme_by_name("tokyo night"));
    assert_eq!(s.theme_index, 1);
    assert_eq!(s.current_theme().name, "Tokyo Night");
    assert!(s.set_theme_by_name("NORD"));
    assert_eq!(s.theme_index, 2);
    assert!(!s.set_theme_by_name("Dracula"));
    assert_eq!(s.theme_index, 0);
    assert!(!s.set_theme_by_name(""));
    assert_eq!(*s.theme_colors(), ThemeData::default_theme().colors);
}

#[test]
fn settings_defaults_and_from_config() {
    let d = SettingsState::default();
    assert_eq!(d.themes.len(), 1);
    assert_eq!(d.theme_name(), "Default");
    assert!(!d.cava_enabled);
    assert_eq!(d.cava_size, 40);
    assert!(d.scrobble_enabled);
    assert!(d.save_queue_enabled);

    let mut c = Config::default();
    c.cava = true;
    c.cava_size = 95;
    c.notifications = true;
    c.scrobble = false;
    let s = SettingsState::from_config(&c);
    assert!(s.cava_enabled);
    assert_eq!(s.cava_size, 80);
    assert!(s.notifications_enabled);
    assert!(!s.scrobble_enabled);
    c.cava_size = 3;
    assert_eq!(SettingsState::from_config(&c).cava_size, 10);
    c.cava_size = 55;
    assert_eq!(SettingsState::from_config(&c).cava_size, 55);
}

#[test]
fn config_defaults_and_configured() {
    let mut c = Config::default();
    assert_eq!(c.cava_size, 40);
    assert_eq!(c.random_songs_count, 250);
    assert!(c.scrobble && c.save_queue && !c.cava && !c.notifications);
    assert!(!c.is_configured());
    c.base_url = "https://music.example.com".to_string();
    c.username = "me".to_string();
    assert!(!c.is_configured());
    c.password = "secret".to_string();
    assert!(c.is_configured());
    let server = ServerState::from_config(&c);
    assert_eq!(server.base_url, "https://music.example.com");
    assert_eq!(server.username, "me");
    assert_eq!(server.selected_field, 0);
}

#[test]
fn artists_load_selects_first() {
    let mut a = ArtistsState::default();
    a.selected_index = Some(5);
    a.load_artists(Vec::new());
    assert_eq!(a.selected_index, Some(5));
    a.load_artists(vec![Artist { id: "1".into(), name: "A".into(), ..Default::default() }]);
    assert_eq!(a.selected_index, Some(0));
    assert_eq!(a.artists.len(), 1);
}

#[test]
fn notifications() {
    let n = Notification::new("Saved".to_string(), false);
    assert_eq!(n.message, "Saved");
    assert!(!n.is_error);
    assert!(!n.is_expired());
    assert!(!notification_expired(1));
    assert!(notification_expired(2));
}

#[test]
fn queue_restore_selection() {
    let q = |n: usize, pos: Option<usize>| QueuePersist {
        queue: (0..n).map(|i| song(&i.to_string(), "t", None, None)).collect(),
        queue_position: pos,
    };
    assert_eq!(q(3, Some(1)).restored_selection(), Some(1));
    assert_eq!(q(3, Some(7)).restored_selection(), Some(2));
    assert_eq!(q(3, None).restored_selection(), Some(0));
    assert_eq!(q(0, Some(0)).restored_selection(), None);
    let queue = q(2, None).queue;
    assert_eq!(song_at(&queue, Some(1)).map(|s| s.id.as_str()), Some("1"));
    assert!(song_at(&queue, Some(2)).is_none());
    assert!(song_at(&queue, None).is_none());
}

fn areas() -> BrowseAreas {
    BrowseAreas {
        tabs: Rect { x: 0, y: 0, width: 80, height: 3 },
        options: Rect { x: 0, y: 3, width: 80, height: 5 },
        search: Rect { x: 0, y: 8, width: 80, height: 3 },
        list: Rect { x: 0, y: 11, width: 80, height: 20 },
    }
}

#[test]
fn click_on_tab_bar() {
    let mut b = BrowseState::default();
    b.filter = "abc".to_string();
    b.focus = 1;
    assert_eq!(b.click_at(areas(), 1, Some(BrowseTab::Songs), false), BrowseClick::Nothing);
    assert_eq!(b.filter, "abc");
    assert_eq!(
        b.click_at(areas(), 1, Some(BrowseTab::Albums), false),
        BrowseClick::LoadOption(BrowseTab::Albums, SongOption::All)
    );
    assert_eq!(b.browse_tab, BrowseTab::Albums);
    assert_eq!(b.filter, "");
    assert_eq!(b.focus, 0);
    assert_eq!(b.click_at(areas(), 2, None, false), BrowseClick::Nothing);
    assert_eq!(tab_at_column(0, 3), Some(BrowseTab::Songs));
    assert_eq!(tab_at_column(0, 10), Some(BrowseTab::Albums));
    assert_eq!(tab_at_column(0, 8), None);
    assert_eq!(tab_at_column(5, 2), None);
}

#[test]
fn click_on_options_search_and_list() {
    let mut b = BrowseState::default();
    b.focus = 1;
    b.scroll_offset = 0;
    // Row 2 inside the options box (y = 3 + 1 + 1) is Starred.
    assert_eq!(
        b.click_at(areas(), 5, None, false),
        BrowseClick::LoadOption(BrowseTab::Songs, SongOption::Starred)
    );
    assert_eq!(b.selected_option, Some(SongOption::Starred));
    assert_eq!(b.focus, 0);
    assert_eq!(b.click_at(areas(), 5, None, false), BrowseClick::Nothing);
    // The bottom border row of the options box holds no option.
    assert_eq!(b.click_at(areas(), 7, None, false), BrowseClick::Nothing);

    assert_eq!(b.click_at(areas(), 9, None, false), BrowseClick::Nothing);
    assert!(b.filter_active);

    b.songs = vec![song("1", "a", None, None), song("2", "b", None, None)];
    assert_eq!(b.click_at(areas(), 13, None, true), BrowseClick::Nothing);
    assert_eq!(b.selected_index, Some(1));
    assert_eq!(b.focus, 1);
    assert_eq!(b.click_at(areas(), 13, None, true), BrowseClick::PlaySongs(1));
    assert_eq!(b.click_at(areas(), 20, None, true), BrowseClick::Nothing);
    assert_eq!(b.selected_index, Some(1));

    b.browse_tab = BrowseTab::Albums;
    b.albums = vec![album("a", "A", None)];
    assert_eq!(b.click_at(areas(), 12, None, true), BrowseClick::Nothing);
    assert_eq!(b.click_at(areas(), 12, None, true), BrowseClick::PlayAlbum(0));
    assert_eq!(b.click_at(areas(), 60, None, true), BrowseClick::Nothing);
}

#[test]
fn handle_click_lays_out_the_page() {
    let mut b = BrowseState::default();
    let content = Rect { x: 0, y: 0, width: 80, height: 30 };
    assert_eq!(
        b.handle_click(content, 10, 1, false),
        BrowseClick::LoadOption(BrowseTab::Albums, SongOption::All)
    );
    assert_eq!(b.handle_click(content, 0, 9, false), BrowseClick::Nothing);
    assert!(b.filter_active);
}

#[test]
fn repeat_clicks() {
    assert!(is_repeat_click(Some((3, 4, 100)), 3, 4));
    assert!(!is_repeat_click(Some((3, 4, 500)), 3, 4));
    assert!(!is_repeat_click(Some((3, 5, 10)), 3, 4));
    assert!(!is_repeat_click(None, 3, 4));
}
