//! Application state: pages, list selections, filtering, themes and
//! notifications.
use vstd::prelude::*;

use crate::config::Config;
use crate::subsonic::SubsonicError;
use crate::models::{opt_text, Album, Artist, Child, InternetRadioStation, Playlist};
use crate::text::{
    ascii_fold, contains_text, eq_ignore_ascii_case, lowercase, text_contains, to_lowercase,
};
use crate::theme::{default_colors, ThemeColors, ThemeData};

verus! {

broadcast use vstd::string::group_string_axioms;

/// Current page in the application.
#[derive(Debug, Clone, Copy, PartialEq, Eq, Structural, Default)]
pub enum Page {
    #[default]
    Browse,
    Artists,
    Queue,
    Playlists,
    Radio,
    Server,
    Settings,
}

/// Position of a page in the tab bar.
pub open spec fn page_index(p: Page) -> nat {
    match p {
        Page::Browse => 0,
        Page::Artists => 1,
        Page::Queue => 2,
        Page::Playlists => 3,
        Page::Radio => 4,
        Page::Server => 5,
        Page::Settings => 6,
    }
}

/// Tab label of a page.
pub open spec fn page_label(p: Page) -> Seq<char> {
    match p {
        Page::Browse => "Browse"@,
        Page::Artists => "Artists"@,
        Page::Queue => "Queue"@,
        Page::Playlists => "Playlists"@,
        Page::Radio => "Radio"@,
        Page::Server => "Server"@,
        Page::Settings => "Settings"@,
    }
}

/// Function key that opens a page.
pub open spec fn page_shortcut(p: Page) -> Seq<char> {
    match p {
        Page::Browse => "F1"@,
        Page::Artists => "F2"@,
        Page::Queue => "F3"@,
        Page::Playlists => "F4"@,
        Page::Radio => "F5"@,
        Page::Server => "F6"@,
        Page::Settings => "F7"@,
    }
}

impl Page {
    pub fn index(&self) -> (r: usize)
        ensures
            r == page_index(*self),
    {
        match self {
            Page::Browse => 0,
            Page::Artists => 1,
            Page::Queue => 2,
            Page::Playlists => 3,
            Page::Radio => 4,
            Page::Server => 5,
            Page::Settings => 6,
        }
    }

    pub fn label(&self) -> (r: &'static str)
        ensures
            r@ == page_label(*self),
    {
        match self {
            Page::Browse => "Browse",
            Page::Artists => "Artists",
            Page::Queue => "Queue",
            Page::Playlists => "Playlists",
            Page::Radio => "Radio",
            Page::Server => "Server",
            Page::Settings => "Settings",
        }
    }

    pub fn shortcut(&self) -> (r: &'static str)
        ensures
            r@ == page_shortcut(*self),
    {
        match self {
            Page::Browse => "F1",
            Page::Artists => "F2",
            Page::Queue => "F3",
            Page::Playlists => "F4",
            Page::Radio => "F5",
            Page::Server => "F6",
            Page::Settings => "F7",
        }
    }
}

/// Playback state.
#[derive(Debug, Clone, Copy, PartialEq, Eq, Structural, Default)]
pub enum PlaybackState {
    #[default]
    Stopped,
    Playing,
    Paused,
}

/// Top-level tab of the Browse page.
#[derive(Debug, Clone, Copy, PartialEq, Eq, Structural, Default)]
pub enum BrowseTab {
    #[default]
    Songs,
    Albums,
}

/// Source of the Browse page's list, in the order of the options pane.
#[derive(Debug, Clone, Copy, PartialEq, Eq, Structural)]
pub enum SongOption {
    All,
    Starred,
    Random,
}

/// The option on row `row` of the options pane.
pub open spec fn song_option_at(row: int) -> Option<SongOption> {
    if row == 0 {
        Some(SongOption::All)
    } else if row == 1 {
        Some(SongOption::Starred)
    } else if row == 2 {
        Some(SongOption::Random)
    } else {
        None
    }
}

impl SongOption {
    /// The option on row `row` of the options pane, if there is one.
    pub fn nth(row: usize) -> (r: Option<SongOption>)
        ensures
            r == song_option_at(row as int),
    {
        if row == 0 {
            Some(SongOption::All)
        } else if row == 1 {
            Some(SongOption::Starred)
        } else if row == 2 {
            Some(SongOption::Random)
        } else {
            None
        }
    }
}

/// A song matches a lowercase filter text when its title, artist or album,
/// lowercased, contains the text.
pub open spec fn song_matches(s: Child, needle: Seq<char>) -> bool {
    ||| contains_text(lowercase(s.title@), needle)
    ||| contains_text(lowercase(opt_text(s.artist)), needle)
    ||| contains_text(lowercase(opt_text(s.album)), needle)
}

/// An album matches a lowercase filter text when its name or artist,
/// lowercased, contains the text.
pub open spec fn album_matches(a: Album, needle: Seq<char>) -> bool {
    ||| contains_text(lowercase(a.name@), needle)
    ||| contains_text(lowercase(opt_text(a.artist)), needle)
}

/// The songs of `backing` that the filter text keeps, in order.
pub open spec fn filtered_songs(backing: Seq<Child>, filter: Seq<char>) -> Seq<Child> {
    if filter.len() == 0 {
        backing
    } else {
        backing.filter(|s: Child| song_matches(s, lowercase(filter)))
    }
}

/// The albums of `backing` that the filter text keeps, in order.
pub open spec fn filtered_albums(backing: Seq<Album>, filter: Seq<char>) -> Seq<Album> {
    if filter.len() == 0 {
        backing
    } else {
        backing.filter(|a: Album| album_matches(a, lowercase(filter)))
    }
}

/// The first row of a list of `len` rows, if it has any.
pub open spec fn first_row(len: nat) -> Option<usize> {
    if len == 0 {
        None
    } else {
        Some(0usize)
    }
}

fn optional_lower(o: &Option<String>) -> (r: String)
    ensures
        r@ == lowercase(opt_text(*o)),
{
    match o {
        Some(s) => to_lowercase(s.as_str()),
        None => {
            proof {
                reveal_strlit("");
                assert(""@ =~= Seq::<char>::empty());
            }
            to_lowercase("")
        },
    }
}

fn song_matches_exec(s: &Child, needle: &str) -> (r: bool)
    ensures
        r == song_matches(*s, needle@),
{
    text_contains(to_lowercase(s.title.as_str()).as_str(), needle)
        || text_contains(optional_lower(&s.artist).as_str(), needle)
        || text_contains(optional_lower(&s.album).as_str(), needle)
}

fn album_matches_exec(a: &Album, needle: &str) -> (r: bool)
    ensures
        r == album_matches(*a, needle@),
{
    text_contains(to_lowercase(a.name.as_str()).as_str(), needle)
        || text_contains(optional_lower(&a.artist).as_str(), needle)
}

/// Copies of the songs of `backing` that the filter text keeps.
pub fn filter_songs(backing: &Vec<Child>, filter: &str) -> (r: Vec<Child>)
    ensures
        r@ == filtered_songs(backing@, filter@),
{
    let empty = filter.is_empty();
    let lower = to_lowercase(filter);
    let ghost pred = |s: Child| song_matches(s, lowercase(filter@));
    let mut out: Vec<Child> = Vec::new();
    let mut i: usize = 0;
    while i < backing.len()
        invariant
            i <= backing@.len(),
            lower@ == lowercase(filter@),
            empty == (filter@.len() == 0),
            pred == (|s: Child| song_matches(s, lowercase(filter@))),
            empty ==> out@ == backing@.take(i as int),
            !empty ==> out@ == backing@.take(i as int).filter(pred),
        decreases backing@.len() - i,
    {
        let s = &backing[i];
        proof {
            reveal(Seq::filter);
            assert(backing@.take(i + 1).drop_last() =~= backing@.take(i as int));
            assert(backing@.take(i + 1).last() == backing@[i as int]);
        }
        if empty || song_matches_exec(s, lower.as_str()) {
            out.push(s.duplicate());
        }
        proof {
            assert(empty ==> out@ =~= backing@.take(i + 1));
        }
        i = i + 1;
    }
    assert(backing@.take(backing@.len() as int) =~= backing@);
    out
}

/// Copies of the albums of `backing` that the filter text keeps.
pub fn filter_albums(backing: &Vec<Album>, filter: &str) -> (r: Vec<Album>)
    ensures
        r@ == filtered_albums(backing@, filter@),
{
    let empty = filter.is_empty();
    let lower = to_lowercase(filter);
    let ghost pred = |a: Album| album_matches(a, lowercase(filter@));
    let mut out: Vec<Album> = Vec::new();
    let mut i: usize = 0;
    while i < backing.len()
        invariant
            i <= backing@.len(),
            lower@ == lowercase(filter@),
            empty == (filter@.len() == 0),
            pred == (|a: Album| album_matches(a, lowercase(filter@))),
            empty ==> out@ == backing@.take(i as int),
            !empty ==> out@ == backing@.take(i as int).filter(pred),
        decreases backing@.len() - i,
    {
        let a = &backing[i];
        proof {
            reveal(Seq::filter);
            assert(backing@.take(i + 1).drop_last() =~= backing@.take(i as int));
            assert(backing@.take(i + 1).last() == backing@[i as int]);
        }
        if empty || album_matches_exec(a, lower.as_str()) {
            out.push(a.duplicate());
        }
        proof {
            assert(empty ==> out@ =~= backing@.take(i + 1));
        }
        i = i + 1;
    }
    assert(backing@.take(backing@.len() as int) =~= backing@);
    out
}

/// State of the Browse page.
#[derive(Debug, Clone)]
pub struct BrowseState {
    /// Top-level tab: Songs or Albums
    pub browse_tab: BrowseTab,
    /// Currently displayed songs (filtered subset for Starred/Random, paginated for All)
    pub songs: Vec<Child>,
    /// Unfiltered backing store for Starred/Random options
    pub backing_songs: Vec<Child>,
    pub selected_index: Option<usize>,
    pub scroll_offset: usize,
    /// Starred songs list needs refresh before next display
    pub starred_songs_dirty: bool,
    /// Starred albums list needs refresh before next display
    pub starred_albums_dirty: bool,
    /// Current pagination offset for the All option
    pub all_songs_offset: usize,
    /// Whether more songs are available for the All option
    pub all_songs_has_more: bool,
    /// Whether a page of All songs is currently being fetched
    pub all_songs_loading: bool,
    /// Currently displayed albums (filtered from backing_albums)
    pub albums: Vec<Album>,
    /// Unfiltered album list for client-side filtering
    pub backing_albums: Vec<Album>,
    /// Selected album index
    pub selected_album: Option<usize>,
    /// Scroll offset for the album list
    pub album_scroll_offset: usize,
    /// Pagination offset for album list fetches
    pub albums_offset: usize,
    /// Whether more albums are available to page in
    pub albums_has_more: bool,
    /// Whether an album page is currently being fetched
    pub albums_loading: bool,
    /// Focus pane: 0 = options pane, 1 = content list
    pub focus: usize,
    /// Current filter text
    pub filter: String,
    /// Whether filter input is active
    pub filter_active: bool,
    pub selected_option: Option<SongOption>,
}

impl Default for BrowseState {
    fn default() -> (r: BrowseState)
        ensures
            r.browse_tab == BrowseTab::Songs,
            r.songs@.len() == 0,
            r.backing_songs@.len() == 0,
            r.selected_index is None,
            r.scroll_offset == 0,
            !r.starred_songs_dirty,
            !r.starred_albums_dirty,
            r.all_songs_offset == 0,
            !r.all_songs_has_more,
            !r.all_songs_loading,
            r.albums@.len() == 0,
            r.backing_albums@.len() == 0,
            r.selected_album is None,
            r.album_scroll_offset == 0,
            r.albums_offset == 0,
            !r.albums_has_more,
            !r.albums_loading,
            r.focus == 0,
            r.filter@.len() == 0,
            !r.filter_active,
            r.selected_option is None,
    {
        BrowseState {
            browse_tab: BrowseTab::Songs,
            songs: Vec::new(),
            backing_songs: Vec::new(),
            selected_index: None,
            scroll_offset: 0,
            starred_songs_dirty: false,
            starred_albums_dirty: false,
            all_songs_offset: 0,
            all_songs_has_more: false,
            all_songs_loading: false,
            albums: Vec::new(),
            backing_albums: Vec::new(),
            selected_album: None,
            album_scroll_offset: 0,
            albums_offset: 0,
            albums_has_more: false,
            albums_loading: false,
            focus: 0,
            filter: String::new(),
            filter_active: false,
            selected_option: None,
        }
    }
}

/// Number of songs fetched per page for the All option.
pub const ALL_SONGS_PAGE_SIZE: usize = 250;

/// Number of albums fetched per page (the most `getAlbumList2` allows).
pub const ALL_ALBUMS_PAGE_SIZE: usize = 500;

impl BrowseState {
    /// Filter `backing_albums` into `albums` using the current `filter` text.
    /// Resets `selected_album` and `album_scroll_offset` after filtering.
    pub fn apply_album_filter(&mut self)
        ensures
            final(self).albums@ == filtered_albums(old(self).backing_albums@, old(self).filter@),
            final(self).selected_album == first_row(final(self).albums@.len()),
            final(self).album_scroll_offset == 0,
            *final(self) == (BrowseState {
                albums: final(self).albums,
                selected_album: final(self).selected_album,
                album_scroll_offset: 0,
                ..*old(self)
            }),
    {
        self.albums = filter_albums(&self.backing_albums, self.filter.as_str());
        self.selected_album = if self.albums.len() == 0 {
            None
        } else {
            Some(0)
        };
        self.album_scroll_offset = 0;
    }

    /// Filter `backing_songs` into `songs` using the current `filter` text.
    /// Resets `selected_index` and `scroll_offset` after filtering.
    pub fn apply_filter(&mut self)
        ensures
            final(self).songs@ == filtered_songs(old(self).backing_songs@, old(self).filter@),
            final(self).selected_index == first_row(final(self).songs@.len()),
            final(self).scroll_offset == 0,
            *final(self) == (BrowseState {
                songs: final(self).songs,
                selected_index: final(self).selected_index,
                scroll_offset: 0,
                ..*old(self)
            }),
    {
        self.songs = filter_songs(&self.backing_songs, self.filter.as_str());
        self.selected_index = if self.songs.len() == 0 {
            None
        } else {
            Some(0)
        };
        self.scroll_offset = 0;
    }

    /// Records a page of All songs fetched at `offset`: appended to the list
    /// or replacing it (then selecting its first row), with the offset moved
    /// past the page and more pages expected when the page was full.
    pub fn finish_all_songs_page(&mut self, offset: usize, page: Vec<Child>, append: bool)
        requires
            offset + page@.len() <= usize::MAX,
        ensures
            append ==> final(self).songs@ == old(self).songs@ + page@,
            append ==> final(self).selected_index == old(self).selected_index,
            append ==> final(self).scroll_offset == old(self).scroll_offset,
            !append ==> final(self).songs@ == page@,
            !append ==> final(self).selected_index == first_row(page@.len()),
            !append ==> final(self).scroll_offset == 0,
            final(self).all_songs_offset == offset + page@.len(),
            final(self).all_songs_has_more == (page@.len() == ALL_SONGS_PAGE_SIZE),
            !final(self).all_songs_loading,
            *final(self) == (BrowseState {
                songs: final(self).songs,
                selected_index: final(self).selected_index,
                scroll_offset: final(self).scroll_offset,
                all_songs_offset: final(self).all_songs_offset,
                all_songs_has_more: final(self).all_songs_has_more,
                all_songs_loading: false,
                ..*old(self)
            }),
    {
        let mut page = page;
        let fetched = page.len();
        let has_more = fetched == ALL_SONGS_PAGE_SIZE;
        if append {
            self.songs.append(&mut page);
        } else {
            self.songs = page;
            self.selected_index = if fetched > 0 {
                Some(0)
            } else {
                None
            };
            self.scroll_offset = 0;
        }
        self.all_songs_offset = offset + fetched;
        self.all_songs_has_more = has_more;
        self.all_songs_loading = false;
    }

    /// Records a page of albums fetched at `offset`: appended to the backing
    /// list or replacing it, then refiltered; an appended page keeps the
    /// album selection and scroll position.
    pub fn finish_albums_page(&mut self, offset: usize, page: Vec<Album>, append: bool)
        requires
            offset + page@.len() <= usize::MAX,
        ensures
            append ==> final(self).backing_albums@ == old(self).backing_albums@ + page@,
            !append ==> final(self).backing_albums@ == page@,
            final(self).albums@ == filtered_albums(
                final(self).backing_albums@,
                old(self).filter@,
            ),
            append ==> final(self).selected_album == old(self).selected_album,
            append ==> final(self).album_scroll_offset == old(self).album_scroll_offset,
            !append ==> final(self).selected_album == first_row(final(self).albums@.len()),
            !append ==> final(self).album_scroll_offset == 0,
            final(self).albums_offset == offset + page@.len(),
            final(self).albums_has_more == (page@.len() == ALL_ALBUMS_PAGE_SIZE),
            !final(self).albums_loading,
            *final(self) == (BrowseState {
                backing_albums: final(self).backing_albums,
                albums: final(self).albums,
                selected_album: final(self).selected_album,
                album_scroll_offset: final(self).album_scroll_offset,
                albums_offset: final(self).albums_offset,
                albums_has_more: final(self).albums_has_more,
                albums_loading: false,
                ..*old(self)
            }),
    {
        let mut page = page;
        let fetched = page.len();
        let has_more = fetched == ALL_ALBUMS_PAGE_SIZE;
        let sel = self.selected_album;
        let scroll = self.album_scroll_offset;
        if append {
            self.backing_albums.append(&mut page);
        } else {
            self.backing_albums = page;
        }
        self.apply_album_filter();
        if append {
            self.selected_album = sel;
            self.album_scroll_offset = scroll;
        }
        self.albums_offset = offset + fetched;
        self.albums_has_more = has_more;
        self.albums_loading = false;
    }

    /// Starts the All-songs listing over from its first page.
    pub fn restart_all_songs_paging(&mut self)
        ensures
            *final(self) == (BrowseState {
                all_songs_offset: 0,
                all_songs_has_more: true,
                ..*old(self)
            }),
    {
        self.all_songs_offset = 0;
        self.all_songs_has_more = true;
    }

    /// The list shows all songs of the server (the All option on the Songs
    /// tab), which the filter searches on the server.
    pub fn is_all_songs_view(&self) -> (r: bool)
        ensures
            r == (self.selected_option == Some(SongOption::All) && self.browse_tab
                == BrowseTab::Songs),
    {
        self.selected_option == Some(SongOption::All) && self.browse_tab == BrowseTab::Songs
    }

    /// Which starred lists must be fetched again when the Browse page is
    /// shown: (songs, albums), each only while the Starred option is selected
    /// on its tab and the list is marked stale.
    pub fn starred_refresh_needed(&self) -> (r: (bool, bool))
        ensures
            r.0 == (self.selected_option == Some(SongOption::Starred)
                && self.browse_tab == BrowseTab::Songs && self.starred_songs_dirty),
            r.1 == (self.selected_option == Some(SongOption::Starred)
                && self.browse_tab == BrowseTab::Albums && self.starred_albums_dirty),
    {
        let on_starred = match self.selected_option {
            Some(SongOption::Starred) => true,
            _ => false,
        };
        let on_songs = match self.browse_tab {
            BrowseTab::Songs => true,
            BrowseTab::Albums => false,
        };
        (on_starred && on_songs && self.starred_songs_dirty, on_starred && !on_songs
            && self.starred_albums_dirty)
    }
}


/// Selection after moving one row up in a list of `len` rows: the first row
/// stays put, no selection starts at the first row, an empty list has none.
pub open spec fn select_up(selected: Option<usize>, len: nat) -> Option<usize> {
    if len == 0 {
        None
    } else {
        match selected {
            Some(sel) => if sel > 0 {
                Some((sel - 1) as usize)
            } else {
                Some(sel)
            },
            None => Some(0usize),
        }
    }
}

/// Selection after moving one row down in a list of `len` rows: the last row
/// stays put, no selection starts at the first row, an empty list has none.
pub open spec fn select_down(selected: Option<usize>, len: nat) -> Option<usize> {
    if len == 0 {
        None
    } else {
        match selected {
            Some(sel) => if sel + 1 < len {
                Some((sel + 1) as usize)
            } else {
                Some(sel)
            },
            None => Some(0usize),
        }
    }
}

/// Moves a list selection one row up.
pub fn move_selection_up(selected: Option<usize>, len: usize) -> (r: Option<usize>)
    ensures
        r == select_up(selected, len as nat),
{
    match (selected, len) {
        (_, 0) => None,
        (Some(sel), _) if sel > 0 => Some(sel - 1),
        (Some(sel), _) => Some(sel),
        (None, _) => Some(0),
    }
}

/// Moves a list selection one row down.
pub fn move_selection_down(selected: Option<usize>, len: usize) -> (r: Option<usize>)
    ensures
        r == select_down(selected, len as nat),
{
    match (selected, len) {
        (_, 0) => None,
        (Some(sel), _) if sel < len - 1 => Some(sel + 1),
        (Some(sel), _) => Some(sel),
        (None, _) => Some(0),
    }
}

/// Artists page state.
#[derive(Debug)]
pub struct ArtistsState {
    /// List of all artists
    pub artists: Vec<Artist>,
    /// Currently selected index in the tree (artists + expanded albums)
    pub selected_index: Option<usize>,
    /// Set of expanded artist IDs
    pub expanded: std::collections::HashSet<String>,
    /// Albums cached per artist ID
    pub albums_cache: std::collections::HashMap<String, Vec<Album>>,
    /// Songs in the selected album (shown in right pane)
    pub songs: Vec<Child>,
    /// Currently selected song index
    pub selected_song: Option<usize>,
    /// Artist filter text
    pub filter: String,
    /// Whether filter input is active
    pub filter_active: bool,
    /// Focus: 0 = tree, 1 = songs
    pub focus: usize,
    /// Scroll offset for the tree list (set after render)
    pub tree_scroll_offset: usize,
    /// Scroll offset for the songs list (set after render)
    pub song_scroll_offset: usize,
}

impl Default for ArtistsState {
    fn default() -> (r: ArtistsState)
        ensures
            r.artists@.len() == 0,
            r.selected_index is None,
            r.expanded@.len() == 0,
            r.albums_cache@.len() == 0,
            r.songs@.len() == 0,
            r.selected_song is None,
            r.filter@.len() == 0,
            !r.filter_active,
            r.focus == 0,
            r.tree_scroll_offset == 0,
            r.song_scroll_offset == 0,
    {
        ArtistsState {
            artists: Vec::new(),
            selected_index: None,
            expanded: std::collections::HashSet::new(),
            albums_cache: std::collections::HashMap::new(),
            songs: Vec::new(),
            selected_song: None,
            filter: String::new(),
            filter_active: false,
            focus: 0,
            tree_scroll_offset: 0,
            song_scroll_offset: 0,
        }
    }
}

impl ArtistsState {
    /// Stores a freshly loaded artist list; a non-empty list selects its first
    /// row, an empty one leaves the selection as it was.
    pub fn load_artists(&mut self, artists: Vec<Artist>)
        ensures
            *final(self) == (ArtistsState {
                artists,
                selected_index: if artists@.len() > 0 {
                    Some(0usize)
                } else {
                    old(self).selected_index
                },
                ..*old(self)
            }),
    {
        let count = artists.len();
        self.artists = artists;
        if count > 0 {
            self.selected_index = Some(0);
        }
    }
}

/// Queue page state.
#[derive(Debug, Clone, Copy, PartialEq, Eq, Structural, Default)]
pub struct QueueState {
    /// Currently selected index in the queue
    pub selected: Option<usize>,
    /// Scroll offset for the queue list (set after render)
    pub scroll_offset: usize,
}

/// Playlists page state.
#[derive(Debug, Clone)]
pub struct PlaylistsState {
    /// List of all playlists
    pub playlists: Vec<Playlist>,
    /// Currently selected playlist index
    pub selected_playlist: Option<usize>,
    /// Songs in the selected playlist
    pub songs: Vec<Child>,
    /// Currently selected song index
    pub selected_song: Option<usize>,
    /// Focus: 0 = playlists, 1 = songs
    pub focus: usize,
    /// Scroll offset for the playlists list (set after render)
    pub playlist_scroll_offset: usize,
    /// Scroll offset for the songs list (set after render)
    pub song_scroll_offset: usize,
}

impl Default for PlaylistsState {
    fn default() -> (r: PlaylistsState)
        ensures
            r.playlists@.len() == 0,
            r.selected_playlist is None,
            r.songs@.len() == 0,
            r.selected_song is None,
            r.focus == 0,
            r.playlist_scroll_offset == 0,
            r.song_scroll_offset == 0,
    {
        PlaylistsState {
            playlists: Vec::new(),
            selected_playlist: None,
            songs: Vec::new(),
            selected_song: None,
            focus: 0,
            playlist_scroll_offset: 0,
            song_scroll_offset: 0,
        }
    }
}

/// Radio page state.
#[derive(Debug, Clone)]
pub struct RadioState {
    /// List of all internet radio stations
    pub stations: Vec<InternetRadioStation>,
    /// Currently selected station index
    pub selected: Option<usize>,
    /// Scroll offset for the station list (set after render)
    pub scroll_offset: usize,
}

impl Default for RadioState {
    fn default() -> (r: RadioState)
        ensures
            r.stations@.len() == 0,
            r.selected is None,
            r.scroll_offset == 0,
    {
        RadioState { stations: Vec::new(), selected: None, scroll_offset: 0 }
    }
}

/// The station under the selection, if the selection points into the list.
pub open spec fn station_at(stations: Seq<InternetRadioStation>, selected: Option<usize>) -> Option<
    InternetRadioStation,
> {
    match selected {
        Some(i) => if i < stations.len() {
            Some(stations[i as int])
        } else {
            None
        },
        None => None,
    }
}

impl RadioState {
    /// A copy of the selected station, if the selection points into the list.
    pub fn selected_station(&self) -> (r: Option<InternetRadioStation>)
        ensures
            r == station_at(self.stations@, self.selected),
    {
        match self.selected {
            Some(idx) => if idx < self.stations.len() {
                Some(self.stations[idx].duplicate())
            } else {
                None
            },
            None => None,
        }
    }

    /// Stores a freshly loaded station list, selecting its first row (none
    /// when empty) and scrolling to the top.
    pub fn load_stations(&mut self, stations: Vec<InternetRadioStation>)
        ensures
            final(self).stations@ == stations@,
            final(self).selected == first_row(stations@.len()),
            final(self).scroll_offset == 0,
    {
        let count = stations.len();
        self.stations = stations;
        self.selected = if count > 0 {
            Some(0)
        } else {
            None
        };
        self.scroll_offset = 0;
    }

    /// Takes the outcome of loading the station list: a list is stored as
    /// `load_stations` stores it and its length returned; an error leaves the
    /// state as it was and is handed back for reporting.
    pub fn finish_loading(
        &mut self,
        result: Result<Vec<InternetRadioStation>, SubsonicError>,
    ) -> (r: Result<usize, SubsonicError>)
        ensures
            match result {
                Ok(stations) => {
                    &&& final(self).stations@ == stations@
                    &&& final(self).selected == first_row(stations@.len())
                    &&& final(self).scroll_offset == 0
                    &&& r == Ok::<usize, SubsonicError>(stations@.len() as usize)
                },
                Err(e) => {
                    &&& *final(self) == *old(self)
                    &&& r == Err::<usize, SubsonicError>(e)
                },
            },
    {
        match result {
            Ok(stations) => {
                let count = stations.len();
                self.load_stations(stations);
                Ok(count)
            },
            Err(e) => Err(e),
        }
    }
}

/// Server page state (connection settings).
#[derive(Debug, Clone)]
pub struct ServerState {
    /// Currently focused field (0-4: URL, Username, Password, Test, Save)
    pub selected_field: usize,
    pub base_url: String,
    pub username: String,
    pub password: String,
    /// Status message
    pub status: Option<String>,
}

impl Default for ServerState {
    fn default() -> (r: ServerState)
        ensures
            r.selected_field == 0,
            r.base_url@.len() == 0,
            r.username@.len() == 0,
            r.password@.len() == 0,
            r.status is None,
    {
        ServerState {
            selected_field: 0,
            base_url: String::new(),
            username: String::new(),
            password: String::new(),
            status: None,
        }
    }
}

impl ServerState {
    /// The connection form filled in from the configuration.
    pub fn from_config(config: &Config) -> (r: ServerState)
        ensures
            r.selected_field == 0,
            r.base_url@ == config.base_url@,
            r.username@ == config.username@,
            r.password@ == config.password@,
            r.status is None,
    {
        ServerState {
            selected_field: 0,
            base_url: config.base_url.clone(),
            username: config.username.clone(),
            password: config.password.clone(),
            status: None,
        }
    }
}

/// Settings page state.
#[derive(Debug, Clone)]
pub struct SettingsState {
    /// Currently focused field (0=Theme, 1=Cava)
    pub selected_field: usize,
    /// Available themes (Default + loaded from files)
    pub themes: Vec<ThemeData>,
    /// Index of the currently selected theme in `themes`
    pub theme_index: usize,
    /// Cava visualizer enabled
    pub cava_enabled: bool,
    /// Cava visualizer height percentage (10-80, step 5)
    pub cava_size: u8,
    /// notifications enabled
    pub notifications_enabled: bool,
    /// Scrobbling enabled
    pub scrobble_enabled: bool,
    /// Save and restore queue on launch
    pub save_queue_enabled: bool,
}

/// The theme after the one at `i` among `n` themes, wrapping around.
pub open spec fn next_index(i: int, n: int) -> int {
    (i + 1) % n
}

/// The theme before the one at `i` among `n` themes, wrapping around.
pub open spec fn prev_index(i: int, n: int) -> int {
    (i + n - 1) % n
}

/// A theme of `themes` is named `name`, ignoring ASCII case.
pub open spec fn theme_named(themes: Seq<ThemeData>, i: int, name: Seq<char>) -> bool {
    0 <= i < themes.len() && ascii_fold(themes[i].name@) == ascii_fold(name)
}

/// The visualizer height kept within 10..=80 percent.
pub open spec fn clamp_cava_size(size: u8) -> u8 {
    if size < 10 {
        10
    } else if size > 80 {
        80
    } else {
        size
    }
}

impl Default for SettingsState {
    fn default() -> (r: SettingsState)
        ensures
            r.selected_field == 0,
            r.themes@.len() == 1,
            r.themes@[0].name@ == "Default"@,
            r.themes@[0].colors == default_colors(),
            r.themes@[0].cava_gradient@.len() == 0,
            r.themes@[0].cava_horizontal_gradient@.len() == 0,
            r.theme_index == 0,
            !r.cava_enabled,
            r.cava_size == 40,
            !r.notifications_enabled,
            r.scrobble_enabled,
            r.save_queue_enabled,
    {
        let mut themes: Vec<ThemeData> = Vec::new();
        themes.push(ThemeData::default_theme());
        SettingsState {
            selected_field: 0,
            themes,
            theme_index: 0,
            cava_enabled: false,
            cava_size: 40,
            notifications_enabled: false,
            scrobble_enabled: true,
            save_queue_enabled: true,
        }
    }
}

impl SettingsState {
    /// The theme index points into a non-empty theme list.
    pub open spec fn wf(&self) -> bool {
        self.theme_index < self.themes@.len()
    }

    /// Settings taken from the configuration, the visualizer height kept
    /// within 10..=80, with the built-in theme list.
    pub fn from_config(config: &Config) -> (r: SettingsState)
        ensures
            r.wf(),
            r.selected_field == 0,
            r.themes@.len() == 1,
            r.themes@[0].name@ == "Default"@,
            r.themes@[0].colors == default_colors(),
            r.themes@[0].cava_gradient@.len() == 0,
            r.themes@[0].cava_horizontal_gradient@.len() == 0,
            r.theme_index == 0,
            r.cava_enabled == config.cava,
            r.cava_size == clamp_cava_size(config.cava_size),
            r.notifications_enabled == config.notifications,
            r.scrobble_enabled == config.scrobble,
            r.save_queue_enabled == config.save_queue,
    {
        let mut s = SettingsState::default();
        s.cava_enabled = config.cava;
        s.cava_size = if config.cava_size < 10 {
            10
        } else if config.cava_size > 80 {
            80
        } else {
            config.cava_size
        };
        s.notifications_enabled = config.notifications;
        s.scrobble_enabled = config.scrobble;
        s.save_queue_enabled = config.save_queue;
        s
    }

    /// Current theme name
    pub fn theme_name(&self) -> (r: &str)
        requires
            self.wf(),
        ensures
            r@ == self.themes@[self.theme_index as int].name@,
    {
        self.themes[self.theme_index].name.as_str()
    }

    /// Current theme colors
    pub fn theme_colors(&self) -> (r: &ThemeColors)
        requires
            self.wf(),
        ensures
            *r == self.themes@[self.theme_index as int].colors,
    {
        &self.themes[self.theme_index].colors
    }

    /// Current theme data
    pub fn current_theme(&self) -> (r: &ThemeData)
        requires
            self.wf(),
        ensures
            *r == self.themes@[self.theme_index as int],
    {
        &self.themes[self.theme_index]
    }

    /// Cycle to next theme
    pub fn next_theme(&mut self)
        requires
            old(self).wf(),
        ensures
            final(self).wf(),
            final(self).theme_index == next_index(
                old(self).theme_index as int,
                old(self).themes@.len() as int,
            ),
            *final(self) == (SettingsState { theme_index: final(self).theme_index, ..*old(self) }),
    {
        let n = self.themes.len();
        self.theme_index = (self.theme_index + 1) % n;
    }

    /// Cycle to previous theme
    pub fn prev_theme(&mut self)
        requires
            old(self).wf(),
        ensures
            final(self).wf(),
            final(self).theme_index == prev_index(
                old(self).theme_index as int,
                old(self).themes@.len() as int,
            ),
            *final(self) == (SettingsState { theme_index: final(self).theme_index, ..*old(self) }),
    {
        let n = self.themes.len();
        let i = self.theme_index;
        proof {
            if i == 0 {
                assert(prev_index(0, n as int) == n - 1) by (nonlinear_arith)
                    requires
                        n > 0,
                ;
            } else {
                assert(prev_index(i as int, n as int) == i - 1) by (nonlinear_arith)
                    requires
                        0 < i < n,
                ;
            }
        }
        self.theme_index = if i == 0 {
            n - 1
        } else {
            i - 1
        };
    }

    /// Set theme by name, returning true if found: the first theme whose name
    /// equals `name` ignoring ASCII case is selected; otherwise the first
    /// theme (the built-in Default) is.
    pub fn set_theme_by_name(&mut self, name: &str) -> (found: bool)
        ensures
            found == exists|i: int| theme_named(old(self).themes@, i, name@),
            found ==> theme_named(old(self).themes@, final(self).theme_index as int, name@),
            found ==> forall|j: int|
                0 <= j < final(self).theme_index ==> !theme_named(old(self).themes@, j, name@),
            !found ==> final(self).theme_index == 0,
            *final(self) == (SettingsState { theme_index: final(self).theme_index, ..*old(self) }),
    {
        let mut i: usize = 0;
        while i < self.themes.len()
            invariant
                *self == *old(self),
                i <= self.themes@.len(),
                forall|j: int| 0 <= j < i ==> !theme_named(self.themes@, j, name@),
            decreases self.themes@.len() - i,
        {
            if eq_ignore_ascii_case(self.themes[i].name.as_str(), name) {
                assert(theme_named(old(self).themes@, i as int, name@));
                self.theme_index = i;
                return true;
            }
            i = i + 1;
        }
        self.theme_index = 0;
        false
    }
}

/// `std::time::Instant`: a point in time from a monotonic clock.
#[verifier::external_type_specification]
#[verifier::external_body]
pub struct ExInstant(std::time::Instant);

/// `Instant::now`: the current time; nothing is claimed of its value.
#[verifier::external_body]
pub(crate) fn instant_now() -> (r: std::time::Instant) {
    std::time::Instant::now()
}

/// `Instant::elapsed`: the time since `start`; nothing is claimed of its value.
#[verifier::external_body]
pub(crate) fn instant_elapsed(start: &std::time::Instant) -> (r: std::time::Duration) {
    start.elapsed()
}

/// `Duration::as_secs`: the whole seconds of a duration, which depend on the
/// duration alone; a `Duration` is opaque here, so nothing is claimed of the
/// value.
#[verifier::external_body]
pub(crate) fn duration_whole_secs(d: &std::time::Duration) -> (r: u64) {
    d.as_secs()
}

/// Seconds for which a notification stays on screen.
pub const NOTIFICATION_TIMEOUT_SECS: u64 = 2;

/// A notification that has been shown for `elapsed_secs` whole seconds is
/// cleared.
pub fn notification_expired(elapsed_secs: u64) -> (r: bool)
    ensures
        r == (elapsed_secs >= NOTIFICATION_TIMEOUT_SECS),
{
    elapsed_secs >= NOTIFICATION_TIMEOUT_SECS
}

/// Notification/alert to display.
#[derive(Debug)]
pub struct Notification {
    pub message: String,
    pub is_error: bool,
    pub created_at: std::time::Instant,
}

impl Notification {
    /// A notification created now.
    pub fn new(message: String, is_error: bool) -> (r: Notification)
        ensures
            r.message == message,
            r.is_error == is_error,
    {
        Notification { message, is_error, created_at: instant_now() }
    }

    /// The notification has been on screen for the timeout or longer. The
    /// answer rests on the clock, so no clause states it; the decision taken
    /// on the elapsed whole seconds is `notification_expired`, whose contract
    /// is exact.
    pub fn is_expired(&self) -> bool {
        let elapsed = instant_elapsed(&self.created_at);
        notification_expired(duration_whole_secs(&elapsed))
    }
}

/// A row of styled segments from the visualizer's terminal output.
#[derive(Debug, Clone, Default)]
pub struct CavaRow {
    pub spans: Vec<CavaSpan>,
}

/// A styled text segment from the visualizer's terminal output.
#[derive(Debug, Clone)]
pub struct CavaSpan {
    pub text: String,
    pub fg: CavaColor,
    pub bg: CavaColor,
}

/// Colour from the visualizer's terminal output.
#[derive(Debug, Clone, Copy, PartialEq, Eq, Structural, Default)]
pub enum CavaColor {
    #[default]
    Default,
    Indexed(u8),
    Rgb(u8, u8, u8),
}

} // verus!
