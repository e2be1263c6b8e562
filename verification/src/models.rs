//! Records of the Subsonic API that the client reads: songs, albums, artists,
//! playlists and internet radio stations.
use vstd::prelude::*;

verus! {

/// A copy of an optional string, equal to the one copied.
pub fn copy_opt_string(o: &Option<String>) -> (r: Option<String>)
    ensures
        r == *o,
{
    match o {
        Some(s) => Some(s.clone()),
        None => None,
    }
}

/// The characters of an optional text field, the empty text when absent.
pub open spec fn opt_text(o: Option<String>) -> Seq<char> {
    match o {
        Some(s) => s@,
        None => Seq::empty(),
    }
}

/// A song (a Subsonic "child" entry).
#[derive(Debug, Clone, PartialEq, Default)]
pub struct Child {
    pub id: String,
    pub parent: Option<String>,
    pub is_dir: bool,
    pub title: String,
    pub album: Option<String>,
    pub artist: Option<String>,
    pub track: Option<i32>,
    pub year: Option<i32>,
    pub genre: Option<String>,
    pub cover_art: Option<String>,
    pub size: Option<i64>,
    pub content_type: Option<String>,
    pub suffix: Option<String>,
    pub duration: Option<i32>,
    pub bit_rate: Option<i32>,
    pub path: Option<String>,
    pub disc_number: Option<i32>,
    pub album_id: Option<String>,
    pub artist_id: Option<String>,
    pub starred: Option<String>,
}

impl Child {
    /// A field-by-field copy.
    pub fn duplicate(&self) -> (r: Child)
        ensures
            r == *self,
    {
        Child {
            id: self.id.clone(),
            parent: copy_opt_string(&self.parent),
            is_dir: self.is_dir,
            title: self.title.clone(),
            album: copy_opt_string(&self.album),
            artist: copy_opt_string(&self.artist),
            track: self.track,
            year: self.year,
            genre: copy_opt_string(&self.genre),
            cover_art: copy_opt_string(&self.cover_art),
            size: self.size,
            content_type: copy_opt_string(&self.content_type),
            suffix: copy_opt_string(&self.suffix),
            duration: self.duration,
            bit_rate: self.bit_rate,
            path: copy_opt_string(&self.path),
            disc_number: self.disc_number,
            album_id: copy_opt_string(&self.album_id),
            artist_id: copy_opt_string(&self.artist_id),
            starred: copy_opt_string(&self.starred),
        }
    }
}

/// An album.
#[derive(Debug, Clone, PartialEq, Default)]
pub struct Album {
    pub id: String,
    pub name: String,
    pub artist: Option<String>,
    pub artist_id: Option<String>,
    pub cover_art: Option<String>,
    pub song_count: Option<i32>,
    pub duration: Option<i32>,
    pub year: Option<i32>,
    pub genre: Option<String>,
    pub starred: Option<String>,
}

impl Album {
    /// A field-by-field copy.
    pub fn duplicate(&self) -> (r: Album)
        ensures
            r == *self,
    {
        Album {
            id: self.id.clone(),
            name: self.name.clone(),
            artist: copy_opt_string(&self.artist),
            artist_id: copy_opt_string(&self.artist_id),
            cover_art: copy_opt_string(&self.cover_art),
            song_count: self.song_count,
            duration: self.duration,
            year: self.year,
            genre: copy_opt_string(&self.genre),
            starred: copy_opt_string(&self.starred),
        }
    }
}

/// An artist.
#[derive(Debug, Clone, PartialEq, Default)]
pub struct Artist {
    pub id: String,
    pub name: String,
    pub album_count: Option<i32>,
    pub cover_art: Option<String>,
    pub starred: Option<String>,
}

impl Artist {
    /// A field-by-field copy.
    pub fn duplicate(&self) -> (r: Artist)
        ensures
            r == *self,
    {
        Artist {
            id: self.id.clone(),
            name: self.name.clone(),
            album_count: self.album_count,
            cover_art: copy_opt_string(&self.cover_art),
            starred: copy_opt_string(&self.starred),
        }
    }
}

/// A playlist.
#[derive(Debug, Clone, PartialEq, Default)]
pub struct Playlist {
    pub id: String,
    pub name: String,
    pub owner: Option<String>,
    pub song_count: Option<i32>,
    pub duration: Option<i32>,
    pub cover_art: Option<String>,
    pub public: Option<bool>,
    pub comment: Option<String>,
}

/// An internet radio station.
#[derive(Debug, Clone, PartialEq, Default)]
pub struct InternetRadioStation {
    pub id: String,
    pub name: String,
    pub stream_url: String,
    pub home_page_url: Option<String>,
    pub cover_art: Option<String>,
}

impl InternetRadioStation {
    /// A field-by-field copy.
    pub fn duplicate(&self) -> (r: InternetRadioStation)
        ensures
            r == *self,
    {
        InternetRadioStation {
            id: self.id.clone(),
            name: self.name.clone(),
            stream_url: self.stream_url.clone(),
            home_page_url: copy_opt_string(&self.home_page_url),
            cover_art: copy_opt_string(&self.cover_art),
        }
    }
}

/// One letter group of the artist index (`getArtists`).
#[derive(Debug, Clone, PartialEq, Default)]
pub struct ArtistIndex {
    pub name: String,
    pub artist: Vec<Artist>,
}

/// An artist with its albums (`getArtist`).
#[derive(Debug, Clone, PartialEq, Default)]
pub struct ArtistDetail {
    pub id: String,
    pub name: String,
    pub album: Vec<Album>,
}

/// An album with its songs (`getAlbum`).
#[derive(Debug, Clone, PartialEq, Default)]
pub struct AlbumDetail {
    pub id: String,
    pub name: String,
    pub artist: Option<String>,
    pub artist_id: Option<String>,
    pub year: Option<i32>,
    pub song: Vec<Child>,
}

/// A playlist with its entries (`getPlaylist`).
#[derive(Debug, Clone, PartialEq, Default)]
pub struct PlaylistDetail {
    pub id: String,
    pub name: String,
    pub owner: Option<String>,
    pub song_count: Option<i32>,
    pub duration: Option<i32>,
    pub entry: Vec<Child>,
}

} // verus!
