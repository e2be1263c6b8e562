//! What the Subsonic client makes of a decoded server reply: the status
//! envelope check and the summaries built from detail records.
use vstd::prelude::*;

use crate::models::{
    Album, AlbumDetail, Artist, ArtistDetail, ArtistIndex, Child, Playlist, PlaylistDetail,
};
use crate::text::text_equals;

verus! {

/// Errors of the Subsonic client.
#[derive(Debug, PartialEq)]
pub enum SubsonicError {
    /// The HTTP transport failed; the text describes the failure.
    Http(String),
    /// The server URL could not be parsed or joined.
    Url(url::ParseError),
    /// The server answered with a failure status.
    Api { code: i32, message: String },
    /// The reply could not be read.
    Parse(String),
    /// No random salt for the authentication token could be drawn: the
    /// operating system's random source failed.
    NoSalt,
}

/// The `error` object of a failed reply.
#[derive(Debug, Clone, PartialEq)]
pub struct ApiError {
    pub code: i32,
    pub message: String,
}

/// The `subsonic-response` object of a reply, with its payload already decoded.
#[derive(Debug, Clone, PartialEq)]
pub struct ResponseInner<T> {
    pub status: String,
    pub error: Option<ApiError>,
    pub data: Option<T>,
}

/// The reply reports success.
pub open spec fn status_ok(status: Seq<char>) -> bool {
    status == "ok"@
}

/// A `Parse` error whose message is `m`.
pub open spec fn is_parse_error(e: SubsonicError, m: Seq<char>) -> bool {
    e matches SubsonicError::Parse(msg) && msg@ == m
}

/// The reading of an ordinary reply: a failure status gives the server's error
/// (or code 0, "Unknown error", when it sent none); a success without payload
/// is a parse error; otherwise the payload.
pub fn into_data<T>(inner: ResponseInner<T>) -> (r: Result<T, SubsonicError>)
    ensures
        !status_ok(inner.status@) ==> match inner.error {
            Some(e) => r == Err::<T, SubsonicError>(SubsonicError::Api { code: e.code, message: e.message }),
            None => r matches Err(SubsonicError::Api { code, message }) && code == 0
                && message@ == "Unknown error"@,
        },
        status_ok(inner.status@) ==> match inner.data {
            Some(d) => r == Ok::<T, SubsonicError>(d),
            None => r matches Err(e) && is_parse_error(e, "Empty response data"@),
        },
{
    if !text_equals(inner.status.as_str(), "ok") {
        match inner.error {
            Some(e) => {
                return Err(SubsonicError::Api { code: e.code, message: e.message });
            },
            None => {
                return Err(SubsonicError::Api { code: 0, message: "Unknown error".to_owned() });
            },
        }
    }
    match inner.data {
        Some(d) => Ok(d),
        None => Err(SubsonicError::Parse("Empty response data".to_owned())),
    }
}

/// The reading of a detail reply (`getArtist`, `getAlbum`, `getPlaylist`): a
/// failure status with an error object gives that error; otherwise the
/// payload, or the parse error "Empty {kind} data" when there is none.
pub fn into_detail<T>(inner: ResponseInner<T>, kind: &str) -> (r: Result<T, SubsonicError>)
    ensures
        !status_ok(inner.status@) && inner.error is Some ==> r == Err::<T, SubsonicError>(
            SubsonicError::Api {
                code: inner.error->0.code,
                message: inner.error->0.message,
            },
        ),
        status_ok(inner.status@) || inner.error is None ==> match inner.data {
            Some(d) => r == Ok::<T, SubsonicError>(d),
            None => r matches Err(e) && is_parse_error(e, "Empty "@ + kind@ + " data"@),
        },
{
    if !text_equals(inner.status.as_str(), "ok") {
        if let Some(e) = inner.error {
            return Err(SubsonicError::Api { code: e.code, message: e.message });
        }
    }
    match inner.data {
        Some(d) => Ok(d),
        None => {
            let mut m = "Empty ".to_owned();
            m.append(kind);
            m.append(" data");
            Err(SubsonicError::Parse(m))
        },
    }
}

/// The reading of a `ping` reply: only a failure status with an error object
/// is an error.
pub fn check_ping<T>(inner: ResponseInner<T>) -> (r: Result<(), SubsonicError>)
    ensures
        !status_ok(inner.status@) && inner.error is Some ==> r == Err::<(), SubsonicError>(
            SubsonicError::Api {
                code: inner.error->0.code,
                message: inner.error->0.message,
            },
        ),
        status_ok(inner.status@) || inner.error is None ==> r == Ok::<(), SubsonicError>(()),
{
    if !text_equals(inner.status.as_str(), "ok") {
        if let Some(e) = inner.error {
            return Err(SubsonicError::Api { code: e.code, message: e.message });
        }
    }
    Ok(())
}

/// The artist summary and album list of an artist detail.
pub fn artist_from_detail(detail: ArtistDetail) -> (r: (Artist, Vec<Album>))
    ensures
        r.0 == (Artist {
            id: detail.id,
            name: detail.name,
            album_count: Some(detail.album@.len() as i32),
            cover_art: None,
            starred: None,
        }),
        r.1 == detail.album,
{
    let count = detail.album.len() as i32;
    let artist = Artist {
        id: detail.id,
        name: detail.name,
        album_count: Some(count),
        cover_art: None,
        starred: None,
    };
    (artist, detail.album)
}

/// The album summary and song list of an album detail.
pub fn album_from_detail(detail: AlbumDetail) -> (r: (Album, Vec<Child>))
    ensures
        r.0 == (Album {
            id: detail.id,
            name: detail.name,
            artist: detail.artist,
            artist_id: detail.artist_id,
            cover_art: None,
            song_count: Some(detail.song@.len() as i32),
            duration: None,
            year: detail.year,
            genre: None,
            starred: None,
        }),
        r.1 == detail.song,
{
    let count = detail.song.len() as i32;
    let album = Album {
        id: detail.id,
        name: detail.name,
        artist: detail.artist,
        artist_id: detail.artist_id,
        cover_art: None,
        song_count: Some(count),
        duration: None,
        year: detail.year,
        genre: None,
        starred: None,
    };
    (album, detail.song)
}

/// The playlist summary and entries of a playlist detail.
pub fn playlist_from_detail(detail: PlaylistDetail) -> (r: (Playlist, Vec<Child>))
    ensures
        r.0 == (Playlist {
            id: detail.id,
            name: detail.name,
            owner: detail.owner,
            song_count: detail.song_count,
            duration: detail.duration,
            cover_art: None,
            public: None,
            comment: None,
        }),
        r.1 == detail.entry,
{
    let playlist = Playlist {
        id: detail.id,
        name: detail.name,
        owner: detail.owner,
        song_count: detail.song_count,
        duration: detail.duration,
        cover_art: None,
        public: None,
        comment: None,
    };
    (playlist, detail.entry)
}

/// The artists of the index groups, group after group.
pub open spec fn flatten_index(groups: Seq<ArtistIndex>) -> Seq<Artist>
    decreases groups.len(),
{
    if groups.len() == 0 {
        Seq::empty()
    } else {
        flatten_index(groups.drop_last()) + groups.last().artist@
    }
}

/// All artists of the index, in index order (`getArtists`).
pub fn artists_of_index(groups: &Vec<ArtistIndex>) -> (r: Vec<Artist>)
    ensures
        r@ == flatten_index(groups@),
{
    let mut out: Vec<Artist> = Vec::new();
    let mut i: usize = 0;
    while i < groups.len()
        invariant
            i <= groups@.len(),
            out@ == flatten_index(groups@.take(i as int)),
        decreases groups@.len() - i,
    {
        let group = &groups[i];
        let ghost start = out@;
        let mut j: usize = 0;
        while j < group.artist.len()
            invariant
                0 <= i < groups@.len(),
                *group == groups@[i as int],
                j <= group.artist@.len(),
                out@ == start + group.artist@.take(j as int),
            decreases group.artist@.len() - j,
        {
            out.push(group.artist[j].duplicate());
            assert(group.artist@.take(j + 1) =~= group.artist@.take(j as int).push(
                group.artist@[j as int],
            ));
            j = j + 1;
        }
        proof {
            assert(group.artist@.take(group.artist@.len() as int) =~= group.artist@);
            assert(groups@.take(i + 1).drop_last() =~= groups@.take(i as int));
        }
        i = i + 1;
    }
    assert(groups@.take(groups@.len() as int) =~= groups@);
    out
}

} // verus!
