use vstd::prelude::*;

use crate::types::{AlbumId, ArtistId, SongId};

verus! {

/// A moment in time, held as milliseconds since the Unix epoch.  The
/// library only carries these values through; whoever talks to the server
/// converts its calendar dates to and from this form.
#[derive(Clone, Copy, Debug, PartialEq, Eq, Structural)]
pub struct Timestamp {
    pub epoch_millis: i64,
}

/// One album as it appears in a fetched album list.
#[derive(Clone, Debug, PartialEq, Eq)]
pub struct AlbumListItem {
    pub id: AlbumId,
    // Required fields
    pub created: Timestamp,
    pub duration: u64,
    pub is_dir: bool,
    pub song_count: u64,
    pub title: String,
    // Optional fields
    pub album: Option<String>,
    pub artist: Option<String>,
    pub artist_id: Option<ArtistId>,
    pub bpm: Option<u64>,
    pub comment: Option<String>,
    pub cover_art: Option<String>,
    pub genres: Option<Vec<String>>,
    pub is_video: Option<bool>,
    pub name: Option<String>,
    pub parent: Option<String>,
    pub sort_name: Option<String>,
    pub year: Option<u64>,
    // Renamed fields
    pub media_type: Option<String>,
}

/// The list of albums in a response, when the server sent one.
#[derive(Clone, Debug, PartialEq, Eq)]
pub struct AlbumList {
    pub album: Option<Vec<AlbumListItem>>,
}

/// One album's own data.
#[derive(Clone, Debug, PartialEq, Eq)]
pub struct AlbumID3 {
    pub id: AlbumId,
    // Required fields
    pub created: Timestamp,
    pub duration: u64,
    pub name: String,
    pub song_count: u64,
    // Optional fields
    pub artist: Option<String>,
    pub artist_id: Option<ArtistId>,
    pub cover_art: Option<String>,
    pub genre: Option<String>,
    pub play_count: Option<u64>,
    pub starred: Option<Timestamp>,
    pub year: Option<u64>,
}

/// A genre tag.
#[derive(Clone, Debug, PartialEq, Eq)]
pub struct Genre {
    pub name: String,
}

/// One song.
#[derive(Clone, Debug, PartialEq, Eq)]
pub struct Song {
    pub id: SongId,
    // Required fields
    pub is_dir: bool,
    pub title: String,
    // Optional fields
    pub album: Option<String>,
    pub album_id: Option<AlbumId>,
    pub artist: Option<String>,
    pub artist_id: Option<ArtistId>,
    pub bit_rate: Option<u64>,
    pub bpm: Option<u64>,
    pub comment: Option<String>,
    pub content_type: Option<String>,
    pub cover_art: Option<String>,
    pub created: Option<Timestamp>,
    pub disc_number: Option<u64>,
    pub duration: Option<u64>,
    pub genres: Option<Vec<Genre>>,
    pub is_video: Option<bool>,
    pub parent: Option<String>,
    pub path: Option<String>,
    pub size: Option<u64>,
    pub sort_name: Option<String>,
    pub suffix: Option<String>,
    pub track: Option<u64>,
    pub year: Option<u64>,
    // Renamed fields
    pub media_type: Option<String>,
}

/// An album together with its songs.
#[derive(Clone, Debug, PartialEq, Eq)]
pub struct AlbumID3WithSongs {
    pub album_data: AlbumID3,
    pub song: Vec<Song>,
}

/// The state of a library scan on the server.
#[derive(Clone, Copy, Debug, PartialEq, Eq, Structural)]
pub struct ScanStatus {
    pub scanning: bool,
    pub count: i64,
}

/// The body of a server response.
#[derive(Clone, Debug, PartialEq, Eq)]
pub struct SubsonicResponse {
    // Required fields
    pub open_subsonic: bool,
    pub server_version: String,
    pub status: String,
    pub version: String,
    // Optional fields
    pub album: Option<AlbumID3WithSongs>,
    pub album_list: Option<AlbumList>,
    pub scan_status: Option<ScanStatus>,
    // Renamed fields
    pub server_type: String,
}

/// The envelope every server response arrives in.
#[derive(Clone, Debug, PartialEq, Eq)]
pub struct OuterSubsonicResponse {
    pub subsonic_response: SubsonicResponse,
}

} // verus!
