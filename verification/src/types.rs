use vstd::prelude::*;

use crate::strong::Strong;

verus! {

/// The base URL of a music server.
#[derive(Clone, Debug, PartialEq, Eq)]
pub struct ServerUrl(pub String);

impl ServerUrl {
    pub fn unchecked(value: &str) -> (r: ServerUrl)
        ensures
            r.0@ == value@,
    {
        ServerUrl(value.to_owned())
    }
}

impl Strong<String> for ServerUrl {
    fn get(self) -> (r: String)
        ensures
            r == self.0,
    {
        self.0
    }

    fn get_ref(&self) -> (r: &String)
        ensures
            *r == self.0,
    {
        &self.0
    }
}

/// A login name on the server.
#[derive(Clone, Debug, PartialEq, Eq)]
pub struct Username(pub String);

impl Username {
    pub fn unchecked(value: &str) -> (r: Username)
        ensures
            r.0@ == value@,
    {
        Username(value.to_owned())
    }
}

impl Strong<String> for Username {
    fn get(self) -> (r: String)
        ensures
            r == self.0,
    {
        self.0
    }

    fn get_ref(&self) -> (r: &String)
        ensures
            *r == self.0,
    {
        &self.0
    }
}

/// A clear-text password.
#[derive(Clone, Debug, PartialEq, Eq)]
pub struct Password(pub String);

impl Password {
    pub fn unchecked(value: &str) -> (r: Password)
        ensures
            r.0@ == value@,
    {
        Password(value.to_owned())
    }
}

impl Strong<String> for Password {
    fn get(self) -> (r: String)
        ensures
            r == self.0,
    {
        self.0
    }

    fn get_ref(&self) -> (r: &String)
        ensures
            *r == self.0,
    {
        &self.0
    }
}

/// The salted digest of a password, as sent to the server.
#[derive(Clone, Debug, PartialEq, Eq)]
pub struct PasswordHash(pub String);

impl PasswordHash {
    pub fn unchecked(value: &str) -> (r: PasswordHash)
        ensures
            r.0@ == value@,
    {
        PasswordHash(value.to_owned())
    }
}

impl Strong<String> for PasswordHash {
    fn get(self) -> (r: String)
        ensures
            r == self.0,
    {
        self.0
    }

    fn get_ref(&self) -> (r: &String)
        ensures
            *r == self.0,
    {
        &self.0
    }
}

/// The salt that was mixed into a password digest.
#[derive(Clone, Debug, PartialEq, Eq)]
pub struct Salt(pub String);

impl Salt {
    pub fn unchecked(value: &str) -> (r: Salt)
        ensures
            r.0@ == value@,
    {
        Salt(value.to_owned())
    }
}

impl Strong<String> for Salt {
    fn get(self) -> (r: String)
        ensures
            r == self.0,
    {
        self.0
    }

    fn get_ref(&self) -> (r: &String)
        ensures
            *r == self.0,
    {
        &self.0
    }
}

/// The server-side identifier of an album.
#[derive(Clone, Debug, PartialEq, Eq)]
pub struct AlbumId(pub String);

impl AlbumId {
    pub fn unchecked(value: &str) -> (r: AlbumId)
        ensures
            r.0@ == value@,
    {
        AlbumId(value.to_owned())
    }
}

impl Strong<String> for AlbumId {
    fn get(self) -> (r: String)
        ensures
            r == self.0,
    {
        self.0
    }

    fn get_ref(&self) -> (r: &String)
        ensures
            *r == self.0,
    {
        &self.0
    }
}

/// The server-side identifier of an artist.
#[derive(Clone, Debug, PartialEq, Eq)]
pub struct ArtistId(pub String);

impl ArtistId {
    pub fn unchecked(value: &str) -> (r: ArtistId)
        ensures
            r.0@ == value@,
    {
        ArtistId(value.to_owned())
    }
}

impl Strong<String> for ArtistId {
    fn get(self) -> (r: String)
        ensures
            r == self.0,
    {
        self.0
    }

    fn get_ref(&self) -> (r: &String)
        ensures
            *r == self.0,
    {
        &self.0
    }
}

/// The server-side identifier of a music folder.
#[derive(Clone, Debug, PartialEq, Eq)]
pub struct MusicFolderId(pub String);

impl MusicFolderId {
    pub fn unchecked(value: &str) -> (r: MusicFolderId)
        ensures
            r.0@ == value@,
    {
        MusicFolderId(value.to_owned())
    }
}

impl Strong<String> for MusicFolderId {
    fn get(self) -> (r: String)
        ensures
            r == self.0,
    {
        self.0
    }

    fn get_ref(&self) -> (r: &String)
        ensures
            *r == self.0,
    {
        &self.0
    }
}

/// The server-side identifier of a song.
#[derive(Clone, Debug, PartialEq, Eq)]
pub struct SongId(pub String);

impl SongId {
    pub fn unchecked(value: &str) -> (r: SongId)
        ensures
            r.0@ == value@,
    {
        SongId(value.to_owned())
    }
}

impl Strong<String> for SongId {
    fn get(self) -> (r: String)
        ensures
            r == self.0,
    {
        self.0
    }

    fn get_ref(&self) -> (r: &String)
        ensures
            *r == self.0,
    {
        &self.0
    }
}

} // verus!
