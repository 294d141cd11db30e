use vstd::prelude::*;
use vstd::string::StringExecFns;

use crate::api_types::{AlbumID3WithSongs, AlbumListItem, OuterSubsonicResponse, SubsonicResponse};
use crate::error::{ApiError, OnMissing};
use crate::token::TokenInfo;
use crate::types::{AlbumId, MusicFolderId, ServerUrl, SongId, Username};

verus! {

/// An error from building a request URL.
#[derive(Clone, Debug, PartialEq, Eq)]
pub enum ClientError {
    /// The configured server URL cannot be parsed into an absolute URL with
    /// query parameters; the parser's message is carried along.
    InvalidUrl(String),
}

#[verifier::external_type_specification]
#[verifier::external_body]
pub struct ExUrl(url::Url);

/// The serialization of a URL value; names the result of
/// `url::Url::as_str`, which depends on the value alone.
pub uninterp spec fn url_str(u: url::Url) -> Seq<char>;

/// The serialization of the URL parsed from `base` with `params` appended
/// to its query, or `None` when `base` does not parse as an absolute URL;
/// names `url::Url::parse_with_params`, read through `url_str`.
pub uninterp spec fn parsed_with_params(base: Seq<char>, params: Seq<(Seq<char>, Seq<char>)>) -> Option<
    Seq<char>,
>;

/// The serialization after replacing a URL's path portion with `path`;
/// names `url::Url::set_path`, read through `url_str`.
pub uninterp spec fn with_path(u: Seq<char>, path: Seq<char>) -> Seq<char>;

/// The serialization after appending one percent-encoded key-value pair to
/// a URL's query; names `form_urlencoded::Serializer::append_pair`, read
/// through `url_str`.
pub uninterp spec fn with_query_pair(u: Seq<char>, key: Seq<char>, value: Seq<char>) -> Seq<char>;

/// The view of a parameter list: each pair as the views of its strings.
pub open spec fn pairs_view(params: Seq<(String, String)>) -> Seq<(Seq<char>, Seq<char>)> {
    params.map_values(|p: (String, String)| (p.0@, p.1@))
}

/// Relies on `url::Url::parse_with_params`: parses an absolute URL and
/// appends the given pairs to its query; a failure carries the parser's
/// message.
#[verifier::external_body]
fn parse_url_with_params(base: &str, params: &Vec<(String, String)>) -> (r: Result<
    url::Url,
    ClientError,
>)
    ensures
        match r {
            Ok(u) => parsed_with_params(base@, pairs_view(params@)) == Some(url_str(u)),
            Err(e) => parsed_with_params(base@, pairs_view(params@)) is None && e is InvalidUrl,
        },
{
    match url::Url::parse_with_params(base, params.iter().map(|p| (p.0.as_str(), p.1.as_str()))) {
        Ok(u) => Ok(u),
        Err(e) => Err(ClientError::InvalidUrl(format!("{e}"))),
    }
}

/// Relies on `url::Url::set_path`: replaces the path portion of the URL.
#[verifier::external_body]
fn url_set_path(u: &mut url::Url, path: &str)
    ensures
        url_str(*final(u)) == with_path(url_str(*old(u)), path@),
{
    u.set_path(path);
}

/// Relies on `url::Url::query_pairs_mut` and
/// `form_urlencoded::Serializer::append_pair`: appends one key-value pair,
/// percent-encoded, to the URL's query.
#[verifier::external_body]
fn url_append_pair(u: &mut url::Url, key: &str, value: &str)
    ensures
        url_str(*final(u)) == with_query_pair(url_str(*old(u)), key@, value@),
{
    u.query_pairs_mut().append_pair(key, value);
}

/// The character for one decimal digit.
pub open spec fn digit_char(d: nat) -> char {
    if d == 0 {
        '0'
    } else if d == 1 {
        '1'
    } else if d == 2 {
        '2'
    } else if d == 3 {
        '3'
    } else if d == 4 {
        '4'
    } else if d == 5 {
        '5'
    } else if d == 6 {
        '6'
    } else if d == 7 {
        '7'
    } else if d == 8 {
        '8'
    } else {
        '9'
    }
}

/// The decimal digits of `n`, most significant first, without leading
/// zeros (except for zero itself).
pub open spec fn dec_str(n: nat) -> Seq<char>
    decreases n,
{
    if n < 10 {
        seq![digit_char(n)]
    } else {
        dec_str(n / 10).push(digit_char(n % 10))
    }
}

/// Relies on `u64`'s `Display` implementation: the value rendered as its
/// decimal digits.
#[verifier::external_body]
fn u64_to_string(n: u64) -> (r: String)
    ensures
        r@ == dec_str(n as nat),
{
    n.to_string()
}

/// A list of albums can be asked for in several orders and filters.
pub enum AlbumListType {
    Random,
    Newest,
    Highest,
    Frequent,
    Recent,
    AlphabeticalByName,
    AlphabeticalByArtist,
    Starred,
    ByYear { from_year: String, to_year: String },
    ByGenre(String),
}

/// The name the protocol uses for a list type.
pub open spec fn list_type_name(t: AlbumListType) -> Seq<char> {
    match t {
        AlbumListType::Random => "random"@,
        AlbumListType::Newest => "newest"@,
        AlbumListType::Highest => "highest"@,
        AlbumListType::Frequent => "frequent"@,
        AlbumListType::Recent => "recent"@,
        AlbumListType::AlphabeticalByName => "alphabeticalByName"@,
        AlbumListType::AlphabeticalByArtist => "alphabeticalByArtist"@,
        AlbumListType::Starred => "starred"@,
        AlbumListType::ByYear { .. } => "byYear"@,
        AlbumListType::ByGenre(_) => "byGenre"@,
    }
}

/// The query pairs a list type appends to a URL, in order: the year range
/// or genre filter first, then the type itself.
pub open spec fn with_list_type_params(u: Seq<char>, t: AlbumListType) -> Seq<char> {
    match t {
        AlbumListType::ByYear { from_year, to_year } => with_query_pair(
            with_query_pair(with_query_pair(u, "fromYear"@, from_year@), "toYear"@, to_year@),
            "type"@,
            "byYear"@,
        ),
        AlbumListType::ByGenre(g) => with_query_pair(
            with_query_pair(u, "genre"@, g@),
            "type"@,
            "byGenre"@,
        ),
        _ => with_query_pair(u, "type"@, list_type_name(t)),
    }
}

impl AlbumListType {
    /// The name the protocol uses for this list type.
    pub fn protocol_name(&self) -> (r: &str)
        ensures
            r@ == list_type_name(*self),
    {
        match self {
            AlbumListType::Random => "random",
            AlbumListType::Newest => "newest",
            AlbumListType::Highest => "highest",
            AlbumListType::Frequent => "frequent",
            AlbumListType::Recent => "recent",
            AlbumListType::AlphabeticalByName => "alphabeticalByName",
            AlbumListType::AlphabeticalByArtist => "alphabeticalByArtist",
            AlbumListType::Starred => "starred",
            AlbumListType::ByYear { .. } => "byYear",
            AlbumListType::ByGenre(_) => "byGenre",
        }
    }

    /// Appends this list type's query parameters to `url`.
    pub fn write_to_url(&self, url: &mut url::Url)
        ensures
            url_str(*final(url)) == with_list_type_params(url_str(*old(url)), *self),
    {
        match self {
            AlbumListType::ByYear { from_year, to_year } => {
                url_append_pair(url, "fromYear", from_year.as_str());
                url_append_pair(url, "toYear", to_year.as_str());
            },
            AlbumListType::ByGenre(genre) => {
                url_append_pair(url, "genre", genre.as_str());
            },
            _ => {},
        }
        let name = self.protocol_name();
        url_append_pair(url, "type", name);
    }
}

/// A configured connection to one server: where it is and how to
/// authenticate against it.
#[derive(Debug, PartialEq, Eq)]
pub struct SubsonicClient {
    pub url: ServerUrl,
    pub username: Username,
    pub token_info: TokenInfo,
}

/// The authentication and format parameters every request carries, in
/// order.
pub open spec fn auth_params(c: SubsonicClient) -> Seq<(Seq<char>, Seq<char>)> {
    seq![
        ("f"@, "json"@),
        ("u"@, c.username.0@),
        ("t"@, c.token_info.hash.0@),
        ("s"@, c.token_info.salt.0@),
        ("v"@, "1.16.1"@),
        ("c"@, "knuckles"@),
    ]
}

impl SubsonicClient {
    /// The base request URL for the endpoint `path`: the configured server
    /// URL with the authentication parameters appended to its query and the
    /// path replaced by `rest/<path>`.
    pub fn base_url(&self, path: &str) -> (r: Result<url::Url, ClientError>)
        ensures
            match r {
                Ok(u) => parsed_with_params(self.url.0@, auth_params(*self)) matches Some(b)
                    && url_str(u) == with_path(b, "rest/"@ + path@),
                Err(e) => parsed_with_params(self.url.0@, auth_params(*self)) is None
                    && e is InvalidUrl,
            },
    {
        let mut params: Vec<(String, String)> = Vec::new();
        params.push((String::from_str("f"), String::from_str("json")));
        params.push((String::from_str("u"), self.username.0.clone()));
        params.push((String::from_str("t"), self.token_info.hash.0.clone()));
        params.push((String::from_str("s"), self.token_info.salt.0.clone()));
        params.push((String::from_str("v"), String::from_str("1.16.1")));
        params.push((String::from_str("c"), String::from_str("knuckles")));
        proof {
            assert(pairs_view(params@) =~= auth_params(*self));
        }
        let mut u = match parse_url_with_params(self.url.0.as_str(), &params) {
            Ok(u) => u,
            Err(e) => {
                return Err(e);
            },
        };
        let path_full = String::from_str("rest/").concat(path);
        url_set_path(&mut u, path_full.as_str());
        Ok(u)
    }

    /// The URL that asks the server whether it is alive.
    pub fn ping_url(&self) -> (r: Result<url::Url, ClientError>)
        ensures
            match r {
                Ok(u) => parsed_with_params(self.url.0@, auth_params(*self)) matches Some(b)
                    && url_str(u) == with_path(b, "rest/"@ + "ping"@),
                Err(e) => parsed_with_params(self.url.0@, auth_params(*self)) is None
                    && e is InvalidUrl,
            },
    {
        self.base_url("ping")
    }

    /// The URL that asks for a list of albums.  The optional size, offset
    /// and music-folder filters are appended after the list type's own
    /// parameters, each only when present.  Note that the music-folder
    /// filter goes out under the key `offset`, not a key of its own: that
    /// is what this client has always sent, and callers rely on the exact
    /// request shape.
    pub fn albums_url(
        &self,
        list_type: &AlbumListType,
        size: Option<u64>,
        offset: Option<u64>,
        music_folder_id: &Option<MusicFolderId>,
    ) -> (r: Result<url::Url, ClientError>)
        ensures
            match r {
                Ok(u) => parsed_with_params(self.url.0@, auth_params(*self)) matches Some(b)
                    && url_str(u) == ({
                    let t0 = with_list_type_params(with_path(b, "rest/"@ + "getAlbumList"@), *list_type);
                    let t1 = match size {
                        Some(s) => with_query_pair(t0, "size"@, dec_str(s as nat)),
                        None => t0,
                    };
                    let t2 = match offset {
                        Some(o) => with_query_pair(t1, "offset"@, dec_str(o as nat)),
                        None => t1,
                    };
                    match music_folder_id {
                        Some(m) => with_query_pair(t2, "offset"@, m.0@),
                        None => t2,
                    }
                }),
                Err(e) => parsed_with_params(self.url.0@, auth_params(*self)) is None
                    && e is InvalidUrl,
            },
    {
        let mut u = match self.base_url("getAlbumList") {
            Ok(u) => u,
            Err(e) => {
                return Err(e);
            },
        };
        list_type.write_to_url(&mut u);
        match size {
            Some(s) => {
                let value = u64_to_string(s);
                url_append_pair(&mut u, "size", value.as_str());
            },
            None => {},
        }
        match offset {
            Some(o) => {
                let value = u64_to_string(o);
                url_append_pair(&mut u, "offset", value.as_str());
            },
            None => {},
        }
        match music_folder_id {
            Some(m) => {
                url_append_pair(&mut u, "offset", m.0.as_str());
            },
            None => {},
        }
        Ok(u)
    }

    /// The URL that asks for one album, with its songs, by its identifier.
    pub fn album_url(&self, id: &AlbumId) -> (r: Result<url::Url, ClientError>)
        ensures
            match r {
                Ok(u) => parsed_with_params(self.url.0@, auth_params(*self)) matches Some(b)
                    && url_str(u) == with_query_pair(
                    with_path(b, "rest/"@ + "getAlbum"@),
                    "id"@,
                    id.0@,
                ),
                Err(e) => parsed_with_params(self.url.0@, auth_params(*self)) is None
                    && e is InvalidUrl,
            },
    {
        let mut u = match self.base_url("getAlbum") {
            Ok(u) => u,
            Err(e) => {
                return Err(e);
            },
        };
        url_append_pair(&mut u, "id", id.0.as_str());
        Ok(u)
    }

    /// The URL that fetches a song's bytes.  The optional flag asks the
    /// server to estimate the content length; when present it is sent as
    /// `true` or `false`.
    pub fn stream_url(&self, id: &SongId, estimate_content_length: Option<bool>) -> (r: Result<
        url::Url,
        ClientError,
    >)
        ensures
            match r {
                Ok(u) => parsed_with_params(self.url.0@, auth_params(*self)) matches Some(b)
                    && url_str(u) == ({
                    let t0 = with_query_pair(with_path(b, "rest/"@ + "stream"@), "id"@, id.0@);
                    match estimate_content_length {
                        Some(true) => with_query_pair(t0, "estimateContentLength"@, "true"@),
                        Some(false) => with_query_pair(t0, "estimateContentLength"@, "false"@),
                        None => t0,
                    }
                }),
                Err(e) => parsed_with_params(self.url.0@, auth_params(*self)) is None
                    && e is InvalidUrl,
            },
    {
        let mut u = match self.base_url("stream") {
            Ok(u) => u,
            Err(e) => {
                return Err(e);
            },
        };
        url_append_pair(&mut u, "id", id.0.as_str());
        match estimate_content_length {
            Some(estimate) => {
                let value = if estimate {
                    "true"
                } else {
                    "false"
                };
                url_append_pair(&mut u, "estimateContentLength", value);
            },
            None => {},
        }
        Ok(u)
    }
}

/// Unwraps the envelope every server response arrives in.
pub fn into_subsonic_response(outer: OuterSubsonicResponse) -> (r: SubsonicResponse)
    ensures
        r == outer.subsonic_response,
{
    outer.subsonic_response
}

/// The albums of a list response: an absent list is an error naming the
/// attribute, and a present list with no album vector means no albums.
pub fn albums_from_response(response: SubsonicResponse) -> (r: Result<Vec<AlbumListItem>, ApiError>)
    ensures
        match response.album_list {
            Some(al) => match al.album {
                Some(v) => r == Ok::<Vec<AlbumListItem>, ApiError>(v),
                None => r matches Ok(v) && v@ == Seq::<AlbumListItem>::empty(),
            },
            None => r matches Err(ApiError::MissingAttribute(n)) && n@ == "album_list"@,
        },
{
    let album_list = match response.album_list.on_missing("album_list") {
        Ok(al) => al,
        Err(e) => {
            return Err(e);
        },
    };
    match album_list.album {
        Some(v) => Ok(v),
        None => Ok(Vec::new()),
    }
}

/// The album of a single-album response: an absent album is an error
/// naming the attribute.
pub fn album_from_response(response: SubsonicResponse) -> (r: Result<AlbumID3WithSongs, ApiError>)
    ensures
        match response.album {
            Some(a) => r == Ok::<AlbumID3WithSongs, ApiError>(a),
            None => r matches Err(ApiError::MissingAttribute(n)) && n@ == "album"@,
        },
{
    response.album.on_missing("album")
}

} // verus!
