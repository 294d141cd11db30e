use knuckles::api_types::{AlbumList, AlbumListItem, ScanStatus, SubsonicResponse, Timestamp};
use knuckles::client::{
    albums_from_response, AlbumListType, ClientError, SubsonicClient,
};
use knuckles::error::ApiError;
use knuckles::token::TokenInfo;
use knuckles::types::{AlbumId, MusicFolderId, PasswordHash, Salt, ServerUrl, Username};
use url::Url;

fn example_client() -> SubsonicClient {
    SubsonicClient {
        url: ServerUrl::unchecked("https://subsonic.example.com"),
        username: Username::unchecked("user"),
        token_info: TokenInfo {
            hash: PasswordHash::unchecked("a1b2c3"),
            salt: Salt::unchecked("abcde"),
        },
    }
}

#[test]
fn test_base_url() {
    let client = example_client();
    let base_url = client.base_url("ping").unwrap();
    assert_eq!(
        base_url,
        Url::parse(
            "https://subsonic.example.com/rest/ping?f=json&u=user&t=a1b2c3&s=abcde&v=1.16.1&c=knuckles",
        )
        .unwrap(),
    );
}

#[test]
fn test_album_list_type_into_url() {
    let base_url = Url::parse("https://subsonic.example.com/rest/getAlbumList").unwrap();

    {
        let mut url = base_url.clone();
        AlbumListType::Random.write_to_url(&mut url);
        assert_eq!(
            url,
            Url::parse("https://subsonic.example.com/rest/getAlbumList?type=random").unwrap(),
        );
    }

    {
        let mut url = base_url.clone();
        AlbumListType::ByYear { from_year: "2019".to_owned(), to_year: "2022".to_owned() }
            .write_to_url(&mut url);
        assert_eq!(
            url,
            Url::parse(
                "https://subsonic.example.com/rest/getAlbumList?fromYear=2019&toYear=2022&type=byYear",
            )
            .unwrap(),
        );
    }

    {
        let mut url = base_url.clone();
        AlbumListType::ByGenre("Heavy Metal".to_owned()).write_to_url(&mut url);
        assert_eq!(
            url,
            Url::parse(
                "https://subsonic.example.com/rest/getAlbumList?genre=Heavy+Metal&type=byGenre",
            )
            .unwrap(),
        );
    }
}

#[test]
fn ping_url_names_the_ping_endpoint() {
    let client = example_client();
    assert_eq!(
        client.ping_url().unwrap(),
        Url::parse(
            "https://subsonic.example.com/rest/ping?f=json&u=user&t=a1b2c3&s=abcde&v=1.16.1&c=knuckles",
        )
        .unwrap(),
    );
}

#[test]
fn albums_url_appends_filters_in_order() {
    let client = example_client();
    let url = client
        .albums_url(
            &AlbumListType::ByGenre("Heavy Metal".to_owned()),
            Some(10),
            Some(20),
            &Some(MusicFolderId::unchecked("5")),
        )
        .unwrap();
    assert_eq!(
        url,
        Url::parse(
            "https://subsonic.example.com/rest/getAlbumList?f=json&u=user&t=a1b2c3&s=abcde&v=1.16.1&c=knuckles&genre=Heavy+Metal&type=byGenre&size=10&offset=20&offset=5",
        )
        .unwrap(),
    );
}

#[test]
fn albums_url_without_filters_carries_only_the_type() {
    let client = example_client();
    let url = client
        .albums_url(&AlbumListType::AlphabeticalByName, None, None, &None)
        .unwrap();
    assert_eq!(
        url,
        Url::parse(
            "https://subsonic.example.com/rest/getAlbumList?f=json&u=user&t=a1b2c3&s=abcde&v=1.16.1&c=knuckles&type=alphabeticalByName",
        )
        .unwrap(),
    );
}

#[test]
fn album_url_carries_the_album_id() {
    let client = example_client();
    let url = client.album_url(&AlbumId::unchecked("al-42")).unwrap();
    assert_eq!(
        url,
        Url::parse(
            "https://subsonic.example.com/rest/getAlbum?f=json&u=user&t=a1b2c3&s=abcde&v=1.16.1&c=knuckles&id=al-42",
        )
        .unwrap(),
    );
}

#[test]
fn stream_url_carries_the_song_id_and_flag() {
    let client = example_client();
    let url = client
        .stream_url(&knuckles::types::SongId::unchecked("s-7"), Some(true))
        .unwrap();
    assert_eq!(
        url,
        Url::parse(
            "https://subsonic.example.com/rest/stream?f=json&u=user&t=a1b2c3&s=abcde&v=1.16.1&c=knuckles&id=s-7&estimateContentLength=true",
        )
        .unwrap(),
    );
    let url = client
        .stream_url(&knuckles::types::SongId::unchecked("s-7"), None)
        .unwrap();
    assert_eq!(
        url,
        Url::parse(
            "https://subsonic.example.com/rest/stream?f=json&u=user&t=a1b2c3&s=abcde&v=1.16.1&c=knuckles&id=s-7",
        )
        .unwrap(),
    );
}

#[test]
fn unparseable_server_url_is_an_invalid_url_error() {
    let client = SubsonicClient {
        url: ServerUrl::unchecked("not a url"),
        username: Username::unchecked("user"),
        token_info: TokenInfo {
            hash: PasswordHash::unchecked("a1b2c3"),
            salt: Salt::unchecked("abcde"),
        },
    };
    match client.base_url("ping") {
        Err(ClientError::InvalidUrl(_)) => {},
        other => panic!("expected an invalid-url error, got {other:?}"),
    }
}

fn response_with_album_list(album_list: Option<AlbumList>) -> SubsonicResponse {
    SubsonicResponse {
        open_subsonic: true,
        server_version: "1.0.0".to_owned(),
        status: "ok".to_owned(),
        version: "1.16.1".to_owned(),
        album: None,
        album_list,
        scan_status: Some(ScanStatus { scanning: false, count: 3 }),
        server_type: "navidrome".to_owned(),
    }
}

fn one_album() -> AlbumListItem {
    AlbumListItem {
        id: AlbumId::unchecked("al-1"),
        created: Timestamp { epoch_millis: 1_700_000_000_000 },
        duration: 2315,
        is_dir: false,
        song_count: 11,
        title: "An Album".to_owned(),
        album: None,
        artist: Some("An Artist".to_owned()),
        artist_id: None,
        bpm: None,
        comment: None,
        cover_art: None,
        genres: None,
        is_video: None,
        name: None,
        parent: None,
        sort_name: None,
        year: Some(2019),
        media_type: None,
    }
}

#[test]
fn albums_are_taken_from_the_response() {
    let response = response_with_album_list(Some(AlbumList { album: Some(vec![one_album()]) }));
    let albums = albums_from_response(response).unwrap();
    assert_eq!(albums, vec![one_album()]);
}

#[test]
fn absent_album_vector_means_no_albums() {
    let response = response_with_album_list(Some(AlbumList { album: None }));
    let albums = albums_from_response(response).unwrap();
    assert_eq!(albums, Vec::new());
}

#[test]
fn absent_album_list_is_a_missing_attribute() {
    let response = response_with_album_list(None);
    match albums_from_response(response) {
        Err(ApiError::MissingAttribute(name)) => assert_eq!(name, "album_list"),
        other => panic!("expected a missing attribute, got {other:?}"),
    }
}
