use std::path::PathBuf;

use knuckles::client::SubsonicClient;
use knuckles::config::{make_candidate_config_path, make_client, AuthInfo, Config, SubsonicConfig};
use knuckles::hash::{salted_md5, Hasher};
use knuckles::token::TokenInfo;
use knuckles::types::{Password, PasswordHash, Salt, ServerUrl, Username};
use knuckles::Strong;
use rand::SeedableRng;

fn seeded_hasher() -> Hasher {
    Hasher::new(rand::rngs::StdRng::seed_from_u64(10))
}

#[test]
fn test_make_candidate_config_path() {
    assert_eq!(
        make_candidate_config_path(&PathBuf::from("/path/to/configs")),
        PathBuf::from("/path/to/configs/knuckles.toml"),
    );
}

#[test]
fn test_salt_generation() {
    let mut hasher = seeded_hasher();
    assert_eq!(hasher.salt().get(), "YIVLnWx");
}

#[test]
fn test_salted_md5() {
    let hash = salted_md5(
        &Password::unchecked("testpassword"),
        &Salt::unchecked("YIVLnWx"),
    );
    assert_eq!(hash.get(), "1b7c28b40f08a05b377fc6a8dda3beea");
}

#[test]
fn test_md5_with_random_salt() {
    let mut hasher = seeded_hasher();
    let token_info = hasher.md5_with_random_salt(&Password::unchecked("testpassword"));
    assert_eq!(token_info.hash.get(), "1b7c28b40f08a05b377fc6a8dda3beea");
    assert_eq!(token_info.salt.get(), "YIVLnWx");
}

fn config_with(auth_info: AuthInfo) -> Config {
    Config {
        client: SubsonicConfig {
            url: ServerUrl::unchecked("dummyurl"),
            username: Username::unchecked("test"),
            auth_info,
        },
    }
}

#[test]
fn test_make_client_with_config_password() {
    let mut hasher = seeded_hasher();
    let config = config_with(AuthInfo::Password(Password::unchecked("password")));

    let client = make_client(&config, &mut hasher);

    let expected = SubsonicClient {
        url: ServerUrl::unchecked("dummyurl"),
        username: Username::unchecked("test"),
        token_info: TokenInfo {
            hash: PasswordHash::unchecked("cc4574efec464ba75cce2c1c36a6e028"),
            salt: Salt::unchecked("YIVLnWx"),
        },
    };
    assert_eq!(client, expected);
}

#[test]
fn test_make_client_with_config_token() {
    let mut hasher = seeded_hasher();
    let config = config_with(AuthInfo::Token(TokenInfo {
        hash: PasswordHash::unchecked("a1b2c3"),
        salt: Salt::unchecked("abcde"),
    }));

    let client = make_client(&config, &mut hasher);

    let expected = SubsonicClient {
        url: ServerUrl::unchecked("dummyurl"),
        username: Username::unchecked("test"),
        token_info: TokenInfo {
            hash: PasswordHash::unchecked("a1b2c3"),
            salt: Salt::unchecked("abcde"),
        },
    };
    assert_eq!(client, expected);
}
