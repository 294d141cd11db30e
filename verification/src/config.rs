use vstd::prelude::*;

use crate::client::SubsonicClient;
use crate::hash::{is_salt_char, md5_hex_of, Hasher, SALT_LENGTH};
use crate::token::TokenInfo;
use crate::types::{Password, PasswordHash, Salt, ServerUrl, Username};

verus! {

/// An error from locating the configuration.
#[derive(Clone, Copy, Debug, PartialEq, Eq, Structural)]
pub enum ConfigError {
    /// The platform offers no configuration directory.
    NoConfigDirectory,
}

/// How a user authenticates: either a clear-text password that is hashed
/// with a fresh salt on every use, or a ready-made digest-and-salt pair.
#[derive(Clone, Debug, PartialEq, Eq)]
pub enum AuthInfo {
    Password(Password),
    Token(TokenInfo),
}

/// The connection section of the configuration.
#[derive(Clone, Debug, PartialEq, Eq)]
pub struct SubsonicConfig {
    pub url: ServerUrl,
    pub username: Username,
    pub auth_info: AuthInfo,
}

/// The whole configuration.
#[derive(Clone, Debug, PartialEq, Eq)]
pub struct Config {
    pub client: SubsonicConfig,
}

#[verifier::external_type_specification]
#[verifier::external_body]
pub struct ExPathBuf(std::path::PathBuf);

/// The characters of a path as the platform displays it; names the result
/// of `Path::display` (through `to_string`), which depends on the path
/// value alone.
pub uninterp spec fn path_chars(p: std::path::PathBuf) -> Seq<char>;

/// The path obtained by adjoining `child` to `base`; names `Path::join`,
/// read through `path_chars`.
pub uninterp spec fn joined_path(base: Seq<char>, child: Seq<char>) -> Seq<char>;

/// Relies on `Path::join`: adjoins `child` to `base` with a separator, or
/// replaces `base` entirely when `child` is absolute.
#[verifier::external_body]
fn path_join(base: &std::path::PathBuf, child: &str) -> (r: std::path::PathBuf)
    ensures
        path_chars(r) == joined_path(path_chars(*base), child@),
{
    base.join(child)
}

/// The place of the configuration file inside the configuration directory
/// `base`: a file named `knuckles.toml`.
pub fn make_candidate_config_path(base: &std::path::PathBuf) -> (r: std::path::PathBuf)
    ensures
        path_chars(r) == joined_path(path_chars(*base), "knuckles.toml"@),
{
    path_join(base, "knuckles.toml")
}

/// Relies on `dirs::config_dir`, which consults the environment; nothing
/// can be promised of which directory comes back, only that the one error
/// reports a platform without such a directory.
#[verifier::external_body]
pub fn default_config_directory() -> (r: Result<std::path::PathBuf, ConfigError>)
    ensures
        match r {
            Ok(_) => true,
            Err(e) => e == ConfigError::NoConfigDirectory,
        },
{
    match dirs::config_dir() {
        Some(p) => Ok(p),
        None => Err(ConfigError::NoConfigDirectory),
    }
}

/// The default place of the configuration file: the platform's
/// configuration directory, when there is one, with the library's file
/// name adjoined.
pub fn default_config_file_path() -> (r: Result<std::path::PathBuf, ConfigError>)
    ensures
        match r {
            Ok(p) => exists|d: Seq<char>| path_chars(p) == joined_path(d, "knuckles.toml"@),
            Err(e) => e == ConfigError::NoConfigDirectory,
        },
{
    let dir = match default_config_directory() {
        Ok(d) => d,
        Err(e) => {
            return Err(e);
        },
    };
    let p = make_candidate_config_path(&dir);
    proof {
        assert(path_chars(p) == joined_path(path_chars(dir), "knuckles.toml"@));
    }
    Ok(p)
}

/// Builds a client from a configuration: a ready-made token is taken as it
/// is, without consulting the hasher, and a clear-text password is hashed
/// with a freshly drawn salt.
pub fn make_client(config: &Config, hasher: &mut Hasher) -> (r: SubsonicClient)
    ensures
        r.url == config.client.url,
        r.username == config.client.username,
        config.client.auth_info is Token ==> *final(hasher) == *old(hasher),
        match config.client.auth_info {
            AuthInfo::Password(p) => {
                &&& r.token_info.salt.0@.len() == SALT_LENGTH
                &&& forall|k: int|
                    0 <= k < r.token_info.salt.0@.len() ==> is_salt_char(
                        #[trigger] r.token_info.salt.0@[k],
                    )
                &&& r.token_info.hash.0@ == md5_hex_of(p.0@ + r.token_info.salt.0@)
            },
            AuthInfo::Token(t) => r.token_info == t,
        },
{
    let token_info = match &config.client.auth_info {
        AuthInfo::Password(password) => hasher.md5_with_random_salt(password),
        AuthInfo::Token(token_info) => TokenInfo {
            hash: PasswordHash(token_info.hash.0.clone()),
            salt: Salt(token_info.salt.0.clone()),
        },
    };
    SubsonicClient {
        url: ServerUrl(config.client.url.0.clone()),
        username: Username(config.client.username.0.clone()),
        token_info,
    }
}

} // verus!
