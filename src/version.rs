//! The version of the installed Solana release, read from the version file of
//! its active release under the user's home directory.

use vstd::prelude::*;
use crate::error::{CargoResult, ProgramError};

verus! {

#[verifier::external_type_specification]
#[verifier::external_body]
pub struct ExScanError(yaml_rust::ScanError);

/// Location of the version file of the active Solana release, relative to the
/// home directory (Linux and macOS).
pub const SOLANA_INSTALL: &'static str = ".local/share/solana/install/active_release/version.yml";

/// Key of the version file's field that holds the release channel.
pub const VER_STRING: &'static str = "channel";

/// What a YAML text holds under `key` in its first document: `None` where the
/// text is not well-formed YAML, `Some(None)` where there is no document, no
/// such key or no string under it, `Some(Some(s))` where the string is `s`.
pub uninterp spec fn yaml_string_field(text: Seq<char>, key: Seq<char>) -> Option<Option<Seq<char>>>;

/// The view of an optional string.
pub open spec fn opt_view(s: Option<String>) -> Option<Seq<char>> {
    match s {
        Some(t) => Some(t@),
        None => None,
    }
}

/// Relies on `yaml_rust::YamlLoader::load_from_str`, on indexing a `yaml_rust::Yaml`
/// by a key and on `Yaml::as_str`: the outcome depends on the text and the key alone.
#[verifier::external_body]
fn load_string_field(text: &str, key: &str) -> (r: Result<Option<String>, yaml_rust::ScanError>)
    ensures
        r is Err <==> yaml_string_field(text@, key@) is None,
        r is Ok ==> opt_view(r->Ok_0) == yaml_string_field(text@, key@)->Some_0,
{
    yaml_rust::YamlLoader::load_from_str(text).map(
        |docs| docs.get(0).and_then(|d| d[key].as_str()).map(|s| s.to_string()),
    )
}

/// Relies on `dirs::home_dir`: the home directory, where the environment gives
/// one; a path that is not Unicode counts as none.
#[verifier::external_body]
fn home_directory() -> (r: Option<String>)
{
    dirs::home_dir().and_then(|p| p.into_os_string().into_string().ok())
}

/// The version that a channel string names: the string without its first
/// character (the channel marker), or `None` for a missing or empty channel.
pub open spec fn channel_version(channel: Option<Seq<char>>) -> Option<Seq<char>> {
    match channel {
        Some(c) => if c.len() > 0 {
            Some(c.drop_first())
        } else {
            None
        },
        None => None,
    }
}

/// The version of a release channel: the channel without its marker character.
pub fn version_from_channel(channel: Option<String>) -> (r: CargoResult<String>)
    ensures
        match channel_version(opt_view(channel)) {
            Some(v) => r matches Ok(s) && s@ == v,
            None => r matches Err(ProgramError::VersionFieldMissing),
        },
{
    match channel {
        Some(c) => {
            let n = c.unicode_len();
            if n > 0 {
                let rest = c.as_str().substring_char(1, n);
                Ok(String::from_str(rest))
            } else {
                Err(ProgramError::VersionFieldMissing)
            }
        },
        None => Err(ProgramError::VersionFieldMissing),
    }
}

/// Whether `r` is what reading the version from a version file's text gives.
pub open spec fn version_outcome(text: Seq<char>, r: CargoResult<String>) -> bool {
    match yaml_string_field(text, VER_STRING@) {
        None => r matches Err(ProgramError::YamlError(_)),
        Some(field) => match channel_version(field) {
            Some(v) => r matches Ok(s) && s@ == v,
            None => r matches Err(ProgramError::VersionFieldMissing),
        },
    }
}

/// The Solana version named by the text of a version file.
pub fn version_from_document(contents: &str) -> (r: CargoResult<String>)
    ensures
        version_outcome(contents@, r),
{
    match load_string_field(contents, VER_STRING) {
        Ok(channel) => version_from_channel(channel),
        Err(e) => Err(ProgramError::YamlError(e.to_string())),
    }
}

/// The path of the version file under the home directory `home`: joined with
/// one separator, as a path is extended by a relative one.
pub open spec fn install_path(home: Seq<char>) -> Seq<char> {
    if home.len() == 0 || home.last() == '/' {
        home + SOLANA_INSTALL@
    } else {
        home + "/"@ + SOLANA_INSTALL@
    }
}

/// The path of the version file under the home directory `home`.
pub fn solana_install_path(home: &str) -> (r: String)
    ensures
        r@ == install_path(home@),
{
    let n = home.unicode_len();
    let mut path = String::from_str(home);
    if n > 0 && home.get_char(n - 1) != '/' {
        path.append("/");
    }
    path.append(SOLANA_INSTALL);
    path
}

/// The path of the version file under the home directory `home`, or
/// `NoHomeFound` where there is none.
pub fn version_file_of_home(home: Option<String>) -> (r: CargoResult<String>)
    ensures
        match home {
            Some(h) => r matches Ok(p) && p@ == install_path(h@),
            None => r matches Err(ProgramError::NoHomeFound),
        },
{
    match home {
        Some(h) => Ok(solana_install_path(h.as_str())),
        None => Err(ProgramError::NoHomeFound),
    }
}

/// The path of the version file under the user's home directory, or
/// `NoHomeFound` where the home directory cannot be resolved.
pub fn solana_version_file() -> (r: CargoResult<String>)
    ensures
        r is Ok ==> exists|home: Seq<char>| r->Ok_0@ == install_path(home),
        r is Err ==> r->Err_0 is NoHomeFound,
{
    version_file_of_home(home_directory())
}

/// The installed Solana version, given the version file's path and its text
/// (`None` where the file does not exist).
pub fn get_solana_installed_version(path: String, contents: Option<String>) -> (r: CargoResult<String>)
    ensures
        contents is None ==> r == Err::<String, ProgramError>(ProgramError::SolanaNotFound(path)),
        contents matches Some(c) ==> version_outcome(c@, r),
{
    match contents {
        Some(c) => version_from_document(c.as_str()),
        None => Err(ProgramError::SolanaNotFound(path)),
    }
}

} // verus!
