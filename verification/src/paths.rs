use vstd::prelude::*;

use crate::error::Error;

verus! {

/// The configuration file's path inside a configuration directory.
pub open spec fn config_file_path(dir: Seq<char>) -> Seq<char> {
    dir + "/config.toml"@
}

/// Relies on `directories::ProjectDirs::from("com", "rfm", "orbi-helper")`
/// and `config_dir`: the OS-specific per-application configuration
/// directory, if the OS can supply one. The answer depends on the machine
/// and environment, so nothing is promised of it.
#[verifier::external_body]
fn project_config_dir() -> (r: Option<String>) {
    directories::ProjectDirs::from("com", "rfm", "orbi-helper").map(
        |dirs| dirs.config_dir().to_string_lossy().into_owned(),
    )
}

/// Relies on `std::path::Path::exists`: whether the path names an existing
/// file or directory on disk right now. The answer depends on the disk, so
/// nothing is promised of it.
#[verifier::external_body]
fn path_exists(p: &String) -> bool {
    std::path::Path::new(p.as_str()).exists()
}

/// The configuration file path under `dir`.
pub fn config_path_in(dir: &String) -> (r: String)
    ensures
        r@ == config_file_path(dir@),
{
    dir.clone().concat("/config.toml")
}

/// The decision behind configuration-path discovery: with no configuration
/// directory the path is unresolvable; with one, a missing file is an error
/// that names the expected path; otherwise the path is returned.
pub fn resolve_config_path(dir: Option<String>, file_exists: bool) -> (r: Result<String, Error>)
    ensures
        dir is None ==> (r matches Err(e) && e matches Error::ConfigPathUnresolved),
        dir matches Some(d) ==> (file_exists ==> (r matches Ok(p) && p@ == config_file_path(
            d@,
        ))),
        dir matches Some(d) ==> (!file_exists ==> (r matches Err(e) && e.is_missing_at(
            config_file_path(d@),
        ))),
{
    match dir {
        None => Err(Error::ConfigPathUnresolved),
        Some(d) => {
            let p = config_path_in(&d);
            if file_exists {
                Ok(p)
            } else {
                Err(Error::ConfigMissing(p))
            }
        },
    }
}

/// Finds the configuration file's path. Whatever the OS and the disk answer:
/// a returned path, or the path inside a missing-file error, always ends in
/// the configuration file's name, and only path resolution and a missing
/// file are reported.
pub fn find_config_path() -> (r: Result<String, Error>)
    ensures
        r matches Ok(p) ==> is_config_location(p@),
        r matches Err(e) ==> (e matches Error::ConfigPathUnresolved || (e
            matches Error::ConfigMissing(p) && is_config_location(p@))),
{
    let dir = project_config_dir();
    let file_exists = match &dir {
        Some(d) => path_exists(&config_path_in(d)),
        None => false,
    };
    let r = resolve_config_path(dir, file_exists);
    proof {
        match &r {
            Ok(p) => {
                lemma_config_location(p@);
            },
            Err(e) => {
                match e {
                    Error::ConfigMissing(p) => {
                        lemma_config_location(p@);
                    },
                    _ => {},
                }
            },
        }
    }
    r
}

/// `p` ends in the configuration file's name.
pub open spec fn is_config_location(p: Seq<char>) -> bool {
    p.len() >= "/config.toml"@.len() && p.subrange(
        p.len() - "/config.toml"@.len(),
        p.len() as int,
    ) == "/config.toml"@
}

/// A path built by appending the file name to a directory ends in that name.
proof fn lemma_config_location(p: Seq<char>)
    requires
        exists|d: Seq<char>| p == #[trigger] config_file_path(d),
    ensures
        is_config_location(p),
{
    let d = choose|d: Seq<char>| p == #[trigger] config_file_path(d);
    assert(p.subrange(p.len() - "/config.toml"@.len(), p.len() as int) =~= "/config.toml"@);
}

} // verus!
