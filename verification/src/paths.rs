use vstd::prelude::*;

verus! {

/// The parent that `std::path::Path::parent` gives for a path: the path
/// without its final component, `None` for a root or an empty path.
pub uninterp spec fn path_parent(path: Seq<char>) -> Option<Seq<char>>;

/// The path that `std::path::Path::join` gives for `base` extended by `part`.
pub uninterp spec fn path_joined(base: Seq<char>, part: Seq<char>) -> Seq<char>;

/// Trusted: `std::path::Path::parent`, on a path given as UTF-8 text. The
/// parent of UTF-8 text is a prefix of it that ends on a component boundary,
/// so converting it back to a `String` loses nothing. What the parent is,
/// is only named here (`path_parent`), not stated.
#[verifier::external_body]
fn parent_of(path: &str) -> (parent: Option<String>)
    ensures
        parent is Some == path_parent(path@) is Some,
        parent matches Some(p) ==> p@ == path_parent(path@)->0,
{
    match std::path::Path::new(path).parent() {
        Some(p) => Some(p.to_string_lossy().into_owned()),
        None => None,
    }
}

/// Trusted: `std::path::Path::join`, on paths given as UTF-8 text; joining
/// UTF-8 paths gives UTF-8 text, so the conversion back loses nothing. The
/// joined path is only named here (`path_joined`), not stated.
#[verifier::external_body]
fn join_path(base: &str, part: &str) -> (joined: String)
    ensures
        joined@ == path_joined(base@, part@),
{
    std::path::Path::new(base).join(part).to_string_lossy().into_owned()
}

/// Where the per-machine override of the configuration at `base` lives:
/// `machines/<hostname>.ron` beside it, or under `config/` when `base` has
/// no parent.
pub open spec fn machine_override_location(base: Seq<char>, hostname: Seq<char>) -> Seq<char> {
    match path_parent(base) {
        Some(dir) => path_joined(path_joined(dir, "machines"@), hostname + ".ron"@),
        None => "config/machines/"@ + hostname + ".ron"@,
    }
}

/// The path of the per-machine override for the configuration file `base`
/// on the host called `hostname`.
pub fn machine_override_path(base: &str, hostname: &str) -> (path: String)
    ensures
        path@ == machine_override_location(base@, hostname@),
{
    let file_name = hostname.to_owned().concat(".ron");
    match parent_of(base) {
        Some(dir) => {
            let machines = join_path(dir.as_str(), "machines");
            join_path(machines.as_str(), file_name.as_str())
        },
        None => "config/machines/".to_owned().concat(file_name.as_str()),
    }
}

/// The configuration file to read: the path in `COSMIC_AUDIO_BG_CONFIG`
/// when it is set, else `cosmic-audio-bg/config.ron` in the user's
/// configuration directory when there is one, else `config/default.ron`.
pub open spec fn config_location(env_path: Option<String>, config_dir: Option<String>) -> Seq<char> {
    match env_path {
        Some(p) => p@,
        None => match config_dir {
            Some(dir) => path_joined(dir@, "cosmic-audio-bg/config.ron"@),
            None => "config/default.ron"@,
        },
    }
}

/// The default configuration path, given the value of the
/// `COSMIC_AUDIO_BG_CONFIG` environment variable and the user's
/// configuration directory, each `None` when absent.
pub fn config_path_from(env_path: Option<String>, config_dir: Option<String>) -> (path: String)
    ensures
        path@ == config_location(env_path, config_dir),
{
    match env_path {
        Some(p) => p,
        None => match config_dir {
            Some(dir) => join_path(dir.as_str(), "cosmic-audio-bg/config.ron"),
            None => "config/default.ron".to_owned(),
        },
    }
}

} // verus!
