//! Where the client keeps its files: a directory named after the client in
//! the system data directory.
use vstd::prelude::*;

verus! {

#[verifier::external_type_specification]
#[verifier::external_body]
pub struct ExPathBuf(std::path::PathBuf);

/// The path `base` with `name` appended, as `Path::join` gives it.
pub uninterp spec fn path_join(base: std::path::PathBuf, name: Seq<char>) -> std::path::PathBuf;

/// `Path::join`: the result is a function of the base and the appended name.
#[verifier::external_body]
fn join_path(base: &std::path::PathBuf, name: &str) -> (r: std::path::PathBuf)
    ensures
        r == path_join(*base, name@),
{
    base.join(name)
}

/// `dirs::data_dir`: the system data directory, when the platform and the
/// environment name one.  What it returns depends on the environment, so
/// nothing is stated of it.
#[verifier::external_body]
fn system_data_dir() -> Option<std::path::PathBuf> {
    dirs::data_dir()
}

pub open spec fn no_data_dir_message() -> Seq<char> {
    "system data directory unavailable"@
}

/// The client's directory inside the system data directory `system`.
pub open spec fn app_dir(system: std::path::PathBuf) -> std::path::PathBuf {
    path_join(system, "shrieker"@)
}

/// The file `name` of the client's directory, or the error that no system
/// data directory is known.
pub open spec fn app_file(system: Option<std::path::PathBuf>, name: Seq<char>) -> Result<
    std::path::PathBuf,
    Seq<char>,
> {
    match system {
        Some(dir) => Ok(path_join(app_dir(dir), name)),
        None => Err(no_data_dir_message()),
    }
}

/// The client's directory, given the system data directory.
pub fn data_dir_in(system: Option<std::path::PathBuf>) -> (r: Result<std::path::PathBuf, String>)
    ensures
        match system {
            Some(dir) => r == Ok::<std::path::PathBuf, String>(app_dir(dir)),
            None => r matches Err(e) && e@ == no_data_dir_message(),
        },
{
    match system {
        Some(dir) => Ok(join_path(&dir, "shrieker")),
        None => Err(String::from_str("system data directory unavailable")),
    }
}

/// The file `name` in the client's directory, given the system data
/// directory.
pub fn file_in(system: Option<std::path::PathBuf>, name: &str) -> (r: Result<
    std::path::PathBuf,
    String,
>)
    ensures
        match (r, app_file(system, name@)) {
            (Ok(p), Ok(q)) => p == q,
            (Err(e), Err(m)) => e@ == m,
            _ => false,
        },
{
    match data_dir_in(system) {
        Ok(dir) => Ok(join_path(&dir, name)),
        Err(e) => Err(e),
    }
}

/// The client's directory inside whatever system data directory the
/// environment names now.
pub fn data_dir() -> (r: Result<std::path::PathBuf, String>)
    ensures
        match r {
            Ok(p) => exists|system: std::path::PathBuf| p == app_dir(system),
            Err(e) => e@ == no_data_dir_message(),
        },
{
    data_dir_in(system_data_dir())
}

/// A file of the client's directory inside whatever system data directory
/// the environment names now.
fn current_file(name: &str) -> (r: Result<std::path::PathBuf, String>)
    ensures
        match r {
            Ok(p) => exists|system: std::path::PathBuf| p == path_join(app_dir(system), name@),
            Err(e) => e@ == no_data_dir_message(),
        },
{
    let system = system_data_dir();
    let r = file_in(system, name);
    proof {
        if r is Ok {
            let dir = system.unwrap();
            assert(r->Ok_0 == path_join(app_dir(dir), name@));
        }
    }
    r
}

/// Where the host's stable service state is kept.
pub fn host_state_path() -> (r: Result<std::path::PathBuf, String>)
    ensures
        match r {
            Ok(p) => exists|system: std::path::PathBuf|
                p == path_join(app_dir(system), "host.state"@),
            Err(e) => e@ == no_data_dir_message(),
        },
{
    current_file("host.state")
}

/// Where the tunnel library's profile is kept.
pub fn profile_path() -> (r: Result<std::path::PathBuf, String>)
    ensures
        match r {
            Ok(p) => exists|system: std::path::PathBuf|
                p == path_join(app_dir(system), "profile.toml"@),
            Err(e) => e@ == no_data_dir_message(),
        },
{
    current_file("profile.toml")
}

/// Where the node's secret key is kept.
pub fn key_path() -> (r: Result<std::path::PathBuf, String>)
    ensures
        match r {
            Ok(p) => exists|system: std::path::PathBuf|
                p == path_join(app_dir(system), "secret.key"@),
            Err(e) => e@ == no_data_dir_message(),
        },
{
    current_file("secret.key")
}

/// Where the client's own preferences are kept.
pub fn preferences_path() -> (r: Result<std::path::PathBuf, String>)
    ensures
        match r {
            Ok(p) => exists|system: std::path::PathBuf|
                p == path_join(app_dir(system), "preferences.conf"@),
            Err(e) => e@ == no_data_dir_message(),
        },
{
    current_file("preferences.conf")
}

/// `sculk::persist::data_dir`: the system data directory with `sculk`
/// appended, when the environment names a system data directory (its error
/// is dropped here).  Whether one is named depends on the environment, so
/// which directory comes back is not stated.
#[verifier::external_body]
fn tunnel_data_dir() -> (r: Option<std::path::PathBuf>)
    ensures
        r matches Some(d) ==> exists|system: std::path::PathBuf| d == path_join(system, "sculk"@),
{
    sculk::persist::data_dir().ok()
}

/// Where the appearance preferences are kept: `shrieker.conf` in the tunnel
/// library's directory inside whatever system data directory the
/// environment names now; none when it names none.
pub fn app_prefs_path() -> (r: Option<std::path::PathBuf>)
    ensures
        r matches Some(p) ==> exists|system: std::path::PathBuf|
            p == path_join(path_join(system, "sculk"@), "shrieker.conf"@),
{
    let dir = tunnel_data_dir();
    let r = app_prefs_path_in(dir);
    proof {
        if r is Some {
            let system = choose|system: std::path::PathBuf| dir->Some_0 == path_join(system, "sculk"@);
            assert(r->Some_0 == path_join(path_join(system, "sculk"@), "shrieker.conf"@));
        }
    }
    r
}

/// Where the appearance preferences are kept, given the tunnel library's
/// directory: `shrieker.conf` in it, or none without it.
pub fn app_prefs_path_in(tunnel_dir: Option<std::path::PathBuf>) -> (r: Option<std::path::PathBuf>)
    ensures
        r == match tunnel_dir {
            Some(dir) => Some(path_join(dir, "shrieker.conf"@)),
            None => None::<std::path::PathBuf>,
        },
{
    match tunnel_dir {
        Some(dir) => Some(join_path(&dir, "shrieker.conf")),
        None => None,
    }
}

} // verus!
