//! Where the program keeps its files: a directory in the user's home.
use vstd::prelude::*;
use vstd::string::*;

verus! {

/// Relies on `dirs::home_dir`: the home directory of the current user, if
/// the system reports one, as text. It depends on the environment, so
/// nothing is promised of it.
#[verifier::external_body]
fn home_dir() -> (r: Option<String>) {
    dirs::home_dir().map(|p| p.to_string_lossy().into_owned())
}

/// `base/name`.
pub open spec fn path_join(base: Seq<char>, name: Seq<char>) -> Seq<char> {
    base + "/"@ + name
}

pub open spec fn root_dir_name() -> Seq<char> {
    ".xdoctorwhoz"@
}

fn join(base: &str, name: &str) -> (r: String)
    ensures
        r@ == path_join(base@, name@),
{
    let mut s = String::from_str(base);
    s.append("/");
    s.append(name);
    s
}

/// The program's directory inside `home`.
pub fn user_root_dir_in(home: Option<String>) -> (r: Option<String>)
    ensures
        r is Some == home is Some,
        r is Some ==> r->0@ == path_join(home->0@, root_dir_name()),
{
    match home {
        Some(h) => Some(join(h.as_str(), ".xdoctorwhoz")),
        None => None,
    }
}

/// The server configuration file inside the program's directory `root`.
pub fn global_config_file_in(root: Option<String>) -> (r: Option<String>)
    ensures
        r is Some == root is Some,
        r is Some ==> r->0@ == path_join(root->0@, "panduza-power-supply-server.json5"@),
{
    match root {
        Some(d) => Some(join(d.as_str(), "panduza-power-supply-server.json5")),
        None => None,
    }
}

/// The factory manifest file inside the program's directory `root`.
pub fn factory_manifest_file_in(root: Option<String>) -> (r: Option<String>)
    ensures
        r is Some == root is Some,
        r is Some ==> r->0@ == path_join(root->0@, "panduza-power-supply-factory.json5"@),
{
    match root {
        Some(d) => Some(join(d.as_str(), "panduza-power-supply-factory.json5")),
        None => None,
    }
}

/// The program's directory in the user's home, if there is a home.
pub fn user_root_dir() -> (r: Option<String>)
    ensures
        r is Some ==> exists|h: Seq<char>| r->0@ == path_join(h, root_dir_name()),
{
    user_root_dir_in(home_dir())
}

/// The server configuration file, if there is a home.
pub fn global_config_file() -> (r: Option<String>)
    ensures
        r is Some ==> exists|h: Seq<char>|
            r->0@ == path_join(path_join(h, root_dir_name()), "panduza-power-supply-server.json5"@),
{
    global_config_file_in(user_root_dir_in(home_dir()))
}

/// The factory manifest file, if there is a home.
pub fn factory_manifest_file() -> (r: Option<String>)
    ensures
        r is Some ==> exists|h: Seq<char>|
            r->0@ == path_join(path_join(h, root_dir_name()), "panduza-power-supply-factory.json5"@),
{
    factory_manifest_file_in(user_root_dir_in(home_dir()))
}

} // verus!
