use vstd::prelude::*;

use crate::error::Error;

verus! {

/// Name of the store's directory inside the user's home directory.
pub const YAP_DIR: &'static str = ".yap";

/// Name of the settings file inside a store directory.
pub const CONFIG_FILE: &'static str = "config.yaml";

/// The path that joining `rel` onto `base` gives on this platform.
pub uninterp spec fn joined_path(base: Seq<char>, rel: Seq<char>) -> Seq<char>;

/// Relies on std::path::Path::join. Both parts are UTF-8, so the joined path
/// is too and converting it back to a `String` loses nothing.
#[verifier::external_body]
pub(crate) fn join_path(base: &str, rel: &str) -> (r: String)
    ensures
        r@ == joined_path(base@, rel@),
{
    std::path::Path::new(base).join(rel).to_string_lossy().into_owned()
}

/// Relies on home::home_dir: the current user's home directory, when one can
/// be found. What it returns depends on the environment; a home path that is
/// not UTF-8 comes back with its stray bytes replaced.
#[verifier::external_body]
pub(crate) fn home_dir() -> (r: Option<String>) {
    home::home_dir().map(|p| p.to_string_lossy().into_owned())
}

/// The store directory under a home directory, or `NoHomeDir` without one.
pub fn yap_dir_in(home: Option<String>) -> (r: Result<String, Error>)
    ensures
        home is None ==> r == Err::<String, Error>(Error::NoHomeDir),
        home is Some ==> r is Ok && r->Ok_0@ == joined_path(home->Some_0@, YAP_DIR@),
{
    match home {
        Some(h) => Ok(join_path(h.as_str(), YAP_DIR)),
        None => Err(Error::NoHomeDir),
    }
}

/// The default store directory, under the current user's home directory.
pub fn get_default_path() -> (r: Result<String, Error>)
    ensures
        r is Err ==> r == Err::<String, Error>(Error::NoHomeDir),
        r is Ok ==> exists|h: Seq<char>| r->Ok_0@ == joined_path(h, YAP_DIR@),
{
    yap_dir_in(home_dir())
}

} // verus!
