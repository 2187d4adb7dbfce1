//! Resolution of the paths that tools receive: a leading `~/` stands for
//! the home directory.

use vstd::prelude::*;

verus! {

/// What `Path::join` gives for a base path and a path to add to it.
pub uninterp spec fn joined_path(base: Seq<char>, rest: Seq<char>) -> Seq<char>;

/// Relies on std::path::Path::join, whose result depends on the two paths
/// alone; joining two UTF-8 paths gives a UTF-8 path.
#[verifier::external_body]
fn join_path(base: &str, rest: &str) -> (r: String)
    ensures
        r@ == joined_path(base@, rest@),
{
    std::path::Path::new(base).join(rest).to_string_lossy().into_owned()
}

/// Relies on dirs::home_dir: the current user's home directory, when it is
/// known and is valid UTF-8. It depends on the environment.
#[verifier::external_body]
fn home_dir() -> (r: Option<String>) {
    match dirs::home_dir() {
        Some(p) => p.into_os_string().into_string().ok(),
        None => None,
    }
}

/// The path begins with `~/`.
pub open spec fn is_home_relative(path: Seq<char>) -> bool {
    path.len() >= 2 && path[0] == '~' && path[1] == '/'
}

/// The path with a leading `~/` resolved against `home`, when one is known;
/// any other path as it is.
pub open spec fn expanded(path: Seq<char>, home: Option<Seq<char>>) -> Seq<char> {
    if is_home_relative(path) && home is Some {
        joined_path(home->0, path.subrange(2, path.len() as int))
    } else {
        path
    }
}

/// Resolves a leading `~/` of `path` against the home directory `home`.
pub fn expand_with_home(path: &str, home: Option<&str>) -> (r: String)
    ensures
        r@ == expanded(path@, match home {
            Some(h) => Some(h@),
            None => None,
        }),
{
    let n = path.unicode_len();
    if n >= 2 && path.get_char(0) == '~' && path.get_char(1) == '/' {
        match home {
            Some(h) => {
                return join_path(h, path.substring_char(2, n));
            },
            None => {},
        }
    }
    String::from_str(path)
}

/// Resolves a leading `~/` of `path` against the current user's home
/// directory; a path without one, or with no home directory known, is
/// kept as it is.
pub fn expand_path(path: &str) -> (r: String)
    ensures
        !is_home_relative(path@) ==> r@ == path@,
        is_home_relative(path@) ==> r@ == path@ || exists|h: Seq<char>|
            r@ == joined_path(h, path@.subrange(2, path@.len() as int)),
{
    let home = home_dir();
    match home {
        Some(h) => expand_with_home(path, Some(h.as_str())),
        None => expand_with_home(path, None),
    }
}

} // verus!
