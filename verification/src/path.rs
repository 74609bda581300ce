//! File paths, held as strings; the path operations are those of `std::path`.

use vstd::prelude::*;

verus! {

/// The final component of a path, as `Path::file_name` gives it.
pub uninterp spec fn path_file_name_of(path: Seq<char>) -> Option<Seq<char>>;

/// The path with its final component replaced, as `PathBuf::set_file_name` leaves it.
pub uninterp spec fn path_with_file_name_of(path: Seq<char>, file_name: Seq<char>) -> Seq<char>;

/// The path `base` extended by `name`, as `Path::join` gives it.
pub uninterp spec fn path_join_of(base: Seq<char>, name: Seq<char>) -> Seq<char>;

/// Whether the last component of a path is `..`.
pub open spec fn ends_in_parent(path: Seq<char>) -> bool {
    path == seq!['.', '.'] || (path.len() >= 3 && path.subrange(path.len() - 3, path.len() as int)
        == seq!['/', '.', '.'])
}

/// Calls `Path::file_name` on `path`. Trusted: the result is named `path_file_name_of(path)`,
/// and, as std documents, there is none when the path ends in `..`. The component of a path
/// given as a `&str` is valid UTF-8, so the conversion is exact.
#[verifier::external_body]
pub fn path_file_name(path: &str) -> (r: Option<String>)
    ensures
        match r {
            Some(s) => path_file_name_of(path@) == Some(s@),
            None => path_file_name_of(path@) is None,
        },
        ends_in_parent(path@) ==> r is None,
{
    match std::path::Path::new(path).file_name() {
        Some(s) => Some(s.to_string_lossy().into_owned()),
        None => None,
    }
}

/// Calls `PathBuf::set_file_name` on `path`. Trusted: the result is named
/// `path_with_file_name_of(path, file_name)`.
#[verifier::external_body]
pub fn path_with_file_name(path: &str, file_name: &str) -> (r: String)
    ensures
        r@ == path_with_file_name_of(path@, file_name@),
{
    let mut p = std::path::PathBuf::from(path);
    p.set_file_name(file_name);
    p.to_string_lossy().into_owned()
}

/// Calls `Path::join`. Trusted: the result is named `path_join_of(base, name)`; how the two
/// are joined (the separator of the platform, a `name` that is absolute replacing `base`) is
/// left to std.
#[verifier::external_body]
pub fn path_join(base: &str, name: &str) -> (r: String)
    ensures
        r@ == path_join_of(base@, name@),
{
    std::path::Path::new(base).join(name).to_string_lossy().into_owned()
}

} // verus!
