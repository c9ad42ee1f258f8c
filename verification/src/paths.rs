//! Where a staged copy lives: the scratch directory and the destination of
//! one source path inside it.

use vstd::prelude::*;

verus! {

/// Name of the scratch directory below the application's cache root.
pub const SCRATCH_SUBDIR: &'static str = "shelfsend_tmp";

/// The final component of `path` as `std::path::Path::file_name` gives it,
/// or `None` where std finds none, as for a path that ends in `..`.
///
/// std splits paths by the rules of the target family the crate is compiled
/// for; this name stands for that rule and is left uninterpreted. Nothing is
/// assumed of it beyond being a function of the path's text.
pub uninterp spec fn path_file_name(path: Seq<char>) -> Option<Seq<char>>;

/// `base` with `part` adjoined, as `std::path::Path::join` builds it.
///
/// Left uninterpreted for the same reason as [`path_file_name`].
pub uninterp spec fn path_join(base: Seq<char>, part: Seq<char>) -> Seq<char>;

/// Whether a source path names a file at all. Sources that do not are
/// skipped by staging.
pub open spec fn has_file_name(source: Seq<char>) -> bool {
    path_file_name(source) is Some
}

/// The scratch directory that belongs to a cache root.
pub open spec fn scratch_path(cache_root: Seq<char>) -> Seq<char> {
    path_join(cache_root, SCRATCH_SUBDIR@)
}

/// Where the copy of `source` lives inside `scratch`, if `source` names a
/// file: the scratch directory joined with the bare file name. The directory
/// part of `source` plays no role.
pub open spec fn destination(scratch: Seq<char>, source: Seq<char>) -> Option<Seq<char>> {
    match path_file_name(source) {
        Some(name) => Some(path_join(scratch, name)),
        None => None,
    }
}

/// Calls `std::path::Path::file_name` on `path`.
///
/// Trusted, not proved: the result depends on the text of `path` alone and
/// is the value that [`path_file_name`] names. The component that std
/// returns is a slice of `path`, hence valid UTF-8, so turning it into an
/// owned string loses nothing.
#[verifier::external_body]
fn file_name_of(path: &str) -> (name: Option<String>)
    ensures
        name.deep_view() == path_file_name(path@),
{
    match std::path::Path::new(path).file_name() {
        Some(name) => Some(name.to_string_lossy().into_owned()),
        None => None,
    }
}

/// Calls `std::path::Path::join` on `base` with `part`.
///
/// Trusted, not proved: the result depends on the two texts alone and is the
/// value that [`path_join`] names. Both inputs are valid UTF-8 and so is the
/// joined path, so turning it into an owned string loses nothing.
#[verifier::external_body]
fn join_path(base: &str, part: &str) -> (joined: String)
    ensures
        joined@ == path_join(base@, part@),
{
    std::path::Path::new(base).join(part).to_string_lossy().into_owned()
}

/// The scratch directory below `cache_root`. Pure: the directory is not
/// created here.
pub fn scratch_dir(cache_root: &str) -> (dir: String)
    ensures
        dir@ == scratch_path(cache_root@),
{
    join_path(cache_root, SCRATCH_SUBDIR)
}

/// The destination of `source` inside `scratch`, or `None` if `source` has
/// no file name.
pub fn resolve_destination(scratch: &str, source: &str) -> (dest: Option<String>)
    ensures
        dest.deep_view() == destination(scratch@, source@),
{
    match file_name_of(source) {
        Some(name) => Some(join_path(scratch, name.as_str())),
        None => None,
    }
}

} // verus!
