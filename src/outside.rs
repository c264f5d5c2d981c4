//! The outside types and calls that the resolver relies on.

use vstd::prelude::*;

verus! {

/// `std::path::PathBuf`, carried through as an opaque value.
#[verifier::external_type_specification]
#[verifier::external_body]
pub struct ExPathBuf(std::path::PathBuf);

/// walkdir's recursive directory iterator.
#[verifier::external_type_specification]
#[verifier::external_body]
pub struct ExWalkIter(walkdir::IntoIter);

/// One entry produced by a walkdir traversal.
#[verifier::external_type_specification]
#[verifier::external_body]
pub struct ExDirEntry(walkdir::DirEntry);

/// An entry that a walkdir traversal could not visit.
#[verifier::external_type_specification]
#[verifier::external_body]
pub struct ExWalkError(walkdir::Error);

/// glob's lazy stream of matching paths.
#[verifier::external_type_specification]
#[verifier::external_body]
pub struct ExPaths(glob::Paths);

/// A glob pattern that glob refused to compile.
#[verifier::external_type_specification]
#[verifier::external_body]
pub struct ExPatternError(glob::PatternError);

/// A matching path that glob could not read.
#[verifier::external_type_specification]
#[verifier::external_body]
pub struct ExGlobError(glob::GlobError);

/// What `PathBuf::from` makes of a given text.
pub uninterp spec fn path_buf_of(s: Seq<char>) -> std::path::PathBuf;

/// The walk that `WalkDir::new(root).into_iter()` builds for a given root.
pub uninterp spec fn walk_of(root: Seq<char>) -> walkdir::IntoIter;

/// Whether `glob::glob` accepts a text as a pattern.
pub uninterp spec fn glob_accepts(pattern: Seq<char>) -> bool;

/// Whether a text holds one of the two characters, `*` and `[`, at which
/// glob's pattern compiler can report a syntax error.
pub open spec fn has_error_prone_char(s: Seq<char>) -> bool {
    exists|i: int| 0 <= i < s.len() && (s[i] == '*' || s[i] == '[')
}

/// Relies on `PathBuf::from`: the path is built from the text alone.
#[verifier::external_body]
pub(crate) fn path_buf_from(s: &str) -> (r: std::path::PathBuf)
    ensures
        r == path_buf_of(s@),
{
    std::path::PathBuf::from(s)
}

/// Relies on `WalkDir::new` and its `into_iter`: a depth-first walk rooted at
/// the given path, whose first item is the root itself. Building it reads
/// nothing from the disk, so it depends on the root alone.
#[verifier::external_body]
pub(crate) fn walk_from(root: &str) -> (r: walkdir::IntoIter)
    ensures
        r == walk_of(root@),
{
    walkdir::WalkDir::new(root).into_iter()
}

/// Relies on `walkdir::IntoIter::next`: the next entry of the walk, an entry
/// that could not be visited, or the end. What comes depends on the disk.
#[verifier::external_body]
pub(crate) fn walk_next(walk: &mut walkdir::IntoIter) -> (r: Option<Result<walkdir::DirEntry, walkdir::Error>>) {
    walk.next()
}

/// Relies on `walkdir::DirEntry::into_path`: the full path of the entry.
#[verifier::external_body]
pub(crate) fn entry_into_path(entry: walkdir::DirEntry) -> (r: std::path::PathBuf) {
    entry.into_path()
}

/// Relies on `glob::glob`: it fails exactly when the pattern does not
/// compile, which depends on the text alone, and its compiler reports errors
/// only at a `*` or a `[`.
#[verifier::external_body]
pub(crate) fn glob_start(pattern: &str) -> (r: Result<glob::Paths, glob::PatternError>)
    ensures
        r is Ok <==> glob_accepts(pattern@),
        !has_error_prone_char(pattern@) ==> r is Ok,
{
    glob::glob(pattern)
}

/// Relies on `glob::Paths::next`: the next matching path, a match that could
/// not be read, or the end. What comes depends on the disk.
#[verifier::external_body]
pub(crate) fn glob_next(paths: &mut glob::Paths) -> (r: Option<Result<std::path::PathBuf, glob::GlobError>>) {
    paths.next()
}

} // verus!
