//! Classification of a path argument and the sequence of paths it resolves to.

use crate::outside::{
    entry_into_path, glob_accepts, glob_next, glob_start, has_error_prone_char, path_buf_from,
    path_buf_of, walk_from, walk_next, walk_of,
};
use std::path::PathBuf;
use vstd::prelude::*;

verus! {

/// How a path argument is resolved.
#[derive(PartialEq, Eq, Structural, Clone, Copy, Debug)]
pub enum Mode {
    /// An existing regular file: the sequence is that one path.
    File,
    /// Any other existing entry: the sequence walks it recursively.
    Directory,
    /// Nothing exists under the argument: it is expanded as a glob pattern.
    Glob,
}

/// The mode for an argument, given whether an entry exists under it and
/// whether that entry is a regular file. An existing entry always wins over
/// reading the argument as a pattern.
pub open spec fn mode_of(exists: bool, is_file: bool) -> Mode {
    if !exists {
        Mode::Glob
    } else if is_file {
        Mode::File
    } else {
        Mode::Directory
    }
}

/// Decides how an argument is resolved from what the filesystem says of it.
pub fn classify(exists: bool, is_file: bool) -> (m: Mode)
    ensures
        m == mode_of(exists, is_file),
{
    if exists {
        if is_file {
            Mode::File
        } else {
            Mode::Directory
        }
    } else {
        Mode::Glob
    }
}


/// Why the resolver could not produce a sequence, or one item of it. Each
/// variant keeps the outside error that caused it.
#[derive(Debug)]
pub enum PathError {
    /// The argument was read as a glob pattern and does not compile.
    Pattern(glob::PatternError),
    /// An entry of a directory walk could not be visited.
    Walk(walkdir::Error),
    /// A path matching a glob pattern could not be read.
    Glob(glob::GlobError),
}

/// The lazy sequence that one path argument resolves to. Its variant is
/// chosen when it is built and never changes afterwards.
#[derive(Debug)]
pub enum PathIter {
    /// A depth-first walk of a directory, its root first. Symbolic links are
    /// yielded as entries and not followed; siblings come in the order in
    /// which the operating system lists them, unsorted.
    Directory(walkdir::IntoIter),
    /// A single file, until it has been pulled.
    File(Option<PathBuf>),
    /// The expansion of a glob pattern.
    Glob(glob::Paths),
}

/// The sequence that an existing regular file named by `f` resolves to.
pub open spec fn file_sequence(f: Seq<char>) -> PathIter {
    PathIter::File(Some(path_buf_of(f)))
}

/// What one pull of a file sequence yields, given its pending path.
pub open spec fn file_pull(pending: Option<PathBuf>) -> Option<Result<PathBuf, PathError>> {
    match pending {
        Some(p) => Some(Ok(p)),
        None => None,
    }
}

impl PathIter {
    /// The mode that this sequence resolves in.
    pub open spec fn mode(self) -> Mode {
        match self {
            PathIter::Directory(_) => Mode::Directory,
            PathIter::File(_) => Mode::File,
            PathIter::Glob(_) => Mode::Glob,
        }
    }

    /// Pulls the next item: a path, a failure for one entry, or `None` at the
    /// end. A file sequence yields its path once and nothing after; a walk
    /// reports only walk failures and a glob expansion only read failures,
    /// and a failure does not end either of them.
    pub fn next(&mut self) -> (r: Option<Result<PathBuf, PathError>>)
        ensures
            final(self).mode() == old(self).mode(),
            *old(self) matches PathIter::File(pending) ==> {
                &&& r == file_pull(pending)
                &&& *final(self) == PathIter::File(None)
            },
            *old(self) is Directory ==> (r matches Some(Err(e)) ==> e is Walk),
            *old(self) is Glob ==> (r matches Some(Err(e)) ==> e is Glob),
    {
        match self {
            PathIter::Directory(walk) => match walk_next(walk) {
                None => None,
                Some(Ok(entry)) => Some(Ok(entry_into_path(entry))),
                Some(Err(e)) => Some(Err(PathError::Walk(e))),
            },
            PathIter::File(pending) => {
                let item = pending.take();
                match item {
                    Some(p) => Some(Ok(p)),
                    None => None,
                }
            },
            PathIter::Glob(paths) => match glob_next(paths) {
                None => None,
                Some(Ok(p)) => Some(Ok(p)),
                Some(Err(e)) => Some(Err(PathError::Glob(e))),
            },
        }
    }
}

/// What resolving `path` may give, given whether an entry exists under it and
/// whether that entry is a regular file: a sequence in the chosen mode, which
/// for a file is that one path and for any other
/// entry the walk rooted at it; for a missing entry, a pattern failure exactly
/// when glob does not accept `path`, which never happens without a `*` or `[`.
pub open spec fn resolves(path: Seq<char>, exists: bool, is_file: bool, r: Result<PathIter, PathError>) -> bool {
    &&& r is Ok ==> r->Ok_0.mode() == mode_of(exists, is_file)
    &&& mode_of(exists, is_file) == Mode::File ==> r == Ok::<PathIter, PathError>(file_sequence(path))
    &&& mode_of(exists, is_file) == Mode::Directory
        ==> r == Ok::<PathIter, PathError>(PathIter::Directory(walk_of(path)))
    &&& mode_of(exists, is_file) == Mode::Glob ==> {
        &&& r is Ok <==> glob_accepts(path)
        &&& r matches Err(e) ==> e is Pattern
        &&& !has_error_prone_char(path) ==> r is Ok
    }
}

/// Builds the sequence for `path`, given whether an entry exists under it and
/// whether that entry is a regular file. An existing regular file gives a
/// sequence of that one path, any other existing entry a recursive walk rooted
/// at it, and a missing one the expansion of `path` as a glob pattern, which
/// fails here, before any item, exactly when the pattern does not compile.
pub fn extract_paths(path: &str, exists: bool, is_file: bool) -> (r: Result<PathIter, PathError>)
    ensures
        resolves(path@, exists, is_file, r),
{
    match classify(exists, is_file) {
        Mode::File => Ok(PathIter::File(Some(path_buf_from(path)))),
        Mode::Directory => Ok(PathIter::Directory(walk_from(path))),
        Mode::Glob => match glob_start(path) {
            Ok(paths) => Ok(PathIter::Glob(paths)),
            Err(e) => Err(PathError::Pattern(e)),
        },
    }
}


/// Resolving an existing regular file yields exactly one item, a success that
/// holds the file's own path, and after it only the end of the sequence.
pub proof fn lemma_file_yields_itself_once(f: Seq<char>, r: Result<PathIter, PathError>)
    requires
        resolves(f, true, true, r),
    ensures
        r matches Ok(PathIter::File(pending))
            && file_pull(pending) == Some(Ok::<PathBuf, PathError>(path_buf_of(f))),
        file_pull(None) is None,
{
}

/// Resolving the same existing regular file twice, in two separate calls,
/// gives the same sequence, whose single item is the same success both times.
pub proof fn lemma_file_resolution_repeatable(
    f: Seq<char>,
    first: Result<PathIter, PathError>,
    second: Result<PathIter, PathError>,
)
    requires
        resolves(f, true, true, first),
        resolves(f, true, true, second),
    ensures
        first == second,
        first matches Ok(PathIter::File(p)) && second matches Ok(PathIter::File(q))
            && file_pull(p) == file_pull(q),
{
}

} // verus!
