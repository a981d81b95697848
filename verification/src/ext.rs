//! Declarations of the `walkdir` and `path_abs` types that the traversal is
//! built on, and thin trusted wrappers around the calls into those crates.
//! Everything else in the crate is verified against the contracts stated here.

use vstd::prelude::*;

verus! {

#[verifier::external_type_specification]
#[verifier::external_body]
pub struct ExWalkDir(walkdir::WalkDir);

#[verifier::external_type_specification]
#[verifier::external_body]
pub struct ExIntoIter(walkdir::IntoIter);

#[verifier::external_type_specification]
#[verifier::external_body]
pub struct ExDirEntry(walkdir::DirEntry);

#[verifier::external_type_specification]
#[verifier::external_body]
pub struct ExError(walkdir::Error);

#[verifier::external_type_specification]
#[verifier::external_body]
pub struct ExPathDir(path_abs::PathDir);

#[verifier::external_type_specification]
#[verifier::external_body]
pub struct ExPathType(path_abs::PathType);

/// One raw record handed back by the underlying traversal engine: the entry
/// itself together with the two plain values the verified code reads from it.
pub(crate) struct RawEntry {
    /// The underlying enumerated entry, kept for classification.
    pub(crate) entry: walkdir::DirEntry,
    /// Depth of the entry relative to the traversal root (the root is 0).
    pub(crate) depth: usize,
    /// Whether the entry's own path (not its target) is a symbolic link.
    pub(crate) symlink: bool,
}

/// A failure reported by the underlying traversal engine, reduced to the
/// plain values the verified code keeps of it.
pub(crate) struct RawError {
    /// Depth at which the failure occurred, relative to the traversal root.
    pub(crate) depth: usize,
    /// The engine's description of the failure.
    pub(crate) msg: String,
}

/// Relies on `path_abs::PathDir`'s derived `Clone`, which copies the shared
/// reference-counted path: the copy is the same value.
#[verifier::external_body]
pub(crate) fn dir_clone(d: &path_abs::PathDir) -> (r: path_abs::PathDir)
    ensures
        r == *d,
{
    d.clone()
}

/// Relies on `path_abs::PathType`'s derived `Clone`, which copies the shared
/// reference-counted path: the copy is the same value.
#[verifier::external_body]
pub(crate) fn path_type_clone(t: &path_abs::PathType) -> (r: path_abs::PathType)
    ensures
        r == *t,
{
    t.clone()
}

/// Relies on `walkdir::WalkDir::new`: a traversal rooted at the given path,
/// with the crate's default options.
#[verifier::external_body]
pub(crate) fn walkdir_new(root: &path_abs::PathDir) -> walkdir::WalkDir {
    walkdir::WalkDir::new(root)
}

/// Relies on `walkdir::WalkDir::min_depth`: entries shallower than the bound
/// are not yielded. The caller hands a value no greater than the configured
/// maximum depth, so walkdir's own clamping leaves it unchanged.
#[verifier::external_body]
pub(crate) fn walkdir_min_depth(w: walkdir::WalkDir, depth: usize) -> walkdir::WalkDir {
    w.min_depth(depth)
}

/// Relies on `walkdir::WalkDir::max_depth`: directories at the bound are not
/// descended into, so deeper nodes are pruned rather than filtered. The caller
/// hands a value no smaller than the configured minimum depth.
#[verifier::external_body]
pub(crate) fn walkdir_max_depth(w: walkdir::WalkDir, depth: usize) -> walkdir::WalkDir {
    w.max_depth(depth)
}

/// Relies on `walkdir::WalkDir::follow_links`: when enabled, symbolic links
/// are traversed as their targets, and a broken link or a link cycle is
/// reported as an error entry instead of ending the traversal.
#[verifier::external_body]
pub(crate) fn walkdir_follow_links(w: walkdir::WalkDir, yes: bool) -> walkdir::WalkDir {
    w.follow_links(yes)
}

/// Relies on `walkdir::WalkDir::max_open`: bounds the simultaneously open
/// directory handles, trading them for memory without changing the yielded
/// results or their order. The caller hands a value of at least 1.
#[verifier::external_body]
pub(crate) fn walkdir_max_open(w: walkdir::WalkDir, n: usize) -> walkdir::WalkDir {
    w.max_open(n)
}

/// Relies on `walkdir::WalkDir::sort_by_file_name`: entries within each
/// directory are yielded in ascending order of their file names.
#[verifier::external_body]
pub(crate) fn walkdir_sort_by_file_name(w: walkdir::WalkDir) -> walkdir::WalkDir {
    w.sort_by_file_name()
}

/// Relies on `walkdir::WalkDir::sort_by`: entries within each directory are
/// yielded in the order of the given comparison, here descending file name.
#[verifier::external_body]
pub(crate) fn walkdir_sort_by_file_name_rev(w: walkdir::WalkDir) -> walkdir::WalkDir {
    w.sort_by(|a, b| b.file_name().cmp(a.file_name()))
}

/// Relies on `walkdir::WalkDir::contents_first`: when enabled, a directory's
/// contents are yielded before the directory itself (post-order); otherwise
/// the directory comes first (pre-order).
#[verifier::external_body]
pub(crate) fn walkdir_contents_first(w: walkdir::WalkDir, yes: bool) -> walkdir::WalkDir {
    w.contents_first(yes)
}

/// Relies on `walkdir::WalkDir`'s `IntoIterator`: begins the depth-first
/// traversal configured by the builder.
#[verifier::external_body]
pub(crate) fn walkdir_into_iter(w: walkdir::WalkDir) -> walkdir::IntoIter {
    w.into_iter()
}

/// Relies on `walkdir::IntoIter::next`, which performs the directory reads:
/// `None` once the traversal is exhausted, otherwise the next entry or the
/// error that stands in its place. The plain fields of the result are filled
/// from the entry's own accessors: `DirEntry::depth` (distance from the root)
/// and `DirEntry::path_is_symlink` (whether the entry's own path is a
/// symbolic link, regardless of the follow-links setting), or `Error::depth`
/// for a failure. What comes back depends on the filesystem, so nothing more
/// is promised of it.
#[verifier::external_body]
pub(crate) fn iter_next(it: &mut walkdir::IntoIter) -> (r: Option<Result<RawEntry, RawError>>) {
    match it.next() {
        None => None,
        Some(Ok(entry)) => {
            let depth = entry.depth();
            let symlink = entry.path_is_symlink();
            Some(Ok(RawEntry { entry, depth, symlink }))
        },
        Some(Err(err)) => Some(Err(RawError { depth: err.depth(), msg: format!("{}", err) })),
    }
}

/// Relies on `std::path::Path::metadata`, which follows symbolic links, to
/// read the target's kind, and on `path_abs::PathType::new` to resolve and
/// classify it: the classified existing file or directory on success, and the
/// error's description when the target is missing or unreadable (for instance
/// when it vanished after enumeration) or is neither a regular file nor a
/// directory (a device, socket or pipe). `PathType::new` aborts on such other
/// node kinds instead of returning, so it is called only once the target is
/// known to be a file or a directory; a node that changes kind between the
/// two stats can still defeat that guard. What comes back depends on the
/// filesystem, so nothing more is promised of it.
#[verifier::external_body]
pub(crate) fn classify(entry: &walkdir::DirEntry) -> (r: Result<path_abs::PathType, String>) {
    match entry.path().metadata() {
        Err(err) => Err(format!("{}", err)),
        Ok(meta) if meta.is_file() || meta.is_dir() => {
            match path_abs::PathType::new(entry.path()) {
                Ok(ty) => Ok(ty),
                Err(err) => Err(format!("{}", err)),
            }
        },
        Ok(_) => Err(format!("{}: neither a file nor a directory", entry.path().display())),
    }
}

} // verus!
