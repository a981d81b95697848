//! A builder for recursively walking a directory, and the lazy sequence of
//! typed entries it produces.
//!
//! Results come back depth first, each directory yielded before its contents
//! unless contents-first is chosen. Sibling order is unspecified unless a
//! sort is chosen. The entries `.` and `..` are always omitted. An error at
//! any position is yielded in place of the entry there and the traversal goes
//! on; a directory that cannot be opened is not descended into, but the error
//! for it is still yielded once. The sequence may be dropped at any point,
//! which releases every directory handle it still holds.

use vstd::prelude::*;

use crate::ext;

verus! {

/// The number of simultaneously open directory handles a walk uses unless
/// [`WalkBuild::max_open`] chooses another bound.
pub const DEFAULT_MAX_OPEN: usize = 10;

/// An order for the sibling entries of each directory.
#[derive(Clone, Copy, Debug, PartialEq, Eq)]
pub enum SortCmp {
    /// Ascending by file name.
    FileName,
    /// Descending by file name.
    FileNameReversed,
}

/// The traversal options a [`WalkBuild`] has accumulated. Every configuration
/// method's contract is stated over this record.
#[derive(Clone, Copy, Debug, PartialEq, Eq)]
pub struct WalkParams {
    /// Entries shallower than this are not yielded (they are still descended
    /// into). The root is depth 0.
    pub min_depth: usize,
    /// Directories at this depth are not descended into, so nothing deeper is
    /// ever enumerated.
    pub max_depth: usize,
    /// Whether symbolic links are traversed as their targets.
    pub follow_links: bool,
    /// Bound on simultaneously open directory handles; at least 1.
    pub max_open: usize,
    /// Sibling order within each directory, if one was chosen.
    pub sort: Option<SortCmp>,
    /// Whether a directory's contents are yielded before the directory.
    pub contents_first: bool,
}

/// The options a fresh builder starts from: everything yielded (depth 0 up to
/// an unbounded maximum), symbolic links not followed, the default handle
/// budget, no sort, directories before their contents.
pub open spec fn default_params() -> WalkParams {
    WalkParams {
        min_depth: 0,
        max_depth: usize::MAX,
        follow_links: false,
        max_open: DEFAULT_MAX_OPEN,
        sort: None,
        contents_first: false,
    }
}

/// The capability to walk a proven-existing directory recursively.
pub trait PathDirWalk {
    /// The proven-existing directory this handle stands for.
    spec fn dir_spec(&self) -> path_abs::PathDir;

    /// Begin a recursive walk rooted at this directory, with the default
    /// options; chain configuration calls on the returned builder.
    fn walk(&self) -> (b: WalkBuild)
        ensures
            b.root() == self.dir_spec(),
            b.params() == default_params(),
    ;
}

impl PathDirWalk for path_abs::PathDir {
    closed spec fn dir_spec(&self) -> path_abs::PathDir {
        *self
    }

    /// Walks this directory recursively, with extreme performance (using
    /// `walkdir` under the hood).
    fn walk(&self) -> (b: WalkBuild) {
        WalkBuild::new(ext::dir_clone(self))
    }
}

/// A builder to create an iterator for recursively walking a directory.
///
/// Each configuration method consumes the builder and returns a new one with
/// a single option changed; the contracts below pin down exactly which. The
/// terminal operation is [`WalkBuild::into_iter`], which turns the builder
/// into the lazy sequence of results.
pub struct WalkBuild {
    path: path_abs::PathDir,
    params: WalkParams,
}

impl WalkBuild {
    /// The root directory the walk starts from.
    pub closed spec fn root(&self) -> path_abs::PathDir {
        self.path
    }

    /// The traversal options accumulated so far.
    pub closed spec fn params(&self) -> WalkParams {
        self.params
    }

    /// The depth bounds stay ordered: the constructor starts them so, and the
    /// two depth setters clamp rather than cross them.
    pub open spec fn wf(&self) -> bool {
        self.params().min_depth <= self.params().max_depth
    }

    pub(crate) fn new(path: path_abs::PathDir) -> (b: WalkBuild)
        ensures
            b.root() == path,
            b.params() == default_params(),
            b.wf(),
    {
        WalkBuild {
            path,
            params: WalkParams {
                min_depth: 0,
                max_depth: usize::MAX,
                follow_links: false,
                max_open: DEFAULT_MAX_OPEN,
                sort: None,
                contents_first: false,
            },
        }
    }

    /// Set the minimum depth of entries yielded by the iterator.
    ///
    /// The smallest depth is `0` and always corresponds to the root the
    /// builder was made from. Its direct descendents have depth `1`, and
    /// their descendents have depth `2`, and so on. A bound above the
    /// configured maximum depth is clamped to it.
    pub fn min_depth(self, depth: usize) -> (r: Self)
        ensures
            r.root() == self.root(),
            r.params() == (WalkParams {
                min_depth: if depth > self.params().max_depth {
                    self.params().max_depth
                } else {
                    depth
                },
                ..self.params()
            }),
            r.wf(),
    {
        let bound = if depth > self.params.max_depth { self.params.max_depth } else { depth };
        WalkBuild { params: WalkParams { min_depth: bound, ..self.params }, ..self }
    }

    /// Set the maximum depth of entries yielded by the iterator.
    ///
    /// This does not simply filter the entries: directories at the bound are
    /// not descended into at all, so nothing deeper is ever enumerated. A
    /// bound below the configured minimum depth is clamped to it.
    pub fn max_depth(self, depth: usize) -> (r: Self)
        ensures
            r.root() == self.root(),
            r.params() == (WalkParams {
                max_depth: if depth < self.params().min_depth {
                    self.params().min_depth
                } else {
                    depth
                },
                ..self.params()
            }),
            r.wf(),
    {
        let bound = if depth < self.params.min_depth { self.params.min_depth } else { depth };
        WalkBuild { params: WalkParams { max_depth: bound, ..self.params }, ..self }
    }

    /// Follow symbolic links. By default, this is disabled.
    ///
    /// When `yes` is `true`, symbolic links are followed as if they were
    /// normal directories and files, and a broken link or a link cycle is
    /// yielded as an error at its position rather than ending the walk. When
    /// `false`, a symbolic link is yielded as a leaf for the link itself.
    pub fn follow_links(self, yes: bool) -> (r: Self)
        ensures
            r.root() == self.root(),
            r.params() == (WalkParams { follow_links: yes, ..self.params() }),
    {
        WalkBuild { params: WalkParams { follow_links: yes, ..self.params }, ..self }
    }

    /// Set the maximum number of simultaneously open directory handles used
    /// by the iterator; `0` is clamped to `1`.
    ///
    /// This has no impact on the yielded results or their order, even when
    /// the bound is `1`: when it is reached and another directory must be
    /// opened, a previously opened handle is closed and its unyielded entries
    /// are kept in memory instead.
    pub fn max_open(self, n: usize) -> (r: Self)
        ensures
            r.root() == self.root(),
            r.params() == (WalkParams {
                max_open: if n == 0 { 1 } else { n },
                ..self.params()
            }),
    {
        let bound = if n == 0 { 1 } else { n };
        WalkBuild { params: WalkParams { max_open: bound, ..self.params }, ..self }
    }

    /// Set an order for sibling entries.
    ///
    /// When set, the entries of each directory are yielded in the chosen
    /// order; the order applies per directory, not globally. When unset,
    /// sibling order is whatever the filesystem enumerates.
    pub fn sort_by(self, cmp: SortCmp) -> (r: Self)
        ensures
            r.root() == self.root(),
            r.params() == (WalkParams { sort: Some(cmp), ..self.params() }),
    {
        WalkBuild { params: WalkParams { sort: Some(cmp), ..self.params }, ..self }
    }

    /// Yield a directory's contents before the directory itself. By default,
    /// this is disabled.
    ///
    /// With `yes` false, a directory is yielded before its contents are read
    /// (pre-order), which suits consumers that may skip subtrees. With `yes`
    /// true, the contents come first (post-order), which suits recursive
    /// deletion.
    pub fn contents_first(self, yes: bool) -> (r: Self)
        ensures
            r.root() == self.root(),
            r.params() == (WalkParams { contents_first: yes, ..self.params() }),
    {
        WalkBuild { params: WalkParams { contents_first: yes, ..self.params }, ..self }
    }

    /// Consume the builder, starting the walk: the returned sequence yields
    /// one result at a time, doing only the directory reads that producing
    /// that result needs.
    pub fn into_iter(self) -> (w: Walk)
        ensures
            w.params() == self.params(),
    {
        let mut wd = ext::walkdir_new(&self.path);
        wd = ext::walkdir_max_depth(wd, self.params.max_depth);
        wd = ext::walkdir_min_depth(wd, self.params.min_depth);
        wd = ext::walkdir_follow_links(wd, self.params.follow_links);
        wd = ext::walkdir_max_open(wd, self.params.max_open);
        wd = ext::walkdir_contents_first(wd, self.params.contents_first);
        match self.params.sort {
            None => {},
            Some(SortCmp::FileName) => {
                wd = ext::walkdir_sort_by_file_name(wd);
            },
            Some(SortCmp::FileNameReversed) => {
                wd = ext::walkdir_sort_by_file_name_rev(wd);
            },
        }
        Walk { it: ext::walkdir_into_iter(wd), params: self.params }
    }
}

/// An error yielded in place of an entry; the walk continues after it.
#[derive(Debug, PartialEq, Eq)]
pub enum WalkError {
    /// Opening or reading a directory failed (permissions, an I/O fault, a
    /// broken link or a link cycle while following links). If the failure was
    /// in opening a directory for descent, that subtree yields nothing more,
    /// but this error is still yielded once.
    Enumeration {
        /// Depth of the failed position, relative to the root.
        depth: usize,
        /// Description of the failure.
        msg: String,
    },
    /// An enumerated path could not be classified as an existing file or
    /// directory when the entry was built (for instance, it vanished between
    /// enumeration and the stat).
    Classification {
        /// Depth of the position whose entry could not be built.
        depth: usize,
        /// Description of the failure.
        msg: String,
    },
}

/// One yielded node of the walk: the path classified as file or directory at
/// the moment the entry was produced, along with its depth and whether its
/// own path is a symbolic link.
pub struct PathDirEntry {
    ty: path_abs::PathType,
    depth: usize,
    symlink: bool,
}

impl PathDirEntry {
    /// The classified file-or-directory value of this entry.
    pub closed spec fn ty_spec(&self) -> path_abs::PathType {
        self.ty
    }

    /// Depth of this entry relative to the root of the walk.
    pub closed spec fn depth_spec(&self) -> usize {
        self.depth
    }

    /// Whether this entry's own path is a symbolic link.
    pub closed spec fn symlink_spec(&self) -> bool {
        self.symlink
    }

    /// Build the entry for one record from the classifier's verdict on it: a
    /// classified type gives the entry holding it, with the record's depth
    /// and symlink flag unchanged; a classification failure gives a
    /// classification error at the record's depth, carrying the classifier's
    /// message.
    pub(crate) fn new(
        classified: Result<path_abs::PathType, String>,
        depth: usize,
        symlink: bool,
    ) -> (r: Result<PathDirEntry, WalkError>)
        ensures
            (classified matches Ok(t) ==> (r matches Ok(e) && e.ty_spec() == t
                && e.depth_spec() == depth && e.symlink_spec() == symlink)),
            (classified matches Err(m) ==> (r matches Err(WalkError::Classification {
                depth: d,
                msg,
            }) && d == depth && msg == m)),
    {
        match classified {
            Ok(ty) => Ok(PathDirEntry { ty, depth, symlink }),
            Err(msg) => Err(WalkError::Classification { depth, msg }),
        }
    }

    /// Convert this entry into its `PathType` without consuming it.
    pub fn to_type(&self) -> (r: path_abs::PathType)
        ensures
            r == self.ty_spec(),
    {
        ext::path_type_clone(&self.ty)
    }

    /// Returns `true` if and only if this entry was created from a symbolic
    /// link; the [`WalkBuild::follow_links`] setting has no effect on it.
    /// This reflects the link itself, never its target.
    pub fn was_symlink(&self) -> (r: bool)
        ensures
            r == self.symlink_spec(),
    {
        self.symlink
    }

    /// Returns the depth at which this entry was created relative to the
    /// root. The smallest depth is `0` and always corresponds to the root the
    /// builder was made from; its direct descendents have depth `1`, and
    /// their descendents have depth `2`, and so on.
    pub fn depth(&self) -> (r: usize)
        ensures
            r == self.depth_spec(),
    {
        self.depth
    }

    /// Consume the entry, converting it into its `PathType`; use
    /// [`PathDirEntry::to_type`] instead to keep the entry.
    pub fn into_type(self) -> (r: path_abs::PathType)
        ensures
            r == self.ty_spec(),
    {
        self.ty
    }
}

/// The lazy sequence a [`WalkBuild`] turns into: each call of [`Walk::next`]
/// does exactly the filesystem work that producing one more result needs,
/// then returns to the caller. It cannot be restarted once partly consumed,
/// and dropping it releases every directory handle it still holds.
pub struct Walk {
    it: walkdir::IntoIter,
    params: WalkParams,
}

/// Turn what the engine handed back into the walk's next result: exhaustion
/// stays exhaustion; an engine failure becomes an enumeration error carrying
/// that failure's depth and message; a record within the depth bounds becomes
/// the entry (or classification error) that [`PathDirEntry::new`] builds from
/// the classifier's verdict on it; a record outside the bounds — which the
/// engine, built with those same bounds, never hands back — ends the walk.
fn step(params: WalkParams, raw: Option<Result<ext::RawEntry, ext::RawError>>) -> (r: Option<
    Result<PathDirEntry, WalkError>,
>)
    ensures
        (raw is None ==> r is None),
        (raw matches Some(Err(re)) ==> (r matches Some(Err(WalkError::Enumeration { depth, msg }))
            && depth == re.depth && msg == re.msg)),
        (raw matches Some(Ok(rec)) ==> (if params.min_depth <= rec.depth
            && rec.depth <= params.max_depth {
            r matches Some(res) && (res matches Ok(e) ==> e.depth_spec() == rec.depth
                && e.symlink_spec() == rec.symlink) && (res matches Err(err) ==> (
            err matches WalkError::Classification { depth, .. }
                && depth == rec.depth))
        } else {
            r is None
        })),
{
    match raw {
        None => None,
        Some(Err(re)) => Some(Err(WalkError::Enumeration { depth: re.depth, msg: re.msg })),
        Some(Ok(rec)) => {
            if params.min_depth <= rec.depth && rec.depth <= params.max_depth {
                let classified = ext::classify(&rec.entry);
                Some(PathDirEntry::new(classified, rec.depth, rec.symlink))
            } else {
                None
            }
        },
    }
}

impl Walk {
    /// The options the walk was built with.
    pub closed spec fn params(&self) -> WalkParams {
        self.params
    }

    /// Produce the next result of the walk, or `None` once it is exhausted.
    ///
    /// Every yielded entry's depth lies between the configured minimum and
    /// maximum. An error is yielded in place of the entry at its position and
    /// the walk goes on with the positions after it.
    pub fn next(&mut self) -> (r: Option<Result<PathDirEntry, WalkError>>)
        ensures
            final(self).params() == old(self).params(),
            (r matches Some(Ok(e)) ==> old(self).params().min_depth <= e.depth_spec()
                && e.depth_spec() <= old(self).params().max_depth),
            (r matches Some(Err(WalkError::Classification { depth, .. }))
                ==> old(self).params().min_depth <= depth
                && depth <= old(self).params().max_depth),
    {
        let raw = ext::iter_next(&mut self.it);
        step(self.params, raw)
    }
}

} // verus!
