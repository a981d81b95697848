//! Ergonomic filesystem types: a typed, verified directory-traversal builder
//! layered over the `walkdir` and `path_abs` crates, together with re-exports
//! of the path, file, archive and temporary-directory types this crate is
//! commonly used with.

pub use path_abs;
pub use std_prelude;
pub use tar;
pub use tempdir;
pub use walkdir;

pub use path_abs::{FileEdit, FileRead, FileWrite, PathAbs, PathArc, PathDir, PathFile, PathType};

mod ext;
mod walk;

pub use walk::{
    default_params, PathDirEntry, PathDirWalk, SortCmp, Walk, WalkBuild, WalkError, WalkParams,
    DEFAULT_MAX_OPEN,
};
