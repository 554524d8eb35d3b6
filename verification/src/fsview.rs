//! The capability filesystem view: a root-scoped directory handle, consumed
//! through a small set of trusted operations.
//!
//! The handle is `cap_std::fs::Dir`. Every path handed to one of its
//! operations is interpreted relative to the directory the handle was opened
//! on and cannot reach anything outside it, not even through `..` or an
//! absolute symlink target; that containment is cap-std's contract. The
//! library holds the handle opaquely and reads it only through the
//! operations below, whose results it treats as plain values.

use vstd::prelude::*;

use cap_std::fs::{Dir, Metadata};
use cap_std_ext::dirext::CapStdExtDirExt;

verus! {

/// cap-std's root-scoped directory handle. Opaque to the library.
#[verifier::external_type_specification]
#[verifier::external_body]
pub struct ExDir(Dir);

/// Metadata of one filesystem entry, as cap-std hands it out. Opaque.
#[verifier::external_type_specification]
#[verifier::external_body]
pub struct ExMetadata(Metadata);

/// Relies on cap_std::fs::Metadata::is_symlink: whether the entry the
/// metadata was read from is a symbolic link.
pub assume_specification[ Metadata::is_symlink ](m: &Metadata) -> bool;

/// Relies on symlink_metadata_optional of cap-std-ext's CapStdExtDirExt
/// trait: metadata of the entry at `path` below `root`, read without
/// following the entry itself when it is a symlink; `Ok(None)` when no entry
/// is there. What comes back depends on the disk, so nothing is promised of
/// it; callers decide over whatever value arrives.
#[verifier::external_body]
pub fn stat_no_follow(root: &Dir, path: &str) -> Result<Option<Metadata>, String> {
    root.symlink_metadata_optional(path).map_err(|e| e.to_string())
}

/// Relies on open_dir_optional of cap-std-ext's CapStdExtDirExt trait: opens
/// the directory at `path` below `root`, scoped to that subtree; `Ok(None)`
/// when no entry is there.
#[verifier::external_body]
pub fn open_dir_opt(root: &Dir, path: &str) -> Result<Option<Dir>, String> {
    root.open_dir_optional(path).map_err(|e| e.to_string())
}

/// Relies on cap_std::fs::Dir::entries and, per entry, on
/// DirEntry::file_name and DirEntry::file_type: the listing of the open
/// directory itself, each entry as its bare name and whether it is itself a
/// directory (a symlink to one is not). The order is whatever the platform
/// hands out; callers must not lean on it.
#[verifier::external_body]
pub fn entry_names(d: &Dir) -> Result<Vec<(String, bool)>, String> {
    match d.entries() {
        Ok(entries) => entries
            .map(|e| {
                let e = e.map_err(|err| err.to_string())?;
                let is_dir = e.file_type().map_err(|err| err.to_string())?.is_dir();
                Ok((e.file_name().to_string_lossy().into_owned(), is_dir))
            })
            .collect(),
        Err(e) => Err(e.to_string()),
    }
}

/// Relies on cap_std::fs::Dir::try_exists: whether an entry is at `path`
/// below `d`, following symlinks on the way.
#[verifier::external_body]
pub fn path_exists(d: &Dir, path: &str) -> Result<bool, String> {
    d.try_exists(path).map_err(|e| e.to_string())
}

/// Relies on cap_std::fs::Dir::try_clone: a second handle on the same open
/// directory, with the same scope and no wider.
#[verifier::external_body]
pub fn clone_dir(d: &Dir) -> Result<Dir, String> {
    d.try_clone().map_err(|e| e.to_string())
}

} // verus!
