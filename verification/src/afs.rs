//! What completion asks of a file system: the names under a directory.

use vstd::prelude::*;

verus! {

/// Why a listing failed, as far as completion tells failures apart.
#[derive(Debug, Clone, Copy, PartialEq, Eq, Structural)]
pub enum IoErrorKind {
    /// There is nothing at the path.
    NotFound,
    /// Anything else.
    Other,
}

/// A failed listing.
#[derive(Debug, Clone, PartialEq, Eq)]
pub struct IoError {
    pub kind: IoErrorKind,
    /// What the file system said.
    pub message: String,
}

/// What an `IoError` holds, as plain values.
pub struct IoErrorView {
    pub kind: IoErrorKind,
    pub message: Seq<char>,
}

impl View for IoError {
    type V = IoErrorView;

    open spec fn view(&self) -> IoErrorView {
        IoErrorView { kind: self.kind, message: self.message@ }
    }
}

impl DeepView for IoError {
    type V = IoErrorView;

    open spec fn deep_view(&self) -> IoErrorView {
        self@
    }
}

/// A tree of files, on disk or anywhere else: an archive, a repository, a
/// list written down in a test.
pub trait AbstractFilesystem {
    /// The names of the files and directories directly in the directory at
    /// `rel_path`, in any order. A path at which there is nothing gives an
    /// error of the kind `NotFound`.
    fn file_names_in(&self, rel_path: &str) -> Result<Vec<String>, IoError>;
}

} // verus!
