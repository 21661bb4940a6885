//! Plain records of the working copy, as the local version-control
//! operations report them.

use vstd::prelude::*;

verus! {

/// A tag of the local repository.
pub struct LocalTagInfo {
    pub name: String,
    /// Short commit id the tag points to.
    pub sha: String,
    /// An annotated tag (as opposed to a lightweight one).
    pub is_annotated: bool,
    /// The annotated tag's message.
    pub message: Option<String>,
}

/// A changed file of the working copy.
pub struct FileStatus {
    /// Path relative to the repository root.
    pub path: String,
    pub is_staged: bool,
    pub is_modified: bool,
    pub is_new: bool,
    pub is_deleted: bool,
}

impl FileStatus {
    /// The change marker: `D` deleted, `?` new, `M` modified or staged,
    /// else a blank.
    pub fn status_char(&self) -> (r: char)
        ensures
            r == if self.is_deleted {
                'D'
            } else if self.is_new {
                '?'
            } else if self.is_modified || self.is_staged {
                'M'
            } else {
                ' '
            },
    {
        if self.is_deleted {
            'D'
        } else if self.is_new {
            '?'
        } else if self.is_modified || self.is_staged {
            'M'
        } else {
            ' '
        }
    }

    /// The staging marker: `S` when staged, else a blank.
    pub fn stage_char(&self) -> (r: char)
        ensures
            r == if self.is_staged { 'S' } else { ' ' },
    {
        if self.is_staged {
            'S'
        } else {
            ' '
        }
    }
}

} // verus!
