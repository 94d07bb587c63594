//! The description of an assignment, as far as it is plain data.

use vstd::prelude::*;

verus! {

/// One file or directory of an assignment that is not to be changed.
#[derive(Debug, Clone, PartialEq, Eq)]
pub struct DojoImmutableFileDescriptor {
    /// What the file is for.
    pub description: Option<String>,
    /// The path of the file.
    pub path: String,
    /// Whether the path names a directory.
    pub is_directory: Option<bool>,
}

/// What a [`DojoImmutableFileDescriptor`] holds.
pub struct DojoImmutableFileDescriptorView {
    pub description: Option<Seq<char>>,
    pub path: Seq<char>,
    pub is_directory: Option<bool>,
}

impl View for DojoImmutableFileDescriptor {
    type V = DojoImmutableFileDescriptorView;

    open spec fn view(&self) -> DojoImmutableFileDescriptorView {
        DojoImmutableFileDescriptorView {
            description: self.description.deep_view(),
            path: self.path@,
            is_directory: self.is_directory,
        }
    }
}

} // verus!
