//! What every entity carries.

use vstd::prelude::*;

verus! {

/// The identity record shared by all kinds of entity.
///
/// Neither the name nor the identifier is checked for uniqueness: two
/// siblings may share either, and the first in order then wins.
pub struct FileSystemEntityProps<'a> {
    /// The key by which lookup finds the entity.
    pub name: &'a str,
    /// The key by which removal finds the entity.
    pub id: usize,
}

impl<'a> View for FileSystemEntityProps<'a> {
    type V = (Seq<char>, usize);

    open spec fn view(&self) -> (Seq<char>, usize) {
        (self.name@, self.id)
    }
}

} // verus!
