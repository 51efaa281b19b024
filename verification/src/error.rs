//! Why a removal by identifier can fail.

use vstd::prelude::*;

verus! {

/// The two ways in which `delete_id` fails.
#[derive(Debug, Clone, Copy, PartialEq, Eq, Structural)]
pub enum ErrorKind {
    /// The entity is a file or a link, and holds no children to remove.
    Unsupported,
    /// The folder has no direct child with the identifier asked for.
    NotFound,
}

} // verus!
