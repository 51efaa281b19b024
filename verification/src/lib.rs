//! An in-memory tree of named, identified entities: files, folders and
//! symbolic links, with one-level lookup, removal by identifier, full
//! teardown and a canonical text.
//!
//! A folder owns its children; a link borrows its target from wherever it
//! is owned. Nothing here touches storage: removal reports what it
//! removed as lines of text, and the caller decides where they go.

pub mod entity;
pub mod error;
pub mod file;
pub mod folder;
pub mod laws;
pub mod node;
pub mod props;
pub mod symbolic_link;
pub mod text;

pub use crate::entity::Entity;
pub use crate::error::ErrorKind;
pub use crate::file::File;
pub use crate::folder::Folder;
pub use crate::props::FileSystemEntityProps;
pub use crate::symbolic_link::SymbolicLink;
