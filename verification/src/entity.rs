//! Any node of the tree.

use vstd::prelude::*;
use crate::file::File;
use crate::folder::Folder;
use crate::error::ErrorKind;
use crate::node::{lemma_first_nowhere, Node};
use crate::text::same_text;
use crate::symbolic_link::SymbolicLink;

verus! {

/// A node of the tree, of one of the three kinds.
pub enum Entity<'a> {
    File(File<'a>),
    Folder(Folder<'a>),
    SymbolicLink(SymbolicLink<'a>),
}

impl<'a> View for Entity<'a> {
    type V = Node;

    open spec fn view(&self) -> Node {
        self.as_node()
    }
}

impl<'a> Entity<'a> {
    /// The entity as a mathematical tree: its view.
    pub open spec fn as_node(&self) -> Node
        decreases self,
    {
        match self {
            Entity::File(file) => Node::File {
                name: file.common_props.name@,
                id: file.common_props.id,
            },
            Entity::Folder(folder) => Node::Folder {
                name: folder.common_props.name@,
                id: folder.common_props.id,
                children: views(folder.children@),
            },
            Entity::SymbolicLink(link) => Node::SymbolicLink {
                name: link.common_props.name@,
                id: link.common_props.id,
                target: Box::new(link.link.as_node()),
            },
        }
    }

    /// The entity's name.
    pub fn name(&self) -> (name: &'a str)
        ensures
            name@ == self@.name(),
    {
        match self {
            Entity::File(file) => file.common_props.name,
            Entity::Folder(folder) => folder.common_props.name,
            Entity::SymbolicLink(link) => link.common_props.name,
        }
    }

    /// The entity's identifier.
    pub fn id(&self) -> (id: usize)
        ensures
            id == self@.id(),
    {
        match self {
            Entity::File(file) => file.common_props.id,
            Entity::Folder(folder) => folder.common_props.id,
            Entity::SymbolicLink(link) => link.common_props.id,
        }
    }

    /// One-level lookup: the entity itself if it is called `name`, else, for
    /// a folder, its first direct child of that name. What lies below a
    /// child is not searched: to go deeper, look again from the child.
    pub fn get(&self, name: &str) -> (found: Option<&Entity<'a>>)
        ensures
            match found {
                Some(entity) => self@.lookup(name@) == Some(entity@),
                None => self@.lookup(name@) is None,
            },
    {
        if same_text(self.name(), name) {
            return Some(self);
        }
        match self {
            Entity::Folder(folder) => folder.get_child(name),
            _ => {
                proof {
                    lemma_first_nowhere(Node::names(self@.children()), name@);
                }
                None
            },
        }
    }

    /// As `get`, for changing what is found: the tree afterwards is the
    /// tree before with the entity found replaced by what the caller
    /// leaves behind the reference.
    pub fn get_mut(&mut self, name: &str) -> (found: Option<&mut Entity<'a>>)
        ensures
            match found {
                Some(entity) => {
                    &&& old(self)@.lookup(name@) == Some(entity@)
                    &&& final(self)@ == old(self)@.with_found(name@, final(entity)@)
                },
                None => {
                    &&& old(self)@.lookup(name@) is None
                    &&& final(self)@ == old(self)@
                },
            },
    {
        if same_text(self.name(), name) {
            return Some(self);
        }
        match self {
            Entity::Folder(folder) => folder.get_child_mut(name),
            _ => {
                proof {
                    lemma_first_nowhere(Node::names(self@.children()), name@);
                }
                None
            },
        }
    }

    /// Tears the entity down and appends to `log` one line for each entity
    /// removed: for a folder every descendant, each before its owner, then
    /// the folder itself, which is left empty; for a file or a link the one
    /// line. The target of a link is not touched.
    pub fn delete(&mut self, log: &mut Vec<String>)
        ensures
            final(self)@ == old(self)@.torn_down(),
            final(log).deep_view() == old(log).deep_view() + old(self)@.notices(),
        decreases *old(self),
    {
        match self {
            Entity::File(file) => file.delete(log),
            Entity::Folder(folder) => folder.delete(log),
            Entity::SymbolicLink(link) => link.delete(log),
        }
    }

    /// Removes the first direct child that carries `id`, after its full
    /// teardown, whose lines go to `log`. A file or a link holds no
    /// children and answers `Unsupported`; a folder without such a child
    /// answers `NotFound`. Where it fails, nothing changes.
    pub fn delete_id(&mut self, id: usize, log: &mut Vec<String>) -> (result: Result<
        usize,
        ErrorKind,
    >)
        ensures
            result == old(self)@.delete_id_result(id),
            final(self)@ == old(self)@.without_id(id),
            final(log).deep_view() == old(log).deep_view() + old(self)@.delete_id_notices(id),
    {
        proof {
            if !(self@ is Folder) {
                lemma_first_nowhere(Node::ids(self@.children()), id);
            }
        }
        match self {
            Entity::File(file) => file.delete_id(id, log),
            Entity::Folder(folder) => folder.delete_id(id, log),
            Entity::SymbolicLink(link) => link.delete_id(id, log),
        }
    }

    /// The canonical text of the entity and of all it owns.
    pub fn to_string(&self) -> (text: String)
        ensures
            text@ == self@.render(),
        decreases self,
    {
        match self {
            Entity::File(file) => file.to_string(),
            Entity::Folder(folder) => folder.to_string(),
            Entity::SymbolicLink(link) => link.to_string(),
        }
    }
}

/// The models of `entities`, in order.
pub open spec fn views<'a>(entities: Seq<Entity<'a>>) -> Seq<Node>
    decreases entities,
{
    Seq::new(
        entities.len(),
        |i: int|
            if 0 <= i < entities.len() {
                entities[i].as_node()
            } else {
                arbitrary()
            },
    )
}

/// Replacing one entity replaces its model, and leaves the others'.
pub proof fn lemma_views_update<'a>(entities: Seq<Entity<'a>>, i: int, new: Entity<'a>)
    requires
        0 <= i < entities.len(),
    ensures
        views(entities.update(i, new)) == views(entities).update(i, new@),
{
}

} // verus!
