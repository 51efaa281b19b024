//! The container of the tree.

use vstd::prelude::*;
use crate::entity::{lemma_views_update, views, Entity};
use crate::error::ErrorKind;
use crate::node::{lemma_first_at, lemma_first_nowhere, Node};
use crate::props::FileSystemEntityProps;
use crate::text::{folder_notice, folder_text, quote, same_text};

verus! {

/// A folder: an identity record and the children it owns, in the order in
/// which they were added.
pub struct Folder<'a> {
    pub common_props: FileSystemEntityProps<'a>,
    pub children: Vec<Entity<'a>>,
}

impl<'a> View for Folder<'a> {
    type V = Node;

    open spec fn view(&self) -> Node {
        Node::Folder {
            name: self.common_props.name@,
            id: self.common_props.id,
            children: views(self.children@),
        }
    }
}

impl<'a> Folder<'a> {
    /// An empty folder called `name` that carries `id`.
    pub fn new(name: &'a str, id: usize) -> (folder: Self)
        ensures
            folder@ == (Node::Folder { name: name@, id, children: Seq::empty() }),
    {
        let folder = Folder { common_props: FileSystemEntityProps { name, id }, children: Vec::new() };
        assert(views(folder.children@) =~= Seq::empty());
        folder
    }

    /// Takes `child` into the folder, behind the children it already has.
    pub fn add(&mut self, child: Entity<'a>)
        ensures
            final(self)@ == old(self)@.with_children(old(self)@.children().push(child@)),
    {
        self.children.push(child);
        assert(views(self.children@) =~= views(old(self).children@).push(child@));
    }

    /// The folder's name.
    pub fn name(&self) -> (name: &'a str)
        ensures
            name@ == self@.name(),
    {
        self.common_props.name
    }

    /// The folder's identifier.
    pub fn id(&self) -> (id: usize)
        ensures
            id == self@.id(),
    {
        self.common_props.id
    }

    /// The folder's text: a block in braces that holds its quoted name and
    /// then the text of each direct child, in order, a child that is a
    /// folder as a block of its own.
    pub fn to_string(&self) -> (text: String)
        ensures
            text@ == self@.render(),
        decreases self,
    {
        let mut items: Vec<String> = Vec::new();
        let mut pos: usize = 0;
        while pos < self.children.len()
            invariant
                pos <= self.children.len(),
                items.deep_view() == Node::render_all(views(self.children@)).take(pos as int),
            decreases self.children.len() - pos,
        {
            let ghost so_far = items.deep_view();
            let item = self.children[pos].to_string();
            items.push(item);
            assert(items.deep_view() =~= so_far.push(item@));
            pos += 1;
        }
        assert(items.deep_view() =~= Node::render_all(views(self.children@)));
        let own = quote(self.common_props.name);
        folder_text(own.as_str(), &items)
    }

    /// The first direct child called `name`, if there is one.
    pub fn get_child(&self, name: &str) -> (found: Option<&Entity<'a>>)
        ensures
            match found {
                Some(entity) => self@.child_named(name@) is Some && entity@ == self@.children()[
                    self@.child_named(name@).unwrap()
                ],
                None => self@.child_named(name@) is None,
            },
    {
        let mut pos: usize = 0;
        while pos < self.children.len()
            invariant
                pos <= self.children.len(),
                forall|j: int| 0 <= j < pos ==> self.children@[j]@.name() != name@,
            decreases self.children.len() - pos,
        {
            if same_text(self.children[pos].name(), name) {
                proof {
                    lemma_first_at(Node::names(views(self.children@)), name@, pos as int);
                }
                return Some(&self.children[pos]);
            }
            pos += 1;
        }
        proof {
            lemma_first_nowhere(Node::names(views(self.children@)), name@);
        }
        None
    }

    /// As `get_child`, for changing the child: the folder afterwards holds,
    /// in its place, what the caller leaves behind the reference.
    pub fn get_child_mut(&mut self, name: &str) -> (found: Option<&mut Entity<'a>>)
        ensures
            match found {
                Some(entity) => {
                    &&& old(self)@.child_named(name@) is Some
                    &&& entity@ == old(self)@.children()[old(self)@.child_named(name@).unwrap()]
                    &&& final(self)@ == old(self)@.with_children(
                        old(self)@.children().update(
                            old(self)@.child_named(name@).unwrap(),
                            final(entity)@,
                        ),
                    )
                },
                None => {
                    &&& old(self)@.child_named(name@) is None
                    &&& final(self)@ == old(self)@
                },
            },
    {
        let mut pos: usize = 0;
        while pos < self.children.len()
            invariant
                *self == *old(self),
                pos <= self.children.len(),
                forall|j: int| 0 <= j < pos ==> self.children@[j]@.name() != name@,
            decreases self.children.len() - pos,
        {
            if same_text(self.children[pos].name(), name) {
                proof {
                    lemma_first_at(Node::names(views(self.children@)), name@, pos as int);
                    assert forall|new: Entity<'a>|
                        #[trigger] views(self.children@.update(pos as int, new)) == views(
                            self.children@,
                        ).update(pos as int, new@) by {
                        lemma_views_update(self.children@, pos as int, new);
                    }
                }
                return Some(&mut self.children[pos]);
            }
            pos += 1;
        }
        proof {
            lemma_first_nowhere(Node::names(views(self.children@)), name@);
        }
        None
    }

    /// Tears the folder down: removes its children one after the other, the
    /// last first, each with its own full teardown, and then reports the
    /// folder itself, which is left empty.
    pub fn delete(&mut self, log: &mut Vec<String>)
        ensures
            final(self)@ == old(self)@.torn_down(),
            final(log).deep_view() == old(log).deep_view() + old(self)@.notices(),
        decreases *old(self),
    {
        while !self.children.is_empty()
            invariant
                self.common_props == old(self).common_props,
                self.children@ == old(self).children@.take(self.children@.len() as int),
                self.children@.len() <= old(self).children@.len(),
                log.deep_view() + Node::teardown(views(self.children@)) == old(log).deep_view()
                    + Node::teardown(views(old(self).children@)),
            decreases self.children.len(),
        {
            let ghost before = self.children@;
            let mut child = self.children.pop().unwrap();
            child.delete(log);
            assert(views(before).drop_last() =~= views(self.children@));
        }
        let line = folder_notice(self.common_props.name);
        let ghost lines = log.deep_view();
        log.push(line);
        proof {
            assert(log.deep_view() =~= lines.push(line@));
            assert(views(self.children@) =~= Seq::empty());
        }
    }

    /// Removes the first direct child that carries `id`, after its full
    /// teardown, whose lines go to `log`. Only direct children are looked
    /// at. Where none carries `id`, nothing changes.
    pub fn delete_id(&mut self, id: usize, log: &mut Vec<String>) -> (result: Result<
        usize,
        ErrorKind,
    >)
        ensures
            result == old(self)@.delete_id_result(id),
            final(self)@ == old(self)@.without_id(id),
            final(log).deep_view() == old(log).deep_view() + old(self)@.delete_id_notices(id),
    {
        let mut pos: usize = 0;
        while pos < self.children.len()
            invariant
                *self == *old(self),
                *log == *old(log),
                pos <= self.children.len(),
                forall|j: int| 0 <= j < pos ==> self.children@[j]@.id() != id,
            decreases self.children.len() - pos,
        {
            if self.children[pos].id() == id {
                proof {
                    lemma_first_at(Node::ids(views(self.children@)), id, pos as int);
                }
                self.children[pos].delete(log);
                self.children.remove(pos);
                proof {
                    assert(views(self.children@) =~= views(old(self).children@).remove(
                        pos as int,
                    ));
                }
                return Ok(id);
            }
            pos += 1;
        }
        proof {
            lemma_first_nowhere(Node::ids(views(self.children@)), id);
        }
        Err(ErrorKind::NotFound)
    }
}

} // verus!
