//! The alias of the tree.

use vstd::prelude::*;
use crate::entity::Entity;
use crate::error::ErrorKind;
use crate::node::Node;
use crate::props::FileSystemEntityProps;
use crate::text::{link_notice, link_text, quote};

verus! {

/// A symbolic link: an identity record and a shared borrow of its target.
///
/// The target is owned elsewhere and outlives the link: the borrow keeps
/// it from being changed or dropped for as long as the link exists, so a
/// link never dangles and never reaches into the tree it is stored in.
pub struct SymbolicLink<'a> {
    pub common_props: FileSystemEntityProps<'a>,
    pub link: &'a Entity<'a>,
}

impl<'a> View for SymbolicLink<'a> {
    type V = Node;

    open spec fn view(&self) -> Node {
        Node::SymbolicLink {
            name: self.common_props.name@,
            id: self.common_props.id,
            target: Box::new(self.link@),
        }
    }
}

impl<'a> SymbolicLink<'a> {
    /// A link called `name` that carries `id` and points at `target`.
    pub fn new(name: &'a str, id: usize, target: &'a Entity<'a>) -> (link: Self)
        ensures
            link@ == (Node::SymbolicLink { name: name@, id, target: Box::new(target@) }),
    {
        SymbolicLink { common_props: FileSystemEntityProps { name, id }, link: target }
    }

    /// The link's own name, not that of its target.
    pub fn name(&self) -> (name: &'a str)
        ensures
            name@ == self@.name(),
    {
        self.common_props.name
    }

    /// The link's own identifier.
    pub fn id(&self) -> (id: usize)
        ensures
            id == self@.id(),
    {
        self.common_props.id
    }

    /// The link's text: its quoted name, an arrow, and the quoted name of
    /// its target. What lies below the target is not rendered.
    pub fn to_string(&self) -> (text: String)
        ensures
            text@ == self@.render(),
    {
        let own = quote(self.common_props.name);
        let target = quote(self.link.name());
        link_text(own.as_str(), target.as_str())
    }

    /// A link holds no children: always `Unsupported`, and nothing changes.
    pub fn delete_id(&mut self, id: usize, log: &mut Vec<String>) -> (result: Result<
        usize,
        ErrorKind,
    >)
        ensures
            result == Err::<usize, ErrorKind>(ErrorKind::Unsupported),
            result == old(self)@.delete_id_result(id),
            final(self)@ == old(self)@,
            *final(log) == *old(log),
    {
        Err(ErrorKind::Unsupported)
    }

    /// Reports the link removed, naming its target: one line, and neither
    /// the link nor what it points at changes.
    pub fn delete(&mut self, log: &mut Vec<String>)
        ensures
            final(self)@ == old(self)@,
            final(log).deep_view() == old(log).deep_view() + old(self)@.notices(),
    {
        let line = link_notice(self.common_props.name, self.link.name());
        log.push(line);
    }
}

} // verus!
