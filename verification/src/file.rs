//! The leaf of the tree.

use vstd::prelude::*;
use crate::error::ErrorKind;
use crate::node::Node;
use crate::props::FileSystemEntityProps;
use crate::text::{file_notice, quote};

verus! {

/// A file: an identity record and nothing below it.
pub struct File<'a> {
    pub common_props: FileSystemEntityProps<'a>,
}

impl<'a> View for File<'a> {
    type V = Node;

    open spec fn view(&self) -> Node {
        Node::File { name: self.common_props.name@, id: self.common_props.id }
    }
}

impl<'a> File<'a> {
    /// A file called `name` that carries `id`.
    pub fn new(name: &'a str, id: usize) -> (file: Self)
        ensures
            file@ == (Node::File { name: name@, id }),
    {
        File { common_props: FileSystemEntityProps { name, id } }
    }

    /// The file's name.
    pub fn name(&self) -> (name: &'a str)
        ensures
            name@ == self@.name(),
    {
        self.common_props.name
    }

    /// The file's identifier.
    pub fn id(&self) -> (id: usize)
        ensures
            id == self@.id(),
    {
        self.common_props.id
    }

    /// The file's text: its name, quoted.
    pub fn to_string(&self) -> (text: String)
        ensures
            text@ == self@.render(),
    {
        quote(self.common_props.name)
    }

    /// A file holds no children: always `Unsupported`, and nothing changes.
    pub fn delete_id(&mut self, id: usize, log: &mut Vec<String>) -> (result: Result<
        usize,
        ErrorKind,
    >)
        ensures
            result == Err::<usize, ErrorKind>(ErrorKind::Unsupported),
            result == old(self)@.delete_id_result(id),
            final(self)@ == old(self)@,
            *final(log) == *old(log),
    {
        Err(ErrorKind::Unsupported)
    }

    /// Reports the file removed: one line, and nothing else changes.
    pub fn delete(&mut self, log: &mut Vec<String>)
        ensures
            final(self)@ == old(self)@,
            final(log).deep_view() == old(log).deep_view() + old(self)@.notices(),
    {
        let line = file_notice(self.common_props.name);
        log.push(line);
    }
}

} // verus!
