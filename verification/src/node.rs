//! The mathematical model of an entity tree.

use vstd::prelude::*;
use crate::error::ErrorKind;
use crate::text::{folder_text_of, link_text_of, quoted};

verus! {

/// A tree of entities as a mathematical value: what the executable types
/// are viewed as, and what the contracts of the crate speak of.
pub ghost enum Node {
    File { name: Seq<char>, id: usize },
    Folder { name: Seq<char>, id: usize, children: Seq<Node> },
    /// A link holds what it points at, without owning it in the tree.
    SymbolicLink { name: Seq<char>, id: usize, target: Box<Node> },
}

impl Node {
    pub open spec fn name(self) -> Seq<char> {
        match self {
            Node::File { name, .. } => name,
            Node::Folder { name, .. } => name,
            Node::SymbolicLink { name, .. } => name,
        }
    }

    pub open spec fn id(self) -> usize {
        match self {
            Node::File { id, .. } => id,
            Node::Folder { id, .. } => id,
            Node::SymbolicLink { id, .. } => id,
        }
    }

    /// The direct children in insertion order; none for a file or a link.
    pub open spec fn children(self) -> Seq<Node> {
        match self {
            Node::Folder { children, .. } => children,
            _ => Seq::empty(),
        }
    }

    /// This node with other direct children; a file or a link has none to change.
    pub open spec fn with_children(self, children: Seq<Node>) -> Node {
        match self {
            Node::Folder { name, id, .. } => Node::Folder { name, id, children },
            _ => self,
        }
    }

    /// How many entities the node stands for: itself and all that it owns.
    /// The target of a link is not owned, and not counted.
    pub open spec fn size(self) -> nat
        decreases self,
    {
        match self {
            Node::Folder { children, .. } => Self::size_all(children) + 1,
            _ => 1,
        }
    }

    /// How many entities `nodes` stand for, together.
    pub open spec fn size_all(nodes: Seq<Node>) -> nat
        decreases nodes,
    {
        if nodes.len() == 0 {
            0
        } else {
            nodes.last().size() + Self::size_all(nodes.drop_last())
        }
    }

    /// The names of `nodes`, in order.
    pub open spec fn names(nodes: Seq<Node>) -> Seq<Seq<char>> {
        nodes.map_values(|n: Node| n.name())
    }

    /// The identifiers of `nodes`, in order.
    pub open spec fn ids(nodes: Seq<Node>) -> Seq<usize> {
        nodes.map_values(|n: Node| n.id())
    }

    /// Where a lookup by name lands among the direct children: at the first
    /// one called `name`.
    pub open spec fn child_named(self, name: Seq<char>) -> Option<int> {
        Self::names(self.children()).index_of_first(name)
    }

    /// The first direct child that carries `id`.
    pub open spec fn child_with_id(self, id: usize) -> Option<int> {
        Self::ids(self.children()).index_of_first(id)
    }

    /// One-level lookup: the node itself if it is called `name`, else its
    /// first direct child of that name. Nothing below a child is looked at.
    pub open spec fn lookup(self, name: Seq<char>) -> Option<Node> {
        if self.name() == name {
            Some(self)
        } else {
            match self.child_named(name) {
                Some(i) => Some(self.children()[i]),
                None => None,
            }
        }
    }

    /// The tree in which `new` stands where `lookup(name)` lands.
    pub open spec fn with_found(self, name: Seq<char>, new: Node) -> Node {
        if self.name() == name {
            new
        } else {
            match self.child_named(name) {
                Some(i) => self.with_children(self.children().update(i, new)),
                None => self,
            }
        }
    }

    /// The line that reports the removal of this node alone.
    pub open spec fn notice(self) -> Seq<char> {
        match self {
            Node::File { name, .. } => "deleted file "@ + name,
            Node::Folder { name, .. } => "deleted folder "@ + name,
            Node::SymbolicLink { name, target, .. } => "deleted symbolic link "@ + name
                + " to the file "@ + target.name(),
        }
    }

    /// The lines of a full teardown: every descendant before the node that
    /// owns it, and the node itself last. A link reports itself only.
    pub open spec fn notices(self) -> Seq<Seq<char>>
        decreases self,
    {
        match self {
            Node::Folder { children, .. } => Self::teardown(children).push(self.notice()),
            _ => seq![self.notice()],
        }
    }

    /// The lines of tearing `nodes` down one after the other, the last first.
    pub open spec fn teardown(nodes: Seq<Node>) -> Seq<Seq<char>>
        decreases nodes,
    {
        if nodes.len() == 0 {
            Seq::empty()
        } else {
            nodes.last().notices() + Self::teardown(nodes.drop_last())
        }
    }

    /// What a full teardown leaves: a folder without children; a file or a
    /// link as it was.
    pub open spec fn torn_down(self) -> Node {
        self.with_children(Seq::empty())
    }

    /// What `delete_id` answers.
    pub open spec fn delete_id_result(self, id: usize) -> Result<usize, ErrorKind> {
        if !(self is Folder) {
            Err(ErrorKind::Unsupported)
        } else if self.child_with_id(id) is Some {
            Ok(id)
        } else {
            Err(ErrorKind::NotFound)
        }
    }

    /// The tree after `delete_id`: without the first direct child that
    /// carries `id`, and otherwise as before.
    pub open spec fn without_id(self, id: usize) -> Node {
        match self.child_with_id(id) {
            Some(i) => self.with_children(self.children().remove(i)),
            None => self,
        }
    }

    /// The lines that `delete_id` emits: those of the removed child's teardown.
    pub open spec fn delete_id_notices(self, id: usize) -> Seq<Seq<char>> {
        match self.child_with_id(id) {
            Some(i) => self.children()[i].notices(),
            None => Seq::empty(),
        }
    }

    /// The canonical text of the tree.
    pub open spec fn render(self) -> Seq<char>
        decreases self,
    {
        match self {
            Node::File { name, .. } => quoted(name),
            Node::Folder { name, children, .. } => folder_text_of(
                quoted(name),
                Self::render_all(children),
            ),
            Node::SymbolicLink { name, target, .. } => link_text_of(
                quoted(name),
                quoted(target.name()),
            ),
        }
    }

    /// The texts of `nodes`, in order.
    pub open spec fn render_all(nodes: Seq<Node>) -> Seq<Seq<char>>
        decreases nodes,
    {
        Seq::new(
            nodes.len(),
            |i: int|
                if 0 <= i < nodes.len() {
                    nodes[i].render()
                } else {
                    Seq::empty()
                },
        )
    }
}

/// The first occurrence of `x` in `s` is at `i`, if `x` stands there and
/// nowhere before.
pub proof fn lemma_first_at<A>(s: Seq<A>, x: A, i: int)
    requires
        0 <= i < s.len(),
        s[i] == x,
        forall|j: int| 0 <= j < i ==> s[j] != x,
    ensures
        s.index_of_first(x) == Some(i),
{
    s.index_of_first_ensures(x);
}

/// There is no first occurrence of `x` in `s`, if `x` stands nowhere in it.
pub proof fn lemma_first_nowhere<A>(s: Seq<A>, x: A)
    requires
        forall|j: int| 0 <= j < s.len() ==> s[j] != x,
    ensures
        s.index_of_first(x) is None,
{
    s.index_of_first_ensures(x);
}

} // verus!
