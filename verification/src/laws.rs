//! What holds of every tree: the laws of lookup, removal and rendering,
//! stated over the model and proved.

use vstd::prelude::*;
use crate::error::ErrorKind;
use crate::node::{lemma_first_at, lemma_first_nowhere, Node};
use crate::text::{joined, quoted};

verus! {

/// A lookup lands on the node itself or on one of its direct children, the
/// first of that name, and on nothing else: it fails exactly when neither
/// the node nor a direct child is called `name`, whatever lies deeper.
pub proof fn law_lookup_is_one_level(node: Node, name: Seq<char>)
    ensures
        match node.lookup(name) {
            Some(found) => {
                &&& found.name() == name
                &&& found == node || exists|i: int|
                    {
                        &&& 0 <= i < node.children().len()
                        &&& found == #[trigger] node.children()[i]
                        &&& forall|j: int| 0 <= j < i ==> node.children()[j].name() != name
                    }
            },
            None => {
                &&& node.name() != name
                &&& forall|i: int|
                    0 <= i < node.children().len() ==> (#[trigger] node.children()[i]).name()
                        != name
            },
        },
{
    let names = Node::names(node.children());
    names.index_of_first_ensures(name);
    if node.name() != name {
        match names.index_of_first(name) {
            Some(i) => {
                assert forall|j: int| 0 <= j < i implies node.children()[j].name() != name by {
                    assert(names[j] == node.children()[j].name());
                }
            },
            None => {
                assert forall|i: int| 0 <= i < node.children().len() implies (
                #[trigger] node.children()[i]).name() != name by {
                    assert(names[i] == node.children()[i].name());
                }
            },
        }
    }
}

/// Lookup is shallow: a leaf two levels down is not found from the root,
/// unless the root or one of its direct children shares its name; the
/// folder between them is found from the root, and the leaf from that folder.
pub proof fn law_lookup_is_shallow(root: Node, c: int, l: int)
    requires
        0 <= c < root.children().len(),
        0 <= l < root.children()[c].children().len(),
        root.name() != root.children()[c].children()[l].name(),
        forall|i: int|
            0 <= i < root.children().len() ==> (#[trigger] root.children()[i]).name()
                != root.children()[c].children()[l].name(),
        forall|i: int| 0 <= i < c ==> (#[trigger] root.children()[i]).name() != root.children()[c].name(),
        forall|j: int|
            0 <= j < l ==> (#[trigger] root.children()[c].children()[j]).name()
                != root.children()[c].children()[l].name(),
    ensures
        root.lookup(root.children()[c].children()[l].name()) is None,
        root.name() != root.children()[c].name() ==> root.lookup(root.children()[c].name())
            == Some(root.children()[c]),
        root.children()[c].lookup(root.children()[c].children()[l].name()) == Some(
            root.children()[c].children()[l],
        ),
{
    let child = root.children()[c];
    let leaf = child.children()[l];
    lemma_first_nowhere(Node::names(root.children()), leaf.name());
    lemma_first_at(Node::names(root.children()), child.name(), c);
    lemma_first_at(Node::names(child.children()), leaf.name(), l);
}

/// A node looked up by its own name is found itself, before any child.
pub proof fn law_self_match_first(node: Node)
    ensures
        node.lookup(node.name()) == Some(node),
{
}

/// Replacing what a lookup found by itself changes nothing.
pub proof fn law_with_found_same(node: Node, name: Seq<char>)
    requires
        node.lookup(name) is Some,
    ensures
        node.with_found(name, node.lookup(name).unwrap()) == node,
{
    let names = Node::names(node.children());
    names.index_of_first_ensures(name);
    if node.name() != name {
        let i = names.index_of_first(name).unwrap();
        assert(node.children().update(i, node.children()[i]) =~= node.children());
    }
}

/// Tearing nodes down reports them from the last to the first, each with
/// all that it owns in one run of lines.
pub proof fn law_teardown_order(nodes: Seq<Node>, i: int)
    requires
        0 <= i < nodes.len(),
    ensures
        Node::teardown(nodes) == Node::teardown(nodes.skip(i + 1)) + nodes[i].notices()
            + Node::teardown(nodes.take(i)),
    decreases nodes.len(),
{
    if i + 1 < nodes.len() {
        let rest = nodes.drop_last();
        law_teardown_order(rest, i);
        assert(rest.take(i) =~= nodes.take(i));
        assert(nodes.skip(i + 1).drop_last() =~= rest.skip(i + 1));
    }
}

/// A teardown is post-order: the lines of a folder are the runs of its
/// children, each complete, and then its own line, last. As this holds of
/// each child in turn, what lies deepest is reported first.
pub proof fn law_delete_is_post_order(node: Node, i: int)
    requires
        0 <= i < node.children().len(),
    ensures
        node.notices().last() == node.notice(),
        node.notices() == Node::teardown(node.children().skip(i + 1)) + node.children()[i].notices()
            + Node::teardown(node.children().take(i)) + seq![node.notice()],
{
    law_teardown_order(node.children(), i);
}

/// A teardown reports each entity once: as many lines as entities, the
/// last of them the node's own.
pub proof fn law_one_notice_each(node: Node)
    ensures
        node.notices().len() == node.size(),
        node.notices().last() == node.notice(),
    decreases node,
{
    match node {
        Node::Folder { children, .. } => {
            law_one_notice_each_of(children);
        },
        _ => {},
    }
}

/// Tearing nodes down reports each entity once.
pub proof fn law_one_notice_each_of(nodes: Seq<Node>)
    ensures
        Node::teardown(nodes).len() == Node::size_all(nodes),
    decreases nodes,
{
    if nodes.len() > 0 {
        law_one_notice_each(nodes.last());
        law_one_notice_each_of(nodes.drop_last());
    }
}

/// `delete_id` on a folder that has a direct child with the identifier
/// removes the first such child and no other: the rest stay, in order, and
/// the lines are those of the removed child's teardown, one for each
/// entity it stood for.
pub proof fn law_delete_id_removes_one(node: Node, id: usize, i: int)
    requires
        node is Folder,
        0 <= i < node.children().len(),
        node.children()[i].id() == id,
        forall|j: int| 0 <= j < i ==> (#[trigger] node.children()[j]).id() != id,
    ensures
        node.delete_id_result(id) == Ok::<usize, ErrorKind>(id),
        node.without_id(id).name() == node.name(),
        node.without_id(id).id() == node.id(),
        node.without_id(id).children().len() == node.children().len() - 1,
        forall|j: int| 0 <= j < i ==> node.without_id(id).children()[j] == node.children()[j],
        forall|j: int|
            i <= j < node.children().len() - 1 ==> node.without_id(id).children()[j]
                == node.children()[j + 1],
        node.delete_id_notices(id) == node.children()[i].notices(),
        node.delete_id_notices(id).len() == node.children()[i].size(),
{
    lemma_first_at(Node::ids(node.children()), id, i);
    law_one_notice_each(node.children()[i]);
}

/// After `delete_id` the removed child is no longer found by its name,
/// unless the folder or another child shares that name.
pub proof fn law_deleted_is_not_found(node: Node, id: usize, i: int)
    requires
        node is Folder,
        0 <= i < node.children().len(),
        node.children()[i].id() == id,
        forall|j: int| 0 <= j < i ==> (#[trigger] node.children()[j]).id() != id,
        node.name() != node.children()[i].name(),
        forall|j: int|
            0 <= j < node.children().len() && j != i ==> (#[trigger] node.children()[j]).name()
                != node.children()[i].name(),
    ensures
        node.lookup(node.children()[i].name()) == Some(node.children()[i]),
        node.without_id(id).lookup(node.children()[i].name()) is None,
{
    let name = node.children()[i].name();
    lemma_first_at(Node::ids(node.children()), id, i);
    lemma_first_at(Node::names(node.children()), name, i);
    let after = node.without_id(id).children();
    assert forall|j: int| 0 <= j < after.len() implies Node::names(after)[j] != name by {
        assert(after[j] == node.children()[if j < i { j } else { j + 1 }]);
    }
    lemma_first_nowhere(Node::names(after), name);
}

/// `delete_id` on a file or a link is refused, and does nothing at all.
pub proof fn law_delete_id_needs_a_folder(node: Node, id: usize)
    requires
        !(node is Folder),
    ensures
        node.delete_id_result(id) == Err::<usize, ErrorKind>(ErrorKind::Unsupported),
        node.without_id(id) == node,
        node.delete_id_notices(id) == Seq::<Seq<char>>::empty(),
{
    lemma_first_nowhere(Node::ids(node.children()), id);
}

/// `delete_id` with an identifier that no direct child carries finds
/// nothing, and leaves the folder as it was, whatever lies deeper.
pub proof fn law_delete_id_missing(node: Node, id: usize)
    requires
        node is Folder,
        forall|i: int| 0 <= i < node.children().len() ==> (#[trigger] node.children()[i]).id() != id,
    ensures
        node.delete_id_result(id) == Err::<usize, ErrorKind>(ErrorKind::NotFound),
        node.without_id(id) == node,
        node.delete_id_notices(id) == Seq::<Seq<char>>::empty(),
{
    lemma_first_nowhere(Node::ids(node.children()), id);
}

/// The items of two runs, joined, are the two runs joined one after the other.
pub proof fn law_joined_concat(a: Seq<Seq<char>>, b: Seq<Seq<char>>)
    ensures
        joined(a + b) == joined(a) + joined(b),
    decreases b.len(),
{
    if b.len() > 0 {
        law_joined_concat(a, b.drop_last());
        assert((a + b).drop_last() =~= a + b.drop_last());
    }
}

/// Rendering is recursive and keeps the structure: the text of a folder
/// is a block in braces that opens with its quoted name, and the whole
/// text of each direct child stands in it, in order, between those of the
/// children before and after it.
pub proof fn law_render_nests(node: Node, i: int)
    requires
        node is Folder,
        0 <= i < node.children().len(),
    ensures
        node.render() == "{ "@ + quoted(node.name()) + ":"@ + joined(
            Node::render_all(node.children().take(i)),
        ) + " "@ + node.children()[i].render() + ", "@ + joined(
            Node::render_all(node.children().skip(i + 1)),
        ) + " }"@,
{
    let texts = Node::render_all(node.children());
    let before = Node::render_all(node.children().take(i));
    let after = Node::render_all(node.children().skip(i + 1));
    let one = seq![node.children()[i].render()];
    assert(texts =~= before + one + after);
    law_joined_concat(before + one, after);
    law_joined_concat(before, one);
    assert(joined(one) =~= " "@ + node.children()[i].render() + ", "@) by {
        assert(joined(one.drop_last()) =~= Seq::<char>::empty());
    }
}

/// The text of a link names its target and stops there: it is the same
/// for any two targets of one name.
pub proof fn law_link_renders_target_name_only(link: Node, other: Node)
    requires
        link is SymbolicLink,
        other is SymbolicLink,
        link.name() == other.name(),
        link->target.name() == other->target.name(),
    ensures
        link.render() == other.render(),
{
}

/// Deleting a link never cascades: it reports the link alone, in one
/// line, and leaves the link with its target as they were.
pub proof fn law_link_never_cascades(link: Node)
    requires
        link is SymbolicLink,
    ensures
        link.notices() == seq![link.notice()],
        link.size() == 1,
        link.torn_down() == link,
{
}

} // verus!
