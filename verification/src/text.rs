//! Text: comparing names, quoting them, and composing the lines and
//! renderings that the tree hands out.

use vstd::prelude::*;
use vstd::string::StringSliceAdditionalSpecFns;
use vstd::utf8::encode_utf8_decode_utf8;

verus! {

/// The quoted, escaped form of a text, as `std` writes a `str` for `{:?}`:
/// inside double quotes, with its escapes.
pub uninterp spec fn quoted(text: Seq<char>) -> Seq<char>;

/// Calls `<str as core::fmt::Debug>::fmt` through `format!("{:?}", ..)`.
///
/// Not proved: that the text returned is `quoted` of the argument, which
/// claims no more than that the formatting depends on the characters alone.
#[verifier::external_body]
pub(crate) fn quote(text: &str) -> (q: String)
    ensures
        q@ == quoted(text@),
{
    format!("{:?}", text)
}

/// Whether two texts hold the same characters.
pub fn same_text(a: &str, b: &str) -> (same: bool)
    ensures
        same == (a@ == b@),
{
    let x = a.as_bytes();
    let y = b.as_bytes();
    if x.len() != y.len() {
        return false;
    }
    let mut i: usize = 0;
    while i < x.len()
        invariant
            i <= x.len(),
            x.len() == y.len(),
            x@ == a.spec_bytes(),
            y@ == b.spec_bytes(),
            forall|j: int| 0 <= j < i ==> x@[j] == y@[j],
        decreases x.len() - i,
    {
        if x[i] != y[i] {
            return false;
        }
        i += 1;
    }
    proof {
        assert(x@ =~= y@);
        encode_utf8_decode_utf8(a@);
        encode_utf8_decode_utf8(b@);
    }
    true
}

/// The items of a folder's text: each after a space, each before a comma
/// and a space.
pub open spec fn joined(items: Seq<Seq<char>>) -> Seq<char>
    decreases items.len(),
{
    if items.len() == 0 {
        Seq::empty()
    } else {
        joined(items.drop_last()) + " "@ + items.last() + ", "@
    }
}

/// The text of a folder, from its quoted name and the texts of its
/// children: a block in braces, the name first.
pub open spec fn folder_text_of(quoted_name: Seq<char>, items: Seq<Seq<char>>) -> Seq<char> {
    "{ "@ + quoted_name + ":"@ + joined(items) + " }"@
}

/// The text of a link, from its quoted name and that of its target.
pub open spec fn link_text_of(quoted_name: Seq<char>, quoted_target: Seq<char>) -> Seq<char> {
    quoted_name + " -> "@ + quoted_target
}

/// Composes a folder's text from its quoted name and its children's texts.
pub fn folder_text(quoted_name: &str, items: &Vec<String>) -> (s: String)
    ensures
        s@ == folder_text_of(quoted_name@, items.deep_view()),
{
    let mut s = String::from_str("{ ");
    s.append(quoted_name);
    s.append(":");
    let mut i: usize = 0;
    while i < items.len()
        invariant
            i <= items.len(),
            s@ == "{ "@ + quoted_name@ + ":"@ + joined(items.deep_view().take(i as int)),
        decreases items.len() - i,
    {
        proof {
            let all = items.deep_view();
            assert(all.take(i + 1).drop_last() =~= all.take(i as int));
        }
        s.append(" ");
        s.append(items[i].as_str());
        s.append(", ");
        i += 1;
    }
    proof {
        assert(items.deep_view().take(i as int) =~= items.deep_view());
    }
    s.append(" }");
    s
}

/// Composes a link's text from its quoted name and that of its target.
pub fn link_text(quoted_name: &str, quoted_target: &str) -> (s: String)
    ensures
        s@ == link_text_of(quoted_name@, quoted_target@),
{
    let mut s = String::from_str(quoted_name);
    s.append(" -> ");
    s.append(quoted_target);
    s
}

/// The line that reports a removed file.
pub fn file_notice(name: &str) -> (s: String)
    ensures
        s@ == "deleted file "@ + name@,
{
    let mut s = String::from_str("deleted file ");
    s.append(name);
    s
}

/// The line that reports a removed folder.
pub fn folder_notice(name: &str) -> (s: String)
    ensures
        s@ == "deleted folder "@ + name@,
{
    let mut s = String::from_str("deleted folder ");
    s.append(name);
    s
}

/// The line that reports a removed link, with the name of what it pointed at.
pub fn link_notice(name: &str, target: &str) -> (s: String)
    ensures
        s@ == "deleted symbolic link "@ + name@ + " to the file "@ + target@,
{
    let mut s = String::from_str("deleted symbolic link ");
    s.append(name);
    s.append(" to the file ");
    s.append(target);
    s
}

} // verus!
