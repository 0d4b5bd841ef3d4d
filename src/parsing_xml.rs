//! Path queries over an element tree and typed reads of the leaves they reach.
use vstd::prelude::*;
use crate::errors::{Fault, TraversalError};
use crate::parsing::FromStringOptional;
use crate::xml_tree::{Element, Xml, subnodes, elements_named, first_text, referents};

verus! {

/// The segments of a path as sequences of characters.
pub open spec fn segments(path: &[&str]) -> Seq<Seq<char>> {
    path@.map_values(|s: &str| s@)
}

/// The elements reached by walking `path` from `node`.
///
/// An empty path reaches `node` itself. At each segment the children of the
/// current element with that name are taken: none is `PathNotFound` unless it
/// is the last segment and `ignore_empty_leaf` holds (then nothing is
/// reached); more than one is `MultipleNode` unless it is the last segment,
/// whose matches are all returned.
pub open spec fn traversal(node: Element, path: Seq<Seq<char>>, ignore_empty_leaf: bool) -> Result<
    Seq<Element>,
    Fault,
>
    decreases path.len(),
{
    if path.len() == 0 {
        Ok(seq![node])
    } else {
        let found = subnodes(node, path[0]);
        if found.len() == 0 {
            if path.len() == 1 && ignore_empty_leaf {
                Ok(seq![])
            } else {
                Err(Fault::PathNotFound(path[0]))
            }
        } else if path.len() == 1 {
            Ok(found)
        } else if found.len() > 1 {
            Err(Fault::MultipleNode(path[0]))
        } else {
            traversal(found[0], path.drop_first(), ignore_empty_leaf)
        }
    }
}

/// The mathematical value of a traversal's outcome.
pub open spec fn reached(r: Result<Vec<&Element>, TraversalError>) -> Result<Seq<Element>, Fault> {
    match r {
        Ok(v) => Ok(referents(v@)),
        Err(e) => Err(e@),
    }
}

/// The direct element children of `node` named `subnode`, in document order.
pub fn find_subnodes<'a>(node: &'a Element, subnode: &str) -> (r: Vec<&'a Element>)
    ensures
        referents(r@) == subnodes(*node, subnode@),
{
    let target = subnode.to_owned();
    let mut found: Vec<&'a Element> = Vec::new();
    let n: usize = node.children.len();
    let mut i: usize = 0;
    while i < n
        invariant
            n == node.children@.len(),
            i <= n,
            target@ == subnode@,
            referents(found@) == elements_named(node.children@.take(i as int), subnode@),
        decreases n - i,
    {
        let child = &node.children[i];
        proof {
            assert(node.children@.take(i + 1).drop_last() == node.children@.take(i as int));
            assert(node.children@.take(i + 1).last() == node.children@[i as int]);
        }
        match child {
            Xml::ElementNode(e) => {
                if e.name == target {
                    let ghost before = found@;
                    found.push(e);
                    assert(referents(found@) == referents(before).push(*e));
                }
            },
            _ => {},
        }
        i = i + 1;
    }
    assert(node.children@.take(n as int) == node.children@);
    found
}

/// The one element that `path` must reach from `node`.
pub open spec fn single_must(node: Element, path: Seq<Seq<char>>) -> Result<Element, Fault> {
    match traversal(node, path, false) {
        Ok(found) => if found.len() > 1 {
            Err(Fault::MultipleNode(path.last()))
        } else {
            Ok(found[0])
        },
        Err(f) => Err(f),
    }
}

/// The element, if any, that `path` reaches from `node`, where at most one
/// may be reached.
pub open spec fn single_optional(node: Element, path: Seq<Seq<char>>) -> Result<
    Option<Element>,
    Fault,
> {
    match traversal(node, path, true) {
        Ok(found) => if found.len() > 1 {
            Err(Fault::MultipleNode(path.last()))
        } else if found.len() == 0 {
            Ok(None)
        } else {
            Ok(Some(found[0]))
        },
        Err(f) => Err(f),
    }
}

/// The value read from the leaf that `path` must reach from `node`.
pub open spec fn must_value<T: FromStringOptional>(node: Element, path: Seq<Seq<char>>) -> Result<
    T::V,
    Fault,
> {
    match single_must(node, path) {
        Ok(leaf) => {
            let text = first_text(leaf.children@);
            match T::from_text(text) {
                Some(v) => Ok(v),
                None => Err(Fault::ConversionFailed(text)),
            }
        },
        Err(f) => Err(f),
    }
}

/// The value read from the leaf, if any, that `path` reaches from `node`; a
/// text that denotes no value counts as no value.
pub open spec fn optional_value<T: FromStringOptional>(
    node: Element,
    path: Seq<Seq<char>>,
) -> Result<Option<T::V>, Fault> {
    match single_optional(node, path) {
        Ok(Some(leaf)) => Ok(T::from_text(first_text(leaf.children@))),
        Ok(None) => Ok(None),
        Err(f) => Err(f),
    }
}

/// The mathematical value of a query for one element.
pub open spec fn reached_one(r: Result<&Element, TraversalError>) -> Result<Element, Fault> {
    match r {
        Ok(e) => Ok(*e),
        Err(e) => Err(e@),
    }
}

/// The mathematical value of a query for at most one element.
pub open spec fn reached_optional(r: Result<Option<&Element>, TraversalError>) -> Result<
    Option<Element>,
    Fault,
> {
    match r {
        Ok(Some(e)) => Ok(Some(*e)),
        Ok(None) => Ok(None),
        Err(e) => Err(e@),
    }
}

/// The mathematical value of a typed read.
pub open spec fn read_value<T: View>(r: Result<T, TraversalError>) -> Result<T::V, Fault> {
    match r {
        Ok(v) => Ok(v@),
        Err(e) => Err(e@),
    }
}

/// The mathematical value of an optional typed read.
pub open spec fn read_optional<T: View>(r: Result<Option<T>, TraversalError>) -> Result<
    Option<T::V>,
    Fault,
> {
    match r {
        Ok(Some(v)) => Ok(Some(v@)),
        Ok(None) => Ok(None),
        Err(e) => Err(e@),
    }
}

/// A successful traversal reaches at least one element unless an empty leaf
/// is allowed, and exactly one for the empty path.
pub proof fn lemma_traversal_count(node: Element, path: Seq<Seq<char>>, ignore_empty_leaf: bool)
    ensures
        traversal(node, path, ignore_empty_leaf) matches Ok(found) ==> {
            &&& !ignore_empty_leaf ==> found.len() >= 1
            &&& path.len() == 0 ==> found == seq![node]
        },
    decreases path.len(),
{
    if path.len() > 0 {
        let found = subnodes(node, path[0]);
        if found.len() == 1 && path.len() > 1 {
            lemma_traversal_count(found[0], path.drop_first(), ignore_empty_leaf);
        }
    }
}

/// Walks `path` from `node`, segment by segment, as `traversal` describes.
pub fn traverse<'a>(node: &'a Element, path: &[&str], ignore_empty_leaf: bool) -> (r: Result<
    Vec<&'a Element>,
    TraversalError,
>)
    ensures
        reached(r) == traversal(*node, segments(path), ignore_empty_leaf),
{
    if path.len() == 0 {
        let r: Vec<&'a Element> = vec![node];
        assert(referents(r@) == seq![*node]);
        return Ok(r);
    }
    let ghost full = segments(path);
    let mut curnode: &'a Element = node;
    let mut x: usize = 0;
    assert(full.skip(0) == full);
    loop
        invariant
            0 < path@.len(),
            x < path@.len(),
            full == segments(path),
            traversal(*curnode, full.skip(x as int), ignore_empty_leaf) == traversal(
                *node,
                full,
                ignore_empty_leaf,
            ),
        decreases path@.len() - x,
    {
        let item: &str = path[x];
        let found = find_subnodes(curnode, item);
        let last = x + 1 >= path.len();
        proof {
            let rest = full.skip(x as int);
            assert(rest[0] == item@);
            assert(rest.drop_first() == full.skip(x + 1));
        }
        if found.len() == 0 {
            if last && ignore_empty_leaf {
                assert(referents(found@) == Seq::<Element>::empty());
                return Ok(found);
            } else {
                return Err(TraversalError::PathNotFound(item.to_owned()));
            }
        }
        if found.len() > 1 && !last {
            return Err(TraversalError::MultipleNode(item.to_owned()));
        }
        if last {
            return Ok(found);
        }
        curnode = found[0];
        x = x + 1;
    }
}

/// The one element that `path` reaches from `node`: `MultipleNode` when the
/// last segment matches several siblings, the traversal's error otherwise.
pub fn traverse_single_must<'a>(node: &'a Element, path: &[&str]) -> (r: Result<
    &'a Element,
    TraversalError,
>)
    ensures
        reached_one(r) == single_must(*node, segments(path)),
{
    let found = match traverse(node, path, false) {
        Ok(found) => found,
        Err(e) => return Err(e),
    };
    proof {
        lemma_traversal_count(*node, segments(path), false);
    }
    if found.len() > 1 {
        return Err(TraversalError::MultipleNode(path[path.len() - 1].to_owned()));
    }
    Ok(found[0])
}

/// The element, if any, that `path` reaches from `node`: `None` when the
/// last segment matches nothing, `MultipleNode` when it matches several.
pub fn traverse_single_optional<'a>(node: &'a Element, path: &[&str]) -> (r: Result<
    Option<&'a Element>,
    TraversalError,
>)
    ensures
        reached_optional(r) == single_optional(*node, segments(path)),
{
    let found = match traverse(node, path, true) {
        Ok(found) => found,
        Err(e) => return Err(e),
    };
    proof {
        lemma_traversal_count(*node, segments(path), true);
    }
    if found.len() > 1 {
        return Err(TraversalError::MultipleNode(path[path.len() - 1].to_owned()));
    }
    if found.len() == 0 {
        return Ok(None);
    }
    Ok(Some(found[0]))
}

/// The content of the first text child of `node`, or the empty text when it
/// has none; never an error.
pub fn inner_text<'a>(node: &'a Element) -> (r: Result<&'a str, TraversalError>)
    ensures
        match r {
            Ok(text) => text@ == first_text(node.children@),
            Err(_) => false,
        },
{
    let n: usize = node.children.len();
    let mut i: usize = 0;
    assert(node.children@.skip(0) == node.children@);
    while i < n
        invariant
            n == node.children@.len(),
            i <= n,
            first_text(node.children@.skip(i as int)) == first_text(node.children@),
        decreases n - i,
    {
        assert(node.children@.skip(i as int).drop_first() == node.children@.skip(i + 1));
        match &node.children[i] {
            Xml::CharacterNode(txt) => {
                return Ok(txt.as_str());
            },
            _ => {},
        }
        i = i + 1;
    }
    let empty = "";
    proof {
        reveal_strlit("");
    }
    Ok(empty)
}

/// Reads a `T` from the leaf, if any, that `path` reaches from `node`.
///
/// A missing leaf gives `None`, and so does a leaf whose text denotes no
/// value of `T`; errors of the traversal are passed on.
pub fn cast_optional<T: FromStringOptional>(node: &Element, path: &[&str]) -> (r: Result<
    Option<T>,
    TraversalError,
>)
    ensures
        read_optional(r) == optional_value::<T>(*node, segments(path)),
{
    match traverse_single_optional(node, path) {
        Ok(Some(leaf)) => match inner_text(leaf) {
            Ok(txt) => match T::from_str_optional(txt) {
                Ok(v) => Ok(Some(v)),
                Err(_) => Ok(None),
            },
            Err(_) => Ok(None),
        },
        Ok(None) => Ok(None),
        Err(e) => Err(e),
    }
}

/// Reads a `T` from the leaf that `path` must reach from `node`; a leaf with
/// no text is read as the empty text.
pub fn cast_must<T: FromStringOptional>(node: &Element, path: &[&str]) -> (r: Result<
    T,
    TraversalError,
>)
    ensures
        read_value(r) == must_value::<T>(*node, segments(path)),
{
    let leaf = match traverse_single_must(node, path) {
        Ok(leaf) => leaf,
        Err(e) => return Err(e),
    };
    let txt = match inner_text(leaf) {
        Ok(txt) => txt,
        Err(e) => return Err(e),
    };
    T::from_str_optional(txt)
}

/// The empty path reaches exactly the node it starts from.
pub proof fn lemma_empty_path_is_identity(node: Element, ignore_empty_leaf: bool)
    ensures
        traversal(node, seq![], ignore_empty_leaf) == Ok::<Seq<Element>, Fault>(seq![node]),
{
}

/// Once the first `i` segments have reached exactly `mid`, the rest of the
/// walk goes on from `mid` alone.
pub proof fn lemma_traversal_through(
    node: Element,
    path: Seq<Seq<char>>,
    i: int,
    mid: Element,
    ignore_empty_leaf: bool,
)
    requires
        0 <= i < path.len(),
        traversal(node, path.take(i), false) == Ok::<Seq<Element>, Fault>(seq![mid]),
    ensures
        traversal(node, path, ignore_empty_leaf) == traversal(mid, path.skip(i), ignore_empty_leaf),
    decreases i,
{
    if i == 0 {
        assert(path.take(0).len() == 0);
        assert(seq![node][0] == seq![mid][0]);
        assert(path.skip(0) == path);
    } else {
        let prefix = path.take(i);
        assert(prefix[0] == path[0]);
        let found = subnodes(node, path[0]);
        if prefix.len() == 1 {
            assert(found == seq![mid]);
        }
        assert(found.len() == 1);
        assert(prefix.drop_first() == path.drop_first().take(i - 1));
        assert(path.drop_first().skip(i - 1) == path.skip(i));
        lemma_traversal_through(found[0], path.drop_first(), i - 1, mid, ignore_empty_leaf);
    }
}

/// Where a segment other than the last matches several siblings of the
/// element that the segments before it reached, the traversal fails with
/// `MultipleNode` naming that segment, whatever the later segments match.
pub proof fn lemma_ambiguous_inner_segment(
    node: Element,
    path: Seq<Seq<char>>,
    i: int,
    mid: Element,
    ignore_empty_leaf: bool,
)
    requires
        path.len() >= 2,
        0 <= i < path.len() - 1,
        traversal(node, path.take(i), false) == Ok::<Seq<Element>, Fault>(seq![mid]),
        subnodes(mid, path[i]).len() > 1,
    ensures
        traversal(node, path, ignore_empty_leaf) == Err::<Seq<Element>, Fault>(
            Fault::MultipleNode(path[i]),
        ),
{
    lemma_traversal_through(node, path, i, mid, ignore_empty_leaf);
    assert(path.skip(i)[0] == path[i]);
}

/// A query for one element succeeds only where the traversal reaches exactly
/// that element.
pub proof fn lemma_single_must_reaches_one(node: Element, path: Seq<Seq<char>>)
    ensures
        single_must(node, path) matches Ok(e) ==> traversal(node, path, false) == Ok::<
            Seq<Element>,
            Fault,
        >(seq![e]),
{
    lemma_traversal_count(node, path, false);
    if let Ok(found) = traversal(node, path, false) {
        if found.len() == 1 {
            assert(found == seq![found[0]]);
        }
    }
}

/// A required segment that matches nothing under the element that the
/// segments before it reached makes the mandatory read fail with
/// `PathNotFound` naming it; the last segment is the missing leaf.
pub proof fn lemma_cast_must_missing_segment<T: FromStringOptional>(
    node: Element,
    path: Seq<Seq<char>>,
    i: int,
    parent: Element,
)
    requires
        0 <= i < path.len(),
        traversal(node, path.take(i), false) == Ok::<Seq<Element>, Fault>(seq![parent]),
        subnodes(parent, path[i]).len() == 0,
    ensures
        must_value::<T>(node, path) == Err::<T::V, Fault>(Fault::PathNotFound(path[i])),
{
    lemma_traversal_through(node, path, i, parent, false);
    assert(path.skip(i)[0] == path[i]);
}

/// Under the element that the other segments reached, a missing leaf is no
/// element, and a leaf with a sibling of the same name is `MultipleNode`.
pub proof fn lemma_single_optional_leaf(node: Element, path: Seq<Seq<char>>, parent: Element)
    requires
        path.len() >= 1,
        traversal(node, path.drop_last(), false) == Ok::<Seq<Element>, Fault>(seq![parent]),
    ensures
        subnodes(parent, path.last()).len() == 0 ==> single_optional(node, path) == Ok::<
            Option<Element>,
            Fault,
        >(None),
        subnodes(parent, path.last()).len() >= 2 ==> single_optional(node, path) == Err::<
            Option<Element>,
            Fault,
        >(Fault::MultipleNode(path.last())),
{
    let i = path.len() - 1;
    assert(path.take(i) == path.drop_last());
    lemma_traversal_through(node, path, i, parent, true);
    assert(path.skip(i) == seq![path.last()]);
}

/// An element with no text child has the empty text.
pub proof fn lemma_no_text_child(children: Seq<Xml>)
    requires
        forall|j: int| 0 <= j < children.len() ==> !(#[trigger] children[j] is CharacterNode),
    ensures
        first_text(children) == Seq::<char>::empty(),
    decreases children.len(),
{
    if children.len() > 0 {
        assert(!(children[0] is CharacterNode));
        let rest = children.drop_first();
        assert forall|j: int| 0 <= j < rest.len() implies !(#[trigger] rest[j] is CharacterNode) by {
            assert(rest[j] == children[j + 1]);
        }
        lemma_no_text_child(rest);
    }
}

/// The text of an element is the content of its first text child.
pub proof fn lemma_first_text_at(children: Seq<Xml>, k: int)
    requires
        0 <= k < children.len(),
        children[k] is CharacterNode,
        forall|j: int| 0 <= j < k ==> !(#[trigger] children[j] is CharacterNode),
    ensures
        first_text(children) == children[k]->CharacterNode_0@,
    decreases k,
{
    if k > 0 {
        let rest = children.drop_first();
        assert(rest[k - 1] == children[k]);
        assert forall|j: int| 0 <= j < k - 1 implies !(#[trigger] rest[j] is CharacterNode) by {
            assert(rest[j] == children[j + 1]);
        }
        lemma_first_text_at(rest, k - 1);
    }
}

/// A leaf whose text denotes no value of `T` is read as no value.
pub proof fn lemma_cast_optional_unreadable<T: FromStringOptional>(
    node: Element,
    path: Seq<Seq<char>>,
    leaf: Element,
)
    requires
        single_optional(node, path) == Ok::<Option<Element>, Fault>(Some(leaf)),
        T::from_text(first_text(leaf.children@)) is None,
    ensures
        optional_value::<T>(node, path) == Ok::<Option<T::V>, Fault>(None),
{
}

/// Reading the leaf that a path reaches as text gives back the content of
/// its first text child exactly.
pub proof fn lemma_leaf_text_round_trip(node: Element, path: Seq<Seq<char>>, leaf: Element, k: int)
    requires
        single_must(node, path) == Ok::<Element, Fault>(leaf),
        0 <= k < leaf.children@.len(),
        leaf.children@[k] is CharacterNode,
        forall|j: int| 0 <= j < k ==> !(#[trigger] leaf.children@[j] is CharacterNode),
    ensures
        must_value::<String>(node, path) == Ok::<Seq<char>, Fault>(
            leaf.children@[k]->CharacterNode_0@,
        ),
{
    lemma_first_text_at(leaf.children@, k);
}

} // verus!
