//! The element tree that queries walk, and what a query sees of it.
use vstd::prelude::*;

verus! {

/// An element of a parsed XML document: its name and its ordered children.
#[derive(Debug, PartialEq, Eq)]
pub struct Element {
    pub name: String,
    pub children: Vec<Xml>,
}

/// A child of an element.
#[derive(Debug, PartialEq, Eq)]
pub enum Xml {
    ElementNode(Element),
    CharacterNode(String),
    CDATANode(String),
    CommentNode(String),
    PINode(String),
}

/// Whether `c` is an element child named `name`.
pub open spec fn is_element_named(c: Xml, name: Seq<char>) -> bool {
    c is ElementNode && c->ElementNode_0.name@ == name
}

/// The element children among `children` named `name`, in document order.
pub open spec fn elements_named(children: Seq<Xml>, name: Seq<char>) -> Seq<Element>
    decreases children.len(),
{
    if children.len() == 0 {
        seq![]
    } else {
        let rest = elements_named(children.drop_last(), name);
        if is_element_named(children.last(), name) {
            rest.push(children.last()->ElementNode_0)
        } else {
            rest
        }
    }
}

/// The direct element children of `node` named `name`, in document order.
pub open spec fn subnodes(node: Element, name: Seq<char>) -> Seq<Element> {
    elements_named(node.children@, name)
}

/// The content of the first text child among `children`, or the empty text.
pub open spec fn first_text(children: Seq<Xml>) -> Seq<char>
    decreases children.len(),
{
    if children.len() == 0 {
        seq![]
    } else if children[0] is CharacterNode {
        children[0]->CharacterNode_0@
    } else {
        first_text(children.drop_first())
    }
}

/// The elements that a sequence of references points to.
pub open spec fn referents(s: Seq<&Element>) -> Seq<Element> {
    s.map_values(|e: &Element| *e)
}

impl Element {
    /// An element with the given name and no children.
    pub fn new(name: String) -> (r: Element)
        ensures
            r.name == name,
            r.children@.len() == 0,
    {
        Element { name, children: Vec::new() }
    }

    /// Appends a child at the end of the children.
    pub fn push_child(&mut self, child: Xml)
        ensures
            final(self).name == old(self).name,
            final(self).children@ == old(self).children@.push(child),
    {
        self.children.push(child);
    }
}

} // verus!
