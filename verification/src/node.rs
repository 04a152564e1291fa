//! The document tree the site builder renders: text, elements with
//! attributes and children, and raw HTML fragments.
use vstd::prelude::*;

verus! {

#[derive(Debug, PartialEq, Eq)]
pub enum Node {
    /// Text, escaped when rendered.
    Text(String),
    /// An element with its attributes (name, value) and children.
    Element { tag: String, attrs: Vec<(String, String)>, children: Vec<Node> },
    /// An HTML fragment emitted as is.
    RawHtml(String),
}

impl Node {
    /// A text node.
    pub fn text(s: &str) -> (n: Node)
        ensures
            n matches Node::Text(t) && t@ == s@,
    {
        Node::Text(s.to_owned())
    }

    /// An element node.
    pub fn element(tag: &str, attrs: Vec<(String, String)>, children: Vec<Node>) -> (n: Node)
        ensures
            n matches Node::Element { tag: t, attrs: a, children: c } && t@ == tag@ && a == attrs
                && c == children,
    {
        Node::Element { tag: tag.to_owned(), attrs, children }
    }
}

} // verus!
