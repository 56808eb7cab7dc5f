//! An XML element as the Darwin readers see it: its local name, its
//! attributes in document order, and its element and text children.

use vstd::prelude::*;
use crate::errors::DarwinErrorView;
use crate::text::str_eq;

verus! {

/// One attribute of an element.
#[derive(Debug)]
pub struct XmlAttribute {
    pub name: String,
    pub value: String,
}

/// A child of an element: another element, or a run of character data.
#[derive(Debug)]
pub enum XmlNode {
    Element(XmlElement),
    Text(String),
}

/// An element with its attributes and children, in document order.
#[derive(Debug)]
pub struct XmlElement {
    pub name: String,
    pub attributes: Vec<XmlAttribute>,
    pub children: Vec<XmlNode>,
}

/// The last run of character data among `nodes`, if any: each run
/// replaces the one read before it.
pub open spec fn last_text(nodes: Seq<XmlNode>) -> Option<Seq<char>>
    decreases nodes.len(),
{
    if nodes.len() == 0 {
        None
    } else {
        match nodes.last() {
            XmlNode::Text(t) => Some(t@),
            XmlNode::Element(_) => last_text(nodes.drop_last()),
        }
    }
}

/// An optional string, taken by its view.
pub open spec fn opt_view(o: Option<String>) -> Option<Seq<char>> {
    match o {
        Some(s) => Some(s@),
        None => None,
    }
}


/// The last attribute named `name`, if any.
pub open spec fn last_attr(attrs: Seq<XmlAttribute>, name: Seq<char>) -> Option<XmlAttribute>
    decreases attrs.len(),
{
    if attrs.len() == 0 {
        None
    } else if attrs.last().name@ == name {
        Some(attrs.last())
    } else {
        last_attr(attrs.drop_last(), name)
    }
}

/// The last child element named `name`, if any.
pub open spec fn last_child(kids: Seq<XmlNode>, name: Seq<char>) -> Option<XmlElement>
    decreases kids.len(),
{
    if kids.len() == 0 {
        None
    } else {
        match kids.last() {
            XmlNode::Element(c) => if c.name@ == name {
                Some(c)
            } else {
                last_child(kids.drop_last(), name)
            },
            XmlNode::Text(_) => last_child(kids.drop_last(), name),
        }
    }
}

/// The child elements named `name`, in document order.
pub open spec fn children_named(kids: Seq<XmlNode>, name: Seq<char>) -> Seq<XmlElement>
    decreases kids.len(),
{
    if kids.len() == 0 {
        Seq::empty()
    } else {
        match kids.last() {
            XmlNode::Element(c) => if c.name@ == name {
                children_named(kids.drop_last(), name).push(c)
            } else {
                children_named(kids.drop_last(), name)
            },
            XmlNode::Text(_) => children_named(kids.drop_last(), name),
        }
    }
}

/// Reading `items` in document order from `init`: each item updates the
/// state read so far, and the first item that fails ends the reading with
/// its error.
pub open spec fn read_in_order<S, T>(
    items: Seq<T>,
    init: S,
    step: spec_fn(S, T) -> Result<S, DarwinErrorView>,
) -> Result<S, DarwinErrorView>
    decreases items.len(),
{
    if items.len() == 0 {
        Ok(init)
    } else {
        match read_in_order(items.drop_last(), init, step) {
            Ok(s) => step(s, items.last()),
            Err(e) => Err(e),
        }
    }
}

/// Once a prefix of the items has failed, reading them all fails the same
/// way.
pub proof fn lemma_read_in_order_failed_prefix<S, T>(
    items: Seq<T>,
    init: S,
    step: spec_fn(S, T) -> Result<S, DarwinErrorView>,
    i: int,
)
    requires
        0 <= i <= items.len(),
        read_in_order(items.subrange(0, i), init, step) is Err,
    ensures
        read_in_order(items, init, step) == read_in_order(items.subrange(0, i), init, step),
    decreases items.len(),
{
    if i == items.len() {
        assert(items.subrange(0, i) =~= items);
    } else {
        assert(items.drop_last().subrange(0, i) =~= items.subrange(0, i));
        lemma_read_in_order_failed_prefix(items.drop_last(), init, step, i);
    }
}

/// Reading one more item extends the reading of the items before it.
pub proof fn lemma_read_in_order_next<S, T>(
    items: Seq<T>,
    init: S,
    step: spec_fn(S, T) -> Result<S, DarwinErrorView>,
    i: int,
)
    requires
        0 <= i < items.len(),
    ensures
        read_in_order(items.subrange(0, i + 1), init, step) == match read_in_order(
            items.subrange(0, i),
            init,
            step,
        ) {
            Ok(s) => step(s, items[i]),
            Err(e) => Err(e),
        },
{
    assert(items.subrange(0, i + 1).drop_last() =~= items.subrange(0, i));
}

impl XmlElement {
    /// The element's last run of character data.
    pub fn last_text(&self) -> (res: Option<String>)
        ensures
            opt_view(res) == last_text(self.children@),
    {
        let mut found: Option<String> = None;
        let n = self.children.len();
        let mut i: usize = 0;
        while i < n
            invariant
                n == self.children@.len(),
                i <= n,
                opt_view(found) == last_text(self.children@.subrange(0, i as int)),
            decreases n - i,
        {
            assert(self.children@.subrange(0, i + 1).drop_last() =~= self.children@.subrange(
                0,
                i as int,
            ));
            match &self.children[i] {
                XmlNode::Text(t) => {
                    found = Some(t.clone());
                },
                XmlNode::Element(_) => {},
            }
            i = i + 1;
        }
        assert(self.children@.subrange(0, n as int) =~= self.children@);
        found
    }

    /// Whether the element's name is `name`.
    pub fn is_named(&self, name: &str) -> (res: bool)
        ensures
            res == (self.name@ == name@),
    {
        str_eq(self.name.as_str(), name)
    }
}

impl XmlAttribute {
    /// Whether the attribute's name is `name`.
    pub fn is_named(&self, name: &str) -> (res: bool)
        ensures
            res == (self.name@ == name@),
    {
        str_eq(self.name.as_str(), name)
    }
}

} // verus!
