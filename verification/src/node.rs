//! The styled document tree as the layout pass sees it: an arena of nodes
//! indexed by position, each holding its parent link, its element or text
//! payload, a computed-style snapshot, and the per-node layout record.
//!
//! Parents always precede their children in the arena, and the arena's
//! first node is the document root, which is always an element.

use vstd::prelude::*;
use crate::layout_aux::LayoutData;
use crate::style::{ComputedStyle, TextDecoration, Display, Position, FloatKind, str_eq};

verus! {

/// One attribute of an element.
#[derive(Clone, Debug)]
pub struct Attr {
    pub name: String,
    pub value: String,
}

/// The payload of an element node: its tag name and attributes.
#[derive(Clone, Debug)]
pub struct ElementData {
    pub tag: String,
    pub attrs: Vec<Attr>,
}

/// A document node's payload: an element or a text node.
#[derive(Clone, Debug)]
pub enum NodeKind {
    Element(ElementData),
    Text(String),
}

/// One node of the document tree.
#[derive(Clone, Debug)]
pub struct NodeData {
    pub parent: Option<usize>,
    pub kind: NodeKind,
    pub style: ComputedStyle,
    pub layout_data: Option<LayoutData>,
}

/// The document tree, in an arena ordered so that every parent precedes
/// its children.
#[derive(Clone, Debug)]
pub struct NodeTree {
    pub nodes: Vec<NodeData>,
}

pub open spec fn node_is_element(nd: NodeData) -> bool {
    nd.kind is Element
}

/// The first attribute of that name, if any.
pub open spec fn spec_get_attr(attrs: Seq<Attr>, name: Seq<char>) -> Option<Seq<char>>
    decreases attrs.len(),
{
    if attrs.len() == 0 {
        None
    } else if attrs[0].name@ == name {
        Some(attrs[0].value@)
    } else {
        spec_get_attr(attrs.skip(1), name)
    }
}

impl ElementData {
    /// Looks up an attribute by name; the first match wins.
    pub fn get_attr(&self, name: &str) -> (r: Option<&String>)
        ensures
            match r {
                Some(v) => spec_get_attr(self.attrs@, name@) == Some(v@),
                None => spec_get_attr(self.attrs@, name@) is None,
            },
    {
        let n = self.attrs.len();
        let mut i: usize = 0;
        proof {
            assert(self.attrs@.skip(0) =~= self.attrs@);
        }
        while i < n
            invariant
                n == self.attrs@.len(),
                0 <= i <= n,
                spec_get_attr(self.attrs@, name@) == spec_get_attr(self.attrs@.skip(i as int),
                    name@),
            decreases n - i,
        {
            if str_eq(self.attrs[i].name.as_str(), name) {
                proof {
                    assert(self.attrs@.skip(i as int)[0] == self.attrs@[i as int]);
                }
                return Some(&self.attrs[i].value);
            }
            proof {
                assert(self.attrs@.skip(i as int)[0] == self.attrs@[i as int]);
                assert(self.attrs@.skip(i as int).skip(1) =~= self.attrs@.skip(i + 1));
            }
            i = i + 1;
        }
        None
    }
}

impl NodeTree {
    /// Well-formedness: non-empty, rooted at an element, every non-root
    /// node's parent earlier in the arena, every style well formed.
    pub open spec fn wf(&self) -> bool {
        &&& self.nodes@.len() > 0
        &&& self.nodes@[0].parent is None
        &&& node_is_element(self.nodes@[0])
        &&& forall|i: int| 1 <= i < self.nodes@.len() ==> ((#[trigger] self.nodes@[i]).parent
            matches Some(p) && p < i)
        &&& forall|i: int| 0 <= i < self.nodes@.len()
            ==> (#[trigger] self.nodes@[i]).style.wf()
    }

    pub fn len(&self) -> (r: usize)
        ensures
            r == self.nodes@.len(),
    {
        self.nodes.len()
    }

    pub fn is_element(&self, node: usize) -> (r: bool)
        requires
            node < self.nodes@.len(),
        ensures
            r == node_is_element(self.nodes@[node as int]),
    {
        match &self.nodes[node].kind {
            NodeKind::Element(_) => true,
            NodeKind::Text(_) => false,
        }
    }

    pub fn is_text(&self, node: usize) -> (r: bool)
        requires
            node < self.nodes@.len(),
        ensures
            r == (self.nodes@[node as int].kind is Text),
    {
        match &self.nodes[node].kind {
            NodeKind::Element(_) => false,
            NodeKind::Text(_) => true,
        }
    }

    /// Whether the node is an element with the `img` tag.
    pub fn is_image_element(&self, node: usize) -> (r: bool)
        requires
            node < self.nodes@.len(),
        ensures
            r == spec_is_image_element(self.nodes@[node as int]),
    {
        match &self.nodes[node].kind {
            NodeKind::Element(e) => str_eq(e.tag.as_str(), "img"),
            NodeKind::Text(_) => false,
        }
    }

    /// The text payload of a text node.
    pub fn node_text(&self, node: usize) -> (r: Option<&String>)
        requires
            node < self.nodes@.len(),
        ensures
            match r {
                Some(t) => self.nodes@[node as int].kind matches NodeKind::Text(s) && t@ == s@,
                None => !(self.nodes@[node as int].kind is Text),
            },
    {
        match &self.nodes[node].kind {
            NodeKind::Element(_) => None,
            NodeKind::Text(t) => Some(t),
        }
    }

    /// The nearest ancestor-or-self element of `node`. The tree is always
    /// rooted at an element, so one exists.
    pub fn nearest_ancestor_element(&self, node: usize) -> (r: usize)
        requires
            self.wf(),
            node < self.nodes@.len(),
        ensures
            r == spec_nearest_ancestor_element(self, node as int),
            r <= node,
            node_is_element(self.nodes@[r as int]),
    {
        proof {
            lemma_nearest_ancestor_element(self, node as int);
        }
        let mut n = node;
        while !self.is_element(n)
            invariant
                self.wf(),
                n <= node < self.nodes@.len(),
                spec_nearest_ancestor_element(self, n as int) == spec_nearest_ancestor_element(
                    self, node as int),
            decreases n,
        {
            proof {
                lemma_nearest_ancestor_element(self, n as int);
            }
            n = match self.nodes[n].parent {
                Some(p) => p,
                None => 0,
            };
        }
        n
    }

    /// The CSS text-decoration propagated down to `node`: walking from the
    /// nearest element upward, the first element that declares a decoration
    /// of its own supplies it, as long as each element on the way is
    /// statically positioned, not floated, and neither inline-block nor
    /// inline-table; the chain's end supplies none.
    pub fn propagated_text_decoration(&self, node: usize) -> (r: TextDecoration)
        requires
            self.wf(),
            node < self.nodes@.len(),
        ensures
            r == spec_propagated_text_decoration(self, node as int),
        decreases node,
    {
        let nd = &self.nodes[node];
        match &nd.kind {
            NodeKind::Text(_) => {
                match nd.parent {
                    None => TextDecoration::NoDecoration,
                    Some(p) => self.propagated_text_decoration(p),
                }
            },
            NodeKind::Element(_) => {
                let display_in_flow = match nd.style.display {
                    Display::InlineBlock => false,
                    Display::InlineTable => false,
                    _ => true,
                };
                let in_flow = nd.style.position == Position::Static && nd.style.float_kind
                    == FloatKind::NoFloat && display_in_flow;
                let td = nd.style.text_decoration;
                if td == TextDecoration::NoDecoration && in_flow {
                    match nd.parent {
                        None => TextDecoration::NoDecoration,
                        Some(p) => self.propagated_text_decoration(p),
                    }
                } else {
                    td
                }
            },
        }
    }
}

pub open spec fn spec_is_image_element(nd: NodeData) -> bool {
    nd.kind matches NodeKind::Element(e) && e.tag@ == "img"@
}

/// The nearest ancestor-or-self element, walking parent links.
pub open spec fn spec_nearest_ancestor_element(tree: &NodeTree, n: int) -> int
    decreases n,
{
    if !(0 <= n < tree.nodes@.len()) {
        0
    } else if node_is_element(tree.nodes@[n]) {
        n
    } else {
        match tree.nodes@[n].parent {
            Some(p) => if p < n {
                spec_nearest_ancestor_element(tree, p as int)
            } else {
                0
            },
            None => 0,
        }
    }
}

pub proof fn lemma_nearest_ancestor_element(tree: &NodeTree, n: int)
    requires
        tree.wf(),
        0 <= n < tree.nodes@.len(),
    ensures
        0 <= spec_nearest_ancestor_element(tree, n) <= n,
        node_is_element(tree.nodes@[spec_nearest_ancestor_element(tree, n)]),
    decreases n,
{
    if !node_is_element(tree.nodes@[n]) {
        match tree.nodes@[n].parent {
            Some(p) => {
                lemma_nearest_ancestor_element(tree, p as int);
            },
            None => {},
        }
    }
}

/// The propagated text-decoration of CSS 2.1 §16.3.1, over the arena.
pub open spec fn spec_propagated_text_decoration(tree: &NodeTree, n: int) -> TextDecoration
    decreases n,
{
    if !(0 <= n < tree.nodes@.len()) {
        TextDecoration::NoDecoration
    } else {
        let nd = tree.nodes@[n];
        if !node_is_element(nd) {
            match nd.parent {
                None => TextDecoration::NoDecoration,
                Some(p) => if p < n {
                    spec_propagated_text_decoration(tree, p as int)
                } else {
                    TextDecoration::NoDecoration
                },
            }
        } else {
            let display_in_flow = !(nd.style.display == Display::InlineBlock || nd.style.display
                == Display::InlineTable);
            let in_flow = nd.style.position == Position::Static && nd.style.float_kind
                == FloatKind::NoFloat && display_in_flow;
            if nd.style.text_decoration == TextDecoration::NoDecoration && in_flow {
                match nd.parent {
                    None => TextDecoration::NoDecoration,
                    Some(p) => if p < n {
                        spec_propagated_text_decoration(tree, p as int)
                    } else {
                        TextDecoration::NoDecoration
                    },
                }
            } else {
                nd.style.text_decoration
            }
        }
    }
}

} // verus!
