//! The per-node layout record and its attachment: each node gets exactly
//! one record, created on first touch and reset — not reallocated — on
//! every later layout pass over the same node.

use vstd::prelude::*;
use vstd::pervasive::VecAdditionalExecFns;
use crate::display_list::DisplayList;
use crate::node::{NodeTree, NodeData, NodeKind};
use crate::range::Range;
use crate::style::ComputedStyle;

verus! {

/// The persistent layout record of one document node: the node's display
/// list fragment and its range within the enclosing flow's list, plus the
/// style resolved for the node. The display-list fields are cleared on
/// every re-entrant initialization; the style field is preserved.
#[derive(Clone, Debug)]
pub struct LayoutData {
    pub display_list: Option<DisplayList>,
    pub range: Option<Range>,
    pub style: Option<ComputedStyle>,
}

impl LayoutData {
    pub fn new() -> (r: LayoutData)
        ensures
            r.display_list is None,
            r.range is None,
            r.style is None,
    {
        LayoutData { display_list: None, range: None, style: None }
    }
}

/// Whether attaching layout data to this node would create a new record.
pub open spec fn init_newly_created(nd: NodeData) -> bool {
    nd.layout_data is None
}

/// The node after layout-data attachment: an existing record keeps its
/// style and loses only its display-list and range state; a missing record
/// is created empty. Nothing else about the node changes.
pub open spec fn layout_data_after_init(nd: NodeData) -> NodeData {
    match nd.layout_data {
        Some(ld) => NodeData {
            layout_data: Some(LayoutData { display_list: None, range: None, style: ld.style }),
            ..nd
        },
        None => NodeData {
            layout_data: Some(LayoutData { display_list: None, range: None, style: None }),
            ..nd
        },
    }
}

/// Attachment is idempotent: a second attachment reports "already existed"
/// and changes nothing, and attachment never touches a node's parent link,
/// payload or style.
pub proof fn lemma_initialize_layout_data_idempotent(nd: NodeData)
    ensures
        !init_newly_created(layout_data_after_init(nd)),
        layout_data_after_init(layout_data_after_init(nd)) == layout_data_after_init(nd),
        layout_data_after_init(nd).parent == nd.parent,
        layout_data_after_init(nd).kind == nd.kind,
        layout_data_after_init(nd).style == nd.style,
{
}

/// Whether `j` lies in the subtree rooted at `n`, following parent links.
pub open spec fn spec_in_subtree(tree: NodeTree, j: int, n: int) -> bool
    decreases j,
{
    if j == n {
        0 <= j < tree.nodes@.len()
    } else if !(0 <= j < tree.nodes@.len()) {
        false
    } else {
        match tree.nodes@[j].parent {
            Some(p) => if p < j {
                spec_in_subtree(tree, p as int, n)
            } else {
                false
            },
            None => false,
        }
    }
}

/// Subtree membership reads only arena length and parent links.
proof fn lemma_in_subtree_congruence(a: NodeTree, b: NodeTree, j: int, n: int)
    requires
        a.nodes@.len() == b.nodes@.len(),
        forall|i: int| 0 <= i < a.nodes@.len() ==> (#[trigger] a.nodes@[i]).parent
            == b.nodes@[i].parent,
    ensures
        spec_in_subtree(a, j, n) == spec_in_subtree(b, j, n),
    decreases j,
{
    if j != n && 0 <= j < a.nodes@.len() {
        match a.nodes@[j].parent {
            Some(p) => {
                if p < j {
                    lemma_in_subtree_congruence(a, b, p as int, n);
                }
            },
            None => {},
        }
    }
}

/// Nothing before the subtree root belongs to its subtree.
proof fn lemma_in_subtree_below(tree: NodeTree, j: int, n: int)
    requires
        j < n,
    ensures
        !spec_in_subtree(tree, j, n),
    decreases j,
{
    if 0 <= j < tree.nodes@.len() {
        match tree.nodes@[j].parent {
            Some(p) => {
                if p < j {
                    lemma_in_subtree_below(tree, p as int, n);
                }
            },
            None => {},
        }
    }
}

/// The ids below `upto`, in ascending order, of the nodes in the subtree
/// of `node` that have no layout record yet.
pub open spec fn created_ids(tree: NodeTree, node: int, upto: int) -> Seq<usize>
    decreases upto,
{
    if upto <= 0 {
        Seq::empty()
    } else {
        let prev = created_ids(tree, node, upto - 1);
        if spec_in_subtree(tree, upto - 1, node) && init_newly_created(tree.nodes@[upto - 1]) {
            prev.push((upto - 1) as usize)
        } else {
            prev
        }
    }
}

impl NodeTree {
    /// If the node already holds a layout record, resets only the record's
    /// display-list and range state and reports nothing; otherwise attaches
    /// a fresh record and reports the node as newly initialized.
    pub fn initialize_layout_data(&mut self, node: usize) -> (r: Option<usize>)
        requires
            node < old(self).nodes@.len(),
        ensures
            final(self).nodes@.len() == old(self).nodes@.len(),
            forall|j: int| 0 <= j < old(self).nodes@.len() && j != node
                ==> final(self).nodes@[j] == old(self).nodes@[j],
            final(self).nodes@[node as int] == layout_data_after_init(
                old(self).nodes@[node as int]),
            r == if init_newly_created(old(self).nodes@[node as int]) {
                Some(node)
            } else {
                Option::<usize>::None
            },
    {
        let mut tmp = NodeData {
            parent: None,
            kind: NodeKind::Text(String::new()),
            style: ComputedStyle::initial(),
            layout_data: None,
        };
        self.nodes.set_and_swap(node, &mut tmp);
        let created = match tmp.layout_data {
            Some(ld) => {
                tmp.layout_data = Some(LayoutData {
                    display_list: None,
                    range: None,
                    style: ld.style,
                });
                false
            },
            None => {
                tmp.layout_data = Some(LayoutData { display_list: None, range: None, style: None });
                true
            },
        };
        self.nodes.set_and_swap(node, &mut tmp);
        if created {
            Some(node)
        } else {
            None
        }
    }

    /// Attaches layout data to `node` and every descendant, collecting into
    /// `refs` the ids of the nodes whose record was newly created, in
    /// arena order.
    pub fn initialize_style_for_subtree(&mut self, node: usize, refs: &mut Vec<usize>)
        requires
            old(self).wf(),
            node < old(self).nodes@.len(),
        ensures
            final(self).nodes@.len() == old(self).nodes@.len(),
            forall|j: int| 0 <= j < old(self).nodes@.len() ==> final(self).nodes@[j]
                == if spec_in_subtree(*old(self), j, node as int) {
                    layout_data_after_init(#[trigger] old(self).nodes@[j])
                } else {
                    old(self).nodes@[j]
                },
            final(refs)@ == old(refs)@ + created_ids(*old(self), node as int,
                old(self).nodes@.len() as int),
            final(self).wf(),
    {
        let ghost orig: NodeTree = *self;
        let len = self.nodes.len();
        let mut j: usize = 0;
        while j < len
            invariant
                orig.wf(),
                node < len,
                len == orig.nodes@.len(),
                self.nodes@.len() == len,
                0 <= j <= len,
                forall|k: int| 0 <= k < len ==> #[trigger] self.nodes@[k]
                    == if spec_in_subtree(orig, k, node as int) && k < j {
                        layout_data_after_init(orig.nodes@[k])
                    } else {
                        orig.nodes@[k]
                    },
                refs@ == old(refs)@ + created_ids(orig, node as int, j as int),
            decreases len - j,
        {
            proof {
                assert forall|k: int| 0 <= k < len implies (#[trigger] self.nodes@[k]).parent
                    == orig.nodes@[k].parent && self.nodes@[k].kind == orig.nodes@[k].kind
                    && self.nodes@[k].style == orig.nodes@[k].style by {
                    lemma_initialize_layout_data_idempotent(orig.nodes@[k]);
                }
                assert(self.wf());
                lemma_in_subtree_congruence(*self, orig, j as int, node as int);
            }
            let in_subtree = self.node_in_subtree(j, node);
            if in_subtree {
                let r = self.initialize_layout_data(j);
                match r {
                    Some(id) => {
                        refs.push(id);
                    },
                    None => {},
                }
            }
            j = j + 1;
        }
        proof {
            assert forall|k: int| 0 <= k < len implies (#[trigger] self.nodes@[k]).parent
                == orig.nodes@[k].parent && self.nodes@[k].kind == orig.nodes@[k].kind
                && self.nodes@[k].style == orig.nodes@[k].style by {
                lemma_initialize_layout_data_idempotent(orig.nodes@[k]);
            }
            assert(self.wf());
        }
    }

    /// Whether `j` lies in the subtree rooted at `node`.
    pub fn node_in_subtree(&self, j: usize, node: usize) -> (r: bool)
        requires
            self.wf(),
            j < self.nodes@.len(),
            node < self.nodes@.len(),
        ensures
            r == spec_in_subtree(*self, j as int, node as int),
    {
        let mut cur = j;
        while cur > node
            invariant
                self.wf(),
                cur < self.nodes@.len(),
                spec_in_subtree(*self, cur as int, node as int) == spec_in_subtree(*self,
                    j as int, node as int),
            decreases cur,
        {
            cur = match self.nodes[cur].parent {
                Some(p) => p,
                None => {
                    return false;
                },
            };
        }
        proof {
            if cur < node {
                lemma_in_subtree_below(*self, cur as int, node as int);
            }
        }
        cur == node
    }
}

} // verus!
