//! An arena mirror of the object graph's tree structure.
//!
//! Nodes are addressed by integer index, children are index sequences, and
//! every child index is strictly greater than its parent's, so any walk
//! that follows child lists terminates. Each node carries the referent it
//! mirrors (used to ask the estimator for sizes), its name and class tag,
//! and the precomputed byte cost of its own persisted properties, which the
//! graph's producer supplies alongside the structure.

use vstd::prelude::*;

use rbx_types::Ref;

verus! {

pub struct GraphNode {
    /// The referent of the mirrored node inside the source dom.
    pub referent: Ref,
    /// The node's display name.
    pub name: String,
    /// The node's class tag.
    pub class: String,
    /// Byte cost of this node's own persisted properties, as supplied by
    /// the graph's producer; reported as the direct size of a node that
    /// has children (a leaf's direct size is its own encoded footprint).
    pub prop_bytes: u64,
    /// Arena indices of the node's children, in graph order.
    pub children: Vec<usize>,
}

pub struct Graph {
    /// All nodes of the graph; index 0 is the root.
    pub nodes: Vec<GraphNode>,
}

/// Every child index points into the arena and is strictly greater than
/// the index of its parent.
pub open spec fn nodes_wf(nodes: Seq<GraphNode>) -> bool {
    forall|i: int, j: int|
        0 <= i < nodes.len() && 0 <= j < nodes[i].children@.len() ==> i
            < #[trigger] nodes[i].children@[j] < nodes.len()
}

impl Graph {
    pub open spec fn wf(self) -> bool {
        nodes_wf(self.nodes@)
    }

    /// Decides well-formedness of the arena, so that an unverified producer
    /// of a graph can be checked before any indexing starts.
    pub fn check_wf(&self) -> (b: bool)
        ensures
            b == self.wf(),
    {
        let n = self.nodes.len();
        let mut i: usize = 0;
        while i < n
            invariant
                n == self.nodes@.len(),
                i <= n,
                forall|p: int, j: int|
                    0 <= p < i && 0 <= j < self.nodes@[p].children@.len() ==> p
                        < #[trigger] self.nodes@[p].children@[j] < n,
            decreases n - i,
        {
            let m = self.nodes[i].children.len();
            let mut j: usize = 0;
            while j < m
                invariant
                    n == self.nodes@.len(),
                    i < n,
                    m == self.nodes@[i as int].children@.len(),
                    j <= m,
                    forall|k: int|
                        0 <= k < j ==> i < #[trigger] self.nodes@[i as int].children@[k] < n,
                decreases m - j,
            {
                let c = self.nodes[i].children[j];
                if c <= i || c >= n {
                    assert(!(i < self.nodes@[i as int].children@[j as int] < n));
                    assert(!nodes_wf(self.nodes@));
                    return false;
                }
                j += 1;
            }
            i += 1;
        }
        true
    }
}

} // verus!
