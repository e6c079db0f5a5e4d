//! The tree indexer: walks the graph arena and builds, for every node, a
//! size entry holding its display label, its direct size and its apparent
//! size, with child entries in graph order.
//!
//! Accounting: a node's apparent size is the estimator's count for its
//! whole subtree, which includes the encoder's constant per-file framing.
//! A leaf's subtree is the leaf itself, so its direct size equals its
//! apparent size; a node with children reports the producer-recorded cost
//! of its own properties as its direct size, since the full-container
//! encoder cannot cost a node apart from its descendants.
//!
//! The root of a "scene" container is not indexed itself: its immediate
//! children are filtered down to a fixed allow-list of section names, in
//! allow-list order, and a synthetic zero-sized "Game" entry holds the
//! results. A "single object" container instead indexes every immediate
//! child of the root under a synthetic zero-sized "Model" entry.

use vstd::prelude::*;
use vstd::string::*;

use rbx_dom_weak::WeakDom;

use crate::estimator::calculate_serialized_size;
use crate::estimator::dom_has_ref;
use crate::estimator::encoded_len;
use crate::graph::Graph;
use crate::graph::GraphNode;
use crate::graph::nodes_wf;
use crate::report::NcduEntry;
use crate::report::display_name;
use crate::report::spec_display_name;

verus! {

/// `e` is exactly the size entry for node `i` of the arena: display label,
/// estimated subtree size as apparent size (zero when the node's referent
/// does not resolve), the recorded direct size — a leaf's equals its
/// apparent size — and matching child entries; a node without children
/// gets no child list.
pub open spec fn entry_matches(e: NcduEntry, dom: WeakDom, nodes: Seq<GraphNode>, i: int) -> bool
    decreases nodes.len() - i,
    when 0 <= i < nodes.len() && nodes_wf(nodes)
{
    &&& e.name@ == spec_display_name(nodes[i].name@, nodes[i].class@)
    &&& e.asize == encoded_len(dom, seq![nodes[i].referent])
    &&& !dom_has_ref(dom, nodes[i].referent) ==> e.asize == 0
    &&& if nodes[i].children@.len() == 0 {
        e.children is None && e.dsize == e.asize
    } else {
        e.dsize == nodes[i].prop_bytes && (e.children matches Some(cs) && cs@.len()
            == nodes[i].children@.len() && (forall|j: int|
            0 <= j < cs@.len() ==> entry_matches(
                #[trigger] cs@[j],
                dom,
                nodes,
                nodes[i].children@[j] as int,
            )))
    }
}

/// Builds the size entry of node `i` and, recursively, of its subtree.
pub fn index_instance(dom: &WeakDom, graph: &Graph, i: usize) -> (e: NcduEntry)
    requires
        graph.wf(),
        i < graph.nodes@.len(),
    ensures
        entry_matches(e, *dom, graph.nodes@, i as int),
    decreases graph.nodes@.len() - i,
{
    let node = &graph.nodes[i];
    let asize = calculate_serialized_size(dom, node.referent);
    let label = display_name(&node.name, &node.class);
    if node.children.len() == 0 {
        NcduEntry::new(label, asize, asize)
    } else {
        let dsize = node.prop_bytes;
        let n_children = node.children.len();
        let mut child_entries: Vec<NcduEntry> = Vec::new();
        let mut j: usize = 0;
        while j < n_children
            invariant
                graph.wf(),
                i < graph.nodes@.len(),
                n_children == graph.nodes@[i as int].children@.len(),
                j <= n_children,
                child_entries@.len() == j,
                forall|k: int|
                    0 <= k < j ==> entry_matches(
                        #[trigger] child_entries@[k],
                        *dom,
                        graph.nodes@,
                        graph.nodes@[i as int].children@[k] as int,
                    ),
            decreases n_children - j,
        {
            let c = graph.nodes[i].children[j];
            assert(i < c < graph.nodes@.len());
            let child_entry = index_instance(dom, graph, c);
            child_entries.push(child_entry);
            j += 1;
        }
        NcduEntry::with_children(label, dsize, asize, child_entries)
    }
}

/// The names of the top-level sections a "scene" container reports, in
/// the order they are reported.
pub open spec fn spec_target_services() -> Seq<Seq<char>> {
    seq![
        "Workspace"@,
        "Lighting"@,
        "MaterialService"@,
        "ReplicatedFirst"@,
        "ReplicatedStorage"@,
        "ServerScriptService"@,
        "ServerStorage"@,
        "StarterGui"@,
        "StarterPlayer"@,
        "Teams"@,
        "SoundService"@,
        "TextChatService"@,
    ]
}

pub open spec fn services_match(names: Seq<String>) -> bool {
    names.len() == spec_target_services().len() && (forall|k: int|
        0 <= k < names.len() ==> names[k]@ == spec_target_services()[k])
}

/// The allow-list of section names as runtime strings.
pub fn target_services() -> (names: Vec<String>)
    ensures
        services_match(names@),
{
    let mut names: Vec<String> = Vec::new();
    names.push(String::from_str("Workspace"));
    names.push(String::from_str("Lighting"));
    names.push(String::from_str("MaterialService"));
    names.push(String::from_str("ReplicatedFirst"));
    names.push(String::from_str("ReplicatedStorage"));
    names.push(String::from_str("ServerScriptService"));
    names.push(String::from_str("ServerStorage"));
    names.push(String::from_str("StarterGui"));
    names.push(String::from_str("StarterPlayer"));
    names.push(String::from_str("Teams"));
    names.push(String::from_str("SoundService"));
    names.push(String::from_str("TextChatService"));
    names
}

/// The first entry of `children`, from position `from` on, whose node is
/// named `name`.
pub open spec fn first_child_named(
    nodes: Seq<GraphNode>,
    children: Seq<usize>,
    name: Seq<char>,
    from: int,
) -> Option<usize>
    decreases children.len() - from,
    when 0 <= from <= children.len()
{
    if from >= children.len() {
        None
    } else if nodes[children[from] as int].name@ == name {
        Some(children[from])
    } else {
        first_child_named(nodes, children, name, from + 1)
    }
}

proof fn lemma_first_child_from(
    nodes: Seq<GraphNode>,
    children: Seq<usize>,
    name: Seq<char>,
    from: int,
)
    requires
        0 <= from <= children.len(),
        forall|k: int| 0 <= k < from ==> nodes[#[trigger] children[k] as int].name@ != name,
    ensures
        first_child_named(nodes, children, name, 0) == first_child_named(
            nodes,
            children,
            name,
            from,
        ),
    decreases from,
{
    if from > 0 {
        lemma_first_child_from(nodes, children, name, from - 1);
    }
}

/// Finds the first child of `parent` named `name`, in child order.
pub fn find_child_named(graph: &Graph, parent: usize, name: &String) -> (r: Option<usize>)
    requires
        graph.wf(),
        parent < graph.nodes@.len(),
    ensures
        r == first_child_named(graph.nodes@, graph.nodes@[parent as int].children@, name@, 0),
        r matches Some(c) ==> c < graph.nodes@.len(),
{
    let n_children = graph.nodes[parent].children.len();
    let mut j: usize = 0;
    while j < n_children
        invariant
            graph.wf(),
            parent < graph.nodes@.len(),
            n_children == graph.nodes@[parent as int].children@.len(),
            j <= n_children,
            forall|k: int|
                0 <= k < j ==> graph.nodes@[#[trigger] graph.nodes@[parent as int].children@[k] as int].name@
                    != name@,
        decreases n_children - j,
    {
        let c = graph.nodes[parent].children[j];
        assert(c < graph.nodes@.len());
        if graph.nodes[c].name == *name {
            proof {
                lemma_first_child_from(
                    graph.nodes@,
                    graph.nodes@[parent as int].children@,
                    name@,
                    j as int,
                );
            }
            return Some(c);
        }
        j += 1;
    }
    proof {
        lemma_first_child_from(
            graph.nodes@,
            graph.nodes@[parent as int].children@,
            name@,
            n_children as int,
        );
    }
    None
}

/// The arena indices of the root's children that a "scene" container
/// reports: for each allow-listed name from position `s` on, the first
/// child of the root bearing it, kept in allow-list order.
pub open spec fn spec_sections(nodes: Seq<GraphNode>, children: Seq<usize>, s: int) -> Seq<usize>
    decreases spec_target_services().len() - s,
    when 0 <= s <= spec_target_services().len()
{
    if s >= spec_target_services().len() {
        Seq::empty()
    } else {
        let rest = spec_sections(nodes, children, s + 1);
        match first_child_named(nodes, children, spec_target_services()[s], 0) {
            Some(c) => seq![c] + rest,
            None => rest,
        }
    }
}

/// Filters the root's children down to the allow-listed sections, in
/// allow-list order, dropping names that match no child.
pub fn filter_sections(graph: &Graph) -> (sections: Vec<usize>)
    requires
        graph.wf(),
        graph.nodes@.len() > 0,
    ensures
        sections@ == spec_sections(graph.nodes@, graph.nodes@[0].children@, 0),
        forall|k: int| 0 <= k < sections@.len() ==> #[trigger] sections@[k] < graph.nodes@.len(),
{
    let names = target_services();
    let n_names = names.len();
    let mut sections: Vec<usize> = Vec::new();
    let mut s: usize = 0;
    assert(sections@ + spec_sections(graph.nodes@, graph.nodes@[0].children@, 0) =~= spec_sections(
        graph.nodes@,
        graph.nodes@[0].children@,
        0,
    ));
    while s < n_names
        invariant
            graph.wf(),
            graph.nodes@.len() > 0,
            services_match(names@),
            n_names == names@.len(),
            s <= n_names,
            spec_sections(graph.nodes@, graph.nodes@[0].children@, 0) == sections@
                + spec_sections(graph.nodes@, graph.nodes@[0].children@, s as int),
            forall|k: int|
                0 <= k < sections@.len() ==> #[trigger] sections@[k] < graph.nodes@.len(),
        decreases n_names - s,
    {
        let found = find_child_named(graph, 0, &names[s]);
        proof {
            assert(names@[s as int]@ == spec_target_services()[s as int]);
        }
        match found {
            Some(c) => {
                let ghost old_sections = sections@;
                sections.push(c);
                proof {
                    let nodes = graph.nodes@;
                    let children = nodes[0].children@;
                    assert(spec_sections(nodes, children, s as int) == seq![c] + spec_sections(
                        nodes,
                        children,
                        s + 1,
                    ));
                    assert(old_sections + spec_sections(nodes, children, s as int)
                        =~= sections@ + spec_sections(nodes, children, s + 1));
                }
            },
            None => {
                proof {
                    let nodes = graph.nodes@;
                    let children = nodes[0].children@;
                    assert(spec_sections(nodes, children, s as int) == spec_sections(
                        nodes,
                        children,
                        s + 1,
                    ));
                }
            },
        }
        s += 1;
    }
    proof {
        let nodes = graph.nodes@;
        let children = nodes[0].children@;
        assert(spec_sections(nodes, children, n_names as int) =~= Seq::<usize>::empty());
        assert(sections@ + Seq::<usize>::empty() =~= sections@);
    }
    sections
}

/// Indexes a "scene" container: the allow-listed sections among the
/// root's children, each indexed independently, under a synthetic
/// zero-sized "Game" entry.
pub fn index_place(dom: &WeakDom, graph: &Graph) -> (e: NcduEntry)
    requires
        graph.wf(),
        graph.nodes@.len() > 0,
    ensures
        e.name@ == "Game"@,
        e.dsize == 0,
        e.asize == 0,
        e.children matches Some(cs) && {
            let secs = spec_sections(graph.nodes@, graph.nodes@[0].children@, 0);
            cs@.len() == secs.len() && (forall|k: int|
                0 <= k < secs.len() ==> entry_matches(
                    #[trigger] cs@[k],
                    *dom,
                    graph.nodes@,
                    secs[k] as int,
                ))
        },
{
    let sections = filter_sections(graph);
    let entries = index_each(dom, graph, &sections);
    NcduEntry::with_children(String::from_str("Game"), 0, 0, entries)
}

/// Indexes a "single object" container: every immediate child of the
/// root, in graph order, under a synthetic zero-sized "Model" entry.
pub fn index_model(dom: &WeakDom, graph: &Graph) -> (e: NcduEntry)
    requires
        graph.wf(),
        graph.nodes@.len() > 0,
    ensures
        e.name@ == "Model"@,
        e.dsize == 0,
        e.asize == 0,
        e.children matches Some(cs) && {
            let roots = graph.nodes@[0].children@;
            cs@.len() == roots.len() && (forall|k: int|
                0 <= k < roots.len() ==> entry_matches(
                    #[trigger] cs@[k],
                    *dom,
                    graph.nodes@,
                    roots[k] as int,
                ))
        },
{
    let n = graph.nodes[0].children.len();
    let mut roots: Vec<usize> = Vec::new();
    let mut j: usize = 0;
    while j < n
        invariant
            graph.wf(),
            graph.nodes@.len() > 0,
            n == graph.nodes@[0].children@.len(),
            j <= n,
            roots@ == graph.nodes@[0].children@.subrange(0, j as int),
        decreases n - j,
    {
        let c = graph.nodes[0].children[j];
        roots.push(c);
        proof {
            assert(roots@ =~= graph.nodes@[0].children@.subrange(0, j + 1));
        }
        j += 1;
    }
    proof {
        assert(roots@ =~= graph.nodes@[0].children@);
    }
    let entries = index_each(dom, graph, &roots);
    NcduEntry::with_children(String::from_str("Model"), 0, 0, entries)
}

/// Indexes each listed node independently, keeping list order.
fn index_each(dom: &WeakDom, graph: &Graph, idxs: &Vec<usize>) -> (entries: Vec<NcduEntry>)
    requires
        graph.wf(),
        forall|k: int| 0 <= k < idxs@.len() ==> #[trigger] idxs@[k] < graph.nodes@.len(),
    ensures
        entries@.len() == idxs@.len(),
        forall|k: int|
            0 <= k < idxs@.len() ==> entry_matches(
                #[trigger] entries@[k],
                *dom,
                graph.nodes@,
                idxs@[k] as int,
            ),
{
    let n = idxs.len();
    let mut entries: Vec<NcduEntry> = Vec::new();
    let mut j: usize = 0;
    while j < n
        invariant
            graph.wf(),
            forall|k: int| 0 <= k < idxs@.len() ==> #[trigger] idxs@[k] < graph.nodes@.len(),
            n == idxs@.len(),
            j <= n,
            entries@.len() == j,
            forall|k: int|
                0 <= k < j ==> entry_matches(
                    #[trigger] entries@[k],
                    *dom,
                    graph.nodes@,
                    idxs@[k] as int,
                ),
        decreases n - j,
    {
        let entry = index_instance(dom, graph, idxs[j]);
        entries.push(entry);
        j += 1;
    }
    entries
}

/// Law: a node with no children yields a leaf entry. It carries no child
/// list, its apparent size is the estimator's count for the node's own
/// encoding, and its direct size equals its apparent size.
pub proof fn lemma_leaf_entry(e: NcduEntry, dom: WeakDom, nodes: Seq<GraphNode>, i: int)
    requires
        nodes_wf(nodes),
        0 <= i < nodes.len(),
        nodes[i].children@.len() == 0,
        entry_matches(e, dom, nodes, i),
    ensures
        e.children is None,
        e.asize == encoded_len(dom, seq![nodes[i].referent]),
        e.dsize == e.asize,
{
}

/// Law: a node whose referent does not resolve within the dom never stops
/// the indexing run — the indexers are total — and its entry reports an
/// apparent size of zero; when the node is a leaf, its direct size is zero
/// too.
pub proof fn lemma_dangling_node_entry(e: NcduEntry, dom: WeakDom, nodes: Seq<GraphNode>, i: int)
    requires
        nodes_wf(nodes),
        0 <= i < nodes.len(),
        entry_matches(e, dom, nodes, i),
        !dom_has_ref(dom, nodes[i].referent),
    ensures
        e.asize == 0,
        nodes[i].children@.len() == 0 ==> e.dsize == 0 && e.children is None,
{
}

} // verus!
