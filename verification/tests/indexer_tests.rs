use rbx_bytesize_ncdu::estimator::{
    calculate_serialized_size, estimate_twice_agrees, serialize_instance_size,
};
use rbx_bytesize_ncdu::graph::{Graph, GraphNode};
use rbx_bytesize_ncdu::indexer::{
    filter_sections, find_child_named, index_instance, index_model, index_place, target_services,
};
use rbx_dom_weak::{InstanceBuilder, WeakDom};
use rbx_types::Ref;

fn node(referent: Ref, name: &str, class: &str, prop_bytes: u64, children: Vec<usize>) -> GraphNode {
    GraphNode {
        referent,
        name: name.to_string(),
        class: class.to_string(),
        prop_bytes,
        children,
    }
}

#[test]
fn estimator_is_deterministic() {
    let dom = WeakDom::new(InstanceBuilder::new("Folder"));
    let refs = [dom.root_ref()];
    assert!(estimate_twice_agrees(&dom, &refs));
    let first = serialize_instance_size(&dom, &refs);
    let second = serialize_instance_size(&dom, &refs);
    assert_eq!(first, second);
    assert!(first > 0);
}

#[test]
fn estimator_counts_subtree_content() {
    let small = WeakDom::new(InstanceBuilder::new("Folder"));
    let big = WeakDom::new(
        InstanceBuilder::new("Folder")
            .with_child(InstanceBuilder::new("Part").with_name("SomeLongPartName"))
            .with_child(InstanceBuilder::new("Part").with_name("AnotherLongPartName")),
    );
    let small_size = serialize_instance_size(&small, &[small.root_ref()]);
    let big_size = serialize_instance_size(&big, &[big.root_ref()]);
    assert!(big_size > small_size);
}

#[test]
fn dangling_referent_estimates_to_zero() {
    let dom = WeakDom::new(InstanceBuilder::new("Folder"));
    assert_eq!(serialize_instance_size(&dom, &[Ref::new()]), 0);
    assert_eq!(calculate_serialized_size(&dom, Ref::new()), 0);
}

#[test]
fn leaf_apparent_size_equals_direct_size() {
    let dom = WeakDom::new(InstanceBuilder::new("Folder"));
    let size = calculate_serialized_size(&dom, dom.root_ref());
    // The recorded property cost plays no part in a leaf's direct size.
    let graph = Graph { nodes: vec![node(dom.root_ref(), "Folder", "Folder", 12345, vec![])] };
    assert!(graph.check_wf());

    let entry = index_instance(&dom, &graph, 0);
    assert!(entry.children.is_none());
    assert_eq!(entry.name, "Folder");
    assert_eq!(entry.asize, size);
    assert_eq!(entry.dsize, entry.asize);
}

#[test]
fn interior_direct_size_is_the_recorded_cost() {
    let dom = WeakDom::new(
        InstanceBuilder::new("Folder").with_child(InstanceBuilder::new("Part")),
    );
    let child_ref = dom.get_by_ref(dom.root_ref()).unwrap().children()[0];
    let graph = Graph {
        nodes: vec![
            node(dom.root_ref(), "Folder", "Folder", 42, vec![1]),
            node(child_ref, "Part", "Part", 0, vec![]),
        ],
    };
    assert!(graph.check_wf());

    let entry = index_instance(&dom, &graph, 0);
    assert_eq!(entry.dsize, 42);
    assert!(entry.asize > 0);
}

#[test]
fn index_run_survives_a_dangling_reference() {
    let dom = WeakDom::new(InstanceBuilder::new("Folder"));
    // The dangling leaf's recorded cost must not leak into its sizes.
    let graph = Graph {
        nodes: vec![
            node(dom.root_ref(), "Folder", "Folder", 0, vec![1]),
            node(Ref::new(), "Ghost", "Part", 7, vec![]),
        ],
    };
    assert!(graph.check_wf());

    let entry = index_instance(&dom, &graph, 0);
    assert!(entry.asize > 0);
    let children = entry.children.as_ref().unwrap();
    assert_eq!(children.len(), 1);
    assert_eq!(children[0].name, "Ghost (Part)");
    assert_eq!(children[0].asize, 0);
    assert_eq!(children[0].dsize, 0);
}

fn scene() -> (WeakDom, Graph) {
    let dom = WeakDom::new(
        InstanceBuilder::new("DataModel")
            .with_child(InstanceBuilder::new("Workspace"))
            .with_child(InstanceBuilder::new("Folder").with_name("Foo"))
            .with_child(InstanceBuilder::new("Lighting")),
    );
    let root = dom.get_by_ref(dom.root_ref()).unwrap();
    let kids = root.children();
    let graph = Graph {
        nodes: vec![
            node(dom.root_ref(), "DataModel", "DataModel", 0, vec![1, 2, 3]),
            node(kids[0], "Workspace", "Workspace", 0, vec![]),
            node(kids[1], "Foo", "Folder", 0, vec![]),
            node(kids[2], "Lighting", "Lighting", 0, vec![]),
        ],
    };
    (dom, graph)
}

#[test]
fn scene_sections_are_filtered_to_the_allow_list_in_its_order() {
    let (_dom, graph) = scene();
    assert!(graph.check_wf());
    let sections = filter_sections(&graph);
    assert_eq!(sections, vec![1, 3]);
}

#[test]
fn place_report_keeps_workspace_before_lighting_and_drops_foo() {
    let (dom, graph) = scene();
    assert!(graph.check_wf());

    let entry = index_place(&dom, &graph);
    assert_eq!(entry.name, "Game");
    assert_eq!(entry.dsize, 0);
    assert_eq!(entry.asize, 0);
    let children = entry.children.as_ref().unwrap();
    let names: Vec<&str> = children.iter().map(|c| c.name.as_str()).collect();
    assert_eq!(names, vec!["Workspace", "Lighting"]);
}

#[test]
fn model_report_keeps_every_root_child_in_graph_order() {
    let (dom, graph) = scene();
    assert!(graph.check_wf());

    let entry = index_model(&dom, &graph);
    assert_eq!(entry.name, "Model");
    assert_eq!(entry.dsize, 0);
    assert_eq!(entry.asize, 0);
    let children = entry.children.as_ref().unwrap();
    let names: Vec<&str> = children.iter().map(|c| c.name.as_str()).collect();
    assert_eq!(names, vec!["Workspace", "Foo (Folder)", "Lighting"]);
}

#[test]
fn find_child_named_takes_the_first_match() {
    let dom = WeakDom::new(InstanceBuilder::new("Folder"));
    let graph = Graph {
        nodes: vec![
            node(dom.root_ref(), "Folder", "Folder", 0, vec![1, 2]),
            node(Ref::new(), "Twin", "Part", 0, vec![]),
            node(Ref::new(), "Twin", "Part", 0, vec![]),
        ],
    };
    assert!(graph.check_wf());
    assert_eq!(find_child_named(&graph, 0, &"Twin".to_string()), Some(1));
    assert_eq!(find_child_named(&graph, 0, &"Missing".to_string()), None);
}

#[test]
fn allow_list_has_the_twelve_sections_in_order() {
    let names = target_services();
    assert_eq!(names.len(), 12);
    assert_eq!(names[0], "Workspace");
    assert_eq!(names[1], "Lighting");
    assert_eq!(names[11], "TextChatService");
}

#[test]
fn malformed_arenas_are_rejected() {
    let ok = Graph { nodes: vec![node(Ref::new(), "A", "A", 0, vec![])] };
    assert!(ok.check_wf());

    let self_child = Graph { nodes: vec![node(Ref::new(), "A", "A", 0, vec![0])] };
    assert!(!self_child.check_wf());

    let out_of_range = Graph { nodes: vec![node(Ref::new(), "A", "A", 0, vec![5])] };
    assert!(!out_of_range.check_wf());
}
