use hnr::api::make_item;
use hnr::comments::{flatten_all, level_nodes, toggle_in_tree, CommentNode};

fn make_node(id: u64, children: Vec<CommentNode>) -> CommentNode {
    CommentNode { item: make_item(id), text: String::new(), depth: 0, collapsed: false, children }
}

fn make_node_depth(id: u64, depth: usize, children: Vec<CommentNode>) -> CommentNode {
    CommentNode { item: make_item(id), text: String::new(), depth, collapsed: false, children }
}

#[test]
fn flatten_leaf_returns_self() {
    let node = make_node(1, vec![]);
    let flat = node.flatten();
    assert_eq!(flat.len(), 1);
    assert_eq!(flat[0].0.item.id, 1);
}

#[test]
fn flatten_includes_children() {
    let child = make_node(2, vec![]);
    let parent = make_node(1, vec![child]);
    let flat = parent.flatten();
    assert_eq!(flat.len(), 2);
    assert_eq!(flat[0].0.item.id, 1);
    assert_eq!(flat[1].0.item.id, 2);
}

#[test]
fn flatten_collapsed_hides_children() {
    let child = make_node(2, vec![]);
    let mut parent = make_node(1, vec![child]);
    parent.collapsed = true;
    let flat = parent.flatten();
    assert_eq!(flat.len(), 1);
    assert_eq!(flat[0].0.item.id, 1);
}

#[test]
fn flatten_nested_depth_order() {
    let grandchild = make_node_depth(3, 2, vec![]);
    let child = make_node_depth(2, 1, vec![grandchild]);
    let parent = make_node_depth(1, 0, vec![child]);
    let flat = parent.flatten();
    assert_eq!(flat.len(), 3);
    assert_eq!(flat[0].0.item.id, 1);
    assert_eq!(flat[1].0.item.id, 2);
    assert_eq!(flat[2].0.item.id, 3);
}

#[test]
fn flatten_collapsed_mid_tree_hides_subtree() {
    let grandchild = make_node_depth(3, 2, vec![]);
    let mut child = make_node_depth(2, 1, vec![grandchild]);
    child.collapsed = true;
    let parent = make_node_depth(1, 0, vec![child]);
    let flat = parent.flatten();
    // parent + collapsed child visible, grandchild hidden
    assert_eq!(flat.len(), 2);
    assert_eq!(flat[1].0.item.id, 2);
}

#[test]
fn toggle_root_node() {
    let child = make_node(2, vec![]);
    let mut nodes = vec![make_node(1, vec![child])];
    assert!(!nodes[0].collapsed);
    toggle_in_tree(&mut nodes, 1);
    assert!(nodes[0].collapsed);
    toggle_in_tree(&mut nodes, 1);
    assert!(!nodes[0].collapsed);
}

#[test]
fn toggle_nested_node() {
    let child = make_node(2, vec![]);
    let mut nodes = vec![make_node(1, vec![child])];
    assert!(!nodes[0].children[0].collapsed);
    toggle_in_tree(&mut nodes, 2);
    assert!(nodes[0].children[0].collapsed);
}

#[test]
fn toggle_nonexistent_id_is_noop() {
    let mut nodes = vec![make_node(1, vec![])];
    toggle_in_tree(&mut nodes, 99);
    assert!(!nodes[0].collapsed);
}

#[test]
fn toggle_twice_restores_nested_tree() {
    let grandchild = make_node_depth(3, 2, vec![]);
    let child = make_node_depth(2, 1, vec![grandchild]);
    let mut nodes = vec![make_node_depth(1, 0, vec![child]), make_node(4, vec![])];
    toggle_in_tree(&mut nodes, 3);
    assert!(nodes[0].children[0].children[0].collapsed);
    toggle_in_tree(&mut nodes, 3);
    assert!(!nodes[0].children[0].children[0].collapsed);
    assert!(!nodes[0].collapsed && !nodes[0].children[0].collapsed && !nodes[1].collapsed);
    assert_eq!(flatten_all(&nodes).len(), 4);
}

#[test]
fn flatten_all_lists_rows_with_depths() {
    let child = make_node_depth(2, 1, vec![]);
    let nodes = vec![make_node_depth(1, 0, vec![child]), make_node_depth(3, 0, vec![])];
    let rows = flatten_all(&nodes);
    let ids: Vec<u64> = rows.iter().map(|(n, _)| n.item.id).collect();
    let depths: Vec<usize> = rows.iter().map(|(_, d)| *d).collect();
    assert_eq!(ids, vec![1, 2, 3]);
    assert_eq!(depths, vec![0, 1, 0]);
}

#[test]
fn new_node_renders_text_and_starts_expanded() {
    let mut it = make_item(7);
    it.text = Some("<p>Hello world</p>".into());
    let node = CommentNode::new(it, 3);
    assert_eq!(node.depth, 3);
    assert!(!node.collapsed);
    assert!(node.children.is_empty());
    assert!(node.text.contains("Hello world"));
    assert!(!node.text.contains("<p>"));
}

#[test]
fn kids_to_load_lists_kids_below_max_depth() {
    let mut it = make_item(1);
    it.kids = Some(vec![5, 6]);
    let shallow = CommentNode::new(it.clone(), 0);
    assert_eq!(shallow.kids_to_load(), vec![5, 6]);
    let deep = CommentNode::new(it, hnr::comments::MAX_DEPTH);
    assert!(deep.kids_to_load().is_empty());
    let leaf = CommentNode::new(make_item(2), 0);
    assert!(leaf.kids_to_load().is_empty());
}

#[test]
fn level_nodes_skips_deleted_and_dead() {
    let mut gone = make_item(10);
    gone.deleted = Some(true);
    let mut dead = make_item(11);
    dead.dead = Some(true);
    let alive = make_item(12);
    let nodes = level_nodes(vec![gone, alive, dead], 2);
    assert_eq!(nodes.len(), 1);
    assert_eq!(nodes[0].item.id, 12);
    assert_eq!(nodes[0].depth, 2);
}
