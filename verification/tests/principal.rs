use authorization_core::effect::ComputedEffect::{ALLOW, DENY, SILENT};
use authorization_core::enforcement::{Authorization, Authorizations};
use authorization_core::principal::Node;

#[test]
fn test_node_eval_leaf() {
    assert_eq!(Node::Leaf(ALLOW).eval(), ALLOW);
    assert_eq!(Node::Leaf(DENY).eval(), DENY);
    assert_eq!(Node::Leaf(SILENT).eval(), SILENT);
}

#[test]
fn test_node_eval_and() {
    assert_eq!(Node::Leaf(ALLOW).and(Node::Leaf(ALLOW)).eval(), ALLOW);
    assert_eq!(Node::Leaf(ALLOW).and(Node::Leaf(DENY)).eval(), DENY);
    assert_eq!(Node::Leaf(DENY).and(Node::Leaf(ALLOW)).eval(), DENY);
    assert_eq!(Node::Leaf(SILENT).and(Node::Leaf(ALLOW)).eval(), DENY);
}

#[test]
fn test_node_eval_or() {
    assert_eq!(Node::Leaf(SILENT).or(Node::Leaf(ALLOW)).eval(), ALLOW);
    assert_eq!(Node::Leaf(ALLOW).or(Node::Leaf(SILENT)).eval(), ALLOW);
    assert_eq!(Node::Leaf(ALLOW).or(Node::Leaf(DENY)).eval(), DENY);
    assert_eq!(Node::Leaf(DENY).or(Node::Leaf(ALLOW)).eval(), DENY);
    assert_eq!(Node::Leaf(SILENT).or(Node::Leaf(SILENT)).eval(), SILENT);
}

#[test]
fn test_node_from_value() {
    let node: Node<bool> = true.into();
    assert_eq!(node, Node::Leaf(true));
}

#[test]
fn test_authorizations_all_must_authorize() {
    let azns = Authorizations::new(
        "user",
        vec![Authorization("doc1", true), Authorization("doc2", true)],
    );
    assert!(azns.authorized());
    assert_eq!(*azns.principal(), "user");
    assert_eq!(azns.as_slice().len(), 2);
    assert_eq!(*azns.as_slice()[0].subject(), "doc1");

    let azns = Authorizations::new(
        "user",
        vec![Authorization("doc1", true), Authorization("doc2", false)],
    );
    assert!(!azns.authorized());
}

#[test]
fn test_authorizations_empty_does_not_authorize() {
    let azns: Authorizations<Authorization<&str>, &str> = Authorizations::new("user", vec![]);
    assert!(!azns.authorized());
}

#[test]
fn test_node_iter_lists_leaves() {
    let node = Node::Leaf(1u32)
        .and(Node::Leaf(2u32))
        .or(Node::Leaf(3u32).and(Node::Leaf(4u32)));
    let leaves: Vec<u32> = node.iter().into_iter().copied().collect();
    assert_eq!(leaves.len(), 4);
    let mut sorted = leaves.clone();
    sorted.sort();
    assert_eq!(sorted, vec![1, 2, 3, 4]);
}

#[test]
fn test_node_map_preserves_shape() {
    let node = Node::Leaf(1u32).and(Node::Leaf(2u32).or(Node::Leaf(3u32)));
    let doubled = node.map(&|x: u32| x * 2);
    assert_eq!(
        doubled,
        Node::Leaf(2u32).and(Node::Leaf(4u32).or(Node::Leaf(6u32)))
    );
}

#[test]
fn test_authorizations_as_slice_mut() {
    let mut azns = Authorizations::new(
        "user",
        vec![Authorization("doc1", false), Authorization("doc2", true)],
    );
    assert!(!azns.authorized());
    azns.as_slice_mut()[0] = Authorization("doc1", true);
    assert!(azns.authorized());
}
