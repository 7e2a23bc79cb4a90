use pseudoterm::tree::Tree;

// "is this thing on?"
#[test]
fn trees() {
    let tree: Tree<i8> = Tree::new(3);

    assert_eq!(*tree.get_value(), 3i8);
}

fn build_tree() -> Tree<&'static str> {
    let mut tree: Tree<&str> = Tree::new("Root");

    tree.insert_child_value("Left");
    tree.insert_child_value("Right");

    {
        let left = tree.get_child_mut(0);

        left.insert_child_value("L");
        left.insert_child_value("M");
        left.insert_child_value("R");
    }

    {
        let right = tree.get_child_mut(1);

        right.insert_child_value("L");
        right.insert_child_value("R");
    }
    //            1 Root
    //          /        \
    //     2 Left        6 Right
    //     /  |  \          /  \
    //  3 L  4 M  5 R     7 L  8 R

    tree
}

// Ensuring DFS iteration is performed correctly and in the correct order
#[test]
fn trees_dfs_iter() {
    let tree = build_tree();

    let v: Vec<&str> = tree.dfs_iter().values().into_iter().copied().collect();

    println!("{:?}", v);

    assert_eq!(*tree.get_value(), "Root");
    assert_eq!(v, vec!["Root", "Left", "L", "M", "R", "Right", "L", "R"]);
}

// Ensuring BFS iteration is performed correctly and in the correct order
#[test]
fn tree_bfs_iter() {
    let tree = build_tree();

    let v: Vec<&str> = tree.bfs_iter().values().into_iter().copied().collect();

    println!("{:?}", v);

    assert_eq!(*tree.get_value(), "Root");
    assert_eq!(v, vec!["Root", "Left", "Right", "L", "M", "R", "L", "R"]);
}

// Ensuring max_depth works correctly for BFS iteration
#[test]
fn tree_bfs_iter_max_depth() {
    let tree = build_tree();

    let v: Vec<&str> = tree.bfs_iter().max_depth(1).values().into_iter().copied().collect();

    assert_eq!(*tree.get_value(), "Root");

    assert_eq!(v, vec!["Root", "Left", "Right"]);

    let v: Vec<&str> = tree.bfs_iter().max_depth(2).values().into_iter().copied().collect();

    assert_eq!(v, vec!["Root", "Left", "Right", "L", "M", "R", "L", "R"]);
}

// Ensuring max_depth works correctly for DFS iteration
#[test]
fn tree_dfs_iter_max_depth() {
    let tree = build_tree();

    let v: Vec<&str> = tree.dfs_iter().max_depth(1).values().into_iter().copied().collect();

    assert_eq!(*tree.get_value(), "Root");

    assert_eq!(v, vec!["Root", "Left", "Right"]);

    let v: Vec<&str> = tree.dfs_iter().max_depth(2).values().into_iter().copied().collect();

    assert_eq!(v, vec!["Root", "Left", "L", "M", "R", "Right", "L", "R"]);
}

// The same checks through the names the shareable tree goes by.
#[test]
fn tree_trees() {
    let tree: pseudoterm::send_tree::SendTree<i8> = pseudoterm::send_tree::SendTree::new(3);
    assert_eq!(*tree.get_value(), 3i8);
}

#[test]
fn tree_trees_dfs_iter() {
    let tree = build_tree();
    let v: Vec<&str> = tree.dfs_iter().values().into_iter().copied().collect();

    println!("{:?}", v);

    assert_eq!(*tree.get_value(), "Root");
    assert_eq!(v, vec!["Root", "Left", "L", "M", "R", "Right", "L", "R"]);
}

#[test]
fn tree_tree_bfs_iter() {
    let tree = build_tree();

    let v: Vec<&str> = tree.bfs_iter().values().into_iter().copied().collect();

    println!("{:?}", v);

    assert_eq!(*tree.get_value(), "Root");
    assert_eq!(v, vec!["Root", "Left", "Right", "L", "M", "R", "L", "R"]);
}

#[test]
fn tree_tree_bfs_iter_max_depth() {
    let tree = build_tree();

    let v: Vec<&str> = tree.bfs_iter().max_depth(1).values().into_iter().copied().collect();

    assert_eq!(*tree.get_value(), "Root");

    assert_eq!(v, vec!["Root", "Left", "Right"]);

    let v: Vec<&str> = tree.bfs_iter().max_depth(2).values().into_iter().copied().collect();

    assert_eq!(v, vec!["Root", "Left", "Right", "L", "M", "R", "L", "R"]);
}

#[test]
fn tree_tree_dfs_iter_max_depth() {
    let tree = build_tree();
    let v: Vec<&str> = tree.dfs_iter().max_depth(1).values().into_iter().copied().collect();

    assert_eq!(*tree.get_value(), "Root");

    assert_eq!(v, vec!["Root", "Left", "Right"]);

    let v: Vec<&str> = tree.dfs_iter().max_depth(2).values().into_iter().copied().collect();

    assert_eq!(v, vec!["Root", "Left", "L", "M", "R", "Right", "L", "R"]);
}

// Structural operations of the tree itself.
#[test]
fn tree_structure_ops() {
    let mut tree: Tree<u32> = Tree::new(10);
    assert!(tree.is_empty());
    assert_eq!(tree.count(), 0);

    tree.insert_child(Tree::new(20));
    tree.insert_child_value(30);
    assert!(!tree.is_empty());
    assert_eq!(tree.count(), 2);

    assert_eq!(*tree.get_child(0).unwrap().get_value(), 20);
    assert_eq!(*tree.get_child(1).unwrap().get_value(), 30);
    assert!(tree.get_child(2).is_none());

    let removed = tree.remove(0);
    assert_eq!(*removed.get_value(), 20);
    assert_eq!(tree.count(), 1);
    assert_eq!(*tree.get_child(0).unwrap().get_value(), 30);

    let previous = tree.replace(11);
    assert_eq!(previous, 10);
    assert_eq!(*tree.get_value(), 11);

    *tree.get_value_mut() = 12;
    assert_eq!(*tree.get_value_pointer(), 12);

    let chained = Tree::new(1).with_child(Tree::new(2));
    assert_eq!(chained.count(), 1);
}

// Both traversals yield one value per node reachable within the depth
// bound, and so yield equally many values.
#[test]
fn traversals_count_reachable_nodes() {
    let tree = build_tree();

    assert_eq!(tree.dfs_iter().values().len(), 8);
    assert_eq!(tree.bfs_iter().values().len(), 8);
    assert_eq!(tree.dfs_iter().max_depth(1).values().len(), 3);
    assert_eq!(tree.bfs_iter().max_depth(1).values().len(), 3);
    assert_eq!(
        tree.dfs_iter().skip_root().values().len(),
        tree.bfs_iter().skip_root().values().len()
    );
}

// Pre-order and level order disagree on a tree two levels deep with two
// branches.
#[test]
fn traversal_orders_differ() {
    let tree = build_tree();
    let dfs: Vec<&str> = tree.dfs_iter().values().into_iter().copied().collect();
    let bfs: Vec<&str> = tree.bfs_iter().values().into_iter().copied().collect();
    assert_ne!(dfs, bfs);
}

// A skipped root still has its subtree visited.
#[test]
fn tree_skip_root() {
    let tree = build_tree();

    let v: Vec<&str> = tree.dfs_iter().skip_root().values().into_iter().copied().collect();
    assert_eq!(v, vec!["Left", "L", "M", "R", "Right", "L", "R"]);

    let v: Vec<&str> = tree.bfs_iter().skip_root().values().into_iter().copied().collect();
    assert_eq!(v, vec!["Left", "Right", "L", "M", "R", "L", "R"]);

    let v: Vec<&str> =
        tree.bfs_iter().skip_root().max_depth(1).values().into_iter().copied().collect();
    assert_eq!(v, vec!["Left", "Right"]);
}
