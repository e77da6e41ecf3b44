use green_thread::tree::Node;

fn sample() -> Node {
    let mut t = Node::new(3);
    for key in [2, 4, 0, 8, 11, 18, 22, 16, 12, 7, 10] {
        t.insert(key);
    }
    t
}

#[test]
fn search_absent_value() {
    assert_eq!(sample().search(15), None);
    assert_eq!(sample().search(-1), None);
    assert_eq!(sample().search(23), None);
}

#[test]
fn search_present_values() {
    let t = sample();
    for key in [3, 2, 4, 0, 8, 11, 18, 22, 16, 12, 7, 10] {
        assert_eq!(t.search(key), Some(key));
    }
}

#[test]
fn single_node_tree() {
    let t = Node::new(5);
    assert_eq!(t.search(5), Some(5));
    assert_eq!(t.search(4), None);
    assert_eq!(t.search(6), None);
}

#[test]
fn duplicate_and_extreme_values() {
    let mut t = Node::new(0);
    t.insert(0);
    t.insert(i32::MIN);
    t.insert(i32::MAX);
    assert_eq!(t.search(0), Some(0));
    assert_eq!(t.search(i32::MIN), Some(i32::MIN));
    assert_eq!(t.search(i32::MAX), Some(i32::MAX));
    assert_eq!(t.search(1), None);
}
