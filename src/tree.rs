//! An unbalanced binary search tree of `i32` values. Smaller values go left,
//! equal and larger values go right, so a value may be held more than once.
use vstd::prelude::*;
use vstd::multiset::Multiset;

verus! {

pub struct Node {
    value: i32,
    left: Option<Box<Node>>,
    right: Option<Box<Node>>,
}

impl Node {
    /// The values held by an optional subtree, each as often as it was inserted.
    pub closed spec fn optional_values(n: Option<Box<Node>>) -> Multiset<i32>
        decreases n,
    {
        match n {
            None => Multiset::empty(),
            Some(b) => b.values(),
        }
    }

    /// The values held by the tree rooted here, each as often as it was inserted.
    pub closed spec fn values(self) -> Multiset<i32>
        decreases self,
    {
        Node::optional_values(self.left).add(Node::optional_values(self.right)).insert(self.value)
    }

    /// Search order: every value on the left is smaller than this node's, every
    /// value on the right is at least as large, and the same holds below.
    pub closed spec fn wf(self) -> bool
        decreases self,
    {
        &&& forall|v: i32| Node::optional_values(self.left).count(v) > 0 ==> v < self.value
        &&& forall|v: i32| Node::optional_values(self.right).count(v) > 0 ==> v >= self.value
        &&& match self.left {
            Some(l) => l.wf(),
            None => true,
        }
        &&& match self.right {
            Some(r) => r.wf(),
            None => true,
        }
    }

    /// An optional subtree that is either absent or in search order.
    pub closed spec fn optional_wf(n: Option<Box<Node>>) -> bool {
        match n {
            Some(b) => b.wf(),
            None => true,
        }
    }

    /// A tree holding `value` alone.
    pub fn new(value: i32) -> (r: Node)
        ensures
            r.wf(),
            r.values() == Multiset::<i32>::singleton(value),
    {
        let r = Node { value: value, left: None, right: None };
        assert(r.values() =~= Multiset::<i32>::singleton(value));
        r
    }

    fn insert_into(node: &mut Option<Box<Node>>, value: i32)
        requires
            Node::optional_wf(*old(node)),
        ensures
            Node::optional_wf(*final(node)),
            Node::optional_values(*final(node)) == Node::optional_values(*old(node)).insert(value),
        decreases *old(node),
    {
        match node.take() {
            None => {
                let n = Node::new(value);
                *node = Some(Box::new(n));
                assert(Node::optional_values(*node) =~= Multiset::<i32>::empty().insert(value));
            },
            Some(mut b) => {
                (&mut *b).insert(value);
                *node = Some(b);
            },
        }
    }

    /// Adds `value` to the tree, keeping search order.
    pub fn insert(&mut self, value: i32)
        requires
            old(self).wf(),
        ensures
            final(self).wf(),
            final(self).values() == old(self).values().insert(value),
        decreases *old(self),
    {
        if value < self.value {
            Node::insert_into(&mut self.left, value);
        } else {
            Node::insert_into(&mut self.right, value);
        }
        assert(self.values() =~= old(self).values().insert(value));
    }

    /// `Some(target)` when the tree holds `target`, `None` otherwise.
    pub fn search(&self, target: i32) -> (r: Option<i32>)
        requires
            self.wf(),
        ensures
            r == (if self.values().count(target) > 0 {
                Some(target)
            } else {
                None::<i32>
            }),
        decreases self,
    {
        if target == self.value {
            Some(self.value)
        } else if target < self.value {
            assert(Node::optional_values(self.right).count(target) == 0);
            match &self.left {
                None => None,
                Some(l) => l.search(target),
            }
        } else {
            assert(Node::optional_values(self.left).count(target) == 0);
            match &self.right {
                None => None,
                Some(r) => r.search(target),
            }
        }
    }
}

} // verus!
