//! An ordered, cycle-free ownership tree.
//!
//! Each node owns its value and an ordered sequence of exclusively-owned
//! child nodes; the order of the children is stable and defines the index
//! used by lookups.  Depth-first and breadth-first traversals are offered
//! through small configuration values built by [`Tree::dfs_iter`] and
//! [`Tree::bfs_iter`].

use vstd::prelude::*;

verus! {

/// A node of an ordered tree: a value and the node's children, left to right.
pub struct Tree<T> {
    pub value: T,
    pub children: Vec<Tree<T>>,
}

/// Number of nodes in a forest (the trees and all their descendants).
pub open spec fn forest_size<T>(ts: Seq<Tree<T>>) -> nat
    decreases ts,
{
    if ts.len() == 0 {
        0
    } else {
        1 + forest_size(ts[0].children@) + forest_size(ts.drop_first())
    }
}

/// Whether a traversal descends below nodes sitting at `depth`;
/// a `max_depth` of 0 means unlimited.
pub open spec fn descends(max_depth: nat, depth: nat) -> bool {
    max_depth == 0 || depth < max_depth
}

/// The depth recorded for the children of a node at `depth`.  When the
/// traversal is unlimited the depth is never consulted, so it is left
/// unchanged rather than incremented; this keeps the executable counters
/// free of overflow.
pub open spec fn next_depth(max_depth: nat, depth: nat) -> nat {
    if max_depth > 0 {
        (depth + 1) as nat
    } else {
        depth
    }
}

/// Values of a forest in depth-first, pre-order, left-to-right order,
/// visiting only nodes within `max_depth` (`depth` is the level of the
/// forest's roots).
pub open spec fn dfs_forest<T>(ts: Seq<Tree<T>>, max_depth: nat, depth: nat) -> Seq<T>
    decreases ts,
{
    if ts.len() == 0 {
        Seq::empty()
    } else {
        seq![ts[0].value] + (if descends(max_depth, depth) {
            dfs_forest(ts[0].children@, max_depth, next_depth(max_depth, depth))
        } else {
            Seq::empty()
        }) + dfs_forest(ts.drop_first(), max_depth, depth)
    }
}

/// Number of nodes of a forest within `max_depth`.
pub open spec fn reachable_count<T>(ts: Seq<Tree<T>>, max_depth: nat, depth: nat) -> nat
    decreases ts,
{
    if ts.len() == 0 {
        0
    } else {
        1 + (if descends(max_depth, depth) {
            reachable_count(ts[0].children@, max_depth, next_depth(max_depth, depth))
        } else {
            0
        }) + reachable_count(ts.drop_first(), max_depth, depth)
    }
}

/// The values of the roots of a forest, in order.
pub open spec fn root_values<T>(ts: Seq<Tree<T>>) -> Seq<T> {
    ts.map_values(|t: Tree<T>| t.value)
}

/// All children of a forest's roots, concatenated in order: the next
/// level of a breadth-first traversal.
pub open spec fn child_forest<T>(ts: Seq<Tree<T>>) -> Seq<Tree<T>>
    decreases ts,
{
    if ts.len() == 0 {
        Seq::empty()
    } else {
        ts[0].children@ + child_forest(ts.drop_first())
    }
}

/// Values of a forest level by level, each level left to right, visiting
/// only nodes within `max_depth`.
pub open spec fn bfs_forest<T>(ts: Seq<Tree<T>>, max_depth: nat, depth: nat) -> Seq<T>
    decreases forest_size(ts),
    via bfs_forest_decreases::<T>
{
    if ts.len() == 0 {
        Seq::empty()
    } else {
        root_values(ts) + (if descends(max_depth, depth) {
            bfs_forest(child_forest(ts), max_depth, next_depth(max_depth, depth))
        } else {
            Seq::empty()
        })
    }
}

#[via_fn]
proof fn bfs_forest_decreases<T>(ts: Seq<Tree<T>>, max_depth: nat, depth: nat) {
    if ts.len() != 0 {
        lemma_child_forest_size(ts);
    }
}

/// A forest's children hold exactly the forest's nodes minus its roots.
pub proof fn lemma_child_forest_size<T>(ts: Seq<Tree<T>>)
    ensures
        forest_size(child_forest(ts)) + ts.len() == forest_size(ts),
    decreases ts,
{
    if ts.len() == 0 {
        assert(child_forest(ts) =~= Seq::<Tree<T>>::empty());
    } else {
        lemma_child_forest_size(ts.drop_first());
        lemma_forest_size_add(ts[0].children@, child_forest(ts.drop_first()));
    }
}

/// `forest_size` distributes over concatenation.
pub proof fn lemma_forest_size_add<T>(a: Seq<Tree<T>>, b: Seq<Tree<T>>)
    ensures
        forest_size(a + b) == forest_size(a) + forest_size(b),
    decreases a,
{
    if a.len() == 0 {
        assert(a + b =~= b);
    } else {
        assert((a + b).drop_first() =~= a.drop_first() + b);
        lemma_forest_size_add(a.drop_first(), b);
    }
}

/// A sequence of references, read as the sequence of the referenced values.
pub open spec fn deref_seq<T>(s: Seq<&T>) -> Seq<T> {
    s.map_values(|x: &T| *x)
}

/// The value sequence a depth-first traversal of `t` produces.
pub open spec fn spec_dfs<T>(t: Tree<T>, max_depth: nat, skip_root: bool) -> Seq<T> {
    if skip_root {
        dfs_forest(t.children@, max_depth, next_depth(max_depth, 0))
    } else {
        dfs_forest(seq![t], max_depth, 0)
    }
}

/// The value sequence a breadth-first traversal of `t` produces.
pub open spec fn spec_bfs<T>(t: Tree<T>, max_depth: nat, skip_root: bool) -> Seq<T> {
    if skip_root {
        bfs_forest(t.children@, max_depth, next_depth(max_depth, 0))
    } else {
        bfs_forest(seq![t], max_depth, 0)
    }
}

/// How many nodes of `t` a traversal with this configuration reaches.
pub open spec fn spec_reachable<T>(t: Tree<T>, max_depth: nat, skip_root: bool) -> nat {
    if skip_root {
        reachable_count(t.children@, max_depth, next_depth(max_depth, 0))
    } else {
        reachable_count(seq![t], max_depth, 0)
    }
}

/// `dfs_forest` distributes over concatenation.
pub proof fn lemma_dfs_forest_add<T>(a: Seq<Tree<T>>, b: Seq<Tree<T>>, max_depth: nat, depth: nat)
    ensures
        dfs_forest(a + b, max_depth, depth) == dfs_forest(a, max_depth, depth) + dfs_forest(
            b,
            max_depth,
            depth,
        ),
    decreases a,
{
    if a.len() == 0 {
        assert(a + b =~= b);
        assert(dfs_forest(a, max_depth, depth) + dfs_forest(b, max_depth, depth) =~= dfs_forest(
            b,
            max_depth,
            depth,
        ));
    } else {
        assert((a + b).drop_first() =~= a.drop_first() + b);
        lemma_dfs_forest_add(a.drop_first(), b, max_depth, depth);
        assert(dfs_forest(a + b, max_depth, depth) =~= dfs_forest(a, max_depth, depth)
            + dfs_forest(b, max_depth, depth));
    }
}

/// Unfolding of `dfs_forest` on a single tree.
pub proof fn lemma_dfs_forest_single<T>(t: Tree<T>, max_depth: nat, depth: nat)
    ensures
        dfs_forest(seq![t], max_depth, depth) == seq![t.value] + (if descends(max_depth, depth) {
            dfs_forest(t.children@, max_depth, next_depth(max_depth, depth))
        } else {
            Seq::<T>::empty()
        }),
{
    let s = seq![t];
    assert(s.drop_first() =~= Seq::<Tree<T>>::empty());
    assert(dfs_forest(s.drop_first(), max_depth, depth) =~= Seq::<T>::empty());
    assert(dfs_forest(s, max_depth, depth) =~= seq![t.value] + (if descends(max_depth, depth) {
        dfs_forest(t.children@, max_depth, next_depth(max_depth, depth))
    } else {
        Seq::<T>::empty()
    }));
}

/// `child_forest` distributes over concatenation.
pub proof fn lemma_child_forest_add<T>(a: Seq<Tree<T>>, b: Seq<Tree<T>>)
    ensures
        child_forest(a + b) == child_forest(a) + child_forest(b),
    decreases a,
{
    if a.len() == 0 {
        assert(a + b =~= b);
        assert(child_forest(a) + child_forest(b) =~= child_forest(b));
    } else {
        assert((a + b).drop_first() =~= a.drop_first() + b);
        lemma_child_forest_add(a.drop_first(), b);
        assert(child_forest(a + b) =~= child_forest(a) + child_forest(b));
    }
}

/// `reachable_count` distributes over concatenation.
pub proof fn lemma_reachable_count_add<T>(
    a: Seq<Tree<T>>,
    b: Seq<Tree<T>>,
    max_depth: nat,
    depth: nat,
)
    ensures
        reachable_count(a + b, max_depth, depth) == reachable_count(a, max_depth, depth)
            + reachable_count(b, max_depth, depth),
    decreases a,
{
    if a.len() == 0 {
        assert(a + b =~= b);
    } else {
        assert((a + b).drop_first() =~= a.drop_first() + b);
        lemma_reachable_count_add(a.drop_first(), b, max_depth, depth);
    }
}

/// A forest's reachable nodes are its roots plus, where the traversal
/// descends, the nodes reachable in the forest of all their children.
pub proof fn lemma_reachable_level<T>(ts: Seq<Tree<T>>, max_depth: nat, depth: nat)
    ensures
        reachable_count(ts, max_depth, depth) == ts.len() + (if descends(max_depth, depth) {
            reachable_count(child_forest(ts), max_depth, next_depth(max_depth, depth))
        } else {
            0
        }),
    decreases ts,
{
    if ts.len() == 0 {
        assert(child_forest(ts) =~= Seq::<Tree<T>>::empty());
    } else {
        lemma_reachable_level(ts.drop_first(), max_depth, depth);
        if descends(max_depth, depth) {
            lemma_reachable_count_add(
                ts[0].children@,
                child_forest(ts.drop_first()),
                max_depth,
                next_depth(max_depth, depth),
            );
        }
    }
}

/// A depth-first traversal yields one value per reachable node.
pub proof fn lemma_dfs_forest_len<T>(ts: Seq<Tree<T>>, max_depth: nat, depth: nat)
    ensures
        dfs_forest(ts, max_depth, depth).len() == reachable_count(ts, max_depth, depth),
    decreases ts,
{
    if ts.len() == 0 {
    } else {
        if descends(max_depth, depth) {
            lemma_dfs_forest_len(ts[0].children@, max_depth, next_depth(max_depth, depth));
        }
        lemma_dfs_forest_len(ts.drop_first(), max_depth, depth);
    }
}

/// A breadth-first traversal yields one value per reachable node.
pub proof fn lemma_bfs_forest_len<T>(ts: Seq<Tree<T>>, max_depth: nat, depth: nat)
    ensures
        bfs_forest(ts, max_depth, depth).len() == reachable_count(ts, max_depth, depth),
    decreases forest_size(ts),
{
    if ts.len() == 0 {
    } else {
        lemma_child_forest_size(ts);
        if descends(max_depth, depth) {
            lemma_bfs_forest_len(child_forest(ts), max_depth, next_depth(max_depth, depth));
        }
        lemma_reachable_level(ts, max_depth, depth);
    }
}

/// For any tree and any traversal configuration, the number of yielded
/// values equals the number of nodes reachable within `max_depth` (all
/// nodes if `max_depth` is 0); in particular, the depth-first and the
/// breadth-first traversal yield equally many values.
pub proof fn lemma_traversal_count<T>(t: Tree<T>, max_depth: nat, skip_root: bool)
    ensures
        spec_dfs(t, max_depth, skip_root).len() == spec_reachable(t, max_depth, skip_root),
        spec_bfs(t, max_depth, skip_root).len() == spec_reachable(t, max_depth, skip_root),
{
    if skip_root {
        lemma_dfs_forest_len(t.children@, max_depth, next_depth(max_depth, 0));
        lemma_bfs_forest_len(t.children@, max_depth, next_depth(max_depth, 0));
    } else {
        lemma_dfs_forest_len(seq![t], max_depth, 0);
        lemma_bfs_forest_len(seq![t], max_depth, 0);
    }
}

/// In a forest, depth-first traversal opens with the first root's value
/// and then its first child's value, while breadth-first traversal stays
/// on the roots' own values first.
proof fn lemma_dfs_forest_head<T>(ts: Seq<Tree<T>>, max_depth: nat, depth: nat)
    requires
        ts.len() > 0,
    ensures
        dfs_forest(ts, max_depth, depth).len() > 0,
        dfs_forest(ts, max_depth, depth)[0] == ts[0].value,
{
}

/// The pre-order and the level order differ on any tree whose root has at
/// least two children and whose first child has a child of its own — as
/// long as the value below the first child is not the same value as the
/// second child's, the two traversals disagree already at their third
/// element: depth-first visits the grandchild there, breadth-first the
/// second child.
pub proof fn lemma_dfs_bfs_differ<T>(t: Tree<T>)
    requires
        t.children@.len() >= 2,
        t.children@[0].children@.len() >= 1,
        t.children@[0].children@[0].value != t.children@[1].value,
    ensures
        spec_dfs(t, 0, false) != spec_bfs(t, 0, false),
{
    let cs = t.children@;
    let c0 = cs[0];
    // the third value of the depth-first order is the grandchild's
    lemma_dfs_forest_single(t, 0, 0);
    assert(cs.drop_first().len() > 0);
    lemma_dfs_forest_head(cs, 0, 0);
    lemma_dfs_forest_head(c0.children@, 0, 0);
    assert(dfs_forest(cs, 0, 0)[1] == dfs_forest(c0.children@, 0, 0)[0]);
    assert(spec_dfs(t, 0, false)[2] == c0.children@[0].value);
    // the third value of the level order is the second child's
    assert(spec_bfs(t, 0, false) == bfs_forest(seq![t], 0, 0));
    assert(root_values(seq![t]) =~= seq![t.value]);
    assert(child_forest(Seq::<Tree<T>>::empty()) =~= Seq::<Tree<T>>::empty());
    assert(seq![t].drop_first() =~= Seq::<Tree<T>>::empty());
    assert(child_forest(seq![t]) =~= cs + child_forest(seq![t].drop_first()));
    assert(child_forest(seq![t]) =~= cs);
    assert(bfs_forest(seq![t], 0, 0) == root_values(seq![t]) + bfs_forest(cs, 0, 0));
    assert(bfs_forest(cs, 0, 0) == root_values(cs) + bfs_forest(
        child_forest(cs),
        0,
        next_depth(0, 0),
    ));
    assert(root_values(cs).len() == cs.len());
    assert(bfs_forest(cs, 0, 0)[1] == root_values(cs)[1]);
    assert(spec_bfs(t, 0, false)[2] == cs[1].value);
    assert(spec_dfs(t, 0, false)[2] != spec_bfs(t, 0, false)[2]);
}

impl<T> Tree<T> {
    /// A single node holding `value`, with no children.
    pub fn new(value: T) -> (t: Tree<T>)
        ensures
            t.value == value,
            t.children@ =~= Seq::<Tree<T>>::empty(),
    {
        Tree { value, children: Vec::new() }
    }

    /// Shared access to the node's own value.
    pub fn get_value(&self) -> (r: &T)
        ensures
            *r == self.value,
    {
        &self.value
    }

    /// A shared handle to the node's value; the tree is plain owned data,
    /// so a borrow serves as the handle.
    pub fn get_value_pointer(&self) -> (r: &T)
        ensures
            *r == self.value,
    {
        &self.value
    }

    /// Exclusive access to the node's own value; the children are untouched.
    pub fn get_value_mut(&mut self) -> (r: &mut T)
        ensures
            *r == old(self).value,
            final(self).value == *final(r),
            final(self).children == old(self).children,
    {
        &mut self.value
    }

    /// Swaps `value` into the node and hands the previous value back.
    pub fn replace(&mut self, value: T) -> (r: T)
        ensures
            r == old(self).value,
            final(self).value == value,
            final(self).children == old(self).children,
    {
        let mut v = value;
        core::mem::swap(&mut self.value, &mut v);
        v
    }

    /// Appends `child` as the new rightmost child, transferring ownership.
    pub fn insert_child(&mut self, child: Tree<T>)
        ensures
            final(self).value == old(self).value,
            final(self).children@ == old(self).children@.push(child),
    {
        self.children.push(child);
    }

    /// `insert_child`, returning the tree for chained construction.
    pub fn with_child(self, child: Tree<T>) -> (r: Tree<T>)
        ensures
            r.value == self.value,
            r.children@ == self.children@.push(child),
    {
        let mut t = self;
        t.insert_child(child);
        t
    }

    /// Appends a new leaf holding `value` as the rightmost child.
    pub fn insert_child_value(&mut self, value: T)
        ensures
            final(self).value == old(self).value,
            final(self).children@.len() == old(self).children@.len() + 1,
            final(self).children@.drop_last() == old(self).children@,
            final(self).children@.last().value == value,
            final(self).children@.last().children@.len() == 0,
    {
        self.insert_child(Tree::new(value));
        proof {
            assert(final(self).children@.drop_last() =~= old(self).children@);
        }
    }

    /// The child at `index`, if there is one.
    pub fn get_child(&self, index: usize) -> (r: Option<&Tree<T>>)
        ensures
            index < self.children@.len() ==> r == Some(&self.children@[index as int]),
            index >= self.children@.len() ==> r is None,
    {
        if index < self.children.len() {
            Some(&self.children[index])
        } else {
            None
        }
    }

    /// Exclusive access to the child at `index`.
    pub fn get_child_mut(&mut self, index: usize) -> (r: &mut Tree<T>)
        requires
            index < old(self).children@.len(),
        ensures
            *r == old(self).children@[index as int],
            final(self).value == old(self).value,
            final(self).children@ == old(self).children@.update(index as int, *final(r)),
    {
        &mut self.children[index]
    }

    /// True when the node has no children.
    pub fn is_empty(&self) -> (r: bool)
        ensures
            r == (self.children@.len() == 0),
    {
        self.children.len() == 0
    }

    /// The number of direct children.
    pub fn count(&self) -> (r: usize)
        ensures
            r == self.children@.len(),
    {
        self.children.len()
    }

    /// Detaches the child at `index` and returns ownership of that subtree;
    /// the later children shift left.
    pub fn remove(&mut self, index: usize) -> (r: Tree<T>)
        requires
            index < old(self).children@.len(),
        ensures
            r == old(self).children@[index as int],
            final(self).value == old(self).value,
            final(self).children@ == old(self).children@.remove(index as int),
    {
        self.children.remove(index)
    }

    /// A depth-first (pre-order, children left to right) traversal of this
    /// tree, visiting every node until configured otherwise.
    pub fn dfs_iter<'a>(&'a self) -> (r: DfsTreeIterator<'a, T>)
        ensures
            r.tree == self,
            r.max_depth == 0usize,
            r.skip_root == false,
    {
        DfsTreeIterator { tree: self, max_depth: 0, skip_root: false }
    }

    /// A breadth-first (level by level, each level left to right) traversal
    /// of this tree, visiting every node until configured otherwise.
    pub fn bfs_iter<'a>(&'a self) -> (r: BfsTreeIterator<'a, T>)
        ensures
            r.tree == self,
            r.max_depth == 0usize,
            r.skip_root == false,
    {
        BfsTreeIterator { tree: self, max_depth: 0, skip_root: false }
    }
}

/// Pushes onto `out` the values of the subtree at `t` in depth-first
/// pre-order, keeping only nodes within `max_depth` (`t` sits at `depth`).
fn dfs_collect<'a, T>(t: &'a Tree<T>, max_depth: usize, depth: usize, out: &mut Vec<&'a T>)
    requires
        max_depth > 0 ==> depth <= max_depth,
    ensures
        deref_seq(final(out)@) == deref_seq(old(out)@) + dfs_forest(
            seq![*t],
            max_depth as nat,
            depth as nat,
        ),
    decreases *t,
{
    let ghost start = out@;
    out.push(&t.value);
    proof {
        assert(deref_seq(out@) =~= deref_seq(start) + seq![t.value]);
    }
    if max_depth == 0 || depth < max_depth {
        let d2 = if max_depth > 0 {
            depth + 1
        } else {
            depth
        };
        let ghost cs = t.children@;
        let mut i: usize = 0;
        while i < t.children.len()
            invariant
                i <= cs.len(),
                cs == t.children@,
                max_depth > 0 ==> d2 <= max_depth,
                d2 == next_depth(max_depth as nat, depth as nat),
                deref_seq(out@) == deref_seq(start) + seq![t.value] + dfs_forest(
                    cs.take(i as int),
                    max_depth as nat,
                    d2 as nat,
                ),
            decreases cs.len() - i,
        {
            proof {
                assert(decreases_to!(*t => t.children@[i as int]));
            }
            let ghost before = out@;
            dfs_collect(&t.children[i], max_depth, d2, out);
            proof {
                assert(cs.take(i + 1 as int) =~= cs.take(i as int) + seq![cs[i as int]]);
                lemma_dfs_forest_add(
                    cs.take(i as int),
                    seq![cs[i as int]],
                    max_depth as nat,
                    d2 as nat,
                );
            }
            i += 1;
        }
        proof {
            assert(cs.take(cs.len() as int) =~= cs);
            lemma_dfs_forest_single(*t, max_depth as nat, depth as nat);
        }
    } else {
        proof {
            lemma_dfs_forest_single(*t, max_depth as nat, depth as nat);
            assert(deref_seq(out@) =~= deref_seq(start) + dfs_forest(
                seq![*t],
                max_depth as nat,
                depth as nat,
            ));
        }
    }
}

/// A configured depth-first traversal over a borrowed tree.
pub struct DfsTreeIterator<'a, T> {
    pub tree: &'a Tree<T>,
    pub max_depth: usize,
    pub skip_root: bool,
}

impl<'a, T> DfsTreeIterator<'a, T> {
    /// Restricts the traversal to nodes within `max_depth` of the root
    /// (0 keeps it unlimited).
    pub fn max_depth(self, max_depth: usize) -> (r: Self)
        ensures
            r.tree == self.tree,
            r.max_depth == max_depth,
            r.skip_root == self.skip_root,
    {
        Self { max_depth, ..self }
    }

    /// Excludes the root's own value while still descending into it.
    pub fn skip_root(self) -> (r: Self)
        ensures
            r.tree == self.tree,
            r.max_depth == self.max_depth,
            r.skip_root == true,
    {
        Self { skip_root: true, ..self }
    }

    /// The traversal's values, in order.
    pub fn values(&self) -> (r: Vec<&'a T>)
        ensures
            deref_seq(r@) == spec_dfs(*self.tree, self.max_depth as nat, self.skip_root),
    {
        let mut out: Vec<&'a T> = Vec::new();
        if self.skip_root {
            let d = if self.max_depth > 0 {
                1
            } else {
                0
            };
            let ghost cs = self.tree.children@;
            let mut i: usize = 0;
            while i < self.tree.children.len()
                invariant
                    i <= cs.len(),
                    cs == self.tree.children@,
                    self.max_depth > 0 ==> d == 1usize,
                    self.max_depth == 0 ==> d == 0usize,
                    deref_seq(out@) == dfs_forest(
                        cs.take(i as int),
                        self.max_depth as nat,
                        d as nat,
                    ),
                decreases cs.len() - i,
            {
                dfs_collect(&self.tree.children[i], self.max_depth, d, &mut out);
                proof {
                    assert(cs.take(i + 1 as int) =~= cs.take(i as int) + seq![cs[i as int]]);
                    lemma_dfs_forest_add(
                        cs.take(i as int),
                        seq![cs[i as int]],
                        self.max_depth as nat,
                        d as nat,
                    );
                }
                i += 1;
            }
            proof {
                assert(cs.take(cs.len() as int) =~= cs);
                assert(deref_seq(Seq::<&'a T>::empty()) =~= Seq::<T>::empty());
            }
        } else {
            dfs_collect(self.tree, self.max_depth, 0, &mut out);
            proof {
                assert(deref_seq(Seq::<&'a T>::empty()) =~= Seq::<T>::empty());
            }
        }
        out
    }
}

/// A configured breadth-first traversal over a borrowed tree.
pub struct BfsTreeIterator<'a, T> {
    pub tree: &'a Tree<T>,
    pub max_depth: usize,
    pub skip_root: bool,
}

impl<'a, T> BfsTreeIterator<'a, T> {
    /// Restricts the traversal to nodes within `max_depth` of the root
    /// (0 keeps it unlimited).
    pub fn max_depth(self, max_depth: usize) -> (r: Self)
        ensures
            r.tree == self.tree,
            r.max_depth == max_depth,
            r.skip_root == self.skip_root,
    {
        Self { max_depth, ..self }
    }

    /// Excludes the root's own value while still descending into it.
    pub fn skip_root(self) -> (r: Self)
        ensures
            r.tree == self.tree,
            r.max_depth == self.max_depth,
            r.skip_root == true,
    {
        Self { skip_root: true, ..self }
    }

    /// The traversal's values, in order.
    #[verifier::loop_isolation(false)]
    pub fn values(&self) -> (r: Vec<&'a T>)
        ensures
            deref_seq(r@) == spec_bfs(*self.tree, self.max_depth as nat, self.skip_root),
    {
        let ghost target = spec_bfs(*self.tree, self.max_depth as nat, self.skip_root);
        let mut out: Vec<&'a T> = Vec::new();
        let mut frontier: Vec<&'a Tree<T>> = Vec::new();
        let mut depth: usize;
        if self.skip_root {
            push_child_refs(self.tree, &mut frontier);
            proof {
                assert(deref_seq(frontier@) =~= self.tree.children@);
            }
            depth = if self.max_depth > 0 {
                1
            } else {
                0
            };
        } else {
            frontier.push(self.tree);
            proof {
                assert(deref_seq(frontier@) =~= seq![*self.tree]);
            }
            depth = 0;
        }
        proof {
            assert(deref_seq(out@) =~= Seq::<T>::empty());
            assert(target == deref_seq(out@) + bfs_forest(
                deref_seq(frontier@),
                self.max_depth as nat,
                depth as nat,
            ));
        }
        while frontier.len() > 0
            invariant
                self.max_depth > 0 ==> depth <= self.max_depth,
                target == deref_seq(out@) + bfs_forest(
                    deref_seq(frontier@),
                    self.max_depth as nat,
                    depth as nat,
                ),
            decreases forest_size(deref_seq(frontier@)),
        {
            let ghost level = deref_seq(frontier@);
            let ghost out_start = out@;
            let desc = self.max_depth == 0 || depth < self.max_depth;
            let mut next: Vec<&'a Tree<T>> = Vec::new();
            proof {
                assert(level.take(0int) =~= Seq::<Tree<T>>::empty());
                assert(root_values(level.take(0int)) =~= Seq::<T>::empty());
                assert(child_forest(level.take(0int)) =~= Seq::<Tree<T>>::empty());
                assert(deref_seq(out@) =~= deref_seq(out_start) + root_values(level.take(0int)));
                assert(deref_seq(next@) =~= Seq::<Tree<T>>::empty());
            }
            let mut i: usize = 0;
            while i < frontier.len()
                invariant
                    i <= level.len(),
                    deref_seq(out@) == deref_seq(out_start) + root_values(level.take(i as int)),
                    deref_seq(next@) == (if desc {
                        child_forest(level.take(i as int))
                    } else {
                        Seq::<Tree<T>>::empty()
                    }),
                decreases level.len() - i,
            {
                let node: &'a Tree<T> = frontier[i];
                let ghost out_snap = out@;
                out.push(&node.value);
                proof {
                    assert(*node == level[i as int]);
                    assert(deref_seq(out@) =~= deref_seq(out_snap).push(level[i as int].value));
                    assert(root_values(level.take(i + 1)) =~= root_values(
                        level.take(i as int),
                    ).push(level[i as int].value));
                    assert(deref_seq(out_snap).push(level[i as int].value) =~= deref_seq(out_start)
                        + root_values(level.take(i + 1)));
                }
                if desc {
                    let ghost next_before = deref_seq(next@);
                    push_child_refs(node, &mut next);
                    proof {
                        assert(level.take(i + 1) =~= level.take(i as int) + seq![level[i as int]]);
                        lemma_child_forest_add(level.take(i as int), seq![level[i as int]]);
                        assert(seq![level[i as int]].drop_first() =~= Seq::<Tree<T>>::empty());
                        assert(child_forest(seq![level[i as int]]) =~= level[i as int].children@);
                        assert(deref_seq(next@) =~= child_forest(level.take(i + 1)));
                    }
                }
                i += 1;
            }
            proof {
                assert(level.take(level.len() as int) =~= level);
            }
            frontier = next;
            if desc && self.max_depth > 0 {
                depth = depth + 1;
            }
            proof {
                lemma_child_forest_size(level);
                if !desc {
                    assert(deref_seq(frontier@) =~= Seq::<Tree<T>>::empty());
                    assert(bfs_forest(
                        deref_seq(frontier@),
                        self.max_depth as nat,
                        depth as nat,
                    ) =~= Seq::<T>::empty());
                }
            }
        }
        proof {
            assert(deref_seq(frontier@) =~= Seq::<Tree<T>>::empty());
            assert(bfs_forest(deref_seq(frontier@), self.max_depth as nat, depth as nat)
                =~= Seq::<T>::empty());
        }
        out
    }
}

/// Appends to `next` a reference to each child of `node`, in order.
#[verifier::loop_isolation(false)]
fn push_child_refs<'a, T>(node: &'a Tree<T>, next: &mut Vec<&'a Tree<T>>)
    ensures
        deref_seq(final(next)@) == deref_seq(old(next)@) + node.children@,
{
    proof {
        assert(node.children@.take(0int) =~= Seq::<Tree<T>>::empty());
        assert(deref_seq(next@) =~= deref_seq(next@) + node.children@.take(0int));
    }
    let mut j: usize = 0;
    while j < node.children.len()
        invariant
            j <= node.children@.len(),
            deref_seq(next@) == deref_seq(old(next)@) + node.children@.take(j as int),
        decreases node.children@.len() - j,
    {
        let ghost snap = next@;
        next.push(&node.children[j]);
        proof {
            assert(deref_seq(next@) =~= deref_seq(snap).push(node.children@[j as int]));
            assert(node.children@.take(j + 1) =~= node.children@.take(j as int).push(
                node.children@[j as int],
            ));
            assert(deref_seq(snap).push(node.children@[j as int]) =~= deref_seq(old(next)@)
                + node.children@.take(j + 1));
        }
        j += 1;
    }
    proof {
        assert(node.children@.take(node.children@.len() as int) =~= node.children@);
    }
}

} // verus!
