//! A doubly-linked list threaded through externally numbered node slots.
//!
//! Nodes live in slots that never move once created, so a slot's index is a
//! stable handle for the node. Linking and unlinking a node rewires only the
//! `next`/`prev` indices of the node and its neighbours; no slot is created
//! or destroyed by either operation.

use vstd::prelude::*;

verus! {

/// One slot: a payload and the two links that thread it into the chain. A
/// link is the index of another slot.
struct ListNode<T> {
    value: T,
    next: Option<usize>,
    prev: Option<usize>,
}

/// The list: the slots, the two end links and the count of linked nodes.
/// Beside them it keeps, for proofs only, the order of the linked nodes.
pub struct IntrusiveList<T> {
    nodes: Vec<ListNode<T>>,
    head: Option<usize>,
    tail: Option<usize>,
    len: usize,
    order: Ghost<Seq<usize>>,
}

/// The first element of `order`, if any.
pub open spec fn first_of(order: Seq<usize>) -> Option<usize> {
    if order.len() == 0 {
        None
    } else {
        Some(order[0])
    }
}

/// The last element of `order`, if any.
pub open spec fn last_of(order: Seq<usize>) -> Option<usize> {
    if order.len() == 0 {
        None
    } else {
        Some(order[order.len() - 1])
    }
}

/// The element after position `i` of `order`, if any.
pub open spec fn after(order: Seq<usize>, i: int) -> Option<usize> {
    if i + 1 < order.len() {
        Some(order[i + 1])
    } else {
        None
    }
}

/// The element before position `i` of `order`, if any.
pub open spec fn before(order: Seq<usize>, i: int) -> Option<usize> {
    if 0 < i {
        Some(order[i - 1])
    } else {
        None
    }
}

impl<T> View for IntrusiveList<T> {
    type V = Seq<usize>;

    /// The linked nodes, from head to tail.
    closed spec fn view(&self) -> Seq<usize> {
        self.order@
    }
}

impl<T> IntrusiveList<T> {
    /// The payloads of all slots, by slot index (linked or not).
    pub closed spec fn values(&self) -> Seq<T> {
        Seq::new(self.nodes@.len(), |i: int| self.nodes@[i].value)
    }

    /// The number of slots.
    pub open spec fn node_count(&self) -> nat {
        self.values().len()
    }

    /// The count of linked nodes that the list keeps.
    pub closed spec fn spec_len(&self) -> usize {
        self.len
    }

    /// The list's link to its first node.
    pub closed spec fn spec_head(&self) -> Option<usize> {
        self.head
    }

    /// The list's link to its last node.
    pub closed spec fn spec_tail(&self) -> Option<usize> {
        self.tail
    }

    /// The forward link of slot `node`.
    pub closed spec fn spec_next(&self, node: usize) -> Option<usize> {
        self.nodes@[node as int].next
    }

    /// The backward link of slot `node`.
    pub closed spec fn spec_prev(&self, node: usize) -> Option<usize> {
        self.nodes@[node as int].prev
    }

    /// The links agree with the view: the chain from `head` follows `next`
    /// through exactly the nodes of the view and ends at `tail`, `prev` runs
    /// the same chain backwards, and a node outside the chain has no links.
    pub open spec fn wf(&self) -> bool {
        let s = self@;
        &&& s.no_duplicates()
        &&& self.len() == s.len()
        &&& self.head() == first_of(s)
        &&& self.tail() == last_of(s)
        &&& forall|i: int| 0 <= i < s.len() ==> (#[trigger] s[i]) < self.node_count()
        &&& forall|i: int| 0 <= i < s.len() ==> #[trigger] self.next(s[i]) == after(s, i)
        &&& forall|i: int| 0 <= i < s.len() ==> #[trigger] self.prev(s[i]) == before(s, i)
        &&& forall|n: usize|
            #![trigger self.next(n)]
            #![trigger self.prev(n)]
            n < self.node_count() && !s.contains(n) ==> self.next(n) is None && self.prev(n)
                is None
    }

    /// An empty list with no slots.
    pub fn new() -> (list: Self)
        ensures
            list.wf(),
            list@ == Seq::<usize>::empty(),
            list.values() == Seq::<T>::empty(),
    {
        IntrusiveList {
            nodes: Vec::new(),
            head: None,
            tail: None,
            len: 0,
            order: Ghost(Seq::empty()),
        }
    }

    /// The number of linked nodes.
    #[verifier::when_used_as_spec(spec_len)]
    pub fn len(&self) -> (n: usize)
        ensures
            n == self.spec_len(),
    {
        self.len
    }

    /// The first linked node.
    #[verifier::when_used_as_spec(spec_head)]
    pub fn head(&self) -> (h: Option<usize>)
        ensures
            h == self.spec_head(),
    {
        self.head
    }

    /// The last linked node.
    #[verifier::when_used_as_spec(spec_tail)]
    pub fn tail(&self) -> (t: Option<usize>)
        ensures
            t == self.spec_tail(),
    {
        self.tail
    }

    /// The node that follows `node` in the chain.
    #[verifier::when_used_as_spec(spec_next)]
    pub fn next(&self, node: usize) -> (r: Option<usize>)
        requires
            node < self.node_count(),
        ensures
            r == self.spec_next(node),
    {
        self.nodes[node].next
    }

    /// The node that precedes `node` in the chain.
    #[verifier::when_used_as_spec(spec_prev)]
    pub fn prev(&self, node: usize) -> (r: Option<usize>)
        requires
            node < self.node_count(),
        ensures
            r == self.spec_prev(node),
    {
        self.nodes[node].prev
    }

    /// The payload stored in slot `node`.
    pub fn value(&self, node: usize) -> (v: &T)
        requires
            node < self.node_count(),
        ensures
            *v == self.values()[node as int],
    {
        &self.nodes[node].value
    }

    /// The number of slots, linked or not.
    pub fn slots(&self) -> (n: usize)
        ensures
            n == self.node_count(),
    {
        self.nodes.len()
    }

    /// Creates a slot holding `value`, linked to nothing, and returns its index.
    pub fn new_node(&mut self, value: T) -> (node: usize)
        requires
            old(self).wf(),
        ensures
            final(self).wf(),
            node == old(self).node_count(),
            final(self).values() == old(self).values().push(value),
            final(self)@ == old(self)@,
    {
        let node = self.nodes.len();
        self.nodes.push(ListNode { value, next: None, prev: None });
        proof {
            assert(self.values() =~= old(self).values().push(value));
            assert forall|n: usize| n < old(self).node_count() implies self.spec_next(n)
                == old(self).spec_next(n) && self.spec_prev(n) == old(self).spec_prev(n) by {}
            assert forall|n: usize|
                n < self.node_count() && !self@.contains(n) implies (#[trigger] self.spec_next(n))
                is None && self.spec_prev(n) is None by {
                if n < old(self).node_count() {
                    assert(old(self).spec_next(n) is None);
                }
            }
        }
        node
    }

    /// Whether `node` is linked into the chain.
    pub fn contains(&self, node: usize) -> (b: bool)
        requires
            self.wf(),
        ensures
            b == self@.contains(node),
    {
        if node >= self.nodes.len() {
            return false;
        }
        let at_head = match self.head {
            Some(h) => h == node,
            None => false,
        };
        let b = at_head || self.nodes[node].prev.is_some();
        proof {
            let s = self@;
            if s.contains(node) {
                let i = s.index_of(node);
                assert(self.spec_prev(s[i]) == before(s, i));
            } else {
                assert(self.spec_next(node) is None);
            }
        }
        b
    }

    /// Links `node` after the current tail, or as the only element of an
    /// empty chain.
    pub fn push_back(&mut self, node: usize)
        requires
            old(self).wf(),
            node < old(self).node_count(),
            !old(self)@.contains(node),
        ensures
            final(self).wf(),
            final(self)@ == old(self)@.push(node),
            final(self)@ == op_result(old(self)@, ListOp::PushBack(node)),
            final(self).values() == old(self).values(),
            final(self).len() == old(self).len() + 1,
            final(self).head() == if old(self).head() is None {
                Some(node)
            } else {
                old(self).head()
            },
            final(self).tail() == Some(node),
            final(self).prev(node) == old(self).tail(),
            final(self).next(node) is None,
            old(self).tail() matches Some(t) ==> final(self).next(t) == Some(node),
            forall|m: usize|
                m < old(self).node_count() && Some(m) != old(self).tail()
                    ==> #[trigger] final(self).next(m) == old(self).next(m),
            forall|m: usize|
                m < old(self).node_count() && m != node
                    ==> #[trigger] final(self).prev(m) == old(self).prev(m),
    {
        let ghost s = self@;
        proof {
            lemma_room_for_one(s, node, self.node_count());
            assert(self.len < self.nodes.len());
        }
        match self.tail {
            Some(tail) => {
                assert(tail == s[s.len() - 1]);
                self.nodes[tail].next = Some(node);
                self.nodes[node].prev = Some(tail);
                self.tail = Some(node);
            },
            None => {
                self.head = Some(node);
                self.tail = Some(node);
            },
        }
        self.len += 1;
        self.order = Ghost(s.push(node));
        proof {
            let t = self@;
            assert(self.values() =~= old(self).values());
            assert(forall|j: int| 0 <= j < s.len() ==> t[j] == s[j]);
            assert(t[s.len() as int] == node);
            assert(old(self).spec_next(node) is None && old(self).spec_prev(node) is None);
            assert forall|n: usize| n < self.node_count() && n != node implies self.spec_prev(n)
                == old(self).spec_prev(n) by {}
            assert forall|n: usize|
                n < self.node_count() && Some(n) != old(self).spec_tail() implies self.spec_next(n)
                == old(self).spec_next(n) by {}
            assert forall|i: int| 0 <= i < t.len() implies #[trigger] self.spec_next(t[i]) == after(
                t,
                i,
            ) by {
                if i < s.len() {
                    assert(old(self).spec_next(s[i]) == after(s, i));
                }
            }
            assert forall|i: int| 0 <= i < t.len() implies #[trigger] self.spec_prev(t[i])
                == before(t, i) by {
                if i < s.len() {
                    assert(old(self).spec_prev(s[i]) == before(s, i));
                }
            }
            assert forall|n: usize|
                n < self.node_count() && !t.contains(n) implies (#[trigger] self.spec_next(n))
                is None && self.spec_prev(n) is None by {
                if s.contains(n) {
                    let j = s.index_of(n);
                    assert(t[j] == n);
                }
                assert(old(self).spec_next(n) is None);
            }
        }
    }

    /// Unlinks `node`: its neighbours are joined to each other (or the end
    /// links move past it), and its own links are cleared.
    pub fn remove(&mut self, node: usize)
        requires
            old(self).wf(),
            old(self)@.contains(node),
        ensures
            final(self).wf(),
            final(self)@ == old(self)@.remove(old(self)@.index_of(node)),
            final(self)@ == op_result(old(self)@, ListOp::Remove(node)),
            final(self).values() == old(self).values(),
            final(self).len() == old(self).len() - 1,
            final(self).next(node) is None,
            final(self).prev(node) is None,
            final(self).head() == if old(self).head() == Some(node) {
                old(self).next(node)
            } else {
                old(self).head()
            },
            final(self).tail() == if old(self).tail() == Some(node) {
                old(self).prev(node)
            } else {
                old(self).tail()
            },
            old(self).prev(node) matches Some(p) ==> final(self).next(p) == old(self).next(node),
            old(self).next(node) matches Some(n) ==> final(self).prev(n) == old(self).prev(node),
            forall|m: usize|
                m < old(self).node_count() && m != node && Some(m) != old(self).prev(node)
                    ==> #[trigger] final(self).next(m) == old(self).next(m),
            forall|m: usize|
                m < old(self).node_count() && m != node && Some(m) != old(self).next(node)
                    ==> #[trigger] final(self).prev(m) == old(self).prev(m),
    {
        let ghost s = self@;
        let ghost i = s.index_of(node);
        assert(s[i] == node);
        assert(old(self).spec_next(s[i]) == after(s, i));
        assert(old(self).spec_prev(s[i]) == before(s, i));
        let prev = self.nodes[node].prev;
        let next = self.nodes[node].next;
        match prev {
            Some(p) => {
                assert(p == s[i - 1]);
                self.nodes[p].next = next;
            },
            None => {
                self.head = next;
            },
        }
        match next {
            Some(n) => {
                assert(n == s[i + 1]);
                self.nodes[n].prev = prev;
            },
            None => {
                self.tail = prev;
            },
        }
        self.nodes[node].prev = None;
        self.nodes[node].next = None;
        self.len -= 1;
        self.order = Ghost(s.remove(i));
        proof {
            let t = self@;
            assert(self.values() =~= old(self).values());
            assert forall|j: int| 0 <= j < t.len() implies #[trigger] t[j] == s[if j < i {
                j
            } else {
                j + 1
            }] by {}
            assert(t.no_duplicates());
            assert forall|j: int| 0 <= j < t.len() implies #[trigger] self.spec_next(t[j]) == after(
                t,
                j,
            ) by {
                let k = if j < i { j } else { j + 1 };
                assert(old(self).spec_next(s[k]) == after(s, k));
            }
            assert forall|j: int| 0 <= j < t.len() implies #[trigger] self.spec_prev(t[j])
                == before(t, j) by {
                let k = if j < i { j } else { j + 1 };
                assert(old(self).spec_prev(s[k]) == before(s, k));
            }
            assert forall|n: usize|
                n < self.node_count() && !t.contains(n) implies (#[trigger] self.spec_next(n))
                is None && self.spec_prev(n) is None by {
                if n != node {
                    if s.contains(n) {
                        let k = s.index_of(n);
                        let j = if k < i { k } else { k - 1 };
                        assert(t[j] == n);
                    }
                    assert(old(self).spec_next(n) is None);
                }
            }
        }
    }

    /// The linked nodes in the order reached by following `next` from the head.
    pub fn nodes_forward(&self) -> (out: Vec<usize>)
        requires
            self.wf(),
        ensures
            out@ == self@,
    {
        let ghost s = self@;
        let mut out: Vec<usize> = Vec::new();
        let mut cur = self.head;
        while cur.is_some()
            invariant
                self.wf(),
                s == self@,
                out@.len() <= s.len(),
                out@ == s.subrange(0, out@.len() as int),
                cur == after(s, out@.len() - 1),
            decreases s.len() - out@.len(),
        {
            let n = cur.unwrap();
            let ghost k = out@.len() as int;
            assert(self.spec_next(s[k]) == after(s, k));
            out.push(n);
            cur = self.nodes[n].next;
            assert(out@ =~= s.subrange(0, k + 1));
        }
        assert(out@ =~= s);
        out
    }

    /// The linked nodes in the order reached by following `prev` from the tail.
    pub fn nodes_backward(&self) -> (out: Vec<usize>)
        requires
            self.wf(),
        ensures
            out@ == self@.reverse(),
    {
        let ghost s = self@;
        let mut out: Vec<usize> = Vec::new();
        let mut cur = self.tail;
        while cur.is_some()
            invariant
                self.wf(),
                s == self@,
                out@.len() <= s.len(),
                out@ == s.reverse().subrange(0, out@.len() as int),
                cur == before(s, s.len() - out@.len()),
            decreases s.len() - out@.len(),
        {
            let n = cur.unwrap();
            let ghost k = s.len() - out@.len() - 1;
            assert(self.spec_prev(s[k]) == before(s, k));
            out.push(n);
            cur = self.nodes[n].prev;
            assert(out@ =~= s.reverse().subrange(0, s.len() - k));
        }
        assert(out@ =~= s.reverse());
        out
    }
}

/// One linking or unlinking call, named by the node it is given.
pub enum ListOp {
    PushBack(usize),
    Remove(usize),
}

/// Whether a chain holding `order` admits `op`: a node is pushed only while
/// unlinked and removed only while linked.
pub open spec fn op_permitted(order: Seq<usize>, op: ListOp) -> bool {
    match op {
        ListOp::PushBack(node) => !order.contains(node),
        ListOp::Remove(node) => order.contains(node),
    }
}

/// The chain that `op` leaves behind when applied to `order`.
pub open spec fn op_result(order: Seq<usize>, op: ListOp) -> Seq<usize> {
    match op {
        ListOp::PushBack(node) => order.push(node),
        ListOp::Remove(node) => order.remove(order.index_of(node)),
    }
}

/// The chain after applying `ops`, first to last, to an empty chain.
pub open spec fn run_ops(ops: Seq<ListOp>) -> Seq<usize>
    decreases ops.len(),
{
    if ops.len() == 0 {
        Seq::empty()
    } else {
        op_result(run_ops(ops.drop_last()), ops.last())
    }
}

/// Whether every call of `ops` is admitted by the chain it is applied to.
pub open spec fn ops_permitted(ops: Seq<ListOp>) -> bool
    decreases ops.len(),
{
    ops.len() == 0 || (ops_permitted(ops.drop_last()) && op_permitted(
        run_ops(ops.drop_last()),
        ops.last(),
    ))
}

/// The number of `PushBack` calls in `ops`.
pub open spec fn push_count(ops: Seq<ListOp>) -> nat
    decreases ops.len(),
{
    if ops.len() == 0 {
        0
    } else {
        push_count(ops.drop_last()) + if ops.last() is PushBack {
            1nat
        } else {
            0nat
        }
    }
}

/// The number of `Remove` calls in `ops`.
pub open spec fn remove_count(ops: Seq<ListOp>) -> nat
    decreases ops.len(),
{
    if ops.len() == 0 {
        0
    } else {
        remove_count(ops.drop_last()) + if ops.last() is Remove {
            1nat
        } else {
            0nat
        }
    }
}

/// After any admitted series of calls on an empty chain, the number of
/// linked nodes is the number of pushes minus the number of removals, and
/// no node is linked twice.
pub proof fn lemma_len_is_pushes_minus_removes(ops: Seq<ListOp>)
    requires
        ops_permitted(ops),
    ensures
        run_ops(ops).len() == push_count(ops) - remove_count(ops),
        run_ops(ops).no_duplicates(),
    decreases ops.len(),
{
    if ops.len() > 0 {
        lemma_len_is_pushes_minus_removes(ops.drop_last());
        let order = run_ops(ops.drop_last());
        match ops.last() {
            ListOp::PushBack(node) => {},
            ListOp::Remove(node) => {
                let i = order.index_of(node);
                let rest = order.remove(i);
                assert forall|a: int, b: int| 0 <= a < rest.len() && 0 <= b < rest.len() && a
                    != b implies rest[a] != rest[b] by {
                    let a0 = if a < i { a } else { a + 1 };
                    let b0 = if b < i { b } else { b + 1 };
                    assert(rest[a] == order[a0] && rest[b] == order[b0]);
                }
            },
        }
    }
}

/// The calls that push the nodes of `nodes`, first to last.
pub open spec fn pushes_of(nodes: Seq<usize>) -> Seq<ListOp> {
    nodes.map_values(|node: usize| ListOp::PushBack(node))
}

/// Pushing distinct nodes onto an empty chain is admitted throughout and
/// leaves them linked in the order in which they were pushed.
pub proof fn lemma_pushes_keep_order(nodes: Seq<usize>)
    requires
        nodes.no_duplicates(),
    ensures
        ops_permitted(pushes_of(nodes)),
        run_ops(pushes_of(nodes)) == nodes,
    decreases nodes.len(),
{
    let ops = pushes_of(nodes);
    if nodes.len() > 0 {
        let earlier = nodes.drop_last();
        lemma_pushes_keep_order(earlier);
        assert(ops.drop_last() =~= pushes_of(earlier));
        assert(ops.last() == ListOp::PushBack(nodes.last()));
        assert(!earlier.contains(nodes.last()));
        assert(earlier.push(nodes.last()) =~= nodes);
    } else {
        assert(run_ops(ops) =~= nodes);
    }
}

/// In a well-formed list the links are mutual: `b` follows `a` exactly when
/// `a` precedes `b`.
pub proof fn lemma_links_are_mutual<T>(list: IntrusiveList<T>, a: usize, b: usize)
    requires
        list.wf(),
        a < list.node_count(),
        b < list.node_count(),
    ensures
        list.next(a) == Some(b) <==> list.prev(b) == Some(a),
{
    let s = list@;
    if list.next(a) == Some(b) {
        assert(s.contains(a));
        let i = s.index_of(a);
        assert(list.next(s[i]) == after(s, i));
        assert(list.prev(s[i + 1]) == before(s, i + 1));
    }
    if list.prev(b) == Some(a) {
        assert(s.contains(b));
        let j = s.index_of(b);
        assert(list.prev(s[j]) == before(s, j));
        assert(list.next(s[j - 1]) == after(s, j - 1));
    }
}

/// Two well-formed lists with the same head and the same `next` links hold
/// the same chain: the view is fixed by the links.
pub proof fn lemma_links_fix_view<T>(a: IntrusiveList<T>, b: IntrusiveList<T>)
    requires
        a.wf(),
        b.wf(),
        a.head() == b.head(),
        a.node_count() == b.node_count(),
        forall|n: usize| n < a.node_count() ==> a.next(n) == b.next(n),
    ensures
        a@ == b@,
{
    lemma_common_prefix(a, b, if a@.len() <= b@.len() { a@.len() } else { b@.len() });
    let k = if a@.len() <= b@.len() { a@.len() as int } else { b@.len() as int };
    if k > 0 {
        assert(a.next(a@[k - 1]) == after(a@, k - 1));
        assert(b.next(b@[k - 1]) == after(b@, k - 1));
    }
    assert(a@.len() == b@.len());
    assert(a@ =~= b@);
}

/// Under the same conditions, the two chains agree on their first `k`
/// nodes.
proof fn lemma_common_prefix<T>(a: IntrusiveList<T>, b: IntrusiveList<T>, k: nat)
    requires
        a.wf(),
        b.wf(),
        a.head() == b.head(),
        a.node_count() == b.node_count(),
        forall|n: usize| n < a.node_count() ==> a.next(n) == b.next(n),
        k <= a@.len(),
        k <= b@.len(),
    ensures
        forall|i: int| 0 <= i < k ==> a@[i] == b@[i],
    decreases k,
{
    if k > 0 {
        lemma_common_prefix(a, b, (k - 1) as nat);
        if k >= 2 {
            assert(a.next(a@[k - 2]) == after(a@, k - 2));
            assert(b.next(b@[k - 2]) == after(b@, k - 2));
        }
    }
}

/// A duplicate-free sequence of indices below `bound` that misses one of
/// them is shorter than `bound`.
proof fn lemma_room_for_one(s: Seq<usize>, missing: usize, bound: nat)
    requires
        s.no_duplicates(),
        forall|i: int| 0 <= i < s.len() ==> (#[trigger] s[i]) < bound,
        missing < bound,
        !s.contains(missing),
    ensures
        s.len() < bound,
{
    let ints = s.map_values(|n: usize| n as int);
    assert(ints.no_duplicates());
    ints.unique_seq_to_set();
    let range = vstd::set_lib::set_int_range(0, bound as int);
    vstd::set_lib::lemma_int_range(0, bound as int);
    assert(range.contains(missing as int));
    assert forall|n: int| ints.to_set().contains(n) implies range.remove(missing as int).contains(
        n,
    ) by {
        let i = ints.index_of(n);
        assert(ints[i] == s[i] as int);
        if n == missing as int {
            assert(s[i] == missing);
        }
    }
    vstd::set_lib::lemma_len_subset(ints.to_set(), range.remove(missing as int));
}

} // verus!
