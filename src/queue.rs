use vstd::prelude::*;
use crate::model::{UploadItem, MAX_BATCH_SIZE};

verus! {

/// No two items of `s` share an absolute path.
pub open spec fn paths_distinct(s: Seq<UploadItem>) -> bool {
    forall|i: int, j: int|
        0 <= i < s.len() && 0 <= j < s.len() && i != j ==> #[trigger] s[i].path@ != #[trigger] s[j].path@
}

/// Whether some item of `s` has path `p`.
pub open spec fn has_path(s: Seq<UploadItem>, p: Seq<char>) -> bool {
    exists|i: int| 0 <= i < s.len() && #[trigger] s[i].path@ == p
}

/// `s` without the items whose path is `p`, in order.
pub open spec fn without_path(s: Seq<UploadItem>, p: Seq<char>) -> Seq<UploadItem>
    decreases s.len(),
{
    if s.len() == 0 {
        s
    } else if s.last().path@ == p {
        without_path(s.drop_last(), p)
    } else {
        without_path(s.drop_last(), p).push(s.last())
    }
}

/// Whether `item` has waited out the debounce window at `now_ms`.
pub open spec fn is_ready(item: UploadItem, now_ms: u64, delay_ms: u64) -> bool {
    now_ms as int - item.timestamp as int * 1000 >= delay_ms as int
}

/// How a drain parts `s`: walking in order, an item is taken when it is ready
/// and fewer than `max` items were taken before it; the rest is kept, in order.
pub open spec fn split_ready(s: Seq<UploadItem>, now_ms: u64, delay_ms: u64, max: nat) -> (
    Seq<UploadItem>,
    Seq<UploadItem>,
)
    decreases s.len(),
{
    if s.len() == 0 {
        (s, s)
    } else {
        let (t, k) = split_ready(s.drop_last(), now_ms, delay_ms, max);
        if t.len() < max && is_ready(s.last(), now_ms, delay_ms) {
            (t.push(s.last()), k)
        } else {
            (t, k.push(s.last()))
        }
    }
}

/// `s` after putting back `item`: unchanged where an item with its path is
/// pending, else with `item` appended.
pub open spec fn restore_one(s: Seq<UploadItem>, item: UploadItem) -> Seq<UploadItem> {
    if has_path(s, item.path@) {
        s
    } else {
        s.push(item)
    }
}

/// `s` after putting back each item of `batch`, in order.
pub open spec fn restore_all(s: Seq<UploadItem>, batch: Seq<UploadItem>) -> Seq<UploadItem>
    decreases batch.len(),
{
    if batch.len() == 0 {
        s
    } else {
        restore_one(restore_all(s, batch.drop_last()), batch.last())
    }
}

/// Number of ready items in `s`.
pub open spec fn ready_count(s: Seq<UploadItem>, now_ms: u64, delay_ms: u64) -> nat
    decreases s.len(),
{
    if s.len() == 0 {
        0
    } else {
        ready_count(s.drop_last(), now_ms, delay_ms) + if is_ready(s.last(), now_ms, delay_ms) {
            1nat
        } else {
            0nat
        }
    }
}

/// Every item of `without_path(s, p)` is an item of `s`, and none has path `p`.
proof fn lemma_without_path(s: Seq<UploadItem>, p: Seq<char>)
    ensures
        forall|i: int|
            0 <= i < without_path(s, p).len() ==> s.contains(#[trigger] without_path(s, p)[i])
                && without_path(s, p)[i].path@ != p,
        without_path(s, p).len() <= s.len(),
        !has_path(s, p) ==> without_path(s, p) == s,
        paths_distinct(s) ==> paths_distinct(without_path(s, p)),
    decreases s.len(),
{
    if s.len() > 0 {
        let d = s.drop_last();
        lemma_without_path(d, p);
        let w = without_path(d, p);
        assert forall|i: int| 0 <= i < d.len() implies s.contains(#[trigger] d[i]) by {
            assert(s[i] == d[i]);
        }
        assert(s.contains(s.last())) by {
            assert(s[s.len() - 1] == s.last());
        }
        if !has_path(s, p) {
            assert(!has_path(d, p)) by {
                if has_path(d, p) {
                    let i = choose|i: int| 0 <= i < d.len() && #[trigger] d[i].path@ == p;
                    assert(s[i] == d[i]);
                }
            }
            assert(s.last().path@ != p) by {
                assert(s[s.len() - 1] == s.last());
            }
            assert(d.push(s.last()) =~= s);
        }
        if paths_distinct(s) {
            assert(paths_distinct(d)) by {
                assert forall|i: int, j: int|
                    0 <= i < d.len() && 0 <= j < d.len() && i != j implies #[trigger] d[i].path@
                    != #[trigger] d[j].path@ by {
                    assert(s[i] == d[i] && s[j] == d[j]);
                }
            }
            if s.last().path@ != p {
                let r = w.push(s.last());
                assert forall|i: int, j: int|
                    0 <= i < r.len() && 0 <= j < r.len() && i != j implies #[trigger] r[i].path@
                    != #[trigger] r[j].path@ by {
                    if i < w.len() && j < w.len() {
                        assert(r[i] == w[i] && r[j] == w[j]);
                    } else if i < w.len() {
                        lemma_item_of_prefix_differs(s, w[i]);
                    } else if j < w.len() {
                        lemma_item_of_prefix_differs(s, w[j]);
                    }
                }
            }
        }
    }
}

/// In a sequence without repeated paths, an item of all but the last has
/// another path than the last.
proof fn lemma_item_of_prefix_differs(s: Seq<UploadItem>, x: UploadItem)
    requires
        s.len() > 0,
        paths_distinct(s),
        s.drop_last().contains(x),
    ensures
        x.path@ != s.last().path@,
{
    let d = s.drop_last();
    let i = choose|i: int| 0 <= i < d.len() && d[i] == x;
    assert(s[i] == x);
    assert(s[s.len() - 1] == s.last());
}

/// The parts of a drain: their items come from `s`, the kept part keeps the
/// paths distinct, and their sizes follow the number of ready items.
proof fn lemma_split_ready(s: Seq<UploadItem>, now_ms: u64, delay_ms: u64, max: nat)
    ensures
        ({
            let (t, k) = split_ready(s, now_ms, delay_ms, max);
            &&& t.len() + k.len() == s.len()
            &&& t.len() == if ready_count(s, now_ms, delay_ms) < max {
                ready_count(s, now_ms, delay_ms)
            } else {
                max
            }
            &&& forall|i: int| 0 <= i < t.len() ==> is_ready(#[trigger] t[i], now_ms, delay_ms)
            &&& forall|i: int| 0 <= i < t.len() ==> s.contains(#[trigger] t[i])
            &&& forall|i: int| 0 <= i < k.len() ==> s.contains(#[trigger] k[i])
            &&& paths_distinct(s) ==> paths_distinct(k)
        }),
    decreases s.len(),
{
    if s.len() > 0 {
        let d = s.drop_last();
        lemma_split_ready(d, now_ms, delay_ms, max);
        let (t, k) = split_ready(d, now_ms, delay_ms, max);
        assert forall|i: int| 0 <= i < d.len() implies s.contains(#[trigger] d[i]) by {
            assert(s[i] == d[i]);
        }
        assert(s.contains(s.last())) by {
            assert(s[s.len() - 1] == s.last());
        }
        if paths_distinct(s) {
            assert(paths_distinct(d)) by {
                assert forall|i: int, j: int|
                    0 <= i < d.len() && 0 <= j < d.len() && i != j implies #[trigger] d[i].path@
                    != #[trigger] d[j].path@ by {
                    assert(s[i] == d[i] && s[j] == d[j]);
                }
            }
            let r = k.push(s.last());
            assert forall|i: int, j: int|
                0 <= i < r.len() && 0 <= j < r.len() && i != j implies #[trigger] r[i].path@
                != #[trigger] r[j].path@ by {
                if i < k.len() && j < k.len() {
                    assert(r[i] == k[i] && r[j] == k[j]);
                } else if i < k.len() {
                    lemma_item_of_prefix_differs(s, k[i]);
                } else if j < k.len() {
                    lemma_item_of_prefix_differs(s, k[j]);
                }
            }
        }
    }
}

/// In a sequence whose items are all ready, every item counts.
proof fn lemma_all_ready_count(s: Seq<UploadItem>, now_ms: u64, delay_ms: u64)
    requires
        forall|i: int| 0 <= i < s.len() ==> is_ready(#[trigger] s[i], now_ms, delay_ms),
    ensures
        ready_count(s, now_ms, delay_ms) == s.len(),
    decreases s.len(),
{
    if s.len() > 0 {
        let d = s.drop_last();
        assert forall|i: int| 0 <= i < d.len() implies is_ready(#[trigger] d[i], now_ms, delay_ms) by {
            assert(s[i] == d[i]);
        }
        lemma_all_ready_count(d, now_ms, delay_ms);
        assert(is_ready(s[s.len() - 1], now_ms, delay_ms));
    }
}

/// With no debounce window, an item enqueued no later than the current tick
/// is ready at that tick, and a drain then takes every such item up to the
/// batch limit.
pub proof fn lemma_zero_delay_ready(s: Seq<UploadItem>, now_ms: u64)
    requires
        forall|i: int| 0 <= i < s.len() ==> (#[trigger] s[i]).timestamp * 1000 <= now_ms,
    ensures
        forall|i: int| 0 <= i < s.len() ==> is_ready(#[trigger] s[i], now_ms, 0),
        split_ready(s, now_ms, 0, MAX_BATCH_SIZE as nat).0.len() == if s.len()
            < MAX_BATCH_SIZE {
            s.len()
        } else {
            MAX_BATCH_SIZE as nat
        },
{
    assert forall|i: int| 0 <= i < s.len() implies is_ready(#[trigger] s[i], now_ms, 0) by {
        assert(s[i].timestamp * 1000 <= now_ms);
    }
    lemma_all_ready_count(s, now_ms, 0);
    lemma_split_ready(s, now_ms, 0, MAX_BATCH_SIZE as nat);
}

/// Batch boundary: when every pending item is ready, a drain takes
/// `min(n, MAX_BATCH_SIZE)` of the `n` items, and the next drain takes
/// `min(rest, MAX_BATCH_SIZE)` of the rest (so 1001 items go as 1000 then 1).
pub proof fn lemma_batch_boundary(s: Seq<UploadItem>, now_ms: u64, delay_ms: u64)
    requires
        forall|i: int| 0 <= i < s.len() ==> is_ready(#[trigger] s[i], now_ms, delay_ms),
    ensures
        ({
            let max = MAX_BATCH_SIZE as nat;
            let (t, k) = split_ready(s, now_ms, delay_ms, max);
            let (t2, k2) = split_ready(k, now_ms, delay_ms, max);
            &&& t.len() == if s.len() < max {
                s.len()
            } else {
                max
            }
            &&& k.len() == s.len() - t.len()
            &&& t2.len() == if k.len() < max {
                k.len()
            } else {
                max
            }
            &&& k2.len() == k.len() - t2.len()
        }),
{
    let max = MAX_BATCH_SIZE as nat;
    lemma_all_ready_count(s, now_ms, delay_ms);
    lemma_split_ready(s, now_ms, delay_ms, max);
    let (t, k) = split_ready(s, now_ms, delay_ms, max);
    assert forall|i: int| 0 <= i < k.len() implies is_ready(#[trigger] k[i], now_ms, delay_ms) by {
        assert(s.contains(k[i]));
    }
    lemma_all_ready_count(k, now_ms, delay_ms);
    lemma_split_ready(k, now_ms, delay_ms, max);
}

/// Items taken out by a drain leave no item of their path behind: once a
/// taken item ends (uploaded or failed), the queue holds nothing of it
/// unless the file is enqueued anew.
pub proof fn lemma_drained_absent(s: Seq<UploadItem>, now_ms: u64, delay_ms: u64, max: nat)
    requires
        paths_distinct(s),
    ensures
        ({
            let (t, k) = split_ready(s, now_ms, delay_ms, max);
            forall|i: int| 0 <= i < t.len() ==> !has_path(k, #[trigger] t[i].path@)
        }),
    decreases s.len(),
{
    if s.len() > 0 {
        let d = s.drop_last();
        assert(paths_distinct(d)) by {
            assert forall|i: int, j: int|
                0 <= i < d.len() && 0 <= j < d.len() && i != j implies #[trigger] d[i].path@
                != #[trigger] d[j].path@ by {
                assert(s[i] == d[i] && s[j] == d[j]);
            }
        }
        lemma_drained_absent(d, now_ms, delay_ms, max);
        lemma_split_ready(d, now_ms, delay_ms, max);
        let (td, kd) = split_ready(d, now_ms, delay_ms, max);
        let (t, k) = split_ready(s, now_ms, delay_ms, max);
        let x = s.last();
        if td.len() < max && is_ready(x, now_ms, delay_ms) {
            assert forall|i: int| 0 <= i < t.len() implies !has_path(k, #[trigger] t[i].path@) by {
                if i < td.len() {
                    assert(t[i] == td[i]);
                } else {
                    assert(t[i] == x);
                    if has_path(kd, x.path@) {
                        let j = choose|j: int| 0 <= j < kd.len() && #[trigger] kd[j].path@ == x.path@;
                        lemma_item_of_prefix_differs(s, kd[j]);
                    }
                }
            }
        } else {
            assert forall|i: int| 0 <= i < t.len() implies !has_path(k, #[trigger] t[i].path@) by {
                assert(t[i] == td[i]);
                lemma_item_of_prefix_differs(s, td[i]);
                if has_path(k, t[i].path@) {
                    let j = choose|j: int| 0 <= j < k.len() && #[trigger] k[j].path@ == t[i].path@;
                    if j < kd.len() {
                        assert(k[j] == kd[j]);
                    }
                }
            }
        }
    }
}

/// The pending uploads, oldest enqueue first, at most one per absolute path.
pub struct UploadQueue {
    items: Vec<UploadItem>,
}

impl View for UploadQueue {
    type V = Seq<UploadItem>;

    closed spec fn view(&self) -> Seq<UploadItem> {
        self.items@
    }
}

impl UploadQueue {
    #[verifier::type_invariant]
    spec fn inv(self) -> bool {
        paths_distinct(self.items@)
    }

    /// An empty queue.
    pub fn new() -> (r: Self)
        ensures
            r@ == Seq::<UploadItem>::empty(),
    {
        UploadQueue { items: Vec::new() }
    }

    /// Number of pending items.
    pub fn len(&self) -> (r: usize)
        ensures
            r == self@.len(),
    {
        self.items.len()
    }

    /// The pending items, in order.
    pub fn items(&self) -> (r: &Vec<UploadItem>)
        ensures
            r@ == self@,
    {
        &self.items
    }

    /// Whether an item with path `path` is pending.
    pub fn contains_path(&self, path: &String) -> (r: bool)
        ensures
            r == has_path(self@, path@),
    {
        let mut i: usize = 0;
        while i < self.items.len()
            invariant
                i <= self.items@.len(),
                forall|k: int| 0 <= k < i ==> (#[trigger] self.items@[k]).path@ != path@,
            decreases self.items@.len() - i,
        {
            if self.items[i].path == *path {
                return true;
            }
            i = i + 1;
        }
        false
    }

    /// Drops every pending item.
    pub fn clear(&mut self)
        ensures
            final(self)@ == Seq::<UploadItem>::empty(),
    {
        self.items = Vec::new();
    }

    /// Appends `item` after removing any pending item with its path: the
    /// latest enqueue wins and its debounce window starts afresh.
    pub fn push_dedup(&mut self, item: UploadItem)
        ensures
            final(self)@ == without_path(old(self)@, item.path@).push(item),
            paths_distinct(final(self)@),
    {
        let mut kept: Vec<UploadItem> = Vec::new();
        let mut i: usize = 0;
        let n = self.items.len();
        while i < n
            invariant
                n == self.items@.len(),
                i <= n,
                kept@ == without_path(self.items@.take(i as int), item.path@),
            decreases n - i,
        {
            assert(self.items@.take(i + 1).drop_last() =~= self.items@.take(i as int));
            if self.items[i].path != item.path {
                kept.push(self.items[i].clone());
            }
            i = i + 1;
        }
        assert(self.items@.take(n as int) =~= self.items@);
        proof {
            use_type_invariant(&*self);
            lemma_without_path(self.items@, item.path@);
            let r = kept@.push(item);
            assert forall|a: int, b: int|
                0 <= a < r.len() && 0 <= b < r.len() && a != b implies #[trigger] r[a].path@
                != #[trigger] r[b].path@ by {
                if a < kept@.len() && b < kept@.len() {
                    assert(r[a] == kept@[a] && r[b] == kept@[b]);
                } else if a < kept@.len() {
                    assert(r[a] == kept@[a]);
                } else if b < kept@.len() {
                    assert(r[b] == kept@[b]);
                }
            }
        }
        kept.push(item);
        self.items = kept;
    }

    /// Puts back an item taken out earlier, unless an item with its path was
    /// enqueued since: that newer item already stands for the file.
    pub fn restore(&mut self, item: UploadItem)
        ensures
            final(self)@ == restore_one(old(self)@, item),
            paths_distinct(final(self)@),
    {
        if !self.contains_path(&item.path) {
            proof {
                use_type_invariant(&*self);
                let r = self.items@.push(item);
                assert forall|a: int, b: int|
                    0 <= a < r.len() && 0 <= b < r.len() && a != b implies #[trigger] r[a].path@
                    != #[trigger] r[b].path@ by {
                    if a < self.items@.len() && b < self.items@.len() {
                        assert(r[a] == self.items@[a] && r[b] == self.items@[b]);
                    } else if a < self.items@.len() {
                        assert(r[a] == self.items@[a]);
                    } else if b < self.items@.len() {
                        assert(r[b] == self.items@[b]);
                    }
                }
            }
            let mut items: Vec<UploadItem> = Vec::new();
            std::mem::swap(&mut self.items, &mut items);
            items.push(item);
            self.items = items;
        }
        proof {
            use_type_invariant(&*self);
        }
    }

    /// Takes out, in order, up to `MAX_BATCH_SIZE` items that are ready at
    /// `now_ms`; the others stay, in their order.
    pub fn drain_ready(&mut self, now_ms: u64, delay_ms: u64) -> (r: Vec<UploadItem>)
        ensures
            (r@, final(self)@) == split_ready(old(self)@, now_ms, delay_ms, MAX_BATCH_SIZE as nat),
            forall|i: int| 0 <= i < r@.len() ==> is_ready(#[trigger] r@[i], now_ms, delay_ms),
            paths_distinct(final(self)@),
    {
        let mut taken: Vec<UploadItem> = Vec::new();
        let mut kept: Vec<UploadItem> = Vec::new();
        let mut i: usize = 0;
        let n = self.items.len();
        while i < n
            invariant
                n == self.items@.len(),
                i <= n,
                (taken@, kept@) == split_ready(
                    self.items@.take(i as int),
                    now_ms,
                    delay_ms,
                    MAX_BATCH_SIZE as nat,
                ),
            decreases n - i,
        {
            assert(self.items@.take(i + 1).drop_last() =~= self.items@.take(i as int));
            let item = self.items[i].clone();
            let ready = item.timestamp as u128 * 1000 + delay_ms as u128 <= now_ms as u128;
            if taken.len() < MAX_BATCH_SIZE && ready {
                taken.push(item);
            } else {
                kept.push(item);
            }
            i = i + 1;
        }
        assert(self.items@.take(n as int) =~= self.items@);
        proof {
            use_type_invariant(&*self);
            lemma_split_ready(self.items@, now_ms, delay_ms, MAX_BATCH_SIZE as nat);
        }
        self.items = kept;
        taken
    }
}

} // verus!
