//! The ordered, capped sequence of feed items.
use vstd::prelude::*;
use crate::items::{
    generated_batch, has_generated_tag, has_generated_tag_text, is_future_id, is_generated_batch,
    item_id, lemma_item_id_injective, lemma_numbered_not_future, lemma_untagged_not_future, Origin,
    VirtualFeedItem,
};

verus! {

/// Default cap on the number of items held in memory.
pub const MAX_ITEMS: usize = 500;

/// Why the buffer refused an edit.
#[derive(Debug, Clone, Copy, PartialEq, Eq, Structural)]
pub enum BufferError {
    InvalidTrimRange,
    /// An item would share its id with another item of the buffer.
    DuplicateId,
    /// An item from outside carries the tag of a generated id.
    ReservedId,
}

/// What remains of `s` under the cap `cap`: when `s` is longer, the
/// `s.len() - cap` items that start at index `cap / 2` are removed, so that
/// both ends keep their local context.
pub open spec fn trimmed<T>(s: Seq<T>, cap: nat) -> Seq<T> {
    if s.len() <= cap {
        s
    } else {
        s.subrange(0, (cap / 2) as int) + s.subrange((cap / 2) + (s.len() - cap), s.len() as int)
    }
}

/// Removes the items over `cap` from the middle of `items`. The range is
/// checked against the bounds and a range past them is reported; starting
/// at `cap / 2`, it always fits, so the result is always `Ok`.
pub fn trim_items_if_needed<T>(items: &mut Vec<T>, cap: usize) -> (r: Result<(), BufferError>)
    ensures
        r is Ok,
        final(items)@ == trimmed(old(items)@, cap as nat),
{
    if items.len() > cap {
        let excess: usize = items.len() - cap;
        let remove_start: usize = cap / 2;
        if remove_start <= items.len() - excess {
            let mut tail = items.split_off(remove_start + excess);
            items.truncate(remove_start);
            items.append(&mut tail);
            Ok(())
        } else {
            Err(BufferError::InvalidTrimRange)
        }
    } else {
        Ok(())
    }
}

/// Trimming never leaves more than `cap` items and removes exactly the
/// items over the cap.
pub proof fn lemma_trimmed_len<T>(s: Seq<T>, cap: nat)
    ensures
        trimmed(s, cap).len() <= cap,
        trimmed(s, cap).len() == if s.len() <= cap { s.len() } else { cap },
{
}

/// Where item `i` of `trimmed(s, cap)` comes from in `s`.
pub open spec fn trimmed_source(len: nat, cap: nat, i: int) -> int {
    if len <= cap || i < (cap / 2) as int {
        i
    } else {
        i + (len - cap)
    }
}

/// Each item left by trimming is the item of `s` at `trimmed_source`, and
/// distinct positions come from distinct positions.
pub proof fn lemma_trimmed_index<T>(s: Seq<T>, cap: nat)
    ensures
        forall|i: int|
            0 <= i < trimmed(s, cap).len() ==> 0 <= #[trigger] trimmed_source(s.len(), cap, i) < s.len()
                && trimmed(s, cap)[i] == s[trimmed_source(s.len(), cap, i)],
        forall|i: int, j: int|
            0 <= i < j < trimmed(s, cap).len() ==> #[trigger] trimmed_source(s.len(), cap, i)
                < #[trigger] trimmed_source(s.len(), cap, j),
{
}

/// No two items of `s` share an id.
pub open spec fn ids_unique(s: Seq<VirtualFeedItem>) -> bool {
    forall|i: int, j: int| 0 <= i < j < s.len() ==> (#[trigger] s[i]).id@ != (#[trigger] s[j]).id@
}

/// The ids of `batch` differ from each other and from those of `existing`.
pub open spec fn fresh_batch(batch: Seq<VirtualFeedItem>, existing: Seq<VirtualFeedItem>) -> bool {
    &&& ids_unique(batch)
    &&& forall|i: int, j: int|
        0 <= i < batch.len() && 0 <= j < existing.len() ==> (#[trigger] batch[i]).id@
            != (#[trigger] existing[j]).id@
}

/// No id of `s` has a generated tag.
pub open spec fn untagged(s: Seq<VirtualFeedItem>) -> bool {
    forall|i: int| 0 <= i < s.len() ==> !has_generated_tag(#[trigger] s[i].id@)
}

/// A batch from outside is accepted when its ids are new and none has a
/// generated tag (those are the buffer's own to hand out).
pub open spec fn accepted_batch(batch: Seq<VirtualFeedItem>, items: Seq<VirtualFeedItem>) -> bool {
    fresh_batch(batch, items) && untagged(batch)
}

/// No id of `s` is that of a generated item numbered `next` or later.
pub open spec fn no_future_ids(s: Seq<VirtualFeedItem>, next: nat) -> bool {
    forall|i: int| 0 <= i < s.len() ==> !is_future_id(#[trigger] s[i].id@, next)
}

/// The items after putting `batch` before `items` and trimming, or `items`
/// unchanged when the batch is not accepted.
pub open spec fn prepended(batch: Seq<VirtualFeedItem>, items: Seq<VirtualFeedItem>, cap: nat) -> Seq<VirtualFeedItem> {
    if accepted_batch(batch, items) {
        trimmed(batch + items, cap)
    } else {
        items
    }
}

/// The items after putting `batch` after `items` and trimming, or `items`
/// unchanged when the batch is not accepted.
pub open spec fn appended(items: Seq<VirtualFeedItem>, batch: Seq<VirtualFeedItem>, cap: nat) -> Seq<VirtualFeedItem> {
    if accepted_batch(batch, items) {
        trimmed(items + batch, cap)
    } else {
        items
    }
}

/// Trimming keeps ids unique.
pub proof fn lemma_trimmed_unique(s: Seq<VirtualFeedItem>, cap: nat)
    requires
        ids_unique(s),
    ensures
        ids_unique(trimmed(s, cap)),
{
    lemma_trimmed_index(s, cap);
    let t = trimmed(s, cap);
    assert forall|i: int, j: int| 0 <= i < j < t.len() implies (#[trigger] t[i]).id@ != (#[trigger] t[j]).id@ by {
        let a = trimmed_source(s.len(), cap, i);
        let b = trimmed_source(s.len(), cap, j);
        assert(t[i] == s[a] && t[j] == s[b] && a < b);
    }
}

/// A fresh batch joined to unique items, on either side, has unique ids.
pub proof fn lemma_fresh_join(batch: Seq<VirtualFeedItem>, items: Seq<VirtualFeedItem>)
    requires
        ids_unique(items),
        fresh_batch(batch, items),
    ensures
        ids_unique(batch + items),
        ids_unique(items + batch),
{
    let f = batch + items;
    assert forall|i: int, j: int| 0 <= i < j < f.len() implies (#[trigger] f[i]).id@ != (#[trigger] f[j]).id@ by {
        if j < batch.len() {
            assert(f[i] == batch[i] && f[j] == batch[j]);
        } else if i < batch.len() {
            assert(f[i] == batch[i] && f[j] == items[j - batch.len()]);
        } else {
            assert(f[i] == items[i - batch.len()] && f[j] == items[j - batch.len()]);
        }
    }
    let g = items + batch;
    assert forall|i: int, j: int| 0 <= i < j < g.len() implies (#[trigger] g[i]).id@ != (#[trigger] g[j]).id@ by {
        if j < items.len() {
            assert(g[i] == items[i] && g[j] == items[j]);
        } else if i < items.len() {
            assert(g[i] == items[i] && g[j] == batch[j - items.len()]);
        } else {
            assert(g[i] == batch[i - items.len()] && g[j] == batch[j - items.len()]);
        }
    }
}

/// Whether the ids of `batch` differ from each other and from those of
/// `existing`.
pub fn batch_is_fresh(batch: &Vec<VirtualFeedItem>, existing: &Vec<VirtualFeedItem>) -> (r: bool)
    ensures
        r == fresh_batch(batch@, existing@),
{
    let mut i: usize = 0;
    while i < batch.len()
        invariant
            i <= batch@.len(),
            forall|p: int, q: int| 0 <= p < q < i ==> (#[trigger] batch@[p]).id@ != (#[trigger] batch@[q]).id@,
            forall|p: int, q: int|
                0 <= p < i && 0 <= q < existing@.len() ==> (#[trigger] batch@[p]).id@
                    != (#[trigger] existing@[q]).id@,
        decreases batch@.len() - i,
    {
        let mut j: usize = 0;
        while j < existing.len()
            invariant
                i < batch@.len(),
                j <= existing@.len(),
                forall|q: int| 0 <= q < j ==> batch@[i as int].id@ != (#[trigger] existing@[q]).id@,
            decreases existing@.len() - j,
        {
            if batch[i].id == existing[j].id {
                return false;
            }
            j = j + 1;
        }
        let mut k: usize = 0;
        while k < i
            invariant
                i < batch@.len(),
                k <= i,
                forall|q: int| 0 <= q < k ==> (#[trigger] batch@[q]).id@ != batch@[i as int].id@,
            decreases i - k,
        {
            if batch[k].id == batch[i].id {
                return false;
            }
            k = k + 1;
        }
        i = i + 1;
    }
    true
}

/// One edit of the buffer: `(true, b)` puts `b` before the items,
/// `(false, b)` after them; a batch that is not accepted changes nothing.
pub open spec fn edited_once(s: Seq<VirtualFeedItem>, edit: (bool, Seq<VirtualFeedItem>), cap: nat) -> Seq<VirtualFeedItem> {
    if edit.0 {
        prepended(edit.1, s, cap)
    } else {
        appended(s, edit.1, cap)
    }
}

/// The items after each of `edits` in turn.
pub open spec fn edited(s: Seq<VirtualFeedItem>, edits: Seq<(bool, Seq<VirtualFeedItem>)>, cap: nat) -> Seq<VirtualFeedItem>
    decreases edits.len(),
{
    if edits.len() == 0 {
        s
    } else {
        edited(edited_once(s, edits[0], cap), edits.drop_first(), cap)
    }
}

/// The cap and unique ids hold after any sequence of prepends and appends,
/// and a trim removes exactly the items over the cap.
pub proof fn lemma_cap_holds(s: Seq<VirtualFeedItem>, edits: Seq<(bool, Seq<VirtualFeedItem>)>, cap: nat)
    requires
        s.len() <= cap,
        ids_unique(s),
    ensures
        edited(s, edits, cap).len() <= cap,
        ids_unique(edited(s, edits, cap)),
        edits.len() > 0 && accepted_batch(edits[0].1, s) ==> ({
            let grown = if edits[0].0 { edits[0].1 + s } else { s + edits[0].1 };
            &&& edited_once(s, edits[0], cap) == trimmed(grown, cap)
            &&& grown.len() - edited_once(s, edits[0], cap).len() == if grown.len() <= cap {
                0
            } else {
                grown.len() - cap
            }
        }),
    decreases edits.len(),
{
    if edits.len() > 0 {
        let grown = if edits[0].0 { edits[0].1 + s } else { s + edits[0].1 };
        lemma_trimmed_len(grown, cap);
        if accepted_batch(edits[0].1, s) {
            lemma_fresh_join(edits[0].1, s);
            lemma_trimmed_unique(grown, cap);
        }
        lemma_cap_holds(edited_once(s, edits[0], cap), edits.drop_first(), cap);
    }
}

/// Whether every id of `batch` lacks a generated tag.
pub fn batch_is_untagged(batch: &Vec<VirtualFeedItem>) -> (r: bool)
    ensures
        r == untagged(batch@),
{
    let mut i: usize = 0;
    while i < batch.len()
        invariant
            i <= batch@.len(),
            forall|p: int| 0 <= p < i ==> !has_generated_tag(#[trigger] batch@[p].id@),
        decreases batch@.len() - i,
    {
        if has_generated_tag_text(batch[i].id.as_str()) {
            return false;
        }
        i = i + 1;
    }
    true
}

proof fn lemma_untagged_no_future(s: Seq<VirtualFeedItem>, next: nat)
    requires
        untagged(s),
    ensures
        no_future_ids(s, next),
{
    assert forall|i: int| 0 <= i < s.len() implies !is_future_id(#[trigger] s[i].id@, next) by {
        lemma_untagged_not_future(s[i].id@, next);
    }
}

/// A later number leaves fewer future ids.
proof fn lemma_no_future_later(s: Seq<VirtualFeedItem>, next: nat, later: nat)
    requires
        no_future_ids(s, next),
        next <= later,
    ensures
        no_future_ids(s, later),
{
    assert forall|i: int| 0 <= i < s.len() implies !is_future_id(#[trigger] s[i].id@, later) by {
        if is_future_id(s[i].id@, later) {
            let (o, n, st) = choose|o: Origin, n: nat, st: int| n >= later && #[trigger] item_id(o, n, st) == s[i].id@;
            assert(is_future_id(s[i].id@, next));
        }
    }
}

proof fn lemma_no_future_join(a: Seq<VirtualFeedItem>, b: Seq<VirtualFeedItem>, next: nat, cap: nat)
    requires
        no_future_ids(a, next),
        no_future_ids(b, next),
    ensures
        no_future_ids(trimmed(a + b, cap), next),
{
    let f = a + b;
    assert forall|i: int| 0 <= i < f.len() implies !is_future_id(#[trigger] f[i].id@, next) by {
        if i < a.len() {
            assert(f[i] == a[i]);
        } else {
            assert(f[i] == b[i - a.len()]);
        }
    }
    lemma_trimmed_index(f, cap);
    let t = trimmed(f, cap);
    assert forall|i: int| 0 <= i < t.len() implies !is_future_id(#[trigger] t[i].id@, next) by {
        assert(t[i] == f[trimmed_source(f.len(), cap, i)]);
    }
}

/// A generated batch numbered from `next` is new next to items without
/// future ids, and leaves no future ids once the numbers move past it.
proof fn lemma_generated_fresh(b: Seq<VirtualFeedItem>, o: Origin, next: nat, count: nat, stamp: int, items: Seq<VirtualFeedItem>)
    requires
        is_generated_batch(b, o, next, count, stamp),
        no_future_ids(items, next),
    ensures
        fresh_batch(b, items),
        no_future_ids(b, next + count),
{
    assert forall|i: int, j: int| 0 <= i < j < b.len() implies (#[trigger] b[i]).id@ != (#[trigger] b[j]).id@ by {
        if b[i].id@ == b[j].id@ {
            lemma_item_id_injective(o, (next + i) as nat, stamp, o, (next + j) as nat, stamp);
        }
    }
    assert forall|i: int, j: int| 0 <= i < b.len() && 0 <= j < items.len() implies (#[trigger] b[i]).id@
        != (#[trigger] items[j]).id@ by {
        assert(item_id(o, (next + i) as nat, stamp) == b[i].id@);
        assert(is_future_id(b[i].id@, next));
    }
    assert forall|i: int| 0 <= i < b.len() implies !is_future_id(#[trigger] b[i].id@, next + count) by {
        lemma_numbered_not_future(o, (next + i) as nat, stamp, next + count);
    }
}

/// The feed's items, in display order: never more than its cap, no two
/// with the same id.
pub struct ItemBuffer {
    items: Vec<VirtualFeedItem>,
    cap: usize,
    next_number: u64,
}

impl View for ItemBuffer {
    type V = Seq<VirtualFeedItem>;

    closed spec fn view(&self) -> Seq<VirtualFeedItem> {
        self.items@
    }
}

impl ItemBuffer {
    /// Most items the buffer keeps.
    pub closed spec fn spec_cap(&self) -> nat {
        self.cap as nat
    }

    /// Number for the next generated item; every number handed out before
    /// is smaller.
    pub closed spec fn spec_next_number(&self) -> nat {
        self.next_number as nat
    }

    /// At most `cap` items, with unique ids, none of which a later
    /// generated item could repeat.
    pub open spec fn wf(&self) -> bool {
        &&& self@.len() <= self.spec_cap()
        &&& ids_unique(self@)
        &&& no_future_ids(self@, self.spec_next_number())
    }

    /// A buffer that starts with `seed`, trimmed to `cap`; refused when two
    /// seed items share an id or one has a generated tag. Generated items
    /// are numbered after the seed.
    pub fn new(seed: Vec<VirtualFeedItem>, cap: usize) -> (r: Result<Self, BufferError>)
        requires
            seed@.len() < u64::MAX,
        ensures
            ids_unique(seed@) && untagged(seed@) ==> (r matches Ok(b) && b.wf() && b.spec_cap() == cap && b@ == trimmed(
                seed@,
                cap as nat,
            ) && b.spec_next_number() == seed@.len() + 1),
            !ids_unique(seed@) ==> r == Err::<Self, BufferError>(BufferError::DuplicateId),
            ids_unique(seed@) && !untagged(seed@) ==> r == Err::<Self, BufferError>(BufferError::ReservedId),
    {
        let empty: Vec<VirtualFeedItem> = Vec::new();
        if !batch_is_fresh(&seed, &empty) {
            return Err(BufferError::DuplicateId);
        }
        if !batch_is_untagged(&seed) {
            return Err(BufferError::ReservedId);
        }
        let next_number: u64 = seed.len() as u64 + 1;
        let mut items = seed;
        let _ = trim_items_if_needed(&mut items, cap);
        proof {
            lemma_trimmed_len(seed@, cap as nat);
            lemma_trimmed_unique(seed@, cap as nat);
            lemma_untagged_no_future(seed@, next_number as nat);
            lemma_no_future_join(seed@, Seq::empty(), next_number as nat, cap as nat);
            assert(seed@ + Seq::<VirtualFeedItem>::empty() =~= seed@);
        }
        Ok(ItemBuffer { items, cap, next_number })
    }

    /// The cap.
    pub fn cap(&self) -> (r: usize)
        ensures
            r == self.spec_cap(),
    {
        self.cap
    }

    /// Number of items held.
    pub fn length(&self) -> (r: usize)
        ensures
            r == self@.len(),
    {
        self.items.len()
    }

    /// The item at index `i`.
    pub fn get(&self, i: usize) -> (r: &VirtualFeedItem)
        requires
            i < self@.len(),
        ensures
            *r == self@[i as int],
    {
        &self.items[i]
    }

    /// All items, in order.
    pub fn items(&self) -> (r: &Vec<VirtualFeedItem>)
        ensures
            r@ == self@,
    {
        &self.items
    }

    /// Number for the next generated item.
    pub fn next_number(&self) -> (r: u64)
        ensures
            r == self.spec_next_number(),
    {
        self.next_number
    }

    /// Generates `count` items of origin `o`, numbered from the next number
    /// and stamped `stamp`, and puts them before the first item, then trims
    /// to the cap. Their ids are new by construction.
    pub fn prepend_generated(&mut self, o: Origin, count: u64, stamp: i64)
        requires
            old(self).wf(),
            old(self).spec_next_number() + count <= u64::MAX,
        ensures
            final(self).wf(),
            final(self).spec_cap() == old(self).spec_cap(),
            final(self).spec_next_number() == old(self).spec_next_number() + count,
            exists|b: Seq<VirtualFeedItem>|
                #[trigger] is_generated_batch(b, o, old(self).spec_next_number(), count as nat, stamp as int)
                && final(self)@ == trimmed(b + old(self)@, old(self).spec_cap()),
    {
        let ghost before = self.items@;
        let first: u64 = self.next_number;
        let batch = generated_batch(o, first, count, stamp);
        let ghost b = batch@;
        proof {
            lemma_generated_fresh(b, o, first as nat, count as nat, stamp as int, before);
            lemma_no_future_later(before, first as nat, (first + count) as nat);
            lemma_fresh_join(b, before);
            lemma_trimmed_len(b + before, self.cap as nat);
            lemma_trimmed_unique(b + before, self.cap as nat);
            lemma_no_future_join(b, before, (first + count) as nat, self.cap as nat);
        }
        let mut items = batch;
        items.append(&mut self.items);
        let _ = trim_items_if_needed(&mut items, self.cap);
        self.items = items;
        self.next_number = first + count;
        assert(is_generated_batch(b, o, first as nat, count as nat, stamp as int));
    }

    /// Generates `count` items of origin `o`, numbered from the next number
    /// and stamped `stamp`, and puts them after the last item, then trims
    /// to the cap. Their ids are new by construction.
    pub fn append_generated(&mut self, o: Origin, count: u64, stamp: i64)
        requires
            old(self).wf(),
            old(self).spec_next_number() + count <= u64::MAX,
        ensures
            final(self).wf(),
            final(self).spec_cap() == old(self).spec_cap(),
            final(self).spec_next_number() == old(self).spec_next_number() + count,
            exists|b: Seq<VirtualFeedItem>|
                #[trigger] is_generated_batch(b, o, old(self).spec_next_number(), count as nat, stamp as int)
                && final(self)@ == trimmed(old(self)@ + b, old(self).spec_cap()),
    {
        let ghost before = self.items@;
        let first: u64 = self.next_number;
        let mut batch = generated_batch(o, first, count, stamp);
        let ghost b = batch@;
        proof {
            lemma_generated_fresh(b, o, first as nat, count as nat, stamp as int, before);
            lemma_no_future_later(before, first as nat, (first + count) as nat);
            lemma_fresh_join(b, before);
            lemma_trimmed_len(before + b, self.cap as nat);
            lemma_trimmed_unique(before + b, self.cap as nat);
            lemma_no_future_join(before, b, (first + count) as nat, self.cap as nat);
        }
        self.items.append(&mut batch);
        let _ = trim_items_if_needed(&mut self.items, self.cap);
        self.next_number = first + count;
        assert(is_generated_batch(b, o, first as nat, count as nat, stamp as int));
    }

    /// Puts `batch` before the first item, then trims to the cap; refused,
    /// with the buffer unchanged, when an id would repeat or carries a
    /// generated tag.
    pub fn prepend(&mut self, batch: Vec<VirtualFeedItem>) -> (r: Result<(), BufferError>)
        requires
            old(self).wf(),
        ensures
            final(self).wf(),
            final(self).spec_cap() == old(self).spec_cap(),
            final(self).spec_next_number() == old(self).spec_next_number(),
            final(self)@ == prepended(batch@, old(self)@, old(self).spec_cap()),
            r is Ok <==> accepted_batch(batch@, old(self)@),
            !fresh_batch(batch@, old(self)@) ==> r == Err::<(), BufferError>(BufferError::DuplicateId),
            fresh_batch(batch@, old(self)@) && !untagged(batch@) ==> r == Err::<(), BufferError>(BufferError::ReservedId),
    {
        if !batch_is_fresh(&batch, &self.items) {
            return Err(BufferError::DuplicateId);
        }
        if !batch_is_untagged(&batch) {
            return Err(BufferError::ReservedId);
        }
        let ghost before = self.items@;
        let mut items = batch;
        items.append(&mut self.items);
        let _ = trim_items_if_needed(&mut items, self.cap);
        proof {
            lemma_trimmed_len(batch@ + before, self.cap as nat);
            lemma_fresh_join(batch@, before);
            lemma_trimmed_unique(batch@ + before, self.cap as nat);
            lemma_untagged_no_future(batch@, self.next_number as nat);
            lemma_no_future_join(batch@, before, self.next_number as nat, self.cap as nat);
        }
        self.items = items;
        Ok(())
    }

    /// Puts `batch` after the last item, then trims to the cap; refused,
    /// with the buffer unchanged, when an id would repeat or carries a
    /// generated tag.
    pub fn append(&mut self, batch: Vec<VirtualFeedItem>) -> (r: Result<(), BufferError>)
        requires
            old(self).wf(),
        ensures
            final(self).wf(),
            final(self).spec_cap() == old(self).spec_cap(),
            final(self).spec_next_number() == old(self).spec_next_number(),
            final(self)@ == appended(old(self)@, batch@, old(self).spec_cap()),
            r is Ok <==> accepted_batch(batch@, old(self)@),
            !fresh_batch(batch@, old(self)@) ==> r == Err::<(), BufferError>(BufferError::DuplicateId),
            fresh_batch(batch@, old(self)@) && !untagged(batch@) ==> r == Err::<(), BufferError>(BufferError::ReservedId),
    {
        if !batch_is_fresh(&batch, &self.items) {
            return Err(BufferError::DuplicateId);
        }
        if !batch_is_untagged(&batch) {
            return Err(BufferError::ReservedId);
        }
        let ghost before = self.items@;
        let mut tail = batch;
        self.items.append(&mut tail);
        let _ = trim_items_if_needed(&mut self.items, self.cap);
        proof {
            lemma_trimmed_len(before + batch@, self.cap as nat);
            lemma_fresh_join(batch@, before);
            lemma_trimmed_unique(before + batch@, self.cap as nat);
            lemma_untagged_no_future(batch@, self.next_number as nat);
            lemma_no_future_join(before, batch@, self.next_number as nat, self.cap as nat);
        }
        Ok(())
    }
}

} // verus!
