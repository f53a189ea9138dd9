//! The real-time source that appends one item per interval, under the
//! buffer's cap.
use vstd::prelude::*;
use crate::buffer::{lemma_trimmed_len, trimmed, ItemBuffer};
use crate::items::{is_generated, is_generated_batch, Origin, VirtualFeedItem};

verus! {

/// Interval between two polled items, in milliseconds.
pub const POLLING_INTERVAL_MS: u64 = 3000;

/// The items after appending each of `news` in turn, one per interval.
pub open spec fn polled(s: Seq<VirtualFeedItem>, news: Seq<VirtualFeedItem>, cap: nat) -> Seq<VirtualFeedItem>
    decreases news.len(),
{
    if news.len() == 0 {
        s
    } else {
        polled(trimmed(s.push(news[0]), cap), news.drop_first(), cap)
    }
}

/// Appends the next numbered generated item, stamped `stamp`, then trims.
pub fn poll_once(buffer: &mut ItemBuffer, stamp: i64)
    requires
        old(buffer).wf(),
        old(buffer).spec_next_number() + 1 <= u64::MAX,
    ensures
        final(buffer).wf(),
        final(buffer).spec_cap() == old(buffer).spec_cap(),
        final(buffer).spec_next_number() == old(buffer).spec_next_number() + 1,
        exists|item: VirtualFeedItem|
            #[trigger] is_generated(item, Origin::Auto, old(buffer).spec_next_number(), stamp as int)
            && final(buffer)@ == trimmed(old(buffer)@.push(item), old(buffer).spec_cap()),
{
    buffer.append_generated(Origin::Auto, 1, stamp);
    proof {
        let b = choose|b: Seq<VirtualFeedItem>|
            #[trigger] is_generated_batch(b, Origin::Auto, old(buffer).spec_next_number(), 1, stamp as int)
            && final(buffer)@ == trimmed(old(buffer)@ + b, old(buffer).spec_cap());
        assert(old(buffer)@ + b =~= old(buffer)@.push(b[0]));
        assert(is_generated(b[0], Origin::Auto, (old(buffer).spec_next_number() + 0) as nat, stamp as int));
        assert(old(buffer).spec_next_number() + 0 == old(buffer).spec_next_number());
    }
}

/// Sustained polling fills the buffer up to its cap and never past it:
/// starting within the cap, after `news.len()` intervals the length is
/// `min(start + news.len(), cap)`.
pub proof fn lemma_polling_fills_to_cap(s: Seq<VirtualFeedItem>, news: Seq<VirtualFeedItem>, cap: nat)
    requires
        s.len() <= cap,
    ensures
        polled(s, news, cap).len() == if s.len() + news.len() <= cap {
            s.len() + news.len()
        } else {
            cap
        },
    decreases news.len(),
{
    if news.len() > 0 {
        lemma_trimmed_len(s.push(news[0]), cap);
        lemma_polling_fills_to_cap(trimmed(s.push(news[0]), cap), news.drop_first(), cap);
    }
}

} // verus!
