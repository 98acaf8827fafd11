//! The bounded view-history buffer.
//!
//! The tracking sampler appends one entry per tick: the predicted target
//! timestamp and the stereo views located for it. The frame pacer looks a
//! decoded frame's timestamp up by exact equality (no interpolation), so a
//! late-arriving remote frame can be reprojected with the pose that was
//! active when the remote host produced it. Once the buffer is full, the
//! oldest entry is evicted on every push.

use vstd::prelude::*;
use vstd::assert_seqs_equal;
use std::collections::VecDeque;
use crate::math::Fov;
use crate::math::Pose;

verus! {

/// Capacity of the history: at three sampler ticks per displayed frame this
/// holds a couple of seconds of predictions.
pub const HISTORY_CAPACITY: usize = 360;

/// One eye's viewpoint: pose plus field of view.
#[derive(Clone, Copy, PartialEq, Eq, Structural, Debug)]
pub struct EyeView {
    pub pose: Pose,
    pub fov: Fov,
}

/// The stereo pair of eye viewpoints located for one predicted display time.
#[derive(Clone, Copy, PartialEq, Eq, Structural, Debug)]
pub struct ViewSet {
    pub left: EyeView,
    pub right: EyeView,
}

/// A past prediction: the target timestamp and the views located for it.
#[derive(Clone, Copy, PartialEq, Eq, Structural, Debug)]
pub struct HistoryEntry {
    pub timestamp_ns: u64,
    pub views: ViewSet,
}

/// What one append does to the buffer contents: push at the back, and once
/// the capacity is exceeded drop the oldest entry at the front.
pub open spec fn push_spec(s: Seq<HistoryEntry>, e: HistoryEntry) -> Seq<HistoryEntry> {
    if s.len() < HISTORY_CAPACITY {
        s.push(e)
    } else {
        s.skip(1).push(e)
    }
}

/// What lookup returns: the views of the newest entry whose timestamp equals
/// `ts` exactly, or nothing.
pub open spec fn lookup_spec(s: Seq<HistoryEntry>, ts: u64) -> Option<ViewSet>
    decreases s.len(),
{
    if s.len() == 0 {
        None
    } else if s.last().timestamp_ns == ts {
        Some(s.last().views)
    } else {
        lookup_spec(s.drop_last(), ts)
    }
}

/// Bounded FIFO of past predicted view sets, oldest first.
pub struct ViewHistory {
    entries: VecDeque<HistoryEntry>,
}

impl View for ViewHistory {
    type V = Seq<HistoryEntry>;

    closed spec fn view(&self) -> Seq<HistoryEntry> {
        self.entries@
    }
}

impl ViewHistory {
    /// The buffer never holds more than its capacity.
    pub open spec fn wf(&self) -> bool {
        self@.len() <= HISTORY_CAPACITY
    }

    /// An empty history.
    pub fn new() -> (r: ViewHistory)
        ensures
            r@ == Seq::<HistoryEntry>::empty(),
            r.wf(),
    {
        ViewHistory { entries: VecDeque::new() }
    }

    /// How many entries are stored.
    pub fn len(&self) -> (n: usize)
        ensures
            n == self@.len(),
    {
        self.entries.len()
    }

    /// Appends an entry, evicting the oldest once the capacity is exceeded.
    pub fn push(&mut self, e: HistoryEntry)
        requires
            old(self).wf(),
        ensures
            final(self)@ == push_spec(old(self)@, e),
            final(self).wf(),
            final(self)@.len() == if old(self)@.len() < HISTORY_CAPACITY {
                old(self)@.len() + 1
            } else {
                HISTORY_CAPACITY as nat
            },
    {
        let ghost s0 = self.entries@;
        self.entries.push_back(e);
        if self.entries.len() > HISTORY_CAPACITY {
            self.entries.pop_front();
            proof {
                assert_seqs_equal!(self.entries@ == s0.skip(1).push(e));
            }
        }
    }

    /// The entry at position `i`, oldest first.
    pub fn get(&self, i: usize) -> (r: HistoryEntry)
        requires
            i < self@.len(),
        ensures
            r == self@[i as int],
    {
        self.entries[i]
    }

    /// Scans for an entry whose timestamp equals `ts` exactly; the newest
    /// match wins.
    pub fn lookup(&self, ts: u64) -> (r: Option<ViewSet>)
        ensures
            r == lookup_spec(self@, ts),
    {
        let mut found: Option<ViewSet> = None;
        let mut i: usize = 0;
        let n = self.entries.len();
        while i < n
            invariant
                n == self@.len(),
                i <= n,
                found == lookup_spec(self@.take(i as int), ts),
            decreases n - i,
        {
            let entry: HistoryEntry = self.entries[i];
            proof {
                let pre = self@.take(i as int);
                let post = self@.take(i as int + 1);
                assert_seqs_equal!(post == pre.push(self@[i as int]));
                assert(post.drop_last() =~= pre);
                assert(post.last() == self@[i as int]);
            }
            if entry.timestamp_ns == ts {
                found = Some(entry.views);
            }
            i = i + 1;
        }
        proof {
            assert_seqs_equal!(self@.take(n as int) == self@);
        }
        found
    }
}

/// No entry carries the timestamp, so lookup finds nothing.
pub proof fn lemma_lookup_absent(s: Seq<HistoryEntry>, ts: u64)
    requires
        forall|i: int| 0 <= i < s.len() ==> (#[trigger] s[i]).timestamp_ns != ts,
    ensures
        lookup_spec(s, ts) is None,
    decreases s.len(),
{
    if s.len() > 0 {
        lemma_lookup_absent(s.drop_last(), ts);
    }
}

/// Once the buffer is full, an append evicts the oldest entry: afterwards the
/// buffer still holds exactly its capacity, and the evicted entry's timestamp
/// is no longer found (its timestamp occurring nowhere else in the buffer).
pub proof fn lemma_capacity_eviction(s: Seq<HistoryEntry>, e: HistoryEntry)
    requires
        s.len() == HISTORY_CAPACITY,
        forall|i: int| 1 <= i < s.len() ==> (#[trigger] s[i]).timestamp_ns != s[0].timestamp_ns,
        e.timestamp_ns != s[0].timestamp_ns,
    ensures
        push_spec(s, e).len() == HISTORY_CAPACITY,
        lookup_spec(push_spec(s, e), s[0].timestamp_ns) is None,
{
    let out = push_spec(s, e);
    assert(out =~= s.skip(1).push(e));
    assert forall|i: int| 0 <= i < out.len() implies out[i].timestamp_ns != s[0].timestamp_ns by {
        if i < out.len() - 1 {
            assert(out[i] == s[i + 1]);
        } else {
            assert(out[i] == e);
        }
    }
    lemma_lookup_absent(out, s[0].timestamp_ns);
}

/// The buffer contents after appending a whole stream of entries, in order.
pub open spec fn push_all(s0: Seq<HistoryEntry>, es: Seq<HistoryEntry>) -> Seq<HistoryEntry>
    decreases es.len(),
{
    if es.len() == 0 {
        s0
    } else {
        push_all(push_spec(s0, es[0]), es.skip(1))
    }
}

/// The newest capacity-many entries of a stream, oldest first.
pub open spec fn recent_suffix(s: Seq<HistoryEntry>) -> Seq<HistoryEntry> {
    if s.len() <= HISTORY_CAPACITY {
        s
    } else {
        s.skip(s.len() - HISTORY_CAPACITY)
    }
}

/// The buffer is a FIFO window: after any run of appends it holds exactly the
/// newest capacity-many entries of everything ever appended, in append order.
pub proof fn lemma_push_all_recent(s0: Seq<HistoryEntry>, es: Seq<HistoryEntry>)
    requires
        s0.len() <= HISTORY_CAPACITY,
    ensures
        push_all(s0, es) == recent_suffix(s0 + es),
    decreases es.len(),
{
    if es.len() == 0 {
        assert(s0 + es =~= s0);
    } else {
        let s1 = push_spec(s0, es[0]);
        lemma_push_all_recent(s1, es.skip(1));
        if s0.len() < HISTORY_CAPACITY {
            assert(s1 + es.skip(1) =~= s0 + es);
        } else {
            assert(s1 + es.skip(1) =~= (s0 + es).skip(1));
            let t = (s0 + es).skip(1);
            if t.len() > HISTORY_CAPACITY {
                assert(t.skip(t.len() - HISTORY_CAPACITY) =~= (s0 + es).skip(
                    (s0 + es).len() - HISTORY_CAPACITY,
                ));
            }
        }
    }
}

} // verus!
