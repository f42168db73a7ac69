use vstd::prelude::*;

use crate::track::Song;

verus! {

/// Spec-level image of one guild's playback queue: the track currently
/// handed to the audio transport, if any, and the pending tracks in
/// first-in-first-out request order.
#[verifier::ext_equal]
pub struct QueueModel {
    pub now_playing: Option<Song>,
    pub pending: Seq<Song>,
}

/// The state of a queue that has never been touched: idle, nothing pending.
pub open spec fn empty_queue() -> QueueModel {
    QueueModel { now_playing: None, pending: Seq::empty() }
}

/// The queue after the current track ended: the first pending track is
/// promoted to current, or the queue falls idle when nothing is pending.
pub open spec fn spec_shift(q: QueueModel) -> QueueModel {
    if q.pending.len() == 0 {
        QueueModel { now_playing: None, pending: q.pending }
    } else {
        QueueModel { now_playing: Some(q.pending[0]), pending: q.pending.drop_first() }
    }
}

/// The queue after one enqueue-or-start decision: an idle queue takes the
/// track as current; a busy queue appends it to the pending list.
pub open spec fn spec_enqueue(q: QueueModel, s: Song) -> QueueModel {
    if q.now_playing is None {
        QueueModel { now_playing: Some(s), pending: q.pending }
    } else {
        QueueModel { now_playing: q.now_playing, pending: q.pending.push(s) }
    }
}

/// The 1-based position a track enqueued on a busy queue would report.
pub open spec fn spec_enqueue_position(q: QueueModel) -> int {
    q.pending.len() as int + 1
}

/// A queue is well formed when no pending track carries a playback
/// session: only the current track is ever handed to the transport.
pub open spec fn queue_wf(q: QueueModel) -> bool {
    forall|i: int| 0 <= i < q.pending.len() ==> (#[trigger] q.pending[i])@.playback is Pending
}

/// The queue after a whole sequence of enqueue-or-start decisions,
/// applied in order.
pub open spec fn enqueue_all(q: QueueModel, ts: Seq<Song>) -> QueueModel
    decreases ts.len(),
{
    if ts.len() == 0 {
        q
    } else {
        enqueue_all(spec_enqueue(q, ts[0]), ts.drop_first())
    }
}

/// The queue after the current track has ended `n` times in a row.
pub open spec fn shift_n(q: QueueModel, n: nat) -> QueueModel
    decreases n,
{
    if n == 0 {
        q
    } else {
        spec_shift(shift_n(q, (n - 1) as nat))
    }
}

/// Law: enqueueing onto a busy queue never touches the current track and
/// appends the new tracks behind the old pending ones, in request order.
pub proof fn lemma_enqueue_all_busy(q: QueueModel, ts: Seq<Song>)
    requires
        q.now_playing is Some,
    ensures
        enqueue_all(q, ts).now_playing == q.now_playing,
        enqueue_all(q, ts).pending == q.pending + ts,
    decreases ts.len(),
{
    if ts.len() == 0 {
        assert(q.pending + ts =~= q.pending);
    } else {
        let q1 = spec_enqueue(q, ts[0]);
        lemma_enqueue_all_busy(q1, ts.drop_first());
        assert(q.pending.push(ts[0]) + ts.drop_first() =~= q.pending + ts);
    }
}

/// Law: enqueueing a non-empty sequence of tracks onto an idle queue
/// makes the first track current and leaves the rest pending, in order.
pub proof fn lemma_enqueue_all_from_idle(q: QueueModel, ts: Seq<Song>)
    requires
        q.now_playing is None,
        q.pending.len() == 0,
        ts.len() >= 1,
    ensures
        enqueue_all(q, ts).now_playing == Some(ts[0]),
        enqueue_all(q, ts).pending == ts.drop_first(),
    decreases ts.len(),
{
    let q1 = spec_enqueue(q, ts[0]);
    lemma_enqueue_all_busy(q1, ts.drop_first());
    assert(q.pending + ts.drop_first() =~= ts.drop_first());
}

/// Law: over any sequence of enqueue-or-start decisions against an
/// initially idle queue, the first decision finds the queue idle (and so
/// starts its track immediately), and the decision for the k-th later
/// track finds a busy queue and reports exactly the 1-based position k.
pub proof fn lemma_fifo_positions(ts: Seq<Song>, k: int)
    requires
        0 <= k < ts.len(),
    ensures
        k == 0 ==> enqueue_all(empty_queue(), ts.take(k)).now_playing is None,
        k >= 1 ==> enqueue_all(empty_queue(), ts.take(k)).now_playing is Some,
        k >= 1 ==> spec_enqueue_position(enqueue_all(empty_queue(), ts.take(k))) == k,
{
    if k >= 1 {
        lemma_enqueue_all_from_idle(empty_queue(), ts.take(k));
    }
}

/// Law: after `k` further track ends, the current track is the one at
/// 0-based position `k - 1` of the original pending list, and exactly the
/// later pending tracks remain, still in order.
pub proof fn lemma_shift_traversal(q: QueueModel, k: int)
    requires
        1 <= k <= q.pending.len(),
    ensures
        shift_n(q, k as nat).now_playing == Some(q.pending[k - 1]),
        shift_n(q, k as nat).pending == q.pending.skip(k),
    decreases k,
{
    if k == 1 {
        assert(q.pending.drop_first() =~= q.pending.skip(1));
    } else {
        lemma_shift_traversal(q, k - 1);
        assert(q.pending.skip(k - 1)[0] == q.pending[k - 1]);
        assert(q.pending.skip(k - 1).drop_first() =~= q.pending.skip(k));
    }
}

/// Law: shifting a queue whose pending list is empty leaves it idle, so
/// repeating the end-of-track transition on a drained queue is idempotent.
pub proof fn lemma_shift_on_drained(q: QueueModel)
    requires
        q.pending.len() == 0,
    ensures
        spec_shift(q) == empty_queue(),
{
    assert(spec_shift(q) =~= empty_queue());
}

/// Law (round trip): enqueue `n` tracks onto an idle queue, then let the
/// current track end `n + 1` times: before the `k + 1`-th end the current
/// track is the `k + 1`-th submitted one — every track is observed exactly
/// once, in submission order — and afterwards the queue is idle and empty,
/// and stays so.
pub proof fn lemma_drain_round_trip(ts: Seq<Song>, k: int)
    requires
        ts.len() >= 1,
        0 <= k < ts.len(),
    ensures
        shift_n(enqueue_all(empty_queue(), ts), k as nat).now_playing == Some(ts[k]),
        shift_n(enqueue_all(empty_queue(), ts), k as nat).pending == ts.skip(k + 1),
        shift_n(enqueue_all(empty_queue(), ts), ts.len()) == empty_queue(),
        shift_n(enqueue_all(empty_queue(), ts), ts.len() + 1) == empty_queue(),
{
    let q0 = enqueue_all(empty_queue(), ts);
    lemma_enqueue_all_from_idle(empty_queue(), ts);
    if k == 0 {
        assert(ts.drop_first() =~= ts.skip(1));
    } else {
        lemma_shift_traversal(q0, k);
        assert(q0.pending[k - 1] == ts[k]);
        assert(q0.pending.skip(k) =~= ts.skip(k + 1));
    }
    let n = ts.len();
    if n == 1 {
        lemma_shift_on_drained(q0);
    } else {
        lemma_shift_traversal(q0, n - 1);
        assert(shift_n(q0, (n - 1) as nat).pending.len() == 0);
        assert(shift_n(q0, n) == spec_shift(shift_n(q0, (n - 1) as nat)));
        lemma_shift_on_drained(shift_n(q0, (n - 1) as nat));
    }
    lemma_shift_on_drained(shift_n(q0, n));
    assert(shift_n(q0, n + 1) == spec_shift(shift_n(q0, n)));
}

/// What `enqueue_or_start` reports: the track either went straight to the
/// transport, or now waits at the given 1-based queue position.
#[derive(Clone, Copy, PartialEq, Eq, Structural)]
pub enum EnqueueOutcome {
    StartedImmediately,
    Enqueued { position: usize },
}

/// One guild's playback queue. It has no concurrency discipline of its
/// own: callers serialize access through the guild's exclusive guard.
pub struct GuildQueue {
    pub now_playing: Option<Song>,
    pub pending: Vec<Song>,
}

impl View for GuildQueue {
    type V = QueueModel;

    open spec fn view(&self) -> QueueModel {
        QueueModel { now_playing: self.now_playing, pending: self.pending@ }
    }
}

impl GuildQueue {
    /// A fresh, idle queue.
    pub fn new() -> (q: GuildQueue)
        ensures
            q@ == empty_queue(),
            queue_wf(q@),
    {
        let q = GuildQueue { now_playing: None, pending: Vec::new() };
        proof {
            assert(q@ =~= empty_queue());
        }
        q
    }

    /// Atomically decide between starting a track and queueing it: if the
    /// queue is idle the track becomes current and the caller must start
    /// it on the transport; otherwise it is appended and its 1-based
    /// position reported.
    pub fn enqueue_or_start(&mut self, s: Song) -> (r: EnqueueOutcome)
        requires
            old(self)@.now_playing is Some ==> old(self)@.pending.len() < usize::MAX,
        ensures
            final(self)@ == spec_enqueue(old(self)@, s),
            old(self)@.now_playing is None ==> r == EnqueueOutcome::StartedImmediately,
            old(self)@.now_playing is Some ==> r == (EnqueueOutcome::Enqueued {
                position: spec_enqueue_position(old(self)@) as usize,
            }),
            queue_wf(old(self)@) && s.playback is Pending ==> queue_wf(final(self)@),
    {
        match &self.now_playing {
            None => {
                self.now_playing = Some(s);
                EnqueueOutcome::StartedImmediately
            },
            Some(_) => {
                let position = self.pending.len() + 1;
                self.pending.push(s);
                EnqueueOutcome::Enqueued { position }
            },
        }
    }

    /// Promote the first pending track to current, or fall idle when
    /// nothing is pending. Pure state transition, no transport work.
    pub fn shift_forward(&mut self)
        ensures
            final(self)@ == spec_shift(old(self)@),
            queue_wf(old(self)@) ==> queue_wf(final(self)@),
    {
        if self.pending.len() == 0 {
            self.now_playing = None;
        } else {
            let s = self.pending.remove(0);
            self.now_playing = Some(s);
            proof {
                assert(final(self)@.pending =~= spec_shift(old(self)@).pending);
            }
        }
    }

    /// Drop the current track without touching the pending list.
    pub fn skip(&mut self)
        ensures
            final(self)@ == (QueueModel { now_playing: None, pending: old(self)@.pending }),
            queue_wf(old(self)@) ==> queue_wf(final(self)@),
    {
        self.now_playing = None;
    }

    /// Hard stop: drop the current track and empty the pending list.
    pub fn clear(&mut self)
        ensures
            final(self)@ == empty_queue(),
            queue_wf(final(self)@),
    {
        self.now_playing = None;
        self.pending.clear();
        proof {
            assert(final(self)@ =~= empty_queue());
        }
    }

    /// A copy of the current track, for display.
    pub fn now_playing_snapshot(&self) -> (r: Option<Song>)
        ensures
            (match (r, self@.now_playing) {
                (Some(c), Some(s)) => c@ == s@,
                (None, None) => true,
                _ => false,
            }),
    {
        match &self.now_playing {
            Some(s) => Some(s.duplicate()),
            None => None,
        }
    }

    /// Copies of the first `limit` pending tracks, in queue order, for
    /// display.
    pub fn upcoming(&self, limit: usize) -> (r: Vec<Song>)
        ensures
            r@.len() == (if limit <= self@.pending.len() {
                limit as int
            } else {
                self@.pending.len() as int
            }),
            forall|i: int| 0 <= i < r@.len() ==> (#[trigger] r@[i])@ == self@.pending[i]@,
    {
        let mut r: Vec<Song> = Vec::new();
        let n = if limit <= self.pending.len() {
            limit
        } else {
            self.pending.len()
        };
        let mut i: usize = 0;
        while i < n
            invariant
                i <= n,
                n <= self.pending.len(),
                r@.len() == i,
                forall|j: int| 0 <= j < i ==> (#[trigger] r@[j])@ == self@.pending[j]@,
            decreases n - i,
        {
            r.push(self.pending[i].duplicate());
            i += 1;
        }
        r
    }
}

} // verus!
