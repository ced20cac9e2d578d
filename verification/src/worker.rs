use vstd::prelude::*;

use crate::frame::Frame;
use crate::http::chunk_spec;
use crate::http::encode_chunk;

verus! {

/// The per-client streaming state: the generation last sent to this client
/// (0 before anything was sent), together with the ghost trace of every
/// generation sent so far.
///
/// A worker holds at most one frame at a time — the one it is about to send —
/// and never queues a backlog: a client that falls behind skips straight to
/// the latest snapshot.
pub struct WorkerState {
    pub last_sent: u64,
    pub sent: Ghost<Seq<u64>>,
}

/// Whether a worker whose last sent generation is `last` sends on seeing
/// snapshot `snap`: only when the snapshot carries a newer generation.
pub open spec fn sends(last: u64, snap: Option<Frame>) -> bool {
    snap matches Some(f) && f.generation > last
}

/// The last sent generation after one step from `last` on snapshot `snap`:
/// the snapshot's generation when it is newer, unchanged otherwise.
pub open spec fn next_last_sent(last: u64, snap: Option<Frame>) -> u64 {
    match snap {
        Some(f) => if f.generation > last {
            f.generation
        } else {
            last
        },
        None => last,
    }
}

/// The last sent generation after a run of steps, one per snapshot in
/// `snaps`, starting from `last`.
pub open spec fn run_last_sent(last: u64, snaps: Seq<Option<Frame>>) -> u64
    decreases snaps.len(),
{
    if snaps.len() == 0 {
        last
    } else {
        run_last_sent(next_last_sent(last, snaps[0]), snaps.drop_first())
    }
}

/// How many chunks a run of steps sends, one step per snapshot in `snaps`,
/// starting from `last`.
pub open spec fn run_send_count(last: u64, snaps: Seq<Option<Frame>>) -> nat
    decreases snaps.len(),
{
    if snaps.len() == 0 {
        0
    } else {
        (if sends(last, snaps[0]) {
            1nat
        } else {
            0nat
        }) + run_send_count(next_last_sent(last, snaps[0]), snaps.drop_first())
    }
}

impl WorkerState {
    /// Well-formedness: the trace of sent generations is strictly
    /// increasing, starts at 1 or later, and ends at `last_sent`.
    pub open spec fn wf(&self) -> bool {
        &&& (self.sent@.len() == 0 ==> self.last_sent == 0)
        &&& (self.sent@.len() > 0 ==> self.last_sent == self.sent@.last())
        &&& forall|i: int, j: int| 0 <= i < j < self.sent@.len() ==> self.sent@[i] < self.sent@[j]
        &&& forall|i: int| 0 <= i < self.sent@.len() ==> self.sent@[i] >= 1
    }

    /// A worker that has sent nothing yet.
    pub fn new() -> (w: WorkerState)
        ensures
            w.wf(),
            w.last_sent == 0,
            w.sent@ == Seq::<u64>::empty(),
    {
        WorkerState { last_sent: 0, sent: Ghost(Seq::empty()) }
    }

    /// One streaming step: given the latest snapshot, emit the bytes of one
    /// multipart chunk when the snapshot carries a newer generation than the
    /// last one sent, and nothing otherwise.
    ///
    /// A worker that has fallen behind by any number of generations catches
    /// up to the snapshot's generation in this single step, skipping every
    /// intermediate generation; it never sends a generation twice and never
    /// goes backward.
    pub fn step(&mut self, snap: &Option<Frame>) -> (action: Option<Vec<u8>>)
        requires
            old(self).wf(),
        ensures
            final(self).wf(),
            final(self).last_sent >= old(self).last_sent,
            final(self).last_sent == next_last_sent(old(self).last_sent, *snap),
            action is Some <==> sends(old(self).last_sent, *snap),
            snap matches Some(f) ==> {
                &&& f.generation > old(self).last_sent ==> {
                    &&& final(self).last_sent == f.generation
                    &&& final(self).sent@ == old(self).sent@.push(f.generation)
                    &&& action matches Some(chunk) && chunk@ == chunk_spec(f.bytes@)
                }
                &&& f.generation <= old(self).last_sent ==> {
                    &&& final(self).last_sent == old(self).last_sent
                    &&& final(self).sent@ == old(self).sent@
                }
            },
            snap is None ==> {
                &&& final(self).last_sent == old(self).last_sent
                &&& final(self).sent@ == old(self).sent@
            },
    {
        match snap {
            Some(f) => {
                if f.generation > self.last_sent {
                    let chunk = encode_chunk(&f.bytes);
                    self.sent = Ghost(self.sent@.push(f.generation));
                    self.last_sent = f.generation;
                    Some(chunk)
                } else {
                    None
                }
            },
            None => None,
        }
    }
}

/// The sequence of generations a worker has sent is strictly increasing:
/// whatever the producer's publish pattern, a client never receives a
/// generation twice and never one older than a generation it already has.
pub proof fn lemma_sent_generations_increase(w: WorkerState)
    requires
        w.wf(),
    ensures
        forall|i: int, j: int| 0 <= i < j < w.sent@.len() ==> w.sent@[i] < w.sent@[j],
{
}

/// A run of steps never moves the last sent generation backward.
pub proof fn lemma_run_monotone(last: u64, snaps: Seq<Option<Frame>>)
    ensures
        run_last_sent(last, snaps) >= last,
    decreases snaps.len(),
{
    if snaps.len() > 0 {
        lemma_run_monotone(next_last_sent(last, snaps[0]), snaps.drop_first());
    }
}

/// However far a worker has fallen behind, one step on the latest snapshot
/// catches it up: after any run whose final snapshot carries generation `n`,
/// the worker has sent generation `n` or a later one, and skipped straight
/// over the intermediate generations.
pub proof fn lemma_run_catches_up(last: u64, snaps: Seq<Option<Frame>>, f: Frame)
    requires
        snaps.len() > 0,
        snaps.last() == Some(f),
    ensures
        run_last_sent(last, snaps) >= f.generation,
    decreases snaps.len(),
{
    if snaps.len() == 1 {
        assert(snaps[0] == Some(f));
        assert(snaps.drop_first().len() == 0);
        assert(run_last_sent(next_last_sent(last, snaps[0]), snaps.drop_first())
            == next_last_sent(last, snaps[0]));
    } else {
        assert(snaps.drop_first().last() == snaps.last());
        lemma_run_catches_up(next_last_sent(last, snaps[0]), snaps.drop_first(), f);
    }
}

/// A run sends at most one chunk per step, whatever the producer published
/// in between: the backlog a worker holds is one frame at most, never a
/// queue that grows with the number of published generations.
pub proof fn lemma_run_sends_bounded(last: u64, snaps: Seq<Option<Frame>>)
    ensures
        run_send_count(last, snaps) <= snaps.len(),
    decreases snaps.len(),
{
    if snaps.len() > 0 {
        lemma_run_sends_bounded(next_last_sent(last, snaps[0]), snaps.drop_first());
    }
}

} // verus!
