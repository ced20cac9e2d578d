use vstd::prelude::*;
use vstd::rwlock::{RwLock, RwLockPredicate};

use crate::frame::Frame;

verus! {

/// The state held by a [`FrameSlot`]: at most one published frame, together
/// with the ghost history of every byte sequence published so far.
///
/// The generation number of the current frame always equals the number of
/// publishes performed, and its bytes are exactly the bytes of the most
/// recent publish — never a mixture of two publishes.
pub struct SlotState {
    pub current: Option<Frame>,
    pub history: Ghost<Seq<Seq<u8>>>,
}

impl SlotState {
    /// Generations published so far; the current frame, if any, carries this
    /// number.
    pub open spec fn generation_of(&self) -> nat {
        self.history@.len()
    }

    /// Well-formedness: the slot is empty exactly when nothing was published,
    /// and otherwise holds, whole, the bytes of the latest publish under the
    /// generation number of that publish.
    pub open spec fn wf(&self) -> bool {
        &&& self.history@.len() <= u64::MAX
        &&& match self.current {
            None => self.history@.len() == 0,
            Some(f) => {
                &&& f.generation == self.history@.len()
                &&& f.generation >= 1
                &&& f.bytes@ == self.history@.last()
            },
        }
    }

    /// A slot in which nothing has been published yet.
    pub fn empty() -> (s: SlotState)
        ensures
            s.wf(),
            s.generation_of() == 0,
            s.history@ == Seq::<Seq<u8>>::empty(),
    {
        SlotState { current: None, history: Ghost(Seq::empty()) }
    }

    /// The number of publishes so far, as the machine integer the current
    /// frame carries.
    pub fn generation_count(&self) -> (g: u64)
        requires
            self.wf(),
        ensures
            g == self.generation_of(),
    {
        match &self.current {
            None => 0,
            Some(f) => f.generation,
        }
    }

    /// Replace the current frame with one carrying the next generation
    /// number. Never fails; the previous frame is dropped whole.
    pub fn publish(&mut self, bytes: Vec<u8>)
        requires
            old(self).wf(),
            old(self).generation_of() < u64::MAX,
        ensures
            final(self).wf(),
            final(self).history@ == old(self).history@.push(bytes@),
            final(self).generation_of() == old(self).generation_of() + 1,
            final(self).current matches Some(f) && f.generation == old(self).generation_of() + 1
                && f.bytes@ == bytes@,
    {
        let g = self.generation_count();
        let frame = Frame { generation: g + 1, bytes };
        self.history = Ghost(self.history@.push(frame.bytes@));
        self.current = Some(frame);
    }

    /// The most recently published frame, copied whole, or `None` when
    /// nothing has been published yet.
    pub fn snapshot(&self) -> (r: Option<Frame>)
        requires
            self.wf(),
        ensures
            match r {
                None => self.generation_of() == 0,
                Some(f) => {
                    &&& 1 <= f.generation
                    &&& f.generation == self.generation_of()
                    &&& f.bytes@ == self.history@[f.generation - 1]
                },
            },
    {
        match &self.current {
            None => None,
            Some(f) => Some(f.duplicate()),
        }
    }

    /// Publish the outcome of one capture-and-encode cycle: a successful
    /// encode publishes exactly once, a failed encode publishes nothing and
    /// leaves the slot as it was.
    pub fn on_encoded(&mut self, encoded: Option<Vec<u8>>)
        requires
            old(self).wf(),
            old(self).generation_of() < u64::MAX,
        ensures
            final(self).wf(),
            match encoded {
                Some(bytes) => final(self).history@ == old(self).history@.push(bytes@),
                None => *final(self) == *old(self),
            },
    {
        match encoded {
            Some(bytes) => self.publish(bytes),
            None => (),
        }
    }
}

/// Any frame a well-formed slot hands out belongs entirely to the single
/// generation it reports: its bytes are exactly the bytes of the publish
/// that created that generation, never a mixture of two publishes.
pub proof fn lemma_snapshot_untorn(s: SlotState, f: Frame)
    requires
        s.wf(),
        s.current == Some(f),
    ensures
        1 <= f.generation,
        f.generation == s.generation_of(),
        f.bytes@ == s.history@[f.generation - 1],
{
}

/// The invariant every value stored in a [`FrameSlot`] satisfies.
pub struct SlotInv {}

impl RwLockPredicate<SlotState> for SlotInv {
    open spec fn inv(self, s: SlotState) -> bool {
        s.wf()
    }
}

/// The synchronized holder for the latest encoded frame: the one place the
/// producer and all stream workers meet.
///
/// The producer holds the write side only for the swap of an already encoded
/// frame, never for the encode itself; readers copy the frame out whole under
/// the read side, so no reader ever observes bytes of two different frames.
pub struct FrameSlot {
    lock: RwLock<SlotState, SlotInv>,
}

impl FrameSlot {
    /// A slot in which nothing has been published yet.
    pub fn new() -> FrameSlot {
        FrameSlot { lock: RwLock::new(SlotState::empty(), Ghost(SlotInv {})) }
    }

    /// Replace the current frame with one carrying the next generation
    /// number. Never fails and never blocks on readers beyond the swap
    /// itself. A slot whose generation counter is exhausted drops the frame
    /// rather than reuse a generation number.
    pub fn publish(&self, bytes: Vec<u8>) {
        let (mut state, write_handle) = self.lock.acquire_write();
        if state.generation_count() < u64::MAX {
            state.publish(bytes);
        }
        write_handle.release_write(state);
    }

    /// Publish the outcome of one capture-and-encode cycle; a failed encode
    /// publishes nothing.
    pub fn on_encoded(&self, encoded: Option<Vec<u8>>) {
        match encoded {
            Some(bytes) => self.publish(bytes),
            None => (),
        }
    }

    /// The most recently published frame, copied whole, or `None` when
    /// nothing has been published yet. Never blocks the producer beyond the
    /// copy itself.
    pub fn snapshot(&self) -> (r: Option<Frame>)
        ensures
            r matches Some(f) ==> f.generation >= 1,
    {
        let read_handle = self.lock.acquire_read();
        let r = read_handle.borrow().snapshot();
        read_handle.release_read();
        r
    }
}

} // verus!
