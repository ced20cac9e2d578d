use vstd::prelude::*;

verus! {

/// Bookkeeping for the live stream workers: a non-owning handle (an id) per
/// active session, handed out on accept and taken back when a worker closes,
/// so the registry never grows past the number of currently live clients.
///
/// The registry is not on the data path: it only enumerates sessions for a
/// client count and for shutdown.
pub struct Registry {
    ids: Vec<u64>,
    next_id: u64,
}

impl Registry {
    /// The ids of the currently registered sessions, in registration order.
    pub closed spec fn ids_view(&self) -> Seq<u64> {
        self.ids@
    }

    /// Well-formedness: every id is unique, and every registered id was
    /// handed out before `next_id`.
    pub closed spec fn wf(&self) -> bool {
        &&& forall|i: int, j: int|
            0 <= i < j < self.ids@.len() ==> self.ids@[i] != self.ids@[j]
        &&& forall|i: int| 0 <= i < self.ids@.len() ==> self.ids@[i] < self.next_id
    }

    /// Whether the id counter still has room for another session.
    pub closed spec fn can_register(&self) -> bool {
        self.next_id < u64::MAX
    }

    /// A registry with no sessions.
    pub fn new() -> (r: Registry)
        ensures
            r.wf(),
            r.can_register(),
            r.ids_view() == Seq::<u64>::empty(),
    {
        Registry { ids: Vec::new(), next_id: 0 }
    }

    /// The number of live sessions.
    pub fn count(&self) -> (n: usize)
        ensures
            n == self.ids_view().len(),
    {
        self.ids.len()
    }

    /// Whether the id counter still has room for another session.
    pub fn has_capacity(&self) -> (b: bool)
        ensures
            b == self.can_register(),
    {
        self.next_id < u64::MAX
    }

    /// Admit a new session and hand out an id no live session carries.
    pub fn register(&mut self) -> (id: u64)
        requires
            old(self).wf(),
            old(self).can_register(),
        ensures
            final(self).wf(),
            final(self).ids_view() == old(self).ids_view().push(id),
            !old(self).ids_view().contains(id),
    {
        let id = self.next_id;
        self.next_id = self.next_id + 1;
        self.ids.push(id);
        proof {
            if old(self).ids@.contains(id) {
                let k = choose|k: int| 0 <= k < old(self).ids@.len() && old(self).ids@[k] == id;
                assert(old(self).ids@[k] < old(self).next_id);
            }
        }
        id
    }

    /// Whether `id` belongs to a live session.
    pub fn is_registered(&self, id: u64) -> (r: bool)
        ensures
            r == self.ids_view().contains(id),
    {
        let mut i: usize = 0;
        while i < self.ids.len()
            invariant
                i <= self.ids@.len(),
                forall|j: int| 0 <= j < i ==> self.ids@[j] != id,
            decreases self.ids@.len() - i,
        {
            if self.ids[i] == id {
                return true;
            }
            i += 1;
        }
        false
    }

    /// Drop one session's handle: `id` is no longer registered, and every
    /// other session stays registered, in its old order. Closing one client
    /// therefore never touches any other client's session.
    pub fn deregister(&mut self, id: u64)
        requires
            old(self).wf(),
        ensures
            final(self).wf(),
            !final(self).ids_view().contains(id),
            forall|x: u64|
                x != id ==> (final(self).ids_view().contains(x) <==> old(
                    self,
                ).ids_view().contains(x)),
            final(self).ids_view().len() >= old(self).ids_view().len() - 1,
            !old(self).ids_view().contains(id) ==> final(self).ids_view() == old(
                self,
            ).ids_view(),
    {
        let mut i: usize = 0;
        while i < self.ids.len()
            invariant
                old(self).wf(),
                i <= self.ids@.len(),
                forall|j: int| 0 <= j < i ==> self.ids@[j] != id,
                *self == *old(self),
            decreases self.ids@.len() - i,
        {
            if self.ids[i] == id {
                self.ids.remove(i);
                proof {
                    lemma_remove_one(old(self).ids@, i as int);
                    assert(forall|j: int|
                        0 <= j < self.ids@.len() ==> self.ids@[j] < self.next_id);
                }
                return ;
            }
            i += 1;
        }
        proof {
            assert(!self.ids@.contains(id));
        }
    }
}

/// Removing the element at position `i` of a duplicate-free sequence removes
/// exactly that element: every other value keeps its membership, no value is
/// duplicated, and each surviving element keeps its relative position.
proof fn lemma_remove_one(s: Seq<u64>, i: int)
    requires
        0 <= i < s.len(),
        forall|a: int, b: int| 0 <= a < b < s.len() ==> s[a] != s[b],
    ensures
        s.remove(i).len() == s.len() - 1,
        forall|a: int| 0 <= a < i ==> s.remove(i)[a] == s[a],
        forall|a: int| i <= a < s.len() - 1 ==> s.remove(i)[a] == s[a + 1],
        !s.remove(i).contains(s[i]),
        forall|x: u64| x != s[i] ==> (s.remove(i).contains(x) <==> s.contains(x)),
        forall|a: int, b: int| 0 <= a < b < s.remove(i).len() ==> s.remove(i)[a] != s.remove(i)[b],
{
    let r = s.remove(i);
    assert forall|a: int| 0 <= a < r.len() implies r[a] == (if a < i {
        s[a]
    } else {
        s[a + 1]
    }) by {}
    assert forall|a: int| 0 <= a < r.len() implies r[a] != s[i] by {
        if a < i {
            assert(s[a] != s[i]);
        } else {
            assert(s[a + 1] != s[i]);
        }
    }
    assert forall|x: u64| x != s[i] && s.contains(x) implies r.contains(x) by {
        let a = choose|a: int| 0 <= a < s.len() && s[a] == x;
        if a < i {
            assert(r[a] == x);
        } else {
            assert(r[a - 1] == x);
        }
    }
    assert forall|x: u64| r.contains(x) implies s.contains(x) by {
        let a = choose|a: int| 0 <= a < r.len() && r[a] == x;
        if a < i {
            assert(s[a] == x);
        } else {
            assert(s[a + 1] == x);
        }
    }
}

} // verus!
