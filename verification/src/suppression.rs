//! The process-wide suppression set.
//!
//! Membership of a worker's identity means: failures signalled by that
//! worker inside the driver's protected frames are to be swallowed rather
//! than forwarded to the pre-existing failure reporter. One value of this
//! type lives behind the shell's mutual exclusion; each operation here is
//! one critical section's worth of work. Insert and remove are idempotent,
//! so a scoped guard may release its entry early to arm the final attempt
//! and release it again on scope exit without harm.

use vstd::prelude::*;

use crate::worker::WorkerId;

verus! {

/// The set of worker identities whose failures are currently suppressed.
pub struct SuppressionSet {
    ids: Vec<WorkerId>,
}

impl View for SuppressionSet {
    type V = Set<Seq<u8>>;

    closed spec fn view(&self) -> Set<Seq<u8>> {
        Set::new(
            |s: Seq<u8>|
                exists|i: int| 0 <= i < self.ids@.len() && (#[trigger] self.ids@[i])@ == s,
        )
    }
}

impl SuppressionSet {
    /// No identity is listed twice.
    pub closed spec fn wf(&self) -> bool {
        forall|i: int, j: int|
            0 <= i < j < self.ids@.len() ==> (#[trigger] self.ids@[i])@ != (
            #[trigger] self.ids@[j])@
    }

    pub fn new() -> (s: SuppressionSet)
        ensures
            s.wf(),
            s@ == Set::<Seq<u8>>::empty(),
    {
        let s = SuppressionSet { ids: Vec::new() };
        proof {
            assert(s@ =~= Set::<Seq<u8>>::empty());
        }
        s
    }

    /// The index at which `id` is listed, if it is.
    fn position_of(&self, id: &WorkerId) -> (r: Option<usize>)
        ensures
            match r {
                Some(i) => i < self.ids@.len() && self.ids@[i as int]@ == id@,
                None => forall|i: int| 0 <= i < self.ids@.len() ==> (#[trigger] self.ids@[i])@
                    != id@,
            },
    {
        let n = self.ids.len();
        let mut i: usize = 0;
        while i < n
            invariant
                i <= n,
                n == self.ids@.len(),
                forall|j: int| 0 <= j < i ==> (#[trigger] self.ids@[j])@ != id@,
            decreases n - i,
        {
            if self.ids[i].same_as(id) {
                return Some(i);
            }
            i = i + 1;
        }
        None
    }

    /// Whether failures of the worker named `id` are currently suppressed.
    pub fn contains(&self, id: &WorkerId) -> (r: bool)
        ensures
            r == self@.contains(id@),
    {
        match self.position_of(id) {
            Some(i) => {
                proof {
                    assert((self.ids@[i as int])@ == id@);
                }
                true
            },
            None => false,
        }
    }

    /// Add `id` to the set. Adding an identity already present is a no-op.
    pub fn insert(&mut self, id: WorkerId)
        requires
            old(self).wf(),
        ensures
            final(self).wf(),
            final(self)@ == old(self)@.insert(id@),
    {
        match self.position_of(&id) {
            Some(i) => {
                proof {
                    assert((self.ids@[i as int])@ == id@);
                    assert(self@ =~= old(self)@.insert(id@));
                }
            },
            None => {
                let ghost old_ids = self.ids@;
                self.ids.push(id);
                proof {
                    assert forall|s: Seq<u8>| old(self)@.insert(id@).contains(s) implies self@.contains(
                        s,
                    ) by {
                        if s == id@ {
                            assert((self.ids@[old_ids.len() as int])@ == s);
                        } else {
                            let w = choose|w: int|
                                0 <= w < old_ids.len() && (#[trigger] old_ids[w])@ == s;
                            assert((self.ids@[w])@ == s);
                        }
                    }
                    assert forall|s: Seq<u8>| self@.contains(s) implies old(self)@.insert(
                        id@,
                    ).contains(s) by {
                        let w = choose|w: int|
                            0 <= w < self.ids@.len() && (#[trigger] self.ids@[w])@ == s;
                        if w < old_ids.len() {
                            assert((old_ids[w])@ == s);
                        }
                    }
                    assert(self@ =~= old(self)@.insert(id@));
                }
            },
        }
    }

    /// Remove `id` from the set. Removing an identity not present is a
    /// no-op, which is what lets a guard be released both early and on
    /// scope exit.
    pub fn remove(&mut self, id: &WorkerId)
        requires
            old(self).wf(),
        ensures
            final(self).wf(),
            final(self)@ == old(self)@.remove(id@),
    {
        match self.position_of(id) {
            Some(i) => {
                let ghost old_ids = self.ids@;
                self.ids.remove(i);
                proof {
                    assert(self.ids@ =~= old_ids.subrange(0, i as int) + old_ids.subrange(
                        i as int + 1,
                        old_ids.len() as int,
                    ));
                    assert forall|u: int, v: int|
                        0 <= u < v < self.ids@.len() implies (#[trigger] self.ids@[u])@ != (
                    #[trigger] self.ids@[v])@ by {
                        let u0: int = if u < i { u } else { u + 1 };
                        let v0: int = if v < i { v } else { v + 1 };
                        assert(self.ids@[u] == old_ids[u0]);
                        assert(self.ids@[v] == old_ids[v0]);
                    }
                    assert forall|s: Seq<u8>| old(self)@.remove(id@).contains(s) implies self@.contains(
                        s,
                    ) by {
                        let w = choose|w: int|
                            0 <= w < old_ids.len() && (#[trigger] old_ids[w])@ == s;
                        if w < i {
                            assert((self.ids@[w])@ == s);
                        } else {
                            assert(w != i);
                            assert((self.ids@[w - 1])@ == s);
                        }
                    }
                    assert forall|s: Seq<u8>| self@.contains(s) implies old(self)@.remove(
                        id@,
                    ).contains(s) by {
                        let w = choose|w: int|
                            0 <= w < self.ids@.len() && (#[trigger] self.ids@[w])@ == s;
                        let w0: int = if w < i { w } else { w + 1 };
                        assert(old_ids[w0]@ == s);
                        assert(w0 != i ==> old_ids[w0]@ != id@);
                    }
                    assert(self@ =~= old(self)@.remove(id@));
                }
            },
            None => {
                proof {
                    assert(self@ =~= old(self)@.remove(id@));
                }
            },
        }
    }
}

/// A guard that inserts an identity and later removes it leaves the set
/// exactly as it would be without that identity; in particular no entry
/// the guard inserted outlives it, whichever exit path released it.
pub proof fn lemma_guard_balanced(s: Set<Seq<u8>>, w: Seq<u8>)
    ensures
        !s.insert(w).remove(w).contains(w),
        forall|x: Seq<u8>| x != w ==> s.insert(w).remove(w).contains(x) == s.contains(x),
{
}

/// Nested calls on the same worker keep each level balanced: after the
/// inner guard releases, the identity is out of the set, and after the
/// outer guard's (idempotent) release it still is; no other identity is
/// disturbed at any point.
pub proof fn lemma_nested_guards_balanced(s: Set<Seq<u8>>, w: Seq<u8>)
    ensures
        !s.insert(w).insert(w).remove(w).contains(w),
        !s.insert(w).insert(w).remove(w).remove(w).contains(w),
        forall|x: Seq<u8>| x != w ==> s.insert(w).insert(w).remove(w).remove(w).contains(x)
            == s.contains(x),
{
}

} // verus!
