//! Worker identities.
//!
//! Suppression is scoped to the worker that asked for it, and a worker is
//! known by the name the host runtime reports for it. The identity is held
//! as the bytes of that name, so two identities are the same exactly when
//! the names are.

use vstd::prelude::*;

verus! {

/// The identity of one worker: the bytes of its runtime-reported name.
pub struct WorkerId {
    bytes: Vec<u8>,
}

impl View for WorkerId {
    type V = Seq<u8>;

    closed spec fn view(&self) -> Seq<u8> {
        self.bytes@
    }
}

impl WorkerId {
    pub fn new(bytes: Vec<u8>) -> (w: WorkerId)
        ensures
            w@ == bytes@,
    {
        WorkerId { bytes }
    }

    /// Whether this identity and `other` name the same worker.
    pub fn same_as(&self, other: &WorkerId) -> (r: bool)
        ensures
            r == (self@ == other@),
    {
        if self.bytes.len() != other.bytes.len() {
            return false;
        }
        let n = self.bytes.len();
        let mut i: usize = 0;
        while i < n
            invariant
                i <= n,
                n == self.bytes@.len(),
                n == other.bytes@.len(),
                forall|j: int| 0 <= j < i ==> self.bytes@[j] == other.bytes@[j],
            decreases n - i,
        {
            if self.bytes[i] != other.bytes[i] {
                return false;
            }
            i = i + 1;
        }
        proof {
            assert(self.bytes@ =~= other.bytes@);
        }
        true
    }
}

} // verus!
