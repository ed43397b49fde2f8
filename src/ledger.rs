use vstd::prelude::*;

use std::collections::HashMap;

verus! {

broadcast use vstd::std_specs::hash::group_hash_axioms;

/// What the release of a buffer must do.
#[derive(Debug, Clone, Copy, PartialEq, Eq, Structural)]
pub enum ReleaseAction {
    /// Null address or zero length: nothing to release.
    Nothing,
    /// The buffer was handed out and is still outstanding: free it.
    Free,
    /// The buffer is not outstanding (never handed out, or already
    /// released): a contract violation, answered by doing nothing.
    Refuse,
}

/// The byte buffers that have crossed the boundary and are not yet
/// released, by address, with their lengths.
pub struct BufferLedger {
    outstanding: HashMap<u64, usize>,
}

impl BufferLedger {
    /// The outstanding buffers: address to length.
    pub closed spec fn view(&self) -> Map<u64, usize> {
        self.outstanding@
    }

    /// An empty ledger.
    pub fn new() -> (l: BufferLedger)
        ensures
            l.view() == Map::<u64, usize>::empty(),
    {
        BufferLedger { outstanding: HashMap::new() }
    }

    /// Whether the buffer at `addr` is outstanding.
    pub fn is_outstanding(&self, addr: u64) -> (b: bool)
        ensures
            b == self.view().contains_key(addr),
    {
        self.outstanding.contains_key(&addr)
    }

    /// The number of outstanding buffers.
    pub fn outstanding_count(&self) -> (n: usize)
        ensures
            n == self.view().len(),
    {
        self.outstanding.len()
    }

    /// Records that a buffer of `len` bytes at `addr` was handed to the
    /// caller. Empty and null buffers own no memory and are not recorded.
    pub fn hand_out(&mut self, addr: u64, len: usize)
        ensures
            addr == 0 || len == 0 ==> final(self).view() == old(self).view(),
            addr != 0 && len != 0 ==> final(self).view() == old(self).view().insert(addr, len),
    {
        if addr != 0 && len != 0 {
            self.outstanding.insert(addr, len);
        }
    }

    /// Decides the release of the buffer of `len` bytes at `addr`: only an
    /// outstanding buffer with its recorded length is freed, and it then
    /// leaves the ledger; every other release changes nothing.
    pub fn release(&mut self, addr: u64, len: usize) -> (a: ReleaseAction)
        ensures
            a == release_action(old(self).view(), addr, len),
            a == ReleaseAction::Free ==> final(self).view() == old(self).view().remove(addr),
            a != ReleaseAction::Free ==> final(self).view() == old(self).view(),
    {
        if addr == 0 || len == 0 {
            return ReleaseAction::Nothing;
        }
        let known = match self.outstanding.get(&addr) {
            Some(l) => *l == len,
            None => false,
        };
        if known {
            self.outstanding.remove(&addr);
            ReleaseAction::Free
        } else {
            ReleaseAction::Refuse
        }
    }
}

/// What releasing `len` bytes at `addr` does, given the outstanding buffers.
pub open spec fn release_action(m: Map<u64, usize>, addr: u64, len: usize) -> ReleaseAction {
    if addr == 0 || len == 0 {
        ReleaseAction::Nothing
    } else if m.contains_key(addr) && m[addr] == len {
        ReleaseAction::Free
    } else {
        ReleaseAction::Refuse
    }
}

/// Handing out a buffer and releasing it once frees it and leaves the
/// outstanding buffers as they were; a second release of it is refused; a
/// null or empty buffer is never freed.
pub proof fn lemma_release_once(m: Map<u64, usize>, addr: u64, len: usize)
    requires
        addr != 0,
        len != 0,
        !m.contains_key(addr),
    ensures
        release_action(m.insert(addr, len), addr, len) == ReleaseAction::Free,
        m.insert(addr, len).remove(addr) == m,
        release_action(m.insert(addr, len).remove(addr), addr, len) == ReleaseAction::Refuse,
        release_action(m, 0, len) == ReleaseAction::Nothing,
        release_action(m, addr, 0) == ReleaseAction::Nothing,
{
    assert(m.insert(addr, len).remove(addr) =~= m);
}

} // verus!
