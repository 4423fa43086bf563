use vstd::prelude::*;

use vstd::hash_map::HashMapWithView;

verus! {

/// The engine's allocation state, as the wrapper layer depends on it.
///
/// The native engine hands out reference-counted allocations; the wrapper
/// discipline (every owned handle is released exactly once, every shared
/// handle is kept before it is shared) is stated and proved against this
/// table. A handle is a non-zero integer standing for the address of a
/// native allocation; `0` plays the part of the null pointer and is never
/// live. The table maps each live handle to its reference count.
pub struct Engine {
    next: u64,
    table: HashMapWithView<u64, u64>,
}

impl Engine {
    /// The allocation table: each live handle mapped to its reference count.
    pub closed spec fn allocations(self) -> Map<u64, u64> {
        self.table@
    }

    /// The next handle the engine will hand out; handles never repeat.
    pub closed spec fn next_handle(self) -> u64 {
        self.next
    }

    /// A handle is live while the engine still holds an allocation for it.
    pub open spec fn live(self, h: u64) -> bool {
        self.allocations().contains_key(h)
    }

    /// The reference count of a live handle.
    pub open spec fn refcount(self, h: u64) -> u64 {
        self.allocations()[h]
    }

    /// Every live handle is non-null, was handed out earlier, and holds at
    /// least one reference.
    pub open spec fn wf(self) -> bool {
        &&& self.next_handle() >= 1
        &&& forall|h: u64| #[trigger]
            self.allocations().contains_key(h) ==> 0 < h < self.next_handle()
                && self.allocations()[h] >= 1
    }

    /// The engine can still hand out a fresh handle.
    pub open spec fn can_alloc(self) -> bool {
        self.next_handle() < u64::MAX
    }

    /// How many allocations are live.
    pub open spec fn live_count(self) -> nat {
        self.allocations().len()
    }

    /// A fresh engine with no allocations.
    pub fn new() -> (e: Engine)
        ensures
            e.wf(),
            e.can_alloc(),
            e.allocations() == Map::<u64, u64>::empty(),
            e.next_handle() == 1,
    {
        Engine { next: 1, table: HashMapWithView::new() }
    }

    /// A factory call: the engine hands out a fresh allocation holding one
    /// reference, owned by whoever receives the handle.
    pub fn allocate(&mut self) -> (h: u64)
        requires
            old(self).wf(),
            old(self).can_alloc(),
        ensures
            final(self).wf(),
            h > 0,
            !old(self).live(h),
            final(self).allocations() == old(self).allocations().insert(h, 1),
            final(self).next_handle() == old(self).next_handle() + 1,
    {
        let h = self.next;
        self.next = self.next + 1;
        self.table.insert(h, 1);
        proof {
            assert forall|x: u64| self.allocations().contains_key(x) implies 0 < x
                < self.next_handle() && self.allocations()[x] >= 1 by {
                if x != h {
                    assert(old(self).allocations().contains_key(x));
                }
            }
        }
        h
    }

    /// The keep half of the keep/drop protocol: sharing an allocation
    /// increments its reference count, never copies the bare handle.
    pub fn keep(&mut self, h: u64) -> (r: u64)
        requires
            old(self).wf(),
            old(self).live(h),
            old(self).refcount(h) < u64::MAX,
        ensures
            final(self).wf(),
            r == h,
            final(self).allocations() == old(self).allocations().insert(
                h,
                (old(self).refcount(h) + 1) as u64,
            ),
            final(self).next_handle() == old(self).next_handle(),
    {
        let count = *self.table.get(&h).unwrap();
        self.table.insert(h, count + 1);
        h
    }

    /// The drop half of the keep/drop protocol: releasing a live handle
    /// gives up exactly one reference, and the allocation is freed when the
    /// last reference goes. Releasing a handle that is no longer live is
    /// excluded by the precondition: that is the double-release this layer
    /// rules out.
    pub fn release(&mut self, h: u64)
        requires
            old(self).wf(),
            old(self).live(h),
        ensures
            final(self).wf(),
            old(self).refcount(h) > 1 ==> final(self).allocations() == old(
                self,
            ).allocations().insert(h, (old(self).refcount(h) - 1) as u64),
            old(self).refcount(h) == 1 ==> final(self).allocations() == old(
                self,
            ).allocations().remove(h),
            final(self).next_handle() == old(self).next_handle(),
    {
        let count = *self.table.get(&h).unwrap();
        if count > 1 {
            self.table.insert(h, count - 1);
        } else {
            self.table.remove(&h);
        }
    }

    /// Whether the engine can still hand out a fresh handle.
    pub fn can_allocate(&self) -> (r: bool)
        ensures
            r == self.can_alloc(),
    {
        self.next < u64::MAX
    }

    /// Whether the engine still holds an allocation for `h`.
    pub fn is_live(&self, h: u64) -> (r: bool)
        ensures
            r == self.live(h),
    {
        self.table.contains_key(&h)
    }

    /// How many allocations are live, for harnesses that watch for leaks.
    pub fn live_allocations(&self) -> (n: usize)
        ensures
            n == self.live_count(),
    {
        self.table.len()
    }
}

/// Law: one keep followed by one release restores the allocation table.
/// Sharing a handle and then giving the share back leaves the engine exactly
/// where it was: no reference is leaked and none is lost.
pub proof fn lemma_keep_release_round_trip(allocations: Map<u64, u64>, h: u64)
    requires
        allocations.contains_key(h),
        1 <= allocations[h] < u64::MAX,
    ensures
        ({
            let kept = allocations.insert(h, (allocations[h] + 1) as u64);
            kept.contains_key(h) && kept[h] > 1 && kept.insert(
                h,
                (kept[h] - 1) as u64,
            ) == allocations
        }),
{
    let kept = allocations.insert(h, (allocations[h] + 1) as u64);
    assert(kept.insert(h, (kept[h] - 1) as u64) =~= allocations);
}

/// Law: releasing the last reference frees the allocation exactly once.
/// After the release the handle is no longer live, so the precondition of
/// `Engine::release` can never be met for it again: a double release is not
/// a run-time fault here, it is unverifiable.
pub proof fn lemma_release_frees_exactly_once(allocations: Map<u64, u64>, h: u64)
    requires
        allocations.dom().finite(),
        allocations.contains_key(h),
        allocations[h] == 1,
    ensures
        !allocations.remove(h).contains_key(h),
        allocations.remove(h).len() == allocations.len() - 1,
{
    assert(allocations.contains_key(h));
    allocations.lemma_remove_key_len(h);
}

} // verus!
