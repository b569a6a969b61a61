//! An arena of caller-managed allocations reached through numeric handles.
//!
//! `def_global_ptr` stores a value and hands back an opaque handle;
//! `get_global` and `get_global_mut` dereference the handle; `undef_global_ptr`
//! reclaims the allocation. Nothing is reclaimed automatically: a handle that
//! is never given back to `undef_global_ptr` keeps its allocation for the
//! arena's whole life. Dereferencing or reclaiming a handle after it has been
//! reclaimed is out of contract, as is a handle the arena never handed out.

use vstd::pervasive::unreached;
use vstd::prelude::*;

verus! {

/// A set of caller-managed allocations, each reached through a `u64` handle.
///
/// The arena is the explicit stand-in for a process-wide heap: values put in
/// with [`GlobalHeap::def_global_ptr`] stay allocated until the caller
/// reclaims them with [`GlobalHeap::undef_global_ptr`].
pub struct GlobalHeap<T> {
    slots: Vec<Option<T>>,
}

impl<T> GlobalHeap<T> {
    /// The live allocations: every handle that was handed out and not yet
    /// reclaimed, each with the value it currently holds.
    pub closed spec fn mem(self) -> Map<u64, T> {
        Map::new(
            |h: u64| h < self.slots@.len() && self.slots@[h as int] is Some,
            |h: u64| self.slots@[h as int]->Some_0,
        )
    }

    /// How many allocations were ever made, reclaimed or not.
    pub closed spec fn allocations(self) -> nat {
        self.slots@.len()
    }

    /// The handle that the next `def_global_ptr` call returns.
    pub open spec fn next_handle(self) -> u64 {
        self.allocations() as u64
    }

    /// An empty arena: no allocations, no valid handles.
    pub fn new() -> (heap: Self)
        ensures
            heap.mem() == Map::<u64, T>::empty(),
            heap.allocations() == 0,
    {
        let heap = GlobalHeap { slots: Vec::new() };
        proof {
            assert(heap.mem() =~= Map::<u64, T>::empty());
        }
        heap
    }

    /// Moves `value` into the arena and returns a fresh handle for it.
    ///
    /// The allocation stays until `undef_global_ptr` is called on the handle;
    /// losing the handle leaks the allocation for the arena's whole life.
    pub fn def_global_ptr(&mut self, value: T) -> (h: u64)
        ensures
            h == old(self).next_handle(),
            !old(self).mem().contains_key(h),
            final(self).mem() == old(self).mem().insert(h, value),
            final(self).allocations() == old(self).allocations() + 1,
    {
        let n: usize = self.slots.len();
        let h = n as u64;
        self.slots.push(Some(value));
        proof {
            assert(self.mem() =~= old(self).mem().insert(h, value));
        }
        h
    }

    /// Returns a reference to the value the handle was defined with (or last
    /// written through `get_global_mut`).
    ///
    /// A handle that was reclaimed, or never handed out, is out of contract.
    pub fn get_global(&self, h: u64) -> (r: &T)
        requires
            self.mem().contains_key(h),
        ensures
            *r == self.mem()[h],
    {
        let n: usize = self.slots.len();
        let idx: usize = h as usize;
        proof {
            // A live handle indexes the slot vector, so it fits in `usize`
            // and the cast loses nothing.
            assert(h < n);
        }
        let slot: &Option<T> = &self.slots[idx];
        match slot {
            Some(v) => v,
            None => unreached(),
        }
    }

    /// Returns a mutable reference to the value behind the handle; what the
    /// caller writes through it is what later dereferences of the handle see.
    ///
    /// A handle that was reclaimed, or never handed out, is out of contract.
    pub fn get_global_mut(&mut self, h: u64) -> (r: &mut T)
        requires
            old(self).mem().contains_key(h),
        ensures
            *r == old(self).mem()[h],
            final(self).mem() =~= old(self).mem().insert(h, *final(r)),
            final(self).allocations() == old(self).allocations(),
    {
        let n: usize = self.slots.len();
        let idx: usize = h as usize;
        proof {
            // A live handle indexes the slot vector, so it fits in `usize`
            // and the cast loses nothing.
            assert(h < n);
        }
        let slot: &mut Option<T> = &mut self.slots[idx];
        match slot {
            Some(v) => v,
            None => unreached(),
        }
    }

    /// Reclaims the allocation behind the handle. The handle is no longer
    /// valid afterwards: every further use of it is out of contract.
    pub fn undef_global_ptr(&mut self, h: u64)
        requires
            old(self).mem().contains_key(h),
        ensures
            final(self).mem() == old(self).mem().remove(h),
            final(self).allocations() == old(self).allocations(),
    {
        let n: usize = self.slots.len();
        let idx: usize = h as usize;
        proof {
            // A live handle indexes the slot vector, so it fits in `usize`
            // and the cast loses nothing.
            assert(h < n);
        }
        let slot: &mut Option<T> = &mut self.slots[idx];
        *slot = None;
        proof {
            assert(self.mem() =~= old(self).mem().remove(h));
        }
    }
}

/// Law: dereferencing a handle right after writing it yields the written
/// value. In an arena whose memory an allocation or a write has just extended
/// or updated at `h` — `def_global_ptr(value)` returning `h`, or an
/// assignment of `value` through `get_global_mut(h)` — `get_global(h)`
/// returns `value`.
pub proof fn lemma_get_after_write<T>(pre: GlobalHeap<T>, post: GlobalHeap<T>, h: u64, value: T)
    requires
        post.mem() == pre.mem().insert(h, value),
    ensures
        post.mem().contains_key(h),
        post.mem()[h] == value,
{
}

/// Law: after `undef_global_ptr(h)` the handle is gone from the live memory,
/// so the contracts of `get_global`, `get_global_mut` and `undef_global_ptr`
/// no longer admit `h`: any further use of the handle is out of contract.
pub proof fn lemma_undefine_invalidates<T>(pre: GlobalHeap<T>, post: GlobalHeap<T>, h: u64)
    requires
        post.mem() == pre.mem().remove(h),
    ensures
        !post.mem().contains_key(h),
{
}

} // verus!
