//! A keyed store of caller-managed allocations.
//!
//! `init_global_var` moves a value into the store's memory and records its
//! handle under a string key, replacing any earlier handle under that key;
//! the allocation the earlier handle reached is orphaned, not released.
//! `fetch_global_var` and `fetch_global_var_mut` look a key up and hand back
//! a reference to the value its handle reaches, or the key-not-found error.
//! `drop_global_var` removes the key and releases the allocation behind it.
//! Nothing is released automatically: an orphaned or never-dropped entry
//! keeps its allocation for the store's whole life.

use crate::global_ptr::GlobalHeap;
use crate::key_map::{key_map_entries, key_map_get, key_map_insert, key_map_new, key_map_remove,
    KeyMap};
use vstd::prelude::*;

verus! {

/// The text of the error that a fetch of an absent key reports.
pub open spec fn key_not_found_msg() -> Seq<char> {
    "Failed to find key"@
}

/// A store of values reached through string keys.
///
/// Each stored value lives in the store's own memory under a numeric handle;
/// the key map records which handle a key reaches. Storing under an existing
/// key points the key at a fresh allocation and orphans the old one, which
/// stays in memory with no key reaching it.
pub struct GlobalStore<T> {
    heap: GlobalHeap<T>,
    keys: KeyMap,
}

impl<T> GlobalStore<T> {
    /// The key-to-handle entries of the store.
    pub closed spec fn entries(self) -> Map<Seq<char>, u64> {
        key_map_entries(self.keys)
    }

    /// The live allocations, keyed by handle. Allocations orphaned by an
    /// overwriting `init_global_var` stay here with no key reaching them.
    pub closed spec fn mem(self) -> Map<u64, T> {
        self.heap.mem()
    }

    /// How many allocations were ever made, released or not.
    pub closed spec fn allocations(self) -> nat {
        self.heap.allocations()
    }

    /// The handle the next `init_global_var` call records.
    pub closed spec fn next_handle(self) -> u64 {
        self.heap.next_handle()
    }

    /// The store as callers see it: each key with the value its handle
    /// reaches.
    pub closed spec fn value_map(self) -> Map<Seq<char>, T> {
        Map::new(
            |k: Seq<char>| self.entries().contains_key(k),
            |k: Seq<char>| self.mem()[self.entries()[k]],
        )
    }

    /// Well-formedness: every recorded handle reaches a live allocation, and
    /// no two keys share a handle.
    pub closed spec fn wf(self) -> bool {
        &&& forall|k: Seq<char>| #[trigger]
            self.entries().contains_key(k) ==> self.mem().contains_key(self.entries()[k])
        &&& forall|k1: Seq<char>, k2: Seq<char>|
            #![trigger self.entries()[k1], self.entries()[k2]]
            self.entries().contains_key(k1) && self.entries().contains_key(k2) && k1 != k2
                ==> self.entries()[k1] != self.entries()[k2]
    }

    /// An empty store: no keys, no allocations.
    pub fn new() -> (s: Self)
        ensures
            s.wf(),
            s.entries() == Map::<Seq<char>, u64>::empty(),
            s.mem() == Map::<u64, T>::empty(),
            s.value_map() == Map::<Seq<char>, T>::empty(),
            s.allocations() == 0,
    {
        let s = GlobalStore { heap: GlobalHeap::new(), keys: key_map_new() };
        proof {
            assert(s.value_map() =~= Map::<Seq<char>, T>::empty());
        }
        s
    }

    /// Moves `val` into the store's memory and records its fresh handle
    /// under `key`, replacing any handle recorded there before. The
    /// allocation an earlier handle reached is orphaned, not released: the
    /// allocation count grows by one even when the key already existed.
    pub fn init_global_var(&mut self, key: &str, val: T)
        requires
            old(self).wf(),
        ensures
            final(self).wf(),
            final(self).entries() == old(self).entries().insert(key@, old(self).next_handle()),
            final(self).mem() == old(self).mem().insert(old(self).next_handle(), val),
            final(self).value_map() == old(self).value_map().insert(key@, val),
            final(self).allocations() == old(self).allocations() + 1,
    {
        let h = self.heap.def_global_ptr(val);
        key_map_insert(&mut self.keys, key, h);
        proof {
            assert forall|k: Seq<char>| #[trigger] self.entries().contains_key(k)
                implies self.mem().contains_key(self.entries()[k]) by {
                if k != key@ {
                    assert(old(self).entries().contains_key(k));
                }
            }
            assert forall|k1: Seq<char>, k2: Seq<char>|
                self.entries().contains_key(k1) && self.entries().contains_key(k2) && k1 != k2
                implies self.entries()[k1] != self.entries()[k2] by {
                if k1 != key@ {
                    assert(old(self).mem().contains_key(old(self).entries()[k1]));
                }
                if k2 != key@ {
                    assert(old(self).mem().contains_key(old(self).entries()[k2]));
                }
            }
            assert(self.value_map() =~= old(self).value_map().insert(key@, val));
        }
    }

    /// Removes `key` and, if it was present, releases the allocation its
    /// handle reached. An absent key leaves the store as it was. The
    /// allocation count never shrinks: released slots are not reused.
    pub fn drop_global_var(&mut self, key: &str)
        requires
            old(self).wf(),
        ensures
            final(self).wf(),
            final(self).entries() == old(self).entries().remove(key@),
            final(self).value_map() == old(self).value_map().remove(key@),
            final(self).allocations() == old(self).allocations(),
            old(self).entries().contains_key(key@) ==> final(self).mem() == old(self).mem().remove(
                old(self).entries()[key@],
            ),
            !old(self).entries().contains_key(key@) ==> final(self).mem() == old(self).mem(),
    {
        match key_map_remove(&mut self.keys, key) {
            Some(h) => {
                proof {
                    assert(old(self).entries().contains_key(key@));
                    assert(old(self).mem().contains_key(h));
                }
                self.heap.undef_global_ptr(h);
                proof {
                    assert forall|k: Seq<char>| #[trigger] self.entries().contains_key(k)
                        implies self.mem().contains_key(self.entries()[k]) by {
                        assert(old(self).entries().contains_key(k));
                        assert(old(self).entries()[k] != old(self).entries()[key@]);
                    }
                    assert(self.value_map() =~= old(self).value_map().remove(key@));
                }
            },
            None => {
                proof {
                    assert(self.value_map() =~= old(self).value_map().remove(key@));
                }
            },
        }
    }

    /// Looks `key` up and returns a reference to the value its handle
    /// reaches, or the key-not-found error if no such key is recorded.
    pub fn fetch_global_var(&self, key: &str) -> (r: Result<&T, String>)
        requires
            self.wf(),
        ensures
            self.value_map().contains_key(key@) ==> (r matches Ok(v) && *v
                == self.value_map()[key@]),
            !self.value_map().contains_key(key@) ==> (r matches Err(e) && e@
                == key_not_found_msg()),
    {
        match key_map_get(&self.keys, key) {
            Some(h) => {
                proof {
                    assert(self.entries().contains_key(key@));
                    assert(h == self.entries()[key@]);
                    assert(self.mem().contains_key(h));
                }
                Ok(self.heap.get_global(h))
            },
            None => Err("Failed to find key".to_string()),
        }
    }

    /// Looks `key` up and returns a mutable reference to the value its
    /// handle reaches, or the key-not-found error. What the caller writes
    /// through the reference is what later fetches of the same key see; no
    /// other key is affected.
    pub fn fetch_global_var_mut(&mut self, key: &str) -> (r: Result<&mut T, String>)
        requires
            old(self).wf(),
        ensures
            final(self).wf(),
            final(self).entries() == old(self).entries(),
            final(self).allocations() == old(self).allocations(),
            !old(self).value_map().contains_key(key@) ==> (r matches Err(e) && e@
                == key_not_found_msg() && *final(self) == *old(self)),
            old(self).value_map().contains_key(key@) ==> (r is Ok && *r->Ok_0 == old(
                self,
            ).value_map()[key@] && final(self).mem() =~= old(self).mem().insert(
                old(self).entries()[key@],
                *final(r->Ok_0),
            ) && final(self).value_map() =~= old(self).value_map().insert(
                key@,
                *final(r->Ok_0),
            )),
    {
        match key_map_get(&self.keys, key) {
            Some(h) => {
                proof {
                    assert(old(self).entries().contains_key(key@));
                    assert(self.mem().contains_key(h));
                }
                let m = self.heap.get_global_mut(h);
                Ok(m)
            },
            None => Err("Failed to find key".to_string()),
        }
    }
}

/// Law: a fetch right after a store yields the stored value. In a store
/// whose value map an `init_global_var(key, val)` call has just produced —
/// or one that a write of `val` through `fetch_global_var_mut(key)` has just
/// updated — `fetch_global_var(key)` returns `Ok` with exactly `val`.
pub proof fn lemma_fetch_after_store<T>(
    pre: GlobalStore<T>,
    post: GlobalStore<T>,
    key: Seq<char>,
    val: T,
)
    requires
        post.value_map() == pre.value_map().insert(key, val),
    ensures
        post.value_map().contains_key(key),
        post.value_map()[key] == val,
{
}

/// Law: a fetch right after a drop of the same key reports the key-not-found
/// error. In a store whose value map a `drop_global_var(key)` call has just
/// produced, `key` is absent, so `fetch_global_var(key)` returns `Err` with
/// the key-not-found text.
pub proof fn lemma_fetch_after_drop<T>(pre: GlobalStore<T>, post: GlobalStore<T>, key: Seq<char>)
    requires
        post.value_map() == pre.value_map().remove(key),
    ensures
        !post.value_map().contains_key(key),
{
}

} // verus!
