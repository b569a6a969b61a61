//! A registry for long-lived values reached through opaque numeric handles.
//!
//! Two facilities are offered, one keyed and one raw:
//!
//! - [`global_kv::GlobalStore`] maps string keys to stored values. A value is
//!   put in with `init_global_var`, read back with `fetch_global_var` (or
//!   mutated through `fetch_global_var_mut`), and released with
//!   `drop_global_var`. Storing under an existing key orphans the earlier
//!   allocation: it stays in the store's memory but no key reaches it.
//! - [`global_ptr::GlobalHeap`] hands out a numeric handle for each value
//!   given to `def_global_ptr`; the handle is dereferenced with `get_global`
//!   and `get_global_mut` and reclaimed with `undef_global_ptr`. Using a
//!   handle after reclaiming it is out of contract.
//!
//! Nothing is released automatically: an allocation whose handle is never
//! reclaimed stays for the registry's whole life.

pub mod global_kv;
pub mod global_ptr;
mod key_map;

pub use global_kv::GlobalStore;
pub use global_ptr::GlobalHeap;
