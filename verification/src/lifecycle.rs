//! The life of one shared store object, as the platform documents it.
//!
//! A store handle is a reference to a store object that the platform
//! keeps reference-counted: opening the store yields its first reference,
//! duplicating a handle adds one, closing a handle gives one back, and
//! the object stays live — every remaining handle stays usable — until
//! the last reference has been given back, which is when the object is
//! freed. [`StoreObject`] models exactly that count, and the laws below
//! state what the handle wrappers rely on: a duplicate outlives the
//! closing of the original, and balanced closing frees the object,
//! neither leaking it nor freeing it twice.

use vstd::prelude::*;

verus! {

/// One store object on the platform side, reduced to what the handle
/// wrappers depend on: the number of references still outstanding.
pub struct StoreObject {
    refs: u64,
}

impl StoreObject {
    /// How many handles still refer to the object: how many closes it is
    /// still owed.
    pub closed spec fn refs(self) -> u64 {
        self.refs
    }

    /// The object is live — usable through any of its handles — while
    /// some reference to it is still outstanding.
    pub open spec fn is_live(self) -> bool {
        self.refs() >= 1
    }

    /// Opening a store creates its object with exactly one reference,
    /// owned by the handle the open call returned.
    pub fn open() -> (s: StoreObject)
        ensures
            s.refs() == 1,
    {
        StoreObject { refs: 1 }
    }

    /// Duplicating a handle adds one reference to the same object.
    pub fn duplicate(&mut self)
        requires
            old(self).is_live(),
            old(self).refs() < u64::MAX,
        ensures
            final(self).refs() == old(self).refs() + 1,
    {
        self.refs = self.refs + 1;
    }

    /// Closing a handle gives its one reference back.
    pub fn close(&mut self)
        requires
            old(self).is_live(),
        ensures
            final(self).refs() == old(self).refs() - 1,
    {
        self.refs = self.refs - 1;
    }

    /// Whether the object is still live.
    pub fn live(&self) -> (r: bool)
        ensures
            r == self.is_live(),
    {
        self.refs >= 1
    }
}

/// Law: duplicating a handle to a live store and then closing the
/// original handle leaves the store object live, so the duplicate is
/// still fully usable. Here `before` is the object as it stood when the
/// duplication was asked for, `duplicated` the object after it, and
/// `original_closed` the object after the original handle was then
/// closed, each step as the transitions above describe it.
pub proof fn lemma_duplicate_survives_close(
    before: StoreObject,
    duplicated: StoreObject,
    original_closed: StoreObject,
)
    requires
        before.is_live(),
        duplicated.refs() == before.refs() + 1,
        original_closed.refs() == duplicated.refs() - 1,
    ensures
        original_closed.is_live(),
{
}

/// Law: giving back the last outstanding reference frees the object —
/// after the close that balances the open and every duplication, the
/// store is no longer live, so no reference leaks; and since a close
/// demands a live object, no handle can give its reference back twice.
pub proof fn lemma_last_close_frees(last: StoreObject, closed: StoreObject)
    requires
        last.refs() == 1,
        closed.refs() == last.refs() - 1,
    ensures
        !closed.is_live(),
{
}

} // verus!
