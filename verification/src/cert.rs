//! Handles for certificate stores and for the records inserted into them.
//!
//! The platform's certificate subsystem reports the outcome of every call
//! as a handle (an address, null for failure), or as a boolean together
//! with an out-pointer, plus a numeric last-error code. The functions here
//! take those plain outcome values and decide what the caller gets: an
//! owned handle value on success, an `OsError` carrying the reported code
//! on failure. A handle value is only ever built around a non-null
//! address, so holding one is proof that the underlying object exists.

use vstd::prelude::*;

verus! {

/// Failure reported by the platform certificate subsystem, carrying the
/// numeric code that the platform's last-error mechanism held when the
/// call failed.
#[derive(Clone, Copy, Debug, PartialEq, Eq, Structural)]
pub struct OsError {
    pub code: u32,
}

/// An owned handle to an open certificate store.
///
/// A value of this type exists only for a store that was actually opened:
/// the address it carries is never null. The value stands for one
/// reference to the underlying store object, to be given back exactly
/// once by whoever performs the platform calls; it is therefore neither
/// copied nor cloned here — a new reference comes only from the
/// platform's own duplication primitive, through [`CertStore::duplicated`].
pub struct CertStore {
    handle: usize,
}

impl CertStore {
    /// The address of the underlying store object.
    pub closed spec fn raw(self) -> usize {
        self.handle
    }

    #[verifier::type_invariant]
    spec fn wf(self) -> bool {
        self.handle != 0
    }

    /// Decide the outcome of opening a store with the in-memory provider:
    /// `opened` is the handle the platform call returned (null as zero)
    /// and `last_error` the code its last-error mechanism held at that
    /// point. A non-null handle becomes an owned in-memory store; a null
    /// one becomes the error, and no handle value is produced.
    pub fn memory(opened: usize, last_error: u32) -> (r: Result<Memory, OsError>)
        ensures
            r is Ok <==> opened != 0,
            (r matches Ok(m) ==> m.store().raw() == opened),
            (r matches Err(e) ==> e == (OsError { code: last_error })),
    {
        if opened == 0 {
            Err(OsError { code: last_error })
        } else {
            Ok(Memory { store: CertStore { handle: opened } })
        }
    }

    /// Accept the handle that the platform's duplication primitive
    /// returned for this store. Duplication is treated as infallible, so
    /// a null handle lies outside this contract and the caller checks
    /// before calling; the new value owns one further reference to the
    /// same store object.
    pub fn duplicated(&self, returned: usize) -> (r: CertStore)
        requires
            returned != 0,
        ensures
            r.raw() == returned,
    {
        CertStore { handle: returned }
    }

    /// The raw handle, for handing to a platform call.
    pub fn as_inner(&self) -> (r: usize)
        ensures
            r == self.raw(),
            r != 0,
    {
        proof {
            use_type_invariant(self);
        }
        self.handle
    }
}

/// A certificate store opened with the in-memory provider: the only
/// construction path this module supports, and the only handle through
/// which records are inserted.
pub struct Memory {
    store: CertStore,
}

impl Memory {
    /// The plain store handle this wrapper owns.
    pub closed spec fn store(self) -> CertStore {
        self.store
    }

    /// Decide the outcome of asking the platform to add a DER-encoded
    /// certificate to this store: `accepted` is the boolean the call
    /// returned, `entry` the record address it wrote to its out-pointer,
    /// and `last_error` the code held when it reported failure. The
    /// platform writes a record address whenever it accepts, so a null
    /// `entry` beside `accepted` lies outside this contract. Acceptance
    /// yields an owned entry handle for exactly that record; rejection
    /// yields the error, and no entry value is produced. The store
    /// handle itself is left as it was.
    pub fn add_der_certificate(&mut self, accepted: bool, entry: usize, last_error: u32)
        -> (r: Result<CertContext, OsError>)
        requires
            accepted ==> entry != 0,
        ensures
            *final(self) == *old(self),
            r is Ok <==> accepted,
            (r matches Ok(c) ==> c.raw() == entry),
            (r matches Err(e) ==> e == (OsError { code: last_error })),
    {
        if accepted {
            Ok(CertContext { context: entry })
        } else {
            Err(OsError { code: last_error })
        }
    }

    /// Decide the outcome of asking the platform to add a DER-encoded
    /// certificate trust list to this store. Same contract as
    /// [`Memory::add_der_certificate`], for trust-list records.
    pub fn add_der_ctl(&mut self, accepted: bool, entry: usize, last_error: u32)
        -> (r: Result<CtlContext, OsError>)
        requires
            accepted ==> entry != 0,
        ensures
            *final(self) == *old(self),
            r is Ok <==> accepted,
            (r matches Ok(c) ==> c.raw() == entry),
            (r matches Err(e) ==> e == (OsError { code: last_error })),
    {
        if accepted {
            Ok(CtlContext { context: entry })
        } else {
            Err(OsError { code: last_error })
        }
    }

    /// Give up the in-memory wrapper, handing over the plain store handle
    /// it owns. The returned handle is the very one the wrapper held, so
    /// it refers to the same underlying store with everything inserted so
    /// far; the wrapper itself is consumed and can insert nothing more.
    pub fn into_store(self) -> (r: CertStore)
        ensures
            r == self.store(),
    {
        self.store
    }

    /// The raw store handle, for handing to a platform call.
    pub fn as_inner(&self) -> (r: usize)
        ensures
            r == self.store().raw(),
            r != 0,
    {
        self.store.as_inner()
    }
}

/// An owned entry handle for one certificate record inside a store.
///
/// A value of this type exists only for a record the platform actually
/// returned: the address it carries is never null. It is not clonable;
/// the one value stands for the one release the record is owed.
pub struct CertContext {
    context: usize,
}

impl CertContext {
    /// The address of the underlying certificate record.
    pub closed spec fn raw(self) -> usize {
        self.context
    }

    #[verifier::type_invariant]
    spec fn wf(self) -> bool {
        self.context != 0
    }

    /// The raw record address, for handing to a platform call.
    pub fn as_inner(&self) -> (r: usize)
        ensures
            r == self.raw(),
            r != 0,
    {
        proof {
            use_type_invariant(self);
        }
        self.context
    }
}

/// An owned entry handle for one certificate-trust-list record inside a
/// store; the same ownership story as [`CertContext`], for trust lists.
pub struct CtlContext {
    context: usize,
}

impl CtlContext {
    /// The address of the underlying trust-list record.
    pub closed spec fn raw(self) -> usize {
        self.context
    }

    #[verifier::type_invariant]
    spec fn wf(self) -> bool {
        self.context != 0
    }

    /// The raw record address, for handing to a platform call.
    pub fn as_inner(&self) -> (r: usize)
        ensures
            r == self.raw(),
            r != 0,
    {
        proof {
            use_type_invariant(self);
        }
        self.context
    }
}

} // verus!
