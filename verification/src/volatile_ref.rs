//! The exclusively-owned reference over a memory region.
//!
//! A [`VolatileRef`] owns one memory region together with the permission
//! under which the region may be accessed.  It is the sole way to obtain
//! write capability safely: the type has no duplication operation, every
//! store demands `&mut`, and Rust's ownership discipline therefore
//! guarantees at most one live write-capable handle per region.
//!
//! The region itself is modeled as the sequence of bytes it holds.  The
//! private [`VolatileRef::load`] and [`VolatileRef::store`] operations
//! stand for the host platform's primitive memory accesses, which are
//! assumed non-reorderable and non-elidable; everything layered above them
//! is specified in terms of [`spec_load`] and [`spec_store`].

use vstd::prelude::*;

use crate::access::{Access, Permission};
use crate::volatile_ptr::VolatilePtr;

verus! {

/// The bytes that one primitive load returns: the `n` bytes of `m`
/// starting at `addr`.
pub open spec fn spec_load(m: Seq<u8>, addr: int, n: int) -> Seq<u8> {
    m.subrange(addr, addr + n)
}

/// The region after one primitive store: the bytes of `v` replace the
/// range of `m` starting at `addr`; every byte outside that range is
/// untouched.
pub open spec fn spec_store(m: Seq<u8>, addr: int, v: Seq<u8>) -> Seq<u8> {
    Seq::new(m.len(), |i: int| if addr <= i < addr + v.len() { v[i - addr] } else { m[i] })
}

/// Round trip: a store followed by a load of the same range returns
/// exactly the stored bytes, absent external interference.
pub proof fn lemma_store_then_load(m: Seq<u8>, addr: int, v: Seq<u8>)
    requires
        0 <= addr,
        addr + v.len() <= m.len(),
    ensures
        spec_load(spec_store(m, addr, v), addr, v.len() as int) == v,
{
    assert(spec_load(spec_store(m, addr, v), addr, v.len() as int) =~= v);
}

/// A pointer borrowed for shared use can never write: restricting any
/// permission to read-only access yields one without write capability,
/// so a region with outstanding shared borrows has no second mutator.
pub proof fn lemma_shared_borrow_never_writes(p: Permission)
    ensures
        !p.spec_restrict(Permission::ReadOnly).spec_writable(),
{
}

/// An exclusive, permission-tagged handle over one memory region.
pub struct VolatileRef {
    data: Vec<u8>,
    perm: Permission,
}

impl View for VolatileRef {
    type V = Seq<u8>;

    /// The region's current contents.
    closed spec fn view(&self) -> Seq<u8> {
        self.data@
    }
}

impl VolatileRef {
    /// The permission under which this handle accesses its region.
    pub closed spec fn perm(&self) -> Permission {
        self.perm
    }

    /// Take exclusive (mutable) ownership of a region: the handle gets
    /// full `ReadWrite` permission.
    pub fn from_mut_value(data: Vec<u8>) -> (r: VolatileRef)
        ensures
            r@ == data@,
            r.perm() == Permission::ReadWrite,
    {
        VolatileRef { data, perm: Permission::ReadWrite }
    }

    /// Take shared (immutable) ownership of a region: the handle gets
    /// `ReadOnly` permission.
    pub fn from_value(data: Vec<u8>) -> (r: VolatileRef)
        ensures
            r@ == data@,
            r.perm() == Permission::ReadOnly,
    {
        VolatileRef { data, perm: Permission::ReadOnly }
    }

    /// Take ownership of a region under the permission named by the
    /// marker `access`.
    pub fn new_restricted<A: Access>(access: A, data: Vec<u8>) -> (r: VolatileRef)
        ensures
            r@ == data@,
            r.perm() == A::perm(),
    {
        VolatileRef { data, perm: access.permission() }
    }

    /// Give up the handle and recover the owned region.
    pub fn into_inner(self) -> (d: Vec<u8>)
        ensures
            d@ == self@,
    {
        self.data
    }

    /// The permission under which this handle accesses its region.
    pub fn permission(&self) -> (r: Permission)
        ensures
            r == self.perm(),
    {
        self.perm
    }

    /// The size of the region in bytes.
    pub fn len(&self) -> (n: usize)
        ensures
            n == self@.len(),
    {
        self.data.len()
    }

    /// Borrow a pointer for shared use.  Because the handle may be shared
    /// while such pointers are live, the pointer's permission is the
    /// handle's permission restricted to read-only access.
    pub fn as_ptr(&self) -> (p: VolatilePtr)
        ensures
            p.addr() == 0,
            p.size() == self@.len(),
            p.perm() == self.perm().spec_restrict(Permission::ReadOnly),
            p.wf(),
    {
        VolatilePtr::new(0, self.data.len(), self.perm.restrict(Permission::ReadOnly))
    }

    /// Borrow a pointer for exclusive use: the pointer carries the
    /// handle's full permission.
    pub fn as_mut_ptr(&mut self) -> (p: VolatilePtr)
        ensures
            *final(self) == *old(self),
            p.addr() == 0,
            p.size() == old(self)@.len(),
            p.perm() == old(self).perm(),
            p.wf(),
    {
        VolatilePtr::new(0, self.data.len(), self.perm)
    }

    /// Re-tag the handle with the restriction of its permission and the
    /// permission named by the marker `access`; the region is untouched.
    pub fn restrict<A: Access>(self, access: A) -> (r: VolatileRef)
        ensures
            r@ == self@,
            r.perm() == self.perm().spec_restrict(A::perm()),
    {
        VolatileRef { data: self.data, perm: self.perm.restrict(access.permission()) }
    }

    /// The primitive load: read `n` bytes starting at `addr`.
    ///
    /// This models the host platform's non-reorderable, non-elidable read
    /// of the region; permission gating happens in the pointer layer.
    pub(crate) fn load(&self, addr: usize, n: usize) -> (r: Vec<u8>)
        requires
            addr + n <= self@.len(),
        ensures
            r@ == spec_load(self@, addr as int, n as int),
    {
        let total: usize = self.data.len();
        let mut r: Vec<u8> = Vec::new();
        let mut i: usize = 0;
        while i < n
            invariant
                i <= n,
                addr + n <= self@.len(),
                self@.len() == total,
                r@ == self@.subrange(addr as int, addr + i),
            decreases n - i,
        {
            r.push(self.data[addr + i]);
            assert(r@ =~= self@.subrange(addr as int, addr + i + 1));
            i = i + 1;
        }
        assert(r@ =~= spec_load(self@, addr as int, n as int));
        r
    }

    /// The primitive store: replace the bytes starting at `addr` with
    /// `val`.
    ///
    /// This models the host platform's non-reorderable, non-elidable
    /// write of the region; permission gating happens in the pointer
    /// layer.
    pub(crate) fn store(&mut self, addr: usize, val: &Vec<u8>)
        requires
            addr + val@.len() <= old(self)@.len(),
        ensures
            final(self)@ == spec_store(old(self)@, addr as int, val@),
            final(self).perm() == old(self).perm(),
    {
        let n = val.len();
        let total: usize = self.data.len();
        let mut i: usize = 0;
        while i < n
            invariant
                i <= n,
                n == val@.len(),
                addr + n <= old(self)@.len(),
                self@.len() == old(self)@.len(),
                self@.len() == total,
                self.perm() == old(self).perm(),
                forall|j: int| addr <= j < addr + i ==> self@[j] == val@[j - addr],
                forall|j: int|
                    0 <= j < self@.len() && !(addr <= j < addr + i) ==> self@[j] == old(self)@[j],
            decreases n - i,
        {
            self.data[addr + i] = val[i];
            i = i + 1;
        }
        assert(self@ =~= spec_store(old(self)@, addr as int, val@));
    }
}

} // verus!
