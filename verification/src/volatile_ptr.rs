//! The non-owning, permission-tagged pointer.
//!
//! A [`VolatilePtr`] is a plain `(address, size, permission)` triple: it
//! owns nothing and is always used against the [`VolatileRef`] whose
//! region it points into.  Every memory operation demands the matching
//! capability in its precondition, so a call that its permission does not
//! allow cannot be written in verified code at all.  Duplication is only
//! offered through [`VolatilePtr::duplicate`], which succeeds exactly for
//! the permissions under which a second copy cannot introduce a second
//! live mutator.

use vstd::prelude::*;

use crate::access::{Access, Permission, Readable, Writable};
use crate::volatile_ref::{spec_load, spec_store, VolatileRef};

verus! {

/// A non-owning pointer to one value inside a memory region: a byte
/// address, the size in bytes of the pointed-to value, and the permission
/// under which it may be accessed.
pub struct VolatilePtr {
    base: usize,
    size: usize,
    perm: Permission,
}

impl VolatilePtr {
    /// The byte address of the pointed-to value within its region.
    pub closed spec fn addr(self) -> int {
        self.base as int
    }

    /// The size in bytes of the pointed-to value.
    pub closed spec fn size(self) -> int {
        self.size as int
    }

    /// The permission this pointer carries.
    pub closed spec fn perm(self) -> Permission {
        self.perm
    }

    /// Well-formedness: the end address fits the machine word, so that
    /// projected addresses can always be computed.
    pub open spec fn wf(self) -> bool {
        self.addr() + self.size() <= usize::MAX
    }

    /// The pointer lies inside the region of `mem`.
    pub open spec fn in_bounds(self, mem: &VolatileRef) -> bool {
        self.addr() + self.size() <= mem@.len()
    }

    /// Construct a pointer from its raw parts.
    ///
    /// This is the raw-construction door: nothing ties the new pointer to
    /// a region, and the caller answers for the permission it hands out,
    /// exactly as with raw address arithmetic.
    pub fn new(addr: usize, size: usize, perm: Permission) -> (p: VolatilePtr)
        requires
            addr + size <= usize::MAX,
        ensures
            p.addr() == addr,
            p.size() == size,
            p.perm() == perm,
            p.wf(),
    {
        VolatilePtr { base: addr, size, perm }
    }

    /// The byte address of the pointed-to value.
    pub fn address(&self) -> (r: usize)
        ensures
            r == self.addr(),
    {
        self.base
    }

    /// The size in bytes of the pointed-to value.
    pub fn size_in_bytes(&self) -> (r: usize)
        ensures
            r == self.size(),
    {
        self.size
    }

    /// The permission this pointer carries.
    pub fn permission(&self) -> (r: Permission)
        ensures
            r == self.perm(),
    {
        self.perm
    }

    /// Perform exactly one primitive load of the pointed-to bytes.
    ///
    /// Callable only with read capability: under `WriteOnly` or
    /// `NoAccess` no call to this operation can be verified.
    pub fn read(&self, mem: &VolatileRef) -> (r: Vec<u8>)
        requires
            self.perm().spec_readable(),
            self.in_bounds(mem),
        ensures
            r@ == spec_load(mem@, self.addr(), self.size()),
    {
        mem.load(self.base, self.size)
    }

    /// Perform exactly one primitive store of `val` to the pointed-to
    /// bytes.
    ///
    /// Callable only with write capability: under `ReadOnly` or
    /// `NoAccess` no call to this operation can be verified.
    pub fn write(&self, mem: &mut VolatileRef, val: &Vec<u8>)
        requires
            self.perm().spec_writable(),
            self.in_bounds(old(mem)),
            val@.len() == self.size(),
        ensures
            final(mem)@ == spec_store(old(mem)@, self.addr(), val@),
            final(mem).perm() == old(mem).perm(),
    {
        mem.store(self.base, val)
    }

    /// Read through a type-level capability: callable with any marker
    /// whose trait obligation proves read capability, so a marker such
    /// as `WriteOnly` or `NoAccess` can never gate a read.
    pub fn read_via<A: Readable>(&self, access: A, mem: &VolatileRef) -> (r: Vec<u8>)
        requires
            self.perm() == A::perm(),
            self.in_bounds(mem),
        ensures
            r@ == spec_load(mem@, self.addr(), self.size()),
    {
        proof {
            A::reads_allowed();
        }
        let _ = access;
        self.read(mem)
    }

    /// Write through a type-level capability: callable with any marker
    /// whose trait obligation proves write capability, so a marker such
    /// as `ReadOnly` or `NoAccess` can never gate a write.
    pub fn write_via<A: Writable>(&self, access: A, mem: &mut VolatileRef, val: &Vec<u8>)
        requires
            self.perm() == A::perm(),
            self.in_bounds(old(mem)),
            val@.len() == self.size(),
        ensures
            final(mem)@ == spec_store(old(mem)@, self.addr(), val@),
            final(mem).perm() == old(mem).perm(),
    {
        proof {
            A::writes_allowed();
        }
        let _ = access;
        self.write(mem, val)
    }

    /// Read the pointed-to bytes, apply `f`, and store the result: one
    /// load followed by one store, with no atomicity between them.
    ///
    /// Callable only under full `ReadWrite` permission.
    pub fn update<F: Fn(Vec<u8>) -> Vec<u8>>(&self, mem: &mut VolatileRef, f: F)
        requires
            self.perm() == Permission::ReadWrite,
            self.in_bounds(old(mem)),
            forall|v: Vec<u8>| v@.len() == self.size() ==> #[trigger] f.requires((v,)),
            forall|v: Vec<u8>, r: Vec<u8>| #[trigger] f.ensures((v, ), r) ==> r@.len() == self.size(),
        ensures
            final(mem).perm() == old(mem).perm(),
            exists|v: Vec<u8>, r: Vec<u8>|
                v@ == spec_load(old(mem)@, self.addr(), self.size()) && #[trigger] f.ensures(
                    (v, ),
                    r,
                ) && final(mem)@ == spec_store(old(mem)@, self.addr(), r@),
    {
        let v = self.read(mem);
        let r = f(v);
        self.write(mem, &r);
    }

    /// Re-tag the pointer with the restriction of its permission and the
    /// permission named by the marker `access`: a pure metadata
    /// transform, no memory access.
    pub fn restrict<A: Access>(self, access: A) -> (r: VolatilePtr)
        ensures
            r.addr() == self.addr(),
            r.size() == self.size(),
            r.perm() == self.perm().spec_restrict(A::perm()),
            self.wf() ==> r.wf(),
    {
        self.restrict_to(access.permission())
    }

    /// Re-tag the pointer with the restriction of its permission and the
    /// permission value `to`.
    pub fn restrict_to(self, to: Permission) -> (r: VolatilePtr)
        ensures
            r.addr() == self.addr(),
            r.size() == self.size(),
            r.perm() == self.perm().spec_restrict(to),
            self.wf() ==> r.wf(),
    {
        VolatilePtr { base: self.base, size: self.size, perm: self.perm.restrict(to) }
    }

    /// Duplicate the pointer.  Succeeds exactly when the permission is
    /// duplicable (`ReadOnly` or `NoAccess`): a write-capable pointer can
    /// never be duplicated, since two live copies would be two
    /// uncoordinated mutators.
    pub fn duplicate(&self) -> (r: Option<VolatilePtr>)
        ensures
            self.perm().spec_copyable() <==> r is Some,
            r matches Some(p) ==> p == *self,
    {
        if self.perm.is_copyable() {
            Some(VolatilePtr { base: self.base, size: self.size, perm: self.perm })
        } else {
            None
        }
    }

    /// Project a field of the pointed-to compound value: the field lives
    /// at `offset` within the parent, is `field_size` bytes wide, and was
    /// declared with permission `declared`.  The projected pointer's
    /// permission is the restriction of the parent's permission and the
    /// declared one — projection never widens.
    ///
    /// A descriptor that does not fit the parent is a caller contract
    /// violation, excluded by the precondition.
    pub fn project(self, offset: usize, field_size: usize, declared: Permission) -> (r:
        VolatilePtr)
        requires
            self.wf(),
            offset + field_size <= self.size(),
        ensures
            r.addr() == self.addr() + offset,
            r.size() == field_size,
            r.perm() == self.perm().spec_restrict(declared),
            r.wf(),
    {
        VolatilePtr {
            base: self.base + offset,
            size: field_size,
            perm: self.perm.restrict(declared),
        }
    }

    /// Checked element projection into a pointed-to sequence of elements
    /// that are each `elem_size` bytes wide: returns the pointer to
    /// element `index`, or `None` when the element would not lie inside
    /// the pointed-to object.  The permission is unchanged.
    pub fn element(self, elem_size: usize, index: usize) -> (r: Option<VolatilePtr>)
        requires
            self.wf(),
        ensures
            r is Some <==> (index + 1) * elem_size <= self.size(),
            r matches Some(p) ==> p.addr() == self.addr() + index * elem_size && p.size()
                == elem_size && p.perm() == self.perm() && p.wf(),
    {
        proof {
            assert((index + 1) * elem_size == index * elem_size + elem_size) by (nonlinear_arith);
        }
        if elem_size == 0 {
            return Some(VolatilePtr { base: self.base, size: 0, perm: self.perm });
        }
        match index.checked_mul(elem_size) {
            Some(start) => match start.checked_add(elem_size) {
                Some(end) => if end <= self.size {
                    Some(
                        VolatilePtr {
                            base: self.base + start,
                            size: elem_size,
                            perm: self.perm,
                        },
                    )
                } else {
                    None
                },
                None => None,
            },
            None => None,
        }
    }

    /// Unchecked element projection: the bound that [`VolatilePtr::element`]
    /// tests at run time is demanded statically instead, mirroring raw
    /// address arithmetic where the caller answers for the bound.
    pub fn element_unchecked(self, elem_size: usize, index: usize) -> (r: VolatilePtr)
        requires
            self.wf(),
            (index + 1) * elem_size <= self.size(),
        ensures
            r.addr() == self.addr() + index * elem_size,
            r.size() == elem_size,
            r.perm() == self.perm(),
            r.wf(),
    {
        proof {
            assert((index + 1) * elem_size == index * elem_size + elem_size) by (nonlinear_arith);
        }
        VolatilePtr { base: self.base + index * elem_size, size: elem_size, perm: self.perm }
    }

    /// Checked sub-range projection: the byte range `start..end` of the
    /// pointed-to object, or `None` when the range does not lie inside
    /// it.  The permission is unchanged.
    pub fn sub_range(self, start: usize, end: usize) -> (r: Option<VolatilePtr>)
        requires
            self.wf(),
        ensures
            r is Some <==> start <= end && end <= self.size(),
            r matches Some(p) ==> p.addr() == self.addr() + start && p.size() == end - start
                && p.perm() == self.perm() && p.wf(),
    {
        if start <= end && end <= self.size {
            Some(VolatilePtr { base: self.base + start, size: end - start, perm: self.perm })
        } else {
            None
        }
    }

    /// Unchecked sub-range projection: the bounds that
    /// [`VolatilePtr::sub_range`] tests at run time are demanded
    /// statically instead.
    pub fn sub_range_unchecked(self, start: usize, end: usize) -> (r: VolatilePtr)
        requires
            self.wf(),
            start <= end,
            end <= self.size(),
        ensures
            r.addr() == self.addr() + start,
            r.size() == end - start,
            r.perm() == self.perm(),
            r.wf(),
    {
        VolatilePtr { base: self.base + start, size: end - start, perm: self.perm }
    }
}

} // verus!
