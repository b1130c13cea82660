//! The access-permission lattice and its marker types.
//!
//! A [`Permission`] is one of four closed values forming a meet-semilattice
//! under [`Permission::restrict`].  The set is sealed: no other permission
//! can ever exist, so every table-based rule in this crate is total.
//!
//! The zero-sized marker types [`ReadWrite`], [`ReadOnly`], [`WriteOnly`]
//! and [`NoAccess`] lift the four values to the type level; the traits
//! [`Access`], [`Readable`], [`Writable`] and [`Copyable`] classify them,
//! with a proof obligation tying each marker to the capability it claims.

use vstd::prelude::*;

verus! {

/// One of the four access permissions a handle can carry.
///
/// The set is closed by construction: every rule in this crate is a total
/// function over exactly these four values.
#[derive(Clone, Copy, Debug, PartialEq, Eq, Structural)]
pub enum Permission {
    /// Both reads and writes are allowed.
    ReadWrite,
    /// Only reads are allowed.
    ReadOnly,
    /// Only writes are allowed.
    WriteOnly,
    /// Neither reads nor writes are allowed.
    NoAccess,
}

impl Permission {
    /// The restriction table: the narrowest permission consistent with
    /// both inputs.
    pub open spec fn spec_restrict(self, to: Permission) -> Permission {
        match (self, to) {
            (Permission::ReadWrite, Permission::ReadWrite) => Permission::ReadWrite,
            (Permission::ReadWrite, Permission::ReadOnly) => Permission::ReadOnly,
            (Permission::ReadWrite, Permission::WriteOnly) => Permission::WriteOnly,
            (Permission::ReadWrite, Permission::NoAccess) => Permission::NoAccess,
            (Permission::ReadOnly, Permission::ReadWrite) => Permission::ReadOnly,
            (Permission::ReadOnly, Permission::ReadOnly) => Permission::ReadOnly,
            (Permission::ReadOnly, Permission::WriteOnly) => Permission::NoAccess,
            (Permission::ReadOnly, Permission::NoAccess) => Permission::NoAccess,
            (Permission::WriteOnly, Permission::ReadWrite) => Permission::WriteOnly,
            (Permission::WriteOnly, Permission::ReadOnly) => Permission::NoAccess,
            (Permission::WriteOnly, Permission::WriteOnly) => Permission::WriteOnly,
            (Permission::WriteOnly, Permission::NoAccess) => Permission::NoAccess,
            (Permission::NoAccess, Permission::ReadWrite) => Permission::NoAccess,
            (Permission::NoAccess, Permission::ReadOnly) => Permission::NoAccess,
            (Permission::NoAccess, Permission::WriteOnly) => Permission::NoAccess,
            (Permission::NoAccess, Permission::NoAccess) => Permission::NoAccess,
        }
    }

    /// A permission grants read capability exactly for `ReadWrite` and
    /// `ReadOnly`.
    pub open spec fn spec_readable(self) -> bool {
        self == Permission::ReadWrite || self == Permission::ReadOnly
    }

    /// A permission grants write capability exactly for `ReadWrite` and
    /// `WriteOnly`.
    pub open spec fn spec_writable(self) -> bool {
        self == Permission::ReadWrite || self == Permission::WriteOnly
    }

    /// A handle may be duplicated exactly when restricting its permission
    /// to shared (read-only) access loses nothing: duplication can then
    /// never create a second live mutator.
    pub open spec fn spec_copyable(self) -> bool {
        self.spec_restrict(Permission::ReadOnly) == self
    }

    /// Combine two permissions into the narrowest one consistent with both.
    pub fn restrict(self, to: Permission) -> (r: Permission)
        ensures
            r == self.spec_restrict(to),
    {
        match (self, to) {
            (Permission::ReadWrite, p) => p,
            (p, Permission::ReadWrite) => p,
            (Permission::ReadOnly, Permission::ReadOnly) => Permission::ReadOnly,
            (Permission::WriteOnly, Permission::WriteOnly) => Permission::WriteOnly,
            _ => Permission::NoAccess,
        }
    }

    /// Whether this permission grants read capability.
    pub fn is_readable(self) -> (r: bool)
        ensures
            r == self.spec_readable(),
    {
        matches!(self, Permission::ReadWrite | Permission::ReadOnly)
    }

    /// Whether this permission grants write capability.
    pub fn is_writable(self) -> (r: bool)
        ensures
            r == self.spec_writable(),
    {
        matches!(self, Permission::ReadWrite | Permission::WriteOnly)
    }

    /// Whether a handle carrying this permission may be duplicated.
    pub fn is_copyable(self) -> (r: bool)
        ensures
            r == self.spec_copyable(),
    {
        matches!(self, Permission::ReadOnly | Permission::NoAccess)
    }
}

/// Restriction is idempotent: combining a permission with itself changes
/// nothing.
pub proof fn lemma_restrict_idempotent(p: Permission)
    ensures
        p.spec_restrict(p) == p,
{
}

/// Restriction is commutative: the order of the two inputs never matters.
pub proof fn lemma_restrict_commutative(p: Permission, q: Permission)
    ensures
        p.spec_restrict(q) == q.spec_restrict(p),
{
}

/// Restriction only narrows: the result never grants a capability that
/// either input lacks.
pub proof fn lemma_restrict_narrows(p: Permission, q: Permission)
    ensures
        p.spec_restrict(q).spec_readable() ==> p.spec_readable() && q.spec_readable(),
        p.spec_restrict(q).spec_writable() ==> p.spec_writable() && q.spec_writable(),
{
}

/// The duplicable permissions are exactly `ReadOnly` and `NoAccess`.
pub proof fn lemma_copyable_characterization(p: Permission)
    ensures
        p.spec_copyable() <==> (p == Permission::ReadOnly || p == Permission::NoAccess),
{
}

/// Sealing trait: only the four marker types in this module implement it,
/// so no outside code can add a fifth permission.
pub trait Sealed {}

/// A type-level access permission.
///
/// Each implementor stands for exactly one [`Permission`] value, given by
/// `Access::perm`.
pub trait Access: Sealed + Copy {
    /// The permission value this marker stands for.
    spec fn perm() -> Permission;

    /// Return the permission value this marker stands for.
    fn permission(&self) -> (p: Permission)
        ensures
            p == Self::perm(),
    ;
}

/// Markers whose permission grants read capability.
pub trait Readable: Access {
    /// Proof that the marker's permission is readable.
    proof fn reads_allowed()
        ensures
            Self::perm().spec_readable(),
    ;
}

/// Markers whose permission grants write capability.
pub trait Writable: Access {
    /// Proof that the marker's permission is writable.
    proof fn writes_allowed()
        ensures
            Self::perm().spec_writable(),
    ;
}

/// Markers under which a handle may be freely duplicated.
pub trait Copyable: Access {
    /// Proof that the marker's permission is duplicable.
    proof fn copies_allowed()
        ensures
            Self::perm().spec_copyable(),
    ;
}

/// Zero-sized marker type for allowing both read and write access.
#[derive(Clone, Copy, Debug, Default, PartialEq, Eq, Structural)]
pub struct ReadWrite;

/// Zero-sized marker type for allowing only read access.
#[derive(Clone, Copy, Debug, Default, PartialEq, Eq, Structural)]
pub struct ReadOnly;

/// Zero-sized marker type for allowing only write access.
#[derive(Clone, Copy, Debug, Default, PartialEq, Eq, Structural)]
pub struct WriteOnly;

/// Zero-sized marker type that grants no access.
#[derive(Clone, Copy, Debug, Default, PartialEq, Eq, Structural)]
pub struct NoAccess;

impl Sealed for ReadWrite {}

impl Access for ReadWrite {
    open spec fn perm() -> Permission {
        Permission::ReadWrite
    }

    fn permission(&self) -> Permission {
        Permission::ReadWrite
    }
}

impl Readable for ReadWrite {
    proof fn reads_allowed() {
    }
}

impl Writable for ReadWrite {
    proof fn writes_allowed() {
    }
}

impl Sealed for ReadOnly {}

impl Access for ReadOnly {
    open spec fn perm() -> Permission {
        Permission::ReadOnly
    }

    fn permission(&self) -> Permission {
        Permission::ReadOnly
    }
}

impl Readable for ReadOnly {
    proof fn reads_allowed() {
    }
}

impl Copyable for ReadOnly {
    proof fn copies_allowed() {
    }
}

impl Sealed for WriteOnly {}

impl Access for WriteOnly {
    open spec fn perm() -> Permission {
        Permission::WriteOnly
    }

    fn permission(&self) -> Permission {
        Permission::WriteOnly
    }
}

impl Writable for WriteOnly {
    proof fn writes_allowed() {
    }
}

impl Sealed for NoAccess {}

impl Access for NoAccess {
    open spec fn perm() -> Permission {
        Permission::NoAccess
    }

    fn permission(&self) -> Permission {
        Permission::NoAccess
    }
}

impl Copyable for NoAccess {
    proof fn copies_allowed() {
    }
}

} // verus!
