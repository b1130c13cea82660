//! The static accessor generator.
//!
//! A [`Layout`] describes a struct whose memory representation is fixed:
//! an ordered list of named fields, each with a type name, a size in
//! bytes, and an optional declared permission (defaulting to
//! `ReadWrite`).  [`derive_volatile`] validates the description and
//! generates one permission-bounded accessor per field, in declaration
//! order: an [`Accessor`] table entry holding the field's offset, size
//! and declared permission, plus a rendering of the accessor set as
//! source text (a trait with one method per field, implemented for
//! [`VolatilePtr`] by exactly one field-projection call).
//!
//! Applying an accessor ([`Accessor::apply`]) is one call of
//! [`VolatilePtr::project`], so the projected permission is always the
//! restriction of the caller's permission and the field's declared one;
//! a caller holding `NoAccess` obtains accessors that themselves carry
//! `NoAccess` and therefore can neither read nor write.
//!
//! Malformed descriptions are rejected before any accessor is produced:
//! an unnamed (positional) field, generic type parameters, the lack of a
//! fixed-representation attribute, or a permission annotation that names
//! none of the four lattice values.

use vstd::prelude::*;

use crate::access::Permission;
use crate::volatile_ptr::VolatilePtr;

verus! {

/// Spec-level model of one field of a layout description.
pub ghost struct FieldModel {
    /// The field's name, absent for a positional field.
    pub name: Option<Seq<char>>,
    /// The name of the field's type.
    pub ty: Seq<char>,
    /// The field's size in bytes.
    pub size: nat,
    /// The declared permission annotation, absent when unannotated.
    pub access: Option<Seq<char>>,
}

/// Spec-level model of a whole layout description.
pub ghost struct LayoutModel {
    /// The described struct's name.
    pub name: Seq<char>,
    /// How many generic type parameters the struct has.
    pub generics: nat,
    /// The arguments of the struct's representation attribute.
    pub reprs: Seq<Seq<char>>,
    /// The fields, in declaration order.
    pub fields: Seq<FieldModel>,
}

/// One field of a layout description.
#[derive(Debug)]
pub struct FieldDef {
    /// The field's name; `None` describes a positional (tuple-style)
    /// field, which generation rejects.
    pub name: Option<String>,
    /// The name of the field's type, used only in the rendered text.
    pub ty: String,
    /// The field's size in bytes.  Offsets are laid out contiguously in
    /// declaration order, so any padding must be declared explicitly.
    pub size: usize,
    /// The declared permission annotation; `None` means the default,
    /// `ReadWrite`.
    pub access: Option<String>,
}

impl View for FieldDef {
    type V = FieldModel;

    open spec fn view(&self) -> FieldModel {
        FieldModel {
            name: match self.name {
                Option::Some(s) => Option::Some(s@),
                Option::None => Option::None,
            },
            ty: self.ty@,
            size: self.size as nat,
            access: match self.access {
                Option::Some(s) => Option::Some(s@),
                Option::None => Option::None,
            },
        }
    }
}

/// A declarative struct layout: the input of the accessor generator.
#[derive(Debug)]
pub struct Layout {
    /// The described struct's name.
    pub name: String,
    /// How many generic type parameters the struct has; generation
    /// rejects any value other than zero.
    pub generics: usize,
    /// The arguments of the struct's representation attribute; one of
    /// them must be `C` or `transparent`, else the memory representation
    /// is not fixed and generation rejects the layout.
    pub reprs: Vec<String>,
    /// The fields, in declaration order.
    pub fields: Vec<FieldDef>,
}

impl View for Layout {
    type V = LayoutModel;

    open spec fn view(&self) -> LayoutModel {
        LayoutModel {
            name: self.name@,
            generics: self.generics as nat,
            reprs: self.reprs@.map_values(|s: String| s@),
            fields: self.fields@.map_values(|f: FieldDef| f@),
        }
    }
}

/// Why a layout description was rejected.  No accessor is generated for
/// a rejected layout.
#[derive(Clone, Copy, Debug, PartialEq, Eq, Structural)]
pub enum LayoutError {
    /// The field at `index` is positional: it has no stable name to
    /// derive an accessor name from.
    UnnamedField { index: usize },
    /// The layout type has generic type parameters.
    GenericLayout,
    /// The layout type's attributes do not establish a fixed memory
    /// representation.
    MissingFixedRepr,
    /// The permission annotation of the field at `index` names none of
    /// the four lattice values.
    UnknownPermission { index: usize },
}

/// The description of a rejection reason.
pub open spec fn spec_error_message(e: LayoutError) -> Seq<char> {
    match e {
        LayoutError::UnnamedField { .. } => "accessors can only be generated for structs with named fields"@,
        LayoutError::GenericLayout => "accessors cannot be generated for generic structs"@,
        LayoutError::MissingFixedRepr => "the struct must be `#[repr(C)]` or `#[repr(transparent)]`"@,
        LayoutError::UnknownPermission { .. } => "a permission annotation must name one of ReadWrite, ReadOnly, WriteOnly, NoAccess"@,
    }
}

impl LayoutError {
    /// Describe the rejection.
    pub fn message(&self) -> (r: String)
        ensures
            r@ == spec_error_message(*self),
    {
        match self {
            LayoutError::UnnamedField { .. } => String::from_str(
                "accessors can only be generated for structs with named fields",
            ),
            LayoutError::GenericLayout => String::from_str(
                "accessors cannot be generated for generic structs",
            ),
            LayoutError::MissingFixedRepr => String::from_str(
                "the struct must be `#[repr(C)]` or `#[repr(transparent)]`",
            ),
            LayoutError::UnknownPermission { .. } => String::from_str(
                "a permission annotation must name one of ReadWrite, ReadOnly, WriteOnly, NoAccess",
            ),
        }
    }
}

/// The permission a permission-annotation string names, if any.
pub open spec fn spec_perm_of_name(s: Seq<char>) -> Option<Permission> {
    if s == "ReadWrite"@ {
        Option::Some(Permission::ReadWrite)
    } else if s == "ReadOnly"@ {
        Option::Some(Permission::ReadOnly)
    } else if s == "WriteOnly"@ {
        Option::Some(Permission::WriteOnly)
    } else if s == "NoAccess"@ {
        Option::Some(Permission::NoAccess)
    } else {
        Option::None
    }
}

/// The permission a field's annotation declares: the default
/// `ReadWrite` when unannotated, and `None` when the annotation names
/// no lattice value.
pub open spec fn spec_declared_perm(f: FieldModel) -> Option<Permission> {
    match f.access {
        Option::Some(s) => spec_perm_of_name(s),
        Option::None => Option::Some(Permission::ReadWrite),
    }
}

/// Every field has a stable name.
pub open spec fn spec_fields_named(fields: Seq<FieldModel>) -> bool {
    forall|i: int| 0 <= i < fields.len() ==> fields[i].name is Some
}

/// Some representation argument fixes the memory layout.
pub open spec fn spec_repr_fixed(reprs: Seq<Seq<char>>) -> bool {
    exists|i: int| 0 <= i < reprs.len() && (reprs[i] == "C"@ || reprs[i] == "transparent"@)
}

/// The shape conditions: named fields, no generics, fixed
/// representation.
pub open spec fn spec_shape_valid(l: LayoutModel) -> bool {
    spec_fields_named(l.fields) && l.generics == 0 && spec_repr_fixed(l.reprs)
}

/// Every permission annotation names a lattice value.
pub open spec fn spec_perms_known(fields: Seq<FieldModel>) -> bool {
    forall|i: int| 0 <= i < fields.len() ==> spec_declared_perm(fields[i]) is Some
}

/// A layout generates accessors exactly when it is valid: well-shaped
/// with every annotation known.
pub open spec fn spec_layout_valid(l: LayoutModel) -> bool {
    spec_shape_valid(l) && spec_perms_known(l.fields)
}

/// The byte offset of field `i`: the sum of the sizes of the fields
/// declared before it.
pub open spec fn spec_offset(fields: Seq<FieldModel>, i: int) -> int
    decreases i,
{
    if i <= 0 {
        0
    } else {
        spec_offset(fields, i - 1) + fields[i - 1].size
    }
}

/// The total size of the described struct: the offset one past the last
/// field.
pub open spec fn spec_total_size(fields: Seq<FieldModel>) -> int {
    spec_offset(fields, fields.len() as int)
}

/// Offsets grow with the field index.
pub proof fn lemma_offset_monotone(fields: Seq<FieldModel>, i: int, j: int)
    requires
        0 <= i <= j,
    ensures
        spec_offset(fields, i) <= spec_offset(fields, j),
    decreases j,
{
    if i < j {
        lemma_offset_monotone(fields, i, j - 1);
    }
}

/// Spec-level model of one generated accessor.
pub ghost struct AccessorModel {
    /// The accessor's name: the field's name.
    pub name: Seq<char>,
    /// The field's type name.
    pub ty: Seq<char>,
    /// The field's byte offset within the parent.
    pub offset: int,
    /// The field's size in bytes.
    pub size: nat,
    /// The field's declared permission.
    pub declared: Permission,
}

/// One generated accessor: applying it projects the named field out of
/// a pointer over the whole layout.
#[derive(Debug)]
pub struct Accessor {
    /// The accessor's name: the field's name.
    pub name: String,
    /// The field's type name.
    pub ty: String,
    /// The field's byte offset within the parent.
    pub offset: usize,
    /// The field's size in bytes.
    pub size: usize,
    /// The field's declared permission.
    pub declared: Permission,
}

impl View for Accessor {
    type V = AccessorModel;

    open spec fn view(&self) -> AccessorModel {
        AccessorModel {
            name: self.name@,
            ty: self.ty@,
            offset: self.offset as int,
            size: self.size as nat,
            declared: self.declared,
        }
    }
}

impl Accessor {
    /// Apply the accessor to a pointer over the whole layout: exactly
    /// one field-projection call, so the result's permission is the
    /// restriction of the caller's permission and the field's declared
    /// one.
    pub fn apply(&self, p: VolatilePtr) -> (r: VolatilePtr)
        requires
            p.wf(),
            self@.offset + self@.size <= p.size(),
        ensures
            r.addr() == p.addr() + self@.offset,
            r.size() == self@.size,
            r.perm() == p.perm().spec_restrict(self@.declared),
            r.wf(),
    {
        p.project(self.offset, self.size, self.declared)
    }
}

/// The name of a field that is known to have one.
pub open spec fn spec_field_name(f: FieldModel) -> Seq<char> {
    match f.name {
        Option::Some(n) => n,
        Option::None => Seq::empty(),
    }
}

/// The declared permission of a field whose annotation is known to be
/// valid.
pub open spec fn spec_field_declared(f: FieldModel) -> Permission {
    match spec_declared_perm(f) {
        Option::Some(p) => p,
        Option::None => Permission::ReadWrite,
    }
}

/// The accessor generated for field `i`.
pub open spec fn spec_accessor(fields: Seq<FieldModel>, i: int) -> AccessorModel {
    AccessorModel {
        name: spec_field_name(fields[i]),
        ty: fields[i].ty,
        offset: spec_offset(fields, i),
        size: fields[i].size,
        declared: spec_field_declared(fields[i]),
    }
}

/// Spec-level model of a parsed layout: the identifiers of the rendered
/// trait and the accessors, in field order.
pub ghost struct ParsedModel {
    /// The rendered trait's name.
    pub trait_ident: Seq<char>,
    /// The described struct's name.
    pub struct_ident: Seq<char>,
    /// The accessors, in field order.
    pub accessors: Seq<AccessorModel>,
}

/// What parsing a valid layout yields.
pub open spec fn spec_parsed(l: LayoutModel) -> ParsedModel {
    ParsedModel {
        trait_ident: l.name + "VolatileFieldAccess"@,
        struct_ident: l.name,
        accessors: Seq::new(l.fields.len(), |i: int| spec_accessor(l.fields, i)),
    }
}

/// A validated, resolved layout: everything the renderers need.
#[derive(Debug)]
pub struct ParsedInput {
    /// The rendered trait's name: the struct's name followed by
    /// `VolatileFieldAccess`.
    pub trait_ident: String,
    /// The described struct's name.
    pub struct_ident: String,
    /// The accessors, in field order.
    pub accessors: Vec<Accessor>,
}

impl View for ParsedInput {
    type V = ParsedModel;

    open spec fn view(&self) -> ParsedModel {
        ParsedModel {
            trait_ident: self.trait_ident@,
            struct_ident: self.struct_ident@,
            accessors: self.accessors@.map_values(|a: Accessor| a@),
        }
    }
}

/// Resolve a permission-annotation string to the lattice value it
/// names.
pub fn permission_of_name(s: &String) -> (r: Option<Permission>)
    ensures
        r == spec_perm_of_name(s@),
{
    if *s == String::from_str("ReadWrite") {
        Option::Some(Permission::ReadWrite)
    } else if *s == String::from_str("ReadOnly") {
        Option::Some(Permission::ReadOnly)
    } else if *s == String::from_str("WriteOnly") {
        Option::Some(Permission::WriteOnly)
    } else if *s == String::from_str("NoAccess") {
        Option::Some(Permission::NoAccess)
    } else {
        Option::None
    }
}

/// Check the shape of a layout description: every field named, no
/// generic parameters, a fixed memory representation.  The checks run
/// in that order and the first failure is reported; nothing is
/// generated for a rejected layout.
pub fn validate_input(input: &Layout) -> (r: Result<(), LayoutError>)
    ensures
        r is Ok <==> spec_shape_valid(input@),
        r matches Err(e) ==> match e {
            LayoutError::UnnamedField { index } => index < input@.fields.len()
                && input@.fields[index as int].name is None && (forall|j: int|
                0 <= j < index ==> input@.fields[j].name is Some),
            LayoutError::GenericLayout => spec_fields_named(input@.fields) && input@.generics != 0,
            LayoutError::MissingFixedRepr => spec_fields_named(input@.fields) && input@.generics
                == 0 && !spec_repr_fixed(input@.reprs),
            LayoutError::UnknownPermission { .. } => false,
        },
{
    let n = input.fields.len();
    let mut i: usize = 0;
    while i < n
        invariant
            i <= n,
            n == input.fields.len(),
            forall|j: int| 0 <= j < i ==> input@.fields[j].name is Some,
        decreases n - i,
    {
        if input.fields[i].name.is_none() {
            return Err(LayoutError::UnnamedField { index: i });
        }
        i = i + 1;
    }
    if input.generics != 0 {
        return Err(LayoutError::GenericLayout);
    }
    let m = input.reprs.len();
    let c = String::from_str("C");
    let t = String::from_str("transparent");
    let mut k: usize = 0;
    while k < m
        invariant
            k <= m,
            m == input.reprs.len(),
            spec_fields_named(input@.fields),
            input@.generics == 0,
            c@ == "C"@,
            t@ == "transparent"@,
            forall|j: int|
                0 <= j < k ==> !(input@.reprs[j] == "C"@ || input@.reprs[j] == "transparent"@),
        decreases m - k,
    {
        if input.reprs[k] == c || input.reprs[k] == t {
            proof {
                assert(input@.reprs[k as int] == input.reprs@[k as int]@);
                assert(spec_repr_fixed(input@.reprs));
            }
            return Ok(());
        }
        k = k + 1;
    }
    Err(LayoutError::MissingFixedRepr)
}

/// Resolve a well-shaped layout: compute each field's offset and
/// declared permission, and the rendered trait's name.  Rejects the
/// layout on the first permission annotation that names no lattice
/// value.
pub fn parse_input(input: &Layout) -> (r: Result<ParsedInput, LayoutError>)
    requires
        spec_fields_named(input@.fields),
        spec_total_size(input@.fields) <= usize::MAX,
    ensures
        r is Ok <==> spec_perms_known(input@.fields),
        r matches Ok(p) ==> p@ == spec_parsed(input@),
        r matches Err(e) ==> match e {
            LayoutError::UnknownPermission { index } => index < input@.fields.len()
                && spec_declared_perm(input@.fields[index as int]) is None && (forall|j: int|
                0 <= j < index ==> spec_declared_perm(input@.fields[j]) is Some),
            _ => false,
        },
{
    let ghost fields = input@.fields;
    let n = input.fields.len();
    let mut accessors: Vec<Accessor> = Vec::new();
    let mut offset: usize = 0;
    let mut i: usize = 0;
    while i < n
        invariant
            i <= n,
            n == input.fields.len(),
            fields == input@.fields,
            spec_fields_named(fields),
            spec_total_size(fields) <= usize::MAX,
            offset == spec_offset(fields, i as int),
            accessors@.len() == i,
            forall|j: int| 0 <= j < i ==> accessors@[j]@ == spec_accessor(fields, j),
            forall|j: int| 0 <= j < i ==> spec_declared_perm(fields[j]) is Some,
        decreases n - i,
    {
        let f = &input.fields[i];
        let name: String = match &f.name {
            Option::Some(s) => s.clone(),
            Option::None => {
                proof {
                    assert(false);
                }
                String::new()
            },
        };
        let declared: Permission = match &f.access {
            Option::Some(s) => match permission_of_name(s) {
                Option::Some(p) => p,
                Option::None => {
                    return Err(LayoutError::UnknownPermission { index: i });
                },
            },
            Option::None => Permission::ReadWrite,
        };
        proof {
            lemma_offset_monotone(fields, i + 1, fields.len() as int);
        }
        accessors.push(
            Accessor { name, ty: f.ty.clone(), offset, size: f.size, declared },
        );
        offset = offset + f.size;
        i = i + 1;
    }
    let trait_ident = input.name.clone().concat("VolatileFieldAccess");
    let struct_ident = input.name.clone();
    let r = ParsedInput { trait_ident, struct_ident, accessors };
    proof {
        assert(r@.accessors =~= spec_parsed(input@).accessors);
        assert(r@ == spec_parsed(input@));
    }
    Ok(r)
}

/// The decimal digit `d` as text.
pub open spec fn spec_digit(d: int) -> Seq<char> {
    if d == 0 {
        "0"@
    } else if d == 1 {
        "1"@
    } else if d == 2 {
        "2"@
    } else if d == 3 {
        "3"@
    } else if d == 4 {
        "4"@
    } else if d == 5 {
        "5"@
    } else if d == 6 {
        "6"@
    } else if d == 7 {
        "7"@
    } else if d == 8 {
        "8"@
    } else if d == 9 {
        "9"@
    } else {
        Seq::empty()
    }
}

/// The number `n` in decimal, most significant digit first.
pub open spec fn spec_decimal(n: nat) -> Seq<char>
    decreases n,
{
    if n < 10 {
        spec_digit(n as int)
    } else {
        spec_decimal(n / 10) + spec_digit((n % 10) as int)
    }
}

/// The text of one decimal digit.
fn digit_str(d: usize) -> (r: &'static str)
    requires
        d < 10,
    ensures
        r@ == spec_digit(d as int),
{
    match d {
        0 => "0",
        1 => "1",
        2 => "2",
        3 => "3",
        4 => "4",
        5 => "5",
        6 => "6",
        7 => "7",
        8 => "8",
        _ => "9",
    }
}

/// Render a number in decimal.
pub fn decimal(n: usize) -> (r: String)
    ensures
        r@ == spec_decimal(n as nat),
    decreases n,
{
    if n < 10 {
        String::from_str(digit_str(n))
    } else {
        proof {
            assert(n / 10 < n) by (nonlinear_arith)
                requires
                    10 <= n,
            ;
        }
        let mut s = decimal(n / 10);
        s.append(digit_str(n % 10));
        s
    }
}

/// The name of a permission value, as text.
pub open spec fn spec_perm_name(p: Permission) -> Seq<char> {
    match p {
        Permission::ReadWrite => "ReadWrite"@,
        Permission::ReadOnly => "ReadOnly"@,
        Permission::WriteOnly => "WriteOnly"@,
        Permission::NoAccess => "NoAccess"@,
    }
}

/// The name of a permission value, as text.
pub fn perm_name_str(p: Permission) -> (r: &'static str)
    ensures
        r@ == spec_perm_name(p),
{
    match p {
        Permission::ReadWrite => "ReadWrite",
        Permission::ReadOnly => "ReadOnly",
        Permission::WriteOnly => "WriteOnly",
        Permission::NoAccess => "NoAccess",
    }
}

/// One rendered trait item: the accessor's method signature.
pub open spec fn spec_trait_item(a: AccessorModel) -> Seq<char> {
    " fn "@ + a.name + "(self) -> VolatilePtr;"@
}

/// The rendered trait items of the first `n` accessors, in order.
pub open spec fn spec_trait_items(accs: Seq<AccessorModel>, n: int) -> Seq<char>
    decreases n,
{
    if n <= 0 {
        Seq::empty()
    } else {
        spec_trait_items(accs, n - 1) + spec_trait_item(accs[n - 1])
    }
}

/// The rendered accessor trait: one method per field, in field order.
pub open spec fn spec_trait_text(p: ParsedModel) -> Seq<char> {
    "pub trait "@ + p.trait_ident + " {"@ + spec_trait_items(
        p.accessors,
        p.accessors.len() as int,
    ) + " }"@
}

/// One rendered impl item: the accessor's method, whose body is exactly
/// one field-projection call.
pub open spec fn spec_impl_item(a: AccessorModel) -> Seq<char> {
    " fn "@ + a.name + "(self) -> VolatilePtr { self.project("@ + spec_decimal(
        a.offset as nat,
    ) + ", "@ + spec_decimal(a.size) + ", Permission::"@ + spec_perm_name(a.declared) + ") }"@
}

/// The rendered impl items of the first `n` accessors, in order.
pub open spec fn spec_impl_items(accs: Seq<AccessorModel>, n: int) -> Seq<char>
    decreases n,
{
    if n <= 0 {
        Seq::empty()
    } else {
        spec_impl_items(accs, n - 1) + spec_impl_item(accs[n - 1])
    }
}

/// The rendered accessor impl for the pointer type.
pub open spec fn spec_impl_text(p: ParsedModel) -> Seq<char> {
    "impl "@ + p.trait_ident + " for VolatilePtr {"@ + spec_impl_items(
        p.accessors,
        p.accessors.len() as int,
    ) + " }"@
}

/// Render one accessor's trait item.
fn trait_item_string(a: &Accessor) -> (r: String)
    ensures
        r@ == spec_trait_item(a@),
{
    let mut s = String::from_str(" fn ");
    s.append(a.name.as_str());
    s.append("(self) -> VolatilePtr;");
    s
}

/// Render one accessor's impl item.
fn impl_item_string(a: &Accessor) -> (r: String)
    ensures
        r@ == spec_impl_item(a@),
{
    let mut s = String::from_str(" fn ");
    s.append(a.name.as_str());
    s.append("(self) -> VolatilePtr { self.project(");
    let off = decimal(a.offset);
    s.append(off.as_str());
    s.append(", ");
    let sz = decimal(a.size);
    s.append(sz.as_str());
    s.append(", Permission::");
    s.append(perm_name_str(a.declared));
    s.append(") }");
    s
}

/// Render the accessor trait of a parsed layout as source text.
pub fn emit_trait(p: &ParsedInput) -> (r: String)
    ensures
        r@ == spec_trait_text(p@),
{
    let mut s = String::from_str("pub trait ");
    s.append(p.trait_ident.as_str());
    s.append(" {");
    let ghost prefix = "pub trait "@ + p@.trait_ident + " {"@;
    proof {
        assert(s@ =~= prefix + spec_trait_items(p@.accessors, 0));
    }
    let n = p.accessors.len();
    let mut i: usize = 0;
    while i < n
        invariant
            i <= n,
            n == p.accessors.len(),
            prefix == "pub trait "@ + p@.trait_ident + " {"@,
            s@ == prefix + spec_trait_items(p@.accessors, i as int),
        decreases n - i,
    {
        let a = &p.accessors[i];
        let item = trait_item_string(a);
        s.append(item.as_str());
        proof {
            assert(p@.accessors[i as int] == p.accessors@[i as int]@);
            assert(s@ =~= prefix + spec_trait_items(p@.accessors, i + 1));
        }
        i = i + 1;
    }
    s.append(" }");
    proof {
        assert(s@ =~= spec_trait_text(p@));
    }
    s
}

/// Render the accessor impl of a parsed layout as source text: each
/// method body is one field-projection call with the field's offset,
/// size and declared permission.
pub fn emit_impl(p: &ParsedInput) -> (r: String)
    ensures
        r@ == spec_impl_text(p@),
{
    let mut s = String::from_str("impl ");
    s.append(p.trait_ident.as_str());
    s.append(" for VolatilePtr {");
    let ghost prefix = "impl "@ + p@.trait_ident + " for VolatilePtr {"@;
    proof {
        assert(s@ =~= prefix + spec_impl_items(p@.accessors, 0));
    }
    let n = p.accessors.len();
    let mut i: usize = 0;
    while i < n
        invariant
            i <= n,
            n == p.accessors.len(),
            prefix == "impl "@ + p@.trait_ident + " for VolatilePtr {"@,
            s@ == prefix + spec_impl_items(p@.accessors, i as int),
        decreases n - i,
    {
        let a = &p.accessors[i];
        let item = impl_item_string(a);
        s.append(item.as_str());
        proof {
            assert(p@.accessors[i as int] == p.accessors@[i as int]@);
            assert(s@ =~= prefix + spec_impl_items(p@.accessors, i + 1));
        }
        i = i + 1;
    }
    s.append(" }");
    proof {
        assert(s@ =~= spec_impl_text(p@));
    }
    s
}

/// Everything the generator produces for a valid layout: the accessor
/// table and the two renderings.
#[derive(Debug)]
pub struct GeneratedAccessors {
    /// The rendered accessor trait.
    pub trait_text: String,
    /// The rendered accessor impl.
    pub impl_text: String,
    /// The accessor table, in field order.
    pub accessors: Vec<Accessor>,
}

/// Generate the accessors of a layout description: validate its shape,
/// resolve offsets and declared permissions, and render the accessor
/// trait and impl.  Succeeds exactly on valid layouts; a rejected
/// layout produces nothing.
pub fn derive_volatile(input: &Layout) -> (r: Result<GeneratedAccessors, LayoutError>)
    requires
        spec_total_size(input@.fields) <= usize::MAX,
    ensures
        r is Ok <==> spec_layout_valid(input@),
        r matches Ok(g) ==> g.trait_text@ == spec_trait_text(spec_parsed(input@))
            && g.impl_text@ == spec_impl_text(spec_parsed(input@)) && g.accessors@.map_values(
            |a: Accessor| a@,
        ) == spec_parsed(input@).accessors,
        r matches Err(e) ==> match e {
            LayoutError::UnnamedField { index } => index < input@.fields.len()
                && input@.fields[index as int].name is None,
            LayoutError::GenericLayout => input@.generics != 0,
            LayoutError::MissingFixedRepr => !spec_repr_fixed(input@.reprs),
            LayoutError::UnknownPermission { index } => index < input@.fields.len()
                && spec_declared_perm(input@.fields[index as int]) is None,
        },
{
    match validate_input(input) {
        Ok(()) => (),
        Err(e) => {
            return Err(e);
        },
    }
    let parsed = match parse_input(input) {
        Ok(p) => p,
        Err(e) => {
            return Err(e);
        },
    };
    let trait_text = emit_trait(&parsed);
    let impl_text = emit_impl(&parsed);
    Ok(GeneratedAccessors { trait_text, impl_text, accessors: parsed.accessors })
}

/// Generator determinism: two layout descriptions with the same content
/// — same struct name, generic count, representation arguments, and
/// fields with the same names, types, sizes and annotations — generate
/// the same accessor set, in the same order, with the same permission
/// bounds, and byte-identical rendered text.
pub proof fn lemma_generator_deterministic(a: &Layout, b: &Layout)
    requires
        a@ == b@,
    ensures
        spec_parsed(a@) == spec_parsed(b@),
        spec_trait_text(spec_parsed(a@)) == spec_trait_text(spec_parsed(b@)),
        spec_impl_text(spec_parsed(a@)) == spec_impl_text(spec_parsed(b@)),
{
}

} // verus!
