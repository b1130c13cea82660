use volatile::access::Permission;
use volatile::generator::{
    decimal, derive_volatile, permission_of_name, validate_input, FieldDef, Layout, LayoutError,
};
use volatile::VolatileRef;

fn field(name: &str, ty: &str, size: usize, access: Option<&str>) -> FieldDef {
    FieldDef {
        name: Some(String::from(name)),
        ty: String::from(ty),
        size,
        access: access.map(String::from),
    }
}

fn device_config_layout() -> Layout {
    Layout {
        name: String::from("DeviceConfig"),
        generics: 0,
        reprs: vec![String::from("C")],
        fields: vec![
            field("feature_select", "u32", 4, None),
            field("feature", "u32", 4, Some("ReadOnly")),
        ],
    }
}

#[test]
fn test_derive() {
    let result = derive_volatile(&device_config_layout()).expect("a valid layout generates");

    let expected_trait = "pub trait DeviceConfigVolatileFieldAccess { \
         fn feature_select(self) -> VolatilePtr; \
         fn feature(self) -> VolatilePtr; }";
    let expected_impl = "impl DeviceConfigVolatileFieldAccess for VolatilePtr { \
         fn feature_select(self) -> VolatilePtr { self.project(0, 4, Permission::ReadWrite) } \
         fn feature(self) -> VolatilePtr { self.project(4, 4, Permission::ReadOnly) } }";

    assert_eq!(expected_trait, result.trait_text.as_str());
    assert_eq!(expected_impl, result.impl_text.as_str());
}

#[test]
fn test_align() {
    let input = Layout {
        name: String::from("DeviceConfig"),
        generics: 0,
        reprs: vec![String::from("C"), String::from("align")],
        fields: vec![],
    };

    let result = derive_volatile(&input).expect("an empty fixed layout generates");

    let expected_trait = "pub trait DeviceConfigVolatileFieldAccess { }";
    let expected_impl = "impl DeviceConfigVolatileFieldAccess for VolatilePtr { }";

    assert_eq!(expected_trait, result.trait_text.as_str());
    assert_eq!(expected_impl, result.impl_text.as_str());
}

#[test]
fn generated_accessor_table() {
    let g = derive_volatile(&device_config_layout()).unwrap();
    assert_eq!(g.accessors.len(), 2);
    assert_eq!(g.accessors[0].name.as_str(), "feature_select");
    assert_eq!(g.accessors[0].offset, 0);
    assert_eq!(g.accessors[0].size, 4);
    assert_eq!(g.accessors[0].declared, Permission::ReadWrite);
    assert_eq!(g.accessors[1].name.as_str(), "feature");
    assert_eq!(g.accessors[1].offset, 4);
    assert_eq!(g.accessors[1].size, 4);
    assert_eq!(g.accessors[1].declared, Permission::ReadOnly);
}

#[test]
fn generator_is_deterministic() {
    let a = derive_volatile(&device_config_layout()).unwrap();
    let b = derive_volatile(&device_config_layout()).unwrap();
    assert_eq!(a.trait_text, b.trait_text);
    assert_eq!(a.impl_text, b.impl_text);
    assert_eq!(a.accessors.len(), b.accessors.len());
    for (x, y) in a.accessors.iter().zip(b.accessors.iter()) {
        assert_eq!(x.name, y.name);
        assert_eq!(x.ty, y.ty);
        assert_eq!(x.offset, y.offset);
        assert_eq!(x.size, y.size);
        assert_eq!(x.declared, y.declared);
    }
}

#[test]
fn end_to_end_status_and_control() {
    let layout = Layout {
        name: String::from("Device"),
        generics: 0,
        reprs: vec![String::from("C")],
        fields: vec![
            field("status", "u32", 4, Some("ReadOnly")),
            field("control", "u32", 4, None),
        ],
    };
    let g = derive_volatile(&layout).unwrap();

    let mut mem = VolatileRef::from_mut_value(vec![0u8; 8]);

    let status = g.accessors[0].apply(mem.as_mut_ptr());
    assert_eq!(status.permission(), Permission::ReadOnly);
    let control = g.accessors[1].apply(mem.as_mut_ptr());
    assert_eq!(control.permission(), Permission::ReadWrite);

    control.write(&mut mem, &vec![1u8, 2u8, 3u8, 4u8]);
    assert_eq!(control.read(&mem), vec![1u8, 2u8, 3u8, 4u8]);
    assert_eq!(status.read(&mem), vec![0u8; 4]);

    let shared_status = g.accessors[0].apply(mem.as_ptr());
    assert_eq!(shared_status.permission(), Permission::ReadOnly);
    let shared_control = g.accessors[1].apply(mem.as_ptr());
    assert_eq!(shared_control.permission(), Permission::ReadOnly);
}

#[test]
fn unnamed_field_is_rejected() {
    let layout = Layout {
        name: String::from("Pair"),
        generics: 0,
        reprs: vec![String::from("C")],
        fields: vec![FieldDef {
            name: None,
            ty: String::from("u32"),
            size: 4,
            access: None,
        }],
    };
    let err = derive_volatile(&layout).unwrap_err();
    assert_eq!(err, LayoutError::UnnamedField { index: 0 });
}

#[test]
fn generic_layout_is_rejected() {
    let layout = Layout {
        name: String::from("Wrapper"),
        generics: 1,
        reprs: vec![String::from("C")],
        fields: vec![],
    };
    assert_eq!(derive_volatile(&layout).unwrap_err(), LayoutError::GenericLayout);
}

#[test]
fn missing_fixed_repr_is_rejected() {
    let layout = Layout {
        name: String::from("Loose"),
        generics: 0,
        reprs: vec![String::from("packed")],
        fields: vec![field("a", "u8", 1, None)],
    };
    assert_eq!(derive_volatile(&layout).unwrap_err(), LayoutError::MissingFixedRepr);
    let bare = Layout {
        name: String::from("Bare"),
        generics: 0,
        reprs: vec![],
        fields: vec![],
    };
    assert_eq!(derive_volatile(&bare).unwrap_err(), LayoutError::MissingFixedRepr);
}

#[test]
fn unknown_permission_is_rejected() {
    let layout = Layout {
        name: String::from("Odd"),
        generics: 0,
        reprs: vec![String::from("C")],
        fields: vec![
            field("a", "u8", 1, Some("ReadWrite")),
            field("b", "u8", 1, Some("WriteOnce")),
        ],
    };
    assert_eq!(
        derive_volatile(&layout).unwrap_err(),
        LayoutError::UnknownPermission { index: 1 }
    );
}

#[test]
fn transparent_repr_is_accepted() {
    let layout = Layout {
        name: String::from("Cell"),
        generics: 0,
        reprs: vec![String::from("transparent")],
        fields: vec![field("value", "u32", 4, None)],
    };
    assert!(validate_input(&layout).is_ok());
    assert!(derive_volatile(&layout).is_ok());
}

#[test]
fn permission_names_resolve() {
    assert_eq!(
        permission_of_name(&String::from("ReadWrite")),
        Some(Permission::ReadWrite)
    );
    assert_eq!(
        permission_of_name(&String::from("ReadOnly")),
        Some(Permission::ReadOnly)
    );
    assert_eq!(
        permission_of_name(&String::from("WriteOnly")),
        Some(Permission::WriteOnly)
    );
    assert_eq!(
        permission_of_name(&String::from("NoAccess")),
        Some(Permission::NoAccess)
    );
    assert_eq!(permission_of_name(&String::from("readwrite")), None);
    assert_eq!(permission_of_name(&String::from("")), None);
}

#[test]
fn rejection_messages_are_descriptive() {
    let unnamed = LayoutError::UnnamedField { index: 0 };
    assert_eq!(
        unnamed.message().as_str(),
        "accessors can only be generated for structs with named fields"
    );
    let generic = LayoutError::GenericLayout;
    assert_eq!(
        generic.message().as_str(),
        "accessors cannot be generated for generic structs"
    );
    let repr = LayoutError::MissingFixedRepr;
    assert_eq!(
        repr.message().as_str(),
        "the struct must be `#[repr(C)]` or `#[repr(transparent)]`"
    );
    let unknown = LayoutError::UnknownPermission { index: 2 };
    assert_eq!(
        unknown.message().as_str(),
        "a permission annotation must name one of ReadWrite, ReadOnly, WriteOnly, NoAccess"
    );
}

#[test]
fn decimal_rendering() {
    assert_eq!(decimal(0).as_str(), "0");
    assert_eq!(decimal(7).as_str(), "7");
    assert_eq!(decimal(10).as_str(), "10");
    assert_eq!(decimal(1234567890).as_str(), "1234567890");
}
