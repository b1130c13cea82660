use volatile::access::{NoAccess, Permission, ReadOnly, ReadWrite, WriteOnly};
use volatile::{VolatilePtr, VolatileRef};

fn all_permissions() -> [Permission; 4] {
    [
        Permission::ReadWrite,
        Permission::ReadOnly,
        Permission::WriteOnly,
        Permission::NoAccess,
    ]
}

#[test]
fn write_then_read_round_trips() {
    let mut mem = VolatileRef::from_mut_value(vec![0u8; 4]);
    let p = mem.as_mut_ptr();
    p.write(&mut mem, &vec![7u8, 8u8, 9u8, 10u8]);
    assert_eq!(p.read(&mem), vec![7u8, 8u8, 9u8, 10u8]);
}

#[test]
fn write_touches_only_its_range() {
    let mut mem = VolatileRef::from_mut_value(vec![1u8, 2u8, 3u8, 4u8, 5u8, 6u8]);
    let p = mem.as_mut_ptr();
    let field = p.project(2, 2, Permission::ReadWrite);
    field.write(&mut mem, &vec![9u8, 9u8]);
    assert_eq!(mem.into_inner(), vec![1u8, 2u8, 9u8, 9u8, 5u8, 6u8]);
}

#[test]
fn duplicate_only_under_shared_permissions() {
    for perm in all_permissions() {
        let p = VolatilePtr::new(0, 4, perm);
        let dup = p.duplicate();
        assert_eq!(dup.is_some(), perm.is_copyable());
        if let Some(d) = dup {
            assert_eq!(d.address(), p.address());
            assert_eq!(d.size_in_bytes(), p.size_in_bytes());
            assert_eq!(d.permission(), p.permission());
        }
    }
}

#[test]
fn write_only_pointer_writes() {
    let mut mem = VolatileRef::from_mut_value(vec![0u8; 2]);
    let p = mem.as_mut_ptr().restrict(WriteOnly);
    assert_eq!(p.permission(), Permission::WriteOnly);
    p.write(&mut mem, &vec![5u8, 6u8]);
    assert_eq!(mem.into_inner(), vec![5u8, 6u8]);
}

#[test]
fn read_only_pointer_reads() {
    let mem = VolatileRef::from_value(vec![3u8, 4u8]);
    let p = mem.as_ptr();
    assert_eq!(p.permission(), Permission::ReadOnly);
    assert_eq!(p.read(&mem), vec![3u8, 4u8]);
}

#[test]
fn shared_borrow_of_write_only_handle_grants_nothing() {
    let mem = VolatileRef::new_restricted(WriteOnly, vec![0u8; 2]);
    assert_eq!(mem.permission(), Permission::WriteOnly);
    let p = mem.as_ptr();
    assert_eq!(p.permission(), Permission::NoAccess);
}

#[test]
fn update_applies_the_function() {
    let mut mem = VolatileRef::from_mut_value(vec![10u8, 20u8]);
    let p = mem.as_mut_ptr();
    p.update(&mut mem, |v: Vec<u8>| v.iter().map(|b| b + 1).collect());
    assert_eq!(mem.into_inner(), vec![11u8, 21u8]);
}

#[test]
fn projection_restricts_permission() {
    for parent in all_permissions() {
        for declared in all_permissions() {
            let p = VolatilePtr::new(0, 8, parent);
            let f = p.project(4, 4, declared);
            assert_eq!(f.permission(), parent.restrict(declared));
            assert_eq!(f.address(), 4);
            assert_eq!(f.size_in_bytes(), 4);
        }
    }
}

#[test]
fn element_bounds_are_checked() {
    let mem = VolatileRef::from_value(vec![0u8; 16]);
    let p = mem.as_ptr();
    assert!(p.element(4, 5).is_none());
    let q = mem.as_ptr();
    let third = q.element(4, 3).expect("index 3 of 4 elements is in bounds");
    assert_eq!(third.address(), 12);
    assert_eq!(third.size_in_bytes(), 4);
    assert_eq!(third.permission(), Permission::ReadOnly);
}

#[test]
fn element_unchecked_computes_the_same_address() {
    let mem = VolatileRef::from_value(vec![0u8; 16]);
    let p = mem.as_ptr();
    let e = p.element_unchecked(4, 2);
    assert_eq!(e.address(), 8);
    assert_eq!(e.size_in_bytes(), 4);
}

#[test]
fn sub_range_bounds_are_checked() {
    let mem = VolatileRef::from_value(vec![0u8; 8]);
    let p = mem.as_ptr();
    assert!(p.sub_range(3, 9).is_none());
    let q = mem.as_ptr();
    assert!(q.sub_range(5, 3).is_none());
    let r = mem.as_ptr();
    let s = r.sub_range(2, 6).expect("2..6 lies inside 8 bytes");
    assert_eq!(s.address(), 2);
    assert_eq!(s.size_in_bytes(), 4);
    let r2 = mem.as_ptr();
    let s2 = r2.sub_range_unchecked(1, 3);
    assert_eq!(s2.address(), 1);
    assert_eq!(s2.size_in_bytes(), 2);
}

#[test]
fn restrict_chain_narrows_to_no_access() {
    let mem = VolatileRef::from_value(vec![0u8; 4]);
    let p = mem.as_ptr().restrict(WriteOnly);
    assert_eq!(p.permission(), Permission::NoAccess);
    let q = mem.as_ptr().restrict(NoAccess);
    assert_eq!(q.permission(), Permission::NoAccess);
}

#[test]
fn reference_constructors_set_permission() {
    let a = VolatileRef::from_mut_value(vec![1u8]);
    assert_eq!(a.permission(), Permission::ReadWrite);
    let b = VolatileRef::from_value(vec![1u8]);
    assert_eq!(b.permission(), Permission::ReadOnly);
    let c = VolatileRef::new_restricted(ReadOnly, vec![1u8]);
    assert_eq!(c.permission(), Permission::ReadOnly);
    assert_eq!(c.len(), 1);
}

#[test]
fn marker_gated_access_round_trips() {
    let mut mem = VolatileRef::from_mut_value(vec![0u8; 3]);
    let p = mem.as_mut_ptr();
    p.write_via(ReadWrite, &mut mem, &vec![1u8, 2u8, 3u8]);
    assert_eq!(p.read_via(ReadWrite, &mem), vec![1u8, 2u8, 3u8]);

    let shared = VolatileRef::from_value(mem.into_inner());
    let q = shared.as_ptr();
    assert_eq!(q.read_via(ReadOnly, &shared), vec![1u8, 2u8, 3u8]);
}

#[test]
fn reference_restrict_keeps_contents() {
    let mem = VolatileRef::from_mut_value(vec![4u8, 5u8]);
    let narrowed = mem.restrict(ReadOnly);
    assert_eq!(narrowed.permission(), Permission::ReadOnly);
    assert_eq!(narrowed.into_inner(), vec![4u8, 5u8]);
}
