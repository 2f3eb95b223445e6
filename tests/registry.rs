use stratisd_core::actions::{CreateAction, DeleteAction, RenameAction};
use stratisd_core::error::StratisError;
use stratisd_core::ident::PoolUuid;
use stratisd_core::registry::PoolRegistry;
use stratisd_core::types::Name;

#[test]
fn create_then_create_again() {
    let mut reg = PoolRegistry::new();
    let u = PoolUuid(5);
    let name = Name::new("data".to_string());
    let first = reg.create_pool(u, &name).unwrap();
    assert!(first.is_changed());
    assert!(matches!(first, CreateAction::Created(p) if p == u));
    let second = reg.create_pool(u, &name).unwrap();
    assert!(!second.is_changed());
    assert!(matches!(second, CreateAction::Identity));
    assert!(reg.contains(u));
}

#[test]
fn create_under_another_name_fails() {
    let mut reg = PoolRegistry::new();
    let u = PoolUuid(9);
    reg.create_pool(u, &Name::new("a".to_string())).unwrap();
    let r = reg.create_pool(u, &Name::new("b".to_string()));
    assert!(matches!(r, Err(StratisError::PoolNameConflict(p)) if p == u));
}

#[test]
fn delete_reports_presence() {
    let mut reg = PoolRegistry::new();
    let u = PoolUuid(1);
    assert!(matches!(reg.delete_pool(u), DeleteAction::Identity));
    reg.create_pool(u, &Name::new("x".to_string())).unwrap();
    let d = reg.delete_pool(u);
    assert!(d.is_changed());
    assert_eq!(d.changed(), Some(u));
    assert!(!reg.contains(u));
    assert!(!reg.delete_pool(u).is_changed());
}

#[test]
fn rename_outcomes() {
    let mut reg = PoolRegistry::new();
    let u = PoolUuid(3);
    let a = Name::new("a".to_string());
    let b = Name::new("b".to_string());
    assert!(matches!(reg.rename_pool(u, &a), RenameAction::NoSource));
    reg.create_pool(u, &a).unwrap();
    assert!(matches!(reg.rename_pool(u, &a), RenameAction::Identity));
    let r = reg.rename_pool(u, &b);
    assert!(r.is_changed());
    assert_eq!(r.changed(), Some(u));
    assert!(matches!(reg.create_pool(u, &b), Ok(CreateAction::Identity)));
}
