use stratisd_core::actions::{
    CreateAction, MappingCreateAction, MappingDeleteAction, SetCreateAction, SetDeleteAction,
    SetUnlockAction,
};

#[test]
fn single_outcomes() {
    assert_eq!(CreateAction::Created(4u32).changed(), Some(4));
    assert_eq!(CreateAction::<u32>::Identity.changed(), None);
    assert!(MappingCreateAction::ValueChanged(1u8).is_changed());
    assert!(MappingCreateAction::Created(1u8).is_changed());
    assert!(!MappingCreateAction::<u8>::Identity.is_changed());
    assert_eq!(MappingDeleteAction::Deleted("k").changed(), Some("k"));
    assert!(!MappingDeleteAction::<u8>::Identity.is_changed());
}

#[test]
fn bulk_outcomes() {
    assert!(!SetCreateAction::<u8>::empty().is_changed());
    assert!(SetCreateAction::new(vec![1u8, 2]).is_changed());
    assert_eq!(SetCreateAction::new(vec![1u8, 2]).changed, vec![1, 2]);
    assert!(!SetDeleteAction::<u8>::new(Vec::new()).is_changed());
    assert!(SetDeleteAction::new(vec![3u8]).is_changed());
    let u = SetUnlockAction::new(Vec::new(), vec![7u8]);
    assert!(!u.is_changed());
    assert_eq!(u.still_locked, vec![7]);
    assert!(SetUnlockAction::new(vec![1u8], Vec::new()).is_changed());
    assert!(!SetUnlockAction::<u8>::empty().is_changed());
}
