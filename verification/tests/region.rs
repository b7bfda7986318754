use gui_bootstrap::region::{ObjectKind, RegionError, ResourceRegion};

#[test]
fn an_opened_region_is_empty_and_open() {
    let region = ResourceRegion::open();
    assert!(!region.is_drained());
    assert_eq!(region.len(), 0);
    assert!(!region.is_live(0));
    assert_eq!(region.kind_of(0), None);
}

#[test]
fn register_hands_out_handles_in_order() {
    let mut region = ResourceRegion::open();
    assert_eq!(region.register(ObjectKind::MenuBar), Ok(0));
    assert_eq!(region.register(ObjectKind::MenuItem), Ok(1));
    assert_eq!(region.register(ObjectKind::Window), Ok(2));
    assert_eq!(region.len(), 3);
    assert!(region.is_live(0) && region.is_live(1) && region.is_live(2));
    assert!(!region.is_live(3));
    assert_eq!(region.kind_of(0), Some(ObjectKind::MenuBar));
    assert_eq!(region.kind_of(1), Some(ObjectKind::MenuItem));
    assert_eq!(region.kind_of(2), Some(ObjectKind::Window));
    assert_eq!(region.kind_of(3), None);
}

#[test]
fn drain_releases_every_object_once() {
    let mut region = ResourceRegion::open();
    region.register(ObjectKind::Menu).unwrap();
    region.register(ObjectKind::Window).unwrap();
    region.register(ObjectKind::Menu).unwrap();
    let released = region.drain();
    assert_eq!(released, vec![ObjectKind::Menu, ObjectKind::Window, ObjectKind::Menu]);
    assert!(region.is_drained());
    assert_eq!(region.len(), 0);
    assert!(!region.is_live(0) && !region.is_live(1) && !region.is_live(2));
    assert_eq!(region.kind_of(1), None);
}

#[test]
fn draining_again_is_a_no_op() {
    let mut region = ResourceRegion::open();
    region.register(ObjectKind::Window).unwrap();
    assert_eq!(region.drain().len(), 1);
    assert_eq!(region.drain(), vec![]);
    assert_eq!(region.drain(), vec![]);
    assert!(region.is_drained());
    assert_eq!(region.len(), 0);
}

#[test]
fn draining_an_empty_region_closes_it() {
    let mut region = ResourceRegion::open();
    assert_eq!(region.drain(), vec![]);
    assert!(region.is_drained());
}

#[test]
fn a_drained_region_refuses_to_register() {
    let mut region = ResourceRegion::open();
    region.register(ObjectKind::Menu).unwrap();
    region.drain();
    assert_eq!(region.register(ObjectKind::Window), Err(RegionError::Drained));
    assert_eq!(region.len(), 0);
    assert!(region.is_drained());
    assert_eq!(region.drain(), vec![]);
}
