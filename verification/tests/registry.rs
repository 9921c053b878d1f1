use reader_manager::{
    DataReaderId, DataReaderManager, FinalizationToken, NativeExtensionsError,
    RegisteredDataReader,
};
use std::rc::Rc;

struct FixedReader {
    items: Vec<i64>,
}

type Manager = DataReaderManager<Rc<FixedReader>, Box<dyn FnOnce()>>;

fn reader(items: &[i64]) -> Rc<FixedReader> {
    Rc::new(FixedReader { items: items.to_vec() })
}

#[test]
fn first_handle_is_one() {
    let mut manager = Manager::new();
    assert_eq!(manager.next_handle(), DataReaderId(1));
    let registered = manager.register_platform_reader(reader(&[1]), 42);
    assert_eq!(
        registered,
        RegisteredDataReader {
            handle: DataReaderId(1),
            finalizable_handle: FinalizationToken { reader: DataReaderId(1), isolate_id: 42 },
        }
    );
    assert_eq!(manager.next_handle(), DataReaderId(2));
}

#[test]
fn registered_reader_is_found() {
    let mut manager = Manager::new();
    let a = manager.register_platform_reader(reader(&[10, 20]), 1);
    let b = manager.register_platform_reader(reader(&[30]), 2);
    assert_eq!(manager.get_reader(a.handle).unwrap().items, vec![10, 20]);
    assert_eq!(manager.get_reader(b.handle).unwrap().items, vec![30]);
    assert!(manager.has_reader(a.handle));
}

#[test]
fn unknown_handle_is_not_found() {
    let mut manager = Manager::new();
    assert_eq!(
        manager.get_reader(DataReaderId(1)).err(),
        Some(NativeExtensionsError::ReaderNotFound)
    );
    manager.register_platform_reader(reader(&[]), 1);
    assert_eq!(
        manager.get_reader(DataReaderId(2)).err(),
        Some(NativeExtensionsError::ReaderNotFound)
    );
    assert_eq!(
        manager.get_reader(DataReaderId(0)).err(),
        Some(NativeExtensionsError::ReaderNotFound)
    );
    assert_eq!(
        manager.get_reader(DataReaderId(-5)).err(),
        Some(NativeExtensionsError::ReaderNotFound)
    );
}

#[test]
fn handles_are_distinct_and_increasing() {
    let mut manager = Manager::new();
    let mut handles = Vec::new();
    for i in 0..50 {
        handles.push(manager.register_platform_reader(reader(&[i]), i % 3).handle);
    }
    for (i, handle) in handles.iter().enumerate() {
        assert_eq!(*handle, DataReaderId(i as i64 + 1));
    }
    for pair in handles.windows(2) {
        assert!(pair[0].0 < pair[1].0);
    }
}

#[test]
fn handles_are_not_reused_after_disposal() {
    let mut manager = Manager::new();
    let a = manager.register_platform_reader(reader(&[1]), 1);
    assert_eq!(manager.dispose_reader(a.handle), Ok(()));
    let b = manager.register_platform_reader(reader(&[2]), 1);
    assert_eq!(b.handle, DataReaderId(2));
    assert_eq!(
        manager.get_reader(a.handle).err(),
        Some(NativeExtensionsError::ReaderNotFound)
    );
    assert_eq!(manager.get_reader(b.handle).unwrap().items, vec![2]);
}

#[test]
fn get_after_dispose_fails() {
    let mut manager = Manager::new();
    let a = manager.register_platform_reader(reader(&[1]), 1);
    let b = manager.register_platform_reader(reader(&[2]), 1);
    assert_eq!(manager.dispose_reader(a.handle), Ok(()));
    assert_eq!(
        manager.get_reader(a.handle).err(),
        Some(NativeExtensionsError::ReaderNotFound)
    );
    assert!(!manager.has_reader(a.handle));
    assert_eq!(manager.get_reader(b.handle).unwrap().items, vec![2]);
}

#[test]
fn dispose_of_absent_handle_succeeds() {
    let mut manager = Manager::new();
    assert_eq!(manager.dispose_reader(DataReaderId(7)), Ok(()));
    assert_eq!(manager.next_handle(), DataReaderId(1));
}

#[test]
fn dispose_then_finalize_releases_once() {
    let mut manager = Manager::new();
    let shared = reader(&[1, 2, 3]);
    let registered = manager.register_platform_reader(shared.clone(), 9);
    assert_eq!(Rc::strong_count(&shared), 2);
    assert_eq!(manager.dispose_reader(registered.handle), Ok(()));
    assert_eq!(Rc::strong_count(&shared), 1);
    manager.finalize(registered.finalizable_handle);
    assert_eq!(Rc::strong_count(&shared), 1);
    assert!(!manager.has_reader(registered.handle));
}

#[test]
fn finalize_then_dispose_releases_once() {
    let mut manager = Manager::new();
    let shared = reader(&[1, 2, 3]);
    let registered = manager.register_platform_reader(shared.clone(), 9);
    manager.finalize(registered.finalizable_handle);
    assert_eq!(Rc::strong_count(&shared), 1);
    assert_eq!(manager.dispose_reader(registered.handle), Ok(()));
    assert_eq!(Rc::strong_count(&shared), 1);
    assert!(!manager.has_reader(registered.handle));
}

#[test]
fn finalize_leaves_other_readers() {
    let mut manager = Manager::new();
    let a = manager.register_platform_reader(reader(&[1]), 1);
    let b = manager.register_platform_reader(reader(&[2]), 2);
    manager.finalize(a.finalizable_handle);
    assert!(!manager.has_reader(a.handle));
    assert!(manager.has_reader(b.handle));
}

#[test]
fn in_flight_reference_outlives_disposal() {
    let mut manager = Manager::new();
    let registered = manager.register_platform_reader(reader(&[5, 6]), 1);
    let held = manager.get_reader(registered.handle).unwrap().clone();
    assert_eq!(manager.dispose_reader(registered.handle), Ok(()));
    assert_eq!(held.items, vec![5, 6]);
}

#[test]
fn can_register_on_fresh_manager() {
    let manager = Manager::new();
    assert!(manager.can_register());
    assert!(manager.can_open_progress());
}

#[test]
fn reader_id_from_integer() {
    assert_eq!(DataReaderId::from(17), DataReaderId(17));
    let id: DataReaderId = (-3).into();
    assert_eq!(id, DataReaderId(-3));
}
