use unarray::make_storage;
use unarray::Storage;

#[test]
fn storage_starts_empty() {
    let storage: Storage<i32, 4> = make_storage();
    assert_eq!(storage.written(), 0);
}

#[test]
fn storage_write_and_finalize() {
    let mut storage: Storage<i32, 3> = make_storage();
    storage.write_next(10);
    storage.write_next(20);
    assert_eq!(storage.written(), 2);
    storage.write_next(30);
    let array = storage.finalize();
    assert_eq!(array.len(), 3);
    assert_eq!(*array.get(0), 10);
    assert_eq!(*array.get(2), 30);
    assert_eq!(array.into_vec(), vec![10, 20, 30]);
}

#[test]
fn storage_holds_non_copy_values() {
    let mut storage: Storage<String, 2> = make_storage();
    storage.write_next(String::from("first"));
    storage.write_next(String::from("second"));
    let array = storage.finalize();
    assert_eq!(array.into_vec(), vec![String::from("first"), String::from("second")]);
}
