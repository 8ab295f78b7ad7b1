use unarray::collect_exact;
use unarray::ArrayFromIter;

#[test]
fn can_collect_array_from_iter() {
    let values = vec![1, 2, 3];

    let ArrayFromIter(array) = ArrayFromIter::<i32, 3>::from_vec(values);
    assert_eq!(array.unwrap().into_vec(), vec![1, 2, 3]);
}

#[test]
fn fails_if_incorrect_number_of_elements() {
    let values = vec![1, 2, 3];
    let ArrayFromIter::<_, 4>(array) = ArrayFromIter::from_vec(values);
    assert!(array.is_none());

    let values = vec![1, 2, 3];
    let ArrayFromIter::<_, 2>(array) = ArrayFromIter::from_vec(values);
    assert!(array.is_none());
}

#[test]
fn collects_exactly_three() {
    let array = collect_exact::<i32, 3>(vec![1, 2, 3]);
    assert_eq!(array.unwrap().into_vec(), vec![1, 2, 3]);
}

#[test]
fn rejects_one_too_many() {
    let array = collect_exact::<i32, 3>(vec![1, 2, 3, 4]);
    assert!(array.is_none());
}

#[test]
fn rejects_one_too_few() {
    let array = collect_exact::<i32, 3>(vec![1, 2]);
    assert!(array.is_none());
}

#[test]
fn collects_empty_into_zero_length() {
    let array = collect_exact::<i32, 0>(vec![]);
    assert_eq!(array.unwrap().len(), 0);
}

#[test]
fn rejects_nonempty_into_zero_length() {
    let array = collect_exact::<i32, 0>(vec![7]);
    assert!(array.is_none());
}

#[test]
fn collected_values_keep_their_order() {
    let array = collect_exact::<&str, 4>(vec!["a", "b", "c", "d"]).unwrap();
    assert_eq!(array.into_vec(), vec!["a", "b", "c", "d"]);
}
