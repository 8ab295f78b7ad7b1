use unarray::collect_exact;
use unarray::Array;
use unarray::UnarrayArrayExt;

fn array_of(values: Vec<i32>) -> Array<i32, 3> {
    collect_exact(values).unwrap()
}

#[test]
fn test_map_option() {
    let array = array_of(vec![1, 2, 3]);
    let result = array.map_option(|i| Some(i * 2)).unwrap();
    assert_eq!(result.into_vec(), vec![2, 4, 6]);
}

#[test]
#[should_panic]
fn test_map_option_panic() {
    let array = array_of(vec![1, 2, 3]);
    array.map_option(|i| {
        if i > 2 {
            panic!();
        }

        Some(i)
    });
}

#[test]
fn test_map_result() {
    let array = array_of(vec![1, 2, 3]);
    let result: Result<_, ()> = array.map_result(|i| Ok(i * 2));
    assert_eq!(result.unwrap().into_vec(), vec![2, 4, 6]);
}

#[test]
#[should_panic]
fn test_map_result_panic() {
    let array = array_of(vec![1, 2, 3]);
    let _ = array.map_result(|i| -> Result<i32, ()> {
        if i > 2 {
            panic!();
        }

        Ok(i)
    });
}

#[test]
fn map_doubles_elements() {
    let array = array_of(vec![1, 2, 3]);
    let doubled = array.map(|i| i * 2);
    assert_eq!(doubled.into_vec(), vec![2, 4, 6]);
}

#[test]
fn map_result_parses_strings() {
    let strings = collect_exact::<&str, 2>(vec!["123", "234"]).unwrap();
    let numbers = strings.map_result(|s| s.parse::<i32>());
    assert_eq!(numbers.unwrap().into_vec(), vec![123, 234]);
}

#[test]
fn map_result_carries_first_parse_error() {
    let strings = collect_exact::<&str, 2>(vec!["123", "uh oh"]).unwrap();
    let result = strings.map_result(|s| s.parse::<i32>());
    let expected = "uh oh".parse::<i32>().unwrap_err();
    assert_eq!(result.unwrap_err(), expected);
}

#[test]
fn map_option_absence_fails() {
    let array = array_of(vec![1, 2, 3]);
    let result = array.map_option(|i| if i == 2 { None } else { Some(i) });
    assert!(result.is_none());
}

#[test]
fn map_result_matches_map_when_all_succeed() {
    let via_map = array_of(vec![4, 5, 6]).map(|i| i + 10);
    let via_map_result: Result<_, ()> = array_of(vec![4, 5, 6]).map_result(|i| Ok(i + 10));
    assert_eq!(via_map_result.unwrap().into_vec(), via_map.into_vec());
}

#[test]
fn map_option_matches_map_when_all_succeed() {
    let via_map = array_of(vec![4, 5, 6]).map(|i| i + 10);
    let via_map_option = array_of(vec![4, 5, 6]).map_option(|i| Some(i + 10));
    assert_eq!(via_map_option.unwrap().into_vec(), via_map.into_vec());
}

#[test]
fn map_visits_elements_in_order() {
    let log = std::cell::RefCell::new(Vec::new());
    let array = array_of(vec![10, 20, 30]);
    let result = array.map(|i| {
        log.borrow_mut().push(i);
        i
    });
    assert_eq!(result.into_vec(), vec![10, 20, 30]);
    assert_eq!(log.into_inner(), vec![10, 20, 30]);
}

#[test]
fn map_result_stops_calling_after_first_error() {
    let visited = std::cell::RefCell::new(Vec::new());
    let array = array_of(vec![1, 2, 3]);
    let result = array.map_result(|i| -> Result<i32, String> {
        visited.borrow_mut().push(i);
        if i == 2 {
            Err(format!("bad element {}", i))
        } else {
            Ok(i)
        }
    });
    assert_eq!(result.unwrap_err(), "bad element 2");
    assert_eq!(visited.into_inner(), vec![1, 2]);
}
