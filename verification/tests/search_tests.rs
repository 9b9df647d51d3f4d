use binsearch::search::{binary_search, linear_search};

#[test]
fn empty_sequence_is_absent() {
    let v: Vec<u32> = vec![];
    assert_eq!(binary_search(&v, 5), None);
}

#[test]
fn singleton_match_is_found() {
    let v: Vec<u32> = vec![3];
    assert_eq!(binary_search(&v, 3), Some(0));
}

#[test]
fn singleton_mismatch_is_absent() {
    let v: Vec<u32> = vec![3];
    assert_eq!(binary_search(&v, 4), None);
}

#[test]
fn duplicate_target_yields_some_matching_index() {
    let v: Vec<u32> = vec![1, 2, 2, 2, 5];
    let r = binary_search(&v, 2);
    let i = r.expect("target is present, search must find it");
    assert!((1..=3).contains(&i));
    assert_eq!(v[i], 2);
}

#[test]
fn absent_target_between_elements() {
    let v: Vec<u32> = vec![1, 3, 5, 7];
    assert_eq!(binary_search(&v, 4), None);
}

#[test]
fn all_equal_full_length_sequence() {
    let v: Vec<u32> = vec![0; 8];
    let r = binary_search(&v, 0);
    let i = r.expect("target is present, search must find it");
    assert!(i < v.len());
    assert_eq!(v[i], 0);
}

#[test]
fn boundary_elements_are_found() {
    let v: Vec<u32> = vec![1, 2, 3, 5, 6, 7];
    for &t in &[1u32, 7] {
        let i = binary_search(&v, t).expect("present value");
        assert_eq!(v[i], t);
    }
}

#[test]
fn every_present_value_is_found_in_sorted_input() {
    let v: Vec<u32> = vec![0, 0, 1, 3, 3, 3, 7];
    for t in 0u32..9 {
        let r = binary_search(&v, t);
        let present = v.iter().any(|&x| x == t);
        match r {
            Some(i) => {
                assert!(present);
                assert_eq!(v[i], t);
            }
            None => assert!(!present),
        }
    }
}

#[test]
fn unsorted_input_still_returns_in_bounds_or_absent() {
    let v: Vec<u32> = vec![5, 1, 4, 2];
    for t in 0u32..7 {
        match binary_search(&v, t) {
            Some(i) => {
                assert!(i < v.len());
                assert_eq!(v[i], t);
            }
            None => {}
        }
    }
}

#[test]
fn linear_search_finds_first_index() {
    let v: Vec<u32> = vec![1, 2, 2, 2, 5];
    assert_eq!(linear_search(&v, 2), Some(1));
    assert_eq!(linear_search(&v, 1), Some(0));
    assert_eq!(linear_search(&v, 5), Some(4));
    assert_eq!(linear_search(&v, 4), None);
    let empty: Vec<u32> = vec![];
    assert_eq!(linear_search(&empty, 0), None);
}
