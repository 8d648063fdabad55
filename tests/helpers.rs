use sdrmm::helpers::{
    ignore_config, ignore_or_geq, ignore_or_geq_vec, ignore_or_gt, ignore_or_leq,
    ignore_or_leq_vec, ignore_or_lt, match_in_two_vecs,
};

#[test]
fn zero_bound_is_always_met() {
    for v in [-5i64, 0, 1, 42, i64::MAX, i64::MIN] {
        assert!(ignore_or_gt(v, 0));
        assert!(ignore_or_lt(v, 0));
        assert!(ignore_or_geq(0, v));
        assert!(ignore_or_leq(0, v));
    }
    assert!(ignore_or_geq_vec(&vec![], 0));
    assert!(ignore_or_leq_vec(&vec![], 0));
    assert!(ignore_or_geq_vec(&vec![-3, 2], 0));
}

#[test]
fn scalar_comparators_with_a_bound() {
    assert!(ignore_or_gt(6, 5));
    assert!(!ignore_or_gt(5, 5));
    assert!(ignore_or_lt(4, 5));
    assert!(!ignore_or_lt(5, 5));
    assert!(ignore_or_geq(5, 5));
    assert!(!ignore_or_geq(5, 4));
    assert!(ignore_or_leq(5, 5));
    assert!(!ignore_or_leq(5, 6));
}

#[test]
fn set_comparators_need_one_element() {
    let nps = vec![250, 480, 710];
    assert!(ignore_or_geq_vec(&nps, 700));
    assert!(!ignore_or_geq_vec(&nps, 711));
    assert!(ignore_or_leq_vec(&nps, 250));
    assert!(!ignore_or_leq_vec(&nps, 249));
}

#[test]
fn set_comparators_on_empty_set_with_bound() {
    assert!(!ignore_or_geq_vec(&vec![], 1));
    assert!(!ignore_or_leq_vec(&vec![], 1));
}

#[test]
fn ignore_config_only_for_zero() {
    assert!(ignore_config(0));
    assert!(!ignore_config(1));
    assert!(!ignore_config(-1));
}

#[test]
fn strings_shared_between_vectors() {
    let a = vec!["Marathon".to_string(), "Tech".to_string()];
    let b = vec!["Speed".to_string(), "Tech".to_string()];
    assert!(match_in_two_vecs(a.clone(), b));
    assert!(!match_in_two_vecs(a.clone(), vec!["tech".to_string()]));
    assert!(!match_in_two_vecs(vec![], a));
}

#[test]
fn comparators_on_other_integer_types() {
    assert!(ignore_or_lt(3u32, 5u32));
    assert!(!ignore_or_lt(5u32, 5u32));
    assert!(ignore_or_lt(9u32, 0u32));
    assert!(ignore_or_geq(60i32, 61i32));
    assert!(!ignore_or_geq(60i32, 30i32));
    assert!(ignore_or_leq_vec(&vec![7u64, 3u64], 4u64));
    assert!(!ignore_or_gt(-1i32, 0i32) || ignore_config(0i32));
    assert!(!ignore_config(7u64));
}
