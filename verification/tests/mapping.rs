//! Runtime scenarios for the constructor-union mapping: the
//! demonstration values over string slices and integers, tag
//! preservation, the identity and composition laws on concrete values,
//! and the base containers' order, length and emptiness behaviour.

use std::cell::Cell;

use coprod::cons::copk_inl;
use coprod::cons::copk_inr;
use coprod::laws::K3;
use coprod::CNilK;
use coprod::CopK;
use coprod::Functor;

type Inner<A> = CopK<A, Option<A>, CNilK<A>>;

#[test]
fn maps_str_sequence_arm() {
    let ck: K3<&str> = copk_inl(vec!["toto"]);
    let mapped: K3<String> = ck.map(|x: &&str| format!("{}_{}", x, "tata1"));
    let expected: K3<String> = copk_inl(vec!["toto_tata1".to_string()]);
    assert_eq!(mapped, expected);
}

#[test]
fn maps_str_optional_arm() {
    let inner: Inner<&str> = copk_inl(Some("toto"));
    let ck2: K3<&str> = copk_inr(inner);
    let mapped: K3<String> = ck2.map(|x: &&str| format!("{}_{}", x, "tata2"));
    let expected_inner: Inner<String> = copk_inl(Some("toto_tata2".to_string()));
    let expected: K3<String> = copk_inr(expected_inner);
    assert_eq!(mapped, expected);
}

#[test]
fn maps_int_sequence_arm() {
    let ckk: K3<i32> = copk_inl(vec![42]);
    let mapped: K3<i32> = ckk.map(|x: &i32| x + 1);
    let expected: K3<i32> = copk_inl(vec![43]);
    assert_eq!(mapped, expected);
}

#[test]
fn maps_int_optional_arm() {
    let inner: Inner<i32> = copk_inl(Some(42));
    let ckk2: K3<i32> = copk_inr(inner);
    let mapped: K3<i32> = ckk2.map(|x: &i32| x + 1);
    let expected_inner: Inner<i32> = copk_inl(Some(43));
    let expected: K3<i32> = copk_inr(expected_inner);
    assert_eq!(mapped, expected);
}

#[test]
fn preserves_left_tag() {
    let ck: K3<i32> = copk_inl(vec![1, 2]);
    let mapped: K3<i32> = ck.map(|x: &i32| x * 10);
    assert!(matches!(mapped, CopK::Inl(..)));
}

#[test]
fn preserves_right_tag() {
    let inner: Inner<i32> = copk_inl(Some(7));
    let ck: K3<i32> = copk_inr(inner);
    let mapped: K3<i32> = ck.map(|x: &i32| x * 10);
    assert!(matches!(mapped, CopK::Inr(CopK::Inl(..), _)));
}

#[test]
fn identity_map_changes_nothing() {
    let ck: K3<i32> = copk_inl(vec![3, 1, 4]);
    let mapped: K3<i32> = ck.map(|x: &i32| *x);
    let same: K3<i32> = copk_inl(vec![3, 1, 4]);
    assert_eq!(mapped, same);

    let inner: Inner<i32> = copk_inl(Some(9));
    let ck2: K3<i32> = copk_inr(inner);
    let mapped2: K3<i32> = ck2.map(|x: &i32| *x);
    let same_inner: Inner<i32> = copk_inl(Some(9));
    let same2: K3<i32> = copk_inr(same_inner);
    assert_eq!(mapped2, same2);
}

#[test]
fn two_maps_equal_one_composed_map() {
    let ck: K3<i32> = copk_inl(vec![1, 2, 3]);
    let step1: K3<i32> = ck.map(|x: &i32| x + 1);
    let twice: K3<i32> = step1.map(|x: &i32| x * 2);
    let again: K3<i32> = copk_inl(vec![1, 2, 3]);
    let composed: K3<i32> = again.map(|x: &i32| (x + 1) * 2);
    assert_eq!(twice, composed);
}

#[test]
fn sequence_keeps_order_and_length() {
    let v: Vec<i32> = vec![5, -3, 0, 12];
    let mapped: Vec<i32> = Functor::map(&v, |x: &i32| x - 1);
    assert_eq!(mapped, vec![4, -4, -1, 11]);

    let single: Vec<&str> = vec!["toto"];
    let appended: Vec<String> = Functor::map(&single, |x: &&str| format!("{}_{}", x, "tata1"));
    assert_eq!(appended, vec!["toto_tata1".to_string()]);

    let empty: Vec<i32> = vec![];
    let still_empty: Vec<i32> = Functor::map(&empty, |x: &i32| x + 1);
    assert!(still_empty.is_empty());
}

#[test]
fn optional_keeps_emptiness_and_never_calls_on_empty() {
    let calls = Cell::new(0u32);
    let none: Option<i32> = None;
    let mapped: Option<i32> = Functor::map(&none, |x: &i32| {
        calls.set(calls.get() + 1);
        x + 1
    });
    assert_eq!(mapped, None);
    assert_eq!(calls.get(), 0);

    let some: Option<&str> = Some("toto");
    let appended: Option<String> = Functor::map(&some, |x: &&str| format!("{}_{}", x, "tata2"));
    assert_eq!(appended, Some("toto_tata2".to_string()));
    assert_eq!(calls.get(), 0);
}
