//! Runtime scenarios for the plain union layer: every chain whose tail
//! is the terminator or another well-formed union can be built in
//! either arm, and the populated arm is the one observed afterwards.
//! (A chain with any other tail is not a type at all, so its rejection
//! happens at compile time and has no runtime test.)

use coprod::union::cop_inl;
use coprod::union::cop_inr;
use coprod::CNil;
use coprod::Cop;

#[test]
fn builds_single_case_union() {
    let c: Cop<u32, CNil> = cop_inl(5);
    assert!(matches!(c, Cop::Inl(5)));
}

#[test]
fn builds_three_case_union_in_middle_arm() {
    let c: Cop<u32, Cop<&str, Cop<u32, CNil>>> = cop_inr(cop_inl("toto"));
    match c {
        Cop::Inr(Cop::Inl(s)) => assert_eq!(s, "toto"),
        _ => panic!("wrong arm"),
    }
}

#[test]
fn builds_two_case_union_in_right_arm() {
    let c2: Cop<u32, Cop<&str, CNil>> = cop_inr(cop_inl("toto"));
    assert!(matches!(c2, Cop::Inr(Cop::Inl("toto"))));
}

#[test]
fn left_arm_keeps_its_value() {
    let c: Cop<u32, Cop<&str, CNil>> = cop_inl(7);
    match c {
        Cop::Inl(n) => assert_eq!(n, 7),
        Cop::Inr(_) => panic!("wrong arm"),
    }
}
