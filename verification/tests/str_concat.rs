use clu_str_concat::str_concat;

const A: &'static str = "123";
const B: &'static str = "456";
const C: &'static str = "789";

#[test]
fn one_concat_macros() {
    assert_eq!(str_concat(&["."]), ".");
}

#[test]
fn two_concat_macros() {
    assert_eq!(str_concat(&[".", ".."]), "...");
}

#[test]
fn full_concat_macros() {
    let str = str_concat(&[A, B, C, "."]);
    assert_eq!(str, "123456789.");
}

#[test]
fn str_concat_of_nothing_is_empty() {
    assert_eq!(str_concat(&[]), "");
}

#[test]
fn str_concat_keeps_repeated_parts() {
    const D: &'static str = "A";
    assert_eq!(str_concat(&[D, D, D, "."]), "AAA.");
}
