use clu_str_concat::{
    ArrayStringConcat, ArrayStringConcatIter, ShadowLifeTime, array_string_concat,
    unsafe_array_string_concat,
};

#[test]
fn array_string_concat_of_slice() {
    let data: &[&str] = &["123", "456", "789", "000"];
    assert_eq!(array_string_concat(data), "123456789000");
}

#[test]
fn array_string_concat_of_vec_of_strings() {
    let data = vec![String::from("1"), String::from("2345"), String::new(), String::from(".")];
    assert_eq!(array_string_concat(data), "12345.");
}

#[test]
fn array_string_concat_of_nothing() {
    let data: Vec<&str> = Vec::new();
    assert_eq!(array_string_concat(data), "");
    let only_empty: &[&str] = &["", ""];
    assert_eq!(array_string_concat(only_empty), "");
}

#[test]
fn array_string_concat_byte_length() {
    let data: &[&str] = &["黑", "风", "雷", "ü"];
    let result = array_string_concat(data);
    assert_eq!(result.len(), 3 + 3 + 3 + 2);
    assert_eq!(result, "黑风雷ü");
}

#[test]
fn unsafe_array_string_concat_ignores_capacity() {
    let data: &[&str] = &["ab", "cd"];
    assert_eq!(unsafe_array_string_concat(data, 4), "abcd");
    assert_eq!(unsafe_array_string_concat(data, 1), "abcd");
}

#[test]
fn array_string_concat_trait_methods() {
    let data: Vec<&str> = vec!["x", "y", "z"];
    assert_eq!(ArrayStringConcat::len(&data), 3);
    assert_eq!(ArrayStringConcat::as_slice(&data), &["x", "y", "z"]);
    let items: Vec<&&str> = ArrayStringConcat::iter(&data).collect();
    assert_eq!(items, vec![&"x", &"y", &"z"]);
    let slice: &[&str] = &data;
    assert_eq!(<[&str] as ArrayStringConcat<&str>>::len(slice), 3);
}

#[test]
fn into_iter_of_vec_hands_out_owned_items() {
    let data: Vec<String> = vec![String::from("a"), String::from("b")];
    let mut it = ArrayStringConcat::into_iter(data);
    assert_eq!(it.next(), Some(String::from("a")));
    assert_eq!(it.next(), Some(String::from("b")));
    assert_eq!(it.next(), None);
}

#[test]
fn into_iter_of_slice_hands_out_references() {
    let data: &[&str] = &["a", "b"];
    let items: Vec<&&str> = ArrayStringConcat::into_iter(data).collect();
    assert_eq!(items, vec![&"a", &"b"]);
}

#[test]
fn owning_iterator_hands_out_items_in_order() {
    let mut it: ArrayStringConcatIter<Vec<String>, String> =
        ArrayStringConcatIter::new(vec![String::from("q"), String::from("r")]);
    assert_eq!(it.next(), Some(&String::from("q")));
    assert_eq!(it.next(), Some(&String::from("r")));
    assert_eq!(it.next(), None);
    assert_eq!(it.next(), None);
}

#[test]
fn shadow_lifetime_holds_its_value() {
    let mut s: ShadowLifeTime<u32> = ShadowLifeTime::new(5);
    assert_eq!(*s, 5);
    *s = 7;
    assert_eq!(*s, 7);
}

#[test]
fn array_to_string_and_array_string_concat_agree() {
    let v: Vec<String> = vec![String::from("ab"), String::new(), String::from("ç")];
    assert_eq!(clu_str_concat::array_to_string(&v), array_string_concat(v.clone()));
}
