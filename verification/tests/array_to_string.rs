use clu_str_concat::{ArrayString, MaybeArrayToString, array_to_string, unsafe_array_to_string};

#[test]
fn one_concat() {
    assert_eq!(array_to_string(&["1"] as &[&str]), "1");
}

#[test]
fn two_concat() {
    assert_eq!(array_to_string(&["1", "2"] as &[&str]), "12");
}

#[test]
fn vec_concat() {
    let vec = {
        let mut array = Vec::with_capacity(3);
        array.push("1");
        array.push("2");
        array.push("3");
        array
    };

    assert_eq!(array_to_string(&vec), "123");
    assert_eq!(array_to_string(vec), "123");
}

#[test]
fn full_concat() {
    let array: &[&str] = &["1", "2345", "67", "89", "", "."];

    assert_eq!(array_to_string(array), "123456789.");
}

#[test]
fn null_concat() {
    assert_eq!(array_to_string(&["", "", "", "", "1"] as &[&str]), "1");
}

#[test]
fn string_concat() {
    let array: &[String] = &["1".into(), "2".into(), "3".into()];
    let a_slice: &[&String] = &[array.get(0).unwrap(), array.get(1).unwrap(), array.get(2).unwrap()];

    assert_eq!(array_to_string(array), "123");
    assert_eq!(array_to_string(a_slice), "123");
}

struct MyData<'l, 'a> {
    data: MaybeArrayToString<'l, &'l [&'a str]>,
}

impl<'l, 'a> MyData<'l, 'a> {
    pub fn new(array: &'a [&'a str]) -> Self {
        Self { data: array.into() }
    }

    pub fn as_array(&'l self) -> &'l [&'a str] {
        &self.data
    }

    pub fn into(self) -> String {
        self.data.into()
    }
}

#[test]
fn check_maybearray_to_string() {
    let data = MyData::new(&["test", "aa", "bb"]);
    assert_eq!(data.as_array(), &["test", "aa", "bb"]);
    assert_eq!(data.into(), "testaabb");
}

#[test]
fn empty_array_gives_empty_string() {
    let empty: &[&str] = &[];
    assert_eq!(array_to_string(empty), "");
    assert_eq!(array_to_string(Vec::<String>::new()), "");
}

#[test]
fn all_empty_items_give_empty_string() {
    assert_eq!(array_to_string(&["", "", ""] as &[&str]), "");
}

#[test]
fn empty_items_are_skipped() {
    let with_empty: &[&str] = &["a", "", "bc", "", "", "d", ""];
    let without_empty: &[&str] = &["a", "bc", "d"];
    assert_eq!(array_to_string(with_empty), array_to_string(without_empty));
    assert_eq!(array_to_string(with_empty), "abcd");
}

#[test]
fn concatenation_splits() {
    let whole: &[&str] = &["ab", "c", "de", "f"];
    let left: &[&str] = &["ab", "c"];
    let right: &[&str] = &["de", "f"];
    let joined = array_to_string(left) + &array_to_string(right);
    assert_eq!(array_to_string(whole), joined);
    assert_eq!(joined, "abcdef");
}

#[test]
fn single_item_is_kept_as_it_is() {
    assert_eq!(array_to_string(&["héllo wörld"] as &[&str]), "héllo wörld");
}

#[test]
fn byte_length_is_sum_of_item_lengths() {
    let array: &[&str] = &["黑风雷", "é", "a", "👨‍👩‍👧‍👦", ""];
    let total: usize = array.iter().map(|s| s.len()).sum();
    let result = array_to_string(array);
    assert_eq!(result.len(), total);
    assert_eq!(result, "黑风雷éa👨‍👩‍👧‍👦");
}

#[test]
fn unsafe_array_to_string_ignores_capacity() {
    let array: &[&str] = &["12", "345", "6"];
    assert_eq!(unsafe_array_to_string(array, 6), "123456");
    assert_eq!(unsafe_array_to_string(array, 0), "123456");
    assert_eq!(unsafe_array_to_string(array, 100), "123456");
}

#[test]
fn array_string_len_and_slice() {
    let vec = vec![String::from("x"), String::from("yz")];
    assert_eq!(ArrayString::len(&vec), 2);
    assert_eq!(ArrayString::as_slice(&vec), &["x".to_string(), "yz".to_string()]);
    let items: Vec<&String> = ArrayString::iter(&vec).collect();
    assert_eq!(items, vec![&vec[0], &vec[1]]);
    let by_ref = &vec;
    assert_eq!(ArrayString::len(&by_ref), 2);
}

#[test]
fn maybe_array_to_string_accessors() {
    let array: &[&str] = &["a", "b"];
    let mut m = MaybeArrayToString::new(vec!["a", "b"]);
    assert_eq!(m.as_data(), &vec!["a", "b"]);
    assert_eq!(m.len(), 2);
    m.push("c");
    let copy = MaybeArrayToString::new(array);
    assert_eq!(copy.to_string(), "ab");
    assert_eq!(copy.data(), array);
    assert_eq!(m.clone().into(), "abc");
    assert_eq!(m.data(), vec!["a", "b", "c"]);
    let from: MaybeArrayToString<&[&str]> = MaybeArrayToString::from(array);
    assert_eq!(from.into(), "ab");
}

#[test]
fn array_string_into_iter() {
    let vec = vec![String::from("x"), String::from("yz")];
    let borrowed: Vec<&String> = ArrayString::into_iter(&vec).collect();
    assert_eq!(borrowed, vec![&vec[0], &vec[1]]);
    let slice: &[&str] = &["p", "q"];
    let refs: Vec<&&str> = ArrayString::into_iter(slice).collect();
    assert_eq!(refs, vec![&"p", &"q"]);
    let owned: Vec<String> = ArrayString::into_iter(vec).collect();
    assert_eq!(owned, vec![String::from("x"), String::from("yz")]);
}
