//! Laws of concatenation, stated over the text model that the contracts of
//! `array_to_string`, `array_string_concat` and `str_concat` use.

use vstd::prelude::*;

use crate::array_string_concat::ArrayStringConcat;
use crate::array_to_string::ArrayString;
use crate::text::{AsStr, concat_view, str_views};

verus! {

/// An array with no items concatenates to the empty text.
pub proof fn lemma_concat_empty<T: AsStr>(items: Seq<T>)
    requires
        items.len() == 0,
    ensures
        concat_view(items) == Seq::<char>::empty(),
{
    assert(str_views(items) =~= Seq::<Seq<char>>::empty());
    assert(concat_view(items) =~= Seq::<char>::empty());
}

/// An array of one item concatenates to the text of that item.
pub proof fn lemma_concat_single<T: AsStr>(item: T)
    ensures
        concat_view(seq![item]) == item.str_view(),
{
    let views = str_views(seq![item]);
    assert(views =~= seq![item.str_view()]);
    views.lemma_flatten_one_element();
}

/// Concatenating the items of `a` followed by those of `b` gives the
/// concatenation of `a` followed by the concatenation of `b`.
pub proof fn lemma_concat_split<T: AsStr>(a: Seq<T>, b: Seq<T>)
    ensures
        concat_view(a + b) == concat_view(a) + concat_view(b),
{
    assert(str_views(a + b) =~= str_views(a) + str_views(b));
    vstd::seq_lib::lemma_flatten_concat(str_views(a), str_views(b));
}

/// The items of `items` whose text is not empty, in order.
pub open spec fn without_empty<T: AsStr>(items: Seq<T>) -> Seq<T> {
    items.filter(|x: T| x.str_view().len() > 0)
}

/// Items with empty text do not change the concatenation: leaving them out
/// gives the same result.
pub proof fn lemma_concat_skips_empty<T: AsStr>(items: Seq<T>)
    ensures
        concat_view(without_empty(items)) == concat_view(items),
    decreases items.len(),
{
    reveal(Seq::filter);
    if items.len() == 0 {
        assert(without_empty(items) =~= items);
    } else {
        let init = items.drop_last();
        let last = items.last();
        lemma_concat_skips_empty(init);
        assert(init + seq![last] =~= items);
        lemma_concat_split(init, seq![last]);
        lemma_concat_single(last);
        if last.str_view().len() > 0 {
            assert(without_empty(items) == without_empty(init).push(last));
            assert(without_empty(init).push(last) =~= without_empty(init) + seq![last]);
            lemma_concat_split(without_empty(init), seq![last]);
        } else {
            assert(without_empty(items) == without_empty(init));
            assert(last.str_view() =~= Seq::<char>::empty());
            assert(concat_view(init) + last.str_view() =~= concat_view(init));
        }
    }
}

/// `array_to_string` and `array_string_concat` read a `Vec` as the same
/// items, so their contracts give the same text for it.
pub proof fn lemma_vec_concatenations_agree<'a, T: AsStr>(v: Vec<T>)
    ensures
        concat_view(<Vec<T> as ArrayString<'a>>::items(&v)) == concat_view(
            <Vec<T> as ArrayStringConcat<'a, T>>::items(&v),
        ),
{
}

/// The text of a `&str` item is the whole string slice.
pub proof fn lemma_str_item_text<'a>(s: &'a str)
    ensures
        <&'a str as AsStr>::str_view(&s) == s@,
{
}

/// The text of a `String` item is the whole string.
pub proof fn lemma_string_item_text(s: String)
    ensures
        s.str_view() == s@,
{
}

/// The text of a `&String` item is the whole string it points to.
pub proof fn lemma_string_ref_item_text<'a>(s: &'a String)
    ensures
        <&'a String as AsStr>::str_view(&s) == s@,
{
}

/// A list of string slices concatenates to the whole of each slice, one
/// after the other: the text that `str_concat` returns.
pub proof fn lemma_str_parts_concat<'a>(parts: Seq<&'a str>)
    ensures
        concat_view(parts) == parts.map_values(|s: &'a str| s@).flatten(),
{
    assert(str_views(parts) =~= parts.map_values(|s: &'a str| s@));
}

/// The items of a `Vec`, read as an `ArrayString`, are all its elements, in
/// order.
pub proof fn lemma_vec_array_string_items<'a, T: AsStr>(v: Vec<T>)
    ensures
        <Vec<T> as ArrayString<'a>>::items(&v) == v@,
{
}

/// The items of a slice, read as an `ArrayString`, are all its elements, in
/// order.
pub proof fn lemma_slice_array_string_items<'a, T: AsStr>(s: &'a [T])
    ensures
        <&'a [T] as ArrayString<'a>>::items(&s) == s@,
{
}

/// Reading an array through a reference gives the same items as reading the
/// array itself, so `array_to_string(&a)` and `array_to_string(a)` give the
/// same text.
pub proof fn lemma_ref_array_string_items<'a, S: ArrayString<'a>>(a: &'a S)
    ensures
        <&'a S as ArrayString<'a>>::items(&a) == a.items(),
        concat_view(<&'a S as ArrayString<'a>>::items(&a)) == concat_view(a.items()),
{
}

/// The items of a `Vec`, read as an `ArrayStringConcat`, are all its
/// elements, in order.
pub proof fn lemma_vec_array_string_concat_items<'a, T>(v: Vec<T>)
    ensures
        <Vec<T> as ArrayStringConcat<'a, T>>::items(&v) == v@,
{
}

/// The items of a slice reference, read as an `ArrayStringConcat`, are all
/// the slice's elements, in order.
pub proof fn lemma_slice_ref_array_string_concat_items<'a, T>(s: &'a [T])
    ensures
        <&'a [T] as ArrayStringConcat<'a, T>>::items(&s) == s@,
{
}

/// The items of a slice, read as an `ArrayStringConcat`, are all its
/// elements, in order.
pub proof fn lemma_slice_array_string_concat_items<'a, T: 'a>(s: &[T])
    ensures
        <[T] as ArrayStringConcat<'a, T>>::items(s) == s@,
{
}

} // verus!
