//! Arrays of string-like items and their concatenation into one `String`.

use core::marker::PhantomData;
use vstd::prelude::*;

use crate::text::{
    AsStr, byte_len, concat_items, concat_view, items_byte_size, lemma_byte_len_zero,
    lemma_total_bytes_flatten, str_views, total_bytes,
};

verus! {

/// An array of string-like items that can be concatenated.
pub trait ArrayString<'a> {
    /// The type of the items.
    type Item: AsStr;

    /// The items of the array, in order.
    spec fn items(&self) -> Seq<Self::Item>;

    /// Borrows the items as a slice.
    fn as_slice(&self) -> (s: &[Self::Item])
        ensures
            s@ == self.items(),
    ;

    /// The number of items.
    fn len(&self) -> (n: usize)
        ensures
            n == self.items().len(),
    ;

    /// An iterator over the items, in order.
    fn iter<'i>(&'i self) -> (it: core::slice::Iter<'i, Self::Item>)
        ensures
            vstd::std_specs::slice::into_iter_elts(it) == self.items(),
    {
        let s = self.as_slice();
        let it = s.iter();
        proof {
            broadcast use vstd::std_specs::slice::axiom_spec_slice_iter;
            assert(s@.as_ref().unref() =~= s@);
        }
        it
    }

    /// The iterator that `into_iter` gives.
    type IntoIter;

    /// The items that an iterator of type `IntoIter` hands out, from its start.
    spec fn iter_items(it: Self::IntoIter) -> Seq<Self::Item> where Self: Sized;

    /// Turns the array into an iterator over its items.
    fn into_iter(self) -> (it: Self::IntoIter) where Self: Sized
        ensures
            Self::iter_items(it) == self.items(),
    ;
}

impl<'a, S: ArrayString<'a>> ArrayString<'a> for &'a S {
    type Item = S::Item;

    open spec fn items(&self) -> Seq<Self::Item> {
        (**self).items()
    }

    fn as_slice(&self) -> (s: &[Self::Item]) {
        S::as_slice(*self)
    }

    fn len(&self) -> (n: usize) {
        S::len(*self)
    }

    type IntoIter = core::slice::Iter<'a, S::Item>;

    open spec fn iter_items(it: core::slice::Iter<'a, S::Item>) -> Seq<S::Item> {
        vstd::std_specs::slice::into_iter_elts(it)
    }

    fn into_iter(self) -> (it: core::slice::Iter<'a, S::Item>) {
        S::iter(self)
    }
}

impl<'a, T: AsStr> ArrayString<'a> for Vec<T> {
    type Item = T;

    open spec fn items(&self) -> Seq<T> {
        self@
    }

    fn as_slice(&self) -> (s: &[T]) {
        self.as_slice()
    }

    fn len(&self) -> (n: usize) {
        self.len()
    }

    type IntoIter = std::vec::IntoIter<T>;

    open spec fn iter_items(it: std::vec::IntoIter<T>) -> Seq<T> {
        vstd::std_specs::vec::into_iter_elts(it)
    }

    fn into_iter(self) -> (it: std::vec::IntoIter<T>) {
        let it = IntoIterator::into_iter(self);
        proof {
            broadcast use vstd::std_specs::vec::axiom_spec_into_iter;

        }
        it
    }
}

impl<'a, T: AsStr> ArrayString<'a> for &'a [T] {
    type Item = T;

    open spec fn items(&self) -> Seq<T> {
        (**self)@
    }

    fn as_slice(&self) -> (s: &[T]) {
        *self
    }

    fn len(&self) -> (n: usize) {
        (**self).len()
    }

    type IntoIter = core::slice::Iter<'a, T>;

    open spec fn iter_items(it: core::slice::Iter<'a, T>) -> Seq<T> {
        vstd::std_specs::slice::into_iter_elts(it)
    }

    fn into_iter(self) -> (it: core::slice::Iter<'a, T>) {
        let it = IntoIterator::into_iter(self);
        proof {
            broadcast use vstd::std_specs::slice::axiom_spec_slice_iter;

            assert(self@.as_ref().unref() =~= self@);
        }
        it
    }
}

/// The texts of the items of an array.
pub open spec fn array_parts<'a, A: ArrayString<'a>>(array: &A) -> Seq<Seq<char>> {
    str_views(array.items())
}

/// Whether the concatenation of the items of `array` fits in a `String`: its
/// UTF-8 encoding may not exceed `isize::MAX` bytes.
pub open spec fn fits_in_string<'a, A: ArrayString<'a>>(array: &A) -> bool {
    total_bytes(array_parts(array)) <= isize::MAX
}

/// Writes the items of `array` one after the other into a new string that
/// was allocated with `capacity` bytes.
fn raw_array_to_string<'l, A: ArrayString<'l>>(array: A, capacity: usize) -> (r: String)
    requires
        capacity <= isize::MAX,
    ensures
        r@ == concat_view(array.items()),
{
    concat_items(array.as_slice(), capacity)
}

/// Concatenates the items of `array` into one `String`.
///
/// The result holds the text of each item, in order, and its UTF-8 length
/// is the sum of the items' UTF-8 lengths.
pub fn array_to_string<'l, A: ArrayString<'l>>(array: A) -> (r: String)
    requires
        fits_in_string(&array),
    ensures
        r@ == concat_view(array.items()),
        byte_len(r@) == total_bytes(array_parts(&array)),
{
    proof {
        lemma_total_bytes_flatten(array_parts(&array));
    }
    let array_len = array.len();
    if array_len == 0 {
        proof {
            assert(array_parts(&array) =~= Seq::<Seq<char>>::empty());
            assert(concat_view(array.items()) =~= Seq::<char>::empty());
        }
        return String::new();
    }
    let size = items_byte_size(array.as_slice());
    if size == 0 {
        proof {
            lemma_byte_len_zero(concat_view(array.items()));
            assert(concat_view(array.items()) =~= Seq::<char>::empty());
        }
        return String::new();
    }
    raw_array_to_string(array, size)
}

/// Concatenates the items of `array` into a `String` allocated with
/// `capacity` bytes. The result does not depend on `capacity`.
pub fn unsafe_array_to_string<'l, A: ArrayString<'l>>(array: A, capacity: usize) -> (r: String)
    requires
        capacity <= isize::MAX,
        fits_in_string(&array),
    ensures
        r@ == concat_view(array.items()),
{
    raw_array_to_string(array, capacity)
}

/// An array of string-like items, kept as it is until it is turned into a
/// `String`.
#[derive(Debug)]
pub struct MaybeArrayToString<'a, T> where T: ArrayString<'a> {
    data: T,
    _pp: PhantomData<&'a ()>,
}

impl<'a, T> View for MaybeArrayToString<'a, T> where T: ArrayString<'a> {
    type V = T;

    /// The array that is held.
    closed spec fn view(&self) -> T {
        self.data
    }
}

impl<'a, T> MaybeArrayToString<'a, T> where T: ArrayString<'a> {
    /// The value that holds `a`.
    pub closed spec fn holding(a: T) -> Self {
        MaybeArrayToString { data: a, _pp: PhantomData }
    }

    /// Holds `a`.
    pub fn new(a: T) -> (r: Self)
        ensures
            r == Self::holding(a),
            r@ == a,
    {
        Self { data: a, _pp: PhantomData }
    }

    /// Gives back the array that is held.
    pub fn data(self) -> (r: T)
        ensures
            r == self@,
    {
        self.data
    }

    /// Borrows the array that is held.
    pub fn as_data(&self) -> (r: &T)
        ensures
            *r == self@,
    {
        &self.data
    }

    /// Concatenates the items of the array that is held.
    pub fn into(self) -> (r: String)
        requires
            fits_in_string(&self@),
        ensures
            r@ == concat_view(self@.items()),
    {
        array_to_string(self.data)
    }

    /// Concatenates the items of a copy of the array that is held.
    pub fn to_string(&self) -> (r: String) where T: Copy
        requires
            fits_in_string(&self@),
        ensures
            r@ == concat_view(self@.items()),
    {
        array_to_string(self.data)
    }
}

impl<'a, T> Clone for MaybeArrayToString<'a, T> where T: ArrayString<'a> + Clone {
    fn clone(&self) -> (r: Self)
        ensures
            cloned(self@, r@),
    {
        Self { data: self.data.clone(), _pp: PhantomData }
    }
}

impl<'a, T> core::ops::Deref for MaybeArrayToString<'a, T> where T: ArrayString<'a> {
    type Target = T;

    fn deref(&self) -> (r: &T)
        ensures
            *r == self@,
    {
        &self.data
    }
}

impl<'a, T> core::ops::DerefMut for MaybeArrayToString<'a, T> where T: ArrayString<'a> {
    fn deref_mut(&mut self) -> (r: &mut T)
        ensures
            *r == old(self)@,
            final(self)@ == *final(r),
    {
        &mut self.data
    }
}

impl<'a, T> From<T> for MaybeArrayToString<'a, T> where T: ArrayString<'a> {
    fn from(a: T) -> (r: Self)
        ensures
            r@ == a,
    {
        Self::new(a)
    }
}

impl<'a, T> vstd::std_specs::convert::FromSpecImpl<T> for MaybeArrayToString<'a, T> where T: ArrayString<'a> {
    open spec fn obeys_from_spec() -> bool {
        true
    }

    open spec fn from_spec(v: T) -> Self {
        Self::holding(v)
    }
}

} // verus!
