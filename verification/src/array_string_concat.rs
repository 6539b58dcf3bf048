//! Arrays of items of a given type and their concatenation into one
//! `String`, with a value wrapper and an owning iterator over such arrays.

use core::marker::PhantomData;
use vstd::prelude::*;

use crate::text::{
    AsStr, byte_len, concat_items, concat_view, items_byte_size, lemma_byte_len_zero,
    lemma_total_bytes_flatten, str_views, total_bytes,
};

verus! {

/// An array whose items have the type `T`.
pub trait ArrayStringConcat<'a, T> {
    /// The items of the array, in order.
    spec fn items(&self) -> Seq<T>;

    /// Borrows the items as a slice.
    fn as_slice(&self) -> (s: &[T])
        ensures
            s@ == self.items(),
    ;

    /// The number of items.
    fn len(&self) -> (n: usize)
        ensures
            n == self.items().len(),
    ;

    /// An iterator over the items, in order.
    fn iter<'i>(&'i self) -> (it: core::slice::Iter<'i, T>)
        ensures
            vstd::std_specs::slice::into_iter_elts(it) == self.items(),
    {
        let s = self.as_slice();
        let it = s.iter();
        proof {
            broadcast use vstd::std_specs::slice::axiom_spec_slice_iter;

            assert(s@.as_ref().unref() =~= s@);
        }
        it
    }

    /// The iterator that `into_iter` gives.
    type IntoIter;

    /// The items that an iterator of type `IntoIter` hands out, from its start.
    spec fn iter_items(it: Self::IntoIter) -> Seq<T> where Self: Sized;

    /// Turns the array into an iterator over its items.
    fn into_iter(self) -> (it: Self::IntoIter) where Self: Sized
        ensures
            Self::iter_items(it) == self.items(),
    ;
}

impl<'a, T> ArrayStringConcat<'a, T> for Vec<T> {
    open spec fn items(&self) -> Seq<T> {
        self@
    }

    fn as_slice(&self) -> (s: &[T]) {
        self.as_slice()
    }

    fn len(&self) -> (n: usize) {
        self.len()
    }

    type IntoIter = std::vec::IntoIter<T>;

    open spec fn iter_items(it: std::vec::IntoIter<T>) -> Seq<T> {
        vstd::std_specs::vec::into_iter_elts(it)
    }

    fn into_iter(self) -> (it: std::vec::IntoIter<T>) {
        let it = IntoIterator::into_iter(self);
        proof {
            broadcast use vstd::std_specs::vec::axiom_spec_into_iter;

        }
        it
    }
}

impl<'a, T> ArrayStringConcat<'a, T> for &'a [T] {
    open spec fn items(&self) -> Seq<T> {
        (**self)@
    }

    fn as_slice(&self) -> (s: &[T]) {
        *self
    }

    fn len(&self) -> (n: usize) {
        (**self).len()
    }

    type IntoIter = core::slice::Iter<'a, T>;

    open spec fn iter_items(it: core::slice::Iter<'a, T>) -> Seq<T> {
        vstd::std_specs::slice::into_iter_elts(it)
    }

    fn into_iter(self) -> (it: core::slice::Iter<'a, T>) {
        let it = IntoIterator::into_iter(self);
        proof {
            broadcast use vstd::std_specs::slice::axiom_spec_slice_iter;

            assert(self@.as_ref().unref() =~= self@);
        }
        it
    }
}

impl<'a, T: 'a> ArrayStringConcat<'a, T> for [T] {
    open spec fn items(&self) -> Seq<T> {
        self@
    }

    fn as_slice(&self) -> (s: &[T]) {
        self
    }

    fn len(&self) -> (n: usize) {
        <[T]>::len(self)
    }

    /// An unsized slice is never passed by value, so `into_iter` cannot be
    /// called on one; the iterator type is the owning one over a vector of
    /// the items.
    type IntoIter = ArrayStringConcatIter<'a, Vec<T>, T>;

    open spec fn iter_items(it: ArrayStringConcatIter<'a, Vec<T>, T>) -> Seq<T> {
        it.data()@.subrange(it.position() as int, it.data()@.len() as int)
    }
}

/// A value of type `T` that carries the lifetime `'a`.
pub struct ShadowLifeTime<'a, T: 'a>(T, PhantomData<&'a T>);

impl<'a, T> View for ShadowLifeTime<'a, T> {
    type V = T;

    /// The value that is held.
    closed spec fn view(&self) -> T {
        self.0
    }
}

impl<'a, T> ShadowLifeTime<'a, T> {
    /// Holds `data`.
    pub fn new(data: T) -> (r: Self)
        ensures
            r@ == data,
    {
        ShadowLifeTime(data, PhantomData)
    }
}

impl<'a, T> core::ops::Deref for ShadowLifeTime<'a, T> {
    type Target = T;

    fn deref(&self) -> (r: &T)
        ensures
            *r == self@,
    {
        &self.0
    }
}

impl<'a, T> core::ops::DerefMut for ShadowLifeTime<'a, T> {
    fn deref_mut(&mut self) -> (r: &mut T)
        ensures
            *r == old(self)@,
            final(self)@ == *final(r),
    {
        &mut self.0
    }
}

/// An iterator that owns an array and hands out references to its items,
/// one after the other.
pub struct ArrayStringConcatIter<'a, Data, T>(ShadowLifeTime<'a, Data>, usize, PhantomData<&'a T>);

impl<'a, Data, T> ArrayStringConcatIter<'a, Data, T> {
    /// The array that is owned.
    pub closed spec fn data(&self) -> Data {
        self.0@
    }

    /// The number of items handed out so far.
    pub closed spec fn position(&self) -> nat {
        self.1 as nat
    }

    /// An iterator at the start of `data`.
    pub fn new(data: Data) -> (it: Self)
        ensures
            it.data() == data,
            it.position() == 0,
    {
        ArrayStringConcatIter(ShadowLifeTime::new(data), 0, PhantomData)
    }

    /// The next item, or `None` once every item has been handed out.
    pub fn next(&mut self) -> (r: Option<&T>) where Data: ArrayStringConcat<'a, T>
        ensures
            final(self).data() == old(self).data(),
            old(self).position() <= old(self).data().items().len() ==> final(self).position()
                <= final(self).data().items().len(),
            old(self).position() < old(self).data().items().len() ==> {
                &&& r == Some(&old(self).data().items()[old(self).position() as int])
                &&& final(self).position() == old(self).position() + 1
            },
            old(self).position() >= old(self).data().items().len() ==> {
                &&& r is None
                &&& final(self).position() == old(self).position()
            },
    {
        let s = (*self.0).as_slice();
        if self.1 < s.len() {
            let i = self.1;
            self.1 = i + 1;
            Some(&s[i])
        } else {
            None
        }
    }
}

/// Concatenates the items of `array` into one `String`.
///
/// The result holds the text of each item, in order, and its UTF-8 length
/// is the sum of the items' UTF-8 lengths.
pub fn array_string_concat<'l, T: 'l + AsStr, A: 'l + ArrayStringConcat<'l, T>>(array: A) -> (r:
    String)
    requires
        total_bytes(str_views(array.items())) <= isize::MAX,
    ensures
        r@ == concat_view(array.items()),
        byte_len(r@) == total_bytes(str_views(array.items())),
{
    proof {
        lemma_total_bytes_flatten(str_views(array.items()));
    }
    let array_len = array.len();
    if array_len == 0 {
        proof {
            assert(concat_view(array.items()) =~= Seq::<char>::empty());
        }
        return String::new();
    }
    let size = items_byte_size(array.as_slice());
    if size == 0 {
        proof {
            lemma_byte_len_zero(concat_view(array.items()));
            assert(concat_view(array.items()) =~= Seq::<char>::empty());
        }
        return String::new();
    }
    raw_array_string_concat(array, size)
}

/// Concatenates the items of `array` into a `String` allocated with
/// `capacity` bytes. The result does not depend on `capacity`.
pub fn unsafe_array_string_concat<'l, T: AsStr, A: ArrayStringConcat<'l, T>>(
    array: A,
    capacity: usize,
) -> (r: String)
    requires
        capacity <= isize::MAX,
        total_bytes(str_views(array.items())) <= isize::MAX,
    ensures
        r@ == concat_view(array.items()),
{
    raw_array_string_concat(array, capacity)
}

/// Writes the items of `array` one after the other into a new string that
/// was allocated with `capacity` bytes.
fn raw_array_string_concat<'l, T: AsStr, A: ArrayStringConcat<'l, T>>(array: A, capacity: usize) -> (r:
    String)
    requires
        capacity <= isize::MAX,
    ensures
        r@ == concat_view(array.items()),
{
    concat_items(array.as_slice(), capacity)
}

} // verus!
