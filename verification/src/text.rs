//! The text model shared by the whole crate: what a string-like item holds,
//! the concatenation of a sequence of such texts, and its UTF-8 byte length.

use vstd::prelude::*;
use vstd::utf8::encode_utf8;

verus! {

/// A value that can be read as a `str`: the stand-in for the `AsRef<str>`
/// bound on the items of an array.
pub trait AsStr {
    /// The characters that the item holds.
    spec fn str_view(&self) -> Seq<char>;

    /// Borrows the item as a `str`.
    fn as_str_ref(&self) -> (s: &str)
        ensures
            s@ == self.str_view(),
    ;
}

impl<'a> AsStr for &'a str {
    open spec fn str_view(&self) -> Seq<char> {
        (**self)@
    }

    fn as_str_ref(&self) -> (s: &str) {
        *self
    }
}

impl AsStr for String {
    open spec fn str_view(&self) -> Seq<char> {
        self@
    }

    fn as_str_ref(&self) -> (s: &str) {
        self.as_str()
    }
}

impl<'a> AsStr for &'a String {
    open spec fn str_view(&self) -> Seq<char> {
        (**self)@
    }

    fn as_str_ref(&self) -> (s: &str) {
        (**self).as_str()
    }
}

/// The texts of a sequence of items, in order.
pub open spec fn str_views<T: AsStr>(items: Seq<T>) -> Seq<Seq<char>> {
    items.map_values(|x: T| x.str_view())
}

/// The texts of the items written one after the other.
pub open spec fn concat_view<T: AsStr>(items: Seq<T>) -> Seq<char> {
    str_views(items).flatten()
}

/// The number of bytes in the UTF-8 encoding of a text.
pub open spec fn byte_len(s: Seq<char>) -> nat {
    encode_utf8(s).len()
}

/// The sum of the UTF-8 byte lengths of a sequence of texts.
pub open spec fn total_bytes(parts: Seq<Seq<char>>) -> nat
    decreases parts.len(),
{
    if parts.len() == 0 {
        0
    } else {
        total_bytes(parts.drop_last()) + byte_len(parts.last())
    }
}

/// The UTF-8 encoding of two texts written one after the other is the
/// encoding of the first followed by that of the second.
pub proof fn lemma_encode_utf8_add(a: Seq<char>, b: Seq<char>)
    ensures
        encode_utf8(a + b) == encode_utf8(a) + encode_utf8(b),
    decreases a.len(),
{
    if a.len() == 0 {
        assert(a + b =~= b);
        assert(encode_utf8(a) =~= Seq::<u8>::empty());
        assert(encode_utf8(a) + encode_utf8(b) =~= encode_utf8(b));
    } else {
        assert((a + b)[0] == a[0]);
        assert((a + b).drop_first() =~= a.drop_first() + b);
        lemma_encode_utf8_add(a.drop_first(), b);
        assert(encode_utf8(a + b) =~= encode_utf8(a) + encode_utf8(b));
    }
}

/// A text whose encoding has no bytes is empty.
pub proof fn lemma_byte_len_zero(s: Seq<char>)
    ensures
        byte_len(s) == 0 <==> s.len() == 0,
{
    if s.len() == 0 {
        assert(encode_utf8(s) =~= Seq::<u8>::empty());
    } else {
        assert(encode_utf8(s) == vstd::utf8::encode_scalar(s[0] as u32) + encode_utf8(
            s.drop_first(),
        ));
        assert(vstd::utf8::encode_scalar(s[0] as u32).len() >= 1);
    }
}

/// The sum of the byte lengths of the parts is the byte length of their
/// concatenation.
pub proof fn lemma_total_bytes_flatten(parts: Seq<Seq<char>>)
    ensures
        total_bytes(parts) == byte_len(parts.flatten()),
    decreases parts.len(),
{
    if parts.len() == 0 {
        assert(encode_utf8(parts.flatten()) =~= Seq::<u8>::empty());
    } else {
        let init = parts.drop_last();
        lemma_total_bytes_flatten(init);
        assert(init.push(parts.last()) =~= parts);
        init.lemma_flatten_push(parts.last());
        lemma_encode_utf8_add(init.flatten(), parts.last());
    }
}

/// The byte total of a prefix never exceeds that of the whole sequence.
pub proof fn lemma_total_bytes_prefix(parts: Seq<Seq<char>>, i: int)
    requires
        0 <= i <= parts.len(),
    ensures
        total_bytes(parts.take(i)) <= total_bytes(parts),
    decreases parts.len() - i,
{
    if i < parts.len() {
        lemma_total_bytes_prefix(parts, i + 1);
        assert(parts.take(i + 1).drop_last() =~= parts.take(i));
    } else {
        assert(parts.take(i) =~= parts);
    }
}

/// The views of the first `i + 1` items are those of the first `i` items and
/// the view of item `i`.
pub proof fn lemma_str_views_take_step<T: AsStr>(items: Seq<T>, i: int)
    requires
        0 <= i < items.len(),
    ensures
        str_views(items.take(i + 1)) == str_views(items.take(i)).push(items[i].str_view()),
        str_views(items).len() == items.len(),
        str_views(items)[i] == items[i].str_view(),
{
    assert(str_views(items.take(i + 1)) =~= str_views(items.take(i)).push(items[i].str_view()));
}

/// `String::with_capacity` from std: an empty string. The capacity that the
/// allocator hands out is not stated.
#[verifier::external_body]
fn string_with_capacity(capacity: usize) -> (s: String)
    requires
        capacity <= isize::MAX,
    ensures
        s@ == Seq::<char>::empty(),
{
    String::with_capacity(capacity)
}

/// The total UTF-8 byte length of `items`.
pub(crate) fn items_byte_size<T: AsStr>(items: &[T]) -> (size: usize)
    requires
        total_bytes(str_views(items@)) <= isize::MAX,
    ensures
        size == total_bytes(str_views(items@)),
{
    let n = items.len();
    let mut size: usize = 0;
    let mut i: usize = 0;
    while i < n
        invariant
            n == items@.len(),
            i <= n,
            size == total_bytes(str_views(items@.take(i as int))),
            total_bytes(str_views(items@)) <= isize::MAX,
        decreases n - i,
    {
        let s = items[i].as_str_ref();
        proof {
            lemma_str_views_take_step(items@, i as int);
            let next = str_views(items@.take(i + 1));
            assert(next.drop_last() =~= str_views(items@.take(i as int)));
            assert(str_views(items@).take(i + 1) =~= next);
            lemma_total_bytes_prefix(str_views(items@), i + 1);
        }
        size = size + s.len();
        i = i + 1;
    }
    proof {
        assert(items@.take(n as int) =~= items@);
    }
    size
}

/// Writes `items` one after the other into a new string that was allocated
/// with `capacity` bytes.
pub(crate) fn concat_items<T: AsStr>(items: &[T], capacity: usize) -> (r: String)
    requires
        capacity <= isize::MAX,
    ensures
        r@ == concat_view(items@),
{
    let mut result = string_with_capacity(capacity);
    let n = items.len();
    let mut i: usize = 0;
    while i < n
        invariant
            n == items@.len(),
            i <= n,
            result@ == str_views(items@.take(i as int)).flatten(),
        decreases n - i,
    {
        let s = items[i].as_str_ref();
        proof {
            lemma_str_views_take_step(items@, i as int);
            str_views(items@.take(i as int)).lemma_flatten_push(items@[i as int].str_view());
        }
        result.append(s);
        i = i + 1;
    }
    proof {
        assert(items@.take(n as int) =~= items@);
    }
    result
}

} // verus!
