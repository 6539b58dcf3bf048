# clu_str_concat

Concatenation of arrays of strings into one `String`, with the text of the result proved.

- `src/text.rs`: the text model (`AsStr`, the texts of a sequence of items,
  their concatenation and UTF-8 byte length) and the two loops that measure
  and write the items.
- `src/array_to_string.rs`: the `ArrayString` trait, `array_to_string`,
  `unsafe_array_to_string` and the `MaybeArrayToString` wrapper.
- `src/array_string_concat.rs`: the `ArrayStringConcat` trait,
  `array_string_concat`, `unsafe_array_string_concat`, `ShadowLifeTime` and
  the owning iterator `ArrayStringConcatIter`.
- `src/str_concat.rs`: `str_concat`, the concatenation of a list of `&str`.
- `src/laws.rs`: laws of concatenation (empty and one-item arrays, splitting,
  items with empty text).

Every function states the text it returns: the items' texts written one
after the other, in order. The only requirement is the machine limit that
the result must fit in a `String` (at most `isize::MAX` bytes).
