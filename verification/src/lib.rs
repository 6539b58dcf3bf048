//! Concatenation of arrays of strings into one `String`, with the contents of
//! the result stated and proved.

#![allow(non_snake_case)]

pub mod array_string_concat;
pub mod array_to_string;
pub mod laws;
pub mod str_concat;
pub mod text;

pub use self::array_string_concat::{
    ArrayStringConcat, ArrayStringConcatIter, ShadowLifeTime, array_string_concat,
    unsafe_array_string_concat,
};
pub use self::array_to_string::{
    ArrayString, MaybeArrayToString, array_to_string, unsafe_array_to_string,
};
pub use self::str_concat::str_concat;
pub use self::text::AsStr;
