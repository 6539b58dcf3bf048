//! Concatenation of a list of string slices.

use vstd::prelude::*;

use crate::array_to_string::{array_to_string, fits_in_string};
use crate::text::{byte_len, concat_view, str_views, total_bytes};

verus! {

/// Concatenates `parts`, in order, into one `String`.
pub fn str_concat(parts: &[&str]) -> (r: String)
    requires
        total_bytes(str_views(parts@)) <= isize::MAX,
    ensures
        r@ == concat_view(parts@),
        byte_len(r@) == total_bytes(str_views(parts@)),
{
    proof {
        assert(fits_in_string(&parts));
    }
    array_to_string(parts)
}

} // verus!
