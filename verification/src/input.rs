//! Tests on raw input lines.

use vstd::prelude::*;
use crate::text::{trim_chars, trimmed};

verus! {

/// Tests whether `input` is empty once surrounding whitespace is removed.
pub fn is_empty_input(input: &str) -> (r: bool)
    ensures
        r == (trimmed(input@).len() == 0),
{
    trim_chars(input).len() == 0
}

} // verus!
