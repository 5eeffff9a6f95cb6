//! Small shared helpers.

use vstd::prelude::*;

verus! {

/// Renders a boolean in the interpreter's own literal syntax.
pub fn bool_string(val: bool) -> (r: &'static str)
    ensures
        val ==> r@ == "#t"@,
        !val ==> r@ == "#f"@,
{
    if val {
        "#t"
    } else {
        "#f"
    }
}

} // verus!
