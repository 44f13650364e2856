//! Recognising a double click.

use vstd::prelude::*;

verus! {

/// Whether a press of a mouse button that is the `count`-th in a row is a
/// double click: it is one if the button is the primary one and the press
/// is the second.
pub fn is_double_click(primary: bool, count: u8) -> (fired: bool)
    ensures
        fired == (primary && count == 2),
{
    primary && count == 2
}

} // verus!
