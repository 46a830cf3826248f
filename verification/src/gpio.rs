//! Digital levels of GPIO pins.

use vstd::prelude::*;

verus! {

/// Digital level of an input or output pin.
#[derive(Debug, Clone, Copy, PartialEq, Eq, Structural)]
pub enum Level {
    /// Logical low.
    Low,
    /// Logical high.
    High,
}

/// Whether `ids` holds `id`.
pub fn ids_contain(ids: &[u8], id: u8) -> (found: bool)
    ensures
        found == ids@.contains(id),
{
    let mut i: usize = 0;
    while i < ids.len()
        invariant
            0 <= i <= ids@.len(),
            forall|k: int| 0 <= k < i ==> ids@[k] != id,
        decreases ids@.len() - i,
    {
        if ids[i] == id {
            assert(ids@[i as int] == id);
            return true;
        }
        i = i + 1;
    }
    false
}

} // verus!
