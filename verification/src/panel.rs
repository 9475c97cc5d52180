//! Resizable side panels: the drag direction and the persistence key of a width.

use vstd::prelude::*;

verus! {

/// Which way a divider drag grows the panel.
#[derive(Debug, Clone, Copy, PartialEq, Eq, Structural)]
pub enum GrowDirection {
    /// Divider on the panel's right edge: dragging right widens.
    Right,
    /// Divider on the panel's left edge: dragging left widens.
    Left,
}

/// Key under which a panel width is stored: `pi-clone::<storage_key>`.
pub fn key(storage_key: &str) -> (r: String)
    ensures
        r@ == "pi-clone::"@ + storage_key@,
{
    let r = String::from_str("pi-clone::");
    r.concat(storage_key)
}

} // verus!
