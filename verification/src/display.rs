//! Plain description of a connected display, as reported by the host
//! windowing layer at enumeration time. Two descriptors denote the same
//! physical display exactly when their origin and size agree; no stable
//! hardware identity is available.

use vstd::prelude::*;

verus! {

/// A connected display: origin in the global coordinate space, size in
/// physical pixels, and the host-reported name when there is one.
#[derive(Debug, Clone, PartialEq)]
pub struct DisplayDescriptor {
    pub x: i32,
    pub y: i32,
    pub width: u32,
    pub height: u32,
    pub name: Option<String>,
}

/// Identity of displays: same origin and same size. The name does not
/// take part, since the host may report none.
pub open spec fn spec_same_display(a: DisplayDescriptor, b: DisplayDescriptor) -> bool {
    a.x == b.x && a.y == b.y && a.width == b.width && a.height == b.height
}

/// Decides whether two descriptors denote the same physical display.
pub fn same_display(a: &DisplayDescriptor, b: &DisplayDescriptor) -> (r: bool)
    ensures
        r == spec_same_display(*a, *b),
{
    a.x == b.x && a.y == b.y && a.width == b.width && a.height == b.height
}

} // verus!
