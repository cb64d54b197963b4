//! The requests that the library asks the windowing system to carry out.

use vstd::prelude::*;

verus! {

/// One request to the windowing system. None of them is answered: whoever sends
/// it learns nothing of its outcome.
#[derive(Clone, Copy, Debug, PartialEq, Eq, Structural)]
pub enum Request {
    /// Place the window at `x`, `y` and give it the size `width` by `height`.
    MoveResize { window: u64, x: i32, y: i32, width: u32, height: u32 },
    /// Put the window on top of its siblings.
    Raise { window: u64 },
    /// Make the window visible.
    Show { window: u64 },
    /// Make the window invisible.
    Hide { window: u64 },
}

impl Request {
    /// The window that the request is about.
    pub open spec fn spec_window(self) -> u64 {
        match self {
            Request::MoveResize { window, .. } => window,
            Request::Raise { window } => window,
            Request::Show { window } => window,
            Request::Hide { window } => window,
        }
    }

    /// The window that the request is about.
    pub fn window(&self) -> (id: u64)
        ensures
            id == self.spec_window(),
    {
        match self {
            Request::MoveResize { window, .. } => *window,
            Request::Raise { window } => *window,
            Request::Show { window } => *window,
            Request::Hide { window } => *window,
        }
    }
}

/// The unsigned number with the same 32 bits as `v`: `v` itself where it is not
/// negative, else `v + 2^32`.
pub open spec fn unsigned(v: i32) -> u32 {
    if v >= 0 {
        v as u32
    } else {
        (v + 0x1_0000_0000) as u32
    }
}

/// A signed extent as the windowing system takes it, bit for bit. Nothing is
/// rejected: what a zero or a huge extent means is the windowing system's
/// affair.
pub fn to_unsigned(v: i32) -> (u: u32)
    ensures
        u == unsigned(v),
{
    if v >= 0 {
        v as u32
    } else {
        let low: u32 = (v - i32::MIN) as u32;
        low + 0x8000_0000u32
    }
}

} // verus!
