//! The windows that an enumeration found, and the cursor that turns them into
//! resolved windows one at a time.

use crate::window::{resolution, Geometry, TextProperty, Window, WindowView};
use vstd::prelude::*;

verus! {

/// The windows of one enumeration, in the order found. It is made once and
/// never asked for again.
pub struct WindowContainer {
    windows: Vec<u64>,
}

impl View for WindowContainer {
    type V = Seq<u64>;

    closed spec fn view(&self) -> Seq<u64> {
        self.windows@
    }
}

/// A cursor over a container. Each window is looked at once; the ones that
/// cannot be resolved are passed over.
pub struct WindowContainerIterator {
    container: WindowContainer,
    idx: usize,
}

/// The mathematical content of a [`WindowContainerIterator`]: the slots of its
/// container and how many of them it has used. A used slot holds zero.
pub struct CursorView {
    pub slots: Seq<u64>,
    pub cursor: nat,
}

impl CursorView {
    /// The window that is resolved next, if one is left.
    pub open spec fn pending(self) -> Option<u64> {
        if self.cursor < self.slots.len() {
            Some(self.slots[self.cursor as int])
        } else {
            None
        }
    }

    /// The windows that are still to be resolved, in order.
    pub open spec fn remaining(self) -> Seq<u64> {
        if self.cursor < self.slots.len() {
            self.slots.skip(self.cursor as int)
        } else {
            Seq::empty()
        }
    }

    /// The cursor after one pull: the pending slot is used up. Once nothing is
    /// pending the cursor stays as it is.
    pub open spec fn consume(self) -> CursorView {
        if self.cursor < self.slots.len() {
            CursorView { slots: self.slots.update(self.cursor as int, 0), cursor: self.cursor + 1 }
        } else {
            self
        }
    }

    /// What one pull hands out, given the answers to the two queries about the
    /// pending window.
    pub open spec fn produce(self, name: Option<TextProperty>, attr: Option<Geometry>) -> Option<
        WindowView,
    > {
        match self.pending() {
            Some(id) => resolution(id, name, attr),
            None => None,
        }
    }
}

impl View for WindowContainerIterator {
    type V = CursorView;

    closed spec fn view(&self) -> CursorView {
        CursorView { slots: self.container@, cursor: self.idx as nat }
    }
}

/// The mathematical content of what a pull hands out.
pub open spec fn pulled(window: Option<Window>) -> Option<WindowView> {
    match window {
        Some(w) => Some(w@),
        None => None,
    }
}

impl WindowContainer {
    /// A container of the given windows.
    pub fn new(windows: Vec<u64>) -> (container: WindowContainer)
        ensures
            container@ == windows@,
    {
        WindowContainer { windows }
    }

    /// The number of windows found.
    pub fn len(&self) -> (n: usize)
        ensures
            n == self@.len(),
    {
        self.windows.len()
    }

    /// The windows found, in order.
    pub fn ids(&self) -> (windows: &Vec<u64>)
        ensures
            windows@ == self@,
    {
        &self.windows
    }

    /// A cursor at the first window. The container is given up to it.
    pub fn into_iter(self) -> (cursor: WindowContainerIterator)
        ensures
            cursor@ == (CursorView { slots: self@, cursor: 0 }),
    {
        WindowContainerIterator { container: self, idx: 0 }
    }
}

impl WindowContainerIterator {
    /// The window whose name and attributes must be queried for the next pull,
    /// or `None` when every window has been looked at.
    pub fn pending(&self) -> (window: Option<u64>)
        ensures
            window == self@.pending(),
    {
        if self.idx < self.container.windows.len() {
            Some(self.container.windows[self.idx])
        } else {
            None
        }
    }

    /// One pull: uses up the pending window and hands it out resolved, or
    /// hands out nothing where the answers do not resolve it. `name` and `attr`
    /// are the answers to the queries about the pending window, `None` where a
    /// query failed. With no window pending nothing changes.
    pub fn next(&mut self, name: Option<TextProperty>, attr: Option<Geometry>) -> (window: Option<
        Window,
    >)
        ensures
            final(self)@ == old(self)@.consume(),
            pulled(window) == old(self)@.produce(name, attr),
    {
        if self.idx < self.container.windows.len() {
            let id = self.container.windows[self.idx];
            self.container.windows.set(self.idx, 0);
            self.idx = self.idx + 1;
            match Window::resolve(id, name, attr) {
                Ok(window) => Some(window),
                Err(_) => None,
            }
        } else {
            None
        }
    }
}

/// Every pull with a window pending moves on by one window, whatever the
/// answers were: the windows after it are still to come.
pub proof fn lemma_pull_moves_on(c: CursorView)
    requires
        c.pending() is Some,
    ensures
        c.consume().remaining() == c.remaining().drop_first(),
        c.remaining()[0] == c.pending()->0,
{
    assert(c.consume().remaining() =~= c.remaining().drop_first());
}

/// A window that cannot be resolved, be it for a failed query for its name or
/// for its attributes, is handed out by no pull.
pub proof fn lemma_unresolved_is_passed_over(
    c: CursorView,
    name: Option<TextProperty>,
    attr: Option<Geometry>,
)
    requires
        name is None || attr is None,
    ensures
        c.produce(name, attr) is None,
{
}

} // verus!
