//! The screen whose windows are enumerated.

use crate::walk::{Traversal, TreeWalk, WalkView};
use vstd::prelude::*;

verus! {

/// The screen chosen at start-up, its root window, and how far below the root
/// an enumeration is to reach.
#[derive(Clone, Copy, Debug, PartialEq, Eq, Structural)]
pub struct Context {
    screen: i32,
    root: u64,
    traversal: Traversal,
}

impl Context {
    /// The index of the screen.
    pub closed spec fn spec_screen(&self) -> i32 {
        self.screen
    }

    /// The root window of the screen.
    pub closed spec fn spec_root(&self) -> u64 {
        self.root
    }

    /// How far below the root an enumeration reaches.
    pub closed spec fn spec_traversal(&self) -> Traversal {
        self.traversal
    }

    /// The context of the screen `screen` with the root window `root`. Its
    /// enumerations are deep.
    pub fn new(screen: i32, root: u64) -> (context: Context)
        ensures
            context.spec_screen() == screen,
            context.spec_root() == root,
            context.spec_traversal() == Traversal::Deep,
    {
        Context { screen, root, traversal: Traversal::Deep }
    }

    /// The same screen with another reach for its enumerations.
    pub fn with_traversal(self, traversal: Traversal) -> (context: Context)
        ensures
            context.spec_screen() == self.spec_screen(),
            context.spec_root() == self.spec_root(),
            context.spec_traversal() == traversal,
    {
        Context { screen: self.screen, root: self.root, traversal }
    }

    /// The index of the screen.
    pub fn screen(&self) -> (screen: i32)
        ensures
            screen == self.spec_screen(),
    {
        self.screen
    }

    /// The root window of the screen.
    pub fn root(&self) -> (root: u64)
        ensures
            root == self.spec_root(),
    {
        self.root
    }

    /// How far below the root an enumeration reaches.
    pub fn traversal(&self) -> (traversal: Traversal)
        ensures
            traversal == self.spec_traversal(),
    {
        self.traversal
    }

    /// Begins the enumeration of the windows below the root. The walk asks for
    /// the root first and ends with the container of the windows found, or
    /// fails if the root cannot be queried.
    pub fn windows(&self) -> (walk: TreeWalk)
        ensures
            walk@ == WalkView::start(self.spec_root(), self.spec_traversal()),
    {
        TreeWalk::start(self.root, self.traversal)
    }
}

} // verus!
