//! The bulk command: one change, made to every window whose name matches.

use crate::pattern::{pattern_compiles, InvalidPattern, NamePattern};
use crate::request::{unsigned, Request};
use crate::window::{Geometry, Window, WindowView};
use vstd::prelude::*;

verus! {

/// The change that a command makes to a window.
#[derive(Clone, Copy, Debug, PartialEq, Eq, Structural)]
pub enum Command {
    /// A new size; the position stays.
    Resize { width: i32, height: i32 },
    /// A new position; the size stays.
    Move { pos_x: i32, pos_y: i32 },
    /// Make the window visible.
    Show,
    /// Make the window invisible.
    Hide,
    /// Put the window on top of its siblings.
    Raise,
}

impl Command {
    /// The geometry that a window with geometry `g` has after the command.
    pub open spec fn target(self, g: Geometry) -> Geometry {
        match self {
            Command::Resize { width, height } => Geometry { x: g.x, y: g.y, width, height },
            Command::Move { pos_x, pos_y } => Geometry {
                x: pos_x,
                y: pos_y,
                width: g.width,
                height: g.height,
            },
            _ => g,
        }
    }

    /// The one request that the command sends for the window `w`.
    pub open spec fn request(self, w: WindowView) -> Request {
        let g = self.target(w.attr);
        match self {
            Command::Resize { .. } | Command::Move { .. } => Request::MoveResize {
                window: w.id,
                x: g.x,
                y: g.y,
                width: unsigned(g.width),
                height: unsigned(g.height),
            },
            Command::Show => Request::Show { window: w.id },
            Command::Hide => Request::Hide { window: w.id },
            Command::Raise => Request::Raise { window: w.id },
        }
    }

    /// The window `w` after the command.
    pub open spec fn changed(self, w: WindowView) -> WindowView {
        WindowView { attr: self.target(w.attr), ..w }
    }

    /// Makes the change to `window` and gives the request that carries it to
    /// the windowing system.
    pub fn apply(&self, window: &mut Window) -> (request: Request)
        ensures
            final(window)@ == self.changed(old(window)@),
            request == self.request(old(window)@),
    {
        match *self {
            Command::Resize { width, height } => {
                let x = window.attr().x;
                let y = window.attr().y;
                window.move_and_resize(x, y, width, height)
            },
            Command::Move { pos_x, pos_y } => {
                let width = window.attr().width;
                let height = window.attr().height;
                window.move_and_resize(pos_x, pos_y, width, height)
            },
            Command::Show => window.show(),
            Command::Hide => window.hide_window(),
            Command::Raise => window.raise(),
        }
    }

    /// What the command does to the window `w`, given whether its name
    /// matched: the window afterwards and the request sent, if any.
    pub open spec fn decision(self, matched: bool, w: WindowView) -> (WindowView, Option<Request>) {
        if matched {
            (self.changed(w), Some(self.request(w)))
        } else {
            (w, None)
        }
    }

    /// Applies the command where the name matched, and leaves the window alone
    /// where it did not.
    pub fn decide(&self, matched: bool, window: &mut Window) -> (request: Option<Request>)
        ensures
            (final(window)@, request) == self.decision(matched, old(window)@),
            !matched ==> *final(window) == *old(window),
    {
        if matched {
            Some(self.apply(window))
        } else {
            None
        }
    }
}

/// A command together with the pattern that picks its windows.
pub struct CommandEngine {
    pattern: NamePattern,
    command: Command,
}

impl CommandEngine {
    /// The pattern that picks the windows.
    pub closed spec fn spec_pattern(&self) -> NamePattern {
        self.pattern
    }

    /// The change made to the windows picked.
    pub closed spec fn spec_command(&self) -> Command {
        self.command
    }

    /// An engine for `command` on the windows whose names match `pattern`, or
    /// the report that the pattern cannot be compiled.
    pub fn new(pattern: &str, command: Command) -> (r: Result<CommandEngine, InvalidPattern>)
        ensures
            r is Ok == pattern_compiles(pattern@),
            r matches Ok(engine) ==> engine.spec_command() == command
                && engine.spec_pattern().spec_source() == pattern@,
    {
        match NamePattern::new(pattern) {
            Ok(pattern) => Ok(CommandEngine { pattern, command }),
            Err(e) => Err(e),
        }
    }

    /// The pattern that picks the windows.
    pub fn pattern(&self) -> (pattern: &NamePattern)
        ensures
            *pattern == self.spec_pattern(),
    {
        &self.pattern
    }

    /// The change made to the windows picked.
    pub fn command(&self) -> (command: Command)
        ensures
            command == self.spec_command(),
    {
        self.command
    }

    /// Looks at one window: where its name matches the pattern, the command is
    /// applied and its one request handed out; where it does not, nothing
    /// happens.
    pub fn visit(&self, window: &mut Window) -> (request: Option<Request>)
        ensures
            (final(window)@, request) == self.spec_command().decision(
                self.spec_pattern().accepts(old(window)@.name),
                old(window)@,
            ),
            !self.spec_pattern().accepts(old(window)@.name) ==> *final(window) == *old(window),
    {
        let matched = self.pattern.matches(window.name().as_str());
        self.command.decide(matched, window)
    }
}

/// A resize keeps the position and a move keeps the size, whatever the
/// numbers; the other commands keep both.
pub proof fn lemma_command_keeps_the_rest(command: Command, g: Geometry)
    ensures
        command is Resize ==> command.target(g).x == g.x && command.target(g).y == g.y,
        command is Move ==> command.target(g).width == g.width && command.target(g).height
            == g.height,
        !(command is Resize) && !(command is Move) ==> command.target(g) == g,
{
}

/// A window whose name does not match is left as it was and no request is
/// sent for it; a window whose name matches gets exactly the one request of
/// the command, and that request names this window.
pub proof fn lemma_only_matches_are_touched(command: Command, matched: bool, w: WindowView)
    ensures
        !matched ==> command.decision(matched, w) == (w, None::<Request>),
        matched ==> command.decision(matched, w).1 == Some(command.request(w)),
        command.request(w).spec_window() == w.id,
        command.changed(w).id == w.id,
        command.changed(w).name == w.name,
{
}

} // verus!
