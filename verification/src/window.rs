//! A resolved window: its name and geometry as last known, and the requests
//! that change it.

use crate::request::{to_unsigned, unsigned, Request};
use vstd::prelude::*;
use vstd::utf8::{decode_utf8, valid_utf8};

verus! {

/// Position and size of a window.
#[derive(Clone, Copy, Debug, PartialEq, Eq, Structural)]
pub struct Geometry {
    pub x: i32,
    pub y: i32,
    pub width: i32,
    pub height: i32,
}

/// A text property as the windowing system hands it out: the stored bytes and
/// the number of bits of one stored item.
#[derive(Debug)]
pub struct TextProperty {
    pub value: Vec<u8>,
    pub format: i32,
}

/// The number of bits per item of a property that holds one byte per item.
pub const BYTE_FORMAT: i32 = 8;

/// A window for which no name or no geometry could be had.
#[derive(Clone, Copy, Debug, PartialEq, Eq, Structural)]
pub struct Unresolvable;

/// The mathematical content of a [`Window`].
pub struct WindowView {
    pub id: u64,
    pub name: Seq<char>,
    pub attr: Geometry,
}

/// The window that two answers about `id` give, one to the query for its name
/// and one to the query for its attributes (`None` where a query failed).
/// There is a window only where both queries were answered and the name is
/// stored one byte per item and is valid UTF-8.
pub open spec fn resolution(id: u64, name: Option<TextProperty>, attr: Option<Geometry>) -> Option<
    WindowView,
> {
    match (name, attr) {
        (Some(text), Some(geometry)) => if text.format == BYTE_FORMAT && valid_utf8(text.value@) {
            Some(WindowView { id, name: decode_utf8(text.value@), attr: geometry })
        } else {
            None
        },
        _ => None,
    }
}

/// Calls `String::from_utf8`. It gives a string exactly where the bytes are
/// valid UTF-8, and the string is then made of the characters that they encode.
#[verifier::external_body]
fn string_from_utf8(bytes: Vec<u8>) -> (r: Option<String>)
    ensures
        r is Some == valid_utf8(bytes@),
        r matches Some(s) ==> s@ == decode_utf8(bytes@),
{
    match String::from_utf8(bytes) {
        Ok(s) => Some(s),
        Err(_) => None,
    }
}

/// A window whose name and geometry are known.
pub struct Window {
    name: String,
    attr: Geometry,
    window: u64,
}

impl View for Window {
    type V = WindowView;

    closed spec fn view(&self) -> WindowView {
        WindowView { id: self.window, name: self.name@, attr: self.attr }
    }
}

impl Window {
    /// Makes the window `id` out of the answers to the two queries about it, or
    /// finds that it cannot be resolved. Nothing is made of one answer alone.
    pub fn resolve(id: u64, name: Option<TextProperty>, attr: Option<Geometry>) -> (r: Result<
        Window,
        Unresolvable,
    >)
        ensures
            match r {
                Ok(w) => resolution(id, name, attr) == Some(w@),
                Err(_) => resolution(id, name, attr) is None,
            },
    {
        match (name, attr) {
            (Some(text), Some(geometry)) => {
                if text.format != BYTE_FORMAT {
                    return Err(Unresolvable);
                }
                match string_from_utf8(text.value) {
                    Some(name) => Ok(Window { name, attr: geometry, window: id }),
                    None => Err(Unresolvable),
                }
            },
            _ => Err(Unresolvable),
        }
    }

    /// The name as last resolved.
    pub fn name(&self) -> (name: &String)
        ensures
            name@ == self@.name,
    {
        &self.name
    }

    /// The geometry as last resolved or requested.
    pub fn attr(&self) -> (attr: &Geometry)
        ensures
            *attr == self@.attr,
    {
        &self.attr
    }

    /// The identifier of the window.
    pub fn id(&self) -> (id: u64)
        ensures
            id == self@.id,
    {
        self.window
    }

    /// Records the new position and size and gives the request that asks the
    /// windowing system for them. No value is refused.
    pub fn move_and_resize(&mut self, pos_x: i32, pos_y: i32, width: i32, height: i32) -> (request:
        Request)
        ensures
            final(self)@ == (WindowView {
                attr: Geometry { x: pos_x, y: pos_y, width, height },
                ..old(self)@
            }),
            request == (Request::MoveResize {
                window: old(self)@.id,
                x: pos_x,
                y: pos_y,
                width: unsigned(width),
                height: unsigned(height),
            }),
    {
        self.attr.x = pos_x;
        self.attr.y = pos_y;
        self.attr.width = width;
        self.attr.height = height;
        Request::MoveResize {
            window: self.window,
            x: pos_x,
            y: pos_y,
            width: to_unsigned(width),
            height: to_unsigned(height),
        }
    }

    /// The request that puts the window on top of its siblings.
    pub fn raise(&self) -> (request: Request)
        ensures
            request == (Request::Raise { window: self@.id }),
    {
        Request::Raise { window: self.window }
    }

    /// The request that makes the window invisible.
    pub fn hide_window(&self) -> (request: Request)
        ensures
            request == (Request::Hide { window: self@.id }),
    {
        Request::Hide { window: self.window }
    }

    /// The request that makes the window visible.
    pub fn show(&self) -> (request: Request)
        ensures
            request == (Request::Show { window: self@.id }),
    {
        Request::Show { window: self.window }
    }

    /// Replaces name and geometry by what fresh answers to the two queries
    /// give. Where they give nothing, the window keeps what it had.
    pub fn resync(&mut self, name: Option<TextProperty>, attr: Option<Geometry>) -> (r: Result<
        (),
        Unresolvable,
    >)
        ensures
            match r {
                Ok(_) => resolution(old(self)@.id, name, attr) == Some(final(self)@),
                Err(_) => resolution(old(self)@.id, name, attr) is None && *final(self) == *old(
                    self,
                ),
            },
    {
        match Window::resolve(self.window, name, attr) {
            Ok(fresh) => {
                self.name = fresh.name;
                self.attr = fresh.attr;
                Ok(())
            },
            Err(e) => Err(e),
        }
    }
}

/// A resolved window is whole: both queries about it were answered, its name
/// is the decoded text of a property stored one byte per item, and is empty
/// only where that property holds no byte.
pub proof fn lemma_resolved_is_whole(id: u64, name: Option<TextProperty>, attr: Option<Geometry>)
    requires
        resolution(id, name, attr) is Some,
    ensures
        name is Some,
        attr is Some,
        name->0.format == BYTE_FORMAT,
        valid_utf8(name->0.value@),
        resolution(id, name, attr) == Some(
            WindowView { id, name: decode_utf8(name->0.value@), attr: attr->0 },
        ),
        name->0.value@.len() > 0 ==> decode_utf8(name->0.value@).len() > 0,
{
}

} // verus!
