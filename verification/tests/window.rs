use winctl::request::{to_unsigned, Request};
use winctl::window::{Geometry, TextProperty, Unresolvable, Window, BYTE_FORMAT};

fn text(s: &str) -> Option<TextProperty> {
    Some(TextProperty { value: s.as_bytes().to_vec(), format: 8 })
}

fn place(x: i32, y: i32, width: i32, height: i32) -> Option<Geometry> {
    Some(Geometry { x, y, width, height })
}

fn window(id: u64, name: &str, x: i32, y: i32, width: i32, height: i32) -> Window {
    Window::resolve(id, text(name), place(x, y, width, height)).unwrap()
}

#[test]
fn resolve_gives_name_geometry_and_id() {
    let w = window(7, "terminal", 10, 20, 100, 50);
    assert_eq!(w.id(), 7);
    assert_eq!(w.name().as_str(), "terminal");
    assert_eq!(*w.attr(), Geometry { x: 10, y: 20, width: 100, height: 50 });
}

#[test]
fn resolve_fails_without_name() {
    assert_eq!(Window::resolve(1, None, place(0, 0, 1, 1)).err(), Some(Unresolvable));
}

#[test]
fn resolve_fails_without_attributes() {
    assert_eq!(Window::resolve(1, text("a"), None).err(), Some(Unresolvable));
}

#[test]
fn resolve_fails_without_both() {
    assert!(Window::resolve(1, None, None).is_err());
}

#[test]
fn resolve_fails_on_wide_items() {
    let name = Some(TextProperty { value: vec![b'a', 0, b'b', 0], format: 16 });
    assert!(Window::resolve(1, name, place(0, 0, 1, 1)).is_err());
    let name = Some(TextProperty { value: vec![b'a'], format: 32 });
    assert!(Window::resolve(1, name, place(0, 0, 1, 1)).is_err());
    let name = Some(TextProperty { value: vec![], format: 0 });
    assert!(Window::resolve(1, name, place(0, 0, 1, 1)).is_err());
}

#[test]
fn resolve_fails_on_bytes_that_are_no_text() {
    let name = Some(TextProperty { value: vec![b'a', 0xff, b'b'], format: 8 });
    assert!(Window::resolve(1, name, place(0, 0, 1, 1)).is_err());
}

#[test]
fn resolve_decodes_characters_of_several_bytes() {
    let name = Some(TextProperty { value: vec![0xc3, 0xa9, b't', 0xc3, 0xa9], format: BYTE_FORMAT });
    let w = Window::resolve(1, name, place(0, 0, 1, 1)).unwrap();
    assert_eq!(w.name().as_str(), "\u{e9}t\u{e9}");
    assert_eq!(w.name().chars().count(), 3);
}

#[test]
fn resolve_takes_an_empty_name() {
    let w = Window::resolve(1, text(""), place(0, 0, 1, 1)).unwrap();
    assert_eq!(w.name().as_str(), "");
}

#[test]
fn resize_keeps_position_in_cache_and_request() {
    let mut w = window(42, "W", 10, 20, 100, 50);
    let (x, y) = (w.attr().x, w.attr().y);
    let request = w.move_and_resize(x, y, 200, 80);
    assert_eq!(*w.attr(), Geometry { x: 10, y: 20, width: 200, height: 80 });
    assert_eq!(request, Request::MoveResize { window: 42, x: 10, y: 20, width: 200, height: 80 });
}

#[test]
fn move_and_resize_replaces_all_four() {
    let mut w = window(3, "W", 1, 2, 3, 4);
    let request = w.move_and_resize(-5, -6, 7, 8);
    assert_eq!(*w.attr(), Geometry { x: -5, y: -6, width: 7, height: 8 });
    assert_eq!(request, Request::MoveResize { window: 3, x: -5, y: -6, width: 7, height: 8 });
    assert_eq!(w.name().as_str(), "W");
    assert_eq!(w.id(), 3);
}

#[test]
fn move_and_resize_takes_zero_and_negative_sizes() {
    let mut w = window(3, "W", 1, 2, 3, 4);
    let request = w.move_and_resize(0, 0, 0, -1);
    assert_eq!(*w.attr(), Geometry { x: 0, y: 0, width: 0, height: -1 });
    assert_eq!(request, Request::MoveResize { window: 3, x: 0, y: 0, width: 0, height: 4294967295 });
}

#[test]
fn unsigned_keeps_the_bits() {
    assert_eq!(to_unsigned(0), 0);
    assert_eq!(to_unsigned(200), 200);
    assert_eq!(to_unsigned(i32::MAX), 2147483647);
    assert_eq!(to_unsigned(-1), 4294967295);
    assert_eq!(to_unsigned(-2), 4294967294);
    assert_eq!(to_unsigned(i32::MIN), 2147483648);
    assert_eq!(to_unsigned(-100), (-100i32) as u32);
}

#[test]
fn raise_show_and_hide_name_the_window_and_keep_the_cache() {
    let w = window(9, "W", 1, 2, 3, 4);
    assert_eq!(w.raise(), Request::Raise { window: 9 });
    assert_eq!(w.show(), Request::Show { window: 9 });
    assert_eq!(w.hide_window(), Request::Hide { window: 9 });
    assert_eq!(*w.attr(), Geometry { x: 1, y: 2, width: 3, height: 4 });
    assert_eq!(w.raise().window(), 9);
}

#[test]
fn request_names_its_window() {
    assert_eq!(Request::MoveResize { window: 5, x: 0, y: 0, width: 1, height: 1 }.window(), 5);
    assert_eq!(Request::Raise { window: 6 }.window(), 6);
    assert_eq!(Request::Show { window: 7 }.window(), 7);
    assert_eq!(Request::Hide { window: 8 }.window(), 8);
}

#[test]
fn resync_replaces_name_and_geometry() {
    let mut w = window(9, "old", 1, 2, 3, 4);
    assert_eq!(w.resync(text("new"), place(5, 6, 7, 8)), Ok(()));
    assert_eq!(w.name().as_str(), "new");
    assert_eq!(*w.attr(), Geometry { x: 5, y: 6, width: 7, height: 8 });
    assert_eq!(w.id(), 9);
}

#[test]
fn resync_that_fails_changes_nothing() {
    let mut w = window(9, "old", 1, 2, 3, 4);
    assert_eq!(w.resync(None, place(5, 6, 7, 8)), Err(Unresolvable));
    assert_eq!(w.resync(text("new"), None), Err(Unresolvable));
    let wide = Some(TextProperty { value: vec![b'n'], format: 16 });
    assert_eq!(w.resync(wide, place(5, 6, 7, 8)), Err(Unresolvable));
    let broken = Some(TextProperty { value: vec![0x80], format: 8 });
    assert_eq!(w.resync(broken, place(5, 6, 7, 8)), Err(Unresolvable));
    assert_eq!(w.name().as_str(), "old");
    assert_eq!(*w.attr(), Geometry { x: 1, y: 2, width: 3, height: 4 });
}

#[test]
fn resync_after_a_move_shows_what_was_queried() {
    let mut w = window(9, "W", 1, 2, 3, 4);
    w.move_and_resize(50, 60, 70, 80);
    assert_eq!(*w.attr(), Geometry { x: 50, y: 60, width: 70, height: 80 });
    assert_eq!(w.resync(text("W"), place(51, 61, 70, 80)), Ok(()));
    assert_eq!(*w.attr(), Geometry { x: 51, y: 61, width: 70, height: 80 });
}
