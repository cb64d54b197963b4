use winctl::container::WindowContainer;
use winctl::window::{Geometry, TextProperty, Window};

type Answers = (Option<TextProperty>, Option<Geometry>);

fn text(s: &str) -> Option<TextProperty> {
    Some(TextProperty { value: s.as_bytes().to_vec(), format: 8 })
}

fn place(x: i32) -> Option<Geometry> {
    Some(Geometry { x, y: 0, width: 10, height: 10 })
}

/// Pulls until nothing is pending, answering the queries for each window from
/// `answer`.
fn drain(container: WindowContainer, answer: &dyn Fn(u64) -> Answers) -> Vec<Window> {
    let mut cursor = container.into_iter();
    let mut out = Vec::new();
    while let Some(id) = cursor.pending() {
        let (name, attr) = answer(id);
        if let Some(window) = cursor.next(name, attr) {
            out.push(window);
        }
    }
    out
}

#[test]
fn one_failing_name_query_among_three() {
    let container = WindowContainer::new(vec![11, 12, 13]);
    let out = drain(container, &|id| match id {
        11 => (text("first"), place(1)),
        12 => (None, place(2)),
        _ => (text("third"), place(3)),
    });
    assert_eq!(out.len(), 2);
    assert_eq!(out[0].id(), 11);
    assert_eq!(out[0].name().as_str(), "first");
    assert_eq!(out[0].attr().x, 1);
    assert_eq!(out[1].id(), 13);
    assert_eq!(out[1].name().as_str(), "third");
    assert_eq!(out[1].attr().x, 3);
}

#[test]
fn failing_attribute_query_is_passed_over() {
    let container = WindowContainer::new(vec![1, 2]);
    let out = drain(container, &|id| if id == 1 { (text("a"), None) } else { (text("b"), place(0)) });
    assert_eq!(out.len(), 1);
    assert_eq!(out[0].id(), 2);
}

#[test]
fn all_windows_unresolvable_gives_nothing() {
    let container = WindowContainer::new(vec![1, 2, 3]);
    let out = drain(container, &|_| (None, None));
    assert!(out.is_empty());
}

#[test]
fn windows_come_out_in_container_order() {
    let container = WindowContainer::new(vec![30, 10, 20]);
    let out = drain(container, &|id| (text("w"), place(id as i32)));
    let ids: Vec<u64> = out.iter().map(|w| w.id()).collect();
    assert_eq!(ids, vec![30, 10, 20]);
}

#[test]
fn empty_container_has_nothing_pending() {
    let container = WindowContainer::new(vec![]);
    assert_eq!(container.len(), 0);
    let mut cursor = container.into_iter();
    assert_eq!(cursor.pending(), None);
    assert!(cursor.next(text("a"), place(0)).is_none());
    assert_eq!(cursor.pending(), None);
}

#[test]
fn pull_after_the_end_hands_out_nothing() {
    let mut cursor = WindowContainer::new(vec![5]).into_iter();
    assert_eq!(cursor.pending(), Some(5));
    assert!(cursor.next(text("a"), place(0)).is_some());
    assert_eq!(cursor.pending(), None);
    assert!(cursor.next(text("a"), place(0)).is_none());
    assert!(cursor.next(text("a"), place(0)).is_none());
    assert_eq!(cursor.pending(), None);
}

#[test]
fn pending_moves_on_by_one_window_per_pull() {
    let mut cursor = WindowContainer::new(vec![5, 6, 7]).into_iter();
    assert_eq!(cursor.pending(), Some(5));
    assert!(cursor.next(None, None).is_none());
    assert_eq!(cursor.pending(), Some(6));
    assert!(cursor.next(text("six"), place(0)).is_some());
    assert_eq!(cursor.pending(), Some(7));
    assert!(cursor.next(text("seven"), None).is_none());
    assert_eq!(cursor.pending(), None);
}

#[test]
fn container_keeps_the_windows_given() {
    let container = WindowContainer::new(vec![4, 4, 9]);
    assert_eq!(container.len(), 3);
    assert_eq!(*container.ids(), vec![4, 4, 9]);
}
