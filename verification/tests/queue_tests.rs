use swtchr::sway::icon::IconLocator;
use swtchr::sway::queue::WindowQueue;
use swtchr::sway::subscribe::{SwayWindowId, Window, WindowEvent};

fn window(id: i64, title: &str) -> Window {
    Window {
        id: SwayWindowId(id),
        title: title.to_owned(),
        icon_locator: IconLocator {
            app_id: Some(title.to_owned()),
            x_window_class: None,
            x_window_instance: None,
            window_title: Some(title.to_owned()),
        },
    }
}

fn ids(queue: &WindowQueue) -> Vec<i64> {
    queue.sorted_windows().iter().map(|w| w.id.0).collect()
}

#[test]
fn empty_queue_has_empty_snapshot() {
    let queue = WindowQueue::new();
    assert!(queue.sorted_windows().is_empty());
    assert_eq!(queue.highest_priority(), 0);
}

#[test]
fn focus_orders_most_recent_first() {
    let mut queue = WindowQueue::new();
    queue.push_event(WindowEvent::Focus(window(1, "a")));
    queue.push_event(WindowEvent::Focus(window(2, "b")));
    queue.push_event(WindowEvent::Focus(window(3, "c")));
    assert_eq!(ids(&queue), vec![3, 2, 1]);
}

#[test]
fn refocus_moves_to_front() {
    let mut queue = WindowQueue::new();
    queue.push_event(WindowEvent::Focus(window(1, "a")));
    queue.push_event(WindowEvent::Focus(window(2, "b")));
    queue.push_event(WindowEvent::Focus(window(1, "a")));
    assert_eq!(ids(&queue), vec![1, 2]);
}

#[test]
fn refocus_does_not_duplicate() {
    let mut queue = WindowQueue::new();
    queue.push_event(WindowEvent::Focus(window(1, "a")));
    queue.push_event(WindowEvent::Focus(window(2, "b")));
    queue.push_event(WindowEvent::Focus(window(1, "a")));
    let snapshot = ids(&queue);
    assert_eq!(snapshot.iter().filter(|id| **id == 1).count(), 1);
    assert_eq!(snapshot.len(), 2);
}

#[test]
fn refocus_replaces_record_wholesale() {
    let mut queue = WindowQueue::new();
    queue.push_event(WindowEvent::Focus(window(1, "old title")));
    queue.push_event(WindowEvent::Focus(window(1, "new title")));
    let snapshot = queue.sorted_windows();
    assert_eq!(snapshot.len(), 1);
    assert_eq!(snapshot[0].title, "new title");
}

#[test]
fn close_removes_window() {
    let mut queue = WindowQueue::new();
    queue.push_event(WindowEvent::Focus(window(1, "a")));
    queue.push_event(WindowEvent::Focus(window(2, "b")));
    queue.push_event(WindowEvent::Close(SwayWindowId(1)));
    assert_eq!(ids(&queue), vec![2]);
}

#[test]
fn close_untracked_is_noop() {
    let mut queue = WindowQueue::new();
    queue.push_event(WindowEvent::Focus(window(1, "a")));
    let before_priority = queue.highest_priority();
    queue.push_event(WindowEvent::Close(SwayWindowId(7)));
    assert_eq!(ids(&queue), vec![1]);
    assert_eq!(queue.highest_priority(), before_priority);
}

#[test]
fn close_on_empty_queue_is_noop() {
    let mut queue = WindowQueue::new();
    queue.push_event(WindowEvent::Close(SwayWindowId(1)));
    assert!(queue.sorted_windows().is_empty());
    assert_eq!(queue.highest_priority(), 0);
}

#[test]
fn priorities_increase_only_on_focus() {
    let mut queue = WindowQueue::new();
    queue.push_event(WindowEvent::Focus(window(1, "a")));
    assert_eq!(queue.highest_priority(), 1);
    queue.push_event(WindowEvent::Close(SwayWindowId(1)));
    assert_eq!(queue.highest_priority(), 1);
    queue.push_event(WindowEvent::Focus(window(2, "b")));
    assert_eq!(queue.highest_priority(), 2);
}

#[test]
fn clone_preserves_snapshot() {
    let mut queue = WindowQueue::new();
    queue.push_event(WindowEvent::Focus(window(1, "a")));
    queue.push_event(WindowEvent::Focus(window(2, "b")));
    let copy = queue.clone();
    assert_eq!(ids(&copy), ids(&queue));
    assert_eq!(copy.highest_priority(), queue.highest_priority());
}

#[test]
fn mixed_event_sequence_tracks_survivors() {
    let mut queue = WindowQueue::new();
    queue.push_event(WindowEvent::Focus(window(1, "a")));
    queue.push_event(WindowEvent::Focus(window(2, "b")));
    queue.push_event(WindowEvent::Focus(window(3, "c")));
    queue.push_event(WindowEvent::Close(SwayWindowId(2)));
    queue.push_event(WindowEvent::Focus(window(1, "a")));
    queue.push_event(WindowEvent::Focus(window(4, "d")));
    assert_eq!(ids(&queue), vec![4, 1, 3]);
}
