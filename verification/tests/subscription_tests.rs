use std::sync::mpsc::sync_channel;
use std::sync::{Arc, RwLock};

use swtchr::sway::icon::IconLocator;
use swtchr::sway::queue::WindowQueue;
use swtchr::sway::subscribe::{
    resolve_window_list, ErrorPoll, StreamError, SubscriptionError, SwayWindowId, Window,
    WindowEvent, WindowSubscription,
};

fn window(id: i64, title: &str) -> Window {
    Window {
        id: SwayWindowId(id),
        title: title.to_owned(),
        icon_locator: IconLocator {
            app_id: Some(title.to_owned()),
            x_window_class: None,
            x_window_instance: None,
            window_title: Some(title.to_owned()),
        },
    }
}

#[test]
fn window_list_reflects_the_shared_queue() {
    let mut queue = WindowQueue::new();
    queue.push_event(WindowEvent::Focus(window(1, "a")));
    queue.push_event(WindowEvent::Focus(window(2, "b")));
    let shared = Arc::new(RwLock::new(queue));
    let (sender, receiver) = sync_channel::<StreamError>(0);
    let subscription = WindowSubscription::from_parts(Arc::clone(&shared), receiver);

    let list = subscription.get_window_list().unwrap();
    let ids: Vec<i64> = list.iter().map(|w| w.id.0).collect();
    assert_eq!(ids, vec![2, 1]);

    // A later write by the listener side shows up on the next read.
    shared.write().unwrap().push_event(WindowEvent::Focus(window(3, "c")));
    let list = subscription.get_window_list().unwrap();
    let ids: Vec<i64> = list.iter().map(|w| w.id.0).collect();
    assert_eq!(ids, vec![3, 2, 1]);

    drop(sender);
}

#[test]
fn closed_error_channel_makes_the_subscription_unavailable() {
    let shared = Arc::new(RwLock::new(WindowQueue::new()));
    let (sender, receiver) = sync_channel::<StreamError>(0);
    let subscription = WindowSubscription::from_parts(shared, receiver);
    drop(sender);
    let result = subscription.get_window_list();
    assert!(matches!(result, Err(SubscriptionError::ChannelClosed)));
}

#[test]
fn pending_stream_failure_is_surfaced_first() {
    let error = StreamError { message: "connection dropped".to_owned() };
    let mut queue = WindowQueue::new();
    queue.push_event(WindowEvent::Focus(window(1, "a")));
    let result = resolve_window_list(ErrorPoll::Error(error.clone()), Some(queue));
    match result {
        Err(SubscriptionError::Stream(e)) => assert_eq!(e, error),
        other => panic!("expected the stream failure, got {other:?}"),
    }
}

#[test]
fn poisoned_lock_is_a_recoverable_error() {
    let result = resolve_window_list(ErrorPoll::Empty, None);
    assert!(matches!(result, Err(SubscriptionError::LockPoisoned)));
}

#[test]
fn empty_poll_takes_the_snapshot() {
    let mut queue = WindowQueue::new();
    queue.push_event(WindowEvent::Focus(window(5, "e")));
    let list = resolve_window_list(ErrorPoll::Empty, Some(queue)).unwrap();
    assert_eq!(list.len(), 1);
    assert_eq!(list[0].id.0, 5);
    assert_eq!(list[0].title, "e");
}

#[test]
fn subscription_errors_have_messages() {
    assert_eq!(
        SubscriptionError::LockPoisoned.message(),
        "lock on window priority queue is poisoned"
    );
    assert_eq!(
        SubscriptionError::ChannelClosed.message(),
        "cannot receive an event stream error: channel closed unexpectedly"
    );
    let stream = SubscriptionError::Stream(StreamError { message: "gone".to_owned() });
    assert_eq!(stream.message(), "gone");
}
