//! Window lifecycle events: the identity and record types, and the pure
//! classifier that turns one raw window-manager notification into at most one
//! domain event under the urgent-window policy.

use vstd::prelude::*;
use crate::sway::icon::{IconLocator, IconLocatorView};

verus! {

/// Opaque window identity assigned by the window manager; compared by value.
/// The value 0 is reserved to mean "no window" (used when the switcher is
/// empty at selection time).
#[derive(Debug, Clone, Copy, Default, PartialEq, Eq, Hash, Structural)]
pub struct SwayWindowId(pub i64);

impl SwayWindowId {
    /// Whether this is the reserved "no window" identity.
    pub fn is_null(&self) -> (r: bool)
        ensures
            r == (self.0 == 0),
    {
        self.0 == 0
    }
}

/// The view of a `Window`.
#[verifier::ext_equal]
pub struct WindowView {
    pub id: SwayWindowId,
    pub title: Seq<char>,
    pub icon_locator: IconLocatorView,
}

/// One schedulable window: its identity, title, and icon-locator hints.
/// Immutable once constructed; re-focusing replaces the record wholesale.
#[derive(Debug)]
pub struct Window {
    pub id: SwayWindowId,
    pub title: String,
    pub icon_locator: IconLocator,
}

impl View for Window {
    type V = WindowView;

    open spec fn view(&self) -> WindowView {
        WindowView { id: self.id, title: self.title@, icon_locator: self.icon_locator@ }
    }
}

impl DeepView for Window {
    type V = WindowView;

    open spec fn deep_view(&self) -> WindowView {
        self.view()
    }
}

impl Clone for Window {
    fn clone(&self) -> (res: Self)
        ensures
            res@ == self@,
    {
        let res = Window {
            id: self.id,
            title: self.title.clone(),
            icon_locator: self.icon_locator.clone(),
        };
        proof {
            assert(res@ =~= self@);
        }
        res
    }
}

/// The view of a `WindowEvent`.
pub enum WindowEventView {
    Focus(WindowView),
    Close(SwayWindowId),
}

/// A domain event applied to the window queue.
#[derive(Debug)]
pub enum WindowEvent {
    /// A window was focused, created, or marked urgent.
    Focus(Window),
    /// A window was closed.
    Close(SwayWindowId),
}

impl View for WindowEvent {
    type V = WindowEventView;

    open spec fn view(&self) -> WindowEventView {
        match self {
            WindowEvent::Focus(w) => WindowEventView::Focus(w@),
            WindowEvent::Close(id) => WindowEventView::Close(*id),
        }
    }
}

impl DeepView for WindowEvent {
    type V = WindowEventView;

    open spec fn deep_view(&self) -> WindowEventView {
        self.view()
    }
}

/// The kind of change a raw window notification reports.
#[derive(Debug, Clone, Copy, PartialEq, Eq)]
pub enum WindowChange {
    /// The window was created.
    New,
    /// The window received focus.
    Focus,
    /// The window's urgency flag changed (in either direction).
    Urgent,
    /// The window was closed.
    Close,
    /// Any other window change (title, move, fullscreen, ...).
    Other,
}

/// The view of a `WindowNode`.
#[verifier::ext_equal]
pub struct WindowNodeView {
    pub id: SwayWindowId,
    pub urgent: bool,
    pub name: Option<Seq<char>>,
    pub app_id: Option<Seq<char>>,
    pub x_window_class: Option<Seq<char>>,
    pub x_window_instance: Option<Seq<char>>,
}

/// What the core reads from the window container carried by a raw
/// notification: identity, current urgency, the title-equivalent, and the
/// application-identity fields, each only when the window manager supplied
/// it.
#[derive(Debug)]
pub struct WindowNode {
    pub id: SwayWindowId,
    pub urgent: bool,
    pub name: Option<String>,
    pub app_id: Option<String>,
    pub x_window_class: Option<String>,
    pub x_window_instance: Option<String>,
}

impl View for WindowNode {
    type V = WindowNodeView;

    open spec fn view(&self) -> WindowNodeView {
        WindowNodeView {
            id: self.id,
            urgent: self.urgent,
            name: self.name.deep_view(),
            app_id: self.app_id.deep_view(),
            x_window_class: self.x_window_class.deep_view(),
            x_window_instance: self.x_window_instance.deep_view(),
        }
    }
}

/// The view of a `SwayEvent`.
pub enum SwayEventView {
    Window(WindowChange, WindowNodeView),
    Other,
}

/// One raw notification from the window-manager event stream.
#[derive(Debug)]
pub enum SwayEvent {
    /// A window lifecycle notification.
    Window(WindowChange, WindowNode),
    /// A notification that is not about a window's lifecycle at all.
    Other,
}

impl View for SwayEvent {
    type V = SwayEventView;

    open spec fn view(&self) -> SwayEventView {
        match self {
            SwayEvent::Window(change, node) => SwayEventView::Window(*change, node@),
            SwayEvent::Other => SwayEventView::Other,
        }
    }
}

/// Whether a window carries the minimum identifying fields to appear in the
/// switcher: a title-equivalent and at least one application-identity field.
pub open spec fn node_schedulable(n: WindowNodeView) -> bool {
    &&& n.name is Some
    &&& (n.app_id is Some || n.x_window_class is Some || n.x_window_instance is Some)
}

/// The window record built from a schedulable node.
pub open spec fn record_of(n: WindowNodeView) -> WindowView {
    WindowView {
        id: n.id,
        title: n.name.unwrap(),
        icon_locator: IconLocatorView {
            app_id: n.app_id,
            x_window_class: n.x_window_class,
            x_window_instance: n.x_window_instance,
            window_title: n.name,
        },
    }
}

/// The classifier: at most one domain event per raw notification.
///
/// "Created" and "focused" yield `Focus`; "urgent" yields `Focus` only when
/// the urgent-first policy is enabled and the window is currently urgent (an
/// urgent-to-not-urgent transition must not reorder the queue); "closed"
/// yields `Close`; everything else, and any window lacking its minimum
/// identifying fields, yields nothing.
pub open spec fn filter_event_spec(e: SwayEventView, urgent_first: bool) -> Option<
    WindowEventView,
> {
    match e {
        SwayEventView::Window(change, node) => match change {
            WindowChange::Close => Some(WindowEventView::Close(node.id)),
            WindowChange::Other => None,
            _ => if change is Urgent && (!urgent_first || !node.urgent) {
                None
            } else if !node_schedulable(node) {
                None
            } else {
                Some(WindowEventView::Focus(record_of(node)))
            },
        },
        SwayEventView::Other => None,
    }
}

/// Classify one raw notification under the urgent-window policy.
pub fn filter_event(event: SwayEvent, urgent_first: bool) -> (r: Option<WindowEvent>)
    ensures
        r.deep_view() == filter_event_spec(event@, urgent_first),
{
    match event {
        SwayEvent::Window(change, node) => match change {
            WindowChange::Close => Some(WindowEvent::Close(node.id)),
            WindowChange::Other => None,
            _ => {
                if matches!(change, WindowChange::Urgent) && (!urgent_first || !node.urgent) {
                    // Either urgent-first ordering is turned off, or the
                    // urgency changed from urgent to not-urgent, which must
                    // not affect the order in the window switcher.
                    return None;
                }
                let has_identity = node.app_id.is_some() || node.x_window_class.is_some()
                    || node.x_window_instance.is_some();
                match node.name {
                    Some(title) => {
                        if has_identity {
                            let window_title = title.clone();
                            Some(
                                WindowEvent::Focus(
                                    Window {
                                        id: node.id,
                                        title,
                                        icon_locator: IconLocator {
                                            app_id: node.app_id,
                                            x_window_class: node.x_window_class,
                                            x_window_instance: node.x_window_instance,
                                            window_title: Some(window_title),
                                        },
                                    },
                                ),
                            )
                        } else {
                            None
                        }
                    },
                    None => None,
                }
            },
        },
        SwayEvent::Other => None,
    }
}

/// What the background listener does with one item from the event stream.
#[derive(Debug)]
pub enum ListenerStep {
    /// A classified domain event: apply it to the shared queue.
    Apply(WindowEvent),
    /// A stream failure: hand it to the rendezvous error channel (and stop
    /// if nobody is listening any more).
    Report(StreamError),
    /// The notification is not a domain event: do nothing.
    Skip,
}

/// The listener rule: classify each event that arrives and apply the result;
/// pass a stream failure on for the next read to surface.
pub fn classify_step(item: Result<SwayEvent, StreamError>, urgent_first: bool) -> (s: ListenerStep)
    ensures
        item matches Ok(event) ==> match filter_event_spec(event@, urgent_first) {
            Some(ev) => s matches ListenerStep::Apply(applied) && applied@ == ev,
            None => s is Skip,
        },
        item matches Err(failure) ==> s == ListenerStep::Report(failure),
{
    match item {
        Result::Ok(event) => match filter_event(event, urgent_first) {
            Some(domain_event) => ListenerStep::Apply(domain_event),
            None => ListenerStep::Skip,
        },
        Result::Err(failure) => ListenerStep::Report(failure),
    }
}

/// The urgent-window policy: an urgency-only notification is ignored when
/// `urgent_first` is off, and ignored on the urgent-to-not-urgent transition
/// even when it is on.
pub proof fn lemma_urgent_policy(node: WindowNodeView, urgent_first: bool)
    ensures
        !urgent_first ==> filter_event_spec(
            SwayEventView::Window(WindowChange::Urgent, node),
            urgent_first,
        ) is None,
        !node.urgent ==> filter_event_spec(
            SwayEventView::Window(WindowChange::Urgent, node),
            urgent_first,
        ) is None,
{
}

/// A failure reported by the window-manager event stream.
#[derive(Debug, Clone, PartialEq, Eq)]
pub struct StreamError {
    /// What the stream reported when reading the next event failed.
    pub message: String,
}

/// A failure surfaced by `get_window_list`.
#[derive(Debug)]
pub enum SubscriptionError {
    /// The event stream failed. This is reported exactly once, on the first
    /// read after it happened.
    Stream(StreamError),
    /// The error channel is gone: the listener shut down after its failure
    /// was consumed, so the subscription is unavailable.
    ChannelClosed,
    /// The queue lock is poisoned: a writer panicked mid-mutation. The list
    /// is temporarily unavailable; a later read may be tried again.
    LockPoisoned,
}

impl SubscriptionError {
    /// A human-readable description of the failure.
    pub fn message(&self) -> (r: String)
        ensures
            *self matches SubscriptionError::Stream(e) ==> r@ == e.message@,
            *self is ChannelClosed ==> r@
                == "cannot receive an event stream error: channel closed unexpectedly"@,
            *self is LockPoisoned ==> r@ == "lock on window priority queue is poisoned"@,
    {
        match self {
            SubscriptionError::Stream(e) => e.message.clone(),
            SubscriptionError::ChannelClosed => "cannot receive an event stream error: channel closed unexpectedly".to_owned(),
            SubscriptionError::LockPoisoned => "lock on window priority queue is poisoned".to_owned(),
        }
    }
}

/// What polling the rendezvous error channel yielded.
#[derive(Debug)]
pub enum ErrorPoll {
    /// A stream failure was waiting; polling consumed it.
    Error(StreamError),
    /// No failure is pending.
    Empty,
    /// The sending side is gone.
    Disconnected,
}

/// The receiving end of the rendezvous error channel.
#[verifier::external_type_specification]
#[verifier::external_body]
#[verifier::reject_recursive_types(T)]
pub struct ExReceiver<T>(std::sync::mpsc::Receiver<T>);

/// The reader/writer lock that shares the queue between the listener thread
/// and the foreground.
#[verifier::external_type_specification]
#[verifier::external_body]
#[verifier::reject_recursive_types(T)]
pub struct ExRwLock<T: ?Sized>(std::sync::RwLock<T>);

/// Relies on `std::sync::mpsc::Receiver::try_recv`: a non-blocking poll that
/// returns a waiting message, or reports the channel empty or disconnected.
/// What comes back depends on the sending thread, so nothing more is
/// assumed of it.
#[verifier::external_body]
fn poll_error(errors: &std::sync::mpsc::Receiver<StreamError>) -> (r: ErrorPoll) {
    match errors.try_recv() {
        Ok(e) => ErrorPoll::Error(e),
        Err(std::sync::mpsc::TryRecvError::Empty) => ErrorPoll::Empty,
        Err(std::sync::mpsc::TryRecvError::Disconnected) => ErrorPoll::Disconnected,
    }
}

/// Relies on `std::sync::RwLock::read`: takes shared access for the duration
/// of one clone of the guarded queue, or reports the lock poisoned. The
/// queue's contents depend on the listener thread, so nothing is assumed of
/// the value read.
#[verifier::external_body]
fn read_queue(
    queue: &std::sync::Arc<std::sync::RwLock<crate::sway::queue::WindowQueue>>,
) -> (r: Option<crate::sway::queue::WindowQueue>) {
    match queue.read() {
        Ok(guard) => Some(guard.clone()),
        Err(_) => None,
    }
}

/// The read-path rule: a pending stream failure is surfaced first; a closed
/// channel or a poisoned lock is an error; otherwise the snapshot comes from
/// the queue value that was read.
pub fn resolve_window_list(poll: ErrorPoll, queue: Option<crate::sway::queue::WindowQueue>) -> (r:
    Result<Vec<Window>, SubscriptionError>)
    ensures
        poll matches ErrorPoll::Error(e) ==> r == Err::<Vec<Window>, SubscriptionError>(
            SubscriptionError::Stream(e),
        ),
        poll is Disconnected ==> r == Err::<Vec<Window>, SubscriptionError>(
            SubscriptionError::ChannelClosed,
        ),
        poll is Empty ==> match queue {
            Some(q) => r matches Ok(list) && list.deep_view() == crate::sway::queue::windows_of(
                q@,
            ),
            None => r == Err::<Vec<Window>, SubscriptionError>(SubscriptionError::LockPoisoned),
        },
{
    match poll {
        ErrorPoll::Error(e) => Err(SubscriptionError::Stream(e)),
        ErrorPoll::Disconnected => Err(SubscriptionError::ChannelClosed),
        ErrorPoll::Empty => match queue {
            None => Err(SubscriptionError::LockPoisoned),
            Some(q) => Ok(q.sorted_windows()),
        },
    }
}

/// A live window-event subscription: the shared queue that the background
/// listener fills, and the rendezvous channel on which the listener reports
/// a stream failure. Opening the window-manager connection and spawning the
/// listener are I/O and happen in the binary; the read path is the core's.
#[derive(Debug)]
pub struct WindowSubscription {
    queue: std::sync::Arc<std::sync::RwLock<crate::sway::queue::WindowQueue>>,
    errors: std::sync::mpsc::Receiver<StreamError>,
}

impl WindowSubscription {
    /// Assemble a subscription from its two halves: the shared queue the
    /// listener writes, and the receiving end of the rendezvous error
    /// channel the listener reports on.
    pub fn from_parts(
        queue: std::sync::Arc<std::sync::RwLock<crate::sway::queue::WindowQueue>>,
        errors: std::sync::mpsc::Receiver<StreamError>,
    ) -> WindowSubscription {
        WindowSubscription { queue, errors }
    }

    /// The ordered window list, or the failure the listener reported.
    ///
    /// The rendezvous channel is polled first, so a stream failure is
    /// surfaced on exactly the next read after it was reported, and polling
    /// consumes it; only when no failure is pending is the queue read, under
    /// shared access for the duration of one snapshot copy.
    pub fn get_window_list(&self) -> (r: Result<Vec<Window>, SubscriptionError>) {
        let poll = poll_error(&self.errors);
        match poll {
            ErrorPoll::Empty => {
                let queue = read_queue(&self.queue);
                resolve_window_list(ErrorPoll::Empty, queue)
            },
            other => resolve_window_list(other, None),
        }
    }
}

} // verus!
