use vstd::prelude::*;

use crate::action::Action;
use crate::platform::Platform;

verus! {

/// The options that an event listener is added with.
pub enum ListenerOptions<P: Platform> {
    /// The default options. The listener does not capture.
    Default,

    /// These options. `capture` is their capture flag.
    Given { options: P::ListenerOptions, capture: bool },
}

impl<P: Platform> ListenerOptions<P> {
    /// The capture flag of the options.
    pub open spec fn captures(self) -> bool {
        match self {
            ListenerOptions::Default => false,
            ListenerOptions::Given { capture, .. } => capture,
        }
    }

    /// The capture flag of the options.
    pub fn capture(&self) -> (capture: bool)
        ensures
            capture == self.captures(),
    {
        match self {
            ListenerOptions::Default => false,
            ListenerOptions::Given { capture, .. } => *capture,
        }
    }
}

/// An event listener: what it is added with, and what it takes to remove it again. A
/// target tells its listeners apart by the name of the events, the callback and the
/// capture flag.
pub struct TargetEvent<P: Platform> {
    pub target: P::Target,
    pub event_name: &'static str,
    pub listener: P::Listener,
    pub options: ListenerOptions<P>,
}

/// A running interval timer.
pub struct IntervalHandle<P: Platform> {
    pub handle: i32,
    pub callback: P::IntervalCallback,
}

/// A subscription that has to be ended when the runner is destroyed or has panicked.
pub enum EventToUnsubscribe<P: Platform> {
    TargetEvent(TargetEvent<P>),
    IntervalHandle(IntervalHandle<P>),
}

/// What ends a subscription.
pub open spec fn unsubscription<P: Platform>(event: EventToUnsubscribe<P>) -> Action<P> {
    match event {
        EventToUnsubscribe::TargetEvent(event) => Action::RemoveEventListener {
            event,
            capture: event.options.captures(),
        },
        EventToUnsubscribe::IntervalHandle(interval) => Action::ClearInterval(interval),
    }
}

impl<P: Platform> EventToUnsubscribe<P> {
    /// Ends the subscription: a listener is removed from its target, under the capture
    /// flag that it was added with; an interval is cleared. [`Action::result`] says when that fails.
    pub fn unsubscribe(self) -> (action: Action<P>)
        ensures
            action == unsubscription(self),
    {
        match self {
            EventToUnsubscribe::TargetEvent(event) => {
                let capture = event.options.capture();
                Action::RemoveEventListener { event, capture }
            },
            EventToUnsubscribe::IntervalHandle(interval) => Action::ClearInterval(interval),
        }
    }
}

} // verus!
