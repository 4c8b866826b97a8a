use vstd::prelude::*;

use crate::action::{only, return_of, Action, Request, Step, StepView, WebError};
use crate::frame::{cancellation, AnimationFrameRequest, PaintStage, Purpose, VisibilityStage};
use crate::panic_handler::{PanicHandler, PanicSummary};
use crate::platform::Platform;
use crate::subscription::{unsubscription, EventToUnsubscribe, ListenerOptions, TargetEvent};

verus! {

/// Where the application of a runner is.
pub enum AppSlot<P: Platform> {
    /// There is none: it was never activated, or it has been destroyed.
    Vacant,

    /// With the runner.
    Idle(P::App),

    /// With the holder of the lock. A panic under the lock leaves it there for good.
    Locked,
}

/// The state of a [`WebRunner`].
pub struct RunnerState<P: Platform> {
    /// The latest panic, if there has been one.
    pub panic: Option<PanicSummary>,
    pub app: AppSlot<P>,

    /// What has been subscribed to and not unsubscribed from, oldest first.
    pub events: Seq<EventToUnsubscribe<P>>,

    /// The frame in flight.
    pub frame: Option<AnimationFrameRequest<P>>,
    pub resize_observer: Option<P::ResizeObserver>,
}

/// The one action on a value that is there, and none on one that is not.
pub open spec fn actions_of<P: Platform, T>(value: Option<T>, f: spec_fn(T) -> Action<P>) -> Seq<
    Action<P>,
> {
    match value {
        Some(v) => seq![f(v)],
        None => seq![],
    }
}

/// What follows once an event listener was added, or could not be.
pub open spec fn listener_step<P: Platform>(
    event: TargetEvent<P>,
    outcome: Result<(), P::Error>,
) -> StepView<P> {
    StepView {
        actions: match outcome {
            Ok(_) => seq![],
            Err(_) => seq![Action::DropListener(event)],
        },
        request: return_of(outcome),
    }
}

impl<P: Platform> RunnerState<P> {
    /// The state of a new runner.
    pub open spec fn initial() -> Self {
        RunnerState {
            panic: None,
            app: AppSlot::Vacant,
            events: seq![],
            frame: None,
            resize_observer: None,
        }
    }

    pub open spec fn panicked(self) -> bool {
        self.panic is Some
    }

    pub open spec fn locked(self) -> bool {
        self.app is Locked
    }

    /// Can the application be locked?
    pub open spec fn lockable(self) -> bool {
        !self.panicked() && self.app is Idle
    }

    pub open spec fn with_panic(self, summary: PanicSummary) -> Self {
        RunnerState { panic: Some(summary), ..self }
    }

    pub open spec fn with_app(self, app: AppSlot<P>) -> Self {
        RunnerState { app, ..self }
    }

    pub open spec fn with_event(self, event: EventToUnsubscribe<P>) -> Self {
        RunnerState { events: self.events.push(event), ..self }
    }

    pub open spec fn with_frame(self, frame: AnimationFrameRequest<P>) -> Self {
        RunnerState { frame: Some(frame), ..self }
    }

    pub open spec fn without_frame(self) -> Self {
        RunnerState { frame: None, ..self }
    }

    pub open spec fn with_resize_observer(self, observer: P::ResizeObserver) -> Self {
        RunnerState { resize_observer: Some(observer), ..self }
    }

    /// The state once an event listener was added, or could not be.
    pub open spec fn after_listener(
        self,
        event: TargetEvent<P>,
        outcome: Result<(), P::Error>,
    ) -> Self {
        match outcome {
            Ok(_) => self.with_event(EventToUnsubscribe::TargetEvent(event)),
            Err(_) => self,
        }
    }

    /// The state with no event to unsubscribe from and no resize observer.
    pub open spec fn unsubscribed(self) -> Self {
        RunnerState { events: seq![], resize_observer: None, ..self }
    }

    /// What unsubscribes from all events: the end of each subscription, oldest first,
    /// and after them that of the resize observer.
    pub open spec fn unsubscribe_actions(self) -> Seq<Action<P>> {
        self.events.map_values(|event: EventToUnsubscribe<P>| unsubscription(event))
            + actions_of(
            self.resize_observer,
            |observer: P::ResizeObserver| Action::DropResizeObserver(observer),
        )
    }

    /// What cancels the frame in flight.
    pub open spec fn cancel_actions(self) -> Seq<Action<P>> {
        actions_of(self.frame, |frame: AnimationFrameRequest<P>| cancellation(frame))
    }

    /// What shuts the application down.
    pub open spec fn app_actions(self) -> Seq<Action<P>> {
        match self.app {
            AppSlot::Idle(app) => seq![Action::DestroyApp(app)],
            _ => seq![],
        }
    }

    /// A state that owns nothing. Only the memory of a panic is left.
    pub open spec fn destroyed(self) -> Self {
        RunnerState { panic: self.panic, ..Self::initial() }
    }

    /// What shuts the runner down: unsubscribe from all events, cancel the frame in
    /// flight, shut the application down.
    pub open spec fn destroy_actions(self) -> Seq<Action<P>> {
        self.strip_actions() + self.app_actions()
    }

    /// A state that owns nothing but what the holder of the lock has.
    pub open spec fn stripped(self) -> Self {
        self.unsubscribed().without_frame()
    }

    /// What gives everything back but the application.
    pub open spec fn strip_actions(self) -> Seq<Action<P>> {
        self.unsubscribe_actions() + self.cancel_actions()
    }

    /// What an operation ends with that destroys the runner because of an error.
    pub open spec fn failed(self, error: P::Error) -> StepView<P> {
        StepView {
            actions: self.destroy_actions(),
            request: Request::Return(Err(WebError::Js(error))),
        }
    }

    /// What becomes of the frame in flight when it has come, or when another one takes
    /// its place.
    pub open spec fn displaced_frame_actions(self) -> Seq<Action<P>> {
        actions_of(
            self.frame,
            |frame: AnimationFrameRequest<P>| Action::DropFrameCallback(frame.callback),
        )
    }

    /// What becomes of an application when another one takes its place.
    pub open spec fn displaced_app_actions(self) -> Seq<Action<P>> {
        match self.app {
            AppSlot::Idle(app) => seq![Action::DropApp(app)],
            _ => seq![],
        }
    }

    /// What becomes of a resize observer when another one takes its place.
    pub open spec fn displaced_observer_actions(self) -> Seq<Action<P>> {
        actions_of(
            self.resize_observer,
            |observer: P::ResizeObserver| Action::DropResizeObserver(observer),
        )
    }

    /// The application that an attempt to lock it gets.
    pub open spec fn locked_app(self) -> Option<P::App> {
        match self.app {
            AppSlot::Idle(app) if !self.panicked() => Some(app),
            _ => None,
        }
    }

    /// The state after an attempt to lock the application. An attempt after a panic
    /// unsubscribes from all events instead.
    pub open spec fn after_lock_attempt(self) -> Self {
        if self.panicked() {
            self.unsubscribed()
        } else if self.lockable() {
            self.with_app(AppSlot::Locked)
        } else {
            self
        }
    }

    /// What an attempt to lock the application has to be followed by.
    pub open spec fn lock_attempt_actions(self) -> Seq<Action<P>> {
        if self.panicked() {
            self.unsubscribe_actions()
        } else {
            seq![]
        }
    }

    /// What follows the callback of a frame.
    pub open spec fn paint_step(self) -> StepView<P> {
        StepView {
            actions: self.displaced_frame_actions(),
            request: Request::Paint(PaintStage {  }),
        }
    }

    /// The first step of a frame request: none is needed while a frame is in flight.
    pub open spec fn frame_request(self, purpose: Purpose) -> Request<P> {
        if self.frame is Some {
            Request::Return(Ok(()))
        } else {
            Request::InspectDocument(VisibilityStage { purpose })
        }
    }
}

/// The outcome of an attempt to lock the application.
pub struct LockAttempt<P: Platform> {
    /// The application, if it could be locked. [`WebRunner::unlock`] takes it back.
    pub app: Option<P::App>,
    pub actions: Vec<Action<P>>,
}

/// The outcome of an event that a listener has received.
pub struct EventDelivery<P: Platform, V> {
    /// The event and the locked application to handle it with, if the event is to be
    /// handled. [`WebRunner::unlock`] takes the application back.
    pub delivered: Option<(V, P::App)>,
    pub actions: Vec<Action<P>>,
}

/// Runs a web application: keeps the application and everything that was installed
/// in the page for it.
pub struct WebRunner<P: Platform> {
    /// Have we ever panicked?
    panic_handler: PanicHandler,

    app_runner: AppSlot<P>,

    /// In case of a panic, unsubscribe these.
    events_to_unsubscribe: Vec<EventToUnsubscribe<P>>,

    /// Current animation frame in flight.
    frame: Option<AnimationFrameRequest<P>>,

    resize_observer: Option<P::ResizeObserver>,
}

impl<P: Platform> View for WebRunner<P> {
    type V = RunnerState<P>;

    closed spec fn view(&self) -> RunnerState<P> {
        RunnerState {
            panic: self.panic_handler@,
            app: self.app_runner,
            events: self.events_to_unsubscribe@,
            frame: self.frame,
            resize_observer: self.resize_observer,
        }
    }
}

impl<P: Platform> WebRunner<P> {
    /// A runner that has not panicked and owns nothing.
    pub fn new() -> (runner: Self)
        ensures
            runner@ == RunnerState::<P>::initial(),
    {
        WebRunner {
            panic_handler: PanicHandler::new(),
            app_runner: AppSlot::Vacant,
            events_to_unsubscribe: Vec::new(),
            frame: None,
            resize_observer: None,
        }
    }

    /// Has there been a panic?
    pub fn has_panicked(&self) -> (panicked: bool)
        ensures
            panicked == self@.panicked(),
    {
        self.panic_handler.has_panicked()
    }

    /// What was the panic message and callstack?
    pub fn panic_summary(&self) -> (summary: Option<PanicSummary>)
        ensures
            summary == self@.panic,
    {
        self.panic_handler.panic_summary()
    }

    /// Remembers a panic.
    pub fn record_panic(&mut self, summary: PanicSummary)
        ensures
            final(self)@ == old(self)@.with_panic(summary),
    {
        self.panic_handler.record(summary);
    }

    /// Is the application with the holder of the lock?
    pub fn is_locked(&self) -> (locked: bool)
        ensures
            locked == self@.locked(),
    {
        match self.app_runner {
            AppSlot::Locked => true,
            _ => false,
        }
    }

    /// Ends all subscriptions and drops the resize observer.
    pub fn unsubscribe_from_all_events(&mut self) -> (actions: Vec<Action<P>>)
        ensures
            final(self)@ == old(self)@.unsubscribed(),
            actions@ == old(self)@.unsubscribe_actions(),
    {
        let mut events: Vec<EventToUnsubscribe<P>> = Vec::new();
        core::mem::swap(&mut events, &mut self.events_to_unsubscribe);
        let ghost unsubscriptions = events@.map_values(
            |event: EventToUnsubscribe<P>| unsubscription(event),
        );
        let mut actions: Vec<Action<P>> = Vec::new();
        for event in remaining: events
            invariant
                remaining.seq() == old(self)@.events,
                unsubscriptions == old(self)@.events.map_values(
                    |event: EventToUnsubscribe<P>| unsubscription(event),
                ),
                actions@ == unsubscriptions.take(remaining.index() as int),
        {
            actions.push(event.unsubscribe());
        }
        match self.resize_observer.take() {
            Some(observer) => actions.push(Action::DropResizeObserver(observer)),
            None => {},
        }
        actions
    }

    /// Cancels the frame in flight.
    pub fn cancel_frame(&mut self) -> (actions: Vec<Action<P>>)
        ensures
            final(self)@ == old(self)@.without_frame(),
            actions@ == old(self)@.cancel_actions(),
    {
        let mut actions: Vec<Action<P>> = Vec::new();
        match self.frame.take() {
            Some(frame) => actions.push(frame.cancel()),
            None => {},
        }
        actions
    }

    /// Ends all subscriptions, drops the resize observer and cancels the frame in flight.
    fn strip(&mut self) -> (actions: Vec<Action<P>>)
        ensures
            final(self)@ == old(self)@.stripped(),
            actions@ == old(self)@.strip_actions(),
    {
        let mut actions = self.unsubscribe_from_all_events();
        let mut cancel = self.cancel_frame();
        actions.append(&mut cancel);
        actions
    }

    /// What becomes of a runner that is to be destroyed while its application is locked:
    /// it gives everything else back. The application stays with the holder of the lock,
    /// so the attempt to destroy the runner has failed.
    pub fn destroy_locked(&mut self) -> (actions: Vec<Action<P>>)
        requires
            old(self)@.locked(),
        ensures
            final(self)@ == old(self)@.stripped(),
            actions@ == old(self)@.strip_actions(),
    {
        self.strip()
    }

    /// Shuts the runner down and cleans up its resources.
    pub fn destroy(&mut self) -> (actions: Vec<Action<P>>)
        requires
            !old(self)@.locked(),
        ensures
            final(self)@ == old(self)@.destroyed(),
            actions@ == old(self)@.destroy_actions(),
    {
        let mut actions = self.strip();
        let mut slot = AppSlot::Vacant;
        core::mem::swap(&mut slot, &mut self.app_runner);
        match slot {
            AppSlot::Idle(app) => actions.push(Action::DestroyApp(app)),
            _ => {},
        }
        actions
    }

    /// Destroys the runner because of an error.
    pub(crate) fn fail(&mut self, error: P::Error) -> (step: Step<P>)
        requires
            !old(self)@.locked(),
        ensures
            final(self)@ == old(self)@.destroyed(),
            step@ == old(self)@.failed(error),
    {
        let actions = self.destroy();
        Step { actions, request: Request::Return(Err(WebError::Js(error))) }
    }

    /// Tries to lock the application. There is none to lock after a panic, after the
    /// runner was destroyed, or while the lock is held.
    pub fn try_lock(&mut self) -> (attempt: LockAttempt<P>)
        ensures
            final(self)@ == old(self)@.after_lock_attempt(),
            attempt.app == old(self)@.locked_app(),
            attempt.actions@ == old(self)@.lock_attempt_actions(),
    {
        if self.has_panicked() {
            let actions = self.unsubscribe_from_all_events();
            return LockAttempt { app: None, actions };
        }
        let mut slot = AppSlot::Vacant;
        core::mem::swap(&mut slot, &mut self.app_runner);
        let app = match slot {
            AppSlot::Idle(app) => {
                self.app_runner = AppSlot::Locked;
                Some(app)
            },
            AppSlot::Locked => {
                self.app_runner = AppSlot::Locked;
                None
            },
            AppSlot::Vacant => None,
        };
        LockAttempt { app, actions: Vec::new() }
    }

    /// Gives the application back.
    pub fn unlock(&mut self, app: P::App)
        requires
            old(self)@.locked(),
        ensures
            final(self)@ == old(self)@.with_app(AppSlot::Idle(app)),
    {
        self.app_runner = AppSlot::Idle(app);
    }

    /// Tries to lock the application for access to the concrete application in it.
    pub fn app_mut(&mut self) -> (attempt: LockAttempt<P>)
        ensures
            final(self)@ == old(self)@.after_lock_attempt(),
            attempt.app == old(self)@.locked_app(),
            attempt.actions@ == old(self)@.lock_attempt_actions(),
    {
        self.try_lock()
    }

    /// A listener has received an event. It is handled if the application can be locked
    /// for it, and ignored if not.
    pub fn event_received<V>(&mut self, event: V) -> (delivery: EventDelivery<P, V>)
        ensures
            final(self)@ == old(self)@.after_lock_attempt(),
            delivery.delivered == (match old(self)@.locked_app() {
                Some(app) => Some((event, app)),
                None => None,
            }),
            delivery.actions@ == old(self)@.lock_attempt_actions(),
    {
        let attempt = self.try_lock();
        let delivered = match attempt.app {
            Some(app) => Some((event, app)),
            None => None,
        };
        EventDelivery { delivered, actions: attempt.actions }
    }

    /// Adds an event listener with the default options. It goes on as
    /// [`WebRunner::add_event_listener_ex`].
    pub fn add_event_listener(
        &self,
        target: P::Target,
        event_name: &'static str,
        listener: P::Listener,
    ) -> (event: TargetEvent<P>)
        ensures
            event == (TargetEvent::<P> {
                target,
                event_name,
                listener,
                options: ListenerOptions::Default,
            }),
    {
        self.add_event_listener_ex(target, event_name, ListenerOptions::Default, listener)
    }

    /// Adds an event listener: the event is what `addEventListener` is called with, and
    /// goes to [`WebRunner::listener_added`] with the outcome of that call.
    pub fn add_event_listener_ex(
        &self,
        target: P::Target,
        event_name: &'static str,
        options: ListenerOptions<P>,
        listener: P::Listener,
    ) -> (event: TargetEvent<P>)
        ensures
            event == (TargetEvent::<P> { target, event_name, listener, options }),
    {
        TargetEvent { target, event_name, listener, options }
    }

    /// Remembers a listener that was added, so that it is removed after a panic or when
    /// the runner is destroyed. One that could not be added is not remembered, but
    /// dropped. The operation ends with the outcome.
    pub fn listener_added(
        &mut self,
        event: TargetEvent<P>,
        outcome: Result<(), P::Error>,
    ) -> (step: Step<P>)
        ensures
            final(self)@ == old(self)@.after_listener(event, outcome),
            step@ == listener_step(event, outcome),
    {
        let mut actions: Vec<Action<P>> = Vec::new();
        if outcome.is_ok() {
            self.events_to_unsubscribe.push(EventToUnsubscribe::TargetEvent(event));
        } else {
            actions.push(Action::DropListener(event));
        }
        Step { actions, request: Request::return_of(outcome) }
    }

    /// Requests a frame in which the application can paint, unless one is in flight.
    pub fn request_animation_frame(&self) -> (step: Step<P>)
        ensures
            step@ == only(self@.frame_request(Purpose::Standalone)),
    {
        self.request_frame(Purpose::Standalone)
    }

    pub(crate) fn request_frame(&self, purpose: Purpose) -> (step: Step<P>)
        ensures
            step@ == only(self@.frame_request(purpose)),
    {
        if self.frame.is_some() {
            Step::only(Request::Return(Ok(())))
        } else {
            Step::only(Request::InspectDocument(VisibilityStage { purpose }))
        }
    }

    /// Keeps an application, in place of the one before it.
    pub(crate) fn keep_app(&mut self, app: P::App) -> (actions: Vec<Action<P>>)
        requires
            !old(self)@.locked(),
        ensures
            final(self)@ == old(self)@.with_app(AppSlot::Idle(app)),
            actions@ == old(self)@.displaced_app_actions(),
    {
        let mut slot = AppSlot::Idle(app);
        core::mem::swap(&mut slot, &mut self.app_runner);
        let mut actions: Vec<Action<P>> = Vec::new();
        match slot {
            AppSlot::Idle(displaced) => actions.push(Action::DropApp(displaced)),
            _ => {},
        }
        actions
    }

    /// Keeps a resize observer, in place of the one before it.
    pub(crate) fn keep_resize_observer(&mut self, observer: P::ResizeObserver) -> (actions: Vec<
        Action<P>,
    >)
        ensures
            final(self)@ == old(self)@.with_resize_observer(observer),
            actions@ == old(self)@.displaced_observer_actions(),
    {
        let mut actions: Vec<Action<P>> = Vec::new();
        match self.resize_observer.take() {
            Some(displaced) => actions.push(Action::DropResizeObserver(displaced)),
            None => {},
        }
        self.resize_observer = Some(observer);
        actions
    }

    /// Keeps a frame that was scheduled, in place of the one before it.
    pub(crate) fn keep_frame(&mut self, frame: AnimationFrameRequest<P>) -> (actions: Vec<
        Action<P>,
    >)
        ensures
            final(self)@ == old(self)@.with_frame(frame),
            actions@ == old(self)@.displaced_frame_actions(),
    {
        let mut actions: Vec<Action<P>> = Vec::new();
        match self.frame.take() {
            Some(displaced) => actions.push(Action::DropFrameCallback(displaced.callback)),
            None => {},
        }
        self.frame = Some(frame);
        actions
    }

    /// The browser has called the callback of a frame: the frame is cleared, so that the
    /// next one can be requested, and then the application paints.
    pub fn frame_fired(&mut self) -> (step: Step<P>)
        ensures
            final(self)@ == old(self)@.without_frame(),
            step@ == old(self)@.paint_step(),
    {
        let mut actions: Vec<Action<P>> = Vec::new();
        match self.frame.take() {
            Some(frame) => actions.push(Action::DropFrameCallback(frame.callback)),
            None => {},
        }
        Step { actions, request: Request::Paint(PaintStage {  }) }
    }

    /// Cancels the frame in flight and requests a fresh one, which is then scheduled in
    /// the way that suits the document as it is now.
    pub fn reschedule_frame(&mut self) -> (step: Step<P>)
        ensures
            final(self)@ == old(self)@.without_frame(),
            step.actions@ == old(self)@.cancel_actions(),
            step.request == old(self)@.without_frame().frame_request(Purpose::Standalone),
    {
        let actions = self.cancel_frame();
        let step = self.request_animation_frame();
        Step { actions, request: step.request }
    }
}

} // verus!
