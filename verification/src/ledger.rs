//! What is installed in the page on behalf of a runner, over any course of events.
use vstd::multiset::Multiset;
use vstd::prelude::*;

use crate::action::Action;
use crate::frame::{
    after_schedule, cancellation, kind_for, schedule_step, AnimationFrameKind,
    AnimationFrameRequest, Purpose, ScheduleStage,
};
use crate::panic_handler::PanicSummary;
use crate::platform::Platform;
use crate::runner::{listener_step, AppSlot, RunnerState};
use crate::startup::{install_step, keep_observer_step, InstallStage};
use crate::subscription::{unsubscription, EventToUnsubscribe, TargetEvent};

verus! {

/// Something that is installed in the page and has to be given back.
pub enum Resource<P: Platform> {
    Event(EventToUnsubscribe<P>),
    Frame(AnimationFrameRequest<P>),
    ResizeObserver(P::ResizeObserver),
}

/// What an action gives back, where it has its effect: the browser may throw instead,
/// which the runner does not see. A listener that is asked for under another capture
/// flag than it was added with stays where it is.
pub open spec fn returned_by<P: Platform>(action: Action<P>) -> Multiset<Resource<P>> {
    match action {
        Action::RemoveEventListener { event, capture } => if capture == event.options.captures() {
            Multiset::singleton(Resource::Event(EventToUnsubscribe::TargetEvent(event)))
        } else {
            Multiset::empty()
        },
        Action::ClearInterval(interval) => Multiset::singleton(
            Resource::Event(EventToUnsubscribe::IntervalHandle(interval)),
        ),
        Action::DropResizeObserver(observer) => Multiset::singleton(
            Resource::ResizeObserver(observer),
        ),
        Action::CancelAnimationFrame { id, callback } => Multiset::singleton(
            Resource::Frame(
                AnimationFrameRequest { id, kind: AnimationFrameKind::AnimationFrame, callback },
            ),
        ),
        Action::ClearTimeout { id, callback } => Multiset::singleton(
            Resource::Frame(
                AnimationFrameRequest { id, kind: AnimationFrameKind::Timeout, callback },
            ),
        ),
        Action::DropListener(_) | Action::DropFrameCallback(_) | Action::DestroyApp(_)
        | Action::DropApp(_) => Multiset::empty(),
    }
}

/// What a list of actions gives back.
pub open spec fn returned<P: Platform>(actions: Seq<Action<P>>) -> Multiset<Resource<P>>
    decreases actions.len(),
{
    if actions.len() == 0 {
        Multiset::empty()
    } else {
        returned(actions.drop_last()).add(returned_by(actions.last()))
    }
}

/// The resource of a value that is there, and nothing of one that is not.
pub open spec fn one_of<P: Platform, T>(
    value: Option<T>,
    f: spec_fn(T) -> Resource<P>,
) -> Multiset<Resource<P>> {
    match value {
        Some(v) => Multiset::singleton(f(v)),
        None => Multiset::empty(),
    }
}

impl<P: Platform> RunnerState<P> {
    /// The subscriptions that the runner has to end.
    pub open spec fn owned_events(self) -> Multiset<Resource<P>> {
        self.events.map_values(|event: EventToUnsubscribe<P>| Resource::Event(event)).to_multiset()
    }

    pub open spec fn owned_observer(self) -> Multiset<Resource<P>> {
        one_of(self.resize_observer, |observer: P::ResizeObserver| Resource::ResizeObserver(observer))
    }

    pub open spec fn owned_frame(self) -> Multiset<Resource<P>> {
        one_of(self.frame, |frame: AnimationFrameRequest<P>| Resource::Frame(frame))
    }

    /// Everything that the runner has to give back.
    pub open spec fn owned(self) -> Multiset<Resource<P>> {
        self.owned_events().add(self.owned_observer()).add(self.owned_frame())
    }
}

/// Something that happens to a runner, with what the page answers to it.
#[allow(inconsistent_fields)]
pub enum Operation<P: Platform> {
    /// The application panics.
    Panic(PanicSummary),

    /// Someone tries to lock the application: `try_lock`, `app_mut` or `event_received`.
    TryLock,

    /// The holder of the lock gives the application back.
    Unlock(P::App),

    /// An event listener is added.
    AddListener { event: TargetEvent<P>, outcome: Result<(), P::Error> },

    /// All subscriptions are ended.
    UnsubscribeFromAllEvents,

    /// The runner is destroyed: on its own account, before an application is prepared,
    /// after one was aborted, or because something that an activation needs did not come.
    Destroy,

    /// The runner is to be destroyed while its application is locked.
    DestroyLocked,

    /// A frame is requested.
    RequestFrame {
        purpose: Purpose,
        hidden: Option<bool>,
        callback: P::FrameCallback,
        outcome: Result<i32, P::Error>,
    },

    /// The frame in flight is cancelled and a fresh one is requested.
    RescheduleFrame { hidden: Option<bool>, callback: P::FrameCallback, outcome: Result<i32, P::Error> },

    /// The frame in flight is cancelled.
    CancelFrame,

    /// The frame in flight comes.
    FrameFired,

    /// An activation hands its application to the runner.
    KeepApp { app: P::App, stage: InstallStage<P> },

    /// An activation hands its resize observer to the runner.
    KeepObserver(P::ResizeObserver),
}

/// A runner, and what is installed in the page on its behalf.
pub struct Page<P: Platform> {
    pub runner: RunnerState<P>,
    pub installed: Multiset<Resource<P>>,
}

impl<P: Platform> Page<P> {
    /// A new runner.
    pub open spec fn initial() -> Self {
        Page { runner: RunnerState::initial(), installed: Multiset::empty() }
    }

    /// The page with another state of the runner, after some actions.
    pub open spec fn after(self, runner: RunnerState<P>, actions: Seq<Action<P>>) -> Self {
        Page { runner, installed: self.installed.sub(returned(actions)) }
    }

    /// The page with something more in it.
    pub open spec fn with(self, resource: Resource<P>) -> Self {
        Page { installed: self.installed.insert(resource), ..self }
    }

    /// The page once a frame was scheduled, or could not be.
    pub open spec fn scheduled(
        self,
        stage: ScheduleStage<P>,
        outcome: Result<i32, P::Error>,
    ) -> Self {
        let page = self.after(
            after_schedule(self.runner, stage, outcome),
            schedule_step(self.runner, stage, outcome).actions,
        );
        match outcome {
            Ok(id) => page.with(
                Resource::Frame(
                    AnimationFrameRequest { id, kind: stage.kind, callback: stage.callback },
                ),
            ),
            Err(_) => page,
        }
    }

    /// The page after a request for a frame.
    pub open spec fn frame_requested(
        self,
        purpose: Purpose,
        hidden: Option<bool>,
        callback: P::FrameCallback,
        outcome: Result<i32, P::Error>,
    ) -> Self {
        if self.runner.frame is Some {
            self
        } else {
            self.scheduled(
                ScheduleStage { purpose, kind: kind_for(hidden), callback },
                outcome,
            )
        }
    }

    /// The page once the frame in flight has come. The browser calls its callback once.
    pub open spec fn fired(self) -> Self {
        Page { installed: self.installed.sub(self.runner.owned_frame()), ..self }.after(
            self.runner.without_frame(),
            self.runner.paint_step().actions,
        )
    }

    /// Can this happen? An application is only given back under the lock, and only a
    /// frame in flight comes. What would take the application away needs it not to be
    /// locked.
    pub open spec fn admits(self, operation: Operation<P>) -> bool {
        match operation {
            Operation::Unlock(_) => self.runner.locked(),
            Operation::FrameFired => self.runner.frame is Some,
            Operation::Destroy => !self.runner.locked(),
            Operation::DestroyLocked => self.runner.locked(),
            Operation::KeepApp { .. } => !self.runner.locked(),
            Operation::RequestFrame { purpose, outcome, .. } => purpose is Activation && outcome is Err
                ==> !self.runner.locked(),
            _ => true,
        }
    }

    /// The page after something has happened.
    pub open spec fn next(self, operation: Operation<P>) -> Self {
        let runner = self.runner;
        match operation {
            Operation::Panic(summary) => self.after(runner.with_panic(summary), seq![]),
            Operation::TryLock => self.after(
                runner.after_lock_attempt(),
                runner.lock_attempt_actions(),
            ),
            Operation::Unlock(app) => self.after(runner.with_app(AppSlot::Idle(app)), seq![]),
            Operation::AddListener { event, outcome } => {
                let page = self.after(
                    runner.after_listener(event, outcome),
                    listener_step(event, outcome).actions,
                );
                match outcome {
                    Ok(_) => page.with(Resource::Event(EventToUnsubscribe::TargetEvent(event))),
                    Err(_) => page,
                }
            },
            Operation::UnsubscribeFromAllEvents => self.after(
                runner.unsubscribed(),
                runner.unsubscribe_actions(),
            ),
            Operation::Destroy => self.after(runner.destroyed(), runner.destroy_actions()),
            Operation::RequestFrame { purpose, hidden, callback, outcome } => self.frame_requested(
                purpose,
                hidden,
                callback,
                outcome,
            ),
            Operation::RescheduleFrame { hidden, callback, outcome } => self.after(
                runner.without_frame(),
                runner.cancel_actions(),
            ).frame_requested(Purpose::Standalone, hidden, callback, outcome),
            Operation::DestroyLocked => self.after(runner.stripped(), runner.strip_actions()),
            Operation::CancelFrame => self.after(
                runner.without_frame(),
                runner.cancel_actions(),
            ),
            Operation::FrameFired => self.fired(),
            Operation::KeepApp { app, stage } => self.after(
                runner.with_app(AppSlot::Idle(app)),
                install_step(runner, stage).actions,
            ),
            Operation::KeepObserver(observer) => self.after(
                runner.with_resize_observer(observer),
                keep_observer_step(runner).actions,
            ).with(Resource::ResizeObserver(observer)),
        }
    }

    /// The page after one thing after another has happened.
    pub open spec fn after_all(self, history: Seq<Operation<P>>) -> Self
        decreases history.len(),
    {
        if history.len() == 0 {
            self
        } else {
            self.after_all(history.drop_last()).next(history.last())
        }
    }

    /// Can one after the other happen?
    pub open spec fn admits_all(self, history: Seq<Operation<P>>) -> bool
        decreases history.len(),
    {
        history.len() > 0 ==> self.admits_all(history.drop_last()) && self.after_all(
            history.drop_last(),
        ).admits(history.last())
    }

    /// Exactly what is installed is owned by the runner.
    pub open spec fn balanced(self) -> bool {
        self.installed == self.runner.owned()
    }
}

pub(crate) proof fn lemma_returned_concat<P: Platform>(a: Seq<Action<P>>, b: Seq<Action<P>>)
    ensures
        returned(a + b) == returned(a).add(returned(b)),
    decreases b.len(),
{
    if b.len() == 0 {
        assert(a + b == a);
        assert(returned(a).add(returned(b)) =~= returned(a));
    } else {
        lemma_returned_concat(a, b.drop_last());
        assert((a + b).drop_last() == a + b.drop_last());
        assert(returned(a + b) =~= returned(a).add(returned(b)));
    }
}

pub(crate) proof fn lemma_returned_single<P: Platform>(action: Action<P>)
    ensures
        returned(seq![action]) == returned_by(action),
{
    assert(seq![action].drop_last() == Seq::<Action<P>>::empty());
    assert(returned(seq![action].drop_last()) =~= Multiset::<Resource<P>>::empty());
    assert(returned(seq![action]) =~= returned_by(action));
}

proof fn lemma_unsubscriptions_return<P: Platform>(state: RunnerState<P>)
    ensures
        returned(
            state.events.map_values(|event: EventToUnsubscribe<P>| unsubscription(event)),
        ) == state.owned_events(),
    decreases state.events.len(),
{
    broadcast use vstd::seq_lib::group_to_multiset_ensures;

    let end = |event: EventToUnsubscribe<P>| unsubscription(event);
    let resource = |event: EventToUnsubscribe<P>| Resource::<P>::Event(event);
    if state.events.len() == 0 {
        assert(state.events.map_values(resource) == Seq::<Resource<P>>::empty());
        assert(state.owned_events() =~= Multiset::<Resource<P>>::empty());
    } else {
        let fewer = RunnerState { events: state.events.drop_last(), ..state };
        lemma_unsubscriptions_return(fewer);
        assert(state.events.map_values(end).drop_last() == fewer.events.map_values(end));
        assert(state.events.map_values(resource) == fewer.events.map_values(resource).push(
            resource(state.events.last()),
        ));
        assert(returned_by(end(state.events.last())) == Multiset::singleton(
            resource(state.events.last()),
        ));
        assert(returned(state.events.map_values(end)) =~= state.owned_events());
    }
}

/// The actions that take something from the runner give exactly that back.
pub(crate) proof fn lemma_actions_return<P: Platform>(state: RunnerState<P>)
    ensures
        returned(state.unsubscribe_actions()) == state.owned_events().add(state.owned_observer()),
        returned(state.cancel_actions()) == state.owned_frame(),
        returned(state.displaced_observer_actions()) == state.owned_observer(),
        returned(state.displaced_frame_actions()) == Multiset::<Resource<P>>::empty(),
        returned(state.displaced_app_actions()) == Multiset::<Resource<P>>::empty(),
        returned(state.app_actions()) == Multiset::<Resource<P>>::empty(),
        returned(state.strip_actions()) == state.owned(),
        returned(state.destroy_actions()) == state.owned(),
        returned(Seq::<Action<P>>::empty()) == Multiset::<Resource<P>>::empty(),
{
    lemma_unsubscriptions_return(state);
    lemma_returned_concat(
        state.events.map_values(|event: EventToUnsubscribe<P>| unsubscription(event)),
        state.displaced_observer_actions(),
    );
    if let Some(observer) = state.resize_observer {
        lemma_returned_single(Action::<P>::DropResizeObserver(observer));
    }
    if let Some(frame) = state.frame {
        lemma_returned_single(cancellation(frame));
        lemma_returned_single(Action::<P>::DropFrameCallback(frame.callback));
    }
    if let AppSlot::Idle(app) = state.app {
        lemma_returned_single(Action::<P>::DestroyApp(app));
        lemma_returned_single(Action::<P>::DropApp(app));
    }
    lemma_returned_concat(state.unsubscribe_actions(), state.cancel_actions());
    assert(returned(state.strip_actions()) =~= state.owned());
    lemma_returned_concat(state.strip_actions(), state.app_actions());
    assert(returned(state.destroy_actions()) =~= state.owned());
}

proof fn lemma_owned_after_event<P: Platform>(state: RunnerState<P>, event: EventToUnsubscribe<P>)
    ensures
        state.with_event(event).owned() == state.owned().insert(Resource::Event(event)),
{
    broadcast use vstd::seq_lib::group_to_multiset_ensures;

    let resource = |event: EventToUnsubscribe<P>| Resource::<P>::Event(event);
    assert(state.events.push(event).map_values(resource) == state.events.map_values(resource).push(
        resource(event),
    ));
    assert(state.with_event(event).owned() =~= state.owned().insert(Resource::Event(event)));
}

pub(crate) proof fn lemma_owned_without_events<P: Platform>(state: RunnerState<P>)
    requires
        state.events.len() == 0,
    ensures
        state.owned_events() == Multiset::<Resource<P>>::empty(),
{
    lemma_unsubscriptions_return(state);
}

pub(crate) proof fn lemma_scheduled_balanced<P: Platform>(
    page: Page<P>,
    stage: ScheduleStage<P>,
    outcome: Result<i32, P::Error>,
)
    requires
        page.balanced(),
        page.runner.frame is None,
    ensures
        page.scheduled(stage, outcome).balanced(),
{
    let after = page.scheduled(stage, outcome);
    lemma_actions_return(page.runner);
    lemma_owned_without_events(page.runner.destroyed());
    assert(after.installed =~= after.runner.owned());
}

proof fn lemma_next_balanced<P: Platform>(page: Page<P>, operation: Operation<P>)
    requires
        page.balanced(),
        page.admits(operation),
    ensures
        page.next(operation).balanced(),
{
    let runner = page.runner;
    let next = page.next(operation);
    match operation {
        Operation::Panic(_) | Operation::Unlock(_) => {
            lemma_actions_return(runner);
            assert(next.installed =~= next.runner.owned());
        },
        Operation::TryLock | Operation::UnsubscribeFromAllEvents => {
            lemma_actions_return(runner);
            lemma_owned_without_events(runner.unsubscribed());
            assert(next.installed =~= next.runner.owned());
        },
        Operation::AddListener { event, outcome } => {
            lemma_actions_return(runner);
            lemma_owned_after_event(runner, EventToUnsubscribe::TargetEvent(event));
            lemma_returned_single(Action::<P>::DropListener(event));
            assert(next.installed =~= next.runner.owned());
        },
        Operation::Destroy => {
            lemma_actions_return(runner);
            lemma_owned_without_events(runner.destroyed());
            assert(next.installed =~= next.runner.owned());
        },
        Operation::RequestFrame { purpose, hidden, callback, outcome } => {
            if runner.frame is None {
                let stage = ScheduleStage { purpose, kind: kind_for(hidden), callback };
                lemma_scheduled_balanced(page, stage, outcome);
            }
        },
        Operation::RescheduleFrame { hidden, callback, outcome } => {
            lemma_actions_return(runner);
            let cancelled = page.after(runner.without_frame(), runner.cancel_actions());
            assert(cancelled.installed =~= cancelled.runner.owned());
            let stage = ScheduleStage {
                purpose: Purpose::Standalone,
                kind: kind_for(hidden),
                callback,
            };
            lemma_scheduled_balanced(cancelled, stage, outcome);
        },
        Operation::DestroyLocked => {
            lemma_actions_return(runner);
            lemma_owned_without_events(runner.stripped());
            assert(next.installed =~= next.runner.owned());
        },
        Operation::CancelFrame | Operation::FrameFired => {
            lemma_actions_return(runner);
            assert(next.installed =~= next.runner.owned());
        },
        Operation::KeepApp { .. } | Operation::KeepObserver(_) => {
            lemma_actions_return(runner);
            assert(next.installed =~= next.runner.owned());
        },
    }
}

/// A balanced page stays balanced.
pub(crate) proof fn lemma_after_all_balanced<P: Platform>(page: Page<P>, history: Seq<Operation<P>>)
    requires
        page.balanced(),
        page.admits_all(history),
    ensures
        page.after_all(history).balanced(),
    decreases history.len(),
{
    if history.len() > 0 {
        lemma_after_all_balanced(page, history.drop_last());
        lemma_next_balanced(page.after_all(history.drop_last()), history.last());
    }
}

/// Whatever happens to a runner, what is installed in the page on its behalf is at any
/// time exactly what the runner owns, where each of its actions has its effect.
pub proof fn law_installed_is_owned<P: Platform>(history: Seq<Operation<P>>)
    requires
        Page::<P>::initial().admits_all(history),
    ensures
        Page::<P>::initial().after_all(history).balanced(),
{
    lemma_owned_without_events(RunnerState::<P>::initial());
    assert(Page::<P>::initial().installed =~= RunnerState::<P>::initial().owned());
    lemma_after_all_balanced(Page::<P>::initial(), history);
}

} // verus!
