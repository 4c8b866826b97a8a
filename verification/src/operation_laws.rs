//! What each operation of the runner does, in terms of what the runner has before and
//! after it and of the single actions that it asks for.
use vstd::prelude::*;

use crate::action::{only, return_of, Action, Request, WebError};
use crate::dialogue::{over, Answer, Dialogue};
use crate::frame::{
    after_schedule, cancellation, kind_for, schedule_call, schedule_step, AnimationFrameKind,
    AnimationFrameRequest, Purpose, ScheduleStage,
};
use crate::ledger::{lemma_after_all_balanced, Operation, Page, Resource};
use crate::panic_handler::PanicSummary;
use crate::platform::Platform;
use crate::runner::{listener_step, AppSlot, RunnerState};
use crate::startup::{
    activation_request, create_step, handlers_step, install_step, keep_observer_step,
    kept_unless_failed, observer_step, style_request, style_step, text_agent_step, CreateStage,
    InstallStage, ObserverStage, PreparedWebRunner, StyleStage, TextAgentStage,
};
use crate::subscription::{unsubscription, EventToUnsubscribe, ListenerOptions, TargetEvent};

verus! {

// ----------------------------------------------------------------------------
// Single actions

/// Does the action end this subscription? A listener is removed by its own target, name
/// and callback, under the capture flag that it was added with, which is not set by
/// default; an interval is cleared by its own handle.
pub open spec fn ends<P: Platform>(action: Action<P>, event: EventToUnsubscribe<P>) -> bool {
    match event {
        EventToUnsubscribe::TargetEvent(listener) => {
            &&& action matches Action::RemoveEventListener { event: removed, capture }
            &&& removed == listener
            &&& capture == match listener.options {
                ListenerOptions::Default => false,
                ListenerOptions::Given { capture: given, .. } => given,
            }
        },
        EventToUnsubscribe::IntervalHandle(interval) => action == Action::<P>::ClearInterval(
            interval,
        ),
    }
}

/// Does the action cancel this frame? An animation frame is cancelled as one, and the
/// timer that stands in for one is cleared, each by its own id.
pub open spec fn cancels<P: Platform>(action: Action<P>, frame: AnimationFrameRequest<P>) -> bool {
    match frame.kind {
        AnimationFrameKind::AnimationFrame => action == (Action::<P>::CancelAnimationFrame {
            id: frame.id,
            callback: frame.callback,
        }),
        AnimationFrameKind::Timeout => action == (Action::<P>::ClearTimeout {
            id: frame.id,
            callback: frame.callback,
        }),
    }
}

/// Each subscription is ended by an action of its own, and by no other one.
pub proof fn law_unsubscription_ends_its_subscription<P: Platform>(
    event: EventToUnsubscribe<P>,
    other: EventToUnsubscribe<P>,
)
    ensures
        ends(unsubscription(event), event),
        ends(unsubscription(event), other) ==> event == other,
{
}

/// Each frame is cancelled by an action of its own, and by no other one.
pub proof fn law_cancellation_cancels_its_frame<P: Platform>(
    frame: AnimationFrameRequest<P>,
    other: AnimationFrameRequest<P>,
)
    ensures
        cancels(cancellation(frame), frame),
        cancels(cancellation(frame), other) ==> frame == other,
{
}

// ----------------------------------------------------------------------------
// Giving back

/// How many actions a value takes that may be there or not.
pub open spec fn one_if(present: bool) -> int {
    if present {
        1
    } else {
        0
    }
}

/// To unsubscribe from all events takes one action for each of them, in the order in which
/// they were subscribed to, and then one for the resize observer if there is one. The
/// panic, the application and the frame stay.
pub proof fn law_unsubscribe_from_all_events<P: Platform>(state: RunnerState<P>)
    ensures
        ({
            let actions = state.unsubscribe_actions();
            let after = state.unsubscribed();
            let n = state.events.len() as int;
            &&& actions.len() == n + one_if(state.resize_observer is Some)
            &&& forall|i: int| 0 <= i < n ==> ends(#[trigger] actions[i], state.events[i])
            &&& state.resize_observer matches Some(observer) ==> actions[n]
                == Action::<P>::DropResizeObserver(observer)
            &&& after.events.len() == 0
            &&& after.resize_observer is None
            &&& after.panic == state.panic
            &&& after.app == state.app
            &&& after.frame == state.frame
        }),
{
}

/// To cancel the frame takes one action that cancels the frame in flight, and none if
/// there is none. Everything else stays.
pub proof fn law_cancel_frame<P: Platform>(state: RunnerState<P>)
    ensures
        ({
            let actions = state.cancel_actions();
            let after = state.without_frame();
            &&& actions.len() == one_if(state.frame is Some)
            &&& state.frame matches Some(frame) ==> cancels(actions[0], frame)
            &&& after.frame is None
            &&& after.panic == state.panic
            &&& after.app == state.app
            &&& after.events == state.events
            &&& after.resize_observer == state.resize_observer
        }),
{
}

/// To give everything back but the application takes what unsubscribes from all events,
/// and then what cancels the frame. The panic and the application stay.
pub proof fn law_destroy_locked<P: Platform>(state: RunnerState<P>)
    ensures
        ({
            let actions = state.strip_actions();
            let after = state.stripped();
            let n = state.events.len() as int;
            let m = n + one_if(state.resize_observer is Some);
            &&& actions.len() == m + one_if(state.frame is Some)
            &&& forall|i: int| 0 <= i < n ==> ends(#[trigger] actions[i], state.events[i])
            &&& state.resize_observer matches Some(observer) ==> actions[n]
                == Action::<P>::DropResizeObserver(observer)
            &&& state.frame matches Some(frame) ==> cancels(actions[m], frame)
            &&& after.events.len() == 0
            &&& after.resize_observer is None
            &&& after.frame is None
            &&& after.panic == state.panic
            &&& after.app == state.app
        }),
{
    law_unsubscribe_from_all_events(state);
    law_cancel_frame(state);
    let unsubscribe = state.unsubscribe_actions();
    assert forall|i: int| 0 <= i < state.events.len() implies ends(
        #[trigger] state.strip_actions()[i],
        state.events[i],
    ) by {
        assert(ends(unsubscribe[i], state.events[i]));
    }
}

/// To destroy the runner takes one action for each subscription, in the order in which
/// they were made, then one for the resize observer, then one that cancels the frame, and
/// then one that shuts the application down; each of these for what is there. Nothing is
/// left but the memory of a panic.
pub proof fn law_destroy<P: Platform>(state: RunnerState<P>)
    ensures
        ({
            let actions = state.destroy_actions();
            let after = state.destroyed();
            let n = state.events.len() as int;
            let m = n + one_if(state.resize_observer is Some);
            let k = m + one_if(state.frame is Some);
            &&& actions.len() == k + one_if(state.app is Idle)
            &&& forall|i: int| 0 <= i < n ==> ends(#[trigger] actions[i], state.events[i])
            &&& state.resize_observer matches Some(observer) ==> actions[n]
                == Action::<P>::DropResizeObserver(observer)
            &&& state.frame matches Some(frame) ==> cancels(actions[m], frame)
            &&& state.app matches AppSlot::Idle(app) ==> actions[k] == Action::<P>::DestroyApp(app)
            &&& after.events.len() == 0
            &&& after.resize_observer is None
            &&& after.frame is None
            &&& after.app is Vacant
            &&& after.panic == state.panic
        }),
{
    law_destroy_locked(state);
    let strip = state.strip_actions();
    assert forall|i: int| 0 <= i < state.events.len() implies ends(
        #[trigger] state.destroy_actions()[i],
        state.events[i],
    ) by {
        assert(ends(strip[i], state.events[i]));
    }
}

/// A runner that has its application shuts it down when it is destroyed: as the last
/// thing, once, and without dropping any application otherwise. One without its
/// application at hand shuts none down and drops none.
pub proof fn law_destroy_shuts_the_app_down<P: Platform>(state: RunnerState<P>)
    ensures
        ({
            let actions = state.destroy_actions();
            &&& state.app matches AppSlot::Idle(app) ==> actions.len() > 0 && actions.last()
                == Action::<P>::DestroyApp(app)
            &&& forall|i: int|
                0 <= i < actions.len() && (#[trigger] actions[i] is DestroyApp) ==> state.app is Idle
                    && i == actions.len() - 1
            &&& forall|i: int| 0 <= i < actions.len() ==> !(#[trigger] actions[i] is DropApp)
        }),
{
    law_destroy(state);
    let actions = state.destroy_actions();
    let n = state.events.len();
    assert forall|i: int| 0 <= i < actions.len() implies !(#[trigger] actions[i] is DropApp) && (
    actions[i] is DestroyApp ==> state.app is Idle && i == actions.len() - 1) by {
        if i < n {
            assert(ends(actions[i], state.events[i]));
        }
    }
}

/// One subscription more takes one action more when the runner is destroyed, right after
/// those of the subscriptions before it, and changes none of the others.
pub proof fn law_one_more_subscription<P: Platform>(
    state: RunnerState<P>,
    more: RunnerState<P>,
    event: EventToUnsubscribe<P>,
)
    requires
        more.events == state.events.push(event),
        more.panic == state.panic,
        more.app == state.app,
        more.frame == state.frame,
        more.resize_observer == state.resize_observer,
    ensures
        ({
            let n = state.events.len() as int;
            let fewer = state.destroy_actions();
            let actions = more.destroy_actions();
            &&& actions.len() == fewer.len() + 1
            &&& forall|i: int| 0 <= i < n ==> #[trigger] actions[i] == fewer[i]
            &&& ends(actions[n], event)
            &&& forall|i: int| n < i < actions.len() ==> #[trigger] actions[i] == fewer[i - 1]
        }),
{
    law_destroy(state);
    law_destroy(more);
    let n = state.events.len() as int;
    let fewer = state.destroy_actions();
    let actions = more.destroy_actions();
    assert(more.events[n] == event);
    assert forall|i: int| 0 <= i < n implies #[trigger] actions[i] == fewer[i] by {
        assert(more.events[i] == state.events[i]);
        assert(ends(actions[i], more.events[i]));
        assert(ends(fewer[i], state.events[i]));
    }
}

/// A runner that is destroyed because of an error asks for exactly what it asks for when
/// it is destroyed without one, so its application is shut down, and ends with the error.
pub proof fn law_failure_destroys<P: Platform>(state: RunnerState<P>, error: P::Error)
    ensures
        state.failed(error).actions == state.destroy_actions(),
        state.failed(error).request == Request::<P>::Return(Err(WebError::Js(error))),
        state.app matches AppSlot::Idle(app) ==> state.failed(error).actions.last() == Action::<
            P,
        >::DestroyApp(app),
{
    law_destroy_shuts_the_app_down(state);
}

// ----------------------------------------------------------------------------
// The lock

/// An attempt to lock gets the application if and only if there has been no panic and the
/// runner has it, whatever else the runner has. It then changes nothing but that the
/// application is locked. An attempt that gets nothing changes nothing either, unless
/// there has been a panic: then it unsubscribes from all events. Only then does an attempt
/// ask for anything.
pub proof fn law_lock_attempt<P: Platform>(state: RunnerState<P>)
    ensures
        ({
            let after = state.after_lock_attempt();
            let actions = state.lock_attempt_actions();
            &&& match (state.panic, state.app) {
                (None, AppSlot::Idle(app)) => {
                    &&& state.locked_app() == Some(app)
                    &&& after.app is Locked
                },
                _ => {
                    &&& state.locked_app() is None
                    &&& after.app == state.app
                },
            }
            &&& state.panic is None ==> {
                &&& actions.len() == 0
                &&& after.events == state.events
                &&& after.resize_observer == state.resize_observer
            }
            &&& state.panic is Some ==> {
                &&& actions == state.unsubscribe_actions()
                &&& after.events.len() == 0
                &&& after.resize_observer is None
            }
            &&& after.panic == state.panic
            &&& after.frame == state.frame
        }),
{
}

/// After a panic, an attempt to lock ends each subscription by an action of its own, and
/// drops the resize observer.
pub proof fn law_lock_attempt_after_panic<P: Platform>(state: RunnerState<P>)
    requires
        state.panic is Some,
    ensures
        ({
            let actions = state.lock_attempt_actions();
            let n = state.events.len() as int;
            &&& actions.len() == n + one_if(state.resize_observer is Some)
            &&& forall|i: int| 0 <= i < n ==> ends(#[trigger] actions[i], state.events[i])
            &&& state.resize_observer matches Some(observer) ==> actions[n]
                == Action::<P>::DropResizeObserver(observer)
        }),
{
    law_lock_attempt(state);
    law_unsubscribe_from_all_events(state);
}

/// What an attempt to lock gets depends on the panic and on the application alone: two
/// runners that agree on these give the same, whatever they are subscribed to, watch, or
/// have in flight.
pub proof fn law_lock_depends_on_panic_and_app<P: Platform>(
    state: RunnerState<P>,
    other: RunnerState<P>,
)
    requires
        state.panic is Some <==> other.panic is Some,
        state.app == other.app,
    ensures
        state.locked_app() == other.locked_app(),
        state.after_lock_attempt().app == other.after_lock_attempt().app,
{
    law_lock_attempt(state);
    law_lock_attempt(other);
}

/// An application that is given back is with the runner, and nothing else changes. The
/// next attempt gets it unless there has been a panic.
pub proof fn law_unlock<P: Platform>(state: RunnerState<P>, app: P::App)
    ensures
        ({
            let after = state.with_app(AppSlot::Idle(app));
            &&& after.app == AppSlot::<P>::Idle(app)
            &&& after.panic == state.panic
            &&& after.events == state.events
            &&& after.frame == state.frame
            &&& after.resize_observer == state.resize_observer
            &&& state.panic is None ==> after.locked_app() == Some(app)
        }),
{
}

/// What the runner tells of itself: it has panicked if it remembers a panic, and it is
/// locked if its application is. A new runner has nothing, has not panicked and is not
/// locked; a panic changes nothing but the memory of it.
pub proof fn law_queries<P: Platform>(state: RunnerState<P>, summary: PanicSummary)
    ensures
        state.panicked() <==> state.panic is Some,
        state.locked() <==> state.app is Locked,
        ({
            let new = RunnerState::<P>::initial();
            &&& new.panic is None
            &&& new.app is Vacant
            &&& new.events.len() == 0
            &&& new.frame is None
            &&& new.resize_observer is None
        }),
        ({
            let after = state.with_panic(summary);
            &&& after.panic == Some(summary)
            &&& after.app == state.app
            &&& after.events == state.events
            &&& after.frame == state.frame
            &&& after.resize_observer == state.resize_observer
        }),
{
}

// ----------------------------------------------------------------------------
// Listeners

/// A listener that was added is remembered behind all others, with its target, name,
/// callback and options; one that was refused is not, and is dropped. Nothing else
/// changes, and the operation ends as the call did.
pub proof fn law_listener_added<P: Platform>(
    state: RunnerState<P>,
    event: TargetEvent<P>,
    outcome: Result<(), P::Error>,
)
    ensures
        ({
            let after = state.after_listener(event, outcome);
            let step = listener_step(event, outcome);
            let n = state.events.len() as int;
            &&& match outcome {
                Ok(_) => {
                    &&& after.events.len() == n + 1
                    &&& forall|i: int|
                        0 <= i < n ==> #[trigger] after.events[i] == state.events[i]
                    &&& after.events[n] == EventToUnsubscribe::<P>::TargetEvent(event)
                    &&& step.actions.len() == 0
                    &&& step.request == Request::<P>::Return(Ok(()))
                },
                Err(error) => {
                    &&& after.events == state.events
                    &&& step.actions == seq![Action::<P>::DropListener(event)]
                    &&& step.request == Request::<P>::Return(Err(WebError::Js(error)))
                },
            }
            &&& after.panic == state.panic
            &&& after.app == state.app
            &&& after.frame == state.frame
            &&& after.resize_observer == state.resize_observer
        }),
{
}

/// Is this one of the things that end subscriptions? The runner is destroyed, all are
/// ended on request, an activation fails, or someone tries to lock the application after
/// a panic.
pub open spec fn ends_subscriptions<P: Platform>(page: Page<P>, operation: Operation<P>) -> bool {
    match operation {
        Operation::Destroy | Operation::DestroyLocked | Operation::UnsubscribeFromAllEvents => true,
        Operation::TryLock => page.runner.panic is Some,
        Operation::RequestFrame { purpose, outcome, .. } => purpose is Activation && outcome is Err
            && page.runner.frame is None,
        _ => false,
    }
}

/// Does nothing of what happens end subscriptions?
pub open spec fn leaves_subscriptions<P: Platform>(
    page: Page<P>,
    history: Seq<Operation<P>>,
) -> bool
    decreases history.len(),
{
    history.len() > 0 ==> leaves_subscriptions(page, history.drop_last()) && !ends_subscriptions(
        page.after_all(history.drop_last()),
        history.last(),
    )
}

/// A subscription stays, in its place, and stays installed in the page, until the runner
/// is destroyed, all subscriptions are ended on request, an activation fails, or someone
/// tries to lock the application after a panic. Whether there is an application, and
/// whether it is locked, does not matter.
pub proof fn law_subscriptions_stay<P: Platform>(
    page: Page<P>,
    history: Seq<Operation<P>>,
    i: int,
)
    requires
        page.balanced(),
        page.admits_all(history),
        leaves_subscriptions(page, history),
        0 <= i < page.runner.events.len(),
    ensures
        ({
            let after = page.after_all(history);
            &&& i < after.runner.events.len()
            &&& after.runner.events[i] == page.runner.events[i]
            &&& after.installed.contains(Resource::Event(page.runner.events[i]))
        }),
{
    lemma_events_stay(page, history, i);
    lemma_after_all_balanced(page, history);
    let runner = page.after_all(history).runner;
    let resources = runner.events.map_values(
        |event: EventToUnsubscribe<P>| Resource::<P>::Event(event),
    );
    assert(resources[i] == Resource::<P>::Event(page.runner.events[i]));
    assert(resources.contains(Resource::<P>::Event(page.runner.events[i])));
    broadcast use vstd::seq_lib::group_to_multiset_ensures;

    assert(resources.to_multiset().count(Resource::Event(page.runner.events[i])) > 0);
}

proof fn lemma_events_stay<P: Platform>(page: Page<P>, history: Seq<Operation<P>>, i: int)
    requires
        leaves_subscriptions(page, history),
        0 <= i < page.runner.events.len(),
    ensures
        i < page.after_all(history).runner.events.len(),
        page.after_all(history).runner.events[i] == page.runner.events[i],
    decreases history.len(),
{
    if history.len() > 0 {
        lemma_events_stay(page, history.drop_last(), i);
        law_operations_change_only_their_own(
            page.after_all(history.drop_last()),
            history.last(),
        );
    }
}

// ----------------------------------------------------------------------------
// Frames

/// While a frame is in flight, however it was scheduled, a request for a frame is over at
/// once, whatever it is for: it asks the page for nothing and changes nothing. While none
/// is, it asks for the state of the document.
pub proof fn law_frame_request<P: Platform>(
    page: Page<P>,
    purpose: Purpose,
    hidden: Option<bool>,
    callback: P::FrameCallback,
    outcome: Result<i32, P::Error>,
)
    ensures
        ({
            let start = Dialogue::at(page, page.runner.frame_request(purpose));
            &&& page.runner.frame is Some ==> {
                &&& start.request == Request::<P>::Return(Ok(()))
                &&& page.frame_requested(purpose, hidden, callback, outcome) == page
            }
            &&& page.runner.frame is None ==> {
                &&& start.request matches Request::InspectDocument(stage)
                &&& stage.purpose == purpose
                &&& page.frame_requested(purpose, hidden, callback, outcome) == start.answered(
                    Answer::Document { callback, hidden },
                ).answered(Answer::Scheduled(outcome)).page
            }
        }),
{
}

/// The document decides how a frame is scheduled: a hidden one has a timer of ten
/// milliseconds, a visible one and a missing one have an animation frame. The call is made
/// with the callback that was given.
pub proof fn law_document_decides<P: Platform>(
    page: Page<P>,
    purpose: Purpose,
    hidden: Option<bool>,
    callback: P::FrameCallback,
)
    requires
        page.runner.frame is None,
    ensures
        ({
            let asked = Dialogue::at(page, page.runner.frame_request(purpose)).answered(
                Answer::Document { callback, hidden },
            );
            &&& asked.page == page
            &&& asked.request == schedule_call::<P>(
                (ScheduleStage { purpose, kind: kind_for(hidden), callback }),
            )
            &&& hidden == Some(true) ==> {
                &&& asked.request matches Request::SetTimeout { delay_ms, stage }
                &&& delay_ms == 10
                &&& stage.kind is Timeout
                &&& stage.callback == callback
                &&& stage.purpose == purpose
            }
            &&& hidden != Some(true) ==> {
                &&& asked.request matches Request::RequestAnimationFrame(stage)
                &&& stage.kind is AnimationFrame
                &&& stage.callback == callback
                &&& stage.purpose == purpose
            }
        }),
{
}

/// A frame that was scheduled is in flight, with the id that the browser gave it, with its
/// callback, and in the way in which it was scheduled; the callback of a frame that it
/// takes the place of is dropped. Nothing else changes. A frame that could not be
/// scheduled changes nothing where it was requested on its own, and destroys the runner
/// where it was the end of an activation; either way the operation ends with the error.
pub proof fn law_frame_scheduled<P: Platform>(
    state: RunnerState<P>,
    stage: ScheduleStage<P>,
    outcome: Result<i32, P::Error>,
)
    ensures
        ({
            let after = after_schedule(state, stage, outcome);
            let step = schedule_step(state, stage, outcome);
            match outcome {
                Ok(id) => {
                    &&& after.frame matches Some(frame)
                    &&& frame.id == id
                    &&& frame.kind == stage.kind
                    &&& frame.callback == stage.callback
                    &&& after.panic == state.panic
                    &&& after.app == state.app
                    &&& after.events == state.events
                    &&& after.resize_observer == state.resize_observer
                    &&& step.actions.len() == one_if(state.frame is Some)
                    &&& state.frame matches Some(displaced) ==> step.actions[0] == Action::<
                        P,
                    >::DropFrameCallback(displaced.callback)
                    &&& step.request == Request::<P>::Return(Ok(()))
                },
                Err(error) => {
                    &&& stage.purpose is Standalone ==> after == state && step.actions.len() == 0
                    &&& stage.purpose is Activation ==> after == state.destroyed() && step.actions
                        == state.destroy_actions()
                    &&& step.request == Request::<P>::Return(Err(WebError::Js(error)))
                },
            }
        }),
{
}

/// Of two requests for a frame, one right after the other, the second asks for nothing and
/// leaves the frame of the first in flight, however the first was scheduled and whatever
/// either is for.
pub proof fn law_second_request_does_nothing<P: Platform>(
    state: RunnerState<P>,
    stage: ScheduleStage<P>,
    id: i32,
    again: Purpose,
)
    ensures
        ({
            let after = after_schedule(state, stage, Ok(id));
            over(after.frame_request(again)) && after.frame_request(again) == Request::<P>::Return(
                Ok(()),
            )
        }),
{
    law_frame_scheduled(state, stage, Ok(id));
}

/// Rescheduling cancels the frame in flight, by an action that cancels that one, and always
/// asks for a fresh one. Nothing but the frame changes.
pub proof fn law_reschedule<P: Platform>(state: RunnerState<P>)
    ensures
        state.cancel_actions().len() == one_if(state.frame is Some),
        state.frame matches Some(frame) ==> cancels(state.cancel_actions()[0], frame),
        state.without_frame().frame_request(Purpose::Standalone) matches Request::InspectDocument(
            stage,
        ) && stage.purpose is Standalone,
{
    law_cancel_frame(state);
}

/// When a frame has come, it is no longer in flight, its callback is dropped, and after
/// that the application is to paint. Nothing but the frame changes.
pub proof fn law_frame_fired<P: Platform>(state: RunnerState<P>)
    ensures
        ({
            let after = state.without_frame();
            let step = state.paint_step();
            &&& step.actions.len() == one_if(state.frame is Some)
            &&& state.frame matches Some(frame) ==> step.actions[0] == Action::<
                P,
            >::DropFrameCallback(frame.callback)
            &&& step.request is Paint
            &&& after.frame is None
            &&& after.panic == state.panic
            &&& after.app == state.app
            &&& after.events == state.events
            &&& after.resize_observer == state.resize_observer
        }),
{
}

/// The application that the runner has can be locked for painting when a frame has come,
/// whatever the runner is subscribed to.
pub proof fn law_app_can_paint<P: Platform>(state: RunnerState<P>, app: P::App)
    requires
        state.panic is None,
        state.app == AppSlot::<P>::Idle(app),
    ensures
        state.without_frame().locked_app() == Some(app),
        state.without_frame().after_lock_attempt().events == state.events,
{
    law_lock_attempt(state.without_frame());
}

// ----------------------------------------------------------------------------
// Everything that can happen

/// Do the states agree on everything but the frame?
pub open spec fn same_but_frame<P: Platform>(a: RunnerState<P>, b: RunnerState<P>) -> bool {
    &&& a.panic == b.panic
    &&& a.app == b.app
    &&& a.events == b.events
    &&& a.resize_observer == b.resize_observer
}

/// Has the runner nothing but the memory of this panic?
pub open spec fn has_nothing<P: Platform>(
    state: RunnerState<P>,
    panic: Option<PanicSummary>,
) -> bool {
    &&& state.panic == panic
    &&& state.app is Vacant
    &&& state.events.len() == 0
    &&& state.frame is None
    &&& state.resize_observer is None
}

/// Is this frame in flight, scheduled as the document asks for?
pub open spec fn has_frame<P: Platform>(
    state: RunnerState<P>,
    id: i32,
    hidden: Option<bool>,
    callback: P::FrameCallback,
) -> bool {
    &&& state.frame matches Some(frame)
    &&& frame.id == id
    &&& frame.callback == callback
    &&& frame.kind is Timeout <==> hidden == Some(true)
}

/// Whatever happens to a runner changes only what it is about, in the way that it is about,
/// whatever else the runner has.
pub proof fn law_operations_change_only_their_own<P: Platform>(
    page: Page<P>,
    operation: Operation<P>,
)
    ensures
        ({
            let old = page.runner;
            let new = page.next(operation).runner;
            match operation {
                Operation::Panic(summary) => {
                    &&& new.panic == Some(summary)
                    &&& new.app == old.app
                    &&& new.events == old.events
                    &&& new.frame == old.frame
                    &&& new.resize_observer == old.resize_observer
                },
                Operation::TryLock => {
                    &&& new.panic == old.panic
                    &&& new.frame == old.frame
                    &&& if old.panic is Some {
                        &&& new.app == old.app
                        &&& new.events.len() == 0
                        &&& new.resize_observer is None
                    } else {
                        &&& old.app is Idle ==> new.app is Locked
                        &&& !(old.app is Idle) ==> new.app == old.app
                        &&& new.events == old.events
                        &&& new.resize_observer == old.resize_observer
                    }
                },
                Operation::Unlock(app) => {
                    &&& new.app == AppSlot::<P>::Idle(app)
                    &&& new.panic == old.panic
                    &&& new.events == old.events
                    &&& new.frame == old.frame
                    &&& new.resize_observer == old.resize_observer
                },
                Operation::AddListener { event, outcome } => {
                    &&& outcome is Ok ==> new.events == old.events.push(
                        EventToUnsubscribe::TargetEvent(event),
                    )
                    &&& outcome is Err ==> new.events == old.events
                    &&& new.panic == old.panic
                    &&& new.app == old.app
                    &&& new.frame == old.frame
                    &&& new.resize_observer == old.resize_observer
                },
                Operation::UnsubscribeFromAllEvents => {
                    &&& new.events.len() == 0
                    &&& new.resize_observer is None
                    &&& new.panic == old.panic
                    &&& new.app == old.app
                    &&& new.frame == old.frame
                },
                Operation::Destroy => has_nothing(new, old.panic),
                Operation::DestroyLocked => {
                    &&& new.events.len() == 0
                    &&& new.resize_observer is None
                    &&& new.frame is None
                    &&& new.panic == old.panic
                    &&& new.app == old.app
                },
                Operation::RequestFrame { purpose, hidden, callback, outcome } => if old.frame is Some {
                    new == old
                } else {
                    match (outcome, purpose) {
                        (Ok(id), _) => has_frame(new, id, hidden, callback) && same_but_frame(
                            new,
                            old,
                        ),
                        (Err(_), Purpose::Standalone) => new == old,
                        (Err(_), Purpose::Activation) => has_nothing(new, old.panic),
                    }
                },
                Operation::RescheduleFrame { hidden, callback, outcome } => {
                    &&& outcome matches Ok(id) ==> has_frame(new, id, hidden, callback)
                    &&& outcome is Err ==> new.frame is None
                    &&& same_but_frame(new, old)
                },
                Operation::CancelFrame | Operation::FrameFired => {
                    &&& new.frame is None
                    &&& same_but_frame(new, old)
                },
                Operation::KeepApp { app, .. } => {
                    &&& new.app == AppSlot::<P>::Idle(app)
                    &&& new.panic == old.panic
                    &&& new.events == old.events
                    &&& new.frame == old.frame
                    &&& new.resize_observer == old.resize_observer
                },
                Operation::KeepObserver(observer) => {
                    &&& new.resize_observer == Some(observer)
                    &&& new.panic == old.panic
                    &&& new.app == old.app
                    &&& new.events == old.events
                    &&& new.frame == old.frame
                },
            }
        }),
{
}

// ----------------------------------------------------------------------------
// The stages of a launch

/// A launch styles the canvas first: it gets the tab index 0 and no outline. Where that
/// fails the launch is over with the error; else the application is created for the same
/// canvas, with the options and the creator that were given.
pub proof fn law_style<P: Platform>(stage: StyleStage<P>, outcome: Result<(), P::Error>)
    ensures
        ({
            &&& style_request(stage) matches Request::StyleCanvas {
                tab_index,
                property,
                value,
                stage: next,
            }
            &&& tab_index == 0
            &&& property == "outline"
            &&& value == "none"
            &&& next == stage
        }),
        match outcome {
            Ok(_) => {
                &&& style_step(stage, outcome) matches Request::CreateApp {
                    web_options,
                    app_creator,
                    stage: next,
                }
                &&& web_options == stage.web_options
                &&& app_creator == stage.app_creator
                &&& next.canvas == stage.canvas
                &&& next.launch == stage.launch
            },
            Err(error) => style_step(stage, outcome) == Request::<P>::Return(
                Err(WebError::Js(error)),
            ),
        },
{
}

/// An application that was created is handed over by a preparation, together with the
/// canvas, and goes on to its repaint callback in a start. Where it could not be created
/// the launch is over with the message.
pub proof fn law_create<P: Platform>(stage: CreateStage<P>, outcome: Result<P::App, String>)
    ensures
        match outcome {
            Ok(app) => {
                &&& stage.launch is Prepare ==> {
                    &&& create_step(stage, outcome) matches Request::HandOver(prepared)
                    &&& prepared.canvas == stage.canvas
                    &&& prepared.app_runner == app
                }
                &&& stage.launch is Start ==> {
                    &&& create_step(stage, outcome) matches Request::InstallRepaintCallback {
                        app: created,
                        stage: next,
                    }
                    &&& created == app
                    &&& next.canvas == stage.canvas
                }
            },
            Err(message) => create_step(stage, outcome) == Request::<P>::Return(
                Err(WebError::App(message)),
            ),
        },
{
}

/// An activation begins with the repaint callback of the prepared application.
pub proof fn law_activation_begins<P: Platform>(prepared: PreparedWebRunner<P>)
    ensures
        ({
            &&& activation_request(prepared) matches Request::InstallRepaintCallback { app, stage }
            &&& app == prepared.app_runner
            &&& stage.canvas == prepared.canvas
        }),
{
}

/// A text agent that was attached is given to the application, and the runner stays as it
/// is. Where it could not be attached, the application of the activation is dropped, and
/// after that the runner is destroyed, with exactly the actions of its destruction; the
/// activation is over with the error.
pub proof fn law_text_agent<P: Platform>(
    state: RunnerState<P>,
    stage: TextAgentStage<P>,
    outcome: Result<P::TextAgent, P::Error>,
)
    ensures
        ({
            let step = text_agent_step(state, stage, outcome);
            let after = kept_unless_failed(state, outcome);
            match outcome {
                Ok(text_agent) => {
                    &&& step.actions.len() == 0
                    &&& step.request matches Request::GiveTextAgent {
                        app,
                        text_agent: given,
                        stage: next,
                    }
                    &&& app == stage.app
                    &&& given == text_agent
                    &&& next.canvas == stage.canvas
                    &&& after == state
                },
                Err(error) => {
                    &&& step.actions.len() == state.destroy_actions().len() + 1
                    &&& step.actions[0] == Action::<P>::DropApp(stage.app)
                    &&& step.actions.skip(1) == state.destroy_actions()
                    &&& step.request == Request::<P>::Return(Err(WebError::Js(error)))
                    &&& has_nothing(after, state.panic)
                },
            }
        }),
{
    if outcome is Err {
        assert(text_agent_step(state, stage, outcome).actions.skip(1) =~= state.destroy_actions());
    }
}

/// An application that is handed to the runner takes the place of the one before it, which
/// is dropped. The activation goes on to the resize observer for the same canvas.
pub proof fn law_install_app<P: Platform>(
    state: RunnerState<P>,
    stage: InstallStage<P>,
    app: P::App,
)
    ensures
        ({
            let step = install_step(state, stage);
            let after = state.with_app(AppSlot::Idle(app));
            &&& step.actions.len() == one_if(state.app is Idle)
            &&& state.app matches AppSlot::Idle(displaced) ==> step.actions[0] == Action::<
                P,
            >::DropApp(displaced)
            &&& step.request matches Request::CreateResizeObserver(next)
            &&& next.canvas == stage.canvas
            &&& after.app == AppSlot::<P>::Idle(app)
            &&& after.panic == state.panic
            &&& after.events == state.events
            &&& after.frame == state.frame
            &&& after.resize_observer == state.resize_observer
        }),
{
}

/// A resize observer that was created is pointed at the canvas, and the runner stays as it
/// is. Where it could not be created, the runner is destroyed, with exactly the actions of
/// its destruction, and the activation is over with the error.
pub proof fn law_resize_observer<P: Platform>(
    state: RunnerState<P>,
    stage: ObserverStage<P>,
    outcome: Result<P::ResizeObserver, P::Error>,
)
    ensures
        ({
            let step = observer_step(state, stage, outcome);
            let after = kept_unless_failed(state, outcome);
            match outcome {
                Ok(observer) => {
                    &&& step.actions.len() == 0
                    &&& step.request matches Request::ObserveCanvas { observer: given, canvas, .. }
                    &&& given == observer
                    &&& canvas == stage.canvas
                    &&& after == state
                },
                Err(error) => {
                    &&& step.actions == state.destroy_actions()
                    &&& step.request == Request::<P>::Return(Err(WebError::Js(error)))
                    &&& has_nothing(after, state.panic)
                },
            }
        }),
{
}

/// A resize observer that is handed to the runner takes the place of the one before it,
/// which is dropped. The activation goes on to the event handlers.
pub proof fn law_keep_resize_observer<P: Platform>(
    state: RunnerState<P>,
    observer: P::ResizeObserver,
)
    ensures
        ({
            let step = keep_observer_step(state);
            let after = state.with_resize_observer(observer);
            &&& step.actions.len() == one_if(state.resize_observer is Some)
            &&& state.resize_observer matches Some(displaced) ==> step.actions[0] == Action::<
                P,
            >::DropResizeObserver(displaced)
            &&& step.request is InstallEventHandlers
            &&& after.resize_observer == Some(observer)
            &&& after.panic == state.panic
            &&& after.app == state.app
            &&& after.events == state.events
            &&& after.frame == state.frame
        }),
{
}

/// Where the event handlers were installed, the activation goes on to the first frame, and
/// is over if one is in flight; the runner stays as it is. Where they could not be
/// installed, the runner is destroyed, with exactly the actions of its destruction, and the
/// activation is over with the error.
pub proof fn law_event_handlers<P: Platform>(
    state: RunnerState<P>,
    outcome: Result<(), P::Error>,
)
    ensures
        ({
            let step = handlers_step(state, outcome);
            let after = kept_unless_failed(state, outcome);
            match outcome {
                Ok(_) => {
                    &&& step.actions.len() == 0
                    &&& state.frame is Some ==> step.request == Request::<P>::Return(Ok(()))
                    &&& state.frame is None ==> {
                        &&& step.request matches Request::InspectDocument(stage)
                        &&& stage.purpose is Activation
                    }
                    &&& after == state
                },
                Err(error) => {
                    &&& step.actions == state.destroy_actions()
                    &&& step.request == Request::<P>::Return(Err(WebError::Js(error)))
                    &&& has_nothing(after, state.panic)
                },
            }
        }),
{
}

/// A step without actions asks for its request and nothing else. An operation whose last
/// call into the page succeeds or fails ends as that call did.
pub proof fn law_outcome_is_returned<P: Platform>(
    request: Request<P>,
    outcome: Result<(), P::Error>,
)
    ensures
        only(request).actions.len() == 0,
        only(request).request == request,
        outcome is Ok ==> return_of::<P>(outcome) == Request::<P>::Return(Ok(())),
        outcome matches Err(error) ==> return_of::<P>(outcome) == Request::<P>::Return(
            Err(WebError::Js(error)),
        ),
{
}

} // verus!
