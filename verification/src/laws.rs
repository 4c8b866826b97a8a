//! What holds of the runner as a whole.
use vstd::multiset::Multiset;
use vstd::prelude::*;

use crate::action::{return_of, Action, Request, WebError};
use crate::dialogue::{over, Answer, Dialogue, Exchange};
use crate::frame::{
    after_schedule, kind_for, schedule_call, AnimationFrameRequest, Purpose,
    ScheduleStage,
};
use crate::ledger::{
    law_installed_is_owned, lemma_actions_return, returned, Operation, Page, Resource,
};
use crate::panic_handler::PanicSummary;
use crate::platform::Platform;
use crate::runner::{AppSlot, RunnerState};
use crate::subscription::{EventToUnsubscribe, TargetEvent};

verus! {

// ----------------------------------------------------------------------------
// Nothing is left behind

/// Nothing is given back that is not installed: what the runner asks to be removed,
/// cleared, cancelled or disconnected is in the page at that time, as often as it is
/// asked for.
pub proof fn law_only_installed_is_returned<P: Platform>(history: Seq<Operation<P>>)
    requires
        Page::<P>::initial().admits_all(history),
    ensures
        ({
            let page = Page::<P>::initial().after_all(history);
            &&& returned(page.runner.unsubscribe_actions()).subset_of(page.installed)
            &&& returned(page.runner.cancel_actions()).subset_of(page.installed)
            &&& returned(page.runner.displaced_observer_actions()).subset_of(page.installed)
            &&& returned(page.runner.strip_actions()).subset_of(page.installed)
            &&& returned(page.runner.destroy_actions()).subset_of(page.installed)
        }),
{
    law_installed_is_owned(history);
    lemma_actions_return(Page::<P>::initial().after_all(history).runner);
}

/// A runner that is destroyed leaves nothing in the page, whatever has happened to it
/// before. This speaks of what the runner asks for: where the browser throws while a
/// listener is removed, that listener stays.
pub proof fn law_destroy_leaves_nothing<P: Platform>(history: Seq<Operation<P>>)
    requires
        Page::<P>::initial().admits_all(history),
        !Page::<P>::initial().after_all(history).runner.locked(),
    ensures
        ({
            let page = Page::<P>::initial().after_all(history);
            &&& returned(page.runner.destroy_actions()) == page.installed
            &&& page.next(Operation::Destroy).installed == Multiset::<Resource<P>>::empty()
        }),
{
    let page = Page::<P>::initial().after_all(history);
    law_installed_is_owned(history);
    lemma_actions_return(page.runner);
    assert(page.next(Operation::Destroy).installed =~= Multiset::<Resource<P>>::empty());
}

/// To destroy a runner twice is to destroy it once.
pub proof fn law_destroy_is_idempotent<P: Platform>(state: RunnerState<P>)
    ensures
        state.destroyed().destroyed() == state.destroyed(),
        state.destroyed().destroy_actions() == Seq::<Action<P>>::empty(),
{
    assert(state.destroyed().destroy_actions() =~= Seq::<Action<P>>::empty());
}

/// An event listener that is in the page is removed when the runner is destroyed, and
/// after a panic as soon as anyone tries to lock the application; in either case under
/// the capture flag that it was added with, whatever its options.
pub proof fn law_listeners_are_removed<P: Platform>(
    history: Seq<Operation<P>>,
    listener: TargetEvent<P>,
)
    requires
        Page::<P>::initial().admits_all(history),
        Page::<P>::initial().after_all(history).installed.contains(
            Resource::Event(EventToUnsubscribe::TargetEvent(listener)),
        ),
    ensures
        ({
            let runner = Page::<P>::initial().after_all(history).runner;
            let removal = Action::RemoveEventListener {
                event: listener,
                capture: listener.options.captures(),
            };
            &&& runner.destroy_actions().contains(removal)
            &&& runner.panicked() ==> runner.lock_attempt_actions().contains(removal)
        }),
{
    broadcast use vstd::seq_lib::group_to_multiset_ensures;

    law_installed_is_owned(history);
    let runner = Page::<P>::initial().after_all(history).runner;
    let event = EventToUnsubscribe::TargetEvent(listener);
    let resources = runner.events.map_values(
        |event: EventToUnsubscribe<P>| Resource::<P>::Event(event),
    );
    assert(runner.owned_events().count(Resource::Event(event)) > 0);
    assert(resources.contains(Resource::Event(event)));
    let i = resources.index_of(Resource::Event(event));
    assert(runner.events[i] == event);
    let removal = Action::RemoveEventListener {
        event: listener,
        capture: listener.options.captures(),
    };
    assert(runner.unsubscribe_actions()[i] == removal);
    assert(runner.destroy_actions()[i] == removal);
}

/// After a panic, the next attempt to lock the application leaves no subscription and
/// no resize observer in the page.
pub proof fn law_panic_ends_all_subscriptions<P: Platform>(
    history: Seq<Operation<P>>,
    resource: Resource<P>,
)
    requires
        Page::<P>::initial().admits_all(history),
        Page::<P>::initial().after_all(history).runner.panicked(),
        !(resource is Frame),
    ensures
        !Page::<P>::initial().after_all(history).next(Operation::TryLock).installed.contains(
            resource,
        ),
{
    law_installed_is_owned(history);
    let page = Page::<P>::initial().after_all(history);
    lemma_actions_return(page.runner);
    assert(page.next(Operation::TryLock).installed =~= page.runner.owned_frame());
}

// ----------------------------------------------------------------------------
// The lock

/// The panic that happened last.
pub open spec fn last_panic<P: Platform>(history: Seq<Operation<P>>) -> Option<PanicSummary>
    decreases history.len(),
{
    if history.len() == 0 {
        None
    } else {
        match history.last() {
            Operation::Panic(summary) => Some(summary),
            _ => last_panic(history.drop_last()),
        }
    }
}

/// A runner has panicked if and only if there was a panic, and remembers the latest one.
pub proof fn law_panic_is_the_last_one<P: Platform>(history: Seq<Operation<P>>)
    ensures
        ({
            let runner = Page::<P>::initial().after_all(history).runner;
            &&& runner.panic == last_panic(history)
            &&& runner.panicked() <==> exists|i: int|
                0 <= i < history.len() && #[trigger] history[i] is Panic
        }),
    decreases history.len(),
{
    if history.len() > 0 {
        let fewer = history.drop_last();
        law_panic_is_the_last_one(fewer);
        assert(forall|i: int| 0 <= i < fewer.len() ==> history[i] == #[trigger] fewer[i]);
        let runner = Page::<P>::initial().after_all(history).runner;
        if runner.panicked() {
            if history.last() is Panic {
                assert(history[history.len() - 1] is Panic);
            } else {
                let i = choose|i: int| 0 <= i < fewer.len() && #[trigger] fewer[i] is Panic;
                assert(history[i] is Panic);
            }
        } else {
            assert forall|i: int| 0 <= i < history.len() implies !(
            #[trigger] history[i] is Panic) by {
                if i < fewer.len() {
                    assert(!(fewer[i] is Panic));
                }
            }
        }
    }
}

/// A panic is never forgotten, and after it the application is never locked again.
pub proof fn law_no_lock_after_panic<P: Platform>(page: Page<P>, history: Seq<Operation<P>>)
    requires
        page.runner.panicked(),
    ensures
        page.after_all(history).runner.panicked(),
        page.after_all(history).runner.locked_app() is None,
    decreases history.len(),
{
    if history.len() > 0 {
        law_no_lock_after_panic(page, history.drop_last());
    }
}

/// Once the runner is destroyed, the application cannot be locked until an activation
/// hands the runner another one.
pub proof fn law_no_lock_after_destroy<P: Platform>(page: Page<P>, history: Seq<Operation<P>>)
    requires
        !page.runner.locked(),
        page.next(Operation::Destroy).admits_all(history),
        forall|i: int| 0 <= i < history.len() ==> !(#[trigger] history[i] is KeepApp),
    ensures
        page.next(Operation::Destroy).after_all(history).runner.app is Vacant,
        page.next(Operation::Destroy).after_all(history).runner.locked_app() is None,
    decreases history.len(),
{
    if history.len() > 0 {
        law_no_lock_after_destroy(page, history.drop_last());
        assert(history.last() == history[history.len() - 1]);
    }
}

/// The lock is exclusive, and gives out what it was given: while it is held, no other
/// attempt gets the application and the runner stays as it is; once the application is
/// given back, the next attempt gets it as it was given back.
pub proof fn law_lock_is_exclusive<P: Platform>(
    state: RunnerState<P>,
    held: P::App,
    app: P::App,
)
    requires
        state.panic is None,
        state.app == AppSlot::<P>::Idle(held),
    ensures
        state.locked_app() == Some(held),
        state.after_lock_attempt().app is Locked,
        state.after_lock_attempt().locked_app() is None,
        state.after_lock_attempt().after_lock_attempt() == state.after_lock_attempt(),
        state.after_lock_attempt().lock_attempt_actions() == Seq::<Action<P>>::empty(),
        state.after_lock_attempt().with_app(AppSlot::Idle(app)).locked_app() == Some(app),
        state.after_lock_attempt().with_app(AppSlot::Idle(app)) == state.with_app(
            AppSlot::Idle(app),
        ),
{
}

// ----------------------------------------------------------------------------
// Frames

/// At most one frame is scheduled at a time.
pub proof fn law_at_most_one_frame<P: Platform>(
    history: Seq<Operation<P>>,
    frame: AnimationFrameRequest<P>,
    other: AnimationFrameRequest<P>,
)
    requires
        Page::<P>::initial().admits_all(history),
    ensures
        ({
            let installed = Page::<P>::initial().after_all(history).installed;
            &&& installed.count(Resource::Frame(frame)) <= 1
            &&& installed.contains(Resource::Frame(frame)) && installed.contains(
                Resource::Frame(other),
            ) ==> frame == other
        }),
{
    broadcast use vstd::seq_lib::group_to_multiset_ensures;

    law_installed_is_owned(history);
    let runner = Page::<P>::initial().after_all(history).runner;
    let resources = runner.events.map_values(
        |event: EventToUnsubscribe<P>| Resource::<P>::Event(event),
    );
    assert(!resources.contains(Resource::Frame(frame)));
    assert(!resources.contains(Resource::Frame(other)));
    assert(resources.to_multiset().count(Resource::Frame(frame)) == 0);
    assert(resources.to_multiset().count(Resource::Frame(other)) == 0);
}

/// A request for a frame while one is in flight does nothing, so that one request right
/// after another schedules a single frame.
pub proof fn law_frame_requests_coalesce<P: Platform>(
    page: Page<P>,
    purpose: Purpose,
    hidden: Option<bool>,
    callback: P::FrameCallback,
    id: i32,
    again: Operation<P>,
)
    requires
        again is RequestFrame,
    ensures
        page.frame_requested(purpose, hidden, callback, Ok(id)).runner.frame is Some,
        page.frame_requested(purpose, hidden, callback, Ok(id)).next(again)
            == page.frame_requested(purpose, hidden, callback, Ok(id)),
        forall|other: Purpose|
            #[trigger] page.frame_requested(purpose, hidden, callback, Ok(id)).runner.frame_request(
                other,
            ) == Request::<P>::Return(Ok(())),
{
}

/// A frame is cancelled by the call that goes with the one that scheduled it, with the
/// id that this one returned.
pub proof fn law_cancel_matches_schedule<P: Platform>(
    state: RunnerState<P>,
    purpose: Purpose,
    hidden: Option<bool>,
    callback: P::FrameCallback,
    id: i32,
)
    ensures
        ({
            let stage = ScheduleStage { purpose, kind: kind_for(hidden), callback };
            let scheduled = after_schedule(state, stage, Ok(id));
            let cancelled = scheduled.cancel_actions();
            &&& hidden == Some(true) ==> {
                &&& schedule_call(stage) is SetTimeout
                &&& cancelled == seq![Action::<P>::ClearTimeout { id, callback }]
            }
            &&& hidden != Some(true) ==> {
                &&& schedule_call(stage) is RequestAnimationFrame
                &&& cancelled == seq![Action::<P>::CancelAnimationFrame { id, callback }]
            }
        }),
{
}

/// Rescheduling takes the frame in flight out of the page and leaves the fresh one in
/// its place, scheduled in the way that suits the document.
pub proof fn law_reschedule_replaces_the_frame<P: Platform>(
    history: Seq<Operation<P>>,
    hidden: Option<bool>,
    callback: P::FrameCallback,
    id: i32,
)
    requires
        Page::<P>::initial().admits_all(history),
    ensures
        ({
            let page = Page::<P>::initial().after_all(history);
            let fresh = AnimationFrameRequest { id, kind: kind_for(hidden), callback };
            let after = page.next(
                Operation::RescheduleFrame { hidden, callback, outcome: Ok(id) },
            );
            &&& after.runner == page.runner.with_frame(fresh)
            &&& after.installed == page.installed.sub(page.runner.owned_frame()).insert(
                Resource::Frame(fresh),
            )
        }),
{
    law_installed_is_owned(history);
    let page = Page::<P>::initial().after_all(history);
    lemma_actions_return(page.runner);
    let fresh = AnimationFrameRequest { id, kind: kind_for(hidden), callback };
    let after = page.next(Operation::RescheduleFrame { hidden, callback, outcome: Ok(id) });
    assert(after.installed =~= page.installed.sub(page.runner.owned_frame()).insert(
        Resource::Frame(fresh),
    ));
}

/// A request for a frame is over at once while a frame is in flight, with the page as it
/// was. Else it asks the page for the state of the document and then for one call that
/// schedules the frame. Either way it has the same effect as the operation as a whole.
pub proof fn law_frame_request_dialogue<P: Platform>(
    page: Page<P>,
    purpose: Purpose,
    hidden: Option<bool>,
    callback: P::FrameCallback,
    outcome: Result<i32, P::Error>,
)
    ensures
        page.runner.frame is Some ==> {
            &&& page.runner.frame_request(purpose) == Request::<P>::Return(Ok(()))
            &&& page.frame_requested(purpose, hidden, callback, outcome) == page
        },
        page.runner.frame is None ==> ({
            let start = Dialogue::at(page, page.runner.frame_request(purpose));
            let asked = start.answered(Answer::Document { callback, hidden });
            let end = asked.answered(Answer::Scheduled(outcome));
            &&& start.request is InspectDocument
            &&& asked.page == page
            &&& asked.request == schedule_call::<P>(
                (ScheduleStage { purpose, kind: kind_for(hidden), callback }),
            )
            &&& end.page == page.frame_requested(purpose, hidden, callback, outcome)
            &&& outcome is Ok ==> end.request == Request::<P>::Return(Ok(()))
            &&& outcome matches Err(error) ==> end.request == Request::<P>::Return(
                Err(WebError::Js(error)),
            )
        }),
{
}

/// When the callback of a frame runs, the frame is cleared before the application
/// paints, so that a request for a frame during the painting schedules a new one. The
/// application paints once, and the callback ends with the outcome of that.
pub proof fn law_painting_follows_the_cleared_frame<P: Platform>(
    page: Page<P>,
    exchange: Exchange<P>,
    purpose: Purpose,
    hidden: Option<bool>,
    callback: P::FrameCallback,
    id: i32,
)
    requires
        Dialogue::at(page.fired(), page.runner.paint_step().request).admits(exchange),
    ensures
        ({
            let painting = Dialogue::at(page.fired(), page.runner.paint_step().request);
            let painted = painting.next(exchange);
            let fresh = AnimationFrameRequest { id, kind: kind_for(hidden), callback };
            &&& painting.request is Paint
            &&& painting.page.runner == page.runner.without_frame()
            &&& painting.page.runner.frame_request(purpose) is InspectDocument
            &&& painting.page.frame_requested(purpose, hidden, callback, Ok(id)).runner
                == painting.page.runner.with_frame(fresh)
            &&& exchange.answer matches Answer::Painted(outcome) && painted.request == return_of::<
                P,
            >(outcome)
            &&& over(painted.request)
            &&& painted.page == painting.page.after_all(exchange.meanwhile)
        }),
{
}

} // verus!
