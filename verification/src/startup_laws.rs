//! What holds of preparing, activating and aborting an application as a whole.
use vstd::multiset::Multiset;
use vstd::prelude::*;

use crate::action::{Action, Request};
use crate::dialogue::{error_of, over, succeeds, Answer, Dialogue, Exchange};
use crate::frame::{kind_for, schedule_call, AnimationFrameRequest, Purpose, ScheduleStage};
use crate::laws::law_destroy_leaves_nothing;
use crate::ledger::{
    lemma_actions_return, lemma_after_all_balanced, lemma_owned_without_events,
    lemma_returned_concat, lemma_returned_single, lemma_scheduled_balanced, Operation, Page,
    Resource,
};
use crate::operation_laws::law_destroy_shuts_the_app_down;
use crate::platform::Platform;
use crate::runner::{AppSlot, RunnerState};
use crate::startup::{
    activation_request, style_request, CreateStage, Launch, PreparedWebRunner, StyleStage,
};

verus! {

// ----------------------------------------------------------------------------
// The order of requests

/// Where a request stands in the order of the requests.
pub open spec fn rank<P: Platform>(request: Request<P>) -> int {
    match request {
        Request::StyleCanvas { .. } => 0,
        Request::CreateApp { .. } => 1,
        Request::InstallRepaintCallback { .. } => 2,
        Request::AttachTextAgent(_) => 3,
        Request::GiveTextAgent { .. } => 4,
        Request::CreateResizeObserver(_) => 5,
        Request::ObserveCanvas { .. } => 6,
        Request::InstallEventHandlers(_) => 7,
        Request::InspectDocument(_) => 8,
        Request::RequestAnimationFrame(_) | Request::SetTimeout { .. } | Request::Paint(_) => 9,
        Request::HandOver(_) | Request::Return(_) => 10,
    }
}

/// Each request of an operation comes at most once, in the order of [`rank`] and
/// without a gap, until the operation is over. So a start makes at most ten requests,
/// and an activation at most eight.
pub proof fn law_requests_come_in_order<P: Platform>(
    start: Dialogue<P>,
    exchanges: Seq<Exchange<P>>,
)
    requires
        !over(start.request),
        start.admits_all(exchanges),
    ensures
        ({
            let end = start.after_all(exchanges);
            ||| over(end.request)
            ||| rank(end.request) == rank(start.request) + exchanges.len()
        }),
        exchanges.len() <= 10 - rank(start.request),
    decreases exchanges.len(),
{
    if exchanges.len() > 0 {
        law_requests_come_in_order(start, exchanges.drop_last());
    }
}

/// An operation succeeds if everything that it asks for does.
pub proof fn law_success_of_all_is_success<P: Platform>(
    start: Dialogue<P>,
    exchanges: Seq<Exchange<P>>,
)
    requires
        !over(start.request),
        start.admits_all(exchanges),
        forall|i: int| 0 <= i < exchanges.len() ==> succeeds(#[trigger] exchanges[i].answer),
    ensures
        !(start.after_all(exchanges).request matches Request::Return(Err(_))),
    decreases exchanges.len(),
{
    if exchanges.len() > 0 {
        law_success_of_all_is_success(start, exchanges.drop_last());
        assert(exchanges.last() == exchanges[exchanges.len() - 1]);
    }
}

// ----------------------------------------------------------------------------
// Preparing and starting

/// Everything that happens to the runner from other sides during some exchanges.
pub open spec fn all_meanwhile<P: Platform>(exchanges: Seq<Exchange<P>>) -> Seq<Operation<P>>
    decreases exchanges.len(),
{
    if exchanges.len() == 0 {
        seq![]
    } else {
        all_meanwhile(exchanges.drop_last()) + exchanges.last().meanwhile
    }
}

proof fn lemma_history_concat<P: Platform>(
    page: Page<P>,
    first: Seq<Operation<P>>,
    second: Seq<Operation<P>>,
)
    ensures
        page.after_all(first + second) == page.after_all(first).after_all(second),
    decreases second.len(),
{
    if second.len() == 0 {
        assert(first + second == first);
    } else {
        lemma_history_concat(page, first, second.drop_last());
        assert((first + second).drop_last() == first + second.drop_last());
    }
}

/// A preparation installs nothing: from its first request to its end, the page changes
/// only by what happens to the runner from other sides. It ends by handing over the
/// application that was created, together with the canvas, or with the error of the
/// answer that failed.
pub proof fn law_prepare_installs_nothing<P: Platform>(
    page: Page<P>,
    stage: StyleStage<P>,
    exchanges: Seq<Exchange<P>>,
)
    requires
        stage.launch is Prepare,
        Dialogue::at(page, style_request(stage)).admits_all(exchanges),
    ensures
        ({
            let end = Dialogue::at(page, style_request(stage)).after_all(exchanges);
            &&& end.page == page.after_all(all_meanwhile(exchanges))
            &&& match end.request {
                Request::StyleCanvas { .. } => exchanges.len() == 0,
                Request::CreateApp { stage: create, .. } => {
                    &&& exchanges.len() == 1
                    &&& create == (CreateStage::<P> { canvas: stage.canvas, launch: stage.launch })
                },
                Request::HandOver(prepared) => {
                    &&& exchanges.len() == 2
                    &&& prepared.canvas == stage.canvas
                    &&& exchanges[1].answer == Answer::<P>::Created(Ok(prepared.app_runner))
                },
                Request::Return(result) => {
                    &&& exchanges.len() > 0
                    &&& result matches Err(error) && error_of(exchanges.last().answer) == Some(
                        error,
                    )
                },
                _ => false,
            }
        }),
    decreases exchanges.len(),
{
    if exchanges.len() > 0 {
        law_prepare_installs_nothing(page, stage, exchanges.drop_last());
        lemma_history_concat(
            page,
            all_meanwhile(exchanges.drop_last()),
            exchanges.last().meanwhile,
        );
        assert(exchanges.last() == exchanges[exchanges.len() - 1]);
    }
}

proof fn lemma_dialogue_concat<P: Platform>(
    start: Dialogue<P>,
    first: Seq<Exchange<P>>,
    second: Seq<Exchange<P>>,
)
    ensures
        start.after_all(first + second) == start.after_all(first).after_all(second),
        start.admits_all(first + second) <==> start.admits_all(first) && start.after_all(
            first,
        ).admits_all(second),
    decreases second.len(),
{
    if second.len() == 0 {
        assert(first + second == first);
    } else {
        lemma_dialogue_concat(start, first, second.drop_last());
        assert((first + second).drop_last() == first + second.drop_last());
        assert((first + second).last() == second.last());
    }
}

/// What a start asks for where a preparation makes this request.
pub open spec fn as_start<P: Platform>(request: Request<P>) -> Request<P> {
    match request {
        Request::StyleCanvas { tab_index, property, value, stage } => Request::StyleCanvas {
            tab_index,
            property,
            value,
            stage: StyleStage { launch: Launch::Start, ..stage },
        },
        Request::CreateApp { web_options, app_creator, stage } => Request::CreateApp {
            web_options,
            app_creator,
            stage: CreateStage { launch: Launch::Start, ..stage },
        },
        Request::HandOver(prepared) => activation_request(prepared),
        _ => request,
    }
}

proof fn lemma_start_follows_prepare<P: Platform>(
    page: Page<P>,
    stage: StyleStage<P>,
    exchanges: Seq<Exchange<P>>,
)
    requires
        stage.launch is Prepare,
        Dialogue::at(page, style_request(stage)).admits_all(exchanges),
    ensures
        ({
            let prepare = Dialogue::at(page, style_request(stage));
            let start = Dialogue::at(
                page,
                style_request(StyleStage { launch: Launch::Start, ..stage }),
            );
            &&& start.admits_all(exchanges)
            &&& start.after_all(exchanges) == Dialogue::at(
                prepare.after_all(exchanges).page,
                as_start(prepare.after_all(exchanges).request),
            )
        }),
    decreases exchanges.len(),
{
    if exchanges.len() > 0 {
        lemma_start_follows_prepare(page, stage, exchanges.drop_last());
        law_prepare_installs_nothing(page, stage, exchanges.drop_last());
    }
}

/// To start an application is to prepare it and to activate what is handed over. A start
/// makes the requests of a preparation and leaves the same page, with the same error if
/// there is one; where the preparation hands an application over, the start goes on in
/// every respect as the activation of that application.
pub proof fn law_start_prepares_and_activates<P: Platform>(
    page: Page<P>,
    stage: StyleStage<P>,
    exchanges: Seq<Exchange<P>>,
    more: Seq<Exchange<P>>,
)
    requires
        stage.launch is Prepare,
        Dialogue::at(page, style_request(stage)).admits_all(exchanges),
    ensures
        ({
            let prepared = Dialogue::at(page, style_request(stage)).after_all(exchanges);
            let start = Dialogue::at(
                page,
                style_request(StyleStage { launch: Launch::Start, ..stage }),
            );
            &&& start.admits_all(exchanges)
            &&& start.after_all(exchanges).page == prepared.page
            &&& start.after_all(exchanges).request == as_start(prepared.request)
            &&& prepared.request matches Request::HandOver(app) ==> {
                let activation = Dialogue::at(prepared.page, activation_request(app));
                &&& start.admits_all(exchanges + more) <==> activation.admits_all(more)
                &&& start.after_all(exchanges + more) == activation.after_all(more)
            }
        }),
{
    lemma_start_follows_prepare(page, stage, exchanges);
    lemma_dialogue_concat(
        Dialogue::at(page, style_request(StyleStage { launch: Launch::Start, ..stage })),
        exchanges,
        more,
    );
}

// ----------------------------------------------------------------------------
// Activating: all or nothing

/// What holds during an activation, whatever else happens to the runner.
spec fn activating<P: Platform>(dialogue: Dialogue<P>) -> bool {
    let page = dialogue.page;
    &&& page.balanced()
    &&& rank(dialogue.request) >= 2
    &&& !(dialogue.request is HandOver || dialogue.request is Paint)
    &&& match dialogue.request {
        Request::InspectDocument(stage) => page.runner.frame is None && stage.purpose is Activation,
        Request::RequestAnimationFrame(stage) => page.runner.frame is None
            && stage.purpose is Activation,
        Request::SetTimeout { stage, .. } => page.runner.frame is None && stage.purpose is Activation,
        Request::Return(Ok(_)) => page.runner.frame is Some,
        Request::Return(Err(_)) => nothing_left(page),
        _ => true,
    }
}

/// Does the runner own nothing, and is nothing installed in the page?
pub open spec fn nothing_left<P: Platform>(page: Page<P>) -> bool {
    &&& page.runner == page.runner.destroyed()
    &&& page.installed == Multiset::<Resource<P>>::empty()
}

proof fn lemma_failure_leaves_nothing<P: Platform>(page: Page<P>, app: P::App)
    requires
        page.balanced(),
    ensures
        ({
            let destroy = page.runner.destroy_actions();
            let failed = page.after(page.runner.destroyed(), destroy);
            let dropped = page.after(
                page.runner.destroyed(),
                seq![Action::<P>::DropApp(app)] + destroy,
            );
            &&& failed.balanced() && nothing_left(failed)
            &&& dropped == failed
        }),
{
    let runner = page.runner;
    let drop = seq![Action::<P>::DropApp(app)];
    lemma_actions_return(runner);
    lemma_returned_single(Action::<P>::DropApp(app));
    lemma_returned_concat(drop, runner.destroy_actions());
    lemma_owned_without_events(runner.destroyed());
    let failed = page.after(runner.destroyed(), runner.destroy_actions());
    assert(failed.installed =~= Multiset::<Resource<P>>::empty());
    assert(runner.destroyed().owned() =~= Multiset::<Resource<P>>::empty());
    assert(page.after(runner.destroyed(), drop + runner.destroy_actions()).installed
        =~= failed.installed);
}

proof fn lemma_kept_balanced<P: Platform>(
    page: Page<P>,
    app: P::App,
    observer: P::ResizeObserver,
)
    requires
        page.balanced(),
    ensures
        page.after(page.runner, seq![]).balanced(),
        page.after(
            page.runner.with_app(AppSlot::Idle(app)),
            page.runner.displaced_app_actions(),
        ).balanced(),
        page.after(
            page.runner.with_resize_observer(observer),
            page.runner.displaced_observer_actions(),
        ).with(Resource::ResizeObserver(observer)).balanced(),
{
    let runner = page.runner;
    lemma_actions_return(runner);
    let same = page.after(runner, seq![]);
    assert(same.installed =~= same.runner.owned());
    let with_app = page.after(
        runner.with_app(AppSlot::Idle(app)),
        runner.displaced_app_actions(),
    );
    assert(with_app.installed =~= with_app.runner.owned());
    let with_observer = page.after(
        runner.with_resize_observer(observer),
        runner.displaced_observer_actions(),
    ).with(Resource::ResizeObserver(observer));
    assert(with_observer.installed =~= with_observer.runner.owned());
}

proof fn lemma_frame_activating<P: Platform>(dialogue: Dialogue<P>, answer: Answer<P>)
    requires
        activating(dialogue),
        answer is Scheduled,
        dialogue.request is RequestAnimationFrame || dialogue.request is SetTimeout,
    ensures
        activating(dialogue.answered(answer)),
{
    let page = dialogue.page;
    let stage = match dialogue.request {
        Request::RequestAnimationFrame(stage) => stage,
        Request::SetTimeout { stage, .. } => stage,
        _ => arbitrary(),
    };
    if let Answer::Scheduled(outcome) = answer {
        lemma_scheduled_balanced(page, stage, outcome);
        lemma_failure_leaves_nothing(page, arbitrary());
    }
}

proof fn lemma_activating<P: Platform>(dialogue: Dialogue<P>, exchange: Exchange<P>)
    requires
        activating(dialogue),
        dialogue.admits(exchange),
    ensures
        activating(dialogue.next(exchange)),
{
    lemma_after_all_balanced(dialogue.page, exchange.meanwhile);
    let before = dialogue.after_meanwhile(exchange);
    match (dialogue.request, exchange.answer) {
        (Request::AttachTextAgent(stage), _) => {
            lemma_kept_balanced(before.page, stage.app, arbitrary());
            lemma_failure_leaves_nothing(before.page, stage.app);
        },
        (Request::GiveTextAgent { .. }, Answer::Equipped(app)) => {
            lemma_kept_balanced(before.page, app, arbitrary());
        },
        (Request::ObserveCanvas { .. }, Answer::Pointed(observer)) => {
            lemma_kept_balanced(before.page, arbitrary(), observer);
        },
        (Request::CreateResizeObserver(_), _) | (Request::InstallEventHandlers(_), _) => {
            lemma_kept_balanced(before.page, arbitrary(), arbitrary());
            lemma_failure_leaves_nothing(before.page, arbitrary());
        },
        (Request::RequestAnimationFrame(_), _) | (Request::SetTimeout { .. }, _) => {
            lemma_frame_activating(before, exchange.answer);
        },
        _ => {},
    }
}

proof fn lemma_all_activating<P: Platform>(
    page: Page<P>,
    prepared: PreparedWebRunner<P>,
    exchanges: Seq<Exchange<P>>,
)
    requires
        page.balanced(),
        Dialogue::at(page, activation_request(prepared)).admits_all(exchanges),
    ensures
        activating(Dialogue::at(page, activation_request(prepared)).after_all(exchanges)),
    decreases exchanges.len(),
{
    if exchanges.len() > 0 {
        lemma_all_activating(page, prepared, exchanges.drop_last());
        lemma_activating(
            Dialogue::at(page, activation_request(prepared)).after_all(exchanges.drop_last()),
            exchanges.last(),
        );
    }
}

/// An activation that fails leaves nothing behind: whatever failed, and whatever else
/// happened meanwhile, the runner owns nothing and nothing is installed in the page.
/// One that succeeds leaves a frame in flight, to wake the paint loop up.
pub proof fn law_activation_is_all_or_nothing<P: Platform>(
    page: Page<P>,
    prepared: PreparedWebRunner<P>,
    exchanges: Seq<Exchange<P>>,
)
    requires
        page.balanced(),
        Dialogue::at(page, activation_request(prepared)).admits_all(exchanges),
    ensures
        ({
            let end = Dialogue::at(page, activation_request(prepared)).after_all(exchanges);
            &&& end.page.balanced()
            &&& end.request matches Request::Return(result) ==> match result {
                Ok(_) => end.page.runner.frame is Some,
                Err(_) => nothing_left(end.page),
            }
        }),
{
    lemma_all_activating(page, prepared, exchanges);
}

// ----------------------------------------------------------------------------
// Activating: what is installed

/// Is this what an activation asks for after these exchanges?
pub open spec fn activation_course<P: Platform>(
    prepared: PreparedWebRunner<P>,
    exchanges: Seq<Exchange<P>>,
    request: Request<P>,
) -> bool {
    let n = exchanges.len();
    match request {
        Request::InstallRepaintCallback { app, stage } => {
            &&& n == 0
            &&& app == prepared.app_runner
            &&& stage.canvas == prepared.canvas
        },
        Request::AttachTextAgent(stage) => {
            &&& n == 1
            &&& exchanges[0].answer == Answer::<P>::Equipped(stage.app)
            &&& stage.canvas == prepared.canvas
        },
        Request::GiveTextAgent { app, text_agent, stage } => {
            &&& n == 2
            &&& exchanges[0].answer == Answer::<P>::Equipped(app)
            &&& exchanges[1].answer == Answer::<P>::Attached(Ok(text_agent))
            &&& stage.canvas == prepared.canvas
        },
        Request::CreateResizeObserver(stage) => {
            &&& n == 3
            &&& exchanges[2].answer is Equipped
            &&& stage.canvas == prepared.canvas
        },
        Request::ObserveCanvas { observer, canvas, .. } => {
            &&& n == 4
            &&& exchanges[2].answer is Equipped
            &&& exchanges[3].answer == Answer::<P>::Observing(Ok(observer))
            &&& canvas == prepared.canvas
        },
        Request::InstallEventHandlers(_) => {
            &&& n == 5
            &&& exchanges[2].answer is Equipped
            &&& exchanges[4].answer is Pointed
        },
        Request::InspectDocument(stage) => {
            &&& n == 6
            &&& handlers_installed(exchanges)
            &&& stage.purpose is Activation
        },
        Request::RequestAnimationFrame(stage) => n == 7 && frame_asked_for(exchanges, stage, request),
        Request::SetTimeout { stage, .. } => n == 7 && frame_asked_for(exchanges, stage, request),
        Request::Return(Ok(_)) => {
            &&& handlers_installed(exchanges)
            &&& n == 6 || {
                &&& n == 8
                &&& exchanges[6].answer is Document
                &&& exchanges[7].answer matches Answer::Scheduled(Ok(_))
            }
        },
        Request::Return(Err(error)) => n > 0 && error_of(exchanges.last().answer) == Some(error),
        _ => false,
    }
}

/// Are the application, the resize observer and the event handlers installed by these
/// exchanges?
pub open spec fn handlers_installed<P: Platform>(exchanges: Seq<Exchange<P>>) -> bool {
    &&& exchanges.len() >= 6
    &&& exchanges[2].answer is Equipped
    &&& exchanges[4].answer is Pointed
    &&& exchanges[5].answer matches Answer::Handling(Ok(_))
}

/// Is this the call that schedules the first frame, as the document asks for?
pub open spec fn frame_asked_for<P: Platform>(
    exchanges: Seq<Exchange<P>>,
    stage: ScheduleStage<P>,
    request: Request<P>,
) -> bool {
    &&& handlers_installed(exchanges)
    &&& exchanges[6].answer matches Answer::Document { callback, hidden } && stage == (
    ScheduleStage::<P> { purpose: Purpose::Activation, kind: kind_for(hidden), callback })
    &&& request == schedule_call(stage)
}

/// An activation carries the prepared application and its canvas through: the repaint
/// callback is installed on the prepared application, the text agent is attached to the
/// root of its canvas and given to the application as it came back, the resize observer
/// that was created watches the canvas, then come the event handlers and at last the
/// frame. It fails only if something that it asked for failed, and with that error.
pub proof fn law_activation_course<P: Platform>(
    page: Page<P>,
    prepared: PreparedWebRunner<P>,
    exchanges: Seq<Exchange<P>>,
)
    requires
        Dialogue::at(page, activation_request(prepared)).admits_all(exchanges),
    ensures
        activation_course(
            prepared,
            exchanges,
            Dialogue::at(page, activation_request(prepared)).after_all(exchanges).request,
        ),
    decreases exchanges.len(),
{
    if exchanges.len() > 0 {
        let fewer = exchanges.drop_last();
        law_activation_course(page, prepared, fewer);
        assert(exchanges.last() == exchanges[exchanges.len() - 1]);
        assert(forall|i: int| 0 <= i < fewer.len() ==> fewer[i] == exchanges[i]);
    }
}

/// Does the operation leave the runner with an application, or with a locked one?
pub open spec fn keeps_app<P: Platform>(page: Page<P>, operation: Operation<P>) -> bool {
    match operation {
        Operation::Destroy => false,
        Operation::RequestFrame { purpose, outcome, .. } => !(purpose is Activation
            && outcome is Err && page.runner.frame is None),
        _ => true,
    }
}

/// Does the operation leave the runner with a resize observer?
pub open spec fn keeps_observer<P: Platform>(page: Page<P>, operation: Operation<P>) -> bool {
    match operation {
        Operation::Destroy | Operation::DestroyLocked | Operation::UnsubscribeFromAllEvents => {
            false
        },
        Operation::TryLock => !page.runner.panicked(),
        Operation::RequestFrame { purpose, outcome, .. } => !(purpose is Activation
            && outcome is Err && page.runner.frame is None),
        _ => true,
    }
}

/// Does everything that happens leave the runner with an application?
pub open spec fn all_keep_app<P: Platform>(page: Page<P>, history: Seq<Operation<P>>) -> bool
    decreases history.len(),
{
    history.len() > 0 ==> all_keep_app(page, history.drop_last()) && keeps_app(
        page.after_all(history.drop_last()),
        history.last(),
    )
}

/// Does everything that happens leave the runner with a resize observer?
pub open spec fn all_keep_observer<P: Platform>(page: Page<P>, history: Seq<Operation<P>>) -> bool
    decreases history.len(),
{
    history.len() > 0 ==> all_keep_observer(page, history.drop_last()) && keeps_observer(
        page.after_all(history.drop_last()),
        history.last(),
    )
}

/// Is the runner left with an application and with a resize observer during an
/// activation, with each from when the activation has handed it over?
pub open spec fn undisturbed<P: Platform>(
    start: Dialogue<P>,
    exchanges: Seq<Exchange<P>>,
) -> bool
    decreases exchanges.len(),
{
    exchanges.len() > 0 ==> {
        let last = start.after_all(exchanges.drop_last());
        let meanwhile = exchanges.last().meanwhile;
        &&& undisturbed(start, exchanges.drop_last())
        &&& last.request is CreateResizeObserver || last.request is ObserveCanvas
            || last.request is InstallEventHandlers ==> all_keep_app(last.page, meanwhile)
        &&& last.request is InstallEventHandlers ==> all_keep_observer(last.page, meanwhile)
    }
}

/// The application that the runner was given last, if it had this one before: the holder
/// of the lock may give it back changed, and another activation may hand another over.
pub open spec fn latest_app<P: Platform>(history: Seq<Operation<P>>, app: P::App) -> P::App
    decreases history.len(),
{
    if history.len() == 0 {
        app
    } else {
        match history.last() {
            Operation::Unlock(given) => given,
            Operation::KeepApp { app: given, .. } => given,
            _ => latest_app(history.drop_last(), app),
        }
    }
}

/// The resize observer that the runner was given last, if it had this one before.
pub open spec fn latest_observer<P: Platform>(
    history: Seq<Operation<P>>,
    observer: P::ResizeObserver,
) -> P::ResizeObserver
    decreases history.len(),
{
    if history.len() == 0 {
        observer
    } else {
        match history.last() {
            Operation::KeepObserver(given) => given,
            _ => latest_observer(history.drop_last(), observer),
        }
    }
}

/// The application that the runner was given last during an activation: the one that
/// came back with its text agent, unless it was given another one after that.
pub open spec fn app_of<P: Platform>(exchanges: Seq<Exchange<P>>) -> P::App
    recommends
        exchanges.len() > 2,
    decreases exchanges.len(),
{
    if exchanges.len() <= 3 {
        exchanges[2].answer->Equipped_0
    } else {
        latest_app(exchanges.last().meanwhile, app_of(exchanges.drop_last()))
    }
}

/// The resize observer that the runner was given last during an activation: the one that
/// was pointed at the canvas, unless it was given another one after that.
pub open spec fn observer_of<P: Platform>(exchanges: Seq<Exchange<P>>) -> P::ResizeObserver
    recommends
        exchanges.len() > 4,
    decreases exchanges.len(),
{
    if exchanges.len() <= 5 {
        exchanges[4].answer->Pointed_0
    } else {
        latest_observer(exchanges.last().meanwhile, observer_of(exchanges.drop_last()))
    }
}

proof fn lemma_latest_is_own<P: Platform>(
    history: Seq<Operation<P>>,
    app: P::App,
    observer: P::ResizeObserver,
)
    requires
        forall|j: int|
            0 <= j < history.len() ==> !(#[trigger] history[j] is Unlock || history[j] is KeepApp
                || history[j] is KeepObserver),
    ensures
        latest_app(history, app) == app,
        latest_observer(history, observer) == observer,
    decreases history.len(),
{
    if history.len() > 0 {
        assert(history.last() == history[history.len() - 1]);
        lemma_latest_is_own(history.drop_last(), app, observer);
    }
}

/// Where the runner is given no application and no resize observer from other sides, the
/// ones that it was given last are those of the activation itself: the application that
/// came back with its text agent, and the resize observer that was pointed at the canvas.
pub proof fn law_owners_are_the_activations_own<P: Platform>(exchanges: Seq<Exchange<P>>)
    requires
        exchanges.len() > 4,
        forall|i: int, j: int|
            3 <= i < exchanges.len() && 0 <= j < exchanges[i].meanwhile.len() ==> !(
            #[trigger] exchanges[i].meanwhile[j] is Unlock || exchanges[i].meanwhile[j] is KeepApp
                || exchanges[i].meanwhile[j] is KeepObserver),
    ensures
        app_of(exchanges) == exchanges[2].answer->Equipped_0,
        observer_of(exchanges) == exchanges[4].answer->Pointed_0,
    decreases exchanges.len(),
{
    let fewer = exchanges.drop_last();
    let n = exchanges.len();
    assert(forall|j: int| #![trigger exchanges.last().meanwhile[j]]
        exchanges.last().meanwhile[j] == exchanges[n - 1].meanwhile[j]);
    lemma_latest_is_own(exchanges.last().meanwhile, app_of(fewer), observer_of(fewer));
    if n > 5 {
        assert forall|i: int, j: int|
            3 <= i < fewer.len() && 0 <= j < fewer[i].meanwhile.len() implies !(
        #[trigger] fewer[i].meanwhile[j] is Unlock || fewer[i].meanwhile[j] is KeepApp
            || fewer[i].meanwhile[j] is KeepObserver) by {
            assert(fewer[i] == exchanges[i]);
            assert(!(exchanges[i].meanwhile[j] is Unlock));
        }
        law_owners_are_the_activations_own(fewer);
    } else {
        assert(fewer.last() == exchanges[3]);
        assert(forall|j: int| #![trigger fewer.last().meanwhile[j]]
            fewer.last().meanwhile[j] == exchanges[3].meanwhile[j]);
        lemma_latest_is_own(
            fewer.last().meanwhile,
            app_of(fewer.drop_last()),
            observer_of(fewer),
        );
    }
}

/// Is this application with the runner, or is the application locked?
pub open spec fn has_app<P: Platform>(state: RunnerState<P>, app: P::App) -> bool {
    state.locked() || state.app == AppSlot::<P>::Idle(app)
}

proof fn lemma_app_kept<P: Platform>(page: Page<P>, history: Seq<Operation<P>>, app: P::App)
    requires
        has_app(page.runner, app),
        all_keep_app(page, history),
    ensures
        has_app(page.after_all(history).runner, latest_app(history, app)),
    decreases history.len(),
{
    if history.len() > 0 {
        lemma_app_kept(page, history.drop_last(), app);
    }
}

proof fn lemma_observer_kept<P: Platform>(
    page: Page<P>,
    history: Seq<Operation<P>>,
    observer: P::ResizeObserver,
)
    requires
        page.runner.resize_observer == Some(observer),
        all_keep_observer(page, history),
    ensures
        page.after_all(history).runner.resize_observer == Some(latest_observer(history, observer)),
    decreases history.len(),
{
    if history.len() > 0 {
        lemma_observer_kept(page, history.drop_last(), observer);
    }
}

/// What an undisturbed activation has installed so far.
spec fn owners_in_place<P: Platform>(
    dialogue: Dialogue<P>,
    exchanges: Seq<Exchange<P>>,
) -> bool {
    let runner = dialogue.page.runner;
    let request = dialogue.request;
    &&& request is CreateResizeObserver || request is ObserveCanvas ==> has_app(
        runner,
        app_of(exchanges),
    )
    &&& request is InstallEventHandlers || request is InspectDocument
        || request is RequestAnimationFrame || request is SetTimeout || (
    request matches Request::Return(Ok(_))) ==> {
        &&& has_app(runner, app_of(exchanges))
        &&& runner.resize_observer == Some(observer_of(exchanges))
    }
    &&& (request matches Request::Return(Ok(_))) ==> first_frame(runner, exchanges)
}

/// Is the frame that an activation has scheduled in flight? It schedules none if one was
/// in flight already.
pub open spec fn first_frame<P: Platform>(
    state: RunnerState<P>,
    exchanges: Seq<Exchange<P>>,
) -> bool {
    exchanges.len() == 8 ==> {
        &&& exchanges[6].answer matches Answer::Document { callback, hidden }
        &&& exchanges[7].answer matches Answer::Scheduled(Ok(id))
        &&& state.frame == Some(
            AnimationFrameRequest::<P> { id, kind: kind_for(hidden), callback },
        )
    }
}

/// What an activation has installed stays in place until the next answer comes.
proof fn lemma_owners_meanwhile<P: Platform>(
    page: Page<P>,
    prepared: PreparedWebRunner<P>,
    exchanges: Seq<Exchange<P>>,
)
    requires
        exchanges.len() > 0,
        Dialogue::at(page, activation_request(prepared)).admits_all(exchanges),
        undisturbed(Dialogue::at(page, activation_request(prepared)), exchanges),
        owners_in_place(
            Dialogue::at(page, activation_request(prepared)).after_all(exchanges.drop_last()),
            exchanges.drop_last(),
        ),
    ensures
        ({
            let last = Dialogue::at(page, activation_request(prepared)).after_all(
                exchanges.drop_last(),
            );
            let runner = last.after_meanwhile(exchanges.last()).page.runner;
            &&& exchanges.len() > 3 ==> has_app(runner, app_of(exchanges))
            &&& exchanges.len() > 5 ==> runner.resize_observer == Some(observer_of(exchanges))
        }),
{
    let fewer = exchanges.drop_last();
    let last = Dialogue::at(page, activation_request(prepared)).after_all(fewer);
    let meanwhile = exchanges.last().meanwhile;
    law_activation_course(page, prepared, fewer);
    match last.request {
        Request::CreateResizeObserver(_) | Request::ObserveCanvas { .. } => {
            lemma_app_kept(last.page, meanwhile, app_of(fewer));
        },
        Request::InstallEventHandlers(_) => {
            lemma_app_kept(last.page, meanwhile, app_of(fewer));
            lemma_observer_kept(last.page, meanwhile, observer_of(fewer));
        },
        _ => {},
    }
}

proof fn lemma_owners_in_place<P: Platform>(
    page: Page<P>,
    prepared: PreparedWebRunner<P>,
    exchanges: Seq<Exchange<P>>,
)
    requires
        Dialogue::at(page, activation_request(prepared)).admits_all(exchanges),
        undisturbed(Dialogue::at(page, activation_request(prepared)), exchanges),
    ensures
        owners_in_place(
            Dialogue::at(page, activation_request(prepared)).after_all(exchanges),
            exchanges,
        ),
    decreases exchanges.len(),
{
    if exchanges.len() > 0 {
        let fewer = exchanges.drop_last();
        lemma_owners_in_place(page, prepared, fewer);
        law_activation_course(page, prepared, fewer);
        lemma_owners_meanwhile(page, prepared, exchanges);
        assert(exchanges.last() == exchanges[exchanges.len() - 1]);
        assert(forall|i: int| 0 <= i < fewer.len() ==> fewer[i] == exchanges[i]);
    }
}

/// Does the runner have everything that an activation over these exchanges installs?
/// That is: the application that it was given last, which an attempt to lock gets unless
/// someone holds the lock or there was a panic; the resize observer that it was given
/// last; and one frame in flight, the one that the activation scheduled unless one was
/// in flight already.
pub open spec fn runs<P: Platform>(page: Page<P>, exchanges: Seq<Exchange<P>>) -> bool {
    let runner = page.runner;
    let app = app_of(exchanges);
    &&& runner.locked() || runner.app == AppSlot::<P>::Idle(app)
    &&& !runner.locked() && !runner.panicked() ==> runner.locked_app() == Some(app)
    &&& runner.resize_observer == Some(observer_of(exchanges))
    &&& runner.frame is Some
    &&& first_frame(runner, exchanges)
    &&& page.installed == runner.owned()
}

/// An activation that succeeds has put all owners in place. The application is the one
/// that came back with its text agent, or what the holder of the lock gave back for it,
/// and the resize observer the one that was pointed at the canvas, unless another was
/// handed over after it. This holds as long as nothing takes the application or the
/// resize observer away again while the activation goes on.
pub proof fn law_activation_installs_all_owners<P: Platform>(
    page: Page<P>,
    prepared: PreparedWebRunner<P>,
    exchanges: Seq<Exchange<P>>,
)
    requires
        page.balanced(),
        ({
            let start = Dialogue::at(page, activation_request(prepared));
            &&& start.admits_all(exchanges)
            &&& start.after_all(exchanges).request matches Request::Return(Ok(_))
            &&& undisturbed(start, exchanges)
        }),
    ensures
        activation_course(prepared, exchanges, Request::Return(Ok(()))),
        runs(
            Dialogue::at(page, activation_request(prepared)).after_all(exchanges).page,
            exchanges,
        ),
{
    lemma_all_activating(page, prepared, exchanges);
    law_activation_course(page, prepared, exchanges);
    lemma_owners_in_place(page, prepared, exchanges);
}

/// What the installation of the runtime owners leaves where it fails, before the runner
/// is destroyed for it: the application is still there, and the resize observer too
/// unless it is what failed; no frame is in flight if that is what failed. All of it is
/// what the destruction gives back. The activation asks for exactly the actions of that
/// destruction, so that the application is shut down, once and as the last thing, and not
/// only dropped. This holds as long as nothing takes the application or the resize
/// observer away while the activation goes on.
pub proof fn law_failed_installation_is_destroyed<P: Platform>(
    page: Page<P>,
    prepared: PreparedWebRunner<P>,
    exchanges: Seq<Exchange<P>>,
)
    requires
        page.balanced(),
        exchanges.len() > 3,
        ({
            let start = Dialogue::at(page, activation_request(prepared));
            &&& start.admits_all(exchanges)
            &&& start.after_all(exchanges).request matches Request::Return(Err(_))
            &&& undisturbed(start, exchanges)
        }),
    ensures
        ({
            let start = Dialogue::at(page, activation_request(prepared));
            let last = start.after_all(exchanges.drop_last());
            let left = last.after_meanwhile(exchanges.last()).page;
            let end = start.after_all(exchanges);
            &&& left.balanced()
            &&& left.runner.app == AppSlot::<P>::Idle(app_of(exchanges))
            &&& exchanges.len() > 5 ==> left.runner.resize_observer == Some(observer_of(exchanges))
            &&& exchanges.len() > 6 ==> left.runner.frame is None
            &&& end.page == left.after(left.runner.destroyed(), left.runner.destroy_actions())
            &&& nothing_left(end.page)
            &&& ({
                let step = last.after_meanwhile(exchanges.last()).step_on(exchanges.last().answer);
                let n = step.actions.len();
                &&& step.request == end.request
                &&& step.actions == left.runner.destroy_actions()
                &&& n > 0
                &&& step.actions[n - 1] == Action::<P>::DestroyApp(app_of(exchanges))
                &&& forall|i: int|
                    0 <= i < n - 1 ==> !(#[trigger] step.actions[i] is DestroyApp)
                &&& forall|i: int| 0 <= i < n ==> !(#[trigger] step.actions[i] is DropApp)
            })
        }),
{
    let fewer = exchanges.drop_last();
    let last = Dialogue::at(page, activation_request(prepared)).after_all(fewer);
    lemma_all_activating(page, prepared, fewer);
    lemma_all_activating(page, prepared, exchanges);
    lemma_after_all_balanced(last.page, exchanges.last().meanwhile);
    law_activation_course(page, prepared, fewer);
    lemma_owners_in_place(page, prepared, fewer);
    lemma_owners_meanwhile(page, prepared, exchanges);
    law_destroy_shuts_the_app_down(last.after_meanwhile(exchanges.last()).page.runner);
}

// ----------------------------------------------------------------------------
// Starting: what runs in the end

/// A start that succeeds runs the application that was created for it: after its first
/// two answers it is the activation of that application on its canvas, which succeeds,
/// and so all owners are in place, as long as nothing takes the application or the
/// resize observer away again while it goes on.
pub proof fn law_start_runs_the_created_app<P: Platform>(
    page: Page<P>,
    stage: StyleStage<P>,
    exchanges: Seq<Exchange<P>>,
)
    requires
        page.balanced(),
        stage.launch is Start,
        Dialogue::at(page, style_request(stage)).admits_all(exchanges),
        Dialogue::at(page, style_request(stage)).after_all(exchanges).request matches Request::Return(
            Ok(_),
        ),
    ensures
        exchanges.len() >= 8,
        exchanges[1].answer matches Answer::Created(Ok(app)) && {
            let start = Dialogue::at(page, style_request(stage));
            let prepared = PreparedWebRunner::<P> { canvas: stage.canvas, app_runner: app };
            let created = start.after_all(exchanges.take(2));
            let activation = exchanges.skip(2);
            &&& created == Dialogue::at(created.page, activation_request(prepared))
            &&& created.admits_all(activation)
            &&& start.after_all(exchanges) == created.after_all(activation)
            &&& activation_course(prepared, activation, Request::Return(Ok(())))
            &&& undisturbed(created, activation) ==> runs(
                start.after_all(exchanges).page,
                activation,
            )
        },
{
    let start = Dialogue::at(page, style_request(stage));
    law_start_begins_with_the_app(page, stage, exchanges);
    let first = exchanges.take(2);
    let second = exchanges.skip(2);
    assert(exchanges == first + second);
    lemma_dialogue_concat(start, first, second);
    law_start_begins_with_the_app(page, stage, first);
    let created = start.after_all(first);
    if let Answer::Created(Ok(app)) = exchanges[1].answer {
        let prepared = PreparedWebRunner::<P> { canvas: stage.canvas, app_runner: app };
        assert(first[1] == exchanges[1]);
        law_activation_course(created.page, prepared, second);
        if undisturbed(created, second) {
            law_activation_installs_all_owners(created.page, prepared, second);
        }
    }
}

/// A start begins by styling its canvas and creating its application. Until the
/// application is created it can only end with an error; once it is, the activation of
/// that application on the canvas begins. The page stays balanced.
pub proof fn law_start_begins_with_the_app<P: Platform>(
    page: Page<P>,
    stage: StyleStage<P>,
    exchanges: Seq<Exchange<P>>,
)
    requires
        page.balanced(),
        stage.launch is Start,
        Dialogue::at(page, style_request(stage)).admits_all(exchanges),
    ensures
        ({
            let end = Dialogue::at(page, style_request(stage)).after_all(exchanges);
            let n = exchanges.len();
            &&& n == 0 ==> end.request == style_request(stage)
            &&& n == 1 ==> match exchanges[0].answer {
                Answer::Styled(Ok(_)) => end.request == (Request::<P>::CreateApp {
                    web_options: stage.web_options,
                    app_creator: stage.app_creator,
                    stage: CreateStage { canvas: stage.canvas, launch: stage.launch },
                }),
                _ => end.request matches Request::Return(Err(error)) && error_of(
                    exchanges[0].answer,
                ) == Some(error),
            }
            &&& n == 2 ==> match exchanges[1].answer {
                Answer::Created(Ok(app)) => end.request == activation_request(
                    PreparedWebRunner::<P> { canvas: stage.canvas, app_runner: app },
                ),
                _ => end.request matches Request::Return(Err(error)) && error_of(
                    exchanges[1].answer,
                ) == Some(error),
            }
            &&& n >= 2 ==> (exchanges[0].answer matches Answer::Styled(Ok(_)))
            &&& n > 2 ==> (exchanges[1].answer matches Answer::Created(Ok(_)))
            &&& n <= 2 ==> end.page.balanced()
        }),
    decreases exchanges.len(),
{
    if exchanges.len() > 0 {
        let fewer = exchanges.drop_last();
        law_start_begins_with_the_app(page, stage, fewer);
        let last = Dialogue::at(page, style_request(stage)).after_all(fewer);
        assert(exchanges.last() == exchanges[exchanges.len() - 1]);
        assert(forall|i: int| 0 <= i < fewer.len() ==> fewer[i] == exchanges[i]);
        if fewer.len() < 2 {
            lemma_after_all_balanced(last.page, exchanges.last().meanwhile);
        }
    }
}

// ----------------------------------------------------------------------------
// Aborting

/// A prepared application that is aborted leaves nothing behind: neither what the runner
/// owned, nor the application, which is dropped last.
pub proof fn law_abort_leaves_nothing<P: Platform>(
    history: Seq<Operation<P>>,
    prepared: PreparedWebRunner<P>,
)
    requires
        Page::<P>::initial().admits_all(history),
        !Page::<P>::initial().after_all(history).runner.locked(),
    ensures
        ({
            let page = Page::<P>::initial().after_all(history);
            let actions = page.runner.destroy_actions().push(
                Action::DropApp(prepared.app_runner),
            );
            nothing_left(page.after(page.runner.destroyed(), actions))
        }),
{
    let page = Page::<P>::initial().after_all(history);
    law_destroy_leaves_nothing(history);
    let last = Action::<P>::DropApp(prepared.app_runner);
    let actions = page.runner.destroy_actions().push(last);
    assert(actions.drop_last() == page.runner.destroy_actions());
    assert(page.after(page.runner.destroyed(), actions).installed =~= Multiset::<
        Resource<P>,
    >::empty());
}

} // verus!
