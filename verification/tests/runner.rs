use web_runner::{
    Action, AnimationFrameKind, AnimationFrameRequest, EventToUnsubscribe, InstallStage,
    IntervalHandle, KeepObserverStage, ListenerOptions, PanicHandler, PanicSummary, Platform,
    Request, Step, WebError, WebRunner,
};

/// A page whose values are plain numbers and names.
struct Fake;

impl Platform for Fake {
    type App = u32;
    type AppCreator = u32;
    type WebOptions = u32;
    type Canvas = &'static str;
    type Target = &'static str;
    type ListenerOptions = &'static str;
    type Listener = u32;
    type IntervalCallback = u32;
    type FrameCallback = u32;
    type ResizeObserver = u32;
    type TextAgent = u32;
    type Error = &'static str;
}

type Runner = WebRunner<Fake>;

fn describe(action: &Action<Fake>) -> String {
    match action {
        Action::RemoveEventListener { event, capture } => {
            let flag = if *capture { " capture" } else { "" };
            format!("remove {} {} {}{flag}", event.target, event.event_name, event.listener)
        }
        Action::DropListener(event) => format!("drop listener {}", event.listener),
        Action::ClearInterval(interval) => {
            format!("clear interval {} {}", interval.handle, interval.callback)
        }
        Action::DropResizeObserver(observer) => format!("drop observer {observer}"),
        Action::CancelAnimationFrame { id, callback } => format!("cancel {id} {callback}"),
        Action::ClearTimeout { id, callback } => format!("clear timeout {id} {callback}"),
        Action::DropFrameCallback(callback) => format!("drop callback {callback}"),
        Action::DestroyApp(app) => format!("destroy app {app}"),
        Action::DropApp(app) => format!("drop app {app}"),
    }
}

fn describe_all(actions: &[Action<Fake>]) -> Vec<String> {
    actions.iter().map(describe).collect()
}

fn summary(message: &str) -> PanicSummary {
    PanicSummary { message: message.to_owned(), callstack: "at paint".to_owned() }
}

fn listen(runner: &mut Runner, target: &'static str, event_name: &'static str, listener: u32) {
    let event = runner.add_event_listener(target, event_name, listener);
    let step = runner.listener_added(event, Ok(()));
    assert!(step.actions.is_empty());
    assert!(matches!(step.request, Request::Return(Ok(()))));
}

fn give_app(runner: &mut Runner, app: u32) -> Vec<String> {
    let step = InstallStage::<Fake> { canvas: "canvas" }.resume(runner, app);
    assert!(matches!(step.request, Request::CreateResizeObserver(_)));
    describe_all(&step.actions)
}

fn give_observer(runner: &mut Runner, observer: u32) -> Vec<String> {
    let step = KeepObserverStage {}.resume(runner, observer);
    assert!(matches!(step.request, Request::InstallEventHandlers(_)));
    describe_all(&step.actions)
}

/// Answers a request for a frame. The result tells which call was made, if any.
fn answer_frame(
    runner: &mut Runner,
    step: Step<Fake>,
    callback: u32,
    hidden: Option<bool>,
    outcome: Result<i32, &'static str>,
) -> (String, Result<(), &'static str>) {
    let stage = match step.request {
        Request::Return(Ok(())) => return ("nothing".to_owned(), Ok(())),
        Request::InspectDocument(stage) => stage,
        _ => panic!("not a request for a frame"),
    };
    let step: Step<Fake> = stage.resume(callback, hidden);
    assert!(step.actions.is_empty());
    let (call, stage) = match step.request {
        Request::RequestAnimationFrame(stage) => ("requestAnimationFrame".to_owned(), stage),
        Request::SetTimeout { delay_ms, stage } => (format!("setTimeout {delay_ms}"), stage),
        _ => panic!("not a call that schedules a frame"),
    };
    assert_eq!(stage.callback, callback);
    let step = stage.resume(runner, outcome);
    assert!(step.actions.is_empty());
    match step.request {
        Request::Return(Ok(())) => (call, Ok(())),
        Request::Return(Err(WebError::Js(error))) => (call, Err(error)),
        _ => panic!("the request is not over"),
    }
}

fn request_frame(
    runner: &mut Runner,
    callback: u32,
    hidden: bool,
    outcome: Result<i32, &'static str>,
) -> (String, Result<(), &'static str>) {
    let step = runner.request_animation_frame();
    assert!(step.actions.is_empty());
    answer_frame(runner, step, callback, Some(hidden), outcome)
}

/// Lets the frame in flight come, and returns the callback that is dropped before the
/// application paints.
fn fire(runner: &mut Runner) -> Option<u32> {
    let step = runner.frame_fired();
    assert!(matches!(step.request, Request::Paint(_)));
    match step.actions.as_slice() {
        [] => None,
        [Action::DropFrameCallback(callback)] => Some(*callback),
        _ => panic!("not what follows a frame"),
    }
}

#[test]
fn new_runner_owns_nothing() {
    let mut runner = Runner::new();
    assert!(!runner.has_panicked());
    assert!(runner.panic_summary().is_none());
    assert!(!runner.is_locked());
    assert!(fire(&mut runner).is_none());
    assert!(runner.destroy().is_empty());
}

#[test]
fn panic_summary_is_kept() {
    let mut runner = Runner::new();
    runner.record_panic(summary("index out of bounds"));
    assert!(runner.has_panicked());
    let kept = runner.panic_summary().unwrap();
    assert_eq!(kept.message, "index out of bounds");
    assert_eq!(kept.callstack, "at paint");
}

#[test]
fn panic_handler_remembers_the_latest_panic() {
    let mut handler = PanicHandler::new();
    assert!(!handler.has_panicked());
    handler.record(summary("first"));
    handler.record(summary("second"));
    assert!(handler.has_panicked());
    assert_eq!(handler.panic_summary().unwrap().message, "second");
}

#[test]
fn unsubscribe_matches_the_subscription() {
    let runner = Runner::new();
    let event = runner.add_event_listener("document", "keydown", 4);
    let action = EventToUnsubscribe::<Fake>::TargetEvent(event).unsubscribe();
    assert_eq!(describe(&action), "remove document keydown 4");
    let interval = IntervalHandle::<Fake> { handle: 9, callback: 5 };
    let action = EventToUnsubscribe::IntervalHandle(interval).unsubscribe();
    assert_eq!(describe(&action), "clear interval 9 5");
}

#[test]
fn only_a_listener_that_stays_is_an_error() {
    let runner = Runner::new();
    let event = runner.add_event_listener("document", "keydown", 4);
    let remove = EventToUnsubscribe::<Fake>::TargetEvent(event).unsubscribe();
    assert_eq!(remove.result(Some("thrown")), Err("thrown"));
    assert_eq!(remove.result(None), Ok(()));
    let interval = IntervalHandle::<Fake> { handle: 9, callback: 5 };
    let clear = EventToUnsubscribe::IntervalHandle(interval).unsubscribe();
    assert_eq!(clear.result(Some("thrown")), Ok(()));
    let cancel = Action::<Fake>::CancelAnimationFrame { id: 1, callback: 2 };
    assert_eq!(cancel.result(Some("thrown")), Ok(()));
    assert_eq!(cancel.result(None), Ok(()));
}

#[test]
fn cancel_matches_how_the_frame_was_scheduled() {
    let kinds = [AnimationFrameKind::AnimationFrame, AnimationFrameKind::Timeout];
    let expected = ["cancel -3 8", "clear timeout -3 8"];
    for (kind, expected) in kinds.into_iter().zip(expected) {
        let frame = AnimationFrameRequest::<Fake> { id: -3, kind, callback: 8 };
        assert_eq!(describe(&frame.cancel()), expected);
    }
}

#[test]
fn listener_carries_what_was_given() {
    let runner = Runner::new();
    let plain = runner.add_event_listener("window", "resize", 1);
    assert_eq!(plain.target, "window");
    assert_eq!(plain.event_name, "resize");
    assert_eq!(plain.listener, 1);
    assert!(matches!(plain.options, ListenerOptions::Default));
    let options = ListenerOptions::Given { options: "passive", capture: false };
    let passive = runner.add_event_listener_ex("canvas", "wheel", options, 2);
    assert_eq!(passive.event_name, "wheel");
    assert!(matches!(
        passive.options,
        ListenerOptions::Given { options: "passive", capture: false }
    ));
}

#[test]
fn refused_listener_is_not_remembered() {
    let mut runner = Runner::new();
    let event = runner.add_event_listener("canvas", "click", 1);
    let step = runner.listener_added(event, Err("refused"));
    assert_eq!(describe_all(&step.actions), ["drop listener 1"]);
    assert!(matches!(step.request, Request::Return(Err(WebError::Js("refused")))));
    assert!(runner.unsubscribe_from_all_events().is_empty());
}

fn listen_capturing(runner: &mut Runner, capture: bool, listener: u32) {
    let options = ListenerOptions::Given { options: "given", capture };
    let event = runner.add_event_listener_ex("canvas", "click", options, listener);
    let step = runner.listener_added(event, Ok(()));
    assert!(step.actions.is_empty());
    assert!(matches!(step.request, Request::Return(Ok(()))));
}

#[test]
fn listener_is_removed_under_the_capture_flag_it_was_added_with() {
    let mut runner = Runner::new();
    listen_capturing(&mut runner, true, 1);
    listen_capturing(&mut runner, false, 2);
    listen(&mut runner, "canvas", "click", 3);
    let actions = runner.destroy();
    assert_eq!(
        describe_all(&actions),
        ["remove canvas click 1 capture", "remove canvas click 2", "remove canvas click 3"]
    );
    match &actions[0] {
        Action::RemoveEventListener { event, capture } => {
            assert!(*capture);
            assert!(matches!(
                event.options,
                ListenerOptions::Given { options: "given", capture: true }
            ));
        }
        _ => panic!("not a removal"),
    }
}

#[test]
fn capturing_listener_is_removed_after_a_panic() {
    let mut runner = Runner::new();
    listen_capturing(&mut runner, true, 1);
    runner.record_panic(summary("oops"));
    let attempt = runner.try_lock();
    assert_eq!(describe_all(&attempt.actions), ["remove canvas click 1 capture"]);
}

#[test]
fn capture_flag_of_the_options() {
    assert!(!ListenerOptions::<Fake>::Default.capture());
    assert!(!ListenerOptions::<Fake>::Given { options: "o", capture: false }.capture());
    assert!(ListenerOptions::<Fake>::Given { options: "o", capture: true }.capture());
}

#[test]
fn unsubscribes_in_order_and_then_drops_the_observer() {
    let mut runner = Runner::new();
    listen(&mut runner, "canvas", "click", 1);
    listen(&mut runner, "document", "keydown", 2);
    listen(&mut runner, "canvas", "click", 1);
    give_observer(&mut runner, 30);
    let actions = runner.unsubscribe_from_all_events();
    assert_eq!(
        describe_all(&actions),
        [
            "remove canvas click 1",
            "remove document keydown 2",
            "remove canvas click 1",
            "drop observer 30",
        ]
    );
    assert!(runner.unsubscribe_from_all_events().is_empty());
}

#[test]
fn unsubscribing_keeps_the_frame_and_the_app() {
    let mut runner = Runner::new();
    give_app(&mut runner, 50);
    request_frame(&mut runner, 3, false, Ok(11)).1.unwrap();
    listen(&mut runner, "canvas", "click", 1);
    assert_eq!(runner.unsubscribe_from_all_events().len(), 1);
    let actions = runner.destroy();
    assert_eq!(describe_all(&actions), ["cancel 11 3", "destroy app 50"]);
}

#[test]
fn destroy_gives_everything_back_once() {
    let mut runner = Runner::new();
    give_app(&mut runner, 50);
    give_observer(&mut runner, 30);
    listen(&mut runner, "canvas", "click", 1);
    listen(&mut runner, "document", "blur", 2);
    request_frame(&mut runner, 3, true, Ok(11)).1.unwrap();
    let actions = runner.destroy();
    assert_eq!(
        describe_all(&actions),
        [
            "remove canvas click 1",
            "remove document blur 2",
            "drop observer 30",
            "clear timeout 11 3",
            "destroy app 50",
        ]
    );
    assert!(runner.destroy().is_empty());
    assert!(runner.try_lock().app.is_none());
}

#[test]
fn destroy_remembers_the_panic() {
    let mut runner = Runner::new();
    runner.record_panic(summary("oops"));
    runner.destroy();
    assert_eq!(runner.panic_summary().unwrap().message, "oops");
}

#[test]
fn lock_is_exclusive_and_gives_back() {
    let mut runner = Runner::new();
    assert!(runner.try_lock().app.is_none());
    give_app(&mut runner, 50);
    let attempt = runner.try_lock();
    assert_eq!(attempt.app, Some(50));
    assert!(attempt.actions.is_empty());
    assert!(runner.is_locked());
    assert_eq!(runner.try_lock().app, None);
    assert_eq!(runner.app_mut().app, None);
    assert!(runner.is_locked());
    runner.unlock(51);
    assert!(!runner.is_locked());
    assert_eq!(runner.app_mut().app, Some(51));
}

#[test]
fn destroy_under_the_lock_keeps_only_the_application() {
    let mut runner = Runner::new();
    give_app(&mut runner, 50);
    give_observer(&mut runner, 30);
    listen(&mut runner, "canvas", "click", 1);
    request_frame(&mut runner, 3, false, Ok(11)).1.unwrap();
    assert_eq!(runner.try_lock().app, Some(50));
    let actions = runner.destroy_locked();
    assert_eq!(
        describe_all(&actions),
        ["remove canvas click 1", "drop observer 30", "cancel 11 3"]
    );
    assert!(runner.is_locked());
    assert!(runner.destroy_locked().is_empty());
    runner.unlock(51);
    assert_eq!(describe_all(&runner.destroy()), ["destroy app 51"]);
}

#[test]
fn panic_unsubscribes_on_the_next_lock_attempt() {
    let mut runner = Runner::new();
    give_app(&mut runner, 50);
    give_observer(&mut runner, 30);
    listen(&mut runner, "canvas", "click", 1);
    request_frame(&mut runner, 3, false, Ok(11)).1.unwrap();
    runner.record_panic(summary("oops"));
    let attempt = runner.try_lock();
    assert_eq!(attempt.app, None);
    assert_eq!(describe_all(&attempt.actions), ["remove canvas click 1", "drop observer 30"]);
    let attempt = runner.try_lock();
    assert_eq!(attempt.app, None);
    assert!(attempt.actions.is_empty());
    assert_eq!(describe_all(&runner.cancel_frame()), ["cancel 11 3"]);
}

#[test]
fn panic_under_the_lock_leaves_the_app_locked() {
    let mut runner = Runner::new();
    give_app(&mut runner, 50);
    assert_eq!(runner.try_lock().app, Some(50));
    runner.record_panic(summary("oops"));
    assert!(runner.is_locked());
    assert_eq!(runner.app_mut().app, None);
    assert!(runner.is_locked());
}

#[test]
fn event_is_delivered_only_under_the_lock() {
    let mut runner = Runner::new();
    assert!(runner.event_received("click").delivered.is_none());
    give_app(&mut runner, 50);
    assert_eq!(runner.event_received("click").delivered, Some(("click", 50)));
    assert!(runner.event_received("nested").delivered.is_none());
    runner.unlock(50);
    listen(&mut runner, "canvas", "click", 1);
    runner.record_panic(summary("oops"));
    let delivery = runner.event_received("click");
    assert!(delivery.delivered.is_none());
    assert_eq!(describe_all(&delivery.actions), ["remove canvas click 1"]);
}

#[test]
fn visible_document_gets_an_animation_frame() {
    let mut runner = Runner::new();
    let (call, result) = request_frame(&mut runner, 3, false, Ok(11));
    assert_eq!(call, "requestAnimationFrame");
    assert_eq!(result, Ok(()));
    assert_eq!(describe_all(&runner.cancel_frame()), ["cancel 11 3"]);
}

#[test]
fn missing_document_counts_as_visible() {
    let mut runner = Runner::new();
    let step = runner.request_animation_frame();
    let (call, result) = answer_frame(&mut runner, step, 3, None, Ok(11));
    assert_eq!(call, "requestAnimationFrame");
    assert_eq!(result, Ok(()));
}

#[test]
fn frame_is_cleared_before_the_application_paints() {
    for outcome in [Ok(()), Err("thrown")] {
        let mut runner = Runner::new();
        request_frame(&mut runner, 3, false, Ok(11)).1.unwrap();
        let step = runner.frame_fired();
        assert_eq!(describe_all(&step.actions), ["drop callback 3"]);
        let stage = match step.request {
            Request::Paint(stage) => stage,
            _ => panic!("not a request to paint"),
        };
        let (call, _) = request_frame(&mut runner, 4, false, Ok(12));
        assert_eq!(call, "requestAnimationFrame");
        let step: Step<Fake> = stage.resume(outcome);
        assert!(step.actions.is_empty());
        let result = match step.request {
            Request::Return(Ok(())) => Ok(()),
            Request::Return(Err(WebError::Js(error))) => Err(error),
            _ => panic!("the callback is not over"),
        };
        assert_eq!(result, outcome);
        assert_eq!(describe_all(&runner.cancel_frame()), ["cancel 12 4"]);
    }
}

#[test]
fn hidden_document_gets_a_timer_of_ten_milliseconds() {
    let mut runner = Runner::new();
    let (call, result) = request_frame(&mut runner, 3, true, Ok(12));
    assert_eq!(call, "setTimeout 10");
    assert_eq!(result, Ok(()));
    assert_eq!(describe_all(&runner.cancel_frame()), ["clear timeout 12 3"]);
}

#[test]
fn only_one_frame_is_scheduled_at_a_time() {
    let mut runner = Runner::new();
    request_frame(&mut runner, 3, false, Ok(11)).1.unwrap();
    assert_eq!(request_frame(&mut runner, 4, false, Ok(12)), ("nothing".to_owned(), Ok(())));
    assert_eq!(request_frame(&mut runner, 4, true, Ok(12)), ("nothing".to_owned(), Ok(())));
    assert_eq!(fire(&mut runner), Some(3));
    assert_eq!(fire(&mut runner), None);
    assert_eq!(request_frame(&mut runner, 4, false, Ok(12)).0, "requestAnimationFrame");
}

#[test]
fn frame_that_cannot_be_scheduled_is_not_kept() {
    let mut runner = Runner::new();
    give_app(&mut runner, 50);
    for hidden in [false, true] {
        assert_eq!(request_frame(&mut runner, 3, hidden, Err("no frame")).1, Err("no frame"));
    }
    assert_eq!(describe_all(&runner.destroy()), ["destroy app 50"]);
}

#[test]
fn reschedule_follows_the_visibility_of_the_document() {
    let mut runner = Runner::new();
    request_frame(&mut runner, 3, false, Ok(11)).1.unwrap();
    let step = runner.reschedule_frame();
    assert_eq!(describe_all(&step.actions), ["cancel 11 3"]);
    assert_eq!(answer_frame(&mut runner, step, 4, Some(true), Ok(12)).0, "setTimeout 10");
    let step = runner.reschedule_frame();
    assert_eq!(describe_all(&step.actions), ["clear timeout 12 4"]);
    assert_eq!(answer_frame(&mut runner, step, 5, Some(false), Ok(13)).0, "requestAnimationFrame");
    assert_eq!(describe_all(&runner.cancel_frame()), ["cancel 13 5"]);
    assert!(runner.cancel_frame().is_empty());
}

#[test]
fn reschedule_without_a_frame_in_flight_requests_one() {
    let mut runner = Runner::new();
    let step = runner.reschedule_frame();
    assert!(step.actions.is_empty());
    let (call, result) = answer_frame(&mut runner, step, 4, Some(false), Ok(12));
    assert_eq!(call, "requestAnimationFrame");
    assert_eq!(result, Ok(()));
}

#[test]
fn late_frame_takes_the_place_of_the_one_in_flight() {
    let mut runner = Runner::new();
    let late = match runner.request_animation_frame().request {
        Request::InspectDocument(stage) => stage,
        _ => panic!("not a request for a frame"),
    };
    request_frame(&mut runner, 3, false, Ok(11)).1.unwrap();
    let stage = match late.resume::<Fake>(4, Some(false)).request {
        Request::RequestAnimationFrame(stage) => stage,
        _ => panic!("not a call that schedules a frame"),
    };
    let step = stage.resume(&mut runner, Ok(12));
    assert_eq!(describe_all(&step.actions), ["drop callback 3"]);
    assert_eq!(describe_all(&runner.cancel_frame()), ["cancel 12 4"]);
}

#[test]
fn new_owners_displace_old_ones() {
    let mut runner = Runner::new();
    assert!(give_app(&mut runner, 50).is_empty());
    assert_eq!(give_app(&mut runner, 51), ["drop app 50"]);
    assert!(give_observer(&mut runner, 30).is_empty());
    assert_eq!(give_observer(&mut runner, 31), ["drop observer 30"]);
    assert_eq!(describe_all(&runner.destroy()), ["drop observer 31", "destroy app 51"]);
}
