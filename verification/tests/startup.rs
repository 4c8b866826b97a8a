use web_runner::{
    Action, HandlersStage, InstallStage, ObserverStage, Platform, PreparedWebRunner, Request, Step,
    TextAgentStage, WebError, WebRunner,
};

/// A page whose values are plain numbers and names.
struct Fake;

impl Platform for Fake {
    type App = String;
    type AppCreator = &'static str;
    type WebOptions = &'static str;
    type Canvas = &'static str;
    type Target = &'static str;
    type ListenerOptions = &'static str;
    type Listener = u32;
    type IntervalCallback = u32;
    type FrameCallback = u32;
    type ResizeObserver = String;
    type TextAgent = &'static str;
    type Error = &'static str;
}

type Runner = WebRunner<Fake>;

fn describe(action: &Action<Fake>) -> String {
    match action {
        Action::RemoveEventListener { event, capture } => {
            assert!(!capture);
            format!("remove {} {} {}", event.target, event.event_name, event.listener)
        }
        Action::DropResizeObserver(observer) => format!("drop observer {observer}"),
        Action::CancelAnimationFrame { id, .. } => format!("cancel {id}"),
        Action::ClearTimeout { id, .. } => format!("clear timeout {id}"),
        Action::DestroyApp(app) => format!("destroy {app}"),
        Action::DropApp(app) => format!("drop {app}"),
        _ => panic!("not an action of a launch"),
    }
}

/// The page of a test: what fails in it, whether it is hidden, and what was done to it.
struct Script {
    failing: &'static str,
    hidden: bool,
    log: Vec<String>,
}

enum End {
    Prepared(PreparedWebRunner<Fake>),
    Returned(Result<(), String>),
}

impl Script {
    fn new(failing: &'static str, hidden: bool) -> Self {
        Script { failing, hidden, log: Vec::new() }
    }

    fn outcome<T>(&mut self, name: &'static str, value: T) -> Result<T, &'static str> {
        self.log.push(name.to_owned());
        if self.failing == name {
            Err("thrown")
        } else {
            Ok(value)
        }
    }

    fn listen(&mut self, runner: &mut Runner, event_name: &'static str, listener: u32) {
        let event = runner.add_event_listener("canvas", event_name, listener);
        let step = runner.listener_added(event, Ok(()));
        assert!(matches!(step.request, Request::Return(Ok(()))));
    }

    fn run(&mut self, runner: &mut Runner, mut step: Step<Fake>) -> End {
        loop {
            for action in &step.actions {
                self.log.push(describe(action));
            }
            step = match step.request {
                Request::StyleCanvas { tab_index, property, value, stage } => {
                    self.log.push(format!("{} tab {tab_index} {property}={value}", stage.canvas));
                    stage.resume(self.outcome("style", ()))
                }
                Request::CreateApp { web_options, app_creator, stage } => {
                    let app = format!("{app_creator}({}, {web_options})", stage.canvas);
                    let outcome = self.outcome("create", app);
                    stage.resume(outcome.map_err(|error| error.to_owned()))
                }
                Request::HandOver(prepared) => return End::Prepared(prepared),
                Request::InstallRepaintCallback { app, stage } => {
                    self.log.push("repaint callback".to_owned());
                    stage.resume(app + "+repaint")
                }
                Request::AttachTextAgent(stage) => {
                    self.listen(runner, "input", 1);
                    let outcome = self.outcome("text agent", "agent");
                    stage.resume(runner, outcome)
                }
                Request::GiveTextAgent { app, text_agent, stage } => {
                    self.log.push("give agent".to_owned());
                    stage.resume(runner, app + "+" + text_agent)
                }
                Request::CreateResizeObserver(stage) => {
                    let outcome = self.outcome("observer", "observer".to_owned());
                    stage.resume(runner, outcome)
                }
                Request::ObserveCanvas { observer, canvas, stage } => {
                    self.log.push("observe".to_owned());
                    stage.resume(runner, observer + " of " + canvas)
                }
                Request::InstallEventHandlers(stage) => {
                    self.listen(runner, "keydown", 2);
                    self.listen(runner, "wheel", 3);
                    let outcome = self.outcome("handlers", ());
                    stage.resume(runner, outcome)
                }
                Request::InspectDocument(stage) => {
                    self.log.push("inspect".to_owned());
                    stage.resume(7, Some(self.hidden))
                }
                Request::RequestAnimationFrame(stage) => {
                    let outcome = self.outcome("frame", 70);
                    stage.resume(runner, outcome)
                }
                Request::SetTimeout { delay_ms, stage } => {
                    self.log.push(format!("delay {delay_ms}"));
                    let outcome = self.outcome("frame", 71);
                    stage.resume(runner, outcome)
                }
                Request::Paint(_) => panic!("a launch does not paint"),
                Request::Return(Ok(())) => return End::Returned(Ok(())),
                Request::Return(Err(WebError::Js(error))) => {
                    return End::Returned(Err(format!("js: {error}")))
                }
                Request::Return(Err(WebError::App(message))) => {
                    return End::Returned(Err(format!("app: {message}")))
                }
            };
        }
    }
}

fn start(runner: &mut Runner, script: &mut Script) -> Result<(), String> {
    let step = runner.start("canvas", "options", "app");
    match script.run(runner, step) {
        End::Returned(result) => result,
        End::Prepared(_) => panic!("a start hands nothing over"),
    }
}

fn prepare(runner: &mut Runner, script: &mut Script) -> Result<PreparedWebRunner<Fake>, String> {
    let step = runner.prepare_app("canvas", "options", "app");
    match script.run(runner, step) {
        End::Prepared(prepared) => Ok(prepared),
        End::Returned(result) => Err(result.unwrap_err()),
    }
}

fn destroy(runner: &mut Runner) -> Vec<String> {
    runner.destroy().iter().map(describe).collect()
}

#[test]
fn start_installs_everything_in_order() {
    let mut runner = Runner::new();
    let mut script = Script::new("nothing", false);
    assert_eq!(start(&mut runner, &mut script), Ok(()));
    assert_eq!(
        script.log,
        [
            "canvas tab 0 outline=none",
            "style",
            "create",
            "repaint callback",
            "text agent",
            "give agent",
            "observer",
            "observe",
            "handlers",
            "inspect",
            "frame",
        ]
    );
    let app = "app(canvas, options)+repaint+agent".to_owned();
    assert_eq!(runner.try_lock().app, Some(app.clone()));
    runner.unlock(app);
    assert_eq!(
        destroy(&mut runner),
        [
            "remove canvas input 1",
            "remove canvas keydown 2",
            "remove canvas wheel 3",
            "drop observer observer of canvas",
            "cancel 70",
            "destroy app(canvas, options)+repaint+agent",
        ]
    );
}

#[test]
fn start_in_a_hidden_document_uses_a_timer() {
    let mut runner = Runner::new();
    let mut script = Script::new("nothing", true);
    assert_eq!(start(&mut runner, &mut script), Ok(()));
    assert_eq!(script.log[script.log.len() - 2..], ["delay 10", "frame"]);
    assert!(destroy(&mut runner).contains(&"clear timeout 71".to_owned()));
}

#[test]
fn prepare_installs_nothing() {
    let mut runner = Runner::new();
    let mut script = Script::new("nothing", false);
    let prepared = prepare(&mut runner, &mut script).ok().unwrap();
    assert_eq!(script.log, ["canvas tab 0 outline=none", "style", "create"]);
    assert_eq!(prepared.canvas, "canvas");
    assert_eq!(prepared.app_runner, "app(canvas, options)");
    assert!(runner.try_lock().app.is_none());
    assert!(runner.destroy().is_empty());
}

#[test]
fn prepare_and_activate_is_start() {
    let mut started = Runner::new();
    let mut script = Script::new("nothing", false);
    start(&mut started, &mut script).unwrap();
    let mut runner = Runner::new();
    let mut steps = Script::new("nothing", false);
    let prepared = prepare(&mut runner, &mut steps).ok().unwrap();
    let step = prepared.activate();
    assert!(matches!(steps.run(&mut runner, step), End::Returned(Ok(()))));
    assert_eq!(steps.log, script.log);
    assert_eq!(destroy(&mut runner), destroy(&mut started));
}

#[test]
fn prepare_destroys_the_application_before() {
    let mut runner = Runner::new();
    start(&mut runner, &mut Script::new("nothing", false)).unwrap();
    let mut script = Script::new("nothing", false);
    prepare(&mut runner, &mut script).ok().unwrap();
    assert_eq!(
        script.log[..6],
        [
            "remove canvas input 1",
            "remove canvas keydown 2",
            "remove canvas wheel 3",
            "drop observer observer of canvas",
            "cancel 70",
            "destroy app(canvas, options)+repaint+agent",
        ]
    );
    assert!(runner.destroy().is_empty());
}

#[test]
fn canvas_that_cannot_be_styled_ends_the_launch() {
    let mut runner = Runner::new();
    let mut script = Script::new("style", false);
    assert_eq!(prepare(&mut runner, &mut script).err(), Some("js: thrown".to_owned()));
    assert_eq!(script.log, ["canvas tab 0 outline=none", "style"]);
    assert!(runner.destroy().is_empty());
}

#[test]
fn app_that_cannot_be_created_ends_the_launch() {
    let mut runner = Runner::new();
    let mut script = Script::new("create", false);
    assert_eq!(prepare(&mut runner, &mut script).err(), Some("app: thrown".to_owned()));
    assert_eq!(start(&mut runner, &mut script), Err("app: thrown".to_owned()));
    assert!(runner.destroy().is_empty());
}

#[test]
fn failing_text_agent_drops_the_app_and_destroys_the_runner() {
    let mut runner = Runner::new();
    let mut script = Script::new("text agent", false);
    assert_eq!(start(&mut runner, &mut script), Err("js: thrown".to_owned()));
    assert_eq!(
        script.log[script.log.len() - 3..],
        ["text agent", "drop app(canvas, options)+repaint", "remove canvas input 1"]
    );
    assert!(runner.destroy().is_empty());
}

#[test]
fn failing_observer_destroys_the_runner() {
    let mut runner = Runner::new();
    let mut script = Script::new("observer", false);
    assert_eq!(start(&mut runner, &mut script), Err("js: thrown".to_owned()));
    assert_eq!(
        script.log[script.log.len() - 3..],
        ["observer", "remove canvas input 1", "destroy app(canvas, options)+repaint+agent"]
    );
    assert!(runner.destroy().is_empty());
}

#[test]
fn failing_event_handlers_destroy_the_runner() {
    let mut runner = Runner::new();
    let mut script = Script::new("handlers", false);
    assert_eq!(start(&mut runner, &mut script), Err("js: thrown".to_owned()));
    assert_eq!(
        script.log[script.log.len() - 6..],
        [
            "handlers",
            "remove canvas input 1",
            "remove canvas keydown 2",
            "remove canvas wheel 3",
            "drop observer observer of canvas",
            "destroy app(canvas, options)+repaint+agent",
        ]
    );
    assert!(runner.destroy().is_empty());
}

#[test]
fn failing_frame_destroys_the_runner_at_activation() {
    for hidden in [false, true] {
        let mut runner = Runner::new();
        let mut script = Script::new("frame", hidden);
        assert_eq!(start(&mut runner, &mut script), Err("js: thrown".to_owned()));
        assert_eq!(script.log.last().unwrap(), "destroy app(canvas, options)+repaint+agent");
        assert!(runner.destroy().is_empty());
    }
}

#[test]
fn activation_keeps_a_frame_that_is_in_flight() {
    let mut runner = Runner::new();
    let mut script = Script::new("nothing", false);
    let prepared = prepare(&mut runner, &mut script).ok().unwrap();
    let step = runner.request_animation_frame();
    assert!(matches!(script.run(&mut runner, step), End::Returned(Ok(()))));
    script.log.clear();
    let step = prepared.activate();
    assert!(matches!(script.run(&mut runner, step), End::Returned(Ok(()))));
    assert_eq!(script.log.last().unwrap(), "handlers");
    assert!(destroy(&mut runner).contains(&"cancel 70".to_owned()));
}

#[test]
fn abort_leaves_nothing_behind() {
    let mut runner = Runner::new();
    let mut script = Script::new("nothing", false);
    let prepared = prepare(&mut runner, &mut script).ok().unwrap();
    script.listen(&mut runner, "click", 9);
    let actions: Vec<String> = prepared.abort(&mut runner).iter().map(describe).collect();
    assert_eq!(actions, ["remove canvas click 9", "drop app(canvas, options)"]);
    assert!(runner.destroy().is_empty());
}

#[test]
fn app_given_back_during_the_activation_is_the_one_that_runs() {
    let mut runner = Runner::new();
    let mut script = Script::new("nothing", false);
    let step = InstallStage::<Fake> { canvas: "canvas" }.resume(&mut runner, "app".to_owned());
    let app = runner.try_lock().app.unwrap();
    runner.unlock(app + " changed");
    assert!(matches!(script.run(&mut runner, step), End::Returned(Ok(()))));
    assert_eq!(runner.try_lock().app, Some("app changed".to_owned()));
}

#[test]
fn second_activation_drops_the_first_application() {
    let mut runner = Runner::new();
    let mut script = Script::new("nothing", false);
    let first = prepare(&mut runner, &mut script).ok().unwrap();
    let second = prepare(&mut runner, &mut script).ok().unwrap();
    let step = first.activate();
    script.run(&mut runner, step);
    script.log.clear();
    let step = second.activate();
    assert!(matches!(script.run(&mut runner, step), End::Returned(Ok(()))));
    assert_eq!(
        script.log,
        [
            "repaint callback",
            "text agent",
            "give agent",
            "drop app(canvas, options)+repaint+agent",
            "observer",
            "observe",
            "drop observer observer of canvas",
            "handlers",
        ]
    );
}

#[test]
fn stages_can_succeed_while_the_app_is_locked() {
    let mut runner = Runner::new();
    InstallStage::<Fake> { canvas: "canvas" }.resume(&mut runner, "app".to_owned());
    assert_eq!(runner.try_lock().app, Some("app".to_owned()));
    let stage = TextAgentStage::<Fake> { app: "other".to_owned(), canvas: "canvas" };
    let step = stage.resume(&mut runner, Ok("agent"));
    assert!(matches!(step.request, Request::GiveTextAgent { .. }));
    let stage = ObserverStage::<Fake> { canvas: "canvas" };
    let step = stage.resume(&mut runner, Ok("observer".to_owned()));
    assert!(matches!(step.request, Request::ObserveCanvas { .. }));
    let step: Step<Fake> = HandlersStage {}.resume(&mut runner, Ok(()));
    assert!(matches!(step.request, Request::InspectDocument(_)));
    assert!(runner.is_locked());
}
