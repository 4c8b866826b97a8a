use vstd::prelude::*;

use crate::action::{only, Action, Request, Step, StepView, WebError};
use crate::frame::Purpose;
use crate::platform::Platform;
use crate::runner::{AppSlot, RunnerState, WebRunner};

verus! {

/// The tab index that lets a canvas be given focus.
pub const CANVAS_TAB_INDEX: i32 = 0;

/// How far an application is brought.
#[derive(Clone, Copy, Debug, PartialEq, Eq, Structural)]
pub enum Launch {
    /// It is created and handed over.
    Prepare,

    /// It is created and activated.
    Start,
}

/// A prepared, but not yet activated, web app.
///
/// It has its painter, its egui context and the application, but no DOM event
/// handlers, resize observer, text agent, repaint callback or frame in flight.
/// [`PreparedWebRunner::activate`] installs all of those, and
/// [`PreparedWebRunner::abort`] discards the app without leaving any behind. Both
/// consume it.
pub struct PreparedWebRunner<P: Platform> {
    pub canvas: P::Canvas,
    pub app_runner: P::App,
}

// ----------------------------------------------------------------------------
// Preparing

/// A launch whose canvas is being styled.
pub struct StyleStage<P: Platform> {
    pub canvas: P::Canvas,
    pub web_options: P::WebOptions,
    pub app_creator: P::AppCreator,
    pub launch: Launch,
}

/// A launch whose application is being created.
pub struct CreateStage<P: Platform> {
    pub canvas: P::Canvas,
    pub launch: Launch,
}

/// What a launch begins with, once the runner is destroyed: the canvas is made to take
/// focus, and not to be outlined when it has it.
pub open spec fn style_request<P: Platform>(stage: StyleStage<P>) -> Request<P> {
    Request::StyleCanvas {
        tab_index: CANVAS_TAB_INDEX,
        property: "outline",
        value: "none",
        stage,
    }
}

/// What follows once the canvas was styled, or could not be.
pub open spec fn style_step<P: Platform>(
    stage: StyleStage<P>,
    outcome: Result<(), P::Error>,
) -> Request<P> {
    match outcome {
        Ok(_) => Request::CreateApp {
            web_options: stage.web_options,
            app_creator: stage.app_creator,
            stage: CreateStage { canvas: stage.canvas, launch: stage.launch },
        },
        Err(error) => Request::Return(Err(WebError::Js(error))),
    }
}

/// What an activation begins with.
pub open spec fn activation_request<P: Platform>(prepared: PreparedWebRunner<P>) -> Request<P> {
    Request::InstallRepaintCallback {
        app: prepared.app_runner,
        stage: RepaintStage { canvas: prepared.canvas },
    }
}

/// What follows once the application was created, or could not be: a preparation hands
/// it over, a start activates it.
pub open spec fn create_step<P: Platform>(
    stage: CreateStage<P>,
    outcome: Result<P::App, String>,
) -> Request<P> {
    match outcome {
        Ok(app) => {
            let prepared = PreparedWebRunner { canvas: stage.canvas, app_runner: app };
            match stage.launch {
                Launch::Prepare => Request::HandOver(prepared),
                Launch::Start => activation_request(prepared),
            }
        },
        Err(message) => Request::Return(Err(WebError::App(message))),
    }
}

impl<P: Platform> WebRunner<P> {
    /// Creates the application, installs callbacks, and starts running the app.
    pub fn start(
        &mut self,
        canvas: P::Canvas,
        web_options: P::WebOptions,
        app_creator: P::AppCreator,
    ) -> (step: Step<P>)
        requires
            !old(self)@.locked(),
        ensures
            final(self)@ == old(self)@.destroyed(),
            step.actions@ == old(self)@.destroy_actions(),
            step.request == style_request::<P>(
                (StyleStage { canvas, web_options, app_creator, launch: Launch::Start }),
            ),
    {
        self.launch(StyleStage { canvas, web_options, app_creator, launch: Launch::Start })
    }

    /// Prepares a web app without installing any DOM or paint-loop owners.
    pub fn prepare_app(
        &mut self,
        canvas: P::Canvas,
        web_options: P::WebOptions,
        app_creator: P::AppCreator,
    ) -> (step: Step<P>)
        requires
            !old(self)@.locked(),
        ensures
            final(self)@ == old(self)@.destroyed(),
            step.actions@ == old(self)@.destroy_actions(),
            step.request == style_request::<P>(
                (StyleStage { canvas, web_options, app_creator, launch: Launch::Prepare }),
            ),
    {
        self.launch(StyleStage { canvas, web_options, app_creator, launch: Launch::Prepare })
    }

    fn launch(&mut self, stage: StyleStage<P>) -> (step: Step<P>)
        requires
            !old(self)@.locked(),
        ensures
            final(self)@ == old(self)@.destroyed(),
            step.actions@ == old(self)@.destroy_actions(),
            step.request == style_request(stage),
    {
        let actions = self.destroy();
        let request = Request::StyleCanvas {
            tab_index: CANVAS_TAB_INDEX,
            property: "outline",
            value: "none",
            stage,
        };
        Step { actions, request }
    }
}

impl<P: Platform> StyleStage<P> {
    /// Goes on to create the application, if the canvas was styled.
    pub fn resume(self, outcome: Result<(), P::Error>) -> (step: Step<P>)
        ensures
            step@ == only(style_step(self, outcome)),
    {
        match outcome {
            Ok(_) => Step::only(
                Request::CreateApp {
                    web_options: self.web_options,
                    app_creator: self.app_creator,
                    stage: CreateStage { canvas: self.canvas, launch: self.launch },
                },
            ),
            Err(error) => Step::only(Request::Return(Err(WebError::Js(error)))),
        }
    }
}

impl<P: Platform> CreateStage<P> {
    /// Hands the application over, or goes on to activate it, if it was created.
    pub fn resume(self, outcome: Result<P::App, String>) -> (step: Step<P>)
        ensures
            step@ == only(create_step(self, outcome)),
    {
        match outcome {
            Ok(app) => {
                let prepared = PreparedWebRunner { canvas: self.canvas, app_runner: app };
                match self.launch {
                    Launch::Prepare => Step::only(Request::HandOver(prepared)),
                    Launch::Start => prepared.activate(),
                }
            },
            Err(message) => Step::only(Request::Return(Err(WebError::App(message)))),
        }
    }
}

// ----------------------------------------------------------------------------
// Activating

/// An activation that waits for the repaint callback of its application.
pub struct RepaintStage<P: Platform> {
    pub canvas: P::Canvas,
}

/// An activation that waits for a text agent.
pub struct TextAgentStage<P: Platform> {
    pub app: P::App,
    pub canvas: P::Canvas,
}

/// An activation whose application is being given its text agent.
pub struct InstallStage<P: Platform> {
    pub canvas: P::Canvas,
}

/// An activation that waits for a resize observer.
pub struct ObserverStage<P: Platform> {
    pub canvas: P::Canvas,
}

/// An activation whose resize observer is being pointed at the canvas.
pub struct KeepObserverStage {}

/// An activation that waits for the event handlers of the page.
pub struct HandlersStage {}

/// What follows once a text agent was attached, or could not be. Without one, the
/// application is dropped and the runner destroyed.
pub open spec fn text_agent_step<P: Platform>(
    state: RunnerState<P>,
    stage: TextAgentStage<P>,
    outcome: Result<P::TextAgent, P::Error>,
) -> StepView<P> {
    match outcome {
        Ok(text_agent) => only(
            Request::GiveTextAgent {
                app: stage.app,
                text_agent,
                stage: InstallStage { canvas: stage.canvas },
            },
        ),
        Err(error) => StepView {
            actions: seq![Action::DropApp(stage.app)] + state.destroy_actions(),
            request: Request::Return(Err(WebError::Js(error))),
        },
    }
}

/// The runner once something that an activation needs came, or did not. Without it the
/// runner is destroyed.
pub open spec fn kept_unless_failed<P: Platform, T>(
    state: RunnerState<P>,
    outcome: Result<T, P::Error>,
) -> RunnerState<P> {
    match outcome {
        Ok(_) => state,
        Err(_) => state.destroyed(),
    }
}

/// What follows once the application is with the runner.
pub open spec fn install_step<P: Platform>(
    state: RunnerState<P>,
    stage: InstallStage<P>,
) -> StepView<P> {
    StepView {
        actions: state.displaced_app_actions(),
        request: Request::CreateResizeObserver(ObserverStage { canvas: stage.canvas }),
    }
}

/// What follows once a resize observer was created, or could not be.
pub open spec fn observer_step<P: Platform>(
    state: RunnerState<P>,
    stage: ObserverStage<P>,
    outcome: Result<P::ResizeObserver, P::Error>,
) -> StepView<P> {
    match outcome {
        Ok(observer) => only(
            Request::ObserveCanvas { observer, canvas: stage.canvas, stage: KeepObserverStage {  } },
        ),
        Err(error) => state.failed(error),
    }
}

/// What follows once the resize observer is with the runner.
pub open spec fn keep_observer_step<P: Platform>(state: RunnerState<P>) -> StepView<P> {
    StepView {
        actions: state.displaced_observer_actions(),
        request: Request::InstallEventHandlers(HandlersStage {  }),
    }
}

/// What follows once the event handlers were installed, or could not be: the wake-up of
/// the paint loop.
pub open spec fn handlers_step<P: Platform>(
    state: RunnerState<P>,
    outcome: Result<(), P::Error>,
) -> StepView<P> {
    match outcome {
        Ok(_) => only(state.frame_request(Purpose::Activation)),
        Err(error) => state.failed(error),
    }
}

impl<P: Platform> PreparedWebRunner<P> {
    /// Installs all runtime owners and starts the paint loop.
    ///
    /// On error, all owners that were installed are destroyed.
    pub fn activate(self) -> (step: Step<P>)
        ensures
            step@ == only(activation_request(self)),
    {
        Step::only(
            Request::InstallRepaintCallback {
                app: self.app_runner,
                stage: RepaintStage { canvas: self.canvas },
            },
        )
    }

    /// Discards a prepared web app without installing or leaving runtime owners.
    pub fn abort(self, runner: &mut WebRunner<P>) -> (actions: Vec<Action<P>>)
        requires
            !old(runner)@.locked(),
        ensures
            final(runner)@ == old(runner)@.destroyed(),
            actions@ == old(runner)@.destroy_actions().push(Action::DropApp(self.app_runner)),
    {
        let mut actions = runner.destroy();
        actions.push(Action::DropApp(self.app_runner));
        actions
    }

    /// Begins to install what an activated application owns in the page besides its
    /// text agent: the resize observer, the event handlers and the first frame.
    fn install_runtime_owners(canvas: P::Canvas) -> (request: Request<P>)
        ensures
            request == Request::<P>::CreateResizeObserver(ObserverStage { canvas }),
    {
        Request::CreateResizeObserver(ObserverStage { canvas })
    }
}

impl<P: Platform> RepaintStage<P> {
    /// Goes on to attach a text agent.
    pub fn resume(self, app: P::App) -> (step: Step<P>)
        ensures
            step@ == only(
                Request::<P>::AttachTextAgent(TextAgentStage { app, canvas: self.canvas }),
            ),
    {
        Step::only(Request::AttachTextAgent(TextAgentStage { app, canvas: self.canvas }))
    }
}

impl<P: Platform> TextAgentStage<P> {
    /// Gives the application its text agent, if one was attached.
    pub fn resume(
        self,
        runner: &mut WebRunner<P>,
        outcome: Result<P::TextAgent, P::Error>,
    ) -> (step: Step<P>)
        requires
            outcome is Err ==> !old(runner)@.locked(),
        ensures
            final(runner)@ == kept_unless_failed(old(runner)@, outcome),
            step@ == text_agent_step(old(runner)@, self, outcome),
    {
        match outcome {
            Ok(text_agent) => Step::only(
                Request::GiveTextAgent {
                    app: self.app,
                    text_agent,
                    stage: InstallStage { canvas: self.canvas },
                },
            ),
            Err(error) => {
                let mut actions: Vec<Action<P>> = Vec::new();
                actions.push(Action::DropApp(self.app));
                let mut failed = runner.fail(error);
                actions.append(&mut failed.actions);
                Step { actions, request: failed.request }
            },
        }
    }
}

impl<P: Platform> InstallStage<P> {
    /// Hands the application to the runner and goes on to the resize observer.
    pub fn resume(self, runner: &mut WebRunner<P>, app: P::App) -> (step: Step<P>)
        requires
            !old(runner)@.locked(),
        ensures
            final(runner)@ == old(runner)@.with_app(AppSlot::Idle(app)),
            step@ == install_step(old(runner)@, self),
    {
        let actions = runner.keep_app(app);
        let request = PreparedWebRunner::install_runtime_owners(self.canvas);
        Step { actions, request }
    }
}

impl<P: Platform> ObserverStage<P> {
    /// Lets the resize observer watch the canvas, if it was created.
    pub fn resume(
        self,
        runner: &mut WebRunner<P>,
        outcome: Result<P::ResizeObserver, P::Error>,
    ) -> (step: Step<P>)
        requires
            outcome is Err ==> !old(runner)@.locked(),
        ensures
            final(runner)@ == kept_unless_failed(old(runner)@, outcome),
            step@ == observer_step(old(runner)@, self, outcome),
    {
        match outcome {
            Ok(observer) => Step::only(
                Request::ObserveCanvas {
                    observer,
                    canvas: self.canvas,
                    stage: KeepObserverStage {  },
                },
            ),
            Err(error) => runner.fail(error),
        }
    }
}

impl KeepObserverStage {
    /// Hands the resize observer to the runner and goes on to the event handlers.
    pub fn resume<P: Platform>(
        self,
        runner: &mut WebRunner<P>,
        observer: P::ResizeObserver,
    ) -> (step: Step<P>)
        ensures
            final(runner)@ == old(runner)@.with_resize_observer(observer),
            step@ == keep_observer_step(old(runner)@),
    {
        let actions = runner.keep_resize_observer(observer);
        Step { actions, request: Request::InstallEventHandlers(HandlersStage {  }) }
    }
}

impl HandlersStage {
    /// Requests the first frame, if the event handlers were installed. The resize
    /// observer brings a repaint too, but its callback may be delayed.
    pub fn resume<P: Platform>(
        self,
        runner: &mut WebRunner<P>,
        outcome: Result<(), P::Error>,
    ) -> (step: Step<P>)
        requires
            outcome is Err ==> !old(runner)@.locked(),
        ensures
            final(runner)@ == kept_unless_failed(old(runner)@, outcome),
            step@ == handlers_step(old(runner)@, outcome),
    {
        match outcome {
            Ok(_) => runner.request_frame(Purpose::Activation),
            Err(error) => runner.fail(error),
        }
    }
}

} // verus!
