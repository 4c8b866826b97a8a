use vstd::prelude::*;

use crate::frame::{PaintStage, ScheduleStage, VisibilityStage};
use crate::platform::Platform;
use crate::startup::{
    CreateStage, HandlersStage, InstallStage, KeepObserverStage, ObserverStage, PreparedWebRunner,
    RepaintStage, StyleStage, TextAgentStage,
};
use crate::subscription::{IntervalHandle, TargetEvent};

verus! {

/// Something to be done to the page. The runner goes on in the same way whether it
/// succeeds or not. The values that an action carries are dropped once it is done.
pub enum Action<P: Platform> {
    /// `removeEventListener` on the target of the event, with its name, its callback and
    /// this capture flag.
    RemoveEventListener { event: TargetEvent<P>, capture: bool },

    /// Drop a listener that was not added.
    DropListener(TargetEvent<P>),

    /// `clearInterval` on the window.
    ClearInterval(IntervalHandle<P>),

    /// Drop the observer, which disconnects it.
    DropResizeObserver(P::ResizeObserver),

    /// `cancelAnimationFrame` on the window.
    CancelAnimationFrame { id: i32, callback: P::FrameCallback },

    /// `clearTimeout` on the window.
    ClearTimeout { id: i32, callback: P::FrameCallback },

    /// Drop the callback of a frame that is not cancelled: it has come, or another one
    /// has taken its place.
    DropFrameCallback(P::FrameCallback),

    /// Shut the application down and drop it.
    DestroyApp(P::App),

    /// Drop the application without shutting it down.
    DropApp(P::App),
}

impl<P: Platform> Action<P> {
    /// The result of the action, given what the browser threw while it was done. Only a
    /// listener that cannot be removed is an error. It concerns no other action: those
    /// that come after are done all the same.
    pub fn result(&self, thrown: Option<P::Error>) -> (result: Result<(), P::Error>)
        ensures
            result == (match thrown {
                Some(error) if self is RemoveEventListener => Err(error),
                _ => Ok(()),
            }),
    {
        match (self, thrown) {
            (Action::RemoveEventListener { .. }, Some(error)) => Err(error),
            _ => Ok(()),
        }
    }
}

/// Why an operation of the runner failed.
pub enum WebError<P: Platform> {
    /// The browser threw this.
    Js(P::Error),

    /// The application could not be created, with this message.
    App(String),
}

/// What an operation of the runner needs next from the page, or its result.
#[allow(inconsistent_fields)]
pub enum Request<P: Platform> {
    /// Give the canvas of the stage this tab index, then set this property of its style
    /// to this value; resume the stage with the outcome of the latter.
    StyleCanvas {
        tab_index: i32,
        property: &'static str,
        value: &'static str,
        stage: StyleStage<P>,
    },

    /// Create the application for the canvas of the stage; resume it with the outcome.
    CreateApp {
        web_options: P::WebOptions,
        app_creator: P::AppCreator,
        stage: CreateStage<P>,
    },

    /// The operation is over, and the application is prepared.
    HandOver(PreparedWebRunner<P>),

    /// Install the repaint callback of the application; resume the stage with it.
    InstallRepaintCallback { app: P::App, stage: RepaintStage<P> },

    /// Attach a text agent to the root node of the canvas of the stage; resume it with
    /// the outcome.
    AttachTextAgent(TextAgentStage<P>),

    /// Give the application its text agent; resume the stage with it.
    GiveTextAgent { app: P::App, text_agent: P::TextAgent, stage: InstallStage<P> },

    /// Create a resize observer; resume the stage with the outcome.
    CreateResizeObserver(ObserverStage<P>),

    /// Let the observer watch the canvas; resume the stage with it.
    ObserveCanvas {
        observer: P::ResizeObserver,
        canvas: P::Canvas,
        stage: KeepObserverStage,
    },

    /// Install the event handlers of the page; resume the stage with the outcome.
    InstallEventHandlers(HandlersStage),

    /// Make the callback that paints the next frame, find out whether the document is
    /// hidden, if there is a document, and resume the stage with both.
    InspectDocument(VisibilityStage),

    /// `requestAnimationFrame` with the callback of the stage; resume it with the
    /// outcome.
    RequestAnimationFrame(ScheduleStage<P>),

    /// `setTimeout` with the callback of the stage and this delay in milliseconds;
    /// resume it with the outcome.
    SetTimeout { delay_ms: i32, stage: ScheduleStage<P> },

    /// Let the application paint, and what follows be scheduled; resume the stage with
    /// the outcome.
    Paint(PaintStage),

    /// The operation is over.
    Return(Result<(), WebError<P>>),
}

/// First do the actions, in their order, and after them what the request says.
pub struct Step<P: Platform> {
    pub actions: Vec<Action<P>>,
    pub request: Request<P>,
}

/// A [`Step`] as a mathematical value.
pub struct StepView<P: Platform> {
    pub actions: Seq<Action<P>>,
    pub request: Request<P>,
}

impl<P: Platform> View for Step<P> {
    type V = StepView<P>;

    open spec fn view(&self) -> StepView<P> {
        StepView { actions: self.actions@, request: self.request }
    }
}

/// The end of an operation with the outcome of a call into the page.
pub open spec fn return_of<P: Platform>(outcome: Result<(), P::Error>) -> Request<P> {
    match outcome {
        Ok(_) => Request::Return(Ok(())),
        Err(error) => Request::Return(Err(WebError::Js(error))),
    }
}

impl<P: Platform> Request<P> {
    /// The end of an operation with the outcome of a call into the page.
    pub fn return_of(outcome: Result<(), P::Error>) -> (request: Self)
        ensures
            request == return_of::<P>(outcome),
    {
        match outcome {
            Ok(_) => Request::Return(Ok(())),
            Err(error) => Request::Return(Err(WebError::Js(error))),
        }
    }
}

/// The step without actions.
pub open spec fn only<P: Platform>(request: Request<P>) -> StepView<P> {
    StepView { actions: seq![], request }
}

impl<P: Platform> Step<P> {
    /// The step without actions.
    pub fn only(request: Request<P>) -> (step: Self)
        ensures
            step@ == only(request),
    {
        Step { actions: Vec::new(), request }
    }
}

} // verus!
