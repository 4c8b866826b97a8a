//! Operations that go on over several requests to the page.
use vstd::prelude::*;

use crate::action::{only, return_of, Request, StepView, WebError};
use crate::frame::{kind_for, schedule_call, schedule_step, ScheduleStage};
use crate::ledger::{Operation, Page, Resource};
use crate::platform::Platform;
use crate::runner::AppSlot;
use crate::startup::{
    create_step, handlers_step, install_step, keep_observer_step, kept_unless_failed, observer_step,
    style_step, text_agent_step, TextAgentStage,
};

verus! {

/// What the page answers to a request.
pub enum Answer<P: Platform> {
    /// To `StyleCanvas`.
    Styled(Result<(), P::Error>),

    /// To `CreateApp`.
    Created(Result<P::App, String>),

    /// To `InstallRepaintCallback` and `GiveTextAgent`: the application after it.
    Equipped(P::App),

    /// To `AttachTextAgent`.
    Attached(Result<P::TextAgent, P::Error>),

    /// To `CreateResizeObserver`.
    Observing(Result<P::ResizeObserver, P::Error>),

    /// To `ObserveCanvas`: the observer after it.
    Pointed(P::ResizeObserver),

    /// To `InstallEventHandlers`.
    Handling(Result<(), P::Error>),

    /// To `InspectDocument`.
    Document { callback: P::FrameCallback, hidden: Option<bool> },

    /// To `RequestAnimationFrame` and `SetTimeout`.
    Scheduled(Result<i32, P::Error>),

    /// To `Paint`.
    Painted(Result<(), P::Error>),
}

/// Where an operation is: the page, and what the operation needs next from it.
pub struct Dialogue<P: Platform> {
    pub page: Page<P>,
    pub request: Request<P>,
}

/// What happens to the runner while a request is carried out, and the answer to it.
pub struct Exchange<P: Platform> {
    pub meanwhile: Seq<Operation<P>>,
    pub answer: Answer<P>,
}

/// Is the answer one to the request?
pub open spec fn fits<P: Platform>(request: Request<P>, answer: Answer<P>) -> bool {
    match request {
        Request::StyleCanvas { .. } => answer is Styled,
        Request::CreateApp { .. } => answer is Created,
        Request::InstallRepaintCallback { .. } => answer is Equipped,
        Request::AttachTextAgent(_) => answer is Attached,
        Request::GiveTextAgent { .. } => answer is Equipped,
        Request::CreateResizeObserver(_) => answer is Observing,
        Request::ObserveCanvas { .. } => answer is Pointed,
        Request::InstallEventHandlers(_) => answer is Handling,
        Request::InspectDocument(_) => answer is Document,
        Request::RequestAnimationFrame(_) => answer is Scheduled,
        Request::SetTimeout { .. } => answer is Scheduled,
        Request::Paint(_) => answer is Painted,
        Request::HandOver(_) | Request::Return(_) => false,
    }
}

/// The error that an answer brings.
pub open spec fn error_of<P: Platform>(answer: Answer<P>) -> Option<WebError<P>> {
    match answer {
        Answer::Styled(Err(error)) => Some(WebError::Js(error)),
        Answer::Created(Err(message)) => Some(WebError::App(message)),
        Answer::Attached(Err(error)) => Some(WebError::Js(error)),
        Answer::Observing(Err(error)) => Some(WebError::Js(error)),
        Answer::Handling(Err(error)) => Some(WebError::Js(error)),
        Answer::Scheduled(Err(error)) => Some(WebError::Js(error)),
        Answer::Painted(Err(error)) => Some(WebError::Js(error)),
        _ => None,
    }
}

/// Is the answer free of errors?
pub open spec fn succeeds<P: Platform>(answer: Answer<P>) -> bool {
    error_of(answer) is None
}

/// Can something happen to the runner while the request is carried out? The calls that
/// schedule a frame go straight to the browser.
pub open spec fn interruptible<P: Platform>(request: Request<P>) -> bool {
    match request {
        Request::InspectDocument(_) | Request::RequestAnimationFrame(_) | Request::SetTimeout {
            ..
        } => false,
        _ => true,
    }
}

/// Is the answer one that takes the place of the application, or that ends in the
/// destruction of the runner? Then the application must not be locked.
pub open spec fn needs_unlocked<P: Platform>(request: Request<P>, answer: Answer<P>) -> bool {
    match request {
        Request::GiveTextAgent { .. } => true,
        Request::AttachTextAgent(_) | Request::CreateResizeObserver(_)
        | Request::InstallEventHandlers(_) => !succeeds(answer),
        Request::RequestAnimationFrame(stage) => stage.purpose is Activation && !succeeds(answer),
        Request::SetTimeout { stage, .. } => stage.purpose is Activation && !succeeds(answer),
        _ => false,
    }
}

/// Is the operation over?
pub open spec fn over<P: Platform>(request: Request<P>) -> bool {
    request is HandOver || request is Return
}

impl<P: Platform> Dialogue<P> {
    /// The dialogue at the next request.
    pub open spec fn at(page: Page<P>, request: Request<P>) -> Self {
        Dialogue { page, request }
    }

    /// The dialogue once the request was answered.
    pub open spec fn answered(self, answer: Answer<P>) -> Self {
        let page = self.page;
        let runner = page.runner;
        match (self.request, answer) {
            (Request::StyleCanvas { stage, .. }, Answer::Styled(outcome)) => Self::at(
                page,
                style_step(stage, outcome),
            ),
            (Request::CreateApp { stage, .. }, Answer::Created(outcome)) => Self::at(
                page,
                create_step(stage, outcome),
            ),
            (Request::InstallRepaintCallback { stage, .. }, Answer::Equipped(app)) => Self::at(
                page,
                Request::AttachTextAgent(TextAgentStage { app, canvas: stage.canvas }),
            ),
            (Request::AttachTextAgent(stage), Answer::Attached(outcome)) => {
                let step = text_agent_step(runner, stage, outcome);
                Self::at(
                    page.after(kept_unless_failed(runner, outcome), step.actions),
                    step.request,
                )
            },
            (Request::GiveTextAgent { stage, .. }, Answer::Equipped(app)) => {
                let step = install_step(runner, stage);
                Self::at(page.after(runner.with_app(AppSlot::Idle(app)), step.actions), step.request)
            },
            (Request::CreateResizeObserver(stage), Answer::Observing(outcome)) => {
                let step = observer_step(runner, stage, outcome);
                Self::at(
                    page.after(kept_unless_failed(runner, outcome), step.actions),
                    step.request,
                )
            },
            (Request::ObserveCanvas { .. }, Answer::Pointed(observer)) => {
                let step = keep_observer_step(runner);
                Self::at(
                    page.after(runner.with_resize_observer(observer), step.actions).with(
                        Resource::ResizeObserver(observer),
                    ),
                    step.request,
                )
            },
            (Request::InstallEventHandlers(_), Answer::Handling(outcome)) => {
                let step = handlers_step(runner, outcome);
                Self::at(
                    page.after(kept_unless_failed(runner, outcome), step.actions),
                    step.request,
                )
            },
            (Request::InspectDocument(stage), Answer::Document { callback, hidden }) => Self::at(
                page,
                schedule_call(
                    ScheduleStage { purpose: stage.purpose, kind: kind_for(hidden), callback },
                ),
            ),
            (Request::RequestAnimationFrame(stage), Answer::Scheduled(outcome)) => Self::at(
                page.scheduled(stage, outcome),
                schedule_step(page.runner, stage, outcome).request,
            ),
            (Request::SetTimeout { stage, .. }, Answer::Scheduled(outcome)) => Self::at(
                page.scheduled(stage, outcome),
                schedule_step(page.runner, stage, outcome).request,
            ),
            (Request::Paint(_), Answer::Painted(outcome)) => Self::at(page, return_of(outcome)),
            _ => self,
        }
    }

    /// What the operation asks for in reply to the answer: first the actions, and then the
    /// next request.
    pub open spec fn step_on(self, answer: Answer<P>) -> StepView<P> {
        let runner = self.page.runner;
        match (self.request, answer) {
            (Request::AttachTextAgent(stage), Answer::Attached(outcome)) => text_agent_step(
                runner,
                stage,
                outcome,
            ),
            (Request::GiveTextAgent { stage, .. }, Answer::Equipped(_)) => install_step(
                runner,
                stage,
            ),
            (Request::CreateResizeObserver(stage), Answer::Observing(outcome)) => observer_step(
                runner,
                stage,
                outcome,
            ),
            (Request::ObserveCanvas { .. }, Answer::Pointed(_)) => keep_observer_step(runner),
            (Request::InstallEventHandlers(_), Answer::Handling(outcome)) => handlers_step(
                runner,
                outcome,
            ),
            (Request::RequestAnimationFrame(stage), Answer::Scheduled(outcome)) => schedule_step(
                runner,
                stage,
                outcome,
            ),
            (Request::SetTimeout { stage, .. }, Answer::Scheduled(outcome)) => schedule_step(
                runner,
                stage,
                outcome,
            ),
            _ => only(self.answered(answer).request),
        }
    }

    /// The dialogue when the answer comes.
    pub open spec fn after_meanwhile(self, exchange: Exchange<P>) -> Self {
        Self::at(self.page.after_all(exchange.meanwhile), self.request)
    }

    /// Can this exchange happen?
    pub open spec fn admits(self, exchange: Exchange<P>) -> bool {
        &&& fits(self.request, exchange.answer)
        &&& self.page.admits_all(exchange.meanwhile)
        &&& needs_unlocked(self.request, exchange.answer) ==> !self.after_meanwhile(
            exchange,
        ).page.runner.locked()
        &&& interruptible(self.request) || exchange.meanwhile.len() == 0
    }

    /// The dialogue after an exchange.
    pub open spec fn next(self, exchange: Exchange<P>) -> Self {
        self.after_meanwhile(exchange).answered(exchange.answer)
    }

    /// The dialogue after one exchange after another.
    pub open spec fn after_all(self, exchanges: Seq<Exchange<P>>) -> Self
        decreases exchanges.len(),
    {
        if exchanges.len() == 0 {
            self
        } else {
            self.after_all(exchanges.drop_last()).next(exchanges.last())
        }
    }

    /// Can one exchange after the other happen?
    pub open spec fn admits_all(self, exchanges: Seq<Exchange<P>>) -> bool
        decreases exchanges.len(),
    {
        exchanges.len() > 0 ==> self.admits_all(exchanges.drop_last()) && self.after_all(
            exchanges.drop_last(),
        ).admits(exchanges.last())
    }
}

} // verus!
