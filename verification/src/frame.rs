use vstd::prelude::*;

use crate::action::{only, return_of, Action, Request, Step, StepView, WebError};
use crate::platform::Platform;
use crate::runner::{RunnerState, WebRunner};

verus! {

/// The delay of the timer that stands in for an animation frame while the document is
/// hidden. Browsers clamp the timers of a hidden document to about a second, so it
/// matters little there, but keeps the runner responsive right after the document
/// was hidden.
pub const HIDDEN_FRAME_DELAY_MS: i32 = 10;

/// How a frame was scheduled.
#[derive(Clone, Copy, Debug, PartialEq, Eq, Structural)]
pub enum AnimationFrameKind {
    /// Scheduled with `requestAnimationFrame` (visible document).
    AnimationFrame,

    /// Scheduled with `setTimeout` (hidden document).
    Timeout,
}

/// A scheduled frame.
pub struct AnimationFrameRequest<P: Platform> {
    /// The id that the browser gave the scheduled call.
    pub id: i32,

    /// How the frame was scheduled, so that it is cancelled in the same way.
    pub kind: AnimationFrameKind,

    /// The callback of the scheduled call, which has to live until it is called.
    pub callback: P::FrameCallback,
}

/// What cancels a scheduled frame: the call that goes with how it was scheduled.
pub open spec fn cancellation<P: Platform>(frame: AnimationFrameRequest<P>) -> Action<P> {
    match frame.kind {
        AnimationFrameKind::AnimationFrame => Action::CancelAnimationFrame {
            id: frame.id,
            callback: frame.callback,
        },
        AnimationFrameKind::Timeout => Action::ClearTimeout {
            id: frame.id,
            callback: frame.callback,
        },
    }
}

impl<P: Platform> AnimationFrameRequest<P> {
    /// Cancels the frame, by the call that goes with how it was scheduled.
    pub fn cancel(self) -> (action: Action<P>)
        ensures
            action == cancellation(self),
    {
        match self.kind {
            AnimationFrameKind::AnimationFrame => Action::CancelAnimationFrame {
                id: self.id,
                callback: self.callback,
            },
            AnimationFrameKind::Timeout => Action::ClearTimeout {
                id: self.id,
                callback: self.callback,
            },
        }
    }
}

/// What a frame is requested for.
#[derive(Clone, Copy, Debug, PartialEq, Eq, Structural)]
pub enum Purpose {
    /// On its own: where it cannot be scheduled, nothing else happens.
    Standalone,

    /// As the end of an activation: where it cannot be scheduled, the runner is
    /// destroyed.
    Activation,
}

/// How a frame is scheduled for a document that is or is not hidden. Where there is no
/// document, none is hidden.
pub open spec fn kind_for(hidden: Option<bool>) -> AnimationFrameKind {
    if hidden == Some(true) {
        AnimationFrameKind::Timeout
    } else {
        AnimationFrameKind::AnimationFrame
    }
}

/// The call that schedules the frame of a stage.
pub open spec fn schedule_call<P: Platform>(stage: ScheduleStage<P>) -> Request<P> {
    match stage.kind {
        AnimationFrameKind::AnimationFrame => Request::RequestAnimationFrame(stage),
        AnimationFrameKind::Timeout => Request::SetTimeout { delay_ms: HIDDEN_FRAME_DELAY_MS, stage },
    }
}

/// A frame request that waits for its callback and for the state of the document.
pub struct VisibilityStage {
    pub purpose: Purpose,
}

impl VisibilityStage {
    /// Picks the call that schedules the frame. A hidden document gets no animation
    /// frames, but its timers keep firing.
    pub fn resume<P: Platform>(
        self,
        callback: P::FrameCallback,
        hidden: Option<bool>,
    ) -> (step: Step<P>)
        ensures
            step@ == only(
                schedule_call::<P>(
                    (ScheduleStage { purpose: self.purpose, kind: kind_for(hidden), callback }),
                ),
            ),
    {
        if hidden.unwrap_or(false) {
            let stage = ScheduleStage {
                purpose: self.purpose,
                kind: AnimationFrameKind::Timeout,
                callback,
            };
            Step::only(Request::SetTimeout { delay_ms: HIDDEN_FRAME_DELAY_MS, stage })
        } else {
            let stage = ScheduleStage {
                purpose: self.purpose,
                kind: AnimationFrameKind::AnimationFrame,
                callback,
            };
            Step::only(Request::RequestAnimationFrame(stage))
        }
    }
}

/// A frame request that waits for the outcome of the call that schedules it.
pub struct ScheduleStage<P: Platform> {
    pub purpose: Purpose,
    pub kind: AnimationFrameKind,
    pub callback: P::FrameCallback,
}

/// The runner once a frame was scheduled, or could not be.
pub open spec fn after_schedule<P: Platform>(
    state: RunnerState<P>,
    stage: ScheduleStage<P>,
    outcome: Result<i32, P::Error>,
) -> RunnerState<P> {
    match outcome {
        Ok(id) => state.with_frame(
            AnimationFrameRequest { id, kind: stage.kind, callback: stage.callback },
        ),
        Err(_) => match stage.purpose {
            Purpose::Standalone => state,
            Purpose::Activation => state.destroyed(),
        },
    }
}

/// What follows once a frame was scheduled, or could not be.
pub open spec fn schedule_step<P: Platform>(
    state: RunnerState<P>,
    stage: ScheduleStage<P>,
    outcome: Result<i32, P::Error>,
) -> StepView<P> {
    match outcome {
        Ok(_) => StepView {
            actions: state.displaced_frame_actions(),
            request: Request::Return(Ok(())),
        },
        Err(error) => match stage.purpose {
            Purpose::Standalone => only(Request::Return(Err(WebError::Js(error)))),
            Purpose::Activation => state.failed(error),
        },
    }
}

impl<P: Platform> ScheduleStage<P> {
    /// Keeps the frame if it was scheduled, and passes the error on if not.
    pub fn resume(self, runner: &mut WebRunner<P>, outcome: Result<i32, P::Error>) -> (step: Step<P>)
        requires
            self.purpose is Activation && outcome is Err ==> !old(runner)@.locked(),
        ensures
            final(runner)@ == after_schedule(old(runner)@, self, outcome),
            step@ == schedule_step(old(runner)@, self, outcome),
    {
        match outcome {
            Ok(id) => {
                let frame = AnimationFrameRequest { id, kind: self.kind, callback: self.callback };
                let actions = runner.keep_frame(frame);
                Step { actions, request: Request::Return(Ok(())) }
            },
            Err(error) => match self.purpose {
                Purpose::Standalone => Step::only(Request::Return(Err(WebError::Js(error)))),
                Purpose::Activation => runner.fail(error),
            },
        }
    }
}

/// A frame that has come and waits for the application to paint.
pub struct PaintStage {}

impl PaintStage {
    /// Passes the outcome on: it is that of the callback.
    pub fn resume<P: Platform>(self, outcome: Result<(), P::Error>) -> (step: Step<P>)
        ensures
            step@ == only(return_of::<P>(outcome)),
    {
        Step::only(Request::return_of(outcome))
    }
}

} // verus!
