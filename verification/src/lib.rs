//! The verified core of a runner for web applications.
//!
//! Everything a browser page hands out is opaque here: the types of [`Platform`]
//! stand for it. What the runner decides (which owner it keeps, what it asks the
//! browser to do next, what it gives back and when) is decided by this crate.
//!
//! No function here touches the page. A function that has something done there
//! returns it as [`Action`]s, whose outcome the runner does not depend on, or as a
//! [`Request`], whose answer goes back into the stage that the request carries.
pub mod action;
pub mod dialogue;
pub mod frame;
pub mod laws;
pub mod ledger;
pub mod operation_laws;
pub mod panic_handler;
pub mod platform;
pub mod runner;
pub mod startup;
pub mod startup_laws;
pub mod subscription;

pub use action::{Action, Request, Step, WebError};
pub use frame::{
    AnimationFrameKind, AnimationFrameRequest, PaintStage, Purpose, ScheduleStage, VisibilityStage,
};
pub use panic_handler::{PanicHandler, PanicSummary};
pub use platform::Platform;
pub use runner::{AppSlot, EventDelivery, LockAttempt, WebRunner};
pub use startup::{
    CreateStage, HandlersStage, InstallStage, KeepObserverStage, Launch, ObserverStage,
    PreparedWebRunner, RepaintStage, StyleStage, TextAgentStage,
};
pub use subscription::{EventToUnsubscribe, IntervalHandle, ListenerOptions, TargetEvent};
