use vstd::prelude::*;

verus! {

/// The values of the browser page, and of the application, that the runner keeps
/// and passes on without looking inside them.
pub trait Platform {
    /// An initialized application with its painter and its egui context.
    type App;

    /// What creates the application.
    type AppCreator;

    /// The options that the application is created with.
    type WebOptions;

    /// The canvas that the application paints on.
    type Canvas;

    /// Something that DOM events are dispatched to.
    type Target;

    /// The options of a call of `addEventListener`.
    type ListenerOptions;

    /// The callback behind an event listener.
    type Listener;

    /// The callback behind an interval timer.
    type IntervalCallback;

    /// The callback that paints a frame.
    type FrameCallback;

    /// What watches the size of the canvas, and stops when it is dropped.
    type ResizeObserver;

    /// What receives text input for the canvas.
    type TextAgent;

    /// An exception that the browser threw.
    type Error;
}

} // verus!
