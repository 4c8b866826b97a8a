use vstd::prelude::*;

verus! {

/// What is known of a panic.
#[derive(Debug)]
pub struct PanicSummary {
    pub message: String,
    pub callstack: String,
}

impl Clone for PanicSummary {
    fn clone(&self) -> (copy: Self)
        ensures
            copy == *self,
    {
        PanicSummary { message: self.message.clone(), callstack: self.callstack.clone() }
    }
}

/// Remembers the latest panic of the application.
pub struct PanicHandler {
    summary: Option<PanicSummary>,
}

impl View for PanicHandler {
    type V = Option<PanicSummary>;

    closed spec fn view(&self) -> Option<PanicSummary> {
        self.summary
    }
}

impl PanicHandler {
    pub fn new() -> (handler: Self)
        ensures
            handler@ is None,
    {
        PanicHandler { summary: None }
    }

    /// Remembers a panic.
    pub fn record(&mut self, summary: PanicSummary)
        ensures
            final(self)@ == Some(summary),
    {
        self.summary = Some(summary);
    }

    /// Has there been a panic?
    pub fn has_panicked(&self) -> (panicked: bool)
        ensures
            panicked == (self@ is Some),
    {
        self.summary.is_some()
    }

    /// What was the panic message and callstack?
    pub fn panic_summary(&self) -> (summary: Option<PanicSummary>)
        ensures
            summary == self@,
    {
        match &self.summary {
            Some(summary) => Some(summary.clone()),
            None => None,
        }
    }
}

} // verus!
