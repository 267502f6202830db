//! The watch loop: a build pass at the start and one for each notified
//! change, never two at a time. A pass that fails is reported and the loop
//! goes back to waiting. The caller waits for the notifications and runs
//! the passes.

use crate::error::EmptyResult;
use vstd::prelude::*;

verus! {

/// What the loop is doing.
#[derive(Clone, Copy, Debug, PartialEq, Eq, Structural)]
pub enum WatchState {
    /// Waiting for a change.
    Idle,
    /// Running a build pass.
    Rebuilding,
}

/// How a build pass ended, for the person running the build.
#[derive(Debug)]
pub enum Report {
    /// The pass wrote the site.
    Compiled,
    /// The pass failed; the text says why.
    Failed(String),
}

/// A `Report` with its text as a sequence of characters.
pub enum ReportView {
    Compiled,
    Failed(Seq<char>),
}

impl View for Report {
    type V = ReportView;

    open spec fn view(&self) -> ReportView {
        match self {
            Report::Compiled => ReportView::Compiled,
            Report::Failed(text) => ReportView::Failed(text@),
        }
    }
}

/// The state after a change was notified: a pass runs, the one that the
/// change starts or the one that was running already.
pub open spec fn after_change(state: WatchState) -> WatchState {
    match state {
        WatchState::Idle => WatchState::Rebuilding,
        WatchState::Rebuilding => WatchState::Rebuilding,
    }
}

/// Whether a notified change starts a pass: it does while the loop waits.
/// While a pass runs, the change is ignored.
pub open spec fn starts_pass(state: WatchState) -> bool {
    state == WatchState::Idle
}

/// The report on a pass.
pub open spec fn report_of(outcome: EmptyResult) -> ReportView {
    match outcome {
        Ok(_) => ReportView::Compiled,
        Err(e) => ReportView::Failed("Got error: "@ + e.msg@),
    }
}

/// The watch loop.
#[derive(Debug)]
pub struct Watch {
    state: WatchState,
}

impl View for Watch {
    type V = WatchState;

    closed spec fn view(&self) -> WatchState {
        self.state
    }
}

impl Watch {
    /// The loop at its start: the first pass runs before any change is
    /// waited for.
    pub fn new() -> (watch: Watch)
        ensures
            watch@ == WatchState::Rebuilding,
    {
        Watch { state: WatchState::Rebuilding }
    }

    /// What the loop is doing.
    pub fn state(&self) -> (state: WatchState)
        ensures
            state == self@,
    {
        self.state
    }

    /// A change was notified. Returns whether a pass is to be started.
    pub fn changed(&mut self) -> (start: bool)
        ensures
            start == starts_pass(old(self)@),
            final(self)@ == after_change(old(self)@),
    {
        let start = self.state == WatchState::Idle;
        self.state = WatchState::Rebuilding;
        start
    }

    /// The pass that was running has ended. The loop waits again, whether
    /// the pass failed or not.
    pub fn finished(&mut self, outcome: EmptyResult) -> (report: Report)
        ensures
            final(self)@ == WatchState::Idle,
            report@ == report_of(outcome),
    {
        self.state = WatchState::Idle;
        match outcome {
            Ok(_) => Report::Compiled,
            Err(e) => {
                let mut text = String::from_str("Got error: ");
                text.append(e.msg.as_str());
                Report::Failed(text)
            },
        }
    }
}

} // verus!
