//! The submission latch: a flag that goes from pending to reported once and
//! never back, and the reactions of the chooser that are routed through it.

use vstd::prelude::*;

verus! {

/// Whether the result of this run has been reported yet.
///
/// The state starts out pending. The first claim moves it to reported, where
/// it stays. Callers that share one state between threads keep it behind a
/// lock, so that a claim is one indivisible check-and-set.
#[derive(Debug)]
pub struct SubmissionState {
    reported: bool,
}

impl SubmissionState {
    /// True once a result has been reported.
    pub closed spec fn reported(&self) -> bool {
        self.reported
    }

    /// A pending state.
    pub fn new() -> (state: Self)
        ensures
            !state.reported(),
    {
        SubmissionState { reported: false }
    }

    /// Reads the latch without changing it.
    pub fn is_reported(&self) -> (reported: bool)
        ensures
            reported == self.reported(),
    {
        self.reported
    }

    /// Claims the latch. Returns whether this call was the first to do so;
    /// the state is reported afterwards either way.
    pub fn try_set(&mut self) -> (first: bool)
        ensures
            first == !old(self).reported(),
            final(self).reported(),
    {
        let first: bool = !self.reported;
        self.reported = true;
        first
    }
}

/// The label of the window whose closing ends the run.
pub const MAIN_WINDOW: &'static str = "main";

/// The line that stands for "nothing was chosen".
pub const NO_SELECTION: &'static str = "{\"choice\":null,\"index\":-1,\"custom_input\":null}";

/// What can happen to a running chooser.
pub enum Event {
    /// The front end submitted this result.
    Submitted(Seq<char>),
    /// The window with this label was asked to close.
    CloseRequested(Seq<char>),
}

impl Event {
    /// The line that this event reports if it comes while the latch is still
    /// pending: a submission reports its result as it is, a close request
    /// for the main window reports that nothing was chosen, and a close
    /// request for any other window reports nothing.
    pub open spec fn payload(self) -> Option<Seq<char>> {
        match self {
            Event::Submitted(result) => Some(result),
            Event::CloseRequested(label) => if label == MAIN_WINDOW@ {
                Some(NO_SELECTION@)
            } else {
                None
            },
        }
    }
}

/// The line written to standard output when `event` arrives in a state whose
/// latch reads `reported`.
pub open spec fn line_written(reported: bool, event: Event) -> Option<Seq<char>> {
    if reported {
        None
    } else {
        event.payload()
    }
}

/// The latch after `event` has been handled.
pub open spec fn reported_after(reported: bool, event: Event) -> bool {
    reported || event.payload() is Some
}

/// What the surrounding program is to do after an event.
#[derive(Debug)]
pub struct Reaction {
    /// The line to write to standard output, if this event reports.
    pub line: Option<String>,
    /// Whether to ask the main window to close.
    pub close_main_window: bool,
}

impl Reaction {
    /// The characters of the line to write, if there is one.
    pub open spec fn written(&self) -> Option<Seq<char>> {
        match self.line {
            Some(line) => Some(line@),
            None => None,
        }
    }
}

/// Whether `label` names the main window.
fn is_main_window(label: &str) -> (main: bool)
    ensures
        main == (label@ == MAIN_WINDOW@),
{
    // vstd specifies `==` for `String`, not for `str`.
    label.to_owned() == MAIN_WINDOW.to_owned()
}

/// Handles a result submitted by the front end.
///
/// The first report of a run writes `result` unchanged; once the latch is
/// set, a submission writes nothing. Either way the main window is then
/// asked to close.
pub fn on_submit(state: &mut SubmissionState, result: &str) -> (reaction: Reaction)
    ensures
        reaction.written() == line_written(old(state).reported(), Event::Submitted(result@)),
        reaction.close_main_window,
        final(state).reported(),
{
    let line: Option<String> = if state.try_set() {
        Some(result.to_owned())
    } else {
        None
    };
    Reaction { line, close_main_window: true }
}

/// Handles a request to close the window labelled `label`.
///
/// Closing the main window before anything was reported writes
/// [`NO_SELECTION`] and sets the latch. Closing it later, or closing any
/// other window, writes nothing and leaves the latch as it was. The close
/// itself goes ahead; no further close is asked for.
pub fn on_close_requested(state: &mut SubmissionState, label: &str) -> (reaction: Reaction)
    ensures
        reaction.written() == line_written(
            old(state).reported(),
            Event::CloseRequested(label@),
        ),
        !reaction.close_main_window,
        final(state).reported() == reported_after(
            old(state).reported(),
            Event::CloseRequested(label@),
        ),
{
    let line: Option<String> = if is_main_window(label) && state.try_set() {
        Some(NO_SELECTION.to_owned())
    } else {
        None
    };
    Reaction { line, close_main_window: false }
}

} // verus!
