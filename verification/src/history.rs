//! Whole runs: what a sequence of events writes, taken together.
//!
//! The handlers of the submission module decide one event at a time. The
//! functions here fold those decisions over a sequence of events, and the
//! lemmas state what holds of every such sequence.

use vstd::prelude::*;
use crate::submission::{line_written, reported_after, Event, MAIN_WINDOW, NO_SELECTION};

verus! {

/// The lines written to standard output, in order, when `events` are handled
/// one after another starting from a latch that reads `reported`.
pub open spec fn lines_written(reported: bool, events: Seq<Event>) -> Seq<Seq<char>>
    decreases events.len(),
{
    if events.len() == 0 {
        Seq::empty()
    } else {
        let rest = lines_written(reported_after(reported, events[0]), events.drop_first());
        match line_written(reported, events[0]) {
            Some(line) => seq![line] + rest,
            None => rest,
        }
    }
}

/// The latch after all of `events` have been handled.
pub open spec fn reported_after_all(reported: bool, events: Seq<Event>) -> bool
    decreases events.len(),
{
    if events.len() == 0 {
        reported
    } else {
        reported_after_all(reported_after(reported, events[0]), events.drop_first())
    }
}

/// Reported is terminal: once the latch is set, no event writes a line and
/// no sequence of events brings the latch back to pending.
pub proof fn lemma_reported_is_terminal(events: Seq<Event>)
    ensures
        lines_written(true, events) == Seq::<Seq<char>>::empty(),
        reported_after_all(true, events),
    decreases events.len(),
{
    if events.len() > 0 {
        lemma_reported_is_terminal(events.drop_first());
    }
}

/// Events that report nothing leave a pending latch pending and write
/// nothing.
pub proof fn lemma_silent_events_write_nothing(events: Seq<Event>)
    requires
        forall|j: int| 0 <= j < events.len() ==> events[j].payload() is None,
    ensures
        lines_written(false, events) == Seq::<Seq<char>>::empty(),
        !reported_after_all(false, events),
    decreases events.len(),
{
    if events.len() > 0 {
        let rest = events.drop_first();
        assert forall|j: int| 0 <= j < rest.len() implies rest[j].payload() is None by {
            assert(rest[j] == events[j + 1]);
        }
        lemma_silent_events_write_nothing(rest);
    }
}

/// The first event that reports decides the output of the run: its line is
/// the only one written, whatever comes after it.
pub proof fn lemma_first_report_is_the_output(events: Seq<Event>, i: int)
    requires
        0 <= i < events.len(),
        events[i].payload() is Some,
        forall|j: int| 0 <= j < i ==> events[j].payload() is None,
    ensures
        lines_written(false, events) == seq![events[i].payload()->0],
        reported_after_all(false, events),
    decreases events.len(),
{
    let rest = events.drop_first();
    if i == 0 {
        lemma_reported_is_terminal(rest);
    } else {
        assert forall|j: int| 0 <= j < i - 1 implies rest[j].payload() is None by {
            assert(rest[j] == events[j + 1]);
        }
        lemma_first_report_is_the_output(rest, i - 1);
    }
}

/// A run writes one line if any of its events reports, and none otherwise:
/// never two, however many submissions and close requests arrive.
pub proof fn lemma_one_line_per_run(events: Seq<Event>)
    ensures
        lines_written(false, events).len() == (if exists|i: int|
            0 <= i < events.len() && events[i].payload() is Some {
            1nat
        } else {
            0nat
        }),
        reported_after_all(false, events) == (lines_written(false, events).len() == 1),
    decreases events.len(),
{
    if events.len() == 0 {
    } else if events[0].payload() is Some {
        lemma_first_report_is_the_output(events, 0);
    } else {
        let rest = events.drop_first();
        lemma_one_line_per_run(rest);
        if exists|i: int| 0 <= i < events.len() && events[i].payload() is Some {
            let i = choose|i: int| 0 <= i < events.len() && events[i].payload() is Some;
            assert(rest[i - 1] == events[i]);
        }
    }
}

/// A submission that finds the latch pending is written as it is and sets
/// the latch.
pub proof fn lemma_submission_is_written(result: Seq<char>)
    ensures
        line_written(false, Event::Submitted(result)) == Some(result),
        reported_after(false, Event::Submitted(result)),
        lines_written(false, seq![Event::Submitted(result)]) == seq![result],
{
    lemma_first_report_is_the_output(seq![Event::Submitted(result)], 0);
}

/// Of two submissions in a row, only the first is written.
pub proof fn lemma_second_submission_is_dropped(first: Seq<char>, second: Seq<char>)
    ensures
        lines_written(false, seq![Event::Submitted(first), Event::Submitted(second)])
            == seq![first],
{
    let events = seq![Event::Submitted(first), Event::Submitted(second)];
    lemma_first_report_is_the_output(events, 0);
}

/// Closing the main window while the latch is pending writes the "no
/// selection" line and sets the latch; a second close request for it, or a
/// close request after a submission, writes nothing further.
pub proof fn lemma_close_reports_once(result: Seq<char>)
    ensures
        line_written(false, Event::CloseRequested(MAIN_WINDOW@)) == Some(NO_SELECTION@),
        reported_after(false, Event::CloseRequested(MAIN_WINDOW@)),
        lines_written(
            false,
            seq![Event::CloseRequested(MAIN_WINDOW@), Event::CloseRequested(MAIN_WINDOW@)],
        ) == seq![NO_SELECTION@],
        lines_written(
            false,
            seq![Event::Submitted(result), Event::CloseRequested(MAIN_WINDOW@)],
        ) == seq![result],
{
    let close = Event::CloseRequested(MAIN_WINDOW@);
    lemma_first_report_is_the_output(seq![close, close], 0);
    lemma_first_report_is_the_output(seq![Event::Submitted(result), close], 0);
}

} // verus!
