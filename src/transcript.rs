//! What the consumer loop prints, warns of and stops on, over a finite run of
//! events, and the laws that hold of it.

use vstd::prelude::*;
use vstd::utf8::*;

use crate::config::string_views;
use crate::consume::{action_of, next_action, AbortReason, AbortView, ActionView, LoopAction, LoopEvent};

verus! {

/// What a consumer loop printed, warned of and stopped on.
pub ghost struct TranscriptView {
    pub lines: Seq<Seq<char>>,
    pub warnings: Seq<Seq<char>>,
    pub abort: Option<AbortView>,
}

/// The output of a consumer loop over a finite run of events: the lines
/// printed, the warnings logged, and why it stopped, if it did.
pub struct Transcript {
    pub lines: Vec<String>,
    pub warnings: Vec<String>,
    pub abort: Option<AbortReason>,
}

impl View for Transcript {
    type V = TranscriptView;

    open spec fn view(&self) -> TranscriptView {
        TranscriptView {
            lines: string_views(self.lines@),
            warnings: string_views(self.warnings@),
            abort: match self.abort {
                Some(reason) => Some(reason@),
                None => None,
            },
        }
    }
}

pub open spec fn empty_transcript() -> TranscriptView {
    TranscriptView { lines: Seq::empty(), warnings: Seq::empty(), abort: None }
}

/// `t` after the loop carries out `a`; once stopped, nothing more happens.
pub open spec fn record(t: TranscriptView, a: ActionView) -> TranscriptView {
    if t.abort is Some {
        t
    } else {
        match a {
            ActionView::Continue => t,
            ActionView::Warn(d) => TranscriptView { warnings: t.warnings.push(d), ..t },
            ActionView::PrintAndCommit(line) => TranscriptView { lines: t.lines.push(line), ..t },
            ActionView::Abort(reason) => TranscriptView { abort: Some(reason), ..t },
        }
    }
}

pub open spec fn run_from(t: TranscriptView, events: Seq<LoopEvent>) -> TranscriptView
    decreases events.len(),
{
    if events.len() == 0 {
        t
    } else {
        record(run_from(t, events.drop_last()), action_of(events.last()))
    }
}

/// The transcript of a loop that observes `events` in order.
pub open spec fn run(events: Seq<LoopEvent>) -> TranscriptView {
    run_from(empty_transcript(), events)
}

/// Runs the loop's decisions over `events`, in order, and records what it
/// prints and logs, and where it stops.
pub fn replay(events: &Vec<LoopEvent>) -> (r: Transcript)
    ensures
        r@ == run(events@),
{
    let mut t = Transcript { lines: Vec::new(), warnings: Vec::new(), abort: None };
    proof {
        assert(t@.lines =~= Seq::<Seq<char>>::empty());
        assert(t@.warnings =~= Seq::<Seq<char>>::empty());
        assert(events@.subrange(0, 0) =~= Seq::<LoopEvent>::empty());
    }
    let mut i: usize = 0;
    while i < events.len()
        invariant
            i <= events@.len(),
            t@ == run(events@.subrange(0, i as int)),
        decreases events@.len() - i,
    {
        let ghost before = t@;
        let ghost old_lines = t.lines@;
        let ghost old_warnings = t.warnings@;
        if t.abort.is_none() {
            let action = next_action(&events[i]);
            match action {
                LoopAction::Continue => {},
                LoopAction::Warn { detail } => {
                    t.warnings.push(detail);
                    proof {
                        assert(t@.warnings =~= string_views(old_warnings).push(detail@));
                    }
                },
                LoopAction::PrintAndCommit { line } => {
                    t.lines.push(line);
                    proof {
                        assert(t@.lines =~= string_views(old_lines).push(line@));
                    }
                },
                LoopAction::Abort { reason } => {
                    t.abort = Some(reason);
                },
            }
            proof {
                assert(t@ == record(before, action_of(events@[i as int])));
            }
        }
        proof {
            assert(events@.subrange(0, i as int + 1).drop_last() =~= events@.subrange(0, i as int));
        }
        i = i + 1;
    }
    proof {
        assert(events@.subrange(0, i as int) =~= events@);
    }
    t
}

pub proof fn lemma_run_concat(t: TranscriptView, a: Seq<LoopEvent>, b: Seq<LoopEvent>)
    ensures
        run_from(t, a + b) == run_from(run_from(t, a), b),
    decreases b.len(),
{
    if b.len() == 0 {
        assert(a + b =~= a);
    } else {
        assert((a + b).drop_last() =~= a + b.drop_last());
        lemma_run_concat(t, a, b.drop_last());
    }
}

/// Warnings logged so far do not change what is printed later, nor whether
/// the loop stops.
pub proof fn lemma_run_ignores_warnings(t1: TranscriptView, t2: TranscriptView, s: Seq<LoopEvent>)
    requires
        t1.lines == t2.lines,
        t1.abort == t2.abort,
    ensures
        run_from(t1, s).lines == run_from(t2, s).lines,
        run_from(t1, s).abort == run_from(t2, s).abort,
    decreases s.len(),
{
    if s.len() > 0 {
        lemma_run_ignores_warnings(t1, t2, s.drop_last());
    }
}

/// The events after which the loop goes on: all but a payload that is not
/// UTF-8 and a refused commit.
pub open spec fn keeps_running(e: LoopEvent) -> bool {
    !(action_of(e) is Abort)
}

/// The text of a message's payload, for a message that has one.
pub open spec fn payload_text(e: LoopEvent) -> Option<Seq<char>> {
    match e {
        LoopEvent::Message { payload: Some(bytes) } => Some(decode_utf8(bytes@)),
        _ => None,
    }
}

/// While payloads are UTF-8 text and commits are accepted, the loop prints
/// exactly one line per message with a payload, in delivery order, and that
/// line is the payload's text.
pub proof fn law_lines_are_payload_texts(events: Seq<LoopEvent>)
    requires
        forall|i: int| 0 <= i < events.len() ==> keeps_running(#[trigger] events[i]),
    ensures
        run(events).lines == events.filter_map(|e: LoopEvent| payload_text(e)),
        run(events).abort is None,
    decreases events.len(),
{
    if events.len() > 0 {
        let rest = events.drop_last();
        assert forall|i: int| 0 <= i < rest.len() implies keeps_running(#[trigger] rest[i]) by {
            assert(rest[i] == events[i]);
        }
        law_lines_are_payload_texts(rest);
        assert(keeps_running(events[events.len() - 1]));
    }
}

/// A message without a payload changes nothing: no line, no warning, no stop.
pub proof fn law_absent_payload_is_passed_over(before: Seq<LoopEvent>, after: Seq<LoopEvent>)
    ensures
        run(before + seq![LoopEvent::Message { payload: None }] + after) == run(before + after),
{
    let absent = seq![LoopEvent::Message { payload: None }];
    lemma_run_concat(empty_transcript(), before + absent, after);
    lemma_run_concat(empty_transcript(), before, absent);
    lemma_run_concat(empty_transcript(), before, after);
    assert((before + absent).drop_last() =~= before);
    assert(absent.drop_last() =~= Seq::<LoopEvent>::empty());
    assert(run_from(run(before), absent) == run(before));
}

/// A delivery error is logged as a warning with its detail, and the loop goes
/// on: what it prints afterwards, and whether it stops, are as if the error
/// had not come.
pub proof fn law_delivery_error_is_logged_and_passed(
    before: Seq<LoopEvent>,
    detail: String,
    after: Seq<LoopEvent>,
)
    ensures
        ({
            let with_error = before + seq![LoopEvent::DeliveryError { detail }];
            run(before).abort is None ==> run(with_error).warnings == run(before).warnings.push(
                detail@,
            )
        }),
        run(before + seq![LoopEvent::DeliveryError { detail }] + after).lines == run(
            before + after,
        ).lines,
        run(before + seq![LoopEvent::DeliveryError { detail }] + after).abort == run(
            before + after,
        ).abort,
{
    let error = seq![LoopEvent::DeliveryError { detail }];
    lemma_run_concat(empty_transcript(), before + error, after);
    lemma_run_concat(empty_transcript(), before, error);
    lemma_run_concat(empty_transcript(), before, after);
    assert((before + error).drop_last() =~= before);
    assert(error.drop_last() =~= Seq::<LoopEvent>::empty());
    lemma_run_ignores_warnings(run(before + error), run(before), after);
}

} // verus!
