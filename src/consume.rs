//! The decisions of the consumer loop. The loop itself, which polls the
//! broker connection, prints and commits, runs outside the library: it hands
//! each outcome to `next_action` and carries out the action returned.

use vstd::prelude::*;
use vstd::utf8::*;

verus! {

/// One outcome that the consumer loop observes.
pub enum LoopEvent {
    /// A poll returned without a message.
    NoMessage,
    /// A poll returned an error of the broker connection.
    DeliveryError { detail: String },
    /// A poll returned a message, whose payload may be absent.
    Message { payload: Option<Vec<u8>> },
    /// The request to commit a printed message's offset was refused.
    CommitRefused { detail: String },
}

/// Why the consumer stops.
pub enum AbortReason {
    /// A payload is not well-formed UTF-8.
    InvalidUtf8,
    /// A commit request was refused.
    CommitRefused { detail: String },
}

/// Why the consumer stops, as mathematical values.
pub ghost enum AbortView {
    InvalidUtf8,
    CommitRefused(Seq<char>),
}

impl View for AbortReason {
    type V = AbortView;

    open spec fn view(&self) -> AbortView {
        match self {
            AbortReason::InvalidUtf8 => AbortView::InvalidUtf8,
            AbortReason::CommitRefused { detail } => AbortView::CommitRefused(detail@),
        }
    }
}

/// What the consumer loop does next.
pub enum LoopAction {
    /// Poll again.
    Continue,
    /// Log a warning with this detail, then poll again.
    Warn { detail: String },
    /// Print this line, then ask asynchronously to commit the message's
    /// offset, then poll again.
    PrintAndCommit { line: String },
    /// Stop the process.
    Abort { reason: AbortReason },
}

/// What the consumer loop does next, as mathematical values.
pub ghost enum ActionView {
    Continue,
    Warn(Seq<char>),
    PrintAndCommit(Seq<char>),
    Abort(AbortView),
}

impl View for LoopAction {
    type V = ActionView;

    open spec fn view(&self) -> ActionView {
        match self {
            LoopAction::Continue => ActionView::Continue,
            LoopAction::Warn { detail } => ActionView::Warn(detail@),
            LoopAction::PrintAndCommit { line } => ActionView::PrintAndCommit(line@),
            LoopAction::Abort { reason } => ActionView::Abort(reason@),
        }
    }
}

/// The action that answers an event.
pub open spec fn action_of(e: LoopEvent) -> ActionView {
    match e {
        LoopEvent::NoMessage => ActionView::Continue,
        LoopEvent::DeliveryError { detail } => ActionView::Warn(detail@),
        LoopEvent::Message { payload } => match payload {
            None => ActionView::Continue,
            Some(bytes) => if valid_utf8(bytes@) {
                ActionView::PrintAndCommit(decode_utf8(bytes@))
            } else {
                ActionView::Abort(AbortView::InvalidUtf8)
            },
        },
        LoopEvent::CommitRefused { detail } => ActionView::Abort(AbortView::CommitRefused(detail@)),
    }
}

/// Relies on `String::from_utf8`: it accepts exactly the well-formed UTF-8
/// byte strings, and yields the characters they encode.
#[verifier::external_body]
fn utf8_text(bytes: &[u8]) -> (r: Option<String>)
    ensures
        r is Some <==> valid_utf8(bytes@),
        r matches Some(s) ==> s@ == decode_utf8(bytes@),
{
    String::from_utf8(bytes.to_vec()).ok()
}

/// Decides what the loop does after `event`: a message with a payload is
/// printed as UTF-8 text and then committed; one without a payload is
/// passed over; a delivery error is logged and the loop goes on; a payload
/// that is not UTF-8, or a refused commit, stops the process.
pub fn next_action(event: &LoopEvent) -> (r: LoopAction)
    ensures
        r@ == action_of(*event),
{
    match event {
        LoopEvent::NoMessage => LoopAction::Continue,
        LoopEvent::DeliveryError { detail } => LoopAction::Warn { detail: detail.clone() },
        LoopEvent::Message { payload } => match payload {
            None => LoopAction::Continue,
            Some(bytes) => match utf8_text(bytes.as_slice()) {
                Some(line) => LoopAction::PrintAndCommit { line },
                None => LoopAction::Abort { reason: AbortReason::InvalidUtf8 },
            },
        },
        LoopEvent::CommitRefused { detail } => LoopAction::Abort {
            reason: AbortReason::CommitRefused { detail: detail.clone() },
        },
    }
}

} // verus!
