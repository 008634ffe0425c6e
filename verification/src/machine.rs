//! The main loop as a state machine.  Each turn of the loop delivers one
//! input — a stream item, a termination signal, or an interrupt — and the
//! step function decides the next state and the action to perform.  The
//! loop starts in `Listening` and runs until a step yields `Closed`.

use vstd::prelude::*;
use crate::events::{spec_event_target, event_start_target, RuntimeEvent};

verus! {

/// The state of the main loop: consuming the stream, or terminated.
/// `Closed` is terminal; no further input is read.
#[derive(PartialEq, Eq, Structural, Clone, Copy, Debug)]
pub enum LoopState {
    Listening,
    Closed,
}

/// One item the event stream yielded: an event, a decode or transport
/// error, or the end of the stream.
pub enum StreamItem {
    Event(RuntimeEvent),
    Error,
    Closed,
}

/// One input to a turn of the main loop.  The two signals are delivered by
/// the process runtime; everything else arrives over the stream.
pub enum LoopInput {
    Stream(StreamItem),
    Terminate,
    Interrupt,
}

/// What a turn of the loop asks its caller to do.
pub enum LoopAction {
    /// Attach the container with this identifier to the managed network.
    Attach(String),
    /// The event does not concern a container start: do nothing.
    Ignore,
    /// Report a stream error; the subscription stays open.
    ReportStreamError,
    /// The stream ended: report it and stop.
    ExitStreamClosed,
    /// A termination signal arrived: report it and stop.
    ExitTerminate,
    /// An interrupt arrived: report it and stop.
    ExitInterrupt,
}

/// The ghost image of a `LoopAction`, with the identifier as a sequence.
pub enum LoopActionView {
    Attach(Seq<char>),
    Ignore,
    ReportStreamError,
    ExitStreamClosed,
    ExitTerminate,
    ExitInterrupt,
}

impl View for LoopAction {
    type V = LoopActionView;

    open spec fn view(&self) -> LoopActionView {
        match self {
            LoopAction::Attach(id) => LoopActionView::Attach(id@),
            LoopAction::Ignore => LoopActionView::Ignore,
            LoopAction::ReportStreamError => LoopActionView::ReportStreamError,
            LoopAction::ExitStreamClosed => LoopActionView::ExitStreamClosed,
            LoopAction::ExitTerminate => LoopActionView::ExitTerminate,
            LoopAction::ExitInterrupt => LoopActionView::ExitInterrupt,
        }
    }
}

/// The transition of one turn of the loop, from the `Listening` state.
pub open spec fn spec_step(input: LoopInput) -> (LoopState, LoopActionView) {
    match input {
        LoopInput::Terminate => (LoopState::Closed, LoopActionView::ExitTerminate),
        LoopInput::Interrupt => (LoopState::Closed, LoopActionView::ExitInterrupt),
        LoopInput::Stream(StreamItem::Closed) => (
            LoopState::Closed,
            LoopActionView::ExitStreamClosed,
        ),
        LoopInput::Stream(StreamItem::Error) => (
            LoopState::Listening,
            LoopActionView::ReportStreamError,
        ),
        LoopInput::Stream(StreamItem::Event(ev)) => match spec_event_target(ev) {
            Some(id) => (LoopState::Listening, LoopActionView::Attach(id)),
            None => (LoopState::Listening, LoopActionView::Ignore),
        },
    }
}

/// One turn of the main loop: decides the next state and the action for one
/// input, exactly as `spec_step` describes.
pub fn main_loop_step(input: LoopInput) -> (r: (LoopState, LoopAction))
    ensures
        r.0 == spec_step(input).0,
        r.1@ == spec_step(input).1,
{
    match input {
        LoopInput::Terminate => (LoopState::Closed, LoopAction::ExitTerminate),
        LoopInput::Interrupt => (LoopState::Closed, LoopAction::ExitInterrupt),
        LoopInput::Stream(StreamItem::Closed) => (LoopState::Closed, LoopAction::ExitStreamClosed),
        LoopInput::Stream(StreamItem::Error) => (
            LoopState::Listening,
            LoopAction::ReportStreamError,
        ),
        LoopInput::Stream(StreamItem::Event(ev)) => match event_start_target(&ev) {
            Some(id) => (LoopState::Listening, LoopAction::Attach(id)),
            None => (LoopState::Listening, LoopAction::Ignore),
        },
    }
}

/// A termination or interrupt signal delivered while the stream wait is
/// pending closes the loop at once: the step leaves `Listening`, issues no
/// attach, and asks for nothing but the matching shutdown report.
pub proof fn lemma_signal_closes_loop(input: LoopInput)
    requires
        input is Terminate || input is Interrupt,
    ensures
        spec_step(input).0 is Closed,
        !(spec_step(input).1 is Attach),
{
}

/// The loop attaches exactly the containers whose events are container
/// `start` events carrying an identifier: every other stream item leaves the
/// loop listening without an attach.
pub proof fn lemma_event_filtering(item: StreamItem)
    ensures
        (spec_step(LoopInput::Stream(item)).1 is Attach) <==> (item matches StreamItem::Event(ev)
            && spec_event_target(ev) is Some),
        (item matches StreamItem::Event(ev) ==> (spec_event_target(ev) matches Some(id)
            ==> spec_step(LoopInput::Stream(item)).1 == LoopActionView::Attach(id))),
        !(item is Closed) ==> spec_step(LoopInput::Stream(item)).0 is Listening,
{
}

} // verus!
