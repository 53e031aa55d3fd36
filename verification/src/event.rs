//! What crosses the two channels between the window's loop and the protocol
//! engine, and what the loop is told to do.

use crate::input::WindowInput;
use crate::tracker::{batch_events, EventBatch};
use ironrdp::pdu::input::fast_path::FastPathInputEvent;
use vstd::prelude::*;

verus! {

/// A message from the window's loop to the protocol engine.
#[derive(Debug, PartialEq, Eq)]
pub enum InputEvent {
    /// The window has a new size.
    Resize { width: u16, height: u16, scale_factor: u32, physical_size: Option<(u32, u32)> },
    /// The user asked to close the window.
    Close,
    /// Input for the remote side, already encoded.
    FastPath(EventBatch),
}

/// A message from the protocol engine to the window's loop.
#[derive(Debug, PartialEq, Eq)]
pub enum OutputEvent {
    /// A frame: the pixels of the whole remote desktop.
    Image { buffer: Vec<u8>, width: u16, height: u16 },
    /// The connection could not be made; the text says why.
    ConnectionFailure(String),
    /// The session is over: with the reason of a graceful end, or with what
    /// went wrong.
    Terminated(Result<String, String>),
    PointerHidden,
    PointerDefault,
    /// The remote side moved the pointer, in logical window coordinates.
    PointerPosition { x: u16, y: u16 },
}

/// How the loop ended, as the process reports it on exit.
#[derive(Clone, Copy, Debug, PartialEq, Eq, Structural)]
pub enum Outcome {
    Success,
    ProtocolError,
}

/// Something to tell the operator.
#[derive(Debug, PartialEq, Eq)]
pub enum Diagnostic {
    ConnectionError(String),
    TerminatedGracefully(String),
    SessionError(String),
    /// The windowing system refused to move the pointer.
    CursorPosition(String),
}

/// One step for the loop to take on the window, the surface or the channel.
#[derive(Debug, PartialEq, Eq)]
pub enum Action {
    /// Send the message to the protocol engine.
    Send(InputEvent),
    /// Give the rendering surface this size.
    ResizeSurface { width: u16, height: u16 },
    /// Copy these pixels into the surface's buffer.
    CopyPixels(Vec<u8>),
    /// Show the surface's buffer.
    Present,
    SetCursorVisible(bool),
    SetCursorPosition { x: u16, y: u16 },
    Report(Diagnostic),
    /// Leave the loop.
    Exit(Outcome),
}

/// One event of the loop, from either of its two sources.
#[derive(Debug, PartialEq, Eq)]
pub enum LoopEvent {
    Window(WindowInput),
    Output(OutputEvent),
}

/// A frame has a positive width and a positive height.
pub open spec fn output_well_formed(event: OutputEvent) -> bool {
    match event {
        OutputEvent::Image { width, height, .. } => width > 0 && height > 0,
        _ => true,
    }
}

/// Every event of the loop that is a frame is well formed.
pub open spec fn event_well_formed(event: LoopEvent) -> bool {
    match event {
        LoopEvent::Window(_) => true,
        LoopEvent::Output(output) => output_well_formed(output),
    }
}

/// What a batch of encoded events becomes on its way to the channel: one
/// message, or nothing at all where the batch is empty.
pub open spec fn forwarded(events: EventBatch) -> Seq<Action> {
    if batch_events(events).len() == 0 {
        Seq::empty()
    } else {
        seq![Action::Send(InputEvent::FastPath(events))]
    }
}

/// An action that sends encoded input without any event in it.
pub open spec fn sends_empty_batch(action: Action) -> bool {
    match action {
        Action::Send(InputEvent::FastPath(events)) => batch_events(events).len() == 0,
        _ => false,
    }
}

/// No action among these sends an empty batch.
pub open spec fn never_sends_empty_batch(actions: Seq<Action>) -> bool {
    forall|index: int| 0 <= index < actions.len() ==> !sends_empty_batch(#[trigger] actions[index])
}

/// Whether these actions forward the tracker's answer and do nothing else:
/// there is no action where the answer is empty, and otherwise the one
/// action sends a batch with exactly the events of the answer.
pub open spec fn forwards_answer(actions: Seq<Action>, answer: Seq<FastPathInputEvent>) -> bool {
    if answer.len() == 0 {
        actions.len() == 0
    } else {
        actions.len() == 1 && (actions[0] matches Action::Send(InputEvent::FastPath(events))
            && batch_events(events) == answer)
    }
}

/// What the engine's event asks of the window, in the order in which it is
/// to be done. A frame is always resize, then copy, then present.
pub open spec fn output_actions(event: OutputEvent) -> Seq<Action> {
    match event {
        OutputEvent::Image { buffer, width, height } => seq![
            Action::ResizeSurface { width, height },
            Action::CopyPixels(buffer),
            Action::Present,
        ],
        OutputEvent::ConnectionFailure(error) => seq![
            Action::Report(Diagnostic::ConnectionError(error)),
            Action::Exit(Outcome::ProtocolError),
        ],
        OutputEvent::Terminated(Ok(reason)) => seq![
            Action::Report(Diagnostic::TerminatedGracefully(reason)),
            Action::Exit(Outcome::Success),
        ],
        OutputEvent::Terminated(Err(error)) => seq![
            Action::Report(Diagnostic::SessionError(error)),
            Action::Exit(Outcome::ProtocolError),
        ],
        OutputEvent::PointerHidden => seq![Action::SetCursorVisible(false)],
        OutputEvent::PointerDefault => seq![Action::SetCursorVisible(true)],
        OutputEvent::PointerPosition { x, y } => seq![Action::SetCursorPosition { x, y }],
    }
}

/// How the loop ends on the engine's event, where it ends on it.
pub open spec fn output_outcome(event: OutputEvent) -> Option<Outcome> {
    match event {
        OutputEvent::ConnectionFailure(_) => Some(Outcome::ProtocolError),
        OutputEvent::Terminated(Ok(_)) => Some(Outcome::Success),
        OutputEvent::Terminated(Err(_)) => Some(Outcome::ProtocolError),
        _ => None,
    }
}

/// How many of the actions leave the loop.
pub open spec fn exit_count(actions: Seq<Action>) -> nat
    decreases actions.len(),
{
    if actions.len() == 0 {
        0
    } else {
        let rest = exit_count(actions.drop_last());
        if actions.last() is Exit {
            rest + 1
        } else {
            rest
        }
    }
}

/// What a run of the engine's events asks of the window, one event after
/// the other, from a loop that has ended or has not: once the loop has ended
/// no event asks for anything.
pub open spec fn replay_outputs(stopped: bool, events: Seq<OutputEvent>) -> Seq<Action>
    decreases events.len(),
{
    if stopped || events.len() == 0 {
        Seq::empty()
    } else {
        output_actions(events[0]) + replay_outputs(
            output_outcome(events[0]) is Some,
            events.drop_first(),
        )
    }
}

/// The exits among two runs of actions, one after the other, are the exits
/// of the first and those of the second.
pub proof fn lemma_exit_count_concat(first: Seq<Action>, second: Seq<Action>)
    ensures
        exit_count(first + second) == exit_count(first) + exit_count(second),
    decreases second.len(),
{
    if second.len() == 0 {
        assert(first + second =~= first);
    } else {
        lemma_exit_count_concat(first, second.drop_last());
        assert((first + second).drop_last() =~= first + second.drop_last());
        assert((first + second).last() == second.last());
    }
}

/// What the engine's event asks holds an exit exactly when the event ends
/// the loop, and then only one.
pub proof fn lemma_exit_only_on_terminal(event: OutputEvent)
    ensures
        exit_count(output_actions(event)) == if output_outcome(event) is Some {
            1nat
        } else {
            0nat
        },
{
    let actions = output_actions(event);
    reveal_with_fuel(exit_count, 4);
    if actions.len() == 3 {
        assert(actions.drop_last().drop_last().drop_last() =~= Seq::<Action>::empty());
    } else if actions.len() == 2 {
        assert(actions.drop_last().drop_last() =~= Seq::<Action>::empty());
    } else {
        assert(actions.drop_last() =~= Seq::<Action>::empty());
    }
}

/// A session that ends, gracefully or not, ends the loop once and for all:
/// its event asks for one exit, and whatever events follow ask for nothing.
pub proof fn lemma_terminated_is_final(result: Result<String, String>, later: Seq<OutputEvent>)
    ensures
        replay_outputs(false, seq![OutputEvent::Terminated(result)] + later) == output_actions(
            OutputEvent::Terminated(result),
        ),
        exit_count(replay_outputs(false, seq![OutputEvent::Terminated(result)] + later)) == 1,
{
    let events = seq![OutputEvent::Terminated(result)] + later;
    assert(events[0] == OutputEvent::Terminated(result));
    assert(replay_outputs(true, events.drop_first()) =~= Seq::<Action>::empty());
    assert(replay_outputs(false, events) =~= output_actions(OutputEvent::Terminated(result)));
    lemma_exit_only_on_terminal(OutputEvent::Terminated(result));
}

/// However many events the engine sends, the loop is left at most once.
pub proof fn lemma_exits_at_most_once(stopped: bool, events: Seq<OutputEvent>)
    ensures
        exit_count(replay_outputs(stopped, events)) <= 1,
        stopped ==> exit_count(replay_outputs(stopped, events)) == 0,
    decreases events.len(),
{
    if stopped || events.len() == 0 {
    } else {
        let ends = output_outcome(events[0]) is Some;
        lemma_exits_at_most_once(ends, events.drop_first());
        lemma_exit_only_on_terminal(events[0]);
        lemma_exit_count_concat(output_actions(events[0]), replay_outputs(ends, events.drop_first()));
    }
}

impl Outcome {
    /// The status that the process exits with.
    pub open spec fn status(self) -> i32 {
        match self {
            Outcome::Success => 0,
            Outcome::ProtocolError => 76,
        }
    }

    /// The status that the process exits with: 0 on success, and the
    /// conventional status of a protocol error otherwise.
    pub fn exit_status(self) -> (status: i32)
        ensures
            status == self.status(),
    {
        match self {
            Outcome::Success => status_ok(),
            Outcome::ProtocolError => status_protocol_error(),
        }
    }
}

/// `proc_exit::sysexits::OK` as a raw status: 0.
#[verifier::external_body]
fn status_ok() -> (status: i32)
    ensures
        status == 0,
{
    proc_exit::sysexits::OK.as_raw()
}

/// `proc_exit::sysexits::PROTOCOL_ERR` as a raw status: 76.
#[verifier::external_body]
fn status_protocol_error() -> (status: i32)
    ensures
        status == 76,
{
    proc_exit::sysexits::PROTOCOL_ERR.as_raw()
}

} // verus!
