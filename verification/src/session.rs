//! The session event loop, as a state machine: one step takes an event and
//! says what the loop is to do on the window, the surface and the channel.
//! Whoever owns the window runs the loop and carries the steps out.

use crate::event::{
    event_well_formed, forwarded, forwards_answer, never_sends_empty_batch, output_actions,
    output_outcome, output_well_formed, Action, Diagnostic, InputEvent, LoopEvent, Outcome,
    OutputEvent,
};
use crate::input::{input_operations, translate, WindowInput};
use crate::number::{scale_percent, scale_percent_spec};
use crate::tracker::{EventBatch, InputTracker, TrackerView};
use vstd::prelude::*;

verus! {

/// What one session remembers between two events.
pub struct Session {
    tracker: InputTracker,
    remote_width: u16,
    remote_height: u16,
    outcome: Option<Outcome>,
}

/// A session as the contracts see it.
pub ghost struct SessionView {
    /// The input state tracker.
    pub tracker: InputTracker,
    /// Width and height of the last frame; zero before the first one.
    pub remote_size: (u16, u16),
    /// How the loop ended, once it has.
    pub outcome: Option<Outcome>,
}

impl View for Session {
    type V = SessionView;

    closed spec fn view(&self) -> SessionView {
        SessionView {
            tracker: self.tracker,
            remote_size: (self.remote_width, self.remote_height),
            outcome: self.outcome,
        }
    }
}

impl SessionView {
    /// Whether the loop has ended.
    pub open spec fn stopped(self) -> bool {
        self.outcome is Some
    }

    /// The session after the engine's event, while the loop runs: a frame
    /// sets the remote size, a terminal event ends the loop.
    pub open spec fn after_output(self, event: OutputEvent) -> SessionView {
        match event {
            OutputEvent::Image { width, height, .. } => SessionView {
                remote_size: (width, height),
                ..self
            },
            _ => SessionView { outcome: output_outcome(event), ..self },
        }
    }

    /// The session after the loop was told to end.
    pub open spec fn ended(self, outcome: Outcome) -> SessionView {
        SessionView { outcome: Some(outcome), ..self }
    }
}

/// What a report of the window asks of the loop, given the actions that
/// came of it and the session before and after: a resize and a close request
/// are sent on as they are; a report without operations does nothing and
/// leaves the tracker alone; any other forwards what the tracker answers to
/// its operations, and nothing at all where the tracker answers nothing, and
/// leaves in the tracker what its operations leave of keys, buttons and
/// pointer.
pub open spec fn input_handled(
    before: SessionView,
    input: WindowInput,
    actions: Seq<Action>,
    after: SessionView,
) -> bool {
    &&& after.remote_size == before.remote_size
    &&& after.outcome == before.outcome
    &&& match input {
        WindowInput::Resized { width, height, scale_factor } => {
            &&& after == before
            &&& actions == seq![
                Action::Send(
                    InputEvent::Resize {
                        width,
                        height,
                        scale_factor: scale_percent_spec(scale_factor),
                        physical_size: None,
                    },
                ),
            ]
        },
        WindowInput::CloseRequested => after == before && actions == seq![
            Action::Send(InputEvent::Close),
        ],
        _ => {
            let operations = input_operations(input, before.remote_size);
            &&& forwards_answer(actions, before.tracker.answer(operations))
            &&& after.tracker == before.tracker.after(operations)
            &&& after.tracker@ == before.tracker@.after(operations)
            &&& operations.len() == 0 ==> after == before && actions.len() == 0
        },
    }
}

/// Puts a batch of encoded events on its way to the channel, unless it is
/// empty: an empty batch is never sent.
pub fn send_fast_path_events(actions: &mut Vec<Action>, events: EventBatch)
    ensures
        final(actions)@ == old(actions)@ + forwarded(events),
{
    if !events.is_empty() {
        actions.push(Action::Send(InputEvent::FastPath(events)));
        assert(final(actions)@ =~= old(actions)@ + forwarded(events));
    } else {
        assert(final(actions)@ =~= old(actions)@ + forwarded(events));
    }
}

/// The output dispatcher: what the engine's event asks of the window.
pub fn dispatch(event: OutputEvent) -> (actions: Vec<Action>)
    ensures
        actions@ == output_actions(event),
{
    let mut actions: Vec<Action> = Vec::new();
    match event {
        OutputEvent::Image { buffer, width, height } => {
            actions.push(Action::ResizeSurface { width, height });
            actions.push(Action::CopyPixels(buffer));
            actions.push(Action::Present);
        },
        OutputEvent::ConnectionFailure(error) => {
            actions.push(Action::Report(Diagnostic::ConnectionError(error)));
            actions.push(Action::Exit(Outcome::ProtocolError));
        },
        OutputEvent::Terminated(Ok(reason)) => {
            actions.push(Action::Report(Diagnostic::TerminatedGracefully(reason)));
            actions.push(Action::Exit(Outcome::Success));
        },
        OutputEvent::Terminated(Err(error)) => {
            actions.push(Action::Report(Diagnostic::SessionError(error)));
            actions.push(Action::Exit(Outcome::ProtocolError));
        },
        OutputEvent::PointerHidden => {
            actions.push(Action::SetCursorVisible(false));
        },
        OutputEvent::PointerDefault => {
            actions.push(Action::SetCursorVisible(true));
        },
        OutputEvent::PointerPosition { x, y } => {
            actions.push(Action::SetCursorPosition { x, y });
        },
    }
    assert(actions@ =~= output_actions(event));
    actions
}

/// How the loop ends on the engine's event, where it ends on it.
pub fn terminal_outcome(event: &OutputEvent) -> (outcome: Option<Outcome>)
    ensures
        outcome == output_outcome(*event),
{
    match event {
        OutputEvent::ConnectionFailure(_) => Some(Outcome::ProtocolError),
        OutputEvent::Terminated(Ok(_)) => Some(Outcome::Success),
        OutputEvent::Terminated(Err(_)) => Some(Outcome::ProtocolError),
        _ => None,
    }
}

impl Session {
    /// A session before its first event: no frame yet, nothing held down, the
    /// loop running.
    pub fn new() -> (session: Session)
        ensures
            session@.tracker@ == TrackerView::idle(),
            session@.remote_size == (0u16, 0u16),
            session@.outcome is None,
    {
        Session { tracker: InputTracker::new(), remote_width: 0, remote_height: 0, outcome: None }
    }

    /// Width and height of the last frame, which cursor positions are scaled
    /// to; zero before the first frame.
    pub fn remote_size(&self) -> (size: (u16, u16))
        ensures
            size == self@.remote_size,
    {
        (self.remote_width, self.remote_height)
    }

    /// How the loop ended, once it has.
    pub fn outcome(&self) -> (outcome: Option<Outcome>)
        ensures
            outcome == self@.outcome,
    {
        self.outcome
    }

    /// Whether the loop has ended.
    pub fn is_stopped(&self) -> (stopped: bool)
        ensures
            stopped == self@.stopped(),
    {
        self.outcome.is_some()
    }

    /// Handles one report of the window: translates it, hands the operations
    /// to the tracker, and forwards what the tracker answers.
    ///
    /// What the tracker answers is its own affair; whatever it is, an empty
    /// answer is not sent. Once the loop has ended nothing is done.
    pub fn handle_input(&mut self, input: WindowInput) -> (actions: Vec<Action>)
        ensures
            old(self)@.stopped() ==> actions@.len() == 0 && final(self)@ == old(self)@,
            !old(self)@.stopped() ==> input_handled(old(self)@, input, actions@, final(self)@),
            never_sends_empty_batch(actions@),
    {
        let mut actions: Vec<Action> = Vec::new();
        if self.outcome.is_some() {
            return actions;
        }
        match input {
            WindowInput::Resized { width, height, scale_factor } => {
                let message = InputEvent::Resize {
                    width,
                    height,
                    scale_factor: scale_percent(scale_factor),
                    physical_size: None,
                };
                actions.push(Action::Send(message));
                assert(actions@ =~= seq![Action::Send(message)]);
            },
            WindowInput::CloseRequested => {
                actions.push(Action::Send(InputEvent::Close));
                assert(actions@ =~= seq![Action::Send(InputEvent::Close)]);
            },
            _ => {
                let operations = translate(input, (self.remote_width, self.remote_height));
                let events = self.tracker.apply(&operations);
                send_fast_path_events(&mut actions, events);
                assert(actions@ =~= forwarded(events));
            },
        }
        actions
    }

    /// Handles one event of the protocol engine: dispatches it, remembers the
    /// size of a frame, and ends the loop on a terminal event.
    ///
    /// Once the loop has ended nothing is done.
    pub fn handle_output(&mut self, event: OutputEvent) -> (actions: Vec<Action>)
        requires
            output_well_formed(event),
        ensures
            old(self)@.stopped() ==> actions@.len() == 0 && final(self)@ == old(self)@,
            !old(self)@.stopped() ==> actions@ == output_actions(event) && final(self)@ == old(
                self,
            )@.after_output(event),
    {
        if self.outcome.is_some() {
            return Vec::new();
        }
        match &event {
            OutputEvent::Image { width, height, .. } => {
                self.remote_width = *width;
                self.remote_height = *height;
            },
            _ => {
                self.outcome = terminal_outcome(&event);
            },
        }
        dispatch(event)
    }

    /// Handles one event of the loop, from either source.
    pub fn step(&mut self, event: LoopEvent) -> (actions: Vec<Action>)
        requires
            event_well_formed(event),
        ensures
            old(self)@.stopped() ==> actions@.len() == 0 && final(self)@ == old(self)@,
            !old(self)@.stopped() ==> match event {
                LoopEvent::Window(input) => input_handled(
                    old(self)@,
                    input,
                    actions@,
                    final(self)@,
                ),
                LoopEvent::Output(output) => actions@ == output_actions(output) && final(self)@
                    == old(self)@.after_output(output),
            },
            never_sends_empty_batch(actions@),
    {
        match event {
            LoopEvent::Window(input) => self.handle_input(input),
            LoopEvent::Output(output) => self.handle_output(output),
        }
    }

    /// Takes note that a message could not be delivered, because nobody
    /// listens any more. For a close request the loop ends at once, as if the
    /// session were already over; any other message is simply lost.
    pub fn send_failed(&mut self, message: &InputEvent) -> (actions: Vec<Action>)
        ensures
            !old(self)@.stopped() && *message is Close ==> actions@ == seq![
                Action::Exit(Outcome::Success),
            ] && final(self)@ == old(self)@.ended(Outcome::Success),
            old(self)@.stopped() || !(*message is Close) ==> actions@.len() == 0 && final(self)@
                == old(self)@,
    {
        let mut actions: Vec<Action> = Vec::new();
        if self.outcome.is_none() {
            if let InputEvent::Close = message {
                self.outcome = Some(Outcome::Success);
                actions.push(Action::Exit(Outcome::Success));
                assert(actions@ =~= seq![Action::Exit(Outcome::Success)]);
            }
        }
        actions
    }

    /// Takes note that the windowing system refused to move the pointer: the
    /// refusal is reported and the loop goes on.
    pub fn cursor_position_failed(&self, reason: String) -> (actions: Vec<Action>)
        ensures
            self@.stopped() ==> actions@.len() == 0,
            !self@.stopped() ==> actions@ == seq![
                Action::Report(Diagnostic::CursorPosition(reason)),
            ],
    {
        let mut actions: Vec<Action> = Vec::new();
        if self.outcome.is_none() {
            actions.push(Action::Report(Diagnostic::CursorPosition(reason)));
            assert(actions@ =~= seq![Action::Report(Diagnostic::CursorPosition(reason))]);
        }
        actions
    }

    /// Ends one iteration of the loop, given whether the channel to the engine
    /// is closed by now: a closed channel ends the loop, whatever else is
    /// pending.
    pub fn end_iteration(&mut self, channel_closed: bool) -> (actions: Vec<Action>)
        ensures
            channel_closed ==> final(self)@.stopped(),
            !old(self)@.stopped() && channel_closed ==> actions@ == seq![
                Action::Exit(Outcome::Success),
            ] && final(self)@ == old(self)@.ended(Outcome::Success),
            old(self)@.stopped() || !channel_closed ==> actions@.len() == 0 && final(self)@ == old(
                self,
            )@,
    {
        let mut actions: Vec<Action> = Vec::new();
        if self.outcome.is_none() && channel_closed {
            self.outcome = Some(Outcome::Success);
            actions.push(Action::Exit(Outcome::Success));
            assert(actions@ =~= seq![Action::Exit(Outcome::Success)]);
        }
        actions
    }
}

} // verus!
