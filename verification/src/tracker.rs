//! The input state tracker, an outside collaborator: it remembers which keys
//! and buttons are down and where the pointer is, drops operations that change
//! nothing, and encodes the rest as fast-path input events.

use crate::input::{batch_operations, InputButton, InputOperation, KeyScancode, OperationBatch};
use ironrdp::input::Database;
use ironrdp::pdu::input::fast_path::FastPathInputEvent;
use smallvec::SmallVec;
use vstd::prelude::*;

verus! {

#[verifier::external_type_specification]
#[verifier::external_body]
pub struct ExDatabase(Database);

#[verifier::external_type_specification]
#[verifier::external_body]
pub struct ExFastPathInputEvent(FastPathInputEvent);

#[verifier::external_type_specification]
#[verifier::external_body]
pub struct ExTrackerOperation(ironrdp::input::Operation);

#[verifier::external_type_specification]
#[verifier::external_body]
pub struct ExTrackerButton(ironrdp::input::MouseButton);

#[verifier::external_type_specification]
#[verifier::external_body]
pub struct ExTrackerScancode(ironrdp::input::Scancode);

/// The fast-path input events of one report, in the tracker's small inline
/// buffer.
#[verifier::external_body]
#[derive(Debug, PartialEq, Eq)]
pub struct EventBatch {
    pub(crate) items: SmallVec<[FastPathInputEvent; 2]>,
}

/// The events that a batch holds, in the order in which the tracker gave them.
pub uninterp spec fn batch_events(batch: EventBatch) -> Seq<FastPathInputEvent>;

/// `SmallVec::from_vec`: a buffer with the items of the vector, in its order.
#[verifier::external_body]
fn events_from_vec(events: Vec<FastPathInputEvent>) -> (batch: EventBatch)
    ensures
        batch_events(batch) == events@,
{
    EventBatch { items: SmallVec::from_vec(events) }
}

/// `SmallVec::len`: how many events the buffer holds.
#[verifier::external_body]
fn events_len(batch: &EventBatch) -> (len: usize)
    ensures
        len == batch_events(*batch).len(),
{
    batch.items.len()
}

/// Indexing a `SmallVec` through its slice: the event at a position that the
/// buffer has.
#[verifier::external_body]
fn events_get(batch: &EventBatch, index: usize) -> (event: FastPathInputEvent)
    requires
        index < batch_events(*batch).len(),
    ensures
        event == batch_events(*batch)[index as int],
{
    batch.items[index]
}

/// The keys that the tracker holds down.
pub uninterp spec fn tracker_keys(tracker: Database) -> Set<KeyScancode>;

/// The buttons that the tracker holds down.
pub uninterp spec fn tracker_buttons(tracker: Database) -> Set<InputButton>;

/// Where the tracker has the pointer: its `x` and its `y`.
pub uninterp spec fn tracker_pointer(tracker: Database) -> (u16, u16);

/// What a tracker remembers of keys, buttons and pointer.
pub ghost struct TrackerView {
    /// The keys that are down.
    pub keys: Set<KeyScancode>,
    /// The buttons that are down.
    pub buttons: Set<InputButton>,
    /// Where the pointer is: its `x` and its `y`.
    pub pointer: (u16, u16),
}

impl TrackerView {
    /// Nothing is down, and the pointer is at the origin.
    pub open spec fn idle() -> TrackerView {
        TrackerView { keys: Set::empty(), buttons: Set::empty(), pointer: (0u16, 0u16) }
    }

    /// What is remembered after one operation: a press puts its key or button
    /// down, a release lets it up, a move takes the pointer along, and a turn
    /// of the wheel leaves no trace.
    pub open spec fn after_one(self, operation: InputOperation) -> TrackerView {
        match operation {
            InputOperation::KeyPressed(scancode) => TrackerView {
                keys: self.keys.insert(scancode),
                ..self
            },
            InputOperation::KeyReleased(scancode) => TrackerView {
                keys: self.keys.remove(scancode),
                ..self
            },
            InputOperation::MouseButtonPressed(button) => TrackerView {
                buttons: self.buttons.insert(button),
                ..self
            },
            InputOperation::MouseButtonReleased(button) => TrackerView {
                buttons: self.buttons.remove(button),
                ..self
            },
            InputOperation::MouseMove { x, y } => TrackerView { pointer: (x, y), ..self },
            InputOperation::WheelRotations { .. } => self,
        }
    }

    /// What is remembered after a run of operations, one after the other.
    pub open spec fn after(self, operations: Seq<InputOperation>) -> TrackerView
        decreases operations.len(),
    {
        if operations.len() == 0 {
            self
        } else {
            self.after(operations.drop_last()).after_one(operations.last())
        }
    }
}

/// What a tracker remembers of keys, buttons and pointer.
pub open spec fn tracker_view(tracker: Database) -> TrackerView {
    TrackerView {
        keys: tracker_keys(tracker),
        buttons: tracker_buttons(tracker),
        pointer: tracker_pointer(tracker),
    }
}

/// `Database::new` of the input crate: a tracker on which no key and no
/// button is down and which has the pointer at the origin.
#[verifier::external_body]
fn tracker_new() -> (tracker: Database)
    ensures
        tracker_view(tracker) == TrackerView::idle(),
{
    Database::new()
}

/// The tracker's own button for one of ours.
#[verifier::external_body]
fn tracker_button(button: InputButton) -> (converted: ironrdp::input::MouseButton) {
    match button {
        InputButton::Left => ironrdp::input::MouseButton::Left,
        InputButton::Middle => ironrdp::input::MouseButton::Middle,
        InputButton::Right => ironrdp::input::MouseButton::Right,
        InputButton::X1 => ironrdp::input::MouseButton::X1,
        InputButton::X2 => ironrdp::input::MouseButton::X2,
    }
}

/// `Scancode::from_u8` of the input crate: the tracker's own scancode with
/// the same two parts.
#[verifier::external_body]
fn tracker_scancode(scancode: KeyScancode) -> (converted: ironrdp::input::Scancode) {
    ironrdp::input::Scancode::from_u8(scancode.extended, scancode.code)
}

/// `Database::is_key_pressed` of the input crate: whether the tracker holds
/// the key down.
#[verifier::external_body]
fn tracker_key_pressed(tracker: &Database, scancode: KeyScancode) -> (pressed: bool)
    ensures
        pressed == tracker_keys(*tracker).contains(scancode),
{
    tracker.is_key_pressed(tracker_scancode(scancode))
}

/// `Database::is_mouse_button_pressed` of the input crate: whether the
/// tracker holds the button down.
#[verifier::external_body]
fn tracker_button_pressed(tracker: &Database, button: InputButton) -> (pressed: bool)
    ensures
        pressed == tracker_buttons(*tracker).contains(button),
{
    tracker.is_mouse_button_pressed(tracker_button(button))
}

/// `Database::mouse_position` of the input crate: where the tracker has the
/// pointer.
#[verifier::external_body]
fn tracker_pointer_position(tracker: &Database) -> (position: (u16, u16))
    ensures
        position == tracker_pointer(*tracker),
{
    let position = tracker.mouse_position();
    (position.x, position.y)
}

/// The tracker's own operation for one of ours: the same variant with the
/// same fields.
#[verifier::external_body]
fn tracker_operation(operation: InputOperation) -> (converted: ironrdp::input::Operation) {
    match operation {
        InputOperation::MouseButtonPressed(button) => ironrdp::input::Operation::MouseButtonPressed(tracker_button(button)),
        InputOperation::MouseButtonReleased(button) => ironrdp::input::Operation::MouseButtonReleased(tracker_button(button)),
        InputOperation::MouseMove { x, y } => ironrdp::input::Operation::MouseMove(ironrdp::input::MousePosition { x, y }),
        InputOperation::WheelRotations { is_vertical, rotation_units } => ironrdp::input::Operation::WheelRotations(
            ironrdp::input::WheelRotations { is_vertical, rotation_units },
        ),
        InputOperation::KeyPressed(scancode) => ironrdp::input::Operation::KeyPressed(tracker_scancode(scancode)),
        InputOperation::KeyReleased(scancode) => ironrdp::input::Operation::KeyReleased(tracker_scancode(scancode)),
    }
}

/// What the tracker answers when it is handed these operations in this order,
/// given what it remembers: the events to send.
pub uninterp spec fn tracker_answer(
    tracker: Database,
    operations: Seq<InputOperation>,
) -> Seq<FastPathInputEvent>;

/// The tracker after it was handed these operations in this order: what it
/// remembers then.
pub uninterp spec fn tracker_after(tracker: Database, operations: Seq<InputOperation>) -> Database;

/// `Database::apply` of the input crate, on the operations of the batch in
/// their order. The events that come back and the tracker afterwards depend
/// on nothing but the tracker before and the operations. Of keys, buttons
/// and pointer the tracker remembers what the operations leave, one after
/// the other: a press sets its key or button, a release clears it, and a
/// move sets the pointer.
#[verifier::external_body]
fn tracker_apply(tracker: &mut Database, operations: &OperationBatch) -> (events: EventBatch)
    ensures
        batch_events(events) == tracker_answer(*old(tracker), batch_operations(*operations)),
        *final(tracker) == tracker_after(*old(tracker), batch_operations(*operations)),
        tracker_view(*final(tracker)) == tracker_view(*old(tracker)).after(
            batch_operations(*operations),
        ),
{
    let converted = operations.items.iter().map(|operation| tracker_operation(*operation));
    EventBatch { items: tracker.apply(converted) }
}

impl EventBatch {
    /// A batch with the given events, in their order.
    pub fn from_vec(events: Vec<FastPathInputEvent>) -> (batch: EventBatch)
        ensures
            batch_events(batch) == events@,
    {
        events_from_vec(events)
    }

    /// How many events the batch holds.
    pub fn len(&self) -> (len: usize)
        ensures
            len == batch_events(*self).len(),
    {
        events_len(self)
    }

    /// Whether the batch holds no event.
    pub fn is_empty(&self) -> (empty: bool)
        ensures
            empty == (batch_events(*self).len() == 0),
    {
        events_len(self) == 0
    }

    /// The events of the batch, in order.
    pub fn to_vec(&self) -> (events: Vec<FastPathInputEvent>)
        ensures
            events@ == batch_events(*self),
    {
        let len: usize = events_len(self);
        let mut events: Vec<FastPathInputEvent> = Vec::new();
        let mut index: usize = 0;
        while index < len
            invariant
                len == batch_events(*self).len(),
                index <= len,
                events@ == batch_events(*self).subrange(0, index as int),
            decreases len - index,
        {
            events.push(events_get(self, index));
            index = index + 1;
        }
        events
    }
}

/// The input state tracker of one session.
pub struct InputTracker {
    database: Database,
}

impl View for InputTracker {
    type V = TrackerView;

    closed spec fn view(&self) -> TrackerView {
        tracker_view(self.database)
    }
}

impl InputTracker {
    /// A tracker on which no key and no button is down, with the pointer at
    /// the origin.
    pub fn new() -> (tracker: InputTracker)
        ensures
            tracker@ == TrackerView::idle(),
    {
        InputTracker { database: tracker_new() }
    }

    /// Whether the tracker holds the key down.
    pub fn is_key_pressed(&self, scancode: KeyScancode) -> (pressed: bool)
        ensures
            pressed == self@.keys.contains(scancode),
    {
        tracker_key_pressed(&self.database, scancode)
    }

    /// Whether the tracker holds the button down.
    pub fn is_mouse_button_pressed(&self, button: InputButton) -> (pressed: bool)
        ensures
            pressed == self@.buttons.contains(button),
    {
        tracker_button_pressed(&self.database, button)
    }

    /// Where the tracker has the pointer: its `x` and its `y`.
    pub fn mouse_position(&self) -> (position: (u16, u16))
        ensures
            position == self@.pointer,
    {
        tracker_pointer_position(&self.database)
    }

    /// The events that the tracker answers to a batch of operations, given
    /// what it remembers: none to an empty batch, and its own answer to any
    /// other.
    pub closed spec fn answer(self, operations: Seq<InputOperation>) -> Seq<FastPathInputEvent> {
        if operations.len() == 0 {
            Seq::empty()
        } else {
            tracker_answer(self.database, operations)
        }
    }

    /// The tracker after a batch of operations: as it was after an empty
    /// batch, and as it makes itself after any other.
    pub closed spec fn after(self, operations: Seq<InputOperation>) -> InputTracker {
        if operations.len() == 0 {
            self
        } else {
            InputTracker { database: tracker_after(self.database, operations) }
        }
    }

    /// Hands the tracker one batch of operations and returns the events that
    /// it wants sent. Afterwards the tracker remembers what the operations
    /// leave of keys, buttons and pointer. An empty batch is not handed
    /// over: it changes nothing and yields no event.
    pub fn apply(&mut self, operations: &OperationBatch) -> (events: EventBatch)
        ensures
            batch_events(events) == old(self).answer(batch_operations(*operations)),
            *final(self) == old(self).after(batch_operations(*operations)),
            final(self)@ == old(self)@.after(batch_operations(*operations)),
            batch_operations(*operations).len() == 0 ==> batch_events(events).len() == 0,
            batch_operations(*operations).len() == 0 ==> *final(self) == *old(self),
    {
        if operations.is_empty() {
            EventBatch::from_vec(Vec::new())
        } else {
            tracker_apply(&mut self.database, operations)
        }
    }
}

} // verus!
