//! The input translator: from one report of the window to the input operations
//! that stand for it.

use crate::number::{
    lemma_identity_scale, line_units, line_units_spec, pixel_units, pixel_units_spec,
    scale_coordinate, scale_coordinate_spec, Binary32, Binary64,
};
use smallvec::SmallVec;
use vstd::prelude::*;
use winit::keyboard::PhysicalKey;
use winit::platform::scancode::PhysicalKeyExtScancode;

verus! {

/// A hardware key identifier: an 8-bit code and whether it belongs to the
/// extended set.
#[derive(Clone, Copy, Debug, PartialEq, Eq, Structural)]
pub struct KeyScancode {
    pub extended: bool,
    pub code: u8,
}

/// A button of the pointing device, as the protocol knows it.
#[derive(Clone, Copy, Debug, PartialEq, Eq, Structural)]
pub enum InputButton {
    Left,
    Middle,
    Right,
    /// Usually the browser's "back" button.
    X1,
    /// Usually the browser's "forward" button.
    X2,
}

/// One abstract input operation, ready for the input state tracker.
#[derive(Clone, Copy, Debug, PartialEq, Eq, Structural)]
pub enum InputOperation {
    MouseButtonPressed(InputButton),
    MouseButtonReleased(InputButton),
    MouseMove { x: u16, y: u16 },
    WheelRotations { is_vertical: bool, rotation_units: i16 },
    KeyPressed(KeyScancode),
    KeyReleased(KeyScancode),
}

/// A button as the window reports it.
#[derive(Clone, Copy, Debug, PartialEq, Eq, Structural)]
pub enum PointerButton {
    Left,
    Right,
    Middle,
    Back,
    Forward,
    /// A button that the windowing system only knows by its native number.
    Other(u16),
}

/// Which of the four tracked modifiers are held down right now.
#[derive(Clone, Copy, Debug, PartialEq, Eq, Structural)]
pub struct ModifierState {
    pub left_shift: bool,
    pub left_control: bool,
    pub left_alt: bool,
    pub left_super: bool,
}

#[verifier::external_type_specification]
#[verifier::external_body]
pub struct ExPhysicalKey(PhysicalKey);

/// A turn of the wheel, in one of the two ways in which windowing systems
/// report it: in lines or in pixels, each with its horizontal part first and
/// its vertical part second.
#[derive(Clone, Copy, Debug, PartialEq, Eq, Structural)]
pub enum WheelDelta {
    Lines(Binary32, Binary32),
    Pixels(Binary64, Binary64),
}

/// One report of the window, reduced to what the translator reads.
///
/// A key arrives with the platform's scancode for it, where it has one. The
/// cursor arrives with its position in the window and the window's inner
/// size, both in physical pixels.
#[derive(Clone, Copy, Debug, PartialEq, Eq, Structural)]
pub enum WindowInput {
    Resized { width: u16, height: u16, scale_factor: Binary64 },
    CloseRequested,
    Keyboard { scancode: Option<u32>, pressed: bool },
    ModifiersChanged(ModifierState),
    CursorMoved { x: Binary64, y: Binary64, window_width: u32, window_height: u32 },
    MouseWheel(WheelDelta),
    MouseInput { button: PointerButton, pressed: bool },
    /// Anything else: it is of no interest to the remote side.
    Other,
}

/// Scancode of the left shift key.
pub open spec fn shift_left() -> KeyScancode {
    KeyScancode { extended: false, code: 0x2A }
}

/// Scancode of the left control key.
pub open spec fn control_left() -> KeyScancode {
    KeyScancode { extended: false, code: 0x1D }
}

/// Scancode of the left alt key.
pub open spec fn alt_left() -> KeyScancode {
    KeyScancode { extended: false, code: 0x38 }
}

/// Scancode of the left logo (super) key.
pub open spec fn logo_left() -> KeyScancode {
    KeyScancode { extended: true, code: 0x5B }
}

/// The scancode that a 16-bit raw value stands for: the low byte is the code,
/// and the code is extended when the three top bits are all set, that is
/// from `0xE000` on.
pub open spec fn scancode_of_u16(raw: u16) -> KeyScancode {
    KeyScancode { extended: raw >= 0xE000, code: (raw % 256) as u8 }
}

/// The protocol button behind a native button number, where there is one.
pub open spec fn native_button(value: u16) -> Option<InputButton> {
    if value == 1 {
        Some(InputButton::Left)
    } else if value == 2 {
        Some(InputButton::Middle)
    } else if value == 3 {
        Some(InputButton::Right)
    } else if value == 8 {
        Some(InputButton::X1)
    } else if value == 9 {
        Some(InputButton::X2)
    } else {
        None
    }
}

/// The press or the release of a key.
pub open spec fn key_change(pressed: bool, scancode: KeyScancode) -> InputOperation {
    if pressed {
        InputOperation::KeyPressed(scancode)
    } else {
        InputOperation::KeyReleased(scancode)
    }
}

/// The press or the release of a button.
pub open spec fn button_change(pressed: bool, button: InputButton) -> InputOperation {
    if pressed {
        InputOperation::MouseButtonPressed(button)
    } else {
        InputOperation::MouseButtonReleased(button)
    }
}

/// What a key report becomes, given the platform's scancode for the key: no
/// operation where the key has no scancode or the scancode does not fit in
/// 16 bits.
pub open spec fn key_operation_spec(scancode: Option<u32>, pressed: bool) -> Option<InputOperation> {
    match scancode {
        Some(raw) if raw <= u16::MAX => Some(key_change(pressed, scancode_of_u16(raw as u16))),
        _ => None,
    }
}

/// The protocol button that a reported button stands for, where there is one.
pub open spec fn protocol_button(button: PointerButton) -> Option<InputButton> {
    match button {
        PointerButton::Left => Some(InputButton::Left),
        PointerButton::Right => Some(InputButton::Right),
        PointerButton::Middle => Some(InputButton::Middle),
        PointerButton::Back => Some(InputButton::X1),
        PointerButton::Forward => Some(InputButton::X2),
        PointerButton::Other(value) => native_button(value),
    }
}

/// What a button report becomes: no operation for a button that the protocol
/// does not know.
pub open spec fn button_operation_spec(button: PointerButton, pressed: bool) -> Option<InputOperation> {
    match protocol_button(button) {
        Some(known) => Some(button_change(pressed, known)),
        None => None,
    }
}

/// What a change of modifiers becomes: one operation for each tracked modifier,
/// in the order shift, control, alt, logo, each saying what the modifier is now.
pub open spec fn modifier_operations_spec(state: ModifierState) -> Seq<InputOperation> {
    seq![
        key_change(state.left_shift, shift_left()),
        key_change(state.left_control, control_left()),
        key_change(state.left_alt, alt_left()),
        key_change(state.left_super, logo_left()),
    ]
}

/// The rotation on one axis, where there is any.
pub open spec fn axis_rotation(is_vertical: bool, units: Option<i16>) -> Seq<InputOperation> {
    match units {
        Some(rotation_units) => seq![InputOperation::WheelRotations { is_vertical, rotation_units }],
        None => Seq::empty(),
    }
}

impl WheelDelta {
    /// The rotation units of the horizontal part, where it counts.
    pub open spec fn horizontal_units(self) -> Option<i16> {
        match self {
            WheelDelta::Lines(x, _) => line_units_spec(x),
            WheelDelta::Pixels(x, _) => pixel_units_spec(x),
        }
    }

    /// The rotation units of the vertical part, where it counts.
    pub open spec fn vertical_units(self) -> Option<i16> {
        match self {
            WheelDelta::Lines(_, y) => line_units_spec(y),
            WheelDelta::Pixels(_, y) => pixel_units_spec(y),
        }
    }

    /// Whether the horizontal part is above the epsilon in magnitude.
    pub open spec fn horizontal_counts(self) -> bool {
        match self {
            WheelDelta::Lines(x, _) => x.exceeds_epsilon(),
            WheelDelta::Pixels(x, _) => x.exceeds_epsilon(),
        }
    }

    /// Whether the vertical part is above the epsilon in magnitude.
    pub open spec fn vertical_counts(self) -> bool {
        match self {
            WheelDelta::Lines(_, y) => y.exceeds_epsilon(),
            WheelDelta::Pixels(_, y) => y.exceeds_epsilon(),
        }
    }
}

/// What a turn of the wheel becomes: the horizontal rotation, then the
/// vertical one, each only where the axis moved by more than the epsilon.
pub open spec fn wheel_operations_spec(delta: WheelDelta) -> Seq<InputOperation> {
    axis_rotation(false, delta.horizontal_units()) + axis_rotation(true, delta.vertical_units())
}

/// What a move of the cursor becomes: the position scaled to the remote
/// surface, each axis by the ratio of the remote dimension to the window's.
pub open spec fn cursor_operation_spec(
    x: Binary64,
    y: Binary64,
    window_size: (u32, u32),
    remote_size: (u16, u16),
) -> InputOperation {
    InputOperation::MouseMove {
        x: scale_coordinate_spec(x, window_size.0, remote_size.0),
        y: scale_coordinate_spec(y, window_size.1, remote_size.1),
    }
}

/// What one report becomes on a remote surface of the given size: the
/// operations to hand to the tracker, in order. A resize, a close request
/// and a report of no interest become none.
pub open spec fn input_operations(input: WindowInput, remote_size: (u16, u16)) -> Seq<
    InputOperation,
> {
    match input {
        WindowInput::Keyboard { scancode, pressed } => match key_operation_spec(scancode, pressed) {
            Some(operation) => seq![operation],
            None => Seq::empty(),
        },
        WindowInput::ModifiersChanged(state) => modifier_operations_spec(state),
        WindowInput::CursorMoved { x, y, window_width, window_height } => seq![
            cursor_operation_spec(x, y, (window_width, window_height), remote_size),
        ],
        WindowInput::MouseWheel(delta) => wheel_operations_spec(delta),
        WindowInput::MouseInput { button, pressed } => match button_operation_spec(button, pressed) {
            Some(operation) => seq![operation],
            None => Seq::empty(),
        },
        WindowInput::Resized { .. } | WindowInput::CloseRequested | WindowInput::Other => Seq::empty(),
    }
}

/// How many of the operations are rotations of the wheel on one axis.
pub open spec fn rotation_count(operations: Seq<InputOperation>, vertical: bool) -> nat
    decreases operations.len(),
{
    if operations.len() == 0 {
        0
    } else {
        let rest = rotation_count(operations.drop_last(), vertical);
        match operations.last() {
            InputOperation::WheelRotations { is_vertical, .. } if is_vertical == vertical => rest
                + 1,
            _ => rest,
        }
    }
}

/// The operations of one report, in the tracker's small inline buffer.
#[verifier::external_body]
#[derive(Debug, PartialEq, Eq)]
pub struct OperationBatch {
    pub(crate) items: SmallVec<[InputOperation; 4]>,
}

/// The operations that a batch holds, in the order in which they were pushed.
pub uninterp spec fn batch_operations(batch: OperationBatch) -> Seq<InputOperation>;

/// `SmallVec::new`: a buffer that holds nothing.
#[verifier::external_body]
fn batch_new() -> (batch: OperationBatch)
    ensures
        batch_operations(batch) == Seq::<InputOperation>::empty(),
{
    OperationBatch { items: SmallVec::new() }
}

/// `SmallVec::push`: the operation is added behind those already held.
#[verifier::external_body]
fn batch_push(batch: &mut OperationBatch, operation: InputOperation)
    ensures
        batch_operations(*final(batch)) == batch_operations(*old(batch)).push(operation),
{
    batch.items.push(operation)
}

/// `SmallVec::len`: how many operations the buffer holds.
#[verifier::external_body]
fn batch_len(batch: &OperationBatch) -> (len: usize)
    ensures
        len == batch_operations(*batch).len(),
{
    batch.items.len()
}

/// Indexing a `SmallVec` through its slice: the operation at a position that
/// the buffer has.
#[verifier::external_body]
fn batch_get(batch: &OperationBatch, index: usize) -> (operation: InputOperation)
    requires
        index < batch_operations(*batch).len(),
    ensures
        operation == batch_operations(*batch)[index as int],
{
    batch.items[index]
}

/// `Scancode::from_u16` of the input crate, read back with `as_u8`: the low
/// byte is the code, and the scancode is extended when the three top bits of
/// the raw value are set, which they are from `0xE000` on.
#[verifier::external_body]
fn scancode_from_u16(raw: u16) -> (scancode: KeyScancode)
    ensures
        scancode == scancode_of_u16(raw),
{
    let (extended, code) = ironrdp::input::Scancode::from_u16(raw).as_u8();
    KeyScancode { extended, code }
}

/// `MouseButton::from_native_button` of the input crate: 1, 2 and 3 are the
/// left, middle and right buttons, 8 and 9 the two extra ones, and no other
/// number is a button.
#[verifier::external_body]
fn button_from_native(value: u16) -> (button: Option<InputButton>)
    ensures
        button == native_button(value),
{
    match ironrdp::input::MouseButton::from_native_button(value) {
        Some(ironrdp::input::MouseButton::Left) => Some(InputButton::Left),
        Some(ironrdp::input::MouseButton::Middle) => Some(InputButton::Middle),
        Some(ironrdp::input::MouseButton::Right) => Some(InputButton::Right),
        Some(ironrdp::input::MouseButton::X1) => Some(InputButton::X1),
        Some(ironrdp::input::MouseButton::X2) => Some(InputButton::X2),
        None => None,
    }
}

/// `PhysicalKeyExtScancode::to_scancode` of the windowing crate: the
/// platform's own number for a physical key, where it has one. Which number
/// that is depends on the platform, so nothing is claimed of it.
#[verifier::external_body]
fn physical_scancode(key: PhysicalKey) -> (scancode: Option<u32>) {
    key.to_scancode()
}

impl KeyScancode {
    /// A scancode from its two parts.
    pub fn from_u8(extended: bool, code: u8) -> (scancode: KeyScancode)
        ensures
            scancode == (KeyScancode { extended, code }),
    {
        KeyScancode { extended, code }
    }

    /// The scancode that a 16-bit raw value stands for.
    pub fn from_u16(raw: u16) -> (scancode: KeyScancode)
        ensures
            scancode == scancode_of_u16(raw),
    {
        scancode_from_u16(raw)
    }
}

impl InputButton {
    /// The button behind a native button number, where there is one.
    pub fn from_native_button(value: u16) -> (button: Option<InputButton>)
        ensures
            button == native_button(value),
    {
        button_from_native(value)
    }
}

impl OperationBatch {
    /// A batch without operations.
    pub fn new() -> (batch: OperationBatch)
        ensures
            batch_operations(batch) == Seq::<InputOperation>::empty(),
    {
        batch_new()
    }

    /// Adds one operation behind those already in the batch.
    pub fn push(&mut self, operation: InputOperation)
        ensures
            batch_operations(*final(self)) == batch_operations(*old(self)).push(operation),
    {
        batch_push(self, operation)
    }

    /// How many operations the batch holds.
    pub fn len(&self) -> (len: usize)
        ensures
            len == batch_operations(*self).len(),
    {
        batch_len(self)
    }

    /// Whether the batch holds no operation.
    pub fn is_empty(&self) -> (empty: bool)
        ensures
            empty == (batch_operations(*self).len() == 0),
    {
        batch_len(self) == 0
    }

    /// The operations of the batch, in order.
    pub fn to_vec(&self) -> (operations: Vec<InputOperation>)
        ensures
            operations@ == batch_operations(*self),
    {
        let len: usize = batch_len(self);
        let mut operations: Vec<InputOperation> = Vec::new();
        let mut index: usize = 0;
        while index < len
            invariant
                len == batch_operations(*self).len(),
                index <= len,
                operations@ == batch_operations(*self).subrange(0, index as int),
            decreases len - index,
        {
            operations.push(batch_get(self, index));
            index = index + 1;
        }
        operations
    }
}

/// Translates a key report, given the platform's scancode for the key.
///
/// A key without a scancode is dropped, and so is one whose scancode does not
/// fit in 16 bits.
pub fn key_operation(scancode: Option<u32>, pressed: bool) -> (operation: Option<InputOperation>)
    ensures
        operation == key_operation_spec(scancode, pressed),
{
    match scancode {
        Some(raw) => {
            if raw <= 0xFFFF {
                let low: u16 = raw as u16;
                let scancode = KeyScancode::from_u16(low);
                if pressed {
                    Some(InputOperation::KeyPressed(scancode))
                } else {
                    Some(InputOperation::KeyReleased(scancode))
                }
            } else {
                None
            }
        },
        None => None,
    }
}

impl WindowInput {
    /// The report of a key: asks the platform for the key's scancode.
    ///
    /// Which scancode the platform gives is not ours to say; the report holds
    /// whatever it gave, with the state of the key as it was passed in.
    pub fn keyboard(key: PhysicalKey, pressed: bool) -> (input: WindowInput)
        ensures
            input matches WindowInput::Keyboard { pressed: state, .. } && state == pressed,
    {
        WindowInput::Keyboard { scancode: physical_scancode(key), pressed }
    }
}

/// Translates a button report. A button that the protocol does not know is
/// dropped.
pub fn button_operation(button: PointerButton, pressed: bool) -> (operation: Option<InputOperation>)
    ensures
        operation == button_operation_spec(button, pressed),
{
    let known = match button {
        PointerButton::Left => Some(InputButton::Left),
        PointerButton::Right => Some(InputButton::Right),
        PointerButton::Middle => Some(InputButton::Middle),
        PointerButton::Back => Some(InputButton::X1),
        PointerButton::Forward => Some(InputButton::X2),
        PointerButton::Other(value) => InputButton::from_native_button(value),
    };
    match known {
        Some(button) => {
            if pressed {
                Some(InputOperation::MouseButtonPressed(button))
            } else {
                Some(InputOperation::MouseButtonReleased(button))
            }
        },
        None => None,
    }
}

/// Translates a change of modifiers.
///
/// Every tracked modifier gets its operation whether or not it changed: the
/// batch says what the modifiers are, not what they were.
pub fn modifier_operations(state: ModifierState) -> (batch: OperationBatch)
    ensures
        batch_operations(batch) == modifier_operations_spec(state),
        batch_operations(batch).len() == 4,
{
    let mut batch = OperationBatch::new();
    push_key_change(&mut batch, state.left_shift, KeyScancode::from_u8(false, 0x2A));
    push_key_change(&mut batch, state.left_control, KeyScancode::from_u8(false, 0x1D));
    push_key_change(&mut batch, state.left_alt, KeyScancode::from_u8(false, 0x38));
    push_key_change(&mut batch, state.left_super, KeyScancode::from_u8(true, 0x5B));
    assert(batch_operations(batch) =~= modifier_operations_spec(state));
    batch
}

fn push_key_change(batch: &mut OperationBatch, pressed: bool, scancode: KeyScancode)
    ensures
        batch_operations(*final(batch)) == batch_operations(*old(batch)).push(
            key_change(pressed, scancode),
        ),
{
    if pressed {
        batch.push(InputOperation::KeyPressed(scancode));
    } else {
        batch.push(InputOperation::KeyReleased(scancode));
    }
}

/// Translates a move of the cursor: scales the position in the window to the
/// remote surface.
pub fn cursor_operation(
    x: Binary64,
    y: Binary64,
    window_size: (u32, u32),
    remote_size: (u16, u16),
) -> (operation: InputOperation)
    ensures
        operation == cursor_operation_spec(x, y, window_size, remote_size),
{
    InputOperation::MouseMove {
        x: scale_coordinate(x, window_size.0, remote_size.0),
        y: scale_coordinate(y, window_size.1, remote_size.1),
    }
}

/// Translates a turn of the wheel: at most one horizontal rotation, then at
/// most one vertical rotation. An axis that moved by no more than the
/// epsilon gets none.
pub fn wheel_operations(delta: WheelDelta) -> (batch: OperationBatch)
    ensures
        batch_operations(batch) == wheel_operations_spec(delta),
{
    let (horizontal, vertical) = match delta {
        WheelDelta::Lines(x, y) => (line_units(x), line_units(y)),
        WheelDelta::Pixels(x, y) => (pixel_units(x), pixel_units(y)),
    };
    let mut batch = OperationBatch::new();
    if let Some(rotation_units) = horizontal {
        batch.push(InputOperation::WheelRotations { is_vertical: false, rotation_units });
    }
    if let Some(rotation_units) = vertical {
        batch.push(InputOperation::WheelRotations { is_vertical: true, rotation_units });
    }
    assert(batch_operations(batch) =~= wheel_operations_spec(delta));
    batch
}

/// The batch that holds one operation, or none.
fn batch_of(operation: Option<InputOperation>) -> (batch: OperationBatch)
    ensures
        batch_operations(batch) == match operation {
            Some(single) => seq![single],
            None => Seq::empty(),
        },
{
    let mut batch = OperationBatch::new();
    if let Some(single) = operation {
        batch.push(single);
    }
    assert(batch_operations(batch) =~= match operation {
        Some(single) => seq![single],
        None => Seq::empty(),
    });
    batch
}

/// The input translator: the operations that one report of the window
/// becomes on a remote surface of the given size, in the order in which the
/// tracker is to see them.
pub fn translate(input: WindowInput, remote_size: (u16, u16)) -> (batch: OperationBatch)
    ensures
        batch_operations(batch) == input_operations(input, remote_size),
{
    match input {
        WindowInput::Keyboard { scancode, pressed } => batch_of(key_operation(scancode, pressed)),
        WindowInput::ModifiersChanged(state) => modifier_operations(state),
        WindowInput::CursorMoved { x, y, window_width, window_height } => batch_of(
            Some(cursor_operation(x, y, (window_width, window_height), remote_size)),
        ),
        WindowInput::MouseWheel(delta) => wheel_operations(delta),
        WindowInput::MouseInput { button, pressed } => batch_of(button_operation(button, pressed)),
        WindowInput::Resized { .. } | WindowInput::CloseRequested | WindowInput::Other => {
            OperationBatch::new()
        },
    }
}

/// A turn of the wheel becomes exactly one rotation on each axis that moved
/// by more than the epsilon, none on an axis that did not, and nothing else.
pub proof fn lemma_wheel_epsilon(delta: WheelDelta)
    ensures
        rotation_count(wheel_operations_spec(delta), false) == if delta.horizontal_counts() {
            1nat
        } else {
            0nat
        },
        rotation_count(wheel_operations_spec(delta), true) == if delta.vertical_counts() {
            1nat
        } else {
            0nat
        },
        wheel_operations_spec(delta).len() == rotation_count(wheel_operations_spec(delta), false)
            + rotation_count(wheel_operations_spec(delta), true),
{
    let operations = wheel_operations_spec(delta);
    reveal_with_fuel(rotation_count, 3);
    assert(delta.horizontal_units() is Some <==> delta.horizontal_counts());
    assert(delta.vertical_units() is Some <==> delta.vertical_counts());
    if operations.len() == 2 {
        assert(operations.drop_last().drop_last() =~= Seq::<InputOperation>::empty());
        assert(operations.drop_last().last() == operations[0]);
    } else if operations.len() == 1 {
        assert(operations.drop_last() =~= Seq::<InputOperation>::empty());
    }
}

/// Where the window is as large as the remote surface, a move of the cursor
/// keeps its position: the remote coordinates are the whole parts of the
/// position in the window.
pub proof fn lemma_cursor_identity(x: Binary64, y: Binary64, width: u16, height: u16)
    requires
        width > 0,
        height > 0,
    ensures
        cursor_operation_spec(x, y, (width as u32, height as u32), (width, height)) == (
        InputOperation::MouseMove { x: x.truncated(), y: y.truncated() }),
{
    lemma_identity_scale(x, width);
    lemma_identity_scale(y, height);
}

} // verus!
