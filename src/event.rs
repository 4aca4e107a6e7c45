use vstd::prelude::*;

verus! {

/// A pointer (mouse) button, as reported by the device layer.
#[derive(Clone, Copy, Debug, PartialEq, Eq, Structural)]
pub enum PointerButton {
    Left,
    Right,
    Middle,
    Other(u8),
}

/// A raw event of the device layer, carried through the pipeline untouched.
#[derive(Clone, Copy, Debug, PartialEq, Eq, Structural)]
pub enum DeviceEvent {
    /// The pointer moved to the given position.
    CursorMoved(i32, i32),
    /// A pointer button went down (`true`) or up (`false`).
    MouseInput(bool, PointerButton),
    /// A key with the given scan code went down (`true`) or up (`false`).
    KeyboardInput(bool, u32),
}

/// A semantic event, derived from device events or from other semantic events.
#[derive(Clone, Copy, Debug, PartialEq, Eq, Structural)]
pub enum IntermediateEvent {
    /// A pointer button went down at `(x, y)`.
    CursorPressed(i32, i32, PointerButton),
    /// A pointer button went up at `(x, y)`.
    CursorReleased(i32, i32, PointerButton),
    /// The widget with this id was pressed.
    ButtonPressed(u32),
    /// The widget with this id was released over itself.
    ButtonReleased(u32),
    /// The widget with this id was released away from itself.
    ButtonCanceled(u32),
}

/// One element of an event batch.
#[derive(Clone, Copy, Debug, PartialEq, Eq, Structural)]
pub enum InputEvent {
    Device(DeviceEvent),
    Intermediate(IntermediateEvent),
}

} // verus!
