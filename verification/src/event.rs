//! Plain-value models of the events a platform window receives.
//!
//! The platform delivers events carrying its own opaque types; the unverified
//! adapter converts each, field for field, into the types here so that the
//! verified worker can route it and update its cached window state. Scalars
//! that the platform reports as IEEE-754 values are carried as their bit
//! patterns: the core stores, compares and forwards them but never computes
//! with them.

use vstd::prelude::*;

verus! {

/// The bit pattern of an IEEE-754 value reported by the platform.
///
/// A 32-bit value is carried zero-extended in the low 32 bits.
#[derive(Clone, Copy, PartialEq, Eq, Structural, Debug)]
pub struct FloatBits(pub u64);

/// A size in physical pixels.
#[derive(Clone, Copy, PartialEq, Eq, Structural, Debug)]
pub struct PhysicalSize {
    /// Width in physical pixels.
    pub width: u32,
    /// Height in physical pixels.
    pub height: u32,
}

/// A position in physical pixels, relative to a platform-defined origin.
#[derive(Clone, Copy, PartialEq, Eq, Structural, Debug)]
pub struct PhysicalPosition {
    /// Horizontal coordinate in physical pixels.
    pub x: i32,
    /// Vertical coordinate in physical pixels.
    pub y: i32,
}

/// A cursor location within a window, in physical pixels, as the platform
/// reported it (two IEEE-754 bit patterns).
#[derive(Clone, Copy, PartialEq, Eq, Structural, Debug)]
pub struct CursorPosition {
    /// Horizontal coordinate, as a bit pattern.
    pub x: FloatBits,
    /// Vertical coordinate, as a bit pattern.
    pub y: FloatBits,
}

/// The identifier the platform assigned to a window when it was created.
///
/// Unique among currently-open windows; the platform reuses an identifier
/// only after it has garbage-collected the closed window that held it.
#[derive(Clone, Copy, PartialEq, Eq, Structural, Debug, Hash)]
pub struct WindowId(pub u64);

/// The identifier of the input device an event originated from.
#[derive(Clone, Copy, PartialEq, Eq, Structural, Debug)]
pub struct DeviceId(pub u64);

/// The platform's code for a physical key location on the keyboard.
#[derive(Clone, Copy, PartialEq, Eq, Structural, Debug, Hash)]
pub struct PhysicalKey(pub u32);

/// A button on a mouse.
#[derive(Clone, Copy, PartialEq, Eq, Structural, Debug, Hash)]
pub enum MouseButton {
    /// The left button.
    Left,
    /// The right button.
    Right,
    /// The middle (wheel) button.
    Middle,
    /// The back navigation button.
    Back,
    /// The forward navigation button.
    Forward,
    /// Another button, by platform code.
    Other(u16),
}

/// Whether a key or button transitioned to pressed or to released.
#[derive(Clone, Copy, PartialEq, Eq, Structural, Debug)]
pub enum ElementState {
    /// The key or button was pressed.
    Pressed,
    /// The key or button was released.
    Released,
}

/// The theme a window is drawn with.
#[derive(Clone, Copy, PartialEq, Eq, Structural, Debug)]
pub enum Theme {
    /// A light theme.
    Light,
    /// A dark theme.
    Dark,
}

/// The state of the keyboard modifier keys, as the platform's packed flags.
#[derive(Clone, Copy, PartialEq, Eq, Structural, Debug)]
pub struct Modifiers(pub u32);

/// A keyboard event.
#[derive(Clone, PartialEq, Eq, Debug)]
pub struct KeyEvent {
    /// The physical key that changed state.
    pub physical_key: PhysicalKey,
    /// Whether the key was pressed or released.
    pub state: ElementState,
    /// True when the platform reports the press as an auto-repeat.
    pub repeat: bool,
    /// The text the key produced, if any.
    pub text: Option<String>,
}

/// An event from an input method.
#[derive(Clone, PartialEq, Eq, Debug)]
pub enum Ime {
    /// The input method became active.
    Enabled,
    /// The composition string changed; the pair is the byte range of the
    /// cursor within it, when the input method reports one.
    Preedit(String, Option<(usize, usize)>),
    /// The input method committed the contained text.
    Commit(String),
    /// The input method became inactive.
    Disabled,
}

/// The phase of a touch or gesture.
#[derive(Clone, Copy, PartialEq, Eq, Structural, Debug)]
pub enum TouchPhase {
    /// The touch started.
    Started,
    /// The touch moved.
    Moved,
    /// The touch ended.
    Ended,
    /// The touch was cancelled.
    Cancelled,
}

/// The force of a touch, as the platform reported it.
#[derive(Clone, Copy, PartialEq, Eq, Structural, Debug)]
pub enum Force {
    /// A force on a calibrated scale.
    Calibrated {
        /// The reported force, as a bit pattern.
        force: FloatBits,
        /// The maximum possible force, as a bit pattern.
        max_possible_force: FloatBits,
        /// The stylus altitude angle, when reported, as a bit pattern.
        altitude_angle: Option<FloatBits>,
    },
    /// A force normalized to the unit interval, as a bit pattern.
    Normalized(FloatBits),
}

/// A touch event.
#[derive(Clone, Copy, PartialEq, Eq, Structural, Debug)]
pub struct Touch {
    /// The device the touch originated from.
    pub device_id: DeviceId,
    /// The phase of the touch.
    pub phase: TouchPhase,
    /// The location of the touch within the window.
    pub location: CursorPosition,
    /// The force of the touch, when the platform reports one.
    pub force: Option<Force>,
    /// The platform's identifier for this touch point.
    pub id: u64,
}

/// The amount a mouse wheel or touchpad scrolled.
#[derive(Clone, Copy, PartialEq, Eq, Structural, Debug)]
pub enum ScrollDelta {
    /// A scroll in lines and columns, as two 32-bit IEEE-754 bit patterns.
    Lines {
        /// Columns scrolled, as a bit pattern.
        x: FloatBits,
        /// Lines scrolled, as a bit pattern.
        y: FloatBits,
    },
    /// A scroll in physical pixels, as two bit patterns.
    Pixels {
        /// Horizontal amount, as a bit pattern.
        x: FloatBits,
        /// Vertical amount, as a bit pattern.
        y: FloatBits,
    },
}

/// An event delivered to one window, with every attribute the worker caches
/// already read from the platform at delivery time and carried as plain
/// values.
#[derive(Clone, PartialEq, Eq, Debug)]
pub enum WindowEvent {
    /// The platform asks the window to redraw.
    RedrawRequested,
    /// The window was resized. Carries the platform's reported inner size and
    /// the outer size queried at delivery.
    Resized {
        /// The new size of the window's client area.
        inner: PhysicalSize,
        /// The outer size of the window at delivery.
        outer: PhysicalSize,
    },
    /// The window was moved. Carries the platform's reported outer position
    /// and the inner position queried at delivery.
    Moved {
        /// The new position of the window's frame.
        outer: PhysicalPosition,
        /// The position of the client area at delivery.
        inner: PhysicalPosition,
    },
    /// The user asked the window to close.
    CloseRequested,
    /// The platform destroyed the window.
    Destroyed,
    /// A file was dropped into the window.
    DroppedFile(String),
    /// A file is hovering over the window.
    HoveredFile(String),
    /// A hovered file left the window.
    HoveredFileCancelled,
    /// The window produced a unicode character.
    ReceivedCharacter(char),
    /// The window gained (`true`) or lost (`false`) focus.
    Focused(bool),
    /// A key changed state while the window was focused.
    KeyboardInput {
        /// The originating device.
        device_id: DeviceId,
        /// The key event.
        event: KeyEvent,
        /// True when the platform synthesized the event on a focus change.
        is_synthetic: bool,
    },
    /// The modifier keys changed.
    ModifiersChanged(Modifiers),
    /// An input-method event.
    Ime(Ime),
    /// The cursor moved over the window.
    CursorMoved {
        /// The originating device.
        device_id: DeviceId,
        /// The cursor's new location.
        position: CursorPosition,
    },
    /// The cursor entered the window.
    CursorEntered {
        /// The originating device.
        device_id: DeviceId,
    },
    /// The cursor left the window.
    CursorLeft {
        /// The originating device.
        device_id: DeviceId,
    },
    /// The mouse wheel or touchpad scrolled.
    MouseWheel {
        /// The originating device.
        device_id: DeviceId,
        /// The scrolled amount.
        delta: ScrollDelta,
        /// The phase of the scroll.
        phase: TouchPhase,
    },
    /// A mouse button changed state.
    MouseInput {
        /// The originating device.
        device_id: DeviceId,
        /// Whether the button was pressed or released.
        state: ElementState,
        /// The button that changed state.
        button: MouseButton,
    },
    /// The pressure on a touchpad changed.
    TouchpadPressure {
        /// The originating device.
        device_id: DeviceId,
        /// The pressure, as a bit pattern.
        pressure: FloatBits,
        /// The click level.
        stage: i64,
    },
    /// Motion on an analog axis.
    AxisMotion {
        /// The originating device.
        device_id: DeviceId,
        /// The axis that moved.
        axis: u32,
        /// The amount of motion, as a bit pattern.
        value: FloatBits,
    },
    /// A touch event.
    Touch(Touch),
    /// The window's scale factor changed. Carries the new factor and both
    /// sizes queried at delivery.
    ScaleFactorChanged {
        /// The new scale factor, as a bit pattern.
        scale_factor: FloatBits,
        /// The inner size queried at delivery.
        inner: PhysicalSize,
        /// The outer size queried at delivery.
        outer: PhysicalSize,
    },
    /// The system theme of the window changed.
    ThemeChanged(Theme),
    /// The window became completely hidden (`true`) or visible again
    /// (`false`).
    Occluded(bool),
    /// A magnification gesture.
    PinchGesture {
        /// The originating device.
        device_id: DeviceId,
        /// The change in magnification, as a bit pattern.
        delta: FloatBits,
        /// The phase of the gesture.
        phase: TouchPhase,
    },
    /// A pan gesture.
    PanGesture {
        /// The originating device.
        device_id: DeviceId,
        /// The panned amount.
        delta: CursorPosition,
        /// The phase of the gesture.
        phase: TouchPhase,
    },
    /// A double-tap (smart magnification) gesture.
    DoubleTapGesture {
        /// The originating device.
        device_id: DeviceId,
    },
    /// A rotation gesture.
    RotationGesture {
        /// The originating device.
        device_id: DeviceId,
        /// The rotated amount in degrees, as a 32-bit bit pattern.
        delta: FloatBits,
        /// The phase of the gesture.
        phase: TouchPhase,
    },
    /// An activation token the window requested was delivered.
    ActivationTokenDone {
        /// The serial of the request.
        serial: u64,
        /// The delivered token.
        token: String,
    },
}

/// A message routed through a window's mailbox: an application-defined user
/// message or a platform event.
#[derive(Clone, PartialEq, Eq, Debug)]
pub enum WindowMessage<T> {
    /// A message an application sent to this window.
    User(T),
    /// A platform event for this window.
    Event(WindowEvent),
}

} // verus!
