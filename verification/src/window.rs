//! The per-window worker state machine.
//!
//! A worker owns one window's lifecycle: it pulls messages from the window's
//! mailbox, mirrors the platform's reported attributes into a cached state,
//! decides which behavior callback each message warrants, and keeps the
//! redraw-scheduling target. The cache is updated *before* the callback is
//! handed out, so callbacks always observe state consistent with the
//! platform.
//!
//! The unverified adapter runs the thread and invokes the application's
//! callbacks; every state change and every dispatch decision is computed
//! here.

use vstd::prelude::*;

use crate::event::CursorPosition;
use crate::event::DeviceId;
use crate::event::ElementState;
use crate::event::FloatBits;
use crate::event::Ime;
use crate::event::KeyEvent;
use crate::event::Modifiers;
use crate::event::MouseButton;
use crate::event::PhysicalKey;
use crate::event::PhysicalPosition;
use crate::event::PhysicalSize;
use crate::event::ScrollDelta;
use crate::event::Theme;
use crate::event::Touch;
use crate::event::TouchPhase;
use crate::event::WindowEvent;
use crate::event::WindowId;
use crate::event::WindowMessage;
use crate::redraw::RedrawTarget;
use crate::redraw::Moment;
use crate::redraw::merge_redraw_at;
use crate::redraw::merged_at;

verus! {

/// The set of physical keys currently pressed, kept without duplicates.
pub struct PressedKeys {
    items: Vec<PhysicalKey>,
}

impl PressedKeys {
    /// The set of pressed keys.
    pub closed spec fn set_view(self) -> Set<PhysicalKey> {
        Set::new(|k: PhysicalKey| self.items@.contains(k))
    }

    /// No key occurs twice.
    pub closed spec fn wf(self) -> bool {
        forall|i: int, j: int|
            0 <= i < j < self.items@.len() ==> self.items@[i] != self.items@[j]
    }

    /// Creates an empty set.
    pub fn new() -> (r: PressedKeys)
        ensures
            r.wf(),
            r.set_view() == Set::<PhysicalKey>::empty(),
    {
        let r = PressedKeys { items: Vec::new() };
        proof {
            assert(r.set_view() =~= Set::<PhysicalKey>::empty());
        }
        r
    }

    /// True when `key` is pressed.
    pub fn contains(&self, key: PhysicalKey) -> (r: bool)
        ensures
            r == self.set_view().contains(key),
    {
        let mut i: usize = 0;
        while i < self.items.len()
            invariant
                i <= self.items@.len(),
                forall|j: int| 0 <= j < i ==> self.items@[j] != key,
            decreases self.items@.len() - i,
        {
            if self.items[i] == key {
                return true;
            }
            i = i + 1;
        }
        false
    }

    /// The pressed keys, in no particular order.
    pub fn to_vec(&self) -> (r: Vec<PhysicalKey>)
        ensures
            forall|k: PhysicalKey| r@.contains(k) <==> self.set_view().contains(k),
    {
        let mut r: Vec<PhysicalKey> = Vec::new();
        let mut i: usize = 0;
        while i < self.items.len()
            invariant
                i <= self.items@.len(),
                r@ =~= self.items@.take(i as int),
            decreases self.items@.len() - i,
        {
            r.push(self.items[i]);
            proof {
                assert(r@ =~= self.items@.take(i + 1));
            }
            i = i + 1;
        }
        proof {
            assert(r@ =~= self.items@);
        }
        r
    }

    /// Adds `key`; adding a key already present changes nothing.
    pub fn insert(&mut self, key: PhysicalKey)
        requires
            old(self).wf(),
        ensures
            final(self).wf(),
            final(self).set_view() == old(self).set_view().insert(key),
    {
        if !self.contains(key) {
            self.items.push(key);
            proof {
                broadcast use vstd::seq_lib::group_seq_properties;

                assert(self.set_view() =~= old(self).set_view().insert(key));
            }
        } else {
            proof {
                assert(self.set_view() =~= old(self).set_view().insert(key));
            }
        }
    }

    /// Removes `key`; removing an absent key changes nothing.
    pub fn remove(&mut self, key: PhysicalKey)
        requires
            old(self).wf(),
        ensures
            final(self).wf(),
            final(self).set_view() == old(self).set_view().remove(key),
    {
        let ghost original = self.items@;
        let mut i: usize = 0;
        while i < self.items.len()
            invariant
                self.items@ == original,
                old(self).items@ == original,
                i <= original.len(),
                forall|j: int| 0 <= j < i ==> original[j] != key,
                forall|p: int, q: int|
                    0 <= p < q < original.len() ==> original[p] != original[q],
            decreases original.len() - i,
        {
            if self.items[i] == key {
                self.items.remove(i);
                proof {
                    original.remove_ensures(i as int);
                    assert forall|x: PhysicalKey|
                        self.items@.contains(x) <==> (original.contains(x) && x != key)
                    by {
                        if self.items@.contains(x) {
                            let idx = choose|idx: int|
                                0 <= idx < self.items@.len() && self.items@[idx] == x;
                            if idx < i {
                                assert(original[idx] == x);
                            } else {
                                assert(original[idx + 1] == x);
                            }
                            assert(original.contains(x));
                            if x == key {
                                // Only index i held the key, but the witness
                                // index maps to a different position.
                                if idx < i {
                                    assert(original[idx] != key);
                                } else {
                                    assert(original[idx + 1] != original[i as int]);
                                }
                                assert(false);
                            }
                        }
                        if original.contains(x) && x != key {
                            let idx = choose|idx: int|
                                0 <= idx < original.len() && original[idx] == x;
                            if idx < i {
                                assert(self.items@[idx] == x);
                            } else {
                                assert(idx != i);
                                assert(self.items@[idx - 1] == x);
                            }
                        }
                    }
                    assert(self.set_view() =~= old(self).set_view().remove(key));
                }
                return;
            }
            i = i + 1;
        }
        proof {
            assert(!original.contains(key));
            assert(self.set_view() =~= old(self).set_view().remove(key));
        }
    }
}

/// The set of mouse buttons currently pressed, kept without duplicates.
pub struct PressedButtons {
    items: Vec<MouseButton>,
}

impl PressedButtons {
    /// The set of pressed buttons.
    pub closed spec fn set_view(self) -> Set<MouseButton> {
        Set::new(|b: MouseButton| self.items@.contains(b))
    }

    /// No button occurs twice.
    pub closed spec fn wf(self) -> bool {
        forall|i: int, j: int|
            0 <= i < j < self.items@.len() ==> self.items@[i] != self.items@[j]
    }

    /// Creates an empty set.
    pub fn new() -> (r: PressedButtons)
        ensures
            r.wf(),
            r.set_view() == Set::<MouseButton>::empty(),
    {
        let r = PressedButtons { items: Vec::new() };
        proof {
            assert(r.set_view() =~= Set::<MouseButton>::empty());
        }
        r
    }

    /// True when `button` is pressed.
    pub fn contains(&self, button: MouseButton) -> (r: bool)
        ensures
            r == self.set_view().contains(button),
    {
        let mut i: usize = 0;
        while i < self.items.len()
            invariant
                i <= self.items@.len(),
                forall|j: int| 0 <= j < i ==> self.items@[j] != button,
            decreases self.items@.len() - i,
        {
            if self.items[i] == button {
                return true;
            }
            i = i + 1;
        }
        false
    }

    /// The pressed buttons, in no particular order.
    pub fn to_vec(&self) -> (r: Vec<MouseButton>)
        ensures
            forall|b: MouseButton| r@.contains(b) <==> self.set_view().contains(b),
    {
        let mut r: Vec<MouseButton> = Vec::new();
        let mut i: usize = 0;
        while i < self.items.len()
            invariant
                i <= self.items@.len(),
                r@ =~= self.items@.take(i as int),
            decreases self.items@.len() - i,
        {
            r.push(self.items[i]);
            proof {
                assert(r@ =~= self.items@.take(i + 1));
            }
            i = i + 1;
        }
        proof {
            assert(r@ =~= self.items@);
        }
        r
    }

    /// Adds `button`; adding a button already present changes nothing.
    pub fn insert(&mut self, button: MouseButton)
        requires
            old(self).wf(),
        ensures
            final(self).wf(),
            final(self).set_view() == old(self).set_view().insert(button),
    {
        if !self.contains(button) {
            self.items.push(button);
            proof {
                broadcast use vstd::seq_lib::group_seq_properties;

                assert(self.set_view() =~= old(self).set_view().insert(button));
            }
        } else {
            proof {
                assert(self.set_view() =~= old(self).set_view().insert(button));
            }
        }
    }

    /// Removes `button`; removing an absent button changes nothing.
    pub fn remove(&mut self, button: MouseButton)
        requires
            old(self).wf(),
        ensures
            final(self).wf(),
            final(self).set_view() == old(self).set_view().remove(button),
    {
        let ghost original = self.items@;
        let mut i: usize = 0;
        while i < self.items.len()
            invariant
                self.items@ == original,
                old(self).items@ == original,
                i <= original.len(),
                forall|j: int| 0 <= j < i ==> original[j] != button,
                forall|p: int, q: int|
                    0 <= p < q < original.len() ==> original[p] != original[q],
            decreases original.len() - i,
        {
            if self.items[i] == button {
                self.items.remove(i);
                proof {
                    original.remove_ensures(i as int);
                    assert forall|x: MouseButton|
                        self.items@.contains(x) <==> (original.contains(x) && x != button)
                    by {
                        if self.items@.contains(x) {
                            let idx = choose|idx: int|
                                0 <= idx < self.items@.len() && self.items@[idx] == x;
                            if idx < i {
                                assert(original[idx] == x);
                            } else {
                                assert(original[idx + 1] == x);
                            }
                            assert(original.contains(x));
                            if x == button {
                                if idx < i {
                                    assert(original[idx] != button);
                                } else {
                                    assert(original[idx + 1] != original[i as int]);
                                }
                                assert(false);
                            }
                        }
                        if original.contains(x) && x != button {
                            let idx = choose|idx: int|
                                0 <= idx < original.len() && original[idx] == x;
                            if idx < i {
                                assert(self.items@[idx] == x);
                            } else {
                                assert(idx != i);
                                assert(self.items@[idx - 1] == x);
                            }
                        }
                    }
                    assert(self.set_view() =~= old(self).set_view().remove(button));
                }
                return;
            }
            i = i + 1;
        }
        proof {
            assert(!original.contains(button));
            assert(self.set_view() =~= old(self).set_view().remove(button));
        }
    }
}

/// The abstract state of a window worker: the cached mirror of the
/// platform's window attributes, the redraw target, and the closing flag.
#[verifier::ext_equal]
pub ghost struct WindowState {
    /// The size of the window's client area.
    pub inner_size: PhysicalSize,
    /// The size of the window including its frame.
    pub outer_size: PhysicalSize,
    /// The position of the client area.
    pub inner_position: PhysicalPosition,
    /// The position of the frame.
    pub outer_position: PhysicalPosition,
    /// Where the cursor is, while it is over the window.
    pub cursor_position: Option<CursorPosition>,
    /// The physical keys currently pressed.
    pub keys: Set<PhysicalKey>,
    /// The mouse buttons currently pressed.
    pub buttons: Set<MouseButton>,
    /// The window's scale factor, as a bit pattern.
    pub scale: FloatBits,
    /// True once the worker has decided to close.
    pub close: bool,
    /// True while the window is completely hidden.
    pub occluded: bool,
    /// True while the window has keyboard focus.
    pub focused: bool,
    /// The theme the window is drawn with.
    pub theme: Theme,
    /// The state of the modifier keys.
    pub modifiers: Modifiers,
    /// When the window will next be redrawn.
    pub redraw: Option<RedrawTarget>,
    /// Set when the window hides itself until its first redraw; the payload
    /// says whether to activate it when first shown.
    pub show_after_init: Option<bool>,
}

/// What processing one message tells the worker loop to do next.
#[derive(Clone, Copy, PartialEq, Eq, Structural, Debug)]
pub enum HandleMessageResult {
    /// Keep processing messages.
    Continue,
    /// A redraw is required before processing further messages.
    RedrawRequired,
    /// The platform destroyed the window; the worker must exit.
    Destroyed,
}

/// A behavior callback the worker must invoke, with its payload.
///
/// The cached state has already been updated when a callback is handed out.
#[derive(Clone, PartialEq, Eq, Debug)]
pub enum BehaviorCall<T> {
    /// Deliver an application message to the behavior.
    User(T),
    /// Ask whether the window may close.
    CloseRequested,
    /// The window gained or lost focus.
    FocusChanged,
    /// The window was occluded or revealed.
    OcclusionChanged,
    /// The scale factor changed.
    ScaleFactorChanged,
    /// The window was resized.
    Resized,
    /// The window was moved.
    Moved,
    /// The theme changed.
    ThemeChanged,
    /// A file was dropped on the window.
    DroppedFile(String),
    /// A file hovers over the window.
    HoveredFile(String),
    /// A hovered file left the window.
    HoveredFileCancelled,
    /// The window produced a character.
    ReceivedCharacter(char),
    /// A key changed state.
    KeyboardInput {
        /// The originating device.
        device_id: DeviceId,
        /// The key event.
        event: KeyEvent,
        /// True when the platform synthesized the event.
        is_synthetic: bool,
    },
    /// The modifier keys changed.
    ModifiersChanged,
    /// An input-method event.
    Ime(Ime),
    /// The cursor moved.
    CursorMoved {
        /// The originating device.
        device_id: DeviceId,
        /// The cursor's new location.
        position: CursorPosition,
    },
    /// The cursor entered the window.
    CursorEntered {
        /// The originating device.
        device_id: DeviceId,
    },
    /// The cursor left the window.
    CursorLeft {
        /// The originating device.
        device_id: DeviceId,
    },
    /// The mouse wheel scrolled.
    MouseWheel {
        /// The originating device.
        device_id: DeviceId,
        /// The scrolled amount.
        delta: ScrollDelta,
        /// The phase of the scroll.
        phase: TouchPhase,
    },
    /// A mouse button changed state.
    MouseInput {
        /// The originating device.
        device_id: DeviceId,
        /// Whether the button was pressed or released.
        state: ElementState,
        /// The button.
        button: MouseButton,
    },
    /// The touchpad pressure changed.
    TouchpadPressure {
        /// The originating device.
        device_id: DeviceId,
        /// The pressure, as a bit pattern.
        pressure: FloatBits,
        /// The click level.
        stage: i64,
    },
    /// Motion on an analog axis.
    AxisMotion {
        /// The originating device.
        device_id: DeviceId,
        /// The axis.
        axis: u32,
        /// The amount, as a bit pattern.
        value: FloatBits,
    },
    /// A touch event.
    Touch(Touch),
    /// A magnification gesture.
    PinchGesture {
        /// The originating device.
        device_id: DeviceId,
        /// The change in magnification, as a bit pattern.
        delta: FloatBits,
        /// The phase of the gesture.
        phase: TouchPhase,
    },
    /// A pan gesture.
    PanGesture {
        /// The originating device.
        device_id: DeviceId,
        /// The panned amount.
        delta: CursorPosition,
        /// The phase of the gesture.
        phase: TouchPhase,
    },
    /// A double-tap gesture.
    DoubleTapGesture {
        /// The originating device.
        device_id: DeviceId,
    },
    /// A rotation gesture.
    RotationGesture {
        /// The originating device.
        device_id: DeviceId,
        /// The rotated amount, as a bit pattern.
        delta: FloatBits,
        /// The phase of the gesture.
        phase: TouchPhase,
    },
}

/// The worker state after one platform event is applied to the cache.
pub open spec fn evolve(s: WindowState, e: WindowEvent) -> WindowState {
    match e {
        WindowEvent::RedrawRequested => WindowState {
            redraw: Some(RedrawTarget::Immediate),
            ..s
        },
        WindowEvent::Resized { inner, outer } => WindowState {
            inner_size: inner,
            outer_size: outer,
            ..s
        },
        WindowEvent::Moved { outer, inner } => WindowState {
            outer_position: outer,
            inner_position: inner,
            ..s
        },
        WindowEvent::Focused(focused) => WindowState { focused, ..s },
        WindowEvent::Occluded(occluded) => WindowState { occluded, ..s },
        WindowEvent::ScaleFactorChanged { scale_factor, inner, outer } => WindowState {
            scale: scale_factor,
            inner_size: inner,
            outer_size: outer,
            ..s
        },
        WindowEvent::ThemeChanged(theme) => WindowState { theme, ..s },
        WindowEvent::ModifiersChanged(modifiers) => WindowState { modifiers, ..s },
        WindowEvent::KeyboardInput { event, .. } => WindowState {
            keys: if event.state is Pressed {
                s.keys.insert(event.physical_key)
            } else {
                s.keys.remove(event.physical_key)
            },
            ..s
        },
        WindowEvent::MouseInput { state, button, .. } => WindowState {
            buttons: if state is Pressed {
                s.buttons.insert(button)
            } else {
                s.buttons.remove(button)
            },
            ..s
        },
        WindowEvent::CursorMoved { position, .. } => WindowState {
            cursor_position: Some(position),
            ..s
        },
        WindowEvent::CursorLeft { .. } => WindowState { cursor_position: None, ..s },
        _ => s,
    }
}

/// The callback one platform event warrants, given the cached state the
/// event found; `None` when the event is internal to the worker.
pub open spec fn callback_for<T>(s: WindowState, e: WindowEvent) -> Option<BehaviorCall<T>> {
    match e {
        WindowEvent::RedrawRequested => None,
        WindowEvent::Resized { inner, outer } => if outer != s.outer_size
            || inner != s.inner_size {
            Some(BehaviorCall::Resized)
        } else {
            None
        },
        WindowEvent::Moved { outer, inner } => if outer != s.outer_position
            || inner != s.inner_position {
            Some(BehaviorCall::Moved)
        } else {
            None
        },
        WindowEvent::CloseRequested => Some(BehaviorCall::CloseRequested),
        WindowEvent::Destroyed => None,
        WindowEvent::DroppedFile(path) => Some(BehaviorCall::DroppedFile(path)),
        WindowEvent::HoveredFile(path) => Some(BehaviorCall::HoveredFile(path)),
        WindowEvent::HoveredFileCancelled => Some(BehaviorCall::HoveredFileCancelled),
        WindowEvent::ReceivedCharacter(c) => Some(BehaviorCall::ReceivedCharacter(c)),
        WindowEvent::Focused(_) => Some(BehaviorCall::FocusChanged),
        WindowEvent::Occluded(_) => Some(BehaviorCall::OcclusionChanged),
        WindowEvent::ScaleFactorChanged { .. } => Some(BehaviorCall::ScaleFactorChanged),
        WindowEvent::ThemeChanged(_) => Some(BehaviorCall::ThemeChanged),
        WindowEvent::ModifiersChanged(_) => Some(BehaviorCall::ModifiersChanged),
        WindowEvent::KeyboardInput { device_id, event, is_synthetic } => Some(
            BehaviorCall::KeyboardInput { device_id, event, is_synthetic },
        ),
        WindowEvent::Ime(ime) => Some(BehaviorCall::Ime(ime)),
        WindowEvent::CursorMoved { device_id, position } => Some(
            BehaviorCall::CursorMoved { device_id, position },
        ),
        WindowEvent::CursorEntered { device_id } => Some(
            BehaviorCall::CursorEntered { device_id },
        ),
        WindowEvent::CursorLeft { device_id } => Some(BehaviorCall::CursorLeft { device_id }),
        WindowEvent::MouseWheel { device_id, delta, phase } => Some(
            BehaviorCall::MouseWheel { device_id, delta, phase },
        ),
        WindowEvent::MouseInput { device_id, state, button } => Some(
            BehaviorCall::MouseInput { device_id, state, button },
        ),
        WindowEvent::TouchpadPressure { device_id, pressure, stage } => Some(
            BehaviorCall::TouchpadPressure { device_id, pressure, stage },
        ),
        WindowEvent::AxisMotion { device_id, axis, value } => Some(
            BehaviorCall::AxisMotion { device_id, axis, value },
        ),
        WindowEvent::Touch(touch) => Some(BehaviorCall::Touch(touch)),
        WindowEvent::PinchGesture { device_id, delta, phase } => Some(
            BehaviorCall::PinchGesture { device_id, delta, phase },
        ),
        WindowEvent::PanGesture { device_id, delta, phase } => Some(
            BehaviorCall::PanGesture { device_id, delta, phase },
        ),
        WindowEvent::DoubleTapGesture { device_id } => Some(
            BehaviorCall::DoubleTapGesture { device_id },
        ),
        WindowEvent::RotationGesture { device_id, delta, phase } => Some(
            BehaviorCall::RotationGesture { device_id, delta, phase },
        ),
        WindowEvent::ActivationTokenDone { .. } => None,
    }
}

/// What the worker loop must do after one platform event.
pub open spec fn result_for(e: WindowEvent) -> HandleMessageResult {
    match e {
        WindowEvent::RedrawRequested => HandleMessageResult::RedrawRequired,
        WindowEvent::Destroyed => HandleMessageResult::Destroyed,
        _ => HandleMessageResult::Continue,
    }
}

/// The worker state after a whole sequence of platform events.
pub open spec fn evolve_all(s: WindowState, events: Seq<WindowEvent>) -> WindowState
    decreases events.len(),
{
    if events.len() == 0 {
        s
    } else {
        evolve(evolve_all(s, events.drop_last()), events.last())
    }
}

/// True when the cached attributes of `s` agree with everything the platform
/// reported in event `e`.
pub open spec fn reflects_event(s: WindowState, e: WindowEvent) -> bool {
    match e {
        WindowEvent::Resized { inner, outer } => s.inner_size == inner && s.outer_size == outer,
        WindowEvent::Moved { outer, inner } => s.outer_position == outer && s.inner_position
            == inner,
        WindowEvent::Focused(focused) => s.focused == focused,
        WindowEvent::Occluded(occluded) => s.occluded == occluded,
        WindowEvent::ScaleFactorChanged { scale_factor, inner, outer } => s.scale == scale_factor
            && s.inner_size == inner && s.outer_size == outer,
        WindowEvent::ThemeChanged(theme) => s.theme == theme,
        WindowEvent::ModifiersChanged(modifiers) => s.modifiers == modifiers,
        WindowEvent::CursorMoved { position, .. } => s.cursor_position == Some(position),
        WindowEvent::CursorLeft { .. } => s.cursor_position is None,
        WindowEvent::KeyboardInput { event, .. } => if event.state is Pressed {
            s.keys.contains(event.physical_key)
        } else {
            !s.keys.contains(event.physical_key)
        },
        WindowEvent::MouseInput { state, button, .. } => if state is Pressed {
            s.buttons.contains(button)
        } else {
            !s.buttons.contains(button)
        },
        _ => true,
    }
}

/// Applying one event leaves the cache agreeing with what that event
/// reported.
pub proof fn lemma_step_reflects(s: WindowState, e: WindowEvent)
    ensures
        reflects_event(evolve(s, e), e),
{
}

/// The cached-attribute consistency invariant: after any sequence of
/// platform events is processed, the cached attributes agree with the
/// attributes the platform reported in the event processed last — and so,
/// by induction over the sequence, each event found the cache consistent
/// with the platform at its own delivery time.
pub proof fn lemma_cache_matches_platform(init: WindowState, events: Seq<WindowEvent>, i: int)
    requires
        0 <= i < events.len(),
    ensures
        reflects_event(evolve_all(init, events.take(i + 1)), events[i]),
{
    let prefix = events.take(i + 1);
    assert(prefix.drop_last() =~= events.take(i));
    assert(prefix.last() == events[i]);
    lemma_step_reflects(evolve_all(init, events.take(i)), events[i]);
}

/// A window worker's cached state and scheduling decisions.
///
/// The thread, the mailbox receiver and the platform handle live in the
/// unverified adapter; it constructs one of these from the attributes it
/// queried when the window was created and feeds every message through
/// [`RunningWindow::handle_message`].
pub struct RunningWindow {
    id: WindowId,
    next_redraw_target: Option<RedrawTarget>,
    inner_size: PhysicalSize,
    outer_size: PhysicalSize,
    inner_position: PhysicalPosition,
    outer_position: PhysicalPosition,
    cursor_position: Option<CursorPosition>,
    keys: PressedKeys,
    buttons: PressedButtons,
    scale: FloatBits,
    close: bool,
    occluded: bool,
    focused: bool,
    theme: Theme,
    modifiers: Modifiers,
    show_after_init: Option<bool>,
}

impl RunningWindow {
    /// The abstract state of this worker.
    pub closed spec fn state(self) -> WindowState {
        WindowState {
            inner_size: self.inner_size,
            outer_size: self.outer_size,
            inner_position: self.inner_position,
            outer_position: self.outer_position,
            cursor_position: self.cursor_position,
            keys: self.keys.set_view(),
            buttons: self.buttons.set_view(),
            scale: self.scale,
            close: self.close,
            occluded: self.occluded,
            focused: self.focused,
            theme: self.theme,
            modifiers: self.modifiers,
            redraw: self.next_redraw_target,
            show_after_init: self.show_after_init,
        }
    }

    /// The pressed-key and pressed-button sets hold no duplicates.
    pub closed spec fn wf(self) -> bool {
        self.keys.wf() && self.buttons.wf()
    }

    /// The identifier the platform assigned to this window.
    pub closed spec fn spec_id(self) -> WindowId {
        self.id
    }

    /// Creates the worker state for a freshly created window from the
    /// attributes the platform reported at creation.
    pub fn new(
        id: WindowId,
        inner_size: PhysicalSize,
        outer_size: PhysicalSize,
        inner_position: PhysicalPosition,
        outer_position: PhysicalPosition,
        scale: FloatBits,
        theme: Theme,
        occluded: bool,
        focused: bool,
        show_after_init: Option<bool>,
    ) -> (r: RunningWindow)
        ensures
            r.wf(),
            r.spec_id() == id,
            r.state() == (WindowState {
                inner_size,
                outer_size,
                inner_position,
                outer_position,
                cursor_position: None,
                keys: Set::empty(),
                buttons: Set::empty(),
                scale,
                close: false,
                occluded,
                focused,
                theme,
                modifiers: Modifiers(0),
                redraw: None,
                show_after_init,
            }),
    {
        let r = RunningWindow {
            id,
            next_redraw_target: None,
            inner_size,
            outer_size,
            inner_position,
            outer_position,
            cursor_position: None,
            keys: PressedKeys::new(),
            buttons: PressedButtons::new(),
            scale,
            close: false,
            occluded,
            focused,
            theme,
            modifiers: Modifiers(0),
            show_after_init,
        };
        proof {
            assert(r.state() =~= WindowState {
                inner_size,
                outer_size,
                inner_position,
                outer_position,
                cursor_position: None,
                keys: Set::empty(),
                buttons: Set::empty(),
                scale,
                close: false,
                occluded,
                focused,
                theme,
                modifiers: Modifiers(0),
                redraw: None,
                show_after_init,
            });
        }
        r
    }

    /// Returns the platform identifier of the window.
    pub fn id(&self) -> (r: WindowId)
        ensures
            r == self.spec_id(),
    {
        self.id
    }

    /// Returns the target for when the window will be redrawn.
    pub fn next_redraw_target(&self) -> (r: Option<RedrawTarget>)
        ensures
            r == self.state().redraw,
    {
        self.next_redraw_target
    }

    /// Sets the window to redraw as soon as it can.
    pub fn set_needs_redraw(&mut self)
        requires
            old(self).wf(),
        ensures
            final(self).wf(),
            final(self).spec_id() == old(self).spec_id(),
            final(self).state() == (WindowState {
                redraw: Some(RedrawTarget::Immediate),
                ..old(self).state()
            }),
    {
        self.next_redraw_target = Some(RedrawTarget::Immediate);
        proof {
            assert(self.state() =~= WindowState {
                redraw: Some(RedrawTarget::Immediate),
                ..old(self).state()
            });
        }
    }

    /// Sets the window to redraw at the provided time.
    ///
    /// If the window is already set to redraw sooner, this function does
    /// nothing.
    pub fn redraw_at(&mut self, instant: Moment)
        requires
            old(self).wf(),
        ensures
            final(self).wf(),
            final(self).spec_id() == old(self).spec_id(),
            final(self).state() == (WindowState {
                redraw: merged_at(old(self).state().redraw, instant),
                ..old(self).state()
            }),
    {
        self.next_redraw_target = merge_redraw_at(self.next_redraw_target, instant);
        proof {
            assert(self.state() =~= WindowState {
                redraw: merged_at(old(self).state().redraw, instant),
                ..old(self).state()
            });
        }
    }

    /// Sets the window to redraw once `nanos` nanoseconds have passed from
    /// `now`.
    ///
    /// If the window is already set to redraw sooner, this function does
    /// nothing.
    pub fn redraw_in(&mut self, now: Moment, nanos: u64)
        requires
            old(self).wf(),
        ensures
            final(self).wf(),
            final(self).spec_id() == old(self).spec_id(),
            final(self).state() == (WindowState {
                redraw: merged_at(
                    old(self).state().redraw,
                    Moment {
                        ticks: if now.ticks + nanos <= u64::MAX {
                            (now.ticks + nanos) as u64
                        } else {
                            u64::MAX
                        },
                    },
                ),
                ..old(self).state()
            }),
    {
        let at = now.after(nanos);
        self.redraw_at(at);
    }

    /// Returns the current size of the interior of the window, in pixels.
    pub fn inner_size(&self) -> (r: PhysicalSize)
        ensures
            r == self.state().inner_size,
    {
        self.inner_size
    }

    /// Returns the current outer size of the window, in pixels.
    pub fn outer_size(&self) -> (r: PhysicalSize)
        ensures
            r == self.state().outer_size,
    {
        self.outer_size
    }

    /// Returns the current inner position of the window, in pixels.
    pub fn inner_position(&self) -> (r: PhysicalPosition)
        ensures
            r == self.state().inner_position,
    {
        self.inner_position
    }

    /// Returns the current outer position of the window, in pixels.
    pub fn outer_position(&self) -> (r: PhysicalPosition)
        ensures
            r == self.state().outer_position,
    {
        self.outer_position
    }

    /// Returns the position of the cursor relative to the window's
    /// upper-left corner, while the cursor is over the window.
    pub fn cursor_position(&self) -> (r: Option<CursorPosition>)
        ensures
            r == self.state().cursor_position,
    {
        self.cursor_position
    }

    /// Returns the window's current scale factor, as the bit pattern the
    /// platform reported.
    pub fn scale(&self) -> (r: FloatBits)
        ensures
            r == self.state().scale,
    {
        self.scale
    }

    /// Returns true if the window is currently hidden from the user's view.
    pub fn occluded(&self) -> (r: bool)
        ensures
            r == self.state().occluded,
    {
        self.occluded
    }

    /// Returns true if the window is currently focused for keyboard input.
    pub fn focused(&self) -> (r: bool)
        ensures
            r == self.state().focused,
    {
        self.focused
    }

    /// Returns the current theme of the window.
    pub fn theme(&self) -> (r: Theme)
        ensures
            r == self.state().theme,
    {
        self.theme
    }

    /// Returns the current state of the keyboard modifier keys.
    pub fn modifiers(&self) -> (r: Modifiers)
        ensures
            r == self.state().modifiers,
    {
        self.modifiers
    }

    /// True once the worker has decided to close.
    pub fn closing(&self) -> (r: bool)
        ensures
            r == self.state().close,
    {
        self.close
    }

    /// Set when the window hides itself until its first redraw; the payload
    /// says whether to activate it when first shown.
    pub fn show_after_init(&self) -> (r: Option<bool>)
        ensures
            r == self.state().show_after_init,
    {
        self.show_after_init
    }

    /// Returns the currently pressed keys, in no particular order.
    pub fn pressed_keys(&self) -> (r: Vec<PhysicalKey>)
        ensures
            forall|k: PhysicalKey| r@.contains(k) <==> self.state().keys.contains(k),
    {
        self.keys.to_vec()
    }

    /// Returns true if the given key is currently pressed.
    pub fn key_pressed(&self, key: PhysicalKey) -> (r: bool)
        ensures
            r == self.state().keys.contains(key),
    {
        self.keys.contains(key)
    }

    /// Returns the currently pressed mouse buttons, in no particular order.
    pub fn pressed_mouse_buttons(&self) -> (r: Vec<MouseButton>)
        ensures
            forall|b: MouseButton| r@.contains(b) <==> self.state().buttons.contains(b),
    {
        self.buttons.to_vec()
    }

    /// Returns true if the button is currently pressed.
    pub fn mouse_button_pressed(&self, button: MouseButton) -> (r: bool)
        ensures
            r == self.state().buttons.contains(button),
    {
        self.buttons.contains(button)
    }

    /// Sets this window to close as soon as possible.
    pub fn close(&mut self)
        requires
            old(self).wf(),
        ensures
            final(self).wf(),
            final(self).spec_id() == old(self).spec_id(),
            final(self).state() == (WindowState {
                close: true,
                redraw: Some(RedrawTarget::Immediate),
                ..old(self).state()
            }),
    {
        self.close = true;
        self.set_needs_redraw();
        proof {
            assert(self.state() =~= WindowState {
                close: true,
                redraw: Some(RedrawTarget::Immediate),
                ..old(self).state()
            });
        }
    }

    /// Applies the behavior's answer to a close request: the window closes
    /// when the behavior allowed it and remains open, continuing to receive
    /// events, when it refused.
    pub fn apply_close_response(&mut self, should_close: bool)
        requires
            old(self).wf(),
        ensures
            final(self).wf(),
            final(self).spec_id() == old(self).spec_id(),
            should_close ==> final(self).state() == (WindowState {
                close: true,
                redraw: Some(RedrawTarget::Immediate),
                ..old(self).state()
            }),
            !should_close ==> *final(self) == *old(self),
    {
        if should_close {
            self.close();
        }
    }

    /// Begins a redraw: clears the redraw target and refreshes the cached
    /// inner size from the value the adapter queried from the platform.
    pub fn begin_redraw(&mut self, inner: PhysicalSize)
        requires
            old(self).wf(),
        ensures
            final(self).wf(),
            final(self).spec_id() == old(self).spec_id(),
            final(self).state() == (WindowState {
                redraw: None,
                inner_size: inner,
                ..old(self).state()
            }),
    {
        self.next_redraw_target = None;
        self.inner_size = inner;
        proof {
            assert(self.state() =~= WindowState {
                redraw: None,
                inner_size: inner,
                ..old(self).state()
            });
        }
    }

    /// Applies the platform's answer to a request to resize the window's
    /// client area: when the platform applied a size at once, the cache
    /// takes it, together with the outer size queried after the change;
    /// otherwise the resize will arrive later as an ordinary event and the
    /// cache is left alone.
    pub fn apply_inner_size_response(&mut self, applied: Option<PhysicalSize>, outer: PhysicalSize)
        requires
            old(self).wf(),
        ensures
            final(self).wf(),
            final(self).spec_id() == old(self).spec_id(),
            match applied {
                Some(size) => final(self).state() == (WindowState {
                    inner_size: size,
                    outer_size: outer,
                    ..old(self).state()
                }),
                None => *final(self) == *old(self),
            },
    {
        if let Some(size) = applied {
            self.inner_size = size;
            self.outer_size = outer;
            proof {
                assert(self.state() =~= WindowState {
                    inner_size: size,
                    outer_size: outer,
                    ..old(self).state()
                });
            }
        }
    }

    /// After the scale-factor callback ran, decides whether the behavior
    /// must additionally be told the window was resized: true when the
    /// callback itself changed a cached size away from what the platform
    /// reported at delivery.
    pub fn scale_resize_followup(&self, inner: PhysicalSize, outer: PhysicalSize) -> (r: bool)
        ensures
            r == (self.state().inner_size != inner || self.state().outer_size != outer),
    {
        let inner_changed = self.inner_size.width != inner.width
            || self.inner_size.height != inner.height;
        let outer_changed = self.outer_size.width != outer.width
            || self.outer_size.height != outer.height;
        inner_changed || outer_changed
    }

    /// Processes one mailbox message: updates the cached attributes to what
    /// the platform reported, and returns what the worker loop must do next
    /// together with the behavior callback to invoke, if any.
    ///
    /// The cache is updated before the callback is handed out, so the
    /// callback observes attributes consistent with the platform at the
    /// event's delivery time.
    pub fn handle_message<T>(&mut self, message: WindowMessage<T>) -> (r: (
        HandleMessageResult,
        Option<BehaviorCall<T>>,
    ))
        requires
            old(self).wf(),
        ensures
            final(self).wf(),
            final(self).spec_id() == old(self).spec_id(),
            match message {
                WindowMessage::User(user) => {
                    &&& *final(self) == *old(self)
                    &&& r == (HandleMessageResult::Continue, Some(BehaviorCall::User(user)))
                },
                WindowMessage::Event(event) => {
                    &&& final(self).state() == evolve(old(self).state(), event)
                    &&& r.0 == result_for(event)
                    &&& r.1 == callback_for::<T>(old(self).state(), event)
                },
            },
    {
        match message {
            WindowMessage::User(user) => (
                HandleMessageResult::Continue,
                Some(BehaviorCall::User(user)),
            ),
            WindowMessage::Event(event) => {
                let ghost s0 = self.state();
                let ghost e = event;
                let r = match event {
                    WindowEvent::RedrawRequested => {
                        self.set_needs_redraw();
                        (HandleMessageResult::RedrawRequired, None)
                    }
                    WindowEvent::CloseRequested => (
                        HandleMessageResult::Continue,
                        Some(BehaviorCall::CloseRequested),
                    ),
                    WindowEvent::Destroyed => (HandleMessageResult::Destroyed, None),
                    WindowEvent::Focused(focused) => {
                        self.focused = focused;
                        (HandleMessageResult::Continue, Some(BehaviorCall::FocusChanged))
                    }
                    WindowEvent::Occluded(occluded) => {
                        self.occluded = occluded;
                        (HandleMessageResult::Continue, Some(BehaviorCall::OcclusionChanged))
                    }
                    WindowEvent::ScaleFactorChanged { scale_factor, inner, outer } => {
                        self.scale = scale_factor;
                        self.inner_size = inner;
                        self.outer_size = outer;
                        (HandleMessageResult::Continue, Some(BehaviorCall::ScaleFactorChanged))
                    }
                    WindowEvent::Resized { inner, outer } => {
                        let outer_changed = self.outer_size.width != outer.width
                            || self.outer_size.height != outer.height;
                        let inner_changed = self.inner_size.width != inner.width
                            || self.inner_size.height != inner.height;
                        self.outer_size = outer;
                        self.inner_size = inner;
                        if outer_changed || inner_changed {
                            (HandleMessageResult::Continue, Some(BehaviorCall::Resized))
                        } else {
                            (HandleMessageResult::Continue, None)
                        }
                    }
                    WindowEvent::Moved { outer, inner } => {
                        let outer_changed = self.outer_position.x != outer.x
                            || self.outer_position.y != outer.y;
                        let inner_changed = self.inner_position.x != inner.x
                            || self.inner_position.y != inner.y;
                        self.outer_position = outer;
                        self.inner_position = inner;
                        if outer_changed || inner_changed {
                            (HandleMessageResult::Continue, Some(BehaviorCall::Moved))
                        } else {
                            (HandleMessageResult::Continue, None)
                        }
                    }
                    WindowEvent::ThemeChanged(theme) => {
                        self.theme = theme;
                        (HandleMessageResult::Continue, Some(BehaviorCall::ThemeChanged))
                    }
                    WindowEvent::DroppedFile(path) => (
                        HandleMessageResult::Continue,
                        Some(BehaviorCall::DroppedFile(path)),
                    ),
                    WindowEvent::HoveredFile(path) => (
                        HandleMessageResult::Continue,
                        Some(BehaviorCall::HoveredFile(path)),
                    ),
                    WindowEvent::HoveredFileCancelled => (
                        HandleMessageResult::Continue,
                        Some(BehaviorCall::HoveredFileCancelled),
                    ),
                    WindowEvent::ReceivedCharacter(c) => (
                        HandleMessageResult::Continue,
                        Some(BehaviorCall::ReceivedCharacter(c)),
                    ),
                    WindowEvent::KeyboardInput { device_id, event, is_synthetic } => {
                        match event.state {
                            ElementState::Pressed => self.keys.insert(event.physical_key),
                            ElementState::Released => self.keys.remove(event.physical_key),
                        }
                        (
                            HandleMessageResult::Continue,
                            Some(BehaviorCall::KeyboardInput { device_id, event, is_synthetic }),
                        )
                    }
                    WindowEvent::ModifiersChanged(modifiers) => {
                        self.modifiers = modifiers;
                        (HandleMessageResult::Continue, Some(BehaviorCall::ModifiersChanged))
                    }
                    WindowEvent::Ime(ime) => (
                        HandleMessageResult::Continue,
                        Some(BehaviorCall::Ime(ime)),
                    ),
                    WindowEvent::CursorMoved { device_id, position } => {
                        self.cursor_position = Some(position);
                        (
                            HandleMessageResult::Continue,
                            Some(BehaviorCall::CursorMoved { device_id, position }),
                        )
                    }
                    WindowEvent::CursorEntered { device_id } => (
                        HandleMessageResult::Continue,
                        Some(BehaviorCall::CursorEntered { device_id }),
                    ),
                    WindowEvent::CursorLeft { device_id } => {
                        self.cursor_position = None;
                        (HandleMessageResult::Continue, Some(BehaviorCall::CursorLeft { device_id }))
                    }
                    WindowEvent::MouseWheel { device_id, delta, phase } => (
                        HandleMessageResult::Continue,
                        Some(BehaviorCall::MouseWheel { device_id, delta, phase }),
                    ),
                    WindowEvent::MouseInput { device_id, state, button } => {
                        match state {
                            ElementState::Pressed => self.buttons.insert(button),
                            ElementState::Released => self.buttons.remove(button),
                        }
                        (
                            HandleMessageResult::Continue,
                            Some(BehaviorCall::MouseInput { device_id, state, button }),
                        )
                    }
                    WindowEvent::TouchpadPressure { device_id, pressure, stage } => (
                        HandleMessageResult::Continue,
                        Some(BehaviorCall::TouchpadPressure { device_id, pressure, stage }),
                    ),
                    WindowEvent::AxisMotion { device_id, axis, value } => (
                        HandleMessageResult::Continue,
                        Some(BehaviorCall::AxisMotion { device_id, axis, value }),
                    ),
                    WindowEvent::Touch(touch) => (
                        HandleMessageResult::Continue,
                        Some(BehaviorCall::Touch(touch)),
                    ),
                    WindowEvent::PinchGesture { device_id, delta, phase } => (
                        HandleMessageResult::Continue,
                        Some(BehaviorCall::PinchGesture { device_id, delta, phase }),
                    ),
                    WindowEvent::PanGesture { device_id, delta, phase } => (
                        HandleMessageResult::Continue,
                        Some(BehaviorCall::PanGesture { device_id, delta, phase }),
                    ),
                    WindowEvent::DoubleTapGesture { device_id } => (
                        HandleMessageResult::Continue,
                        Some(BehaviorCall::DoubleTapGesture { device_id }),
                    ),
                    WindowEvent::RotationGesture { device_id, delta, phase } => (
                        HandleMessageResult::Continue,
                        Some(BehaviorCall::RotationGesture { device_id, delta, phase }),
                    ),
                    WindowEvent::ActivationTokenDone { .. } => (HandleMessageResult::Continue, None),
                };
                proof {
                    assert(self.state() =~= evolve(s0, e));
                }
                r
            }
        }
    }
}

} // verus!
