//! Plain-value attributes a window is configured with before it is opened.
//!
//! The unverified adapter converts these, field for field, into whatever the
//! platform expects when it creates the window.

use vstd::prelude::*;

use crate::event::FloatBits;
use crate::event::PhysicalPosition;
use crate::event::PhysicalSize;
use crate::event::Theme;

verus! {

/// The close button of a window, as a flag bit.
pub const WINDOW_BUTTON_CLOSE: u32 = 1;

/// The minimize button of a window, as a flag bit.
pub const WINDOW_BUTTON_MINIMIZE: u32 = 2;

/// The maximize button of a window, as a flag bit.
pub const WINDOW_BUTTON_MAXIMIZE: u32 = 4;

/// All three window buttons.
pub const WINDOW_BUTTONS_ALL: u32 = 7;

/// The set of window buttons that are enabled, as packed flag bits.
#[derive(Clone, Copy, PartialEq, Eq, Structural, Debug)]
pub struct WindowButtons(pub u32);

/// A size, either in physical pixels or in logical units (two IEEE-754 bit
/// patterns, scaled by the platform).
#[derive(Clone, Copy, PartialEq, Eq, Structural, Debug)]
pub enum Size {
    /// A size in physical pixels.
    Physical(PhysicalSize),
    /// A size in logical units, as bit patterns.
    Logical {
        /// The width in logical units, as a bit pattern.
        width: FloatBits,
        /// The height in logical units, as a bit pattern.
        height: FloatBits,
    },
}

/// A position, either in physical pixels or in logical units.
#[derive(Clone, Copy, PartialEq, Eq, Structural, Debug)]
pub enum Position {
    /// A position in physical pixels.
    Physical(PhysicalPosition),
    /// A position in logical units, as bit patterns.
    Logical {
        /// The horizontal coordinate, as a bit pattern.
        x: FloatBits,
        /// The vertical coordinate, as a bit pattern.
        y: FloatBits,
    },
}

/// The stacking level of a window.
#[derive(Clone, Copy, PartialEq, Eq, Structural, Debug)]
pub enum WindowLevel {
    /// Below every normal window.
    AlwaysOnBottom,
    /// The default level.
    Normal,
    /// Above every normal window.
    AlwaysOnTop,
}

/// A window icon: its pixels as bytes in RGBA order, row by row.
#[derive(Clone, PartialEq, Eq, Debug)]
pub struct Icon {
    /// The pixel bytes, four per pixel.
    pub rgba: Vec<u8>,
    /// The width in pixels.
    pub width: u32,
    /// The height in pixels.
    pub height: u32,
}

/// The full screen configuration of a window. Monitors and video modes are
/// platform objects; they are carried here by the tokens the adapter assigns
/// to them.
#[derive(Clone, Copy, PartialEq, Eq, Structural, Debug)]
pub enum Fullscreen {
    /// Borderless full screen on the given monitor, or on the current one.
    Borderless(Option<u64>),
    /// Exclusive full screen in the given video mode.
    Exclusive(u64),
}

/// The title every window starts with.
pub open spec fn spec_default_title() -> Seq<char> {
    "winit window"@
}

/// Attributes of a desktop window.
///
/// Equivalent to the platform's own window attributes, carried as plain
/// values; `delay_visible` additionally lets a window stay hidden until its
/// behavior has initialized and drawn once.
#[derive(Clone, PartialEq, Eq, Debug)]
pub struct WindowAttributes {
    /// The inner size of the window.
    pub inner_size: Option<Size>,
    /// The minimum inner size of the window.
    pub min_inner_size: Option<Size>,
    /// The maximum inner size of the window.
    pub max_inner_size: Option<Size>,
    /// The position of the top-left of the frame of the window.
    pub position: Option<Position>,
    /// If true, the window can be resized by the user.
    pub resizable: bool,
    /// The collection of window buttons that are enabled.
    pub enabled_buttons: WindowButtons,
    /// The title of the window.
    pub title: String,
    /// The full screen configuration for the window.
    pub fullscreen: Option<Fullscreen>,
    /// The maximized state of the window.
    pub maximized: bool,
    /// The visibility state of the window.
    pub visible: bool,
    /// If true, the window's chrome will be hidden and only areas that have
    /// been drawn to will be opaque.
    pub transparent: bool,
    /// Controls the visibility of the window decorations.
    pub decorations: bool,
    /// The window's icon.
    pub window_icon: Option<Icon>,
    /// The window's preferred theme.
    pub preferred_theme: Option<Theme>,
    /// The increments in which the window will be allowed to resize by the
    /// user.
    pub resize_increments: Option<Size>,
    /// If true, the contents of the window will be prevented from being
    /// captured by other applications when supported.
    pub content_protected: bool,
    /// The level of the window.
    pub window_level: WindowLevel,
    /// Whether the window is active or not.
    pub active: bool,
    /// When true, this window will delay honoring the `visible` attribute
    /// until after the window behavior has been initialized and redrawn a
    /// single time.
    pub delay_visible: bool,
    /// Name of the application, where the platform has a notion of one.
    pub app_name: Option<String>,
}

impl Default for WindowAttributes {
    /// The platform's default attributes, with `delay_visible` set.
    fn default() -> (r: WindowAttributes)
        ensures
            r.inner_size is None,
            r.min_inner_size is None,
            r.max_inner_size is None,
            r.position is None,
            r.resizable,
            r.enabled_buttons == (WindowButtons(WINDOW_BUTTONS_ALL)),
            r.title@ == spec_default_title(),
            r.fullscreen is None,
            !r.maximized,
            r.visible,
            !r.transparent,
            r.decorations,
            r.window_icon is None,
            r.preferred_theme is None,
            r.resize_increments is None,
            !r.content_protected,
            r.window_level == WindowLevel::Normal,
            r.active,
            r.delay_visible,
            r.app_name is None,
    {
        proof {
            broadcast use vstd::string::to_string_from_display_ensures_for_str;

        }
        WindowAttributes {
            inner_size: None,
            min_inner_size: None,
            max_inner_size: None,
            position: None,
            resizable: true,
            enabled_buttons: WindowButtons(WINDOW_BUTTONS_ALL),
            title: "winit window".to_string(),
            fullscreen: None,
            maximized: false,
            visible: true,
            transparent: false,
            decorations: true,
            window_icon: None,
            preferred_theme: None,
            resize_increments: None,
            content_protected: false,
            window_level: WindowLevel::Normal,
            active: true,
            delay_visible: true,
            app_name: None,
        }
    }
}

impl WindowAttributes {
    /// Prepares the attributes for the platform's create-window call and
    /// decides the startup-visibility plan: a window configured to delay its
    /// visibility is created hidden, and the returned value says — once the
    /// behavior has initialized and drawn once — whether to show it
    /// activated (`Some(true)`), show it unactivated (`Some(false)`), or
    /// leave visibility as configured (`None`).
    pub fn prepare_for_open(&mut self) -> (show_after_init: Option<bool>)
        ensures
            old(self).delay_visible && old(self).visible ==> {
                &&& show_after_init == Some(old(self).active)
                &&& *final(self) == (WindowAttributes { visible: false, ..*old(self) })
            },
            !(old(self).delay_visible && old(self).visible) ==> {
                &&& show_after_init is None
                &&& *final(self) == *old(self)
            },
    {
        if self.delay_visible && self.visible {
            self.visible = false;
            Some(self.active)
        } else {
            None
        }
    }
}

} // verus!
