//! The payloads the compositor sends back, modelled as plain values: the
//! subscribe acknowledgement and the window event (only the fields the
//! daemon consumes).

use vstd::prelude::*;

verus! {

/// The acknowledgement payload of a subscribe command:
/// `{"success": bool, "error"?: string}`.
#[derive(Clone, Debug)]
pub struct CommandOutcome {
    pub success: bool,
    pub error: Option<String>,
}

/// A window's position and size.
#[derive(Clone, Copy, Debug, PartialEq, Eq, Structural)]
pub struct Rect {
    pub x: i32,
    pub y: i32,
    pub width: i32,
    pub height: i32,
}

/// The X11 window properties of a container, where present.
#[derive(Clone, Debug)]
pub struct WindowProperties {
    pub class: Option<String>,
    pub instance: Option<String>,
}

/// The container a window event speaks of.
#[derive(Clone, Debug)]
pub struct Container {
    pub id: i64,
    pub name: Option<String>,
    pub app_id: Option<String>,
    pub pid: Option<i32>,
    pub window_properties: Option<WindowProperties>,
    pub rect: Rect,
}

/// The `change` discriminator of a window event.
#[derive(Clone, Copy, Debug, PartialEq, Eq, Structural)]
pub enum WindowChange {
    New,
    Close,
    Focus,
    Title,
    FullscreenMode,
    Move,
    Floating,
    Urgent,
    Mark,
}

/// One window event.
#[derive(Clone, Debug)]
pub struct WindowEvent {
    pub change: WindowChange,
    pub container: Container,
}

/// A typed event from a subscribed stream.  Only window events are mapped.
#[derive(Clone, Debug)]
pub enum Event {
    Window(Box<WindowEvent>),
}

} // verus!
