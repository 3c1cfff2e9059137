use vstd::prelude::*;

use super::coord::Coord;
use super::error::DisplayError;
use super::event::EventState;
use super::key::KeyFlags;
use super::mouse::{MouseStatus, WheelAxis};
use crate::api::registration::Token;
use crate::api::utilities::VirtualKey;

verus! {

/// An opaque handle to a window of the host.
#[derive(Clone, Copy, Debug, PartialEq, Eq, Structural)]
pub struct WindowId(usize);

impl View for WindowId {
    type V = usize;

    /// The handle as the host knows it.
    closed spec fn view(&self) -> usize {
        self.0
    }
}

impl TryFrom<usize> for WindowId {
    type Error = DisplayError;

    /// Wraps what the host answered. The null handle stands for "no window".
    fn try_from(value: usize) -> (r: Result<Self, DisplayError>)
        ensures
            r is Err <==> value == 0,
            r matches Ok(id) ==> id@ == value,
            r matches Err(e) ==> e == DisplayError::InvalidWindowId,
    {
        if value == 0 {
            Err(DisplayError::InvalidWindowId)
        } else {
            Ok(WindowId(value))
        }
    }
}

impl vstd::std_specs::convert::TryFromSpecImpl<usize> for WindowId {
    open spec fn obeys_try_from_spec() -> bool {
        true
    }

    closed spec fn try_from_spec(value: usize) -> Result<Self, DisplayError> {
        if value == 0 {
            Err(DisplayError::InvalidWindowId)
        } else {
            Ok(WindowId(value))
        }
    }
}

impl WindowId {
    #[verifier::type_invariant]
    spec fn valid(self) -> bool {
        self.0 != 0
    }

    /// The handle as the host knows it.
    pub fn native(&self) -> (raw: usize)
        ensures
            raw == self@,
            raw != 0,
    {
        proof {
            use_type_invariant(self);
        }
        self.0
    }

    /// Two handles of the same raw value are the same handle.
    pub proof fn lemma_identity(self, other: Self)
        ensures
            self@ == other@ <==> self == other,
    {
    }
}

/// What a plugin does with the events of a window.
pub trait WindowHandler: 'static {
    /// The window is to be drawn.
    fn draw(&mut self, id: &WindowId);

    /// A mouse button went down, was dragged or came up in the window.
    fn mouse_click(&mut self, id: &WindowId, coord: Coord, status: MouseStatus) -> EventState;

    /// A key was pressed or let go, or the window lost the keyboard.
    fn handle_key(&mut self, id: &WindowId, key: char, virtual_key: VirtualKey, flags: KeyFlags);

    /// The mouse is over the window.
    fn handle_cursor(&mut self, id: &WindowId, coord: Coord);

    /// A mouse wheel was turned over the window.
    fn handle_mouse_wheel(
        &mut self,
        id: &WindowId,
        coord: Coord,
        wheel_axis: WheelAxis,
        clicks: i32,
    ) -> EventState;
}

impl WindowHandler for Box<dyn WindowHandler> {
    fn draw(&mut self, id: &WindowId) {
        (**self).draw(id);
    }

    fn mouse_click(&mut self, id: &WindowId, coord: Coord, status: MouseStatus) -> EventState {
        (**self).mouse_click(id, coord, status)
    }

    fn handle_key(&mut self, id: &WindowId, key: char, virtual_key: VirtualKey, flags: KeyFlags) {
        (**self).handle_key(id, key, virtual_key, flags);
    }

    fn handle_cursor(&mut self, id: &WindowId, coord: Coord) {
        (**self).handle_cursor(id, coord);
    }

    fn handle_mouse_wheel(
        &mut self,
        id: &WindowId,
        coord: Coord,
        wheel_axis: WheelAxis,
        clicks: i32,
    ) -> EventState {
        (**self).handle_mouse_wheel(id, coord, wheel_axis, clicks)
    }
}

/// The handler of a window, as it stands in the registry.
pub struct WindowLink<H: WindowHandler> {
    /// The handler.
    pub handler: H,
}

impl<H: WindowHandler> WindowLink<H> {
    /// The link to a handler.
    pub fn new(handler: H) -> (r: Self)
        ensures
            r == (WindowLink { handler }),
    {
        WindowLink { handler }
    }
}

/// A window that the plugin created: what is needed to destroy it. The
/// handler itself stands in the registry, under the token.
#[derive(Debug)]
pub struct WindowHandlerRecord {
    id: WindowId,
    token: Token,
}

impl WindowHandlerRecord {
    /// The window.
    pub closed spec fn id(self) -> WindowId {
        self.id
    }

    /// The token that the host was given.
    pub closed spec fn token(self) -> Token {
        self.token
    }

    /// Notes a window and the token of its handler.
    pub fn new(id: WindowId, token: Token) -> (r: Self)
        ensures
            r.id() == id,
            r.token() == token,
    {
        WindowHandlerRecord { id, token }
    }

    /// The window.
    pub fn id_of(&self) -> (r: WindowId)
        ensures
            r == self.id(),
    {
        self.id
    }

    /// The token that the host was given.
    pub fn token_of(&self) -> (r: Token)
        ensures
            r == self.token(),
    {
        self.token
    }
}

/// A window that the plugin created.
pub type Window = WindowHandlerRecord;

/// How the host places a window.
#[derive(Clone, Copy, Debug, PartialEq, Eq, Structural)]
pub enum WindowPositioningMode {
    /// The window goes where its geometry, its gravity and the user put it.
    Free,
    /// The window is kept at the center of a monitor.
    CenterOnMonitor,
    /// The window fills a monitor.
    FullScreenOnMonitor,
    /// The window fills all monitors.
    FullScreenOnAllMonitors,
    /// The window is a window of the operating system.
    WindowPopOut,
    /// The window floats in virtual reality.
    WindowVR,
}

impl WindowPositioningMode {
    /// The code by which the host names the mode.
    pub open spec fn code(self) -> i32 {
        match self {
            WindowPositioningMode::Free => 0,
            WindowPositioningMode::CenterOnMonitor => 1,
            WindowPositioningMode::FullScreenOnMonitor => 2,
            WindowPositioningMode::FullScreenOnAllMonitors => 3,
            WindowPositioningMode::WindowPopOut => 4,
            WindowPositioningMode::WindowVR => 5,
        }
    }
}

impl From<WindowPositioningMode> for i32 {
    fn from(value: WindowPositioningMode) -> (r: i32) {
        match value {
            WindowPositioningMode::Free => 0,
            WindowPositioningMode::CenterOnMonitor => 1,
            WindowPositioningMode::FullScreenOnMonitor => 2,
            WindowPositioningMode::FullScreenOnAllMonitors => 3,
            WindowPositioningMode::WindowPopOut => 4,
            WindowPositioningMode::WindowVR => 5,
        }
    }
}

impl vstd::std_specs::convert::FromSpecImpl<WindowPositioningMode> for i32 {
    open spec fn obeys_from_spec() -> bool {
        true
    }

    open spec fn from_spec(value: WindowPositioningMode) -> i32 {
        value.code()
    }
}

} // verus!
