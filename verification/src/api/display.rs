pub mod color;
pub mod coord;
pub mod error;
pub mod event;
pub mod gravity;
pub mod key;
pub mod mouse;
pub mod rect;
pub mod size;
pub mod window;

use vstd::prelude::*;
use vstd::string::StringSliceAdditionalSpecFns;

pub use self::color::Color;
pub use self::coord::Coord;
pub use self::error::DisplayError;
pub use self::event::EventState;
pub use self::gravity::WindowGravityRect;
pub use self::key::{KeyFlag, KeyFlags};
pub use self::mouse::{MouseStatus, WheelAxis};
pub use self::rect::Rect;
pub use self::size::Size;
pub use self::window::{
    Window, WindowHandler, WindowHandlerRecord, WindowId, WindowLink, WindowPositioningMode,
};

use crate::api::registration::{
    at_rest, inserted, led, lemma_call_ends, registered, released, resting, Call, Registry,
    Teardown, Token,
};
use crate::api::utilities::{UtilitiesError, VirtualKey};
use crate::ffi::{byte, byte_of, c_str_len, c_string, nul_free, NulError, Single};

verus! {

/// What the functions of this interface give back.
pub type Result<T> = std::result::Result<T, DisplayError>;

/// A call into the host's display interface: which function, and what is
/// handed to it. Handles stand as the host knows them, and text as C strings.
#[derive(Clone, Debug, PartialEq, Eq)]
#[allow(inconsistent_fields)]
pub enum DisplayCall {
    /// Creates a window with the five window trampolines and a token.
    CreateWindowEx {
        left: i32,
        top: i32,
        right: i32,
        bottom: i32,
        visible: i32,
        decorate_as_floating_window: i32,
        layer: i32,
        token: usize,
    },
    /// Destroys a window.
    DestroyWindow { window: usize },
    /// Asks for the size of the main window.
    GetScreenSize,
    /// Asks for the bounds of the whole desktop.
    GetScreenBoundsGlobal,
    /// Asks where the mouse is on the desktop.
    GetMouseLocationGlobal,
    /// Asks for the place and size of a window.
    GetWindowGeometry { window: usize },
    /// Sets the place and size of a window.
    SetWindowGeometry { window: usize, left: i32, top: i32, right: i32, bottom: i32 },
    /// Asks for the place and size of a popped out window.
    GetWindowGeometryOS { window: usize },
    /// Sets the place and size of a popped out window.
    SetWindowGeometryOS { window: usize, left: i32, top: i32, right: i32, bottom: i32 },
    /// Asks whether a window is visible.
    GetWindowIsVisible { window: usize },
    /// Shows or hides a window.
    SetWindowIsVisible { window: usize, visible: i32 },
    /// Asks whether a window is popped out.
    WindowIsPoppedOut { window: usize },
    /// Sets how the edges of a window follow the screen.
    SetWindowGravity { window: usize, left: Single, top: Single, right: Single, bottom: Single },
    /// Sets the least and the greatest size of a window.
    SetWindowResizingLimits {
        window: usize,
        min_width: i32,
        min_height: i32,
        max_width: i32,
        max_height: i32,
    },
    /// Sets how the host places a window.
    SetWindowPositioningMode { window: usize, mode: i32, monitor: i32 },
    /// Sets the title of a window.
    SetWindowTitle { window: usize, title: Vec<u8> },
    /// Gives the keyboard to a window; to the host itself for the null
    /// window.
    TakeKeyboardFocus { window: usize },
    /// Asks whether a window has the keyboard.
    HasKeyboardFocus { window: usize },
    /// Brings a window to the front of its layer.
    BringWindowToFront { window: usize },
    /// Asks whether a window is in front.
    IsWindowInFront { window: usize },
}

/// The layer of floating windows.
pub const WINDOW_LAYER_FLOATING_WINDOWS: i32 = 1;

/// The cursor that the host shows when a handler does not choose one.
pub const CURSOR_DEFAULT: i32 = 0;

/// The answer of a trampoline to the host, and the fault that is to be
/// logged if the event could not be read.
#[derive(Clone, Copy, Debug, PartialEq, Eq, Structural)]
pub struct Answer<E> {
    /// What the host is told.
    pub value: i32,
    /// Why the event did not reach the handler.
    pub fault: Option<E>,
}

/// Registers the handler of a new window and gives its token together with
/// the call that creates the window: hidden, undecorated, in the layer of
/// floating windows. [`window_created`] reads the answer.
pub fn create_window_ex<H: WindowHandler>(
    registry: &mut Registry<WindowLink<H>>,
    rect: &Rect,
    handler: H,
) -> (r: (Token, DisplayCall))
    ensures
        final(registry)@ == inserted(old(registry)@, (WindowLink { handler })),
        r.0@ == old(registry)@.len() + 1,
        r.1 == (DisplayCall::CreateWindowEx {
            left: rect.left,
            top: rect.top,
            right: rect.right,
            bottom: rect.bottom,
            visible: 0,
            decorate_as_floating_window: 0,
            layer: WINDOW_LAYER_FLOATING_WINDOWS,
            token: r.0@,
        }),
{
    let token = registry.insert(WindowLink::new(handler));
    let call = DisplayCall::CreateWindowEx {
        left: rect.left,
        top: rect.top,
        right: rect.right,
        bottom: rect.bottom,
        visible: 0,
        decorate_as_floating_window: 0,
        layer: WINDOW_LAYER_FLOATING_WINDOWS,
        token: token.native(),
    };
    (token, call)
}

/// Reads the host's answer to the creation of a window. If the host made
/// none, the handler is taken out of the registry again.
pub fn window_created<H: WindowHandler>(
    registry: &mut Registry<WindowLink<H>>,
    token: Token,
    answer: usize,
) -> (r: Result<WindowHandlerRecord>)
    ensures
        r is Ok <==> answer != 0,
        r matches Ok(record) ==> record.id()@ == answer && record.token() == token
            && final(registry)@ == old(registry)@,
        r matches Err(e) ==> e == DisplayError::InvalidWindowId && final(registry)@ == released(
            old(registry)@,
            token@,
        ),
{
    match WindowId::try_from(answer) {
        Ok(id) => Ok(WindowHandlerRecord::new(id, token)),
        Err(e) => {
            let _ = registry.release(token.native());
            Err(e)
        },
    }
}

/// Ends the registration of a window's handler and gives what is owed for
/// that: the call that destroys the window, and the handler to drop after
/// the call. Something is owed the first time only.
pub fn close_window<H: WindowHandler>(
    registry: &mut Registry<WindowLink<H>>,
    record: &mut WindowHandlerRecord,
) -> (r: Option<Teardown<DisplayCall, WindowLink<H>>>)
    ensures
        *final(record) == *old(record),
        final(registry)@ == released(old(registry)@, old(record).token()@),
        r is Some <==> registered(old(registry)@, old(record).token()@),
        r matches Some(owed) ==> owed.call == (DisplayCall::DestroyWindow {
            window: old(record).id()@,
        }),
        r matches Some(owed) ==> owed.item == resting(old(registry)@, old(record).token()@),
{
    let call = destroy_window(&record.id_of());
    registry.release(record.token_of().native()).owing(call)
}

/// The fault that keeps a mouse click from its handler, if there is one: a
/// mouse status that is not known comes before a null window.
pub open spec fn click_fault(window: usize, mouse: i32) -> Option<DisplayError> {
    if !(1 <= mouse <= 3) {
        Some(DisplayError::UnknownMouseStatuts(mouse))
    } else if window == 0 {
        Some(DisplayError::InvalidWindowId)
    } else {
        None
    }
}

/// What keeps a key event from its handler.
#[derive(Clone, Copy, Debug, PartialEq, Eq, Structural)]
pub enum KeyFault {
    /// The key is not known.
    Key(UtilitiesError),
    /// The window is the null window.
    Window(DisplayError),
}

/// The fault that keeps a key event from its handler, if there is one: a key
/// that is not known, one whose byte is the code of no key, comes before a
/// null window.
pub open spec fn key_fault(window: usize, virtual_key: i8) -> Option<KeyFault> {
    if forall|key: VirtualKey| #[trigger] key.code() != byte_of(virtual_key) {
        Some(KeyFault::Key(UtilitiesError::InvalidVirtualKey(virtual_key)))
    } else if window == 0 {
        Some(KeyFault::Window(DisplayError::InvalidWindowId))
    } else {
        None
    }
}

/// The fault that keeps a wheel event from its handler, if there is one: an
/// axis that is not known comes before a null window.
pub open spec fn wheel_fault(window: usize, wheel: i32) -> Option<DisplayError> {
    if !(0 <= wheel <= 1) {
        Some(DisplayError::UnknownMouseWheelAxis(wheel))
    } else if window == 0 {
        Some(DisplayError::InvalidWindowId)
    } else {
        None
    }
}

/// The character that a C character of the host stands for: the one whose
/// number is the byte.
pub fn key_char(key: i8) -> (c: char)
    ensures
        c as u32 == byte_of(key),
{
    byte(key) as char
}

/// A mouse click, as the handler of a window is told of it.
#[derive(Clone, Copy, Debug, PartialEq, Eq, Structural)]
pub struct ClickEvent {
    /// The window.
    pub window: WindowId,
    /// Where the mouse is.
    pub coord: Coord,
    /// What the button did.
    pub status: MouseStatus,
}

/// A key event, as the handler of a window is told of it.
#[derive(Clone, Copy, Debug, PartialEq, Eq, Structural)]
pub struct KeyEvent {
    /// The window.
    pub window: WindowId,
    /// The character of the key.
    pub key: char,
    /// The key.
    pub virtual_key: VirtualKey,
    /// The modifiers, and whether the key went down or up.
    pub flags: KeyFlags,
}

/// A turn of a mouse wheel, as the handler of a window is told of it.
#[derive(Clone, Copy, Debug, PartialEq, Eq, Structural)]
pub struct WheelEvent {
    /// The window.
    pub window: WindowId,
    /// Where the mouse is.
    pub coord: Coord,
    /// The wheel that was turned.
    pub wheel_axis: WheelAxis,
    /// By how many clicks it was turned.
    pub clicks: i32,
}

/// Reads the host's report of a mouse click.
pub fn click_event(window: usize, x: i32, y: i32, mouse: i32) -> (r: Result<ClickEvent>)
    ensures
        match r {
            Ok(event) => {
                &&& click_fault(window, mouse) is None
                &&& event.window@ == window
                &&& event.coord == (Coord { x, y })
                &&& event.status.code() == mouse
            },
            Err(e) => click_fault(window, mouse) == Some(e),
        },
{
    let status = MouseStatus::try_from(mouse)?;
    let window = WindowId::try_from(window)?;
    Ok(ClickEvent { window, coord: Coord::default().x(x).y(y), status })
}

/// Reads the host's report of a key event.
pub fn key_event(window: usize, key: i8, flags: i32, virtual_key: i8) -> (r: std::result::Result<
    KeyEvent,
    KeyFault,
>)
    ensures
        match r {
            Ok(event) => {
                &&& key_fault(window, virtual_key) is None
                &&& event.window@ == window
                &&& event.key as u32 == byte_of(key)
                &&& event.virtual_key.code() == byte_of(virtual_key)
                &&& event.flags@ == flags
            },
            Err(e) => key_fault(window, virtual_key) == Some(e),
        },
{
    let virtual_key = match VirtualKey::try_from(virtual_key) {
        Ok(virtual_key) => virtual_key,
        Err(e) => {
            return Err(KeyFault::Key(e));
        },
    };
    let window = match WindowId::try_from(window) {
        Ok(window) => window,
        Err(e) => {
            return Err(KeyFault::Window(e));
        },
    };
    Ok(KeyEvent { window, key: key_char(key), virtual_key, flags: KeyFlags::from(flags) })
}

/// Reads the host's report of a turn of a mouse wheel.
pub fn wheel_event(window: usize, x: i32, y: i32, wheel: i32, clicks: i32) -> (r: Result<
    WheelEvent,
>)
    ensures
        match r {
            Ok(event) => {
                &&& wheel_fault(window, wheel) is None
                &&& event.window@ == window
                &&& event.coord == (Coord { x, y })
                &&& event.wheel_axis.code() == wheel
                &&& event.clicks == clicks
            },
            Err(e) => wheel_fault(window, wheel) == Some(e),
        },
{
    let wheel_axis = WheelAxis::try_from(wheel)?;
    let window = WindowId::try_from(window)?;
    Ok(WheelEvent { window, coord: Coord::default().x(x).y(y), wheel_axis, clicks })
}

impl<H: WindowHandler> WindowLink<H> {
    /// Takes the host's call to draw a window: the handler is told to draw
    /// the window. The fault is to be logged.
    ///
    /// That the handler was told, and of what, is stated through its own
    /// method: the handler as it was and as it is now are the two ends of
    /// one call of it.
    pub fn draw(
        &mut self,
        window: usize,
    ) -> (fault: Option<DisplayError>)
        ensures
            fault is Some <==> window == 0,
            fault matches Some(e) ==> e == DisplayError::InvalidWindowId
                && *final(self) == *old(self),
            fault is None ==> exists|m: &mut H, id: &WindowId|
                mut_ref_current(m) == old(self).handler
                    && mut_ref_future(m) == final(self).handler
                    && id@ == window
                    && #[trigger] call_ensures(H::draw, (m, id), ()),
    {
        match WindowId::try_from(window) {
            Ok(id) => {
                self.handler.draw(&id);
                None
            },
            Err(e) => Some(e),
        }
    }

    /// Takes the host's report of a mouse click: the handler is told of the
    /// event that [`click_event`] reads, and the host of what the handler
    /// answered. An event that cannot be read goes on to others, and the
    /// fault is to be logged.
    ///
    /// That the handler was told, and of what, is stated through its own
    /// method: the handler as it was and as it is now are the two ends of
    /// one call of it.
    pub fn mouse_click(
        &mut self,
        window: usize,
        x: i32,
        y: i32,
        mouse: i32,
    ) -> (r: Answer<DisplayError>)
        ensures
            r.fault == click_fault(window, mouse),
            r.fault is Some ==> r.value == EventState::Propagate.code()
                && *final(self) == *old(self),
            r.fault is None ==> exists|
                m: &mut H,
                id: &WindowId,
                status: MouseStatus,
                state: EventState,
            |
                mut_ref_current(m) == old(self).handler
                    && mut_ref_future(m) == final(self).handler
                    && id@ == window
                    && status.code() == mouse
                    && #[trigger] call_ensures(
                        H::mouse_click,
                        (m, id, (Coord { x, y }), status),
                        state,
                    )
                    && r.value == state.code(),
    {
        match click_event(window, x, y, mouse) {
            Ok(event) => {
                let state = self.handler.mouse_click(&event.window, event.coord, event.status);
                Answer { value: i32::from(state), fault: None }
            },
            Err(e) => Answer { value: i32::from(EventState::Propagate), fault: Some(e) },
        }
    }

    /// Takes the host's report of a key event: the handler is told of the
    /// event that [`key_event`] reads. The fault is to be logged.
    ///
    /// That the handler was told, and of what, is stated through its own
    /// method: the handler as it was and as it is now are the two ends of
    /// one call of it.
    pub fn handle_key(
        &mut self,
        window: usize,
        key: i8,
        flags: i32,
        virtual_key: i8,
    ) -> (fault: Option<KeyFault>)
        ensures
            fault == key_fault(window, virtual_key),
            fault is Some ==> *final(self) == *old(self),
            fault is None ==> exists|
                m: &mut H,
                id: &WindowId,
                c: char,
                vk: VirtualKey,
                kf: KeyFlags,
            |
                mut_ref_current(m) == old(self).handler
                    && mut_ref_future(m) == final(self).handler
                    && id@ == window
                    && c as u32 == byte_of(key)
                    && vk.code() == byte_of(virtual_key)
                    && kf@ == flags
                    && #[trigger] call_ensures(H::handle_key, (m, id, c, vk, kf), ()),
    {
        match key_event(window, key, flags, virtual_key) {
            Ok(event) => {
                self.handler.handle_key(&event.window, event.key, event.virtual_key, event.flags);
                None
            },
            Err(e) => Some(e),
        }
    }

    /// Takes the host's question for the cursor over a window: the handler
    /// is told where the mouse is, and the host to show its default cursor.
    /// The fault is to be logged.
    ///
    /// That the handler was told, and of what, is stated through its own
    /// method: the handler as it was and as it is now are the two ends of
    /// one call of it.
    pub fn handle_cursor(
        &mut self,
        window: usize,
        x: i32,
        y: i32,
    ) -> (r: Answer<DisplayError>)
        ensures
            r.value == CURSOR_DEFAULT,
            r.fault is Some <==> window == 0,
            r.fault matches Some(e) ==> e == DisplayError::InvalidWindowId
                && *final(self) == *old(self),
            r.fault is None ==> exists|m: &mut H, id: &WindowId|
                mut_ref_current(m) == old(self).handler
                    && mut_ref_future(m) == final(self).handler
                    && id@ == window
                    && #[trigger] call_ensures(H::handle_cursor, (m, id, (Coord { x, y })), ()),
    {
        match WindowId::try_from(window) {
            Ok(id) => {
                let coord = Coord::default().x(x).y(y);
                self.handler.handle_cursor(&id, coord);
                Answer { value: CURSOR_DEFAULT, fault: None }
            },
            Err(e) => Answer { value: CURSOR_DEFAULT, fault: Some(e) },
        }
    }

    /// Takes the host's report of a turn of a mouse wheel: the handler is
    /// told of the event that [`wheel_event`] reads, and the host of what the
    /// handler answered. An event that cannot be read goes on to others, and
    /// the fault is to be logged.
    ///
    /// That the handler was told, and of what, is stated through its own
    /// method: the handler as it was and as it is now are the two ends of
    /// one call of it.
    pub fn handle_mouse_wheel(
        &mut self,
        window: usize,
        x: i32,
        y: i32,
        wheel: i32,
        clicks: i32,
    ) -> (r: Answer<DisplayError>)
        ensures
            r.fault == wheel_fault(window, wheel),
            r.fault is Some ==> r.value == EventState::Propagate.code()
                && *final(self) == *old(self),
            r.fault is None ==> exists|m: &mut H, id: &WindowId, axis: WheelAxis, state: EventState|
                mut_ref_current(m) == old(self).handler
                    && mut_ref_future(m) == final(self).handler
                    && id@ == window
                    && axis.code() == wheel
                    && #[trigger] call_ensures(
                        H::handle_mouse_wheel,
                        (m, id, (Coord { x, y }), axis, clicks),
                        state,
                    )
                    && r.value == state.code(),
    {
        match wheel_event(window, x, y, wheel, clicks) {
            Ok(event) => {
                let state = self.handler.handle_mouse_wheel(
                    &event.window,
                    event.coord,
                    event.wheel_axis,
                    event.clicks,
                );
                Answer { value: i32::from(state), fault: None }
            },
            Err(e) => Answer { value: i32::from(EventState::Propagate), fault: Some(e) },
        }
    }
}

impl<H: WindowHandler> Call<WindowLink<H>> {
    /// The draw trampoline between the two halves of the call: leads the
    /// host's call to the link (see [`WindowLink::draw`]), or
    /// answers for a call that is led to nothing.
    pub fn draw_window(
        &mut self,
        window: usize,
    ) -> (fault: Option<DisplayError>)
        ensures
            final(self).token() == old(self).token(),
            old(self).item() is None ==> final(self).item() is None && fault is None,
            old(self).item() matches Some(link) ==> ({
                &&& final(self).item() is Some
                &&& fault is Some <==> window == 0
                &&& fault matches Some(e) ==> e == DisplayError::InvalidWindowId
                    && final(self).item() == old(self).item()
                &&& fault is None ==> exists|m: &mut H, id: &WindowId|
                    mut_ref_current(m) == link.handler
                        && mut_ref_future(m) == final(self).item()->Some_0.handler
                        && id@ == window
                        && #[trigger] call_ensures(H::draw, (m, id), ())
            }),
    {
        match self.item_mut() {
            Some(link) => link.draw(window),
            None => None,
        }
    }

    /// The click trampoline between the two halves of the call: leads the
    /// host's call to the link (see [`WindowLink::mouse_click`]), or
    /// answers for a call that is led to nothing.
    pub fn mouse_click(
        &mut self,
        window: usize,
        x: i32,
        y: i32,
        mouse: i32,
    ) -> (r: Answer<DisplayError>)
        ensures
            final(self).token() == old(self).token(),
            old(self).item() is None ==> final(self).item() is None
                && r.value == EventState::Propagate.code() && r.fault is None,
            old(self).item() matches Some(link) ==> ({
                &&& final(self).item() is Some
                &&& r.fault == click_fault(window, mouse)
                &&& r.fault is Some ==> r.value == EventState::Propagate.code()
                    && final(self).item() == old(self).item()
                &&& r.fault is None ==> exists|
                    m: &mut H,
                    id: &WindowId,
                    status: MouseStatus,
                    state: EventState,
                |
                    mut_ref_current(m) == link.handler
                        && mut_ref_future(m) == final(self).item()->Some_0.handler
                        && id@ == window
                        && status.code() == mouse
                        && #[trigger] call_ensures(
                            H::mouse_click,
                            (m, id, (Coord { x, y }), status),
                            state,
                        )
                        && r.value == state.code()
            }),
    {
        match self.item_mut() {
            Some(link) => link.mouse_click(window, x, y, mouse),
            None => Answer { value: i32::from(EventState::Propagate), fault: None },
        }
    }

    /// The key trampoline between the two halves of the call: leads the
    /// host's call to the link (see [`WindowLink::handle_key`]), or
    /// answers for a call that is led to nothing.
    pub fn handle_key(
        &mut self,
        window: usize,
        key: i8,
        flags: i32,
        virtual_key: i8,
    ) -> (fault: Option<KeyFault>)
        ensures
            final(self).token() == old(self).token(),
            old(self).item() is None ==> final(self).item() is None && fault is None,
            old(self).item() matches Some(link) ==> ({
                &&& final(self).item() is Some
                &&& fault == key_fault(window, virtual_key)
                &&& fault is Some ==> final(self).item() == old(self).item()
                &&& fault is None ==> exists|
                    m: &mut H,
                    id: &WindowId,
                    c: char,
                    vk: VirtualKey,
                    kf: KeyFlags,
                |
                    mut_ref_current(m) == link.handler
                        && mut_ref_future(m) == final(self).item()->Some_0.handler
                        && id@ == window
                        && c as u32 == byte_of(key)
                        && vk.code() == byte_of(virtual_key)
                        && kf@ == flags
                        && #[trigger] call_ensures(H::handle_key, (m, id, c, vk, kf), ())
            }),
    {
        match self.item_mut() {
            Some(link) => link.handle_key(window, key, flags, virtual_key),
            None => None,
        }
    }

    /// The cursor trampoline between the two halves of the call: leads the
    /// host's call to the link (see [`WindowLink::handle_cursor`]), or
    /// answers for a call that is led to nothing.
    pub fn handle_cursor(
        &mut self,
        window: usize,
        x: i32,
        y: i32,
    ) -> (r: Answer<DisplayError>)
        ensures
            final(self).token() == old(self).token(),
            old(self).item() is None ==> final(self).item() is None && r.value == CURSOR_DEFAULT
                && r.fault is None,
            old(self).item() matches Some(link) ==> ({
                &&& final(self).item() is Some
                &&& r.value == CURSOR_DEFAULT
                &&& r.fault is Some <==> window == 0
                &&& r.fault matches Some(e) ==> e == DisplayError::InvalidWindowId
                    && final(self).item() == old(self).item()
                &&& r.fault is None ==> exists|m: &mut H, id: &WindowId|
                    mut_ref_current(m) == link.handler
                        && mut_ref_future(m) == final(self).item()->Some_0.handler
                        && id@ == window
                        && #[trigger] call_ensures(H::handle_cursor, (m, id, (Coord { x, y })), ())
            }),
    {
        match self.item_mut() {
            Some(link) => link.handle_cursor(window, x, y),
            None => Answer { value: CURSOR_DEFAULT, fault: None },
        }
    }

    /// The wheel trampoline between the two halves of the call: leads the
    /// host's call to the link (see [`WindowLink::handle_mouse_wheel`]), or
    /// answers for a call that is led to nothing.
    pub fn handle_mouse_wheel(
        &mut self,
        window: usize,
        x: i32,
        y: i32,
        wheel: i32,
        clicks: i32,
    ) -> (r: Answer<DisplayError>)
        ensures
            final(self).token() == old(self).token(),
            old(self).item() is None ==> final(self).item() is None
                && r.value == EventState::Propagate.code() && r.fault is None,
            old(self).item() matches Some(link) ==> ({
                &&& final(self).item() is Some
                &&& r.fault == wheel_fault(window, wheel)
                &&& r.fault is Some ==> r.value == EventState::Propagate.code()
                    && final(self).item() == old(self).item()
                &&& r.fault is None ==> exists|
                    m: &mut H,
                    id: &WindowId,
                    axis: WheelAxis,
                    state: EventState,
                |
                    mut_ref_current(m) == link.handler
                        && mut_ref_future(m) == final(self).item()->Some_0.handler
                        && id@ == window
                        && axis.code() == wheel
                        && #[trigger] call_ensures(
                            H::handle_mouse_wheel,
                            (m, id, (Coord { x, y }), axis, clicks),
                            state,
                        )
                        && r.value == state.code()
            }),
    {
        match self.item_mut() {
            Some(link) => link.handle_mouse_wheel(window, x, y, wheel, clicks),
            None => Answer { value: i32::from(EventState::Propagate), fault: None },
        }
    }
}

/// The draw trampoline: finds the link by the token that the host handed
/// back and has its handler draw the window. Under a token that names no
/// link at rest, nothing is touched. The fault is to be logged.
///
/// That the handler was told, and of what, is stated through its own
/// method: the handler as it stood in the registry and as it stands there
/// now are the two ends of one call of it.
pub fn draw_window<H: WindowHandler>(
    registry: &mut Registry<WindowLink<H>>,
    window: usize,
    token: usize,
) -> (fault: Option<DisplayError>)
    ensures
        at_rest(old(registry)@, token) ==> led(old(registry)@, final(registry)@, token),
        !at_rest(old(registry)@, token) ==> fault is None && final(registry)@ == old(registry)@,
        resting(old(registry)@, token) matches Some(link) ==> ({
            &&& fault is Some <==> window == 0
            &&& fault matches Some(e) ==> e == DisplayError::InvalidWindowId
                && final(registry)@ == old(registry)@
            &&& fault is None ==> exists|m: &mut H, id: &WindowId|
                mut_ref_current(m) == link.handler
                    && mut_ref_future(m) == resting(final(registry)@, token)->Some_0.handler
                    && id@ == window
                    && #[trigger] call_ensures(H::draw, (m, id), ())
        }),
{
    let mut call = registry.begin_call(token);
    let fault = call.draw_window(window);
    registry.end_call(call);
    proof {
        lemma_call_ends(old(registry)@, token, call);
    }
    fault
}

/// The click trampoline: finds the link by the token that the host handed
/// back, reports the click to its handler and tells the host what the
/// handler answered. Under a token that names no link at rest, the event
/// goes on to others and nothing is touched.
///
/// That the handler was told, and of what, is stated through its own
/// method: the handler as it stood in the registry and as it stands there
/// now are the two ends of one call of it.
pub fn mouse_click<H: WindowHandler>(
    registry: &mut Registry<WindowLink<H>>,
    window: usize,
    x: i32,
    y: i32,
    mouse: i32,
    token: usize,
) -> (r: Answer<DisplayError>)
    ensures
        at_rest(old(registry)@, token) ==> led(old(registry)@, final(registry)@, token),
        !at_rest(old(registry)@, token) ==> r.value == EventState::Propagate.code()
            && r.fault is None && final(registry)@ == old(registry)@,
        resting(old(registry)@, token) matches Some(link) ==> ({
            &&& r.fault == click_fault(window, mouse)
            &&& r.fault is Some ==> r.value == EventState::Propagate.code()
                && final(registry)@ == old(registry)@
            &&& r.fault is None ==> exists|
                m: &mut H,
                id: &WindowId,
                status: MouseStatus,
                state: EventState,
            |
                mut_ref_current(m) == link.handler
                    && mut_ref_future(m) == resting(final(registry)@, token)->Some_0.handler
                    && id@ == window
                    && status.code() == mouse
                    && #[trigger] call_ensures(
                        H::mouse_click,
                        (m, id, (Coord { x, y }), status),
                        state,
                    )
                    && r.value == state.code()
        }),
{
    let mut call = registry.begin_call(token);
    let r = call.mouse_click(window, x, y, mouse);
    registry.end_call(call);
    proof {
        lemma_call_ends(old(registry)@, token, call);
    }
    r
}

/// The key trampoline: finds the link by the token that the host handed back
/// and reports the key event to its handler. Under a token that names no
/// link at rest, nothing is touched. The fault is to be logged.
///
/// That the handler was told, and of what, is stated through its own
/// method: the handler as it stood in the registry and as it stands there
/// now are the two ends of one call of it.
pub fn handle_key<H: WindowHandler>(
    registry: &mut Registry<WindowLink<H>>,
    window: usize,
    key: i8,
    flags: i32,
    virtual_key: i8,
    token: usize,
) -> (fault: Option<KeyFault>)
    ensures
        at_rest(old(registry)@, token) ==> led(old(registry)@, final(registry)@, token),
        !at_rest(old(registry)@, token) ==> fault is None && final(registry)@ == old(registry)@,
        resting(old(registry)@, token) matches Some(link) ==> ({
            &&& fault == key_fault(window, virtual_key)
            &&& fault is Some ==> final(registry)@ == old(registry)@
            &&& fault is None ==> exists|
                m: &mut H,
                id: &WindowId,
                c: char,
                vk: VirtualKey,
                kf: KeyFlags,
            |
                mut_ref_current(m) == link.handler
                    && mut_ref_future(m) == resting(final(registry)@, token)->Some_0.handler
                    && id@ == window
                    && c as u32 == byte_of(key)
                    && vk.code() == byte_of(virtual_key)
                    && kf@ == flags
                    && #[trigger] call_ensures(H::handle_key, (m, id, c, vk, kf), ())
        }),
{
    let mut call = registry.begin_call(token);
    let fault = call.handle_key(window, key, flags, virtual_key);
    registry.end_call(call);
    proof {
        lemma_call_ends(old(registry)@, token, call);
    }
    fault
}

/// The cursor trampoline: finds the link by the token that the host handed
/// back and tells its handler where the mouse is. The host is told to show
/// its default cursor. Under a token that names no link at rest, nothing is
/// touched. The fault is to be logged.
///
/// That the handler was told, and of what, is stated through its own
/// method: the handler as it stood in the registry and as it stands there
/// now are the two ends of one call of it.
pub fn handle_cursor<H: WindowHandler>(
    registry: &mut Registry<WindowLink<H>>,
    window: usize,
    x: i32,
    y: i32,
    token: usize,
) -> (r: Answer<DisplayError>)
    ensures
        at_rest(old(registry)@, token) ==> led(old(registry)@, final(registry)@, token),
        !at_rest(old(registry)@, token) ==> r.value == CURSOR_DEFAULT && r.fault is None
            && final(registry)@ == old(registry)@,
        resting(old(registry)@, token) matches Some(link) ==> ({
            &&& r.value == CURSOR_DEFAULT
            &&& r.fault is Some <==> window == 0
            &&& r.fault matches Some(e) ==> e == DisplayError::InvalidWindowId
                && final(registry)@ == old(registry)@
            &&& r.fault is None ==> exists|m: &mut H, id: &WindowId|
                mut_ref_current(m) == link.handler
                    && mut_ref_future(m) == resting(final(registry)@, token)->Some_0.handler
                    && id@ == window
                    && #[trigger] call_ensures(H::handle_cursor, (m, id, (Coord { x, y })), ())
        }),
{
    let mut call = registry.begin_call(token);
    let r = call.handle_cursor(window, x, y);
    registry.end_call(call);
    proof {
        lemma_call_ends(old(registry)@, token, call);
    }
    r
}

/// The wheel trampoline: finds the link by the token that the host handed
/// back, reports the turn of the wheel to its handler and tells the host
/// what the handler answered. Under a token that names no link at rest, the
/// event goes on to others and nothing is touched.
///
/// That the handler was told, and of what, is stated through its own
/// method: the handler as it stood in the registry and as it stands there
/// now are the two ends of one call of it.
pub fn handle_mouse_wheel<H: WindowHandler>(
    registry: &mut Registry<WindowLink<H>>,
    window: usize,
    x: i32,
    y: i32,
    wheel: i32,
    clicks: i32,
    token: usize,
) -> (r: Answer<DisplayError>)
    ensures
        at_rest(old(registry)@, token) ==> led(old(registry)@, final(registry)@, token),
        !at_rest(old(registry)@, token) ==> r.value == EventState::Propagate.code()
            && r.fault is None && final(registry)@ == old(registry)@,
        resting(old(registry)@, token) matches Some(link) ==> ({
            &&& r.fault == wheel_fault(window, wheel)
            &&& r.fault is Some ==> r.value == EventState::Propagate.code()
                && final(registry)@ == old(registry)@
            &&& r.fault is None ==> exists|
                m: &mut H,
                id: &WindowId,
                axis: WheelAxis,
                state: EventState,
            |
                mut_ref_current(m) == link.handler
                    && mut_ref_future(m) == resting(final(registry)@, token)->Some_0.handler
                    && id@ == window
                    && axis.code() == wheel
                    && #[trigger] call_ensures(
                        H::handle_mouse_wheel,
                        (m, id, (Coord { x, y }), axis, clicks),
                        state,
                    )
                    && r.value == state.code()
        }),
{
    let mut call = registry.begin_call(token);
    let r = call.handle_mouse_wheel(window, x, y, wheel, clicks);
    registry.end_call(call);
    proof {
        lemma_call_ends(old(registry)@, token, call);
    }
    r
}

/// The call that destroys a window.
pub fn destroy_window(id: &WindowId) -> (call: DisplayCall)
    ensures
        call == (DisplayCall::DestroyWindow { window: id@ }),
{
    DisplayCall::DestroyWindow { window: id.native() }
}

/// The call that asks for the size of the main window. [`Size::new`] reads
/// the answer.
pub fn get_screen_size() -> (call: DisplayCall)
    ensures
        call == DisplayCall::GetScreenSize,
{
    DisplayCall::GetScreenSize
}

/// The call that asks for the bounds of the whole desktop. [`Rect::new`]
/// reads the answer.
pub fn get_screen_bounds_global() -> (call: DisplayCall)
    ensures
        call == DisplayCall::GetScreenBoundsGlobal,
{
    DisplayCall::GetScreenBoundsGlobal
}

/// The call that asks where the mouse is on the desktop. [`Coord::new`]
/// reads the answer.
pub fn get_mouse_location_global() -> (call: DisplayCall)
    ensures
        call == DisplayCall::GetMouseLocationGlobal,
{
    DisplayCall::GetMouseLocationGlobal
}

/// The call that asks for the place and size of a window. [`Rect::new`]
/// reads the answer.
pub fn get_window_geometry(id: &WindowId) -> (call: DisplayCall)
    ensures
        call == (DisplayCall::GetWindowGeometry { window: id@ }),
{
    DisplayCall::GetWindowGeometry { window: id.native() }
}

/// The call that sets the place and size of a window.
pub fn set_window_geometry(id: &WindowId, rect: &Rect) -> (call: DisplayCall)
    ensures
        call == (DisplayCall::SetWindowGeometry {
            window: id@,
            left: rect.left,
            top: rect.top,
            right: rect.right,
            bottom: rect.bottom,
        }),
{
    DisplayCall::SetWindowGeometry {
        window: id.native(),
        left: rect.left,
        top: rect.top,
        right: rect.right,
        bottom: rect.bottom,
    }
}

/// The call that asks for the place and size of a popped out window.
/// [`Rect::new`] reads the answer.
pub fn get_window_geometry_os(id: &WindowId) -> (call: DisplayCall)
    ensures
        call == (DisplayCall::GetWindowGeometryOS { window: id@ }),
{
    DisplayCall::GetWindowGeometryOS { window: id.native() }
}

/// The call that sets the place and size of a popped out window.
pub fn set_window_geometry_os(id: &WindowId, rect: &Rect) -> (call: DisplayCall)
    ensures
        call == (DisplayCall::SetWindowGeometryOS {
            window: id@,
            left: rect.left,
            top: rect.top,
            right: rect.right,
            bottom: rect.bottom,
        }),
{
    DisplayCall::SetWindowGeometryOS {
        window: id.native(),
        left: rect.left,
        top: rect.top,
        right: rect.right,
        bottom: rect.bottom,
    }
}

/// The call that asks whether a window is visible.
pub fn get_window_is_visible(id: &WindowId) -> (call: DisplayCall)
    ensures
        call == (DisplayCall::GetWindowIsVisible { window: id@ }),
{
    DisplayCall::GetWindowIsVisible { window: id.native() }
}

/// The call that shows a window.
pub fn set_window_visible(id: &WindowId) -> (call: DisplayCall)
    ensures
        call == (DisplayCall::SetWindowIsVisible { window: id@, visible: 1 }),
{
    DisplayCall::SetWindowIsVisible { window: id.native(), visible: 1 }
}

/// The call that hides a window.
pub fn set_window_hidden(id: &WindowId) -> (call: DisplayCall)
    ensures
        call == (DisplayCall::SetWindowIsVisible { window: id@, visible: 0 }),
{
    DisplayCall::SetWindowIsVisible { window: id.native(), visible: 0 }
}

/// The call that asks whether a window is popped out.
pub fn is_window_popped_out(id: &WindowId) -> (call: DisplayCall)
    ensures
        call == (DisplayCall::WindowIsPoppedOut { window: id@ }),
{
    DisplayCall::WindowIsPoppedOut { window: id.native() }
}

/// The call that sets how the edges of a window follow the screen.
pub fn set_window_gravity(id: &WindowId, rect: &WindowGravityRect) -> (call: DisplayCall)
    ensures
        call == (DisplayCall::SetWindowGravity {
            window: id@,
            left: rect.left,
            top: rect.top,
            right: rect.right,
            bottom: rect.bottom,
        }),
{
    DisplayCall::SetWindowGravity {
        window: id.native(),
        left: rect.left,
        top: rect.top,
        right: rect.right,
        bottom: rect.bottom,
    }
}

/// The call that sets the least and the greatest size of a window.
pub fn set_window_resizing_limits(id: &WindowId, min: &Size, max: &Size) -> (call: DisplayCall)
    ensures
        call == (DisplayCall::SetWindowResizingLimits {
            window: id@,
            min_width: min.width,
            min_height: min.height,
            max_width: max.width,
            max_height: max.height,
        }),
{
    DisplayCall::SetWindowResizingLimits {
        window: id.native(),
        min_width: min.width,
        min_height: min.height,
        max_width: max.width,
        max_height: max.height,
    }
}

/// The call that sets how the host places a window. A negative monitor
/// stands for the main monitor.
pub fn set_window_positioning_mode(
    id: &WindowId,
    mode: WindowPositioningMode,
    monitor: i32,
) -> (call: DisplayCall)
    ensures
        call == (DisplayCall::SetWindowPositioningMode {
            window: id@,
            mode: mode.code(),
            monitor,
        }),
{
    DisplayCall::SetWindowPositioningMode { window: id.native(), mode: i32::from(mode), monitor }
}

/// The call that sets the title of a window.
pub fn set_window_title(id: &WindowId, title: &str) -> (r: Result<DisplayCall>)
    ensures
        r is Ok <==> nul_free(title.spec_bytes()),
        r matches Ok(call) ==> call matches DisplayCall::SetWindowTitle { window, title: c_title }
            && window == id@ && c_title@ == title.spec_bytes().push(0),
        r matches Err(e) ==> e == DisplayError::InvalidWindowTitle(
            NulError { position: c_str_len(title.spec_bytes()) as usize },
        ),
{
    match c_string(title) {
        Ok(c_title) => Ok(DisplayCall::SetWindowTitle { window: id.native(), title: c_title }),
        Err(e) => Err(DisplayError::InvalidWindowTitle(e)),
    }
}

/// The call that gives the keyboard to a window.
pub fn take_keyboard_focus(id: &WindowId) -> (call: DisplayCall)
    ensures
        call == (DisplayCall::TakeKeyboardFocus { window: id@ }),
{
    DisplayCall::TakeKeyboardFocus { window: id.native() }
}

/// The call that takes the keyboard from the windows of plugins and gives it
/// to the host: the keyboard goes to the null window.
pub fn remove_keyboard_focus() -> (call: DisplayCall)
    ensures
        call == (DisplayCall::TakeKeyboardFocus { window: 0 }),
{
    DisplayCall::TakeKeyboardFocus { window: 0 }
}

/// The call that asks whether a window has the keyboard.
pub fn has_keyboard_focus(id: &WindowId) -> (call: DisplayCall)
    ensures
        call == (DisplayCall::HasKeyboardFocus { window: id@ }),
{
    DisplayCall::HasKeyboardFocus { window: id.native() }
}

/// The call that brings a window to the front of its layer.
pub fn bring_window_to_front(id: &WindowId) -> (call: DisplayCall)
    ensures
        call == (DisplayCall::BringWindowToFront { window: id@ }),
{
    DisplayCall::BringWindowToFront { window: id.native() }
}

/// The call that asks whether a window is in front.
pub fn is_window_in_front(id: &WindowId) -> (call: DisplayCall)
    ensures
        call == (DisplayCall::IsWindowInFront { window: id@ }),
{
    DisplayCall::IsWindowInFront { window: id.native() }
}

} // verus!
