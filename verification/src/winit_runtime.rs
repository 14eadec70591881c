//! Windows and their subscribers, as an event loop drives them.
//!
//! The native windows and the subscribers are opaque here: the registry decides which window a
//! command reaches, what is done to it, who is told of an event, and when the loop ends.
use vstd::prelude::*;
use vstd::std_specs::hash::*;
use std::collections::HashMap;
use crate::controller::PhysicalSize;
use crate::text::joined;

verus! {

broadcast use vstd::std_specs::hash::group_hash_axioms;

/// `raw_window_handle::RawWindowHandle`, a native window handle; carried, never looked into.
#[verifier::external_type_specification]
#[verifier::external_body]
pub struct ExRawWindowHandle(raw_window_handle::RawWindowHandle);

/// `raw_window_handle::RawDisplayHandle`, a native display handle; carried, never looked into.
#[verifier::external_type_specification]
#[verifier::external_body]
pub struct ExRawDisplayHandle(raw_window_handle::RawDisplayHandle);

/// The native handles of a surface.
#[derive(Debug, Clone, Copy)]
pub struct NativeSurfaceHandles {
    pub window: raw_window_handle::RawWindowHandle,
    pub display: Option<raw_window_handle::RawDisplayHandle>,
}

/// Identifies a window.
pub type WindowId = u64;

/// Errors of the runtime.
#[derive(Debug, Clone, PartialEq, Eq)]
pub enum WinitRuntimeError {
    UnknownWindow(WindowId),
    NotInitialized(&'static str),
    Backend(&'static str),
}

impl WinitRuntimeError {
    /// The message text of an error; `shown` is how the window's id is printed.
    pub open spec fn message(self, shown: Seq<char>) -> Seq<char> {
        match self {
            WinitRuntimeError::UnknownWindow(_) => "unknown window: "@ + shown,
            WinitRuntimeError::NotInitialized(w) => "not initialized: "@ + w@,
            WinitRuntimeError::Backend(m) => "backend error: "@ + m@,
        }
    }

    /// Writes the message text; `shown` is how the window's id is printed.
    pub fn to_text(&self, shown: &str) -> (s: String)
        ensures
            s@ == self.message(shown@),
    {
        match self {
            WinitRuntimeError::UnknownWindow(_) => joined("unknown window: ", shown),
            WinitRuntimeError::NotInitialized(w) => joined("not initialized: ", w),
            WinitRuntimeError::Backend(m) => joined("backend error: ", m),
        }
    }
}

/// Commands to a window; `I` is a cursor icon.
#[derive(Debug, Clone)]
pub enum InternalCommand<I> {
    RequestRedraw(WindowId),
    SetTitle(WindowId, String),
    SetCursorIcon(WindowId, I),
    SetCursorVisible(WindowId, bool),
    SetCursorGrab(WindowId, bool),
    CloseWindow(WindowId),
}

/// A window, by its id.
#[derive(Debug, Clone, Copy, PartialEq, Eq, Hash, Structural)]
pub struct WinitWindowHandle {
    pub id: WindowId,
}

impl WinitWindowHandle {
    /// The handle of a window.
    pub fn new(id: WindowId) -> (h: Self)
        ensures
            h.id == id,
    {
        WinitWindowHandle { id }
    }

    /// The id of the window.
    pub fn id(&self) -> (i: WindowId)
        ensures
            i == self.id,
    {
        self.id
    }

    /// The command to draw the window again.
    pub fn request_redraw<I>(&self) -> (c: InternalCommand<I>)
        ensures
            c == InternalCommand::<I>::RequestRedraw(self.id),
    {
        InternalCommand::RequestRedraw(self.id)
    }

    /// The command to change the title.
    pub fn set_title<I>(&self, title: &str) -> (c: InternalCommand<I>)
        ensures
            c is SetTitle,
            c->SetTitle_0 == self.id,
            c->SetTitle_1@ == title@,
    {
        InternalCommand::SetTitle(self.id, title.to_owned())
    }

    /// The command to change the cursor icon.
    pub fn set_cursor_icon<I>(&self, icon: I) -> (c: InternalCommand<I>)
        ensures
            c == InternalCommand::SetCursorIcon(self.id, icon),
    {
        InternalCommand::SetCursorIcon(self.id, icon)
    }

    /// The command to show or hide the cursor.
    pub fn set_cursor_visible<I>(&self, visible: bool) -> (c: InternalCommand<I>)
        ensures
            c == InternalCommand::<I>::SetCursorVisible(self.id, visible),
    {
        InternalCommand::SetCursorVisible(self.id, visible)
    }

    /// The command to grab or release the cursor.
    pub fn set_cursor_grab<I>(&self, grab: bool) -> (c: InternalCommand<I>)
        ensures
            c == InternalCommand::<I>::SetCursorGrab(self.id, grab),
    {
        InternalCommand::SetCursorGrab(self.id, grab)
    }

    /// The command to close the window.
    pub fn close<I>(&self) -> (c: InternalCommand<I>)
        ensures
            c == InternalCommand::<I>::CloseWindow(self.id),
    {
        InternalCommand::CloseWindow(self.id)
    }
}

/// The host of a web view in a window.
#[derive(Debug)]
pub struct VersoWebviewHost {
    pub window: WinitWindowHandle,
}

impl VersoWebviewHost {
    /// A host for a window.
    pub fn new(window: WinitWindowHandle) -> (h: Self)
        ensures
            h.window == window,
    {
        VersoWebviewHost { window }
    }

    /// The window of the host.
    pub fn window(&self) -> (w: WinitWindowHandle)
        ensures
            w == self.window,
    {
        self.window
    }

    /// Takes the surface of the window.
    pub fn bind_native_surface(&mut self, handles: NativeSurfaceHandles) -> (r: Result<
        (),
        WinitRuntimeError,
    >)
        ensures
            r is Ok,
            *final(self) == *old(self),
    {
        Ok(())
    }

    /// Takes a URL.
    pub fn load(&mut self, url: &str) -> (r: Result<(), WinitRuntimeError>)
        ensures
            r is Ok,
            *final(self) == *old(self),
    {
        Ok(())
    }

    /// Takes a script.
    pub fn eval_script(&mut self, source: &str) -> (r: Result<(), WinitRuntimeError>)
        ensures
            r is Ok,
            *final(self) == *old(self),
    {
        Ok(())
    }

    /// Takes a new size.
    pub fn resize(&mut self, new_size: PhysicalSize) -> (r: Result<(), WinitRuntimeError>)
        ensures
            r is Ok,
            *final(self) == *old(self),
    {
        Ok(())
    }

    /// Draws.
    pub fn draw(&mut self) -> (r: Result<(), WinitRuntimeError>)
        ensures
            r is Ok,
            *final(self) == *old(self),
    {
        Ok(())
    }
}

/// How the cursor is held.
#[derive(Debug, Clone, Copy, PartialEq, Eq, Structural)]
pub enum GrabMode {
    Free,
    Confined,
}

/// What is to be done to a native window.
#[derive(Debug, Clone)]
pub enum WindowAction<I> {
    RequestRedraw,
    SetTitle(String),
    SetCursorIcon(I),
    SetCursorVisible(bool),
    SetCursorGrab(GrabMode),
}

/// What a command comes to.
pub enum Effect<W, I> {
    /// The window is not there.
    Nothing,
    /// Act on the window.
    Act { id: WindowId, action: WindowAction<I> },
    /// The window left the registry and is to be hidden; `exit` ends the loop.
    Removed { window: Option<W>, exit: bool },
}

/// What a window event is to the runtime.
#[derive(Debug, Clone, Copy, PartialEq, Eq, Structural)]
pub enum WindowEventKind {
    CloseRequested,
    RedrawRequested,
    Other,
}

/// What follows a window event.
pub enum Reaction<W> {
    /// The window left the registry; `exit` ends the loop.
    Removed { window: Option<W>, exit: bool },
    /// Every subscriber of the window is told of the redraw and then to draw.
    Draw,
    /// Every subscriber of the window is told of the event.
    Tell,
}

/// The windows of a loop, and who subscribed to them.
pub struct WindowRegistry<W, S> {
    pub windows: HashMap<u64, W>,
    pub records: HashMap<u64, Vec<S>>,
}

/// The windows and subscribers of a registry, by window id.
pub open spec fn subscribers_of<S>(records: Map<u64, Vec<S>>) -> Map<u64, Seq<S>> {
    records.map_values(|v: Vec<S>| v@)
}

/// What a command to a window in `windows` comes to.
pub open spec fn command_effect<W, I>(
    windows: Map<u64, W>,
    cmd: InternalCommand<I>,
    e: Effect<W, I>,
) -> bool {
    match cmd {
        InternalCommand::RequestRedraw(id) => acts(windows, id, WindowAction::RequestRedraw, e),
        InternalCommand::SetTitle(id, title) => acts(
            windows,
            id,
            WindowAction::SetTitle(title),
            e,
        ),
        InternalCommand::SetCursorIcon(id, icon) => acts(
            windows,
            id,
            WindowAction::SetCursorIcon(icon),
            e,
        ),
        InternalCommand::SetCursorVisible(id, v) => acts(
            windows,
            id,
            WindowAction::SetCursorVisible(v),
            e,
        ),
        InternalCommand::SetCursorGrab(id, grab) => acts(
            windows,
            id,
            WindowAction::SetCursorGrab(
                if grab {
                    GrabMode::Confined
                } else {
                    GrabMode::Free
                },
            ),
            e,
        ),
        InternalCommand::CloseWindow(id) => e == (Effect::<W, I>::Removed {
            window: taken(windows, id),
            exit: windows.remove(id).dom() == Set::<u64>::empty(),
        }),
    }
}

/// The action is to be done to the window, if it is there.
pub open spec fn acts<W, I>(
    windows: Map<u64, W>,
    id: u64,
    action: WindowAction<I>,
    e: Effect<W, I>,
) -> bool {
    if windows.contains_key(id) {
        e == (Effect::<W, I>::Act { id, action })
    } else {
        e is Nothing
    }
}

/// The window that leaves with an id.
pub open spec fn taken<W>(windows: Map<u64, W>, id: u64) -> Option<W> {
    if windows.contains_key(id) {
        Some(windows[id])
    } else {
        None
    }
}

/// The id of a window that a command closes.
pub open spec fn closed_by<I>(cmd: InternalCommand<I>) -> Option<u64> {
    match cmd {
        InternalCommand::CloseWindow(id) => Some(id),
        _ => None,
    }
}

impl<W, S> WindowRegistry<W, S> {
    /// Subscriptions exist for the windows that are there, and for no others.
    pub open spec fn wf(&self) -> bool {
        self.windows@.dom() == self.records@.dom()
    }

    /// The subscribers by window id, in registration order.
    pub open spec fn subscribers(&self) -> Map<u64, Seq<S>> {
        subscribers_of(self.records@)
    }

    /// No windows.
    pub fn new() -> (r: Self)
        ensures
            r.wf(),
            r.windows@ == Map::<u64, W>::empty(),
            r.subscribers() == Map::<u64, Seq<S>>::empty(),
    {
        let r = WindowRegistry { windows: HashMap::new(), records: HashMap::new() };
        proof {
            assert(r.windows@.dom() =~= r.records@.dom());
            assert(r.subscribers() =~= Map::empty());
        }
        r
    }

    /// Takes a window that was created; a window that is already known keeps its subscribers.
    pub fn window_created(&mut self, id: WindowId, window: W)
        requires
            old(self).wf(),
        ensures
            final(self).wf(),
            final(self).windows@ == old(self).windows@.insert(id, window),
            final(self).subscribers() == (if old(self).subscribers().contains_key(id) {
                old(self).subscribers()
            } else {
                old(self).subscribers().insert(id, Seq::empty())
            }),
    {
        self.windows.insert(id, window);
        if !self.records.contains_key(&id) {
            let none: Vec<S> = Vec::new();
            proof {
                assert(none@ =~= Seq::empty());
            }
            self.records.insert(id, none);
            proof {
                assert(self.subscribers() =~= old(self).subscribers().insert(id, Seq::empty()));
            }
        }
        proof {
            assert(self.windows@.dom() =~= self.records@.dom());
        }
    }

    /// Registers a subscriber of a window.
    pub fn add_subscriber(&mut self, window: WinitWindowHandle, subscriber: S) -> (r: Result<
        (),
        WinitRuntimeError,
    >)
        requires
            old(self).wf(),
        ensures
            final(self).wf(),
            final(self).windows@ == old(self).windows@,
            if old(self).subscribers().contains_key(window.id) {
                r is Ok && final(self).subscribers() == old(self).subscribers().insert(
                    window.id,
                    old(self).subscribers()[window.id].push(subscriber),
                )
            } else {
                r == Err::<(), WinitRuntimeError>(WinitRuntimeError::UnknownWindow(window.id))
                    && final(self).subscribers() == old(self).subscribers()
            },
    {
        match self.records.remove(&window.id) {
            Some(list) => {
                let ghost before = list@;
                let mut list = list;
                list.push(subscriber);
                self.records.insert(window.id, list);
                proof {
                    assert(self.windows@.dom() =~= self.records@.dom());
                    assert(self.subscribers() =~= old(self).subscribers().insert(
                        window.id,
                        before.push(subscriber),
                    ));
                }
                Ok(())
            },
            None => {
                proof {
                    assert(self.records@ =~= old(self).records@);
                }
                Err(WinitRuntimeError::UnknownWindow(window.id))
            },
        }
    }

    fn drop_window(&mut self, id: WindowId) -> (r: (Option<W>, bool))
        requires
            old(self).wf(),
        ensures
            final(self).wf(),
            final(self).windows@ == old(self).windows@.remove(id),
            final(self).subscribers() == old(self).subscribers().remove(id),
            r.0 == taken(old(self).windows@, id),
            r.1 == (old(self).windows@.remove(id).dom() == Set::<u64>::empty()),
    {
        let window = self.windows.remove(&id);
        let _ = self.records.remove(&id);
        let left: usize = self.windows.len();
        proof {
            assert(self.windows@.dom() =~= self.records@.dom());
            assert(self.subscribers() =~= old(self).subscribers().remove(id));
            if left == 0 {
                assert(self.windows@.dom() =~= Set::<u64>::empty());
            }
        }
        (window, left == 0)
    }

    /// Carries out a command as far as the registry goes.
    pub fn handle_internal_command<I>(&mut self, cmd: InternalCommand<I>) -> (e: Effect<W, I>)
        requires
            old(self).wf(),
        ensures
            final(self).wf(),
            command_effect(old(self).windows@, cmd, e),
            final(self).windows@ == (match closed_by(cmd) {
                Some(id) => old(self).windows@.remove(id),
                None => old(self).windows@,
            }),
            final(self).subscribers() == (match closed_by(cmd) {
                Some(id) => old(self).subscribers().remove(id),
                None => old(self).subscribers(),
            }),
    {
        match cmd {
            InternalCommand::RequestRedraw(id) => {
                if self.windows.contains_key(&id) {
                    Effect::Act { id, action: WindowAction::RequestRedraw }
                } else {
                    Effect::Nothing
                }
            },
            InternalCommand::SetTitle(id, title) => {
                if self.windows.contains_key(&id) {
                    Effect::Act { id, action: WindowAction::SetTitle(title) }
                } else {
                    Effect::Nothing
                }
            },
            InternalCommand::SetCursorIcon(id, icon) => {
                if self.windows.contains_key(&id) {
                    Effect::Act { id, action: WindowAction::SetCursorIcon(icon) }
                } else {
                    Effect::Nothing
                }
            },
            InternalCommand::SetCursorVisible(id, visible) => {
                if self.windows.contains_key(&id) {
                    Effect::Act { id, action: WindowAction::SetCursorVisible(visible) }
                } else {
                    Effect::Nothing
                }
            },
            InternalCommand::SetCursorGrab(id, grab) => {
                if self.windows.contains_key(&id) {
                    let mode = if grab {
                        GrabMode::Confined
                    } else {
                        GrabMode::Free
                    };
                    Effect::Act { id, action: WindowAction::SetCursorGrab(mode) }
                } else {
                    Effect::Nothing
                }
            },
            InternalCommand::CloseWindow(id) => {
                let (window, exit) = self.drop_window(id);
                Effect::Removed { window, exit }
            },
        }
    }

    /// Reacts to an event of a window: closing takes the window out, and the loop ends with the
    /// last one.
    pub fn window_event(&mut self, id: WindowId, kind: WindowEventKind) -> (r: Reaction<W>)
        requires
            old(self).wf(),
        ensures
            final(self).wf(),
            match kind {
                WindowEventKind::CloseRequested => {
                    &&& r == (Reaction::<W>::Removed {
                        window: taken(old(self).windows@, id),
                        exit: old(self).windows@.remove(id).dom() == Set::<u64>::empty(),
                    })
                    &&& final(self).windows@ == old(self).windows@.remove(id)
                    &&& final(self).subscribers() == old(self).subscribers().remove(id)
                },
                WindowEventKind::RedrawRequested => r is Draw && *final(self) == *old(self),
                WindowEventKind::Other => r is Tell && *final(self) == *old(self),
            },
    {
        match kind {
            WindowEventKind::CloseRequested => {
                let (window, exit) = self.drop_window(id);
                Reaction::Removed { window, exit }
            },
            WindowEventKind::RedrawRequested => Reaction::Draw,
            WindowEventKind::Other => Reaction::Tell,
        }
    }

    /// The subscribers of a window, in registration order.
    pub fn window_subscribers(&self, window: WinitWindowHandle) -> (r: Result<
        &Vec<S>,
        WinitRuntimeError,
    >)
        ensures
            if self.subscribers().contains_key(window.id) {
                r is Ok && r->Ok_0@ == self.subscribers()[window.id]
            } else {
                r is Err && r->Err_0 == WinitRuntimeError::UnknownWindow(window.id)
            },
    {
        match self.records.get(&window.id) {
            Some(list) => Ok(list),
            None => Err(WinitRuntimeError::UnknownWindow(window.id)),
        }
    }
}

/// What posting to a loop comes to: the loop has to run, and has to take the event.
pub fn post_outcome(running: bool, taken: bool, user_event: bool) -> (r: Result<
    (),
    WinitRuntimeError,
>)
    ensures
        !running ==> r is Err && r->Err_0 is NotInitialized && r->Err_0->NotInitialized_0@
            == "event loop proxy not available"@,
        running && taken ==> r is Ok,
        running && !taken ==> r is Err && r->Err_0 is Backend && r->Err_0->Backend_0@ == (
        if user_event {
            "failed to post user event"@
        } else {
            "failed to post event"@
        }),
{
    if !running {
        return Err(WinitRuntimeError::NotInitialized("event loop proxy not available"));
    }
    if taken {
        Ok(())
    } else if user_event {
        Err(WinitRuntimeError::Backend("failed to post user event"))
    } else {
        Err(WinitRuntimeError::Backend("failed to post event"))
    }
}

/// The loop ends exactly when the last window is closed.
pub proof fn loop_ends_with_last_window<W>(windows: Map<u64, W>, id: u64)
    requires
        windows.contains_key(id),
    ensures
        (windows.remove(id).dom() == Set::<u64>::empty()) <==> windows.dom() == set![id],
{
    if windows.remove(id).dom() == Set::<u64>::empty() {
        assert forall|k: u64| windows.dom().contains(k) implies k == id by {
            if k != id {
                assert(windows.remove(id).dom().contains(k));
            }
        }
        assert(windows.dom() =~= set![id]);
    }
    if windows.dom() == set![id] {
        assert(windows.remove(id).dom() =~= Set::<u64>::empty());
    }
}

/// A mouse button of the windowing system.
#[derive(Debug, Clone, Copy, PartialEq, Eq, Structural)]
pub enum HostMouseButton {
    Left,
    Right,
    Middle,
    Back,
    Forward,
    Other(u16),
}

/// The code of a mouse button: the named buttons are numbered from 1, all others lie from 10 to
/// 254.
pub open spec fn button_code(b: HostMouseButton) -> u8 {
    match b {
        HostMouseButton::Left => 1,
        HostMouseButton::Right => 2,
        HostMouseButton::Middle => 3,
        HostMouseButton::Back => 4,
        HostMouseButton::Forward => 5,
        HostMouseButton::Other(x) => (10 + x % 245) as u8,
    }
}

/// Codes a mouse button.
pub fn map_winit_mouse_button(button: HostMouseButton) -> (c: u8)
    ensures
        c == button_code(button),
{
    match button {
        HostMouseButton::Left => 1,
        HostMouseButton::Right => 2,
        HostMouseButton::Middle => 3,
        HostMouseButton::Back => 4,
        HostMouseButton::Forward => 5,
        HostMouseButton::Other(x) => 10 + (x % 245) as u8,
    }
}

/// No unnamed button shares its code with a named one, and the code of a named button is its own.
pub proof fn named_buttons_keep_their_codes(a: HostMouseButton, b: HostMouseButton)
    requires
        !(a is Other),
        button_code(a) == button_code(b),
    ensures
        a == b,
{
}

/// The named keys that are told apart.
#[derive(Debug, Clone, Copy, PartialEq, Eq, Structural)]
pub enum NamedKey {
    Enter,
    Tab,
    Space,
    ArrowUp,
    ArrowDown,
    ArrowLeft,
    ArrowRight,
    Escape,
    Backspace,
    Delete,
    Insert,
    Home,
    End,
    PageUp,
    PageDown,
    F1,
    F2,
    F3,
    F4,
    F5,
    F6,
    F7,
    F8,
    F9,
    F10,
    F11,
    F12,
    Other,
}

/// A key of the windowing system.
#[derive(Debug, Clone, Copy, PartialEq, Eq, Structural)]
pub enum Key {
    /// Text; it arrives as characters.
    Character,
    Named(NamedKey),
    Dead,
    Unidentified,
}

/// The name of a named key.
pub open spec fn key_name(k: NamedKey) -> Seq<char> {
    match k {
        NamedKey::Enter => "Enter"@,
        NamedKey::Tab => "Tab"@,
        NamedKey::Space => "Space"@,
        NamedKey::ArrowUp => "ArrowUp"@,
        NamedKey::ArrowDown => "ArrowDown"@,
        NamedKey::ArrowLeft => "ArrowLeft"@,
        NamedKey::ArrowRight => "ArrowRight"@,
        NamedKey::Escape => "Escape"@,
        NamedKey::Backspace => "Backspace"@,
        NamedKey::Delete => "Delete"@,
        NamedKey::Insert => "Insert"@,
        NamedKey::Home => "Home"@,
        NamedKey::End => "End"@,
        NamedKey::PageUp => "PageUp"@,
        NamedKey::PageDown => "PageDown"@,
        NamedKey::F1 => "F1"@,
        NamedKey::F2 => "F2"@,
        NamedKey::F3 => "F3"@,
        NamedKey::F4 => "F4"@,
        NamedKey::F5 => "F5"@,
        NamedKey::F6 => "F6"@,
        NamedKey::F7 => "F7"@,
        NamedKey::F8 => "F8"@,
        NamedKey::F9 => "F9"@,
        NamedKey::F10 => "F10"@,
        NamedKey::F11 => "F11"@,
        NamedKey::F12 => "F12"@,
        NamedKey::Other => "Unmapped"@,
    }
}

/// Names a key; text has no key name.
pub fn map_winit_key(key: &Key) -> (r: Option<&'static str>)
    ensures
        match *key {
            Key::Character => r is None,
            Key::Named(n) => r is Some && r->0@ == key_name(n),
            Key::Dead => r is Some && r->0@ == "Dead"@,
            Key::Unidentified => r is Some && r->0@ == "Unidentified"@,
        },
{
    match key {
        Key::Character => None,
        Key::Named(n) => {
            let s: &'static str = match n {
                NamedKey::Enter => "Enter",
                NamedKey::Tab => "Tab",
                NamedKey::Space => "Space",
                NamedKey::ArrowUp => "ArrowUp",
                NamedKey::ArrowDown => "ArrowDown",
                NamedKey::ArrowLeft => "ArrowLeft",
                NamedKey::ArrowRight => "ArrowRight",
                NamedKey::Escape => "Escape",
                NamedKey::Backspace => "Backspace",
                NamedKey::Delete => "Delete",
                NamedKey::Insert => "Insert",
                NamedKey::Home => "Home",
                NamedKey::End => "End",
                NamedKey::PageUp => "PageUp",
                NamedKey::PageDown => "PageDown",
                NamedKey::F1 => "F1",
                NamedKey::F2 => "F2",
                NamedKey::F3 => "F3",
                NamedKey::F4 => "F4",
                NamedKey::F5 => "F5",
                NamedKey::F6 => "F6",
                NamedKey::F7 => "F7",
                NamedKey::F8 => "F8",
                NamedKey::F9 => "F9",
                NamedKey::F10 => "F10",
                NamedKey::F11 => "F11",
                NamedKey::F12 => "F12",
                NamedKey::Other => "Unmapped",
            };
            Some(s)
        },
        Key::Dead => Some("Dead"),
        Key::Unidentified => Some("Unidentified"),
    }
}

} // verus!
