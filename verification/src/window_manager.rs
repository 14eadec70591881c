//! Windows with web views: what they are asked to look like, what is told to whom, and what a
//! closed window still does.
//!
//! A window calls hooks of the application and actions of a backend.  Both are values with a
//! [`Hook`] for a function and [`NoHook`] for nothing.
use vstd::prelude::*;
use serde_json::Value;
use crate::calls::CallLog;
use crate::text::{joined, views};

verus! {

/// A size in logical pixels.
#[derive(Debug, Clone, Copy, PartialEq, Eq, Structural)]
pub struct LogicalSize {
    pub width: u32,
    pub height: u32,
}

impl LogicalSize {
    /// A size.
    pub fn new(width: u32, height: u32) -> (s: Self)
        ensures
            s.width == width,
            s.height == height,
    {
        LogicalSize { width, height }
    }
}

/// How a window is to be created.
#[derive(Debug, Clone, PartialEq, Eq)]
pub struct WindowOptions {
    pub title: String,
    pub size: Option<LogicalSize>,
    pub min_size: Option<LogicalSize>,
    pub max_size: Option<LogicalSize>,
    pub decorations: bool,
    pub always_on_top: bool,
    pub resizable: bool,
    /// Scripts to run early in the life of a page.
    pub initialization_scripts: Vec<String>,
    /// 0 asks for any free port.
    pub devtools_port: Option<u16>,
}

/// View of [`WindowOptions`].
pub struct OptionsView {
    pub title: Seq<char>,
    pub size: Option<LogicalSize>,
    pub min_size: Option<LogicalSize>,
    pub max_size: Option<LogicalSize>,
    pub decorations: bool,
    pub always_on_top: bool,
    pub resizable: bool,
    pub initialization_scripts: Seq<Seq<char>>,
    pub devtools_port: Option<u16>,
}

impl View for WindowOptions {
    type V = OptionsView;

    open spec fn view(&self) -> OptionsView {
        OptionsView {
            title: self.title@,
            size: self.size,
            min_size: self.min_size,
            max_size: self.max_size,
            decorations: self.decorations,
            always_on_top: self.always_on_top,
            resizable: self.resizable,
            initialization_scripts: views(self.initialization_scripts@),
            devtools_port: self.devtools_port,
        }
    }
}

/// The options of a window of which nothing is said.
pub open spec fn default_options() -> OptionsView {
    OptionsView {
        title: "Verso App"@,
        size: None,
        min_size: None,
        max_size: None,
        decorations: true,
        always_on_top: false,
        resizable: true,
        initialization_scripts: Seq::empty(),
        devtools_port: None,
    }
}

impl Default for WindowOptions {
    /// A decorated, resizable window.
    fn default() -> (o: Self)
        ensures
            o@ == default_options(),
    {
        let o = WindowOptions {
            title: "Verso App".to_owned(),
            size: None,
            min_size: None,
            max_size: None,
            decorations: true,
            always_on_top: false,
            resizable: true,
            initialization_scripts: Vec::new(),
            devtools_port: None,
        };
        proof {
            assert(o@.initialization_scripts =~= Seq::empty());
        }
        o
    }
}

/// A function to call.
pub struct Hook<F>(pub F);

/// Nothing to call.
pub struct NoHook;

/// Something that is told that an event took place.
pub trait Signal {
    /// Whether it can be told.
    spec fn ready(&self) -> bool;

    /// It has been told.
    spec fn told(&self) -> bool;

    /// Tells it, once.
    fn tell<A>(&self, calls: &mut CallLog<A>, entry: Ghost<A>)
        requires
            self.ready(),
        ensures
            self.told(),
            final(calls)@ == old(calls)@.push(entry@),
    ;
}

impl Signal for NoHook {
    open spec fn ready(&self) -> bool {
        true
    }

    open spec fn told(&self) -> bool {
        true
    }

    fn tell<A>(&self, calls: &mut CallLog<A>, entry: Ghost<A>) {
        calls.call_nobody(entry)
    }
}

impl<F: Fn()> Signal for Hook<F> {
    open spec fn ready(&self) -> bool {
        call_requires(self.0, ())
    }

    open spec fn told(&self) -> bool {
        call_ensures(self.0, (), ())
    }

    fn tell<A>(&self, calls: &mut CallLog<A>, entry: Ghost<A>) {
        calls.call0(&self.0, entry)
    }
}

/// Something that is told of a text.
pub trait TextSignal {
    /// Whether it can be told of the text.
    spec fn ready(&self, text: Seq<char>) -> bool;

    /// It has been told of the text.
    spec fn told(&self, text: Seq<char>) -> bool;

    /// Tells it, once.
    fn tell<A>(&self, text: &str, calls: &mut CallLog<A>, entry: Ghost<A>)
        requires
            self.ready(text@),
        ensures
            self.told(text@),
            final(calls)@ == old(calls)@.push(entry@),
    ;
}

impl TextSignal for NoHook {
    open spec fn ready(&self, text: Seq<char>) -> bool {
        true
    }

    open spec fn told(&self, text: Seq<char>) -> bool {
        true
    }

    fn tell<A>(&self, text: &str, calls: &mut CallLog<A>, entry: Ghost<A>) {
        calls.call_nobody(entry)
    }
}

impl<F: Fn(&str)> TextSignal for Hook<F> {
    open spec fn ready(&self, text: Seq<char>) -> bool {
        forall|s: &str| s@ == text ==> #[trigger] call_requires(self.0, (s,))
    }

    open spec fn told(&self, text: Seq<char>) -> bool {
        exists|s: &str| s@ == text && #[trigger] call_ensures(self.0, (s,), ())
    }

    fn tell<A>(&self, text: &str, calls: &mut CallLog<A>, entry: Ghost<A>) {
        calls.call1(&self.0, text, entry)
    }
}

/// Something that is told of a proposed window.
pub trait OptionsSignal {
    /// Whether it can be told of the proposal.
    spec fn ready(&self, proposed: &WindowOptions) -> bool;

    /// It has been told of the proposal.
    spec fn told(&self, proposed: &WindowOptions) -> bool;

    /// Tells it, once.
    fn tell<A>(&self, proposed: &WindowOptions, calls: &mut CallLog<A>, entry: Ghost<A>)
        requires
            self.ready(proposed),
        ensures
            self.told(proposed),
            final(calls)@ == old(calls)@.push(entry@),
    ;
}

impl OptionsSignal for NoHook {
    open spec fn ready(&self, proposed: &WindowOptions) -> bool {
        true
    }

    open spec fn told(&self, proposed: &WindowOptions) -> bool {
        true
    }

    fn tell<A>(&self, proposed: &WindowOptions, calls: &mut CallLog<A>, entry: Ghost<A>) {
        calls.call_nobody(entry)
    }
}

impl<F: Fn(&WindowOptions)> OptionsSignal for Hook<F> {
    open spec fn ready(&self, proposed: &WindowOptions) -> bool {
        call_requires(self.0, (proposed,))
    }

    open spec fn told(&self, proposed: &WindowOptions) -> bool {
        call_ensures(self.0, (proposed,), ())
    }

    fn tell<A>(&self, proposed: &WindowOptions, calls: &mut CallLog<A>, entry: Ghost<A>) {
        calls.call1(&self.0, proposed, entry)
    }
}

/// Something that evaluates a script.
pub trait ScriptRunner {
    /// Whether it can be asked to evaluate the script.
    spec fn ready(&self, source: Seq<char>) -> bool;

    /// It was asked to evaluate the script, and answered `r`.
    spec fn answered(&self, source: Seq<char>, r: Result<(), String>) -> bool;

    /// Asks it, once.
    fn run<A>(
        &self,
        source: &str,
        calls: &mut CallLog<A>,
        entry: Ghost<A>,
    ) -> (r: Result<(), String>)
        requires
            self.ready(source@),
        ensures
            self.answered(source@, r),
            final(calls)@ == old(calls)@.push(entry@),
    ;
}

impl ScriptRunner for NoHook {
    open spec fn ready(&self, source: Seq<char>) -> bool {
        true
    }

    open spec fn answered(&self, source: Seq<char>, r: Result<(), String>) -> bool {
        r is Ok
    }

    fn run<A>(
        &self,
        source: &str,
        calls: &mut CallLog<A>,
        entry: Ghost<A>,
    ) -> (r: Result<(), String>) {
        calls.call_nobody(entry);
        Ok(())
    }
}

impl<F: Fn(&str) -> Result<(), String>> ScriptRunner for Hook<F> {
    open spec fn ready(&self, source: Seq<char>) -> bool {
        forall|s: &str| s@ == source ==> #[trigger] call_requires(self.0, (s,))
    }

    open spec fn answered(&self, source: Seq<char>, r: Result<(), String>) -> bool {
        exists|s: &str| s@ == source && #[trigger] call_ensures(self.0, (s,), r)
    }

    fn run<A>(
        &self,
        source: &str,
        calls: &mut CallLog<A>,
        entry: Ghost<A>,
    ) -> (r: Result<(), String>) {
        calls.call1(&self.0, source, entry)
    }
}

/// Something that passes an event on to the web view.
pub trait EventSender {
    /// Whether it can be asked to pass the event on.
    spec fn ready(&self, name: Seq<char>, payload: &Value) -> bool;

    /// It was asked to pass the event on, and answered `r`.
    spec fn answered(&self, name: Seq<char>, payload: &Value, r: Result<(), String>) -> bool;

    /// Asks it, once.
    fn send<A>(
        &self,
        name: &str,
        payload: &Value,
        calls: &mut CallLog<A>,
        entry: Ghost<A>,
    ) -> (r: Result<(), String>)
        requires
            self.ready(name@, payload),
        ensures
            self.answered(name@, payload, r),
            final(calls)@ == old(calls)@.push(entry@),
    ;
}

impl EventSender for NoHook {
    open spec fn ready(&self, name: Seq<char>, payload: &Value) -> bool {
        true
    }

    open spec fn answered(&self, name: Seq<char>, payload: &Value, r: Result<(), String>) -> bool {
        r is Ok
    }

    fn send<A>(
        &self,
        name: &str,
        payload: &Value,
        calls: &mut CallLog<A>,
        entry: Ghost<A>,
    ) -> (r: Result<(), String>) {
        calls.call_nobody(entry);
        Ok(())
    }
}

impl<F: Fn(&str, &Value) -> Result<(), String>> EventSender for Hook<F> {
    open spec fn ready(&self, name: Seq<char>, payload: &Value) -> bool {
        forall|s: &str| s@ == name ==> #[trigger] call_requires(self.0, (s, payload))
    }

    open spec fn answered(&self, name: Seq<char>, payload: &Value, r: Result<(), String>) -> bool {
        exists|s: &str| s@ == name && #[trigger] call_ensures(self.0, (s, payload), r)
    }

    fn send<A>(
        &self,
        name: &str,
        payload: &Value,
        calls: &mut CallLog<A>,
        entry: Ghost<A>,
    ) -> (r: Result<(), String>) {
        calls.call2(&self.0, name, payload, entry)
    }
}

/// The hooks of an application.
pub struct EventHooks<T, N, F, C> {
    pub on_title_changed: T,
    pub on_new_window: N,
    pub on_focus: F,
    pub on_close: C,
}

/// The actions of a backend.
pub struct Backend<S, H, D, E, I> {
    pub show: S,
    pub hide: H,
    pub close: D,
    pub eval_script: E,
    pub send_ipc_event: I,
}

impl Backend<NoHook, NoHook, NoHook, NoHook, NoHook> {
    /// A backend that does nothing.
    pub fn null() -> (b: Self)
        ensures
            b.show == NoHook,
            b.hide == NoHook,
            b.close == NoHook,
            b.eval_script == NoHook,
            b.send_ipc_event == NoHook,
    {
        Backend {
            show: NoHook,
            hide: NoHook,
            close: NoHook,
            eval_script: NoHook,
            send_ipc_event: NoHook,
        }
    }
}

/// Errors of window operations.
#[derive(Debug, Clone, PartialEq, Eq)]
pub enum WindowError {
    Unsupported(&'static str),
    Failed(String),
    /// The window was closed.
    Closed,
}

impl WindowError {
    /// The message text of an error.
    pub open spec fn message(self) -> Seq<char> {
        match self {
            WindowError::Unsupported(s) => "unsupported: "@ + s@,
            WindowError::Failed(s) => "failed: "@ + s@,
            WindowError::Closed => "window is closed"@,
        }
    }

    /// Writes the message text.
    pub fn to_text(&self) -> (s: String)
        ensures
            s@ == self.message(),
    {
        match self {
            WindowError::Unsupported(m) => joined("unsupported: ", m),
            WindowError::Failed(m) => joined("failed: ", m.as_str()),
            WindowError::Closed => "window is closed".to_owned(),
        }
    }
}

/// What a refusal of the backend becomes.
pub open spec fn window_result(r: Result<(), String>) -> Result<(), WindowError> {
    match r {
        Ok(()) => Ok(()),
        Err(e) => Err(WindowError::Failed(e)),
    }
}

/// What can be asked of a window.
pub enum WindowCall {
    SetTitle(Seq<char>),
    Show,
    Hide,
    Close,
    EvalScript(Seq<char>),
    SendEvent(Seq<char>, Value),
    Focused,
    NewWindow(WindowOptions),
}

/// What a window calls: an action of its backend or a hook of the application.  What is not there
/// to be called does nothing.
pub enum WindowAction {
    TellTitle(Seq<char>),
    Show,
    Hide,
    Close,
    TellClosed,
    EvalScript(Seq<char>),
    SendEvent(Seq<char>, Value),
    TellFocus,
    TellNewWindow(WindowOptions),
}

/// What is known of a window.
pub struct WindowState {
    pub opts: OptionsView,
    pub visible: bool,
    pub closed: bool,
    pub id: u64,
}

impl WindowState {
    /// The state that follows a call.
    pub open spec fn after(self, call: WindowCall) -> WindowState {
        match call {
            WindowCall::SetTitle(title) => WindowState {
                opts: OptionsView { title, ..self.opts },
                ..self
            },
            WindowCall::Show => WindowState { visible: self.visible || !self.closed, ..self },
            WindowCall::Hide => WindowState { visible: self.visible && self.closed, ..self },
            WindowCall::Close => WindowState { closed: true, ..self },
            _ => self,
        }
    }

    /// Whether a call is refused because the window was closed.
    pub open spec fn refuses(self, call: WindowCall) -> bool {
        self.closed && (call is Show || call is Hide || call is EvalScript || call is SendEvent)
    }

    /// What a call makes the window call, in order.
    pub open spec fn due(self, call: WindowCall) -> Seq<WindowAction> {
        if self.refuses(call) {
            Seq::empty()
        } else {
            match call {
                WindowCall::SetTitle(title) => seq![WindowAction::TellTitle(title)],
                WindowCall::Show => seq![WindowAction::Show],
                WindowCall::Hide => seq![WindowAction::Hide],
                WindowCall::Close => if self.closed {
                    Seq::empty()
                } else {
                    seq![WindowAction::Close, WindowAction::TellClosed]
                },
                WindowCall::EvalScript(source) => seq![WindowAction::EvalScript(source)],
                WindowCall::SendEvent(name, payload) => seq![
                    WindowAction::SendEvent(name, payload),
                ],
                WindowCall::Focused => seq![WindowAction::TellFocus],
                WindowCall::NewWindow(proposed) => seq![WindowAction::TellNewWindow(proposed)],
            }
        }
    }

    /// The state after a list of calls.
    pub open spec fn after_all(self, calls: Seq<WindowCall>) -> WindowState
        decreases calls.len(),
    {
        if calls.len() == 0 {
            self
        } else {
            self.after_all(calls.drop_last()).after(calls.last())
        }
    }
}

/// A closed window stays closed whatever is asked of it, and keeps its visibility; showing, hiding,
/// scripts and events are refused and call nothing, and neither does closing it again.
pub proof fn closed_window_stays_closed(s: WindowState, calls: Seq<WindowCall>, call: WindowCall)
    requires
        s.closed,
    ensures
        s.after_all(calls).closed,
        s.after_all(calls).visible == s.visible,
        s.after_all(calls).id == s.id,
        s.after_all(calls).refuses(call) <==> (call is Show || call is Hide || call is EvalScript
            || call is SendEvent),
        call is Show || call is Hide || call is EvalScript || call is SendEvent || call is Close
            ==> s.after_all(calls).due(call).len() == 0 && s.after_all(calls).after(call)
            == s.after_all(calls),
    decreases calls.len(),
{
    if calls.len() > 0 {
        closed_window_stays_closed(s, calls.drop_last(), call);
    }
}

/// The first close calls the action of the backend, then the hook, keeps the options, and closes
/// the window.
pub proof fn first_close_tells_once(s: WindowState)
    requires
        !s.closed,
    ensures
        s.due(WindowCall::Close) == seq![WindowAction::Close, WindowAction::TellClosed],
        s.after(WindowCall::Close) == (WindowState { closed: true, ..s }),
        s.after(WindowCall::Close).due(WindowCall::Close) == Seq::<WindowAction>::empty(),
{
}

/// A notice that a further window is wanted calls the hook for it and no other, and changes
/// nothing.
pub proof fn new_window_notice_calls_its_hook(s: WindowState, proposed: WindowOptions)
    ensures
        s.due(WindowCall::NewWindow(proposed)) == seq![WindowAction::TellNewWindow(proposed)],
        s.after(WindowCall::NewWindow(proposed)) == s,
{
}

/// A window and its web view.
pub struct VersoWindow<K, B> {
    pub opts: WindowOptions,
    pub hooks: K,
    pub backend: B,
    pub visible: bool,
    pub closed: bool,
    pub id: u64,
    /// What the window has called.
    pub calls: CallLog<WindowAction>,
}

impl<
    T: TextSignal,
    N: OptionsSignal,
    F: Signal,
    C: Signal,
    S: Signal,
    H: Signal,
    D: Signal,
    E: ScriptRunner,
    I: EventSender,
> VersoWindow<EventHooks<T, N, F, C>, Backend<S, H, D, E, I>> {
    /// What is known of the window.
    pub open spec fn state(&self) -> WindowState {
        WindowState { opts: self.opts@, visible: self.visible, closed: self.closed, id: self.id }
    }

    /// Whether a hook or an action can be called.
    pub open spec fn able(&self, action: WindowAction) -> bool {
        match action {
            WindowAction::TellTitle(title) => self.hooks.on_title_changed.ready(title),
            WindowAction::Show => self.backend.show.ready(),
            WindowAction::Hide => self.backend.hide.ready(),
            WindowAction::Close => self.backend.close.ready(),
            WindowAction::TellClosed => self.hooks.on_close.ready(),
            WindowAction::EvalScript(source) => self.backend.eval_script.ready(source),
            WindowAction::SendEvent(name, payload) => self.backend.send_ipc_event.ready(
                name,
                &payload,
            ),
            WindowAction::TellFocus => self.hooks.on_focus.ready(),
            WindowAction::TellNewWindow(proposed) => self.hooks.on_new_window.ready(&proposed),
        }
    }

    /// All that a call makes the window call can be called.
    pub open spec fn prepared(&self, call: WindowCall) -> bool {
        forall|i: int|
            0 <= i < self.state().due(call).len() ==> self.able(
                #[trigger] self.state().due(call)[i],
            )
    }

    /// Nothing but the calls differs.
    pub open spec fn unchanged(&self, other: Self) -> bool {
        &&& self.opts == other.opts
        &&& self.same_callees(other)
        &&& self.visible == other.visible
        &&& self.closed == other.closed
        &&& self.id == other.id
    }

    /// The hooks and the backend are those of `other`.
    pub open spec fn same_callees(&self, other: Self) -> bool {
        self.hooks == other.hooks && self.backend == other.backend
    }

    /// The id of the window.
    pub fn id(&self) -> (i: u64)
        ensures
            i == self.id,
    {
        self.id
    }

    /// The options of the window.
    pub fn options(&self) -> (o: &WindowOptions)
        ensures
            *o == self.opts,
    {
        &self.opts
    }

    /// Sets the title and tells the application.
    pub fn set_title(&mut self, title: &str)
        requires
            old(self).prepared(WindowCall::SetTitle(title@)),
        ensures
            final(self).calls@ == old(self).calls@ + old(self).state().due(WindowCall::SetTitle(title@)),
            final(self).state() == old(self).state().after(WindowCall::SetTitle(title@)),
            final(self).same_callees(*old(self)),
            old(self).hooks.on_title_changed.told(title@),
    {
        proof {
            let due = self.state().due(WindowCall::SetTitle(title@));
            assert(due[0] == WindowAction::TellTitle(title@));
        }
        self.opts.title = title.to_owned();
        let entry = Ghost(WindowAction::TellTitle(title@));
        self.hooks.on_title_changed.tell(title, &mut self.calls, entry);
    }

    /// Shows the window.
    pub fn show(&mut self) -> (r: Result<(), WindowError>)
        requires
            old(self).prepared(WindowCall::Show),
        ensures
            final(self).calls@ == old(self).calls@ + old(self).state().due(WindowCall::Show),
            final(self).state() == old(self).state().after(WindowCall::Show),
            final(self).opts == old(self).opts,
            final(self).same_callees(*old(self)),
            if old(self).state().refuses(WindowCall::Show) {
                r == Err::<(), WindowError>(WindowError::Closed)
            } else {
                r is Ok && old(self).backend.show.told()
            },
    {
        if self.closed {
            return Err(WindowError::Closed);
        }
        proof {
            assert(self.state().due(WindowCall::Show)[0] == WindowAction::Show);
        }
        self.visible = true;
        self.backend.show.tell(&mut self.calls, Ghost(WindowAction::Show));
        Ok(())
    }

    /// Hides the window.
    pub fn hide_window(&mut self) -> (r: Result<(), WindowError>)
        requires
            old(self).prepared(WindowCall::Hide),
        ensures
            final(self).calls@ == old(self).calls@ + old(self).state().due(WindowCall::Hide),
            final(self).state() == old(self).state().after(WindowCall::Hide),
            final(self).opts == old(self).opts,
            final(self).same_callees(*old(self)),
            if old(self).state().refuses(WindowCall::Hide) {
                r == Err::<(), WindowError>(WindowError::Closed)
            } else {
                r is Ok && old(self).backend.hide.told()
            },
    {
        if self.closed {
            return Err(WindowError::Closed);
        }
        proof {
            assert(self.state().due(WindowCall::Hide)[0] == WindowAction::Hide);
        }
        self.visible = false;
        self.backend.hide.tell(&mut self.calls, Ghost(WindowAction::Hide));
        Ok(())
    }

    /// Closes the window, then tells the application; closing again does nothing.
    pub fn close(&mut self) -> (r: Result<(), WindowError>)
        requires
            old(self).prepared(WindowCall::Close),
        ensures
            final(self).calls@ == old(self).calls@ + old(self).state().due(WindowCall::Close),
            r is Ok,
            final(self).state() == old(self).state().after(WindowCall::Close),
            final(self).opts == old(self).opts,
            final(self).same_callees(*old(self)),
            !old(self).closed ==> old(self).backend.close.told() && old(
                self).hooks.on_close.told(),
    {
        if self.closed {
            return Ok(());
        }
        proof {
            let due = self.state().due(WindowCall::Close);
            assert(due[0] == WindowAction::Close);
            assert(due[1] == WindowAction::TellClosed);
        }
        self.closed = true;
        self.backend.close.tell(&mut self.calls, Ghost(WindowAction::Close));
        self.hooks.on_close.tell(&mut self.calls, Ghost(WindowAction::TellClosed));
        Ok(())
    }

    /// Evaluates a script in the page.
    pub fn eval_script(&mut self, source: &str) -> (r: Result<(), WindowError>)
        requires
            old(self).prepared(WindowCall::EvalScript(source@)),
        ensures
            final(self).calls@ == old(self).calls@ + old(self).state().due(WindowCall::EvalScript(source@)),
            final(self).unchanged(*old(self)),
            if old(self).state().refuses(WindowCall::EvalScript(source@)) {
                r == Err::<(), WindowError>(WindowError::Closed)
            } else {
                exists|a: Result<(), String>| #[trigger]
                    old(self).backend.eval_script.answered(source@, a) && r == window_result(a)
            },
    {
        if self.closed {
            return Err(WindowError::Closed);
        }
        proof {
            let due = self.state().due(WindowCall::EvalScript(source@));
            assert(due[0] == WindowAction::EvalScript(source@));
        }
        let entry = Ghost(WindowAction::EvalScript(source@));
        let a = self.backend.eval_script.run(source, &mut self.calls, entry);
        proof {
            assert(self.backend.eval_script.answered(source@, a));
        }
        match a {
            Ok(()) => Ok(()),
            Err(e) => Err(WindowError::Failed(e)),
        }
    }

    /// Passes an event on to the web view.
    pub fn send_ipc_event(&mut self, name: &str, payload: &Value) -> (r: Result<(), WindowError>)
        requires
            old(self).prepared(WindowCall::SendEvent(name@, *payload)),
        ensures
            final(self).calls@ == old(self).calls@ + old(self).state().due(WindowCall::SendEvent(name@, *payload)),
            final(self).unchanged(*old(self)),
            if old(self).state().refuses(WindowCall::SendEvent(name@, *payload)) {
                r == Err::<(), WindowError>(WindowError::Closed)
            } else {
                exists|a: Result<(), String>| #[trigger]
                    old(self).backend.send_ipc_event.answered(name@, payload, a) && r
                        == window_result(a)
            },
    {
        if self.closed {
            return Err(WindowError::Closed);
        }
        proof {
            let due = self.state().due(WindowCall::SendEvent(name@, *payload));
            assert(due[0] == WindowAction::SendEvent(name@, *payload));
        }
        let entry = Ghost(WindowAction::SendEvent(name@, *payload));
        let a = self.backend.send_ipc_event.send(name, payload, &mut self.calls, entry);
        proof {
            assert(self.backend.send_ipc_event.answered(name@, payload, a));
        }
        match a {
            Ok(()) => Ok(()),
            Err(e) => Err(WindowError::Failed(e)),
        }
    }

    /// Tells the application that the window has focus.
    pub fn notify_focused(&mut self)
        requires
            old(self).prepared(WindowCall::Focused),
        ensures
            final(self).calls@ == old(self).calls@ + old(self).state().due(WindowCall::Focused),
            final(self).unchanged(*old(self)),
            old(self).hooks.on_focus.told(),
    {
        proof {
            assert(self.state().due(WindowCall::Focused)[0] == WindowAction::TellFocus);
        }
        self.hooks.on_focus.tell(&mut self.calls, Ghost(WindowAction::TellFocus));
    }

    /// Tells the application that a further window is wanted.
    pub fn notify_new_window(&mut self, proposed: &WindowOptions)
        requires
            old(self).prepared(WindowCall::NewWindow(*proposed)),
        ensures
            final(self).calls@ == old(self).calls@ + old(self).state().due(WindowCall::NewWindow(*proposed)),
            final(self).unchanged(*old(self)),
            old(self).hooks.on_new_window.told(proposed),
    {
        proof {
            let due = self.state().due(WindowCall::NewWindow(*proposed));
            assert(due[0] == WindowAction::TellNewWindow(*proposed));
        }
        let entry = Ghost(WindowAction::TellNewWindow(*proposed));
        self.hooks.on_new_window.tell(proposed, &mut self.calls, entry);
    }

    /// Whether the window is shown.
    pub fn is_visible(&self) -> (b: bool)
        ensures
            b == self.visible,
    {
        self.visible
    }

    /// Whether the window was closed.
    pub fn is_closed(&self) -> (b: bool)
        ensures
            b == self.closed,
    {
        self.closed
    }
}

/// The ids that windows get: windows without a backend and windows with one are counted apart, both
/// from 1.
pub struct WindowIds {
    pub plain: u64,
    pub backed: u64,
}

impl WindowIds {
    /// No window has been built.
    pub fn new() -> (i: Self)
        ensures
            i.plain == 1,
            i.backed == 1,
    {
        WindowIds { plain: 1, backed: 1 }
    }
}

/// The id after `id`; ids wrap around.
pub open spec fn next_window_id(id: u64) -> u64 {
    if id < u64::MAX {
        (id + 1) as u64
    } else {
        0
    }
}

/// What a builder is told of the options.
pub enum OptionCall {
    Title(Seq<char>),
    Size(LogicalSize),
    MinSize(LogicalSize),
    MaxSize(LogicalSize),
    Decorations(bool),
    AlwaysOnTop(bool),
    Resizable(bool),
    /// Adds a script.
    Script(Seq<char>),
    /// Replaces the scripts.
    Scripts(Seq<Seq<char>>),
    DevtoolsPort(Option<u16>),
}

/// The options of a window.
pub enum WindowOption {
    Title,
    Size,
    MinSize,
    MaxSize,
    Decorations,
    AlwaysOnTop,
    Resizable,
    Scripts,
    DevtoolsPort,
}

/// The option that a call speaks of.
pub open spec fn option_of(call: OptionCall) -> WindowOption {
    match call {
        OptionCall::Title(_) => WindowOption::Title,
        OptionCall::Size(_) => WindowOption::Size,
        OptionCall::MinSize(_) => WindowOption::MinSize,
        OptionCall::MaxSize(_) => WindowOption::MaxSize,
        OptionCall::Decorations(_) => WindowOption::Decorations,
        OptionCall::AlwaysOnTop(_) => WindowOption::AlwaysOnTop,
        OptionCall::Resizable(_) => WindowOption::Resizable,
        OptionCall::Script(_) => WindowOption::Scripts,
        OptionCall::Scripts(_) => WindowOption::Scripts,
        OptionCall::DevtoolsPort(_) => WindowOption::DevtoolsPort,
    }
}

impl OptionsView {
    /// The options after a call.
    pub open spec fn set(self, call: OptionCall) -> OptionsView {
        match call {
            OptionCall::Title(title) => OptionsView { title, ..self },
            OptionCall::Size(size) => OptionsView { size: Some(size), ..self },
            OptionCall::MinSize(size) => OptionsView { min_size: Some(size), ..self },
            OptionCall::MaxSize(size) => OptionsView { max_size: Some(size), ..self },
            OptionCall::Decorations(decorations) => OptionsView { decorations, ..self },
            OptionCall::AlwaysOnTop(always_on_top) => OptionsView { always_on_top, ..self },
            OptionCall::Resizable(resizable) => OptionsView { resizable, ..self },
            OptionCall::Script(script) => OptionsView {
                initialization_scripts: self.initialization_scripts.push(script),
                ..self
            },
            OptionCall::Scripts(scripts) => OptionsView { initialization_scripts: scripts, ..self },
            OptionCall::DevtoolsPort(devtools_port) => OptionsView { devtools_port, ..self },
        }
    }

    /// The options after a chain of calls.
    pub open spec fn set_all(self, calls: Seq<OptionCall>) -> OptionsView
        decreases calls.len(),
    {
        if calls.len() == 0 {
            self
        } else {
            self.set_all(calls.drop_last()).set(calls.last())
        }
    }

    /// Whether an option has the same value in both.
    pub open spec fn agrees(self, other: OptionsView, option: WindowOption) -> bool {
        match option {
            WindowOption::Title => self.title == other.title,
            WindowOption::Size => self.size == other.size,
            WindowOption::MinSize => self.min_size == other.min_size,
            WindowOption::MaxSize => self.max_size == other.max_size,
            WindowOption::Decorations => self.decorations == other.decorations,
            WindowOption::AlwaysOnTop => self.always_on_top == other.always_on_top,
            WindowOption::Resizable => self.resizable == other.resizable,
            WindowOption::Scripts => self.initialization_scripts == other.initialization_scripts,
            WindowOption::DevtoolsPort => self.devtools_port == other.devtools_port,
        }
    }
}

/// Swapping two neighbouring builder calls for different options, anywhere in a chain, gives the
/// same options.
pub proof fn builder_calls_commute(
    start: OptionsView,
    before: Seq<OptionCall>,
    a: OptionCall,
    b: OptionCall,
    after: Seq<OptionCall>,
)
    requires
        option_of(a) != option_of(b),
    ensures
        start.set_all(before.push(a).push(b) + after) == start.set_all(
            before.push(b).push(a) + after,
        ),
    decreases after.len(),
{
    let ab = before.push(a).push(b);
    let ba = before.push(b).push(a);
    if after.len() == 0 {
        assert(ab + after =~= ab);
        assert(ba + after =~= ba);
        assert(ab.drop_last() =~= before.push(a));
        assert(ba.drop_last() =~= before.push(b));
        assert(before.push(a).drop_last() =~= before);
        assert(before.push(b).drop_last() =~= before);
        let o = start.set_all(before);
        assert(start.set_all(before.push(a)) == o.set(a));
        assert(start.set_all(before.push(b)) == o.set(b));
        assert(o.set(a).set(b) == o.set(b).set(a));
    } else {
        builder_calls_commute(start, before, a, b, after.drop_last());
        assert((ab + after).drop_last() =~= ab + after.drop_last());
        assert((ba + after).drop_last() =~= ba + after.drop_last());
    }
}

/// After a chain of builder calls each option is what the last call for it made of it: later calls
/// for other options leave it alone.
pub proof fn last_call_for_an_option_counts(
    start: OptionsView,
    before: Seq<OptionCall>,
    call: OptionCall,
    after: Seq<OptionCall>,
)
    requires
        forall|i: int|
            0 <= i < after.len() ==> option_of(#[trigger] after[i]) != option_of(call),
    ensures
        start.set_all(before.push(call) + after).agrees(
            start.set_all(before).set(call),
            option_of(call),
        ),
    decreases after.len(),
{
    let chain = before.push(call) + after;
    if after.len() == 0 {
        assert(chain =~= before.push(call));
        assert(before.push(call).drop_last() =~= before);
    } else {
        assert(option_of(after[after.len() - 1]) != option_of(call));
        last_call_for_an_option_counts(start, before, call, after.drop_last());
        assert(chain.drop_last() =~= before.push(call) + after.drop_last());
    }
}

/// An option of which no builder call speaks keeps its default.
pub proof fn unmentioned_option_keeps_its_default(calls: Seq<OptionCall>, option: WindowOption)
    requires
        forall|i: int| 0 <= i < calls.len() ==> option_of(#[trigger] calls[i]) != option,
    ensures
        default_options().set_all(calls).agrees(default_options(), option),
    decreases calls.len(),
{
    if calls.len() > 0 {
        assert(option_of(calls[calls.len() - 1]) != option);
        unmentioned_option_keeps_its_default(calls.drop_last(), option);
    }
}

impl<T, N, F, C> EventHooks<T, N, F, C> {
    /// The same hooks with another hook for titles.
    pub open spec fn with_title_hook<G>(self, g: G) -> EventHooks<Hook<G>, N, F, C> {
        EventHooks {
            on_title_changed: Hook(g),
            on_new_window: self.on_new_window,
            on_focus: self.on_focus,
            on_close: self.on_close,
        }
    }
}

/// The later of two hooks for titles replaces the earlier one, and the other hooks stay.
pub proof fn later_title_hook_replaces_earlier<T, N, F, C, A, B>(
    hooks: EventHooks<T, N, F, C>,
    earlier: A,
    later: B,
)
    ensures
        hooks.with_title_hook(earlier).with_title_hook(later) == hooks.with_title_hook(later),
{
}

/// Describes a window step by step.
pub struct VersoWindowBuilder<T, N, F, C> {
    pub opts: WindowOptions,
    pub hooks: EventHooks<T, N, F, C>,
}

impl VersoWindowBuilder<NoHook, NoHook, NoHook, NoHook> {
    /// A window of which nothing is said yet.
    pub fn new() -> (b: Self)
        ensures
            b.opts@ == default_options(),
    {
        VersoWindowBuilder {
            opts: WindowOptions::default(),
            hooks: EventHooks {
                on_title_changed: NoHook,
                on_new_window: NoHook,
                on_focus: NoHook,
                on_close: NoHook,
            },
        }
    }
}

impl<T, N, F, C> VersoWindowBuilder<T, N, F, C> {
    /// Sets the title.
    pub fn title(self, title: &str) -> (b: Self)
        ensures
            b.opts@ == self.opts@.set(OptionCall::Title(title@)),
            b.hooks == self.hooks,
    {
        let mut b = self;
        b.opts.title = title.to_owned();
        b
    }

    /// Sets the size.
    pub fn size(self, width: u32, height: u32) -> (b: Self)
        ensures
            b.opts@ == self.opts@.set(OptionCall::Size(LogicalSize { width, height })),
            b.hooks == self.hooks,
    {
        let mut b = self;
        b.opts.size = Some(LogicalSize::new(width, height));
        b
    }

    /// Sets the smallest size.
    pub fn min_size(self, width: u32, height: u32) -> (b: Self)
        ensures
            b.opts@ == self.opts@.set(OptionCall::MinSize(LogicalSize { width, height })),
            b.hooks == self.hooks,
    {
        let mut b = self;
        b.opts.min_size = Some(LogicalSize::new(width, height));
        b
    }

    /// Sets the largest size.
    pub fn max_size(self, width: u32, height: u32) -> (b: Self)
        ensures
            b.opts@ == self.opts@.set(OptionCall::MaxSize(LogicalSize { width, height })),
            b.hooks == self.hooks,
    {
        let mut b = self;
        b.opts.max_size = Some(LogicalSize::new(width, height));
        b
    }

    /// Sets whether the window is decorated.
    pub fn decorations(self, decorations: bool) -> (b: Self)
        ensures
            b.opts@ == self.opts@.set(OptionCall::Decorations(decorations)),
            b.hooks == self.hooks,
    {
        let mut b = self;
        b.opts.decorations = decorations;
        b
    }

    /// Sets whether the window stays on top.
    pub fn always_on_top(self, always_on_top: bool) -> (b: Self)
        ensures
            b.opts@ == self.opts@.set(OptionCall::AlwaysOnTop(always_on_top)),
            b.hooks == self.hooks,
    {
        let mut b = self;
        b.opts.always_on_top = always_on_top;
        b
    }

    /// Sets whether the user can resize the window.
    pub fn resizable(self, resizable: bool) -> (b: Self)
        ensures
            b.opts@ == self.opts@.set(OptionCall::Resizable(resizable)),
            b.hooks == self.hooks,
    {
        let mut b = self;
        b.opts.resizable = resizable;
        b
    }

    /// Adds a script.
    pub fn initialization_script(self, script: &str) -> (b: Self)
        ensures
            b.opts@ == self.opts@.set(OptionCall::Script(script@)),
            b.hooks == self.hooks,
    {
        let mut b = self;
        b.opts.initialization_scripts.push(script.to_owned());
        proof {
            assert(b.opts@.initialization_scripts =~= self.opts@.initialization_scripts.push(
                script@,
            ));
        }
        b
    }

    /// Replaces the scripts.
    pub fn initialization_scripts(self, scripts: Vec<String>) -> (b: Self)
        ensures
            b.opts@ == self.opts@.set(OptionCall::Scripts(views(scripts@))),
            b.hooks == self.hooks,
    {
        let mut b = self;
        b.opts.initialization_scripts = scripts;
        b
    }

    /// Sets the port of the developer tools.
    pub fn devtools_port(self, port: Option<u16>) -> (b: Self)
        ensures
            b.opts@ == self.opts@.set(OptionCall::DevtoolsPort(port)),
            b.hooks == self.hooks,
    {
        let mut b = self;
        b.opts.devtools_port = port;
        b
    }

    /// Sets what is told of a new title.
    pub fn on_title_changed<G: Fn(&str)>(self, f: G) -> (b: VersoWindowBuilder<Hook<G>, N, F, C>)
        ensures
            b.opts == self.opts,
            b.hooks == self.hooks.with_title_hook(f),
    {
        VersoWindowBuilder {
            opts: self.opts,
            hooks: EventHooks {
                on_title_changed: Hook(f),
                on_new_window: self.hooks.on_new_window,
                on_focus: self.hooks.on_focus,
                on_close: self.hooks.on_close,
            },
        }
    }

    /// Sets what is told of a further window that is wanted.
    pub fn on_new_window<G: Fn(&WindowOptions)>(self, f: G) -> (b: VersoWindowBuilder<
        T,
        Hook<G>,
        F,
        C,
    >)
        ensures
            b.opts == self.opts,
            b.hooks.on_title_changed == self.hooks.on_title_changed,
            b.hooks.on_new_window == Hook(f),
            b.hooks.on_focus == self.hooks.on_focus,
            b.hooks.on_close == self.hooks.on_close,
    {
        VersoWindowBuilder {
            opts: self.opts,
            hooks: EventHooks {
                on_title_changed: self.hooks.on_title_changed,
                on_new_window: Hook(f),
                on_focus: self.hooks.on_focus,
                on_close: self.hooks.on_close,
            },
        }
    }

    /// Sets what is told of gained focus.
    pub fn on_focus<G: Fn()>(self, f: G) -> (b: VersoWindowBuilder<T, N, Hook<G>, C>)
        ensures
            b.opts == self.opts,
            b.hooks.on_title_changed == self.hooks.on_title_changed,
            b.hooks.on_new_window == self.hooks.on_new_window,
            b.hooks.on_focus == Hook(f),
            b.hooks.on_close == self.hooks.on_close,
    {
        VersoWindowBuilder {
            opts: self.opts,
            hooks: EventHooks {
                on_title_changed: self.hooks.on_title_changed,
                on_new_window: self.hooks.on_new_window,
                on_focus: Hook(f),
                on_close: self.hooks.on_close,
            },
        }
    }

    /// Sets what is told of closing.
    pub fn on_close<G: Fn()>(self, f: G) -> (b: VersoWindowBuilder<T, N, F, Hook<G>>)
        ensures
            b.opts == self.opts,
            b.hooks.on_title_changed == self.hooks.on_title_changed,
            b.hooks.on_new_window == self.hooks.on_new_window,
            b.hooks.on_focus == self.hooks.on_focus,
            b.hooks.on_close == Hook(f),
    {
        VersoWindowBuilder {
            opts: self.opts,
            hooks: EventHooks {
                on_title_changed: self.hooks.on_title_changed,
                on_new_window: self.hooks.on_new_window,
                on_focus: self.hooks.on_focus,
                on_close: Hook(f),
            },
        }
    }

    /// Builds a hidden window without a backend.
    pub fn build(self, ids: &mut WindowIds) -> (w: VersoWindow<
        EventHooks<T, N, F, C>,
        Backend<NoHook, NoHook, NoHook, NoHook, NoHook>,
    >)
        ensures
            w.opts == self.opts,
            w.hooks == self.hooks,
            !w.visible,
            !w.closed,
            w.calls@ == Seq::<WindowAction>::empty(),
            w.id == old(ids).plain,
            final(ids).plain == next_window_id(old(ids).plain),
            final(ids).backed == old(ids).backed,
    {
        let id: u64 = ids.plain;
        ids.plain = id.wrapping_add(1);
        VersoWindow {
            opts: self.opts,
            hooks: self.hooks,
            backend: Backend::null(),
            visible: false,
            closed: false,
            id,
            calls: CallLog::new(),
        }
    }

    /// Builds a hidden window with a backend.
    pub fn build_with_backend<B>(self, backend: B, ids: &mut WindowIds) -> (w: VersoWindow<
        EventHooks<T, N, F, C>,
        B,
    >)
        ensures
            w.opts == self.opts,
            w.hooks == self.hooks,
            w.backend == backend,
            !w.visible,
            !w.closed,
            w.calls@ == Seq::<WindowAction>::empty(),
            w.id == old(ids).backed,
            final(ids).backed == next_window_id(old(ids).backed),
            final(ids).plain == old(ids).plain,
    {
        let id: u64 = ids.backed;
        ids.backed = id.wrapping_add(1);
        VersoWindow {
            opts: self.opts,
            hooks: self.hooks,
            backend,
            visible: false,
            closed: false,
            id,
            calls: CallLog::new(),
        }
    }

    /// The options alone.
    pub fn into_options(self) -> (o: WindowOptions)
        ensures
            o == self.opts,
    {
        self.opts
    }
}

} // verus!

pub use LogicalSize as VersoLogicalSize;
pub use VersoWindowBuilder as WindowBuilder;
pub use WindowOptions as VersoWindowOptions;
