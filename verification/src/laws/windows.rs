//! What windows, their builders and their registry do, and the settings that they share.
use vstd::prelude::*;
use serde_json::Value;
use crate::controller::ControllerConfig;
use crate::laws::hosting::ends_with;
use crate::laws::{lists_agree, same_list, same_option};
use crate::settings::Settings;
use crate::text::views;
use crate::window_manager::{
    Backend, EventHooks, EventSender, Hook, NoHook, OptionsSignal, ScriptRunner, Signal, TextSignal,
    VersoWindow, VersoWindowBuilder, WindowAction, WindowError, WindowIds, WindowOptions,
};
use crate::window_manager_glue::{controller_config_with_base, to_controller_config_from_options};
use crate::winit_runtime::{
    map_winit_key, map_winit_mouse_button, post_outcome, Effect, HostMouseButton, InternalCommand,
    Key, NamedKey, Reaction, WindowEventKind, WindowRegistry, WinitRuntimeError, WinitWindowHandle,
};

verus! {

/// Two descriptions of a window agree in all but the named options.
pub open spec fn same_frame(a: WindowOptions, b: WindowOptions) -> bool {
    &&& a.decorations == b.decorations
    &&& a.always_on_top == b.always_on_top
    &&& a.resizable == b.resizable
}

/// Two descriptions of a window have the same sizes.
pub open spec fn same_sizes(a: WindowOptions, b: WindowOptions) -> bool {
    a.size == b.size && a.min_size == b.min_size && a.max_size == b.max_size
}

/// Two descriptions of a window have the same scripts and the same port.
pub open spec fn same_page(a: WindowOptions, b: WindowOptions) -> bool {
    same_list(a.initialization_scripts@, b.initialization_scripts@) && a.devtools_port
        == b.devtools_port
}

/// The title of a window is the one that was given; nothing else changes.
pub proof fn builder_sets_title<T, N, F, C>(
    b: VersoWindowBuilder<T, N, F, C>,
    title: &str,
    r: VersoWindowBuilder<T, N, F, C>,
)
    requires
        call_ensures(VersoWindowBuilder::<T, N, F, C>::title, (b, title), r),
    ensures
        r.opts.title@ == title@,
        r.opts.size == b.opts.size,
        r.opts.min_size == b.opts.min_size,
        r.opts.max_size == b.opts.max_size,
        r.opts.decorations == b.opts.decorations,
        r.opts.always_on_top == b.opts.always_on_top,
        r.opts.resizable == b.opts.resizable,
        same_list(r.opts.initialization_scripts@, b.opts.initialization_scripts@),
        r.opts.devtools_port == b.opts.devtools_port,
        r.hooks == b.hooks,
{
    lists_agree(r.opts.initialization_scripts@, b.opts.initialization_scripts@);
}

/// The size of a window has the given width and height; nothing else changes.
pub proof fn builder_sets_size<T, N, F, C>(
    b: VersoWindowBuilder<T, N, F, C>,
    width: u32,
    height: u32,
    r: VersoWindowBuilder<T, N, F, C>,
)
    requires
        call_ensures(VersoWindowBuilder::<T, N, F, C>::size, (b, width, height), r),
    ensures
        r.opts.size is Some && r.opts.size->0.width == width && r.opts.size->0.height == height,
        r.opts.title@ == b.opts.title@,
        r.opts.min_size == b.opts.min_size,
        r.opts.max_size == b.opts.max_size,
        r.opts.decorations == b.opts.decorations,
        r.opts.always_on_top == b.opts.always_on_top,
        r.opts.resizable == b.opts.resizable,
        same_list(r.opts.initialization_scripts@, b.opts.initialization_scripts@),
        r.opts.devtools_port == b.opts.devtools_port,
        r.hooks == b.hooks,
{
    lists_agree(r.opts.initialization_scripts@, b.opts.initialization_scripts@);
}

/// The smallest size of a window has the given width and height; nothing else changes.
pub proof fn builder_sets_min_size<T, N, F, C>(
    b: VersoWindowBuilder<T, N, F, C>,
    width: u32,
    height: u32,
    r: VersoWindowBuilder<T, N, F, C>,
)
    requires
        call_ensures(VersoWindowBuilder::<T, N, F, C>::min_size, (b, width, height), r),
    ensures
        r.opts.min_size is Some && r.opts.min_size->0.width == width && r.opts.min_size->0.height == height,
        r.opts.title@ == b.opts.title@,
        r.opts.size == b.opts.size,
        r.opts.max_size == b.opts.max_size,
        r.opts.decorations == b.opts.decorations,
        r.opts.always_on_top == b.opts.always_on_top,
        r.opts.resizable == b.opts.resizable,
        same_list(r.opts.initialization_scripts@, b.opts.initialization_scripts@),
        r.opts.devtools_port == b.opts.devtools_port,
        r.hooks == b.hooks,
{
    lists_agree(r.opts.initialization_scripts@, b.opts.initialization_scripts@);
}

/// The largest size of a window has the given width and height; nothing else changes.
pub proof fn builder_sets_max_size<T, N, F, C>(
    b: VersoWindowBuilder<T, N, F, C>,
    width: u32,
    height: u32,
    r: VersoWindowBuilder<T, N, F, C>,
)
    requires
        call_ensures(VersoWindowBuilder::<T, N, F, C>::max_size, (b, width, height), r),
    ensures
        r.opts.max_size is Some && r.opts.max_size->0.width == width && r.opts.max_size->0.height == height,
        r.opts.title@ == b.opts.title@,
        r.opts.size == b.opts.size,
        r.opts.min_size == b.opts.min_size,
        r.opts.decorations == b.opts.decorations,
        r.opts.always_on_top == b.opts.always_on_top,
        r.opts.resizable == b.opts.resizable,
        same_list(r.opts.initialization_scripts@, b.opts.initialization_scripts@),
        r.opts.devtools_port == b.opts.devtools_port,
        r.hooks == b.hooks,
{
    lists_agree(r.opts.initialization_scripts@, b.opts.initialization_scripts@);
}

/// A window is decorated as it was told; nothing else changes.
pub proof fn builder_sets_decorations<T, N, F, C>(
    b: VersoWindowBuilder<T, N, F, C>,
    on: bool,
    r: VersoWindowBuilder<T, N, F, C>,
)
    requires
        call_ensures(VersoWindowBuilder::<T, N, F, C>::decorations, (b, on), r),
    ensures
        r.opts.decorations == on,
        r.opts.title@ == b.opts.title@,
        r.opts.size == b.opts.size,
        r.opts.min_size == b.opts.min_size,
        r.opts.max_size == b.opts.max_size,
        r.opts.always_on_top == b.opts.always_on_top,
        r.opts.resizable == b.opts.resizable,
        same_list(r.opts.initialization_scripts@, b.opts.initialization_scripts@),
        r.opts.devtools_port == b.opts.devtools_port,
        r.hooks == b.hooks,
{
    lists_agree(r.opts.initialization_scripts@, b.opts.initialization_scripts@);
}

/// A window stays on top as it was told; nothing else changes.
pub proof fn builder_sets_always_on_top<T, N, F, C>(
    b: VersoWindowBuilder<T, N, F, C>,
    on: bool,
    r: VersoWindowBuilder<T, N, F, C>,
)
    requires
        call_ensures(VersoWindowBuilder::<T, N, F, C>::always_on_top, (b, on), r),
    ensures
        r.opts.always_on_top == on,
        r.opts.title@ == b.opts.title@,
        r.opts.size == b.opts.size,
        r.opts.min_size == b.opts.min_size,
        r.opts.max_size == b.opts.max_size,
        r.opts.decorations == b.opts.decorations,
        r.opts.resizable == b.opts.resizable,
        same_list(r.opts.initialization_scripts@, b.opts.initialization_scripts@),
        r.opts.devtools_port == b.opts.devtools_port,
        r.hooks == b.hooks,
{
    lists_agree(r.opts.initialization_scripts@, b.opts.initialization_scripts@);
}

/// A window can be resized as it was told; nothing else changes.
pub proof fn builder_sets_resizable<T, N, F, C>(
    b: VersoWindowBuilder<T, N, F, C>,
    on: bool,
    r: VersoWindowBuilder<T, N, F, C>,
)
    requires
        call_ensures(VersoWindowBuilder::<T, N, F, C>::resizable, (b, on), r),
    ensures
        r.opts.resizable == on,
        r.opts.title@ == b.opts.title@,
        r.opts.size == b.opts.size,
        r.opts.min_size == b.opts.min_size,
        r.opts.max_size == b.opts.max_size,
        r.opts.decorations == b.opts.decorations,
        r.opts.always_on_top == b.opts.always_on_top,
        same_list(r.opts.initialization_scripts@, b.opts.initialization_scripts@),
        r.opts.devtools_port == b.opts.devtools_port,
        r.hooks == b.hooks,
{
    lists_agree(r.opts.initialization_scripts@, b.opts.initialization_scripts@);
}

/// A script is added after those that are there; nothing else changes.
pub proof fn builder_sets_initialization_script<T, N, F, C>(
    b: VersoWindowBuilder<T, N, F, C>,
    script: &str,
    r: VersoWindowBuilder<T, N, F, C>,
)
    requires
        call_ensures(VersoWindowBuilder::<T, N, F, C>::initialization_script, (b, script), r),
    ensures
        r.opts.initialization_scripts@.len() == b.opts.initialization_scripts@.len() + 1 && same_list(r.opts.initialization_scripts@.drop_last(), b.opts.initialization_scripts@) && r.opts.initialization_scripts@.last()@ == script@,
        r.opts.title@ == b.opts.title@,
        r.opts.size == b.opts.size,
        r.opts.min_size == b.opts.min_size,
        r.opts.max_size == b.opts.max_size,
        r.opts.decorations == b.opts.decorations,
        r.opts.always_on_top == b.opts.always_on_top,
        r.opts.resizable == b.opts.resizable,
        r.opts.devtools_port == b.opts.devtools_port,
        r.hooks == b.hooks,
{
    let now = r.opts.initialization_scripts@;
    let before = b.opts.initialization_scripts@;
    assert(views(now) == views(before).push(script@));
    assert(views(now).len() == now.len() && views(before).len() == before.len());
    assert(views(now)[before.len() as int] == now[before.len() as int]@);
    assert forall|i: int| 0 <= i < before.len() implies (#[trigger] now.drop_last()[i])@ == before[i]@ by {
        assert(views(now)[i] == now[i]@ && views(before)[i] == before[i]@);
    }
}

/// The scripts are replaced by those that were given; nothing else changes.
pub proof fn builder_sets_initialization_scripts<T, N, F, C>(
    b: VersoWindowBuilder<T, N, F, C>,
    scripts: Vec<String>,
    r: VersoWindowBuilder<T, N, F, C>,
)
    requires
        call_ensures(VersoWindowBuilder::<T, N, F, C>::initialization_scripts, (b, scripts), r),
    ensures
        same_list(r.opts.initialization_scripts@, scripts@),
        r.opts.title@ == b.opts.title@,
        r.opts.size == b.opts.size,
        r.opts.min_size == b.opts.min_size,
        r.opts.max_size == b.opts.max_size,
        r.opts.decorations == b.opts.decorations,
        r.opts.always_on_top == b.opts.always_on_top,
        r.opts.resizable == b.opts.resizable,
        r.opts.devtools_port == b.opts.devtools_port,
        r.hooks == b.hooks,
{
    lists_agree(r.opts.initialization_scripts@, scripts@);
}

/// The port of the developer tools is the one that was given; nothing else changes.
pub proof fn builder_sets_devtools_port<T, N, F, C>(
    b: VersoWindowBuilder<T, N, F, C>,
    port: Option<u16>,
    r: VersoWindowBuilder<T, N, F, C>,
)
    requires
        call_ensures(VersoWindowBuilder::<T, N, F, C>::devtools_port, (b, port), r),
    ensures
        r.opts.devtools_port == port,
        r.opts.title@ == b.opts.title@,
        r.opts.size == b.opts.size,
        r.opts.min_size == b.opts.min_size,
        r.opts.max_size == b.opts.max_size,
        r.opts.decorations == b.opts.decorations,
        r.opts.always_on_top == b.opts.always_on_top,
        r.opts.resizable == b.opts.resizable,
        same_list(r.opts.initialization_scripts@, b.opts.initialization_scripts@),
        r.hooks == b.hooks,
{
    lists_agree(r.opts.initialization_scripts@, b.opts.initialization_scripts@);
}

/// A window of which nothing was said is decorated, can be resized, does not stay on top, and has
/// neither sizes nor scripts nor a port.
pub proof fn plain_window_has_the_usual_options(
    b: VersoWindowBuilder<NoHook, NoHook, NoHook, NoHook>,
)
    requires
        call_ensures(VersoWindowBuilder::new, (), b),
    ensures
        b.opts.decorations && b.opts.resizable && !b.opts.always_on_top,
        b.opts.size is None && b.opts.min_size is None && b.opts.max_size is None,
        b.opts.initialization_scripts@.len() == 0,
        b.opts.devtools_port is None,
        b.opts.title@ == "Verso App"@,
{
    assert(b.opts@.initialization_scripts.len() == b.opts.initialization_scripts@.len());
}

/// Building keeps the description and the hooks; the window is hidden and open, and no two windows
/// of a sort get the same id in a row.
pub proof fn built_window_is_as_described<T, N, F, C, B>(
    b: VersoWindowBuilder<T, N, F, C>,
    ids: &mut WindowIds,
    w: VersoWindow<EventHooks<T, N, F, C>, Backend<NoHook, NoHook, NoHook, NoHook, NoHook>>,
    c: VersoWindowBuilder<T, N, F, C>,
    backend: B,
    more: &mut WindowIds,
    v: VersoWindow<EventHooks<T, N, F, C>, B>,
    d: VersoWindowBuilder<T, N, F, C>,
    o: WindowOptions,
)
    requires
        call_ensures(VersoWindowBuilder::<T, N, F, C>::build, (b, ids), w),
        call_ensures(
            VersoWindowBuilder::<T, N, F, C>::build_with_backend::<B>,
            (c, backend, more),
            v,
        ),
        call_ensures(VersoWindowBuilder::<T, N, F, C>::into_options, (d,), o),
    ensures
        w.opts == b.opts && w.hooks == b.hooks && !w.visible && !w.closed && w.calls@.len() == 0,
        v.opts == c.opts && v.hooks == c.hooks && v.backend == backend && !v.visible && !v.closed
            && v.calls@.len() == 0,
        o == d.opts,
        w.id == old(ids).plain && final(ids).plain != old(ids).plain && final(ids).backed == old(
            ids).backed,
        v.id == old(more).backed && final(more).backed != old(more).backed && final(more).plain
            == old(more).plain,
{
}

/// Only the visibility of a window, if anything, differs.
pub open spec fn same_window<K, B>(a: VersoWindow<K, B>, b: VersoWindow<K, B>) -> bool {
    &&& a.opts.title@ == b.opts.title@
    &&& same_sizes(a.opts, b.opts) && same_frame(a.opts, b.opts) && a.opts.devtools_port
        == b.opts.devtools_port
    &&& a.hooks == b.hooks && a.backend == b.backend
    &&& a.id == b.id
}

/// A title is set as given and told once, whether or not the window is closed; nothing else
/// changes.
pub proof fn title_is_set_and_told<
    T: TextSignal,
    N: OptionsSignal,
    F: Signal,
    C: Signal,
    S: Signal,
    H: Signal,
    D: Signal,
    E: ScriptRunner,
    I: EventSender,
>(
    w: &mut VersoWindow<EventHooks<T, N, F, C>, Backend<S, H, D, E, I>>,
    title: &str,
    done: (),
)
    requires
        call_ensures(VersoWindow::<EventHooks<T, N, F, C>, Backend<S, H, D, E, I>>::set_title, (w, title), done),
    ensures
        final(w).opts.title@ == title@,
        same_sizes(final(w).opts, old(w).opts) && same_frame(final(w).opts, old(w).opts),
        final(w).opts.devtools_port == old(w).opts.devtools_port,
        final(w).visible == old(w).visible && final(w).closed == old(w).closed && final(w).id == old(w).id,
        final(w).calls@.len() == old(w).calls@.len() + 1,
        final(w).calls@.last() == WindowAction::TellTitle(title@),
        old(w).hooks.on_title_changed.told(title@),
{
}

/// An open window is shown and its backend told once; a closed one refuses, stays as it was, and
/// calls nothing.
pub proof fn show_works_on_open_windows<
    T: TextSignal,
    N: OptionsSignal,
    F: Signal,
    C: Signal,
    S: Signal,
    H: Signal,
    D: Signal,
    E: ScriptRunner,
    I: EventSender,
>(
    w: &mut VersoWindow<EventHooks<T, N, F, C>, Backend<S, H, D, E, I>>,
    r: Result<(), WindowError>,
)
    requires
        call_ensures(VersoWindow::<EventHooks<T, N, F, C>, Backend<S, H, D, E, I>>::show, (w,), r),
    ensures
        r is Ok <==> !old(w).closed,
        r is Err ==> r->Err_0 is Closed && final(w).visible == old(w).visible && final(w).calls@ == old(w).calls@,
        r is Ok ==> final(w).visible == true && final(w).calls@.len() == old(w).calls@.len() + 1 && final(w).calls@.last() is Show,
        final(w).closed == old(w).closed,
        same_window(*final(w), *old(w)),
{
}

/// An open window is hidden and its backend told once; a closed one refuses, stays as it was, and
/// calls nothing.
pub proof fn hide_window_works_on_open_windows<
    T: TextSignal,
    N: OptionsSignal,
    F: Signal,
    C: Signal,
    S: Signal,
    H: Signal,
    D: Signal,
    E: ScriptRunner,
    I: EventSender,
>(
    w: &mut VersoWindow<EventHooks<T, N, F, C>, Backend<S, H, D, E, I>>,
    r: Result<(), WindowError>,
)
    requires
        call_ensures(VersoWindow::<EventHooks<T, N, F, C>, Backend<S, H, D, E, I>>::hide_window, (w,), r),
    ensures
        r is Ok <==> !old(w).closed,
        r is Err ==> r->Err_0 is Closed && final(w).visible == old(w).visible && final(w).calls@ == old(w).calls@,
        r is Ok ==> final(w).visible == false && final(w).calls@.len() == old(w).calls@.len() + 1 && final(w).calls@.last() is Hide,
        final(w).closed == old(w).closed,
        same_window(*final(w), *old(w)),
{
}

/// The first close tells the backend and then the hook, every further one nothing; a window that
/// was closed stays so, at its visibility and with its options.
pub proof fn first_close_counts<
    T: TextSignal,
    N: OptionsSignal,
    F: Signal,
    C: Signal,
    S: Signal,
    H: Signal,
    D: Signal,
    E: ScriptRunner,
    I: EventSender,
>(
    w: &mut VersoWindow<EventHooks<T, N, F, C>, Backend<S, H, D, E, I>>,
    r: Result<(), WindowError>,
)
    requires
        call_ensures(VersoWindow::<EventHooks<T, N, F, C>, Backend<S, H, D, E, I>>::close, (w,), r),
    ensures
        r is Ok && final(w).closed,
        old(w).closed ==> final(w).calls@ == old(w).calls@,
        !old(w).closed ==> final(w).calls@.len() == old(w).calls@.len() + 2 && final(w).calls@[old(w).calls@.len() as int] is Close && final(w).calls@.last() is TellClosed,
        final(w).visible == old(w).visible,
        same_window(*final(w), *old(w)),
{
}

/// A script reaches the backend of an open window as it is, once, and what that answers is the
/// result; a closed window refuses and calls nothing.
pub proof fn script_reaches_the_backend<
    T: TextSignal,
    N: OptionsSignal,
    F: Signal,
    C: Signal,
    S: Signal,
    H: Signal,
    D: Signal,
    E: ScriptRunner,
    I: EventSender,
>(
    w: &mut VersoWindow<EventHooks<T, N, F, C>, Backend<S, H, D, E, I>>,
    source: &str,
    r: Result<(), WindowError>,
)
    requires
        call_ensures(VersoWindow::<EventHooks<T, N, F, C>, Backend<S, H, D, E, I>>::eval_script, (w, source), r),
    ensures
        old(w).closed ==> r is Err && r->Err_0 is Closed && final(w).calls@ == old(w).calls@,
        !old(w).closed ==> final(w).calls@.len() == old(w).calls@.len() + 1 && final(w).calls@.last() == WindowAction::EvalScript(source@),
        !old(w).closed ==> exists|a: Result<(), String>| #[trigger] old(w).backend.eval_script.answered(source@, a) && (a is Ok <==> r is Ok) && (a is Err ==> r->Err_0 is Failed && r->Err_0->Failed_0 == a->Err_0),
        final(w).visible == old(w).visible && final(w).closed == old(w).closed,
        same_window(*final(w), *old(w)),
{
}

/// An event reaches the backend of an open window under its name and with its payload, once, and
/// what that answers is the result; a closed window refuses and calls nothing.
pub proof fn event_reaches_the_backend<
    T: TextSignal,
    N: OptionsSignal,
    F: Signal,
    C: Signal,
    S: Signal,
    H: Signal,
    D: Signal,
    E: ScriptRunner,
    I: EventSender,
>(
    w: &mut VersoWindow<EventHooks<T, N, F, C>, Backend<S, H, D, E, I>>,
    name: &str,
    payload: &Value,
    r: Result<(), WindowError>,
)
    requires
        call_ensures(VersoWindow::<EventHooks<T, N, F, C>, Backend<S, H, D, E, I>>::send_ipc_event, (w, name, payload), r),
    ensures
        old(w).closed ==> r is Err && r->Err_0 is Closed && final(w).calls@ == old(w).calls@,
        !old(w).closed ==> final(w).calls@.len() == old(w).calls@.len() + 1 && final(w).calls@.last() == WindowAction::SendEvent(name@, *payload),
        !old(w).closed ==> exists|a: Result<(), String>| #[trigger] old(w).backend.send_ipc_event.answered(name@, payload, a) && (a is Ok <==> r is Ok) && (a is Err ==> r->Err_0 is Failed && r->Err_0->Failed_0 == a->Err_0),
        final(w).visible == old(w).visible && final(w).closed == old(w).closed,
        same_window(*final(w), *old(w)),
{
}

/// A notice of focus and one of a further window reach their own hooks, once each, and change
/// nothing.
pub proof fn notices_reach_their_hooks<
    T: TextSignal,
    N: OptionsSignal,
    F: Signal,
    C: Signal,
    S: Signal,
    H: Signal,
    D: Signal,
    E: ScriptRunner,
    I: EventSender,
>(
    w: &mut VersoWindow<EventHooks<T, N, F, C>, Backend<S, H, D, E, I>>,
    done: (),
    v: &mut VersoWindow<EventHooks<T, N, F, C>, Backend<S, H, D, E, I>>,
    proposed: &WindowOptions,
    told: (),
)
    requires
        call_ensures(VersoWindow::<EventHooks<T, N, F, C>, Backend<S, H, D, E, I>>::notify_focused, (w,), done),
        call_ensures(VersoWindow::<EventHooks<T, N, F, C>, Backend<S, H, D, E, I>>::notify_new_window, (v, proposed), told),
    ensures
        final(w).calls@.len() == old(w).calls@.len() + 1 && final(w).calls@.last() is TellFocus,
        final(v).calls@.len() == old(v).calls@.len() + 1 && final(v).calls@.last() == WindowAction::TellNewWindow(*proposed),
        old(w).hooks.on_focus.told(),
        old(v).hooks.on_new_window.told(proposed),
        final(w).visible == old(w).visible && final(w).closed == old(w).closed,
        final(v).visible == old(v).visible && final(v).closed == old(v).closed,
        same_window(*final(w), *old(w)),
        same_window(*final(v), *old(v)),
{
}

/// A window tells its id, its options, its visibility and whether it was closed as they are.
pub proof fn window_tells_what_it_is<
    T: TextSignal,
    N: OptionsSignal,
    F: Signal,
    C: Signal,
    S: Signal,
    H: Signal,
    D: Signal,
    E: ScriptRunner,
    I: EventSender,
>(
    w: &VersoWindow<EventHooks<T, N, F, C>, Backend<S, H, D, E, I>>,
    id: u64,
    o: &WindowOptions,
    visible: bool,
    closed: bool,
)
    requires
        call_ensures(VersoWindow::<EventHooks<T, N, F, C>, Backend<S, H, D, E, I>>::id, (w,), id),
        call_ensures(VersoWindow::<EventHooks<T, N, F, C>, Backend<S, H, D, E, I>>::options, (w,), o),
        call_ensures(VersoWindow::<EventHooks<T, N, F, C>, Backend<S, H, D, E, I>>::is_visible, (w,), visible),
        call_ensures(VersoWindow::<EventHooks<T, N, F, C>, Backend<S, H, D, E, I>>::is_closed, (w,), closed),
    ensures
        id == w.id && *o == w.opts && visible == w.visible && closed == w.closed,
{
}

/// Texts of windows' errors end with what went wrong.
pub proof fn window_error_says_what_went_wrong(e: &WindowError, s: String)
    requires
        call_ensures(WindowError::to_text, (e,), s),
    ensures
        e is Failed ==> ends_with(s@, e->Failed_0@) && s@[0] == 'f',
        e is Unsupported ==> ends_with(s@, e->Unsupported_0@) && s@[0] == 'u',
        e is Closed ==> s@.len() > 0 && s@[0] == 'w',
{
    reveal_strlit("failed: ");
    reveal_strlit("unsupported: ");
    reveal_strlit("window is closed");
    let end = match *e {
        WindowError::Failed(t) => t@,
        WindowError::Unsupported(t) => t@,
        WindowError::Closed => Seq::empty(),
    };
    assert(s@.skip(s@.len() - end.len()) =~= end);
}

/// A key is told by its own name; text has none.
pub proof fn keys_have_their_names(key: &Key, r: Option<&'static str>)
    requires
        call_ensures(map_winit_key, (key,), r),
    ensures
        key is Character <==> r is None,
        *key == Key::Named(NamedKey::Enter) ==> r->0@ == "Enter"@,
        *key == Key::Named(NamedKey::Tab) ==> r->0@ == "Tab"@,
        *key == Key::Named(NamedKey::Space) ==> r->0@ == "Space"@,
        *key == Key::Named(NamedKey::ArrowUp) ==> r->0@ == "ArrowUp"@,
        *key == Key::Named(NamedKey::ArrowDown) ==> r->0@ == "ArrowDown"@,
        *key == Key::Named(NamedKey::ArrowLeft) ==> r->0@ == "ArrowLeft"@,
        *key == Key::Named(NamedKey::ArrowRight) ==> r->0@ == "ArrowRight"@,
        *key == Key::Named(NamedKey::Escape) ==> r->0@ == "Escape"@,
        *key == Key::Named(NamedKey::Backspace) ==> r->0@ == "Backspace"@,
        *key == Key::Named(NamedKey::Delete) ==> r->0@ == "Delete"@,
        *key == Key::Named(NamedKey::Insert) ==> r->0@ == "Insert"@,
        *key == Key::Named(NamedKey::Home) ==> r->0@ == "Home"@,
        *key == Key::Named(NamedKey::End) ==> r->0@ == "End"@,
        *key == Key::Named(NamedKey::PageUp) ==> r->0@ == "PageUp"@,
        *key == Key::Named(NamedKey::PageDown) ==> r->0@ == "PageDown"@,
        *key == Key::Named(NamedKey::F1) ==> r->0@ == "F1"@,
        *key == Key::Named(NamedKey::F2) ==> r->0@ == "F2"@,
        *key == Key::Named(NamedKey::F3) ==> r->0@ == "F3"@,
        *key == Key::Named(NamedKey::F4) ==> r->0@ == "F4"@,
        *key == Key::Named(NamedKey::F5) ==> r->0@ == "F5"@,
        *key == Key::Named(NamedKey::F6) ==> r->0@ == "F6"@,
        *key == Key::Named(NamedKey::F7) ==> r->0@ == "F7"@,
        *key == Key::Named(NamedKey::F8) ==> r->0@ == "F8"@,
        *key == Key::Named(NamedKey::F9) ==> r->0@ == "F9"@,
        *key == Key::Named(NamedKey::F10) ==> r->0@ == "F10"@,
        *key == Key::Named(NamedKey::F11) ==> r->0@ == "F11"@,
        *key == Key::Named(NamedKey::F12) ==> r->0@ == "F12"@,
        key is Dead ==> r->0@ == "Dead"@,
        key is Unidentified ==> r->0@ == "Unidentified"@,
{
}

/// The named buttons have the codes from 1 to 5, all others higher ones, and other buttons that lie
/// close to each other keep apart.
pub proof fn buttons_have_their_codes(
    a: HostMouseButton,
    x: u8,
    b: HostMouseButton,
    y: u8,
)
    requires
        call_ensures(map_winit_mouse_button, (a,), x),
        call_ensures(map_winit_mouse_button, (b,), y),
    ensures
        a is Left <==> x == 1,
        a is Right <==> x == 2,
        a is Middle <==> x == 3,
        a is Back <==> x == 4,
        a is Forward <==> x == 5,
        a is Other <==> x >= 10,
        a is Other && a->Other_0 < 245 ==> x == 10 + a->Other_0,
        x <= 254,
{
}

/// A command of a window handle is for that window and says what was asked.
pub proof fn handle_commands_its_window<I>(
    h: &WinitWindowHandle,
    title: &str,
    icon: I,
    on: bool,
    redraw: InternalCommand<I>,
    named: InternalCommand<I>,
    pointed: InternalCommand<I>,
    shown: InternalCommand<I>,
    held: InternalCommand<I>,
    closed: InternalCommand<I>,
)
    requires
        call_ensures(WinitWindowHandle::request_redraw::<I>, (h,), redraw),
        call_ensures(WinitWindowHandle::set_title::<I>, (h, title), named),
        call_ensures(WinitWindowHandle::set_cursor_icon::<I>, (h, icon), pointed),
        call_ensures(WinitWindowHandle::set_cursor_visible::<I>, (h, on), shown),
        call_ensures(WinitWindowHandle::set_cursor_grab::<I>, (h, on), held),
        call_ensures(WinitWindowHandle::close::<I>, (h,), closed),
    ensures
        redraw is RequestRedraw && redraw->RequestRedraw_0 == h.id,
        named is SetTitle && named->SetTitle_0 == h.id && named->SetTitle_1@ == title@,
        pointed is SetCursorIcon && pointed->SetCursorIcon_0 == h.id && pointed->SetCursorIcon_1
            == icon,
        shown is SetCursorVisible && shown->SetCursorVisible_0 == h.id && shown->SetCursorVisible_1
            == on,
        held is SetCursorGrab && held->SetCursorGrab_0 == h.id && held->SetCursorGrab_1 == on,
        closed is CloseWindow && closed->CloseWindow_0 == h.id,
{
}

/// A command for a window that is there is carried out on that window as what it is, and closing
/// takes it out; the loop ends exactly with the last window.  A command for another window does
/// nothing.
pub proof fn command_acts_on_its_window<W, S, I>(
    reg: &mut WindowRegistry<W, S>,
    cmd: InternalCommand<I>,
    e: Effect<W, I>,
    id: u64,
    other: u64,
)
    requires
        call_ensures(WindowRegistry::<W, S>::handle_internal_command::<I>, (reg, cmd), e),
        match cmd {
            InternalCommand::RequestRedraw(i) => i == id,
            InternalCommand::SetTitle(i, _) => i == id,
            InternalCommand::SetCursorIcon(i, _) => i == id,
            InternalCommand::SetCursorVisible(i, _) => i == id,
            InternalCommand::SetCursorGrab(i, _) => i == id,
            InternalCommand::CloseWindow(i) => i == id,
        },
        other != id,
    ensures
        final(reg).windows@.contains_key(other) <==> old(reg).windows@.contains_key(other),
        old(reg).windows@.contains_key(other) ==> final(reg).windows@[other]
            == old(reg).windows@[other],
        !(cmd is CloseWindow) ==> (final(reg).windows@.contains_key(id)
            <==> old(reg).windows@.contains_key(id)),
        !(cmd is CloseWindow) && !old(reg).windows@.contains_key(id) ==> e is Nothing,
        !(cmd is CloseWindow) && old(reg).windows@.contains_key(id) ==> {
            &&& e is Act && e->id == id
            &&& cmd is RequestRedraw ==> e->action is RequestRedraw
            &&& cmd is SetTitle ==> e->action is SetTitle && e->action->SetTitle_0
                == cmd->SetTitle_1
            &&& cmd is SetCursorIcon ==> e->action is SetCursorIcon && e->action->SetCursorIcon_0
                == cmd->SetCursorIcon_1
            &&& cmd is SetCursorVisible ==> e->action is SetCursorVisible
                && e->action->SetCursorVisible_0 == cmd->SetCursorVisible_1
            &&& cmd is SetCursorGrab ==> e->action is SetCursorGrab && (
            e->action->SetCursorGrab_0 is Confined <==> cmd->SetCursorGrab_1)
        },
        cmd is CloseWindow ==> {
            &&& e is Removed
            &&& !final(reg).windows@.contains_key(id)
            &&& e->window is Some <==> old(reg).windows@.contains_key(id)
            &&& e->window is Some ==> e->window->0 == old(reg).windows@[id]
            &&& e->exit ==> !old(reg).windows@.contains_key(other)
            &&& !e->exit ==> exists|k: u64| k != id && #[trigger] old(reg).windows@.contains_key(k)
        },
{
    if cmd is CloseWindow {
        let left = old(reg).windows@.remove(id);
        if e->exit {
            assert(!left.dom().contains(other));
        } else {
            if forall|k: u64| k != id ==> !(#[trigger] old(reg).windows@.contains_key(k)) {
                assert(left.dom() =~= Set::<u64>::empty());
            }
        }
    }
}

/// A window whose closing is asked for leaves with its subscribers; a redraw draws and anything
/// else is told, and neither changes the windows.
pub proof fn window_events_are_reacted_to<W, S>(
    reg: &mut WindowRegistry<W, S>,
    id: u64,
    kind: WindowEventKind,
    r: Reaction<W>,
    other: u64,
)
    requires
        call_ensures(WindowRegistry::<W, S>::window_event, (reg, id, kind), r),
        other != id,
    ensures
        r is Draw <==> kind is RedrawRequested,
        r is Tell <==> kind is Other,
        r is Removed <==> kind is CloseRequested,
        !(kind is CloseRequested) ==> *final(reg) == *old(reg),
        kind is CloseRequested ==> {
            &&& !final(reg).windows@.contains_key(id) && !final(reg).records@.contains_key(id)
            &&& final(reg).windows@.contains_key(other) <==> old(reg).windows@.contains_key(other)
            &&& r->window is Some <==> old(reg).windows@.contains_key(id)
            &&& r->window is Some ==> r->window->0 == old(reg).windows@[id]
            &&& r->exit ==> !old(reg).windows@.contains_key(other)
        },
{
    if kind is CloseRequested {
        assert(!final(reg).subscribers().contains_key(id));
        if r->exit {
            assert(!old(reg).windows@.remove(id).dom().contains(other));
        }
    }
}

/// A window that was created is there; a subscriber of a window that is there comes after the
/// others, and one of any other window is refused.
pub proof fn subscribers_follow_their_window<W, S>(
    reg: &mut WindowRegistry<W, S>,
    id: u64,
    window: W,
    done: (),
    b: &mut WindowRegistry<W, S>,
    h: WinitWindowHandle,
    s: S,
    r: Result<(), WinitRuntimeError>,
)
    requires
        call_ensures(WindowRegistry::<W, S>::window_created, (reg, id, window), done),
        call_ensures(WindowRegistry::<W, S>::add_subscriber, (b, h, s), r),
    ensures
        final(reg).windows@.contains_key(id) && final(reg).windows@[id] == window,
        final(reg).records@.contains_key(id),
        !old(reg).records@.contains_key(id) ==> final(reg).records@[id]@.len() == 0,
        old(reg).records@.contains_key(id) ==> final(reg).records@[id]@ == old(reg).records@[id]@,
        r is Ok <==> old(b).records@.contains_key(h.id),
        r is Err ==> r->Err_0 == WinitRuntimeError::UnknownWindow(h.id),
        r is Ok ==> final(b).records@.contains_key(h.id) && final(b).records@[h.id]@ == old(
            b).records@[h.id]@.push(s),
        final(b).windows@ == old(b).windows@,
{
    assert(final(reg).subscribers().contains_key(id) == final(reg).records@.contains_key(id));
    assert(old(reg).subscribers().contains_key(id) == old(reg).records@.contains_key(id));
    assert(final(reg).subscribers().contains_key(id));
    assert(final(reg).subscribers()[id] == final(reg).records@[id]@);
    if old(reg).records@.contains_key(id) {
        assert(old(reg).subscribers()[id] == old(reg).records@[id]@);
    }
    assert(old(b).subscribers().contains_key(h.id) == old(b).records@.contains_key(h.id));
    assert(final(b).subscribers().contains_key(h.id) == final(b).records@.contains_key(h.id));
    if r is Ok {
        assert(final(b).subscribers()[h.id] == final(b).records@[h.id]@);
        assert(old(b).subscribers()[h.id] == old(b).records@[h.id]@);
    }
}

/// Posting needs a loop that runs and takes the event.
pub proof fn posting_needs_a_running_loop(
    running: bool,
    taken: bool,
    user: bool,
    r: Result<(), WinitRuntimeError>,
)
    requires
        call_ensures(post_outcome, (running, taken, user), r),
    ensures
        r is Ok <==> running && taken,
        !running ==> r->Err_0 is NotInitialized,
        running && !taken ==> r->Err_0 is Backend,
{
}

/// A configuration for window options has their port and their scripts and is otherwise plain; a
/// configuration that they enrich keeps all else, and their scripts come after its own.
pub proof fn window_options_reach_the_configuration(
    opts: &WindowOptions,
    c: ControllerConfig,
    base: ControllerConfig,
    d: ControllerConfig,
    i: int,
)
    requires
        call_ensures(to_controller_config_from_options, (opts,), c),
        call_ensures(controller_config_with_base, (base, opts), d),
    ensures
        c.devtools_port == opts.devtools_port,
        same_list(c.init_scripts@, opts.initialization_scripts@),
        c.mode is InProcess && c.external_bin_path is None && c.resources_dir is None
            && c.user_agent is None && c.unix_socket_path is None,
        opts.devtools_port is Some ==> d.devtools_port == opts.devtools_port,
        opts.devtools_port is None ==> d.devtools_port == base.devtools_port,
        d.mode == base.mode,
        same_option(d.external_bin_path, base.external_bin_path),
        same_option(d.resources_dir, base.resources_dir),
        same_option(d.user_agent, base.user_agent),
        same_option(d.unix_socket_path, base.unix_socket_path),
        d.init_scripts@.len() == base.init_scripts@.len() + opts.initialization_scripts@.len(),
        0 <= i < base.init_scripts@.len() ==> d.init_scripts@[i]@ == base.init_scripts@[i]@,
        0 <= i < opts.initialization_scripts@.len() ==> d.init_scripts@[base.init_scripts@.len()
            + i]@ == opts.initialization_scripts@[i]@,
{
    lists_agree(c.init_scripts@, opts.initialization_scripts@);
    let (x, y, z) = (
        views(d.init_scripts@),
        views(base.init_scripts@),
        views(opts.initialization_scripts@),
    );
    assert(x == y + z);
    assert(x.len() == d.init_scripts@.len() && y.len() == base.init_scripts@.len() && z.len()
        == opts.initialization_scripts@.len());
    if 0 <= i < base.init_scripts@.len() {
        assert(x[i] == d.init_scripts@[i]@ && y[i] == base.init_scripts@[i]@);
    }
    if 0 <= i < opts.initialization_scripts@.len() {
        let k = base.init_scripts@.len() + i;
        assert(x[k] == d.init_scripts@[k]@ && z[i] == opts.initialization_scripts@[i]@);
    }
}

/// A setting is what it was last set to, and setting one leaves the others; the place of the server
/// is fixed once it is known, and until then is the server beside the program.
pub proof fn settings_are_kept(
    a: &mut Settings,
    path: &str,
    x: (),
    b: &mut Settings,
    beside: &Option<String>,
    y: String,
    c: &mut Settings,
    dir: &str,
    z: (),
    d: &mut Settings,
    port: u16,
    w: (),
    e: &Settings,
    rd: Option<String>,
    rp: Option<u16>,
)
    requires
        call_ensures(Settings::set_verso_path, (a, path), x),
        call_ensures(Settings::get_verso_path, (b, beside), y),
        call_ensures(Settings::set_verso_resource_directory, (c, dir), z),
        call_ensures(Settings::set_verso_devtools_port, (d, port), w),
        call_ensures(Settings::get_verso_resource_directory, (e,), rd),
        call_ensures(Settings::get_verso_devtools_port, (e,), rp),
    ensures
        final(a).verso_path is Some && final(a).verso_path->0@ == path@,
        same_option(final(a).resource_directory, old(a).resource_directory),
        final(a).devtools_port == old(a).devtools_port,
        old(b).verso_path is Some ==> y@ == old(b).verso_path->0@,
        old(b).verso_path is None && beside is Some ==> y@ == beside->0@,
        final(b).verso_path is Some && final(b).verso_path->0@ == y@,
        same_option(final(b).resource_directory, old(b).resource_directory),
        final(b).devtools_port == old(b).devtools_port,
        final(c).resource_directory is Some && final(c).resource_directory->0@ == dir@,
        same_option(final(c).verso_path, old(c).verso_path),
        final(c).devtools_port == old(c).devtools_port,
        final(d).devtools_port == Some(port),
        same_option(final(d).verso_path, old(d).verso_path),
        same_option(final(d).resource_directory, old(d).resource_directory),
        same_option(rd, e.resource_directory),
        rp == e.devtools_port,
{
}

/// A hook that is set is the one that was given; the other hooks and the options stay.
pub proof fn hooks_are_set_one_by_one<
    T,
    N,
    F,
    C,
    G: Fn(&str),
    O: Fn(&WindowOptions),
    P: Fn(),
    Q: Fn(),
>(
    a: VersoWindowBuilder<T, N, F, C>,
    g: G,
    w: VersoWindowBuilder<Hook<G>, N, F, C>,
    o: O,
    x: VersoWindowBuilder<T, Hook<O>, F, C>,
    p: P,
    y: VersoWindowBuilder<T, N, Hook<P>, C>,
    q: Q,
    z: VersoWindowBuilder<T, N, F, Hook<Q>>,
)
    requires
        call_ensures(VersoWindowBuilder::<T, N, F, C>::on_title_changed::<G>, (a, g), w),
        call_ensures(VersoWindowBuilder::<T, N, F, C>::on_new_window::<O>, (a, o), x),
        call_ensures(VersoWindowBuilder::<T, N, F, C>::on_focus::<P>, (a, p), y),
        call_ensures(VersoWindowBuilder::<T, N, F, C>::on_close::<Q>, (a, q), z),
    ensures
        w.opts == a.opts && x.opts == a.opts && y.opts == a.opts && z.opts == a.opts,
        w.hooks.on_title_changed == Hook(g),
        w.hooks.on_new_window == a.hooks.on_new_window && w.hooks.on_focus == a.hooks.on_focus
            && w.hooks.on_close == a.hooks.on_close,
        x.hooks.on_new_window == Hook(o),
        x.hooks.on_title_changed == a.hooks.on_title_changed && x.hooks.on_focus
            == a.hooks.on_focus && x.hooks.on_close == a.hooks.on_close,
        y.hooks.on_focus == Hook(p),
        y.hooks.on_title_changed == a.hooks.on_title_changed && y.hooks.on_new_window
            == a.hooks.on_new_window && y.hooks.on_close == a.hooks.on_close,
        z.hooks.on_close == Hook(q),
        z.hooks.on_title_changed == a.hooks.on_title_changed && z.hooks.on_new_window
            == a.hooks.on_new_window && z.hooks.on_focus == a.hooks.on_focus,
{
}

/// The subscribers of a window are told in the order in which they were added; of a window that is
/// not there, nobody is.
pub proof fn subscribers_are_listed_in_order<W, S>(
    a: &mut WindowRegistry<W, S>,
    h: WinitWindowHandle,
    s: S,
    r: Result<(), WinitRuntimeError>,
    b: &WindowRegistry<W, S>,
    c: &WindowRegistry<W, S>,
    other: WinitWindowHandle,
    now: Result<&Vec<S>, WinitRuntimeError>,
    before: Result<&Vec<S>, WinitRuntimeError>,
)
    requires
        call_ensures(WindowRegistry::<W, S>::add_subscriber, (a, h, s), r),
        *b == *final(a),
        *c == *old(a),
        call_ensures(WindowRegistry::<W, S>::window_subscribers, (b, other), now),
        call_ensures(WindowRegistry::<W, S>::window_subscribers, (c, other), before),
    ensures
        now is Ok <==> before is Ok,
        now is Err ==> now->Err_0 == WinitRuntimeError::UnknownWindow(other.id),
        other.id == h.id ==> (r is Ok <==> before is Ok),
        other.id == h.id && r is Ok ==> now->Ok_0@ == before->Ok_0@.push(s),
        other.id != h.id && before is Ok ==> now->Ok_0@ == before->Ok_0@,
{
    assert(b.subscribers().contains_key(other.id) == c.subscribers().contains_key(other.id));
}

/// The text of an error tells the window, what is missing, or what went wrong.
pub proof fn loop_error_says_what_went_wrong(e: &WinitRuntimeError, shown: &str, s: String)
    requires
        call_ensures(WinitRuntimeError::to_text, (e, shown), s),
    ensures
        e is UnknownWindow ==> s@[0] == 'u' && ends_with(s@, shown@),
        e is NotInitialized ==> s@[0] == 'n' && ends_with(s@, e->NotInitialized_0@),
        e is Backend ==> s@[0] == 'b' && ends_with(s@, e->Backend_0@),
{
    reveal_strlit("unknown window: ");
    reveal_strlit("not initialized: ");
    reveal_strlit("backend error: ");
    let end = match *e {
        WinitRuntimeError::UnknownWindow(_) => shown@,
        WinitRuntimeError::NotInitialized(w) => w@,
        WinitRuntimeError::Backend(m) => m@,
    };
    assert(s@.skip(s@.len() - end.len()) =~= end);
}

} // verus!
