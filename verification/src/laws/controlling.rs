//! What the controllers do that run in this process.
use vstd::prelude::*;
use crate::controller::{
    ensure_initialized, ensure_ready, ControllerCapabilities, ControllerConfig, ControllerCore,
    ControllerError, InputEvent, MockWebviewController, PhysicalSize, WebviewController,
};
use crate::calls::Sink;
use crate::controller::ControllerEvent;
use crate::in_process_controller::InProcessController;
use crate::laws::hosting::{ends_with, same_configuration};
use crate::laws::{lists_agree, same_option};
use crate::winit_runtime::NativeSurfaceHandles;

verus! {

/// Nothing that a controller keeps differs.
pub open spec fn unchanged(a: ControllerCore, b: ControllerCore) -> bool {
    &&& a.initialized == b.initialized
    &&& a.surface_bound == b.surface_bound
    &&& a.alive == b.alive
    &&& a.visible == b.visible
    &&& same_option(a.last_url, b.last_url)
    &&& same_option(a.last_script, b.last_script)
    &&& a.last_size == b.last_size
    &&& a.input_events == b.input_events
    &&& a.draws_requested == b.draws_requested
    &&& a.draws_performed == b.draws_performed
    &&& a.config is Some <==> b.config is Some
}

/// Whether a controller can work on the page.
pub open spec fn usable(c: ControllerCore) -> bool {
    c.initialized && c.surface_bound && c.alive
}

/// A controller that cannot be used answers why: it was not set up, or it has no surface, or it was
/// shut down, in this order; and nothing about it changes.
pub open spec fn refused(
    pre: ControllerCore,
    post: ControllerCore,
    r: Result<(), ControllerError>,
) -> bool {
    &&& r is Err
    &&& r->Err_0 is NotInitialized <==> !pre.initialized
    &&& r->Err_0 is SurfaceNotBound <==> pre.initialized && !pre.surface_bound
    &&& r->Err_0 is InvalidState <==> pre.initialized && pre.surface_bound
    &&& unchanged(post, pre)
}

/// Being set up is all that the first check asks, and the second asks for a surface and for life
/// too.
pub proof fn checks_ask_for_what_they_name(
    a: bool,
    x: Result<(), ControllerError>,
    initialized: bool,
    bound: bool,
    alive: bool,
    y: Result<(), ControllerError>,
)
    requires
        call_ensures(ensure_initialized, (a,), x),
        call_ensures(ensure_ready, (initialized, bound, alive), y),
    ensures
        x is Ok <==> a,
        x is Err ==> x->Err_0 is NotInitialized,
        y is Ok <==> initialized && bound && alive,
        y is Err && !initialized ==> y->Err_0 is NotInitialized,
        y is Err && initialized && !bound ==> y->Err_0 is SurfaceNotBound,
        y is Err && initialized && bound ==> y->Err_0 is InvalidState,
{
}

/// A new controller is neither set up nor bound nor alive, and remembers nothing.
pub proof fn new_core_knows_nothing(c: ControllerCore)
    requires
        call_ensures(ControllerCore::new, (), c),
    ensures
        !c.initialized && !c.surface_bound && !c.alive && !c.visible,
        c.last_url is None && c.last_script is None && c.last_size is None,
        c.input_events == 0 && c.draws_requested == 0 && c.draws_performed == 0,
        c.config is None,
{
}

/// The text of an error ends with what it was given, and errors of different kinds say different
/// things.
pub proof fn error_text_says_what_went_wrong(e: &ControllerError, s: String)
    requires
        call_ensures(ControllerError::to_text, (e,), s),
    ensures
        e is NotInitialized ==> ends_with(s@, e->NotInitialized_0@) && s@[0] == 'n',
        e is SurfaceNotBound ==> s@.len() > 0 && s@[0] == 's',
        e is InvalidState ==> ends_with(s@, e->InvalidState_0@) && s@[0] == 'i',
        e is Unsupported ==> ends_with(s@, e->Unsupported_0@) && s@[0] == 'u',
        e is Backend ==> ends_with(s@, e->Backend_0@) && s@[0] == 'b',
        e is BackendMsg ==> ends_with(s@, e->BackendMsg_0@) && s@[0] == 'b',
{
    reveal_strlit("not initialized: ");
    reveal_strlit("surface not bound");
    reveal_strlit("invalid state: ");
    reveal_strlit("unsupported: ");
    reveal_strlit("backend error: ");
    let end = match *e {
        ControllerError::NotInitialized(t) => t@,
        ControllerError::InvalidState(t) => t@,
        ControllerError::Unsupported(t) => t@,
        ControllerError::Backend(t) => t@,
        ControllerError::BackendMsg(t) => t@,
        ControllerError::SurfaceNotBound => Seq::empty(),
    };
    assert(s@.skip(s@.len() - end.len()) =~= end);
}

/// A load remembers its URL and changes nothing else (of the bookkeeping); a controller that cannot
/// be used refuses.
pub proof fn load_is_remembered_by_core(
    c: &mut ControllerCore,
    url: &str,
    r: Result<(), ControllerError>,
)
    requires
        call_ensures(ControllerCore::load, (c, url), r),
    ensures
        !usable(*old(c)) ==> refused(*old(c), *final(c), r),
        usable(*old(c)) ==> {
            &&& r is Ok
            &&& final(c).last_url is Some && final(c).last_url->0@ == url@
            &&& final(c).initialized == old(c).initialized
            &&& final(c).surface_bound == old(c).surface_bound
            &&& final(c).alive == old(c).alive
            &&& final(c).visible == old(c).visible
            &&& same_option(final(c).last_script, old(c).last_script)
            &&& final(c).last_size == old(c).last_size
            &&& final(c).input_events == old(c).input_events
            &&& final(c).draws_requested == old(c).draws_requested
            &&& final(c).draws_performed == old(c).draws_performed
        },
{
}

/// A script is remembered and changes nothing else (of the bookkeeping); a controller that cannot
/// be used refuses.
pub proof fn script_is_remembered_by_core(
    c: &mut ControllerCore,
    source: &str,
    r: Result<(), ControllerError>,
)
    requires
        call_ensures(ControllerCore::eval_script, (c, source), r),
    ensures
        !usable(*old(c)) ==> refused(*old(c), *final(c), r),
        usable(*old(c)) ==> {
            &&& r is Ok
            &&& final(c).last_script is Some && final(c).last_script->0@ == source@
            &&& final(c).initialized == old(c).initialized
            &&& final(c).surface_bound == old(c).surface_bound
            &&& final(c).alive == old(c).alive
            &&& final(c).visible == old(c).visible
            &&& same_option(final(c).last_url, old(c).last_url)
            &&& final(c).last_size == old(c).last_size
            &&& final(c).input_events == old(c).input_events
            &&& final(c).draws_requested == old(c).draws_requested
            &&& final(c).draws_performed == old(c).draws_performed
        },
{
}

/// A size is remembered as given and changes nothing else (of the bookkeeping); a controller that
/// cannot be used refuses.
pub proof fn size_is_remembered_by_core(
    c: &mut ControllerCore,
    size: PhysicalSize,
    r: Result<(), ControllerError>,
)
    requires
        call_ensures(ControllerCore::resize, (c, size), r),
    ensures
        !usable(*old(c)) ==> refused(*old(c), *final(c), r),
        usable(*old(c)) ==> {
            &&& r is Ok
            &&& final(c).last_size == Some(size)
            &&& final(c).initialized == old(c).initialized
            &&& final(c).surface_bound == old(c).surface_bound
            &&& final(c).alive == old(c).alive
            &&& final(c).visible == old(c).visible
            &&& same_option(final(c).last_url, old(c).last_url)
            &&& same_option(final(c).last_script, old(c).last_script)
            &&& final(c).input_events == old(c).input_events
            &&& final(c).draws_requested == old(c).draws_requested
            &&& final(c).draws_performed == old(c).draws_performed
        },
{
}

/// A scheduled draw is counted as one (of the bookkeeping); a controller that cannot be used
/// refuses.
pub proof fn scheduled_draw_is_counted_by_core(
    c: &mut ControllerCore,
    r: Result<(), ControllerError>,
)
    requires
        call_ensures(ControllerCore::request_draw, (c,), r),
    ensures
        !usable(*old(c)) ==> refused(*old(c), *final(c), r),
        usable(*old(c)) ==> {
            &&& r is Ok
            &&& old(c).draws_requested < usize::MAX ==> final(c).draws_requested
                == old(c).draws_requested + 1
            &&& old(c).draws_requested == usize::MAX ==> final(c).draws_requested == 0
            &&& final(c).initialized == old(c).initialized
            &&& final(c).surface_bound == old(c).surface_bound
            &&& final(c).alive == old(c).alive
            &&& final(c).visible == old(c).visible
            &&& same_option(final(c).last_url, old(c).last_url)
            &&& same_option(final(c).last_script, old(c).last_script)
            &&& final(c).last_size == old(c).last_size
            &&& final(c).input_events == old(c).input_events
            &&& final(c).draws_performed == old(c).draws_performed
        },
{
}

/// An immediate draw is counted as one (of the bookkeeping); a controller that cannot be used
/// refuses.
pub proof fn draw_is_counted_by_core(
    c: &mut ControllerCore,
    r: Result<(), ControllerError>,
)
    requires
        call_ensures(ControllerCore::draw, (c,), r),
    ensures
        !usable(*old(c)) ==> refused(*old(c), *final(c), r),
        usable(*old(c)) ==> {
            &&& r is Ok
            &&& old(c).draws_performed < usize::MAX ==> final(c).draws_performed
                == old(c).draws_performed + 1
            &&& old(c).draws_performed == usize::MAX ==> final(c).draws_performed == 0
            &&& final(c).initialized == old(c).initialized
            &&& final(c).surface_bound == old(c).surface_bound
            &&& final(c).alive == old(c).alive
            &&& final(c).visible == old(c).visible
            &&& same_option(final(c).last_url, old(c).last_url)
            &&& same_option(final(c).last_script, old(c).last_script)
            &&& final(c).last_size == old(c).last_size
            &&& final(c).input_events == old(c).input_events
            &&& final(c).draws_requested == old(c).draws_requested
        },
{
}

/// An input event is counted as one (of the bookkeeping); a controller that cannot be used refuses.
pub proof fn input_is_counted_by_core(
    c: &mut ControllerCore,
    r: Result<(), ControllerError>,
)
    requires
        call_ensures(ControllerCore::send_input, (c,), r),
    ensures
        !usable(*old(c)) ==> refused(*old(c), *final(c), r),
        usable(*old(c)) ==> {
            &&& r is Ok
            &&& old(c).input_events < usize::MAX ==> final(c).input_events
                == old(c).input_events + 1
            &&& old(c).input_events == usize::MAX ==> final(c).input_events == 0
            &&& final(c).initialized == old(c).initialized
            &&& final(c).surface_bound == old(c).surface_bound
            &&& final(c).alive == old(c).alive
            &&& final(c).visible == old(c).visible
            &&& same_option(final(c).last_url, old(c).last_url)
            &&& same_option(final(c).last_script, old(c).last_script)
            &&& final(c).last_size == old(c).last_size
            &&& final(c).draws_requested == old(c).draws_requested
            &&& final(c).draws_performed == old(c).draws_performed
        },
{
}

/// Visibility is recorded as given (of the bookkeeping); a controller that cannot be used refuses.
pub proof fn visibility_is_recorded_by_core(
    c: &mut ControllerCore,
    visible: bool,
    r: Result<(), ControllerError>,
)
    requires
        call_ensures(ControllerCore::set_visibility, (c, visible), r),
    ensures
        !usable(*old(c)) ==> refused(*old(c), *final(c), r),
        usable(*old(c)) ==> {
            &&& r is Ok
            &&& final(c).visible == visible
            &&& final(c).initialized == old(c).initialized
            &&& final(c).surface_bound == old(c).surface_bound
            &&& final(c).alive == old(c).alive
            &&& same_option(final(c).last_url, old(c).last_url)
            &&& same_option(final(c).last_script, old(c).last_script)
            &&& final(c).last_size == old(c).last_size
            &&& final(c).input_events == old(c).input_events
            &&& final(c).draws_requested == old(c).draws_requested
            &&& final(c).draws_performed == old(c).draws_performed
        },
{
}

/// Focus changes nothing (of the bookkeeping); a controller that cannot be used refuses.
pub proof fn focus_changes_nothing_by_core(
    c: &mut ControllerCore,
    r: Result<(), ControllerError>,
)
    requires
        call_ensures(ControllerCore::focus, (c,), r),
    ensures
        !usable(*old(c)) ==> refused(*old(c), *final(c), r),
        usable(*old(c)) ==> {
            &&& r is Ok
            &&& final(c).initialized == old(c).initialized
            &&& final(c).surface_bound == old(c).surface_bound
            &&& final(c).alive == old(c).alive
            &&& final(c).visible == old(c).visible
            &&& same_option(final(c).last_url, old(c).last_url)
            &&& same_option(final(c).last_script, old(c).last_script)
            &&& final(c).last_size == old(c).last_size
            &&& final(c).input_events == old(c).input_events
            &&& final(c).draws_requested == old(c).draws_requested
            &&& final(c).draws_performed == old(c).draws_performed
        },
{
}

/// Setting up of the bookkeeping succeeds once, keeps the configuration whole, and brings it to
/// life.
pub proof fn configuration_is_kept_by_core(
    c: &mut ControllerCore,
    config: ControllerConfig,
    r: Result<(), ControllerError>,
)
    requires
        call_ensures(ControllerCore::initialize, (c, config), r),
    ensures
        r is Ok <==> !old(c).initialized,
        r is Err ==> r->Err_0 is InvalidState && unchanged(*final(c), *old(c)),
        r is Ok ==> {
            &&& final(c).initialized && final(c).alive
            &&& final(c).config is Some
            &&& same_configuration(final(c).config->0, config)
            &&& final(c).surface_bound == old(c).surface_bound
            &&& final(c).visible == old(c).visible
            &&& same_option(final(c).last_url, old(c).last_url)
            &&& same_option(final(c).last_script, old(c).last_script)
            &&& final(c).last_size == old(c).last_size
            &&& final(c).input_events == old(c).input_events
            &&& final(c).draws_requested == old(c).draws_requested
            &&& final(c).draws_performed == old(c).draws_performed
        },
{
    if r is Ok {
        assert(final(c).config->0@ == config@);
        lists_agree(final(c).config->0.init_scripts@, config.init_scripts@);
    }
}

/// Binding of the bookkeeping succeeds once, after setting up.
pub proof fn binding_happens_once_by_core(
    c: &mut ControllerCore,
    r: Result<(), ControllerError>,
)
    requires
        call_ensures(ControllerCore::bind_surface, (c,), r),
    ensures
        r is Ok <==> old(c).initialized && !old(c).surface_bound,
        r is Err ==> unchanged(*final(c), *old(c)),
        r is Err && !old(c).initialized ==> r->Err_0 is NotInitialized,
        r is Err && old(c).initialized ==> r->Err_0 is InvalidState,
        r is Ok ==> {
            &&& final(c).surface_bound
            &&& final(c).initialized == old(c).initialized
            &&& final(c).alive == old(c).alive
            &&& final(c).visible == old(c).visible
            &&& same_option(final(c).last_url, old(c).last_url)
            &&& same_option(final(c).last_script, old(c).last_script)
            &&& final(c).last_size == old(c).last_size
            &&& final(c).input_events == old(c).input_events
            &&& final(c).draws_requested == old(c).draws_requested
            &&& final(c).draws_performed == old(c).draws_performed
        },
{
}

/// Shutting down of the bookkeeping ends its life and nothing else; it needs setting up.
pub proof fn shutdown_ends_life_by_core(
    c: &mut ControllerCore,
    r: Result<(), ControllerError>,
)
    requires
        call_ensures(ControllerCore::shutdown, (c,), r),
    ensures
        r is Ok <==> old(c).initialized,
        r is Err ==> r->Err_0 is NotInitialized && unchanged(*final(c), *old(c)),
        r is Ok ==> {
            &&& !final(c).alive
            &&& final(c).initialized == old(c).initialized
            &&& final(c).surface_bound == old(c).surface_bound
            &&& final(c).visible == old(c).visible
            &&& same_option(final(c).last_url, old(c).last_url)
            &&& same_option(final(c).last_script, old(c).last_script)
            &&& final(c).last_size == old(c).last_size
            &&& final(c).input_events == old(c).input_events
            &&& final(c).draws_requested == old(c).draws_requested
            &&& final(c).draws_performed == old(c).draws_performed
        },
{
}

/// A load remembers its URL and changes nothing else (of a controller in this process); a
/// controller that cannot be used refuses.
pub proof fn load_is_remembered_by_in_process(
    c: &mut InProcessController,
    url: &str,
    r: Result<(), ControllerError>,
)
    requires
        call_ensures(<InProcessController as WebviewController>::load, (c, url), r),
    ensures
        !usable(old(c).core) ==> refused(old(c).core, final(c).core, r),
        usable(old(c).core) ==> {
            &&& r is Ok
            &&& final(c).core.last_url is Some && final(c).core.last_url->0@ == url@
            &&& final(c).core.initialized == old(c).core.initialized
            &&& final(c).core.surface_bound == old(c).core.surface_bound
            &&& final(c).core.alive == old(c).core.alive
            &&& final(c).core.visible == old(c).core.visible
            &&& same_option(final(c).core.last_script, old(c).core.last_script)
            &&& final(c).core.last_size == old(c).core.last_size
            &&& final(c).core.input_events == old(c).core.input_events
            &&& final(c).core.draws_requested == old(c).core.draws_requested
            &&& final(c).core.draws_performed == old(c).core.draws_performed
        },
{
}

/// A script is remembered and changes nothing else (of a controller in this process); a controller
/// that cannot be used refuses.
pub proof fn script_is_remembered_by_in_process(
    c: &mut InProcessController,
    source: &str,
    r: Result<(), ControllerError>,
)
    requires
        call_ensures(<InProcessController as WebviewController>::eval_script, (c, source), r),
    ensures
        !usable(old(c).core) ==> refused(old(c).core, final(c).core, r),
        usable(old(c).core) ==> {
            &&& r is Ok
            &&& final(c).core.last_script is Some && final(c).core.last_script->0@ == source@
            &&& final(c).core.initialized == old(c).core.initialized
            &&& final(c).core.surface_bound == old(c).core.surface_bound
            &&& final(c).core.alive == old(c).core.alive
            &&& final(c).core.visible == old(c).core.visible
            &&& same_option(final(c).core.last_url, old(c).core.last_url)
            &&& final(c).core.last_size == old(c).core.last_size
            &&& final(c).core.input_events == old(c).core.input_events
            &&& final(c).core.draws_requested == old(c).core.draws_requested
            &&& final(c).core.draws_performed == old(c).core.draws_performed
        },
{
}

/// A size is remembered as given and changes nothing else (of a controller in this process); a
/// controller that cannot be used refuses.
pub proof fn size_is_remembered_by_in_process(
    c: &mut InProcessController,
    size: PhysicalSize,
    r: Result<(), ControllerError>,
)
    requires
        call_ensures(<InProcessController as WebviewController>::resize, (c, size), r),
    ensures
        !usable(old(c).core) ==> refused(old(c).core, final(c).core, r),
        usable(old(c).core) ==> {
            &&& r is Ok
            &&& final(c).core.last_size == Some(size)
            &&& final(c).core.initialized == old(c).core.initialized
            &&& final(c).core.surface_bound == old(c).core.surface_bound
            &&& final(c).core.alive == old(c).core.alive
            &&& final(c).core.visible == old(c).core.visible
            &&& same_option(final(c).core.last_url, old(c).core.last_url)
            &&& same_option(final(c).core.last_script, old(c).core.last_script)
            &&& final(c).core.input_events == old(c).core.input_events
            &&& final(c).core.draws_requested == old(c).core.draws_requested
            &&& final(c).core.draws_performed == old(c).core.draws_performed
        },
{
}

/// A scheduled draw is counted as one (of a controller in this process); a controller that cannot
/// be used refuses.
pub proof fn scheduled_draw_is_counted_by_in_process(
    c: &mut InProcessController,
    r: Result<(), ControllerError>,
)
    requires
        call_ensures(<InProcessController as WebviewController>::request_draw, (c,), r),
    ensures
        !usable(old(c).core) ==> refused(old(c).core, final(c).core, r),
        usable(old(c).core) ==> {
            &&& r is Ok
            &&& old(c).core.draws_requested < usize::MAX ==> final(c).core.draws_requested
                == old(c).core.draws_requested + 1
            &&& old(c).core.draws_requested == usize::MAX ==> final(c).core.draws_requested == 0
            &&& final(c).core.initialized == old(c).core.initialized
            &&& final(c).core.surface_bound == old(c).core.surface_bound
            &&& final(c).core.alive == old(c).core.alive
            &&& final(c).core.visible == old(c).core.visible
            &&& same_option(final(c).core.last_url, old(c).core.last_url)
            &&& same_option(final(c).core.last_script, old(c).core.last_script)
            &&& final(c).core.last_size == old(c).core.last_size
            &&& final(c).core.input_events == old(c).core.input_events
            &&& final(c).core.draws_performed == old(c).core.draws_performed
        },
{
}

/// An immediate draw is counted as one (of a controller in this process); a controller that cannot
/// be used refuses.
pub proof fn draw_is_counted_by_in_process(
    c: &mut InProcessController,
    r: Result<(), ControllerError>,
)
    requires
        call_ensures(<InProcessController as WebviewController>::draw, (c,), r),
    ensures
        !usable(old(c).core) ==> refused(old(c).core, final(c).core, r),
        usable(old(c).core) ==> {
            &&& r is Ok
            &&& old(c).core.draws_performed < usize::MAX ==> final(c).core.draws_performed
                == old(c).core.draws_performed + 1
            &&& old(c).core.draws_performed == usize::MAX ==> final(c).core.draws_performed == 0
            &&& final(c).core.initialized == old(c).core.initialized
            &&& final(c).core.surface_bound == old(c).core.surface_bound
            &&& final(c).core.alive == old(c).core.alive
            &&& final(c).core.visible == old(c).core.visible
            &&& same_option(final(c).core.last_url, old(c).core.last_url)
            &&& same_option(final(c).core.last_script, old(c).core.last_script)
            &&& final(c).core.last_size == old(c).core.last_size
            &&& final(c).core.input_events == old(c).core.input_events
            &&& final(c).core.draws_requested == old(c).core.draws_requested
        },
{
}

/// An input event is counted as one (of a controller in this process); a controller that cannot be
/// used refuses.
pub proof fn input_is_counted_by_in_process(
    c: &mut InProcessController,
    event: InputEvent,
    r: Result<(), ControllerError>,
)
    requires
        call_ensures(<InProcessController as WebviewController>::send_input, (c, event), r),
    ensures
        !usable(old(c).core) ==> refused(old(c).core, final(c).core, r),
        usable(old(c).core) ==> {
            &&& r is Ok
            &&& old(c).core.input_events < usize::MAX ==> final(c).core.input_events
                == old(c).core.input_events + 1
            &&& old(c).core.input_events == usize::MAX ==> final(c).core.input_events == 0
            &&& final(c).core.initialized == old(c).core.initialized
            &&& final(c).core.surface_bound == old(c).core.surface_bound
            &&& final(c).core.alive == old(c).core.alive
            &&& final(c).core.visible == old(c).core.visible
            &&& same_option(final(c).core.last_url, old(c).core.last_url)
            &&& same_option(final(c).core.last_script, old(c).core.last_script)
            &&& final(c).core.last_size == old(c).core.last_size
            &&& final(c).core.draws_requested == old(c).core.draws_requested
            &&& final(c).core.draws_performed == old(c).core.draws_performed
        },
{
}

/// Visibility is recorded as given (of a controller in this process); a controller that cannot be
/// used refuses.
pub proof fn visibility_is_recorded_by_in_process(
    c: &mut InProcessController,
    visible: bool,
    r: Result<(), ControllerError>,
)
    requires
        call_ensures(<InProcessController as WebviewController>::set_visibility, (c, visible), r),
    ensures
        !usable(old(c).core) ==> refused(old(c).core, final(c).core, r),
        usable(old(c).core) ==> {
            &&& r is Ok
            &&& final(c).core.visible == visible
            &&& final(c).core.initialized == old(c).core.initialized
            &&& final(c).core.surface_bound == old(c).core.surface_bound
            &&& final(c).core.alive == old(c).core.alive
            &&& same_option(final(c).core.last_url, old(c).core.last_url)
            &&& same_option(final(c).core.last_script, old(c).core.last_script)
            &&& final(c).core.last_size == old(c).core.last_size
            &&& final(c).core.input_events == old(c).core.input_events
            &&& final(c).core.draws_requested == old(c).core.draws_requested
            &&& final(c).core.draws_performed == old(c).core.draws_performed
        },
{
}

/// Focus changes nothing (of a controller in this process); a controller that cannot be used
/// refuses.
pub proof fn focus_changes_nothing_by_in_process(
    c: &mut InProcessController,
    r: Result<(), ControllerError>,
)
    requires
        call_ensures(<InProcessController as WebviewController>::focus, (c,), r),
    ensures
        !usable(old(c).core) ==> refused(old(c).core, final(c).core, r),
        usable(old(c).core) ==> {
            &&& r is Ok
            &&& final(c).core.initialized == old(c).core.initialized
            &&& final(c).core.surface_bound == old(c).core.surface_bound
            &&& final(c).core.alive == old(c).core.alive
            &&& final(c).core.visible == old(c).core.visible
            &&& same_option(final(c).core.last_url, old(c).core.last_url)
            &&& same_option(final(c).core.last_script, old(c).core.last_script)
            &&& final(c).core.last_size == old(c).core.last_size
            &&& final(c).core.input_events == old(c).core.input_events
            &&& final(c).core.draws_requested == old(c).core.draws_requested
            &&& final(c).core.draws_performed == old(c).core.draws_performed
        },
{
}

/// Setting up of a controller in this process succeeds once, keeps the configuration whole, and
/// brings it to life.
pub proof fn configuration_is_kept_by_in_process(
    c: &mut InProcessController,
    config: ControllerConfig,
    r: Result<(), ControllerError>,
)
    requires
        call_ensures(<InProcessController as WebviewController>::initialize, (c, config), r),
    ensures
        r is Ok <==> !old(c).core.initialized,
        r is Err ==> r->Err_0 is InvalidState && unchanged(final(c).core, old(c).core),
        r is Ok ==> {
            &&& final(c).core.initialized && final(c).core.alive
            &&& final(c).core.config is Some
            &&& same_configuration(final(c).core.config->0, config)
            &&& final(c).core.surface_bound == old(c).core.surface_bound
            &&& final(c).core.visible == old(c).core.visible
            &&& same_option(final(c).core.last_url, old(c).core.last_url)
            &&& same_option(final(c).core.last_script, old(c).core.last_script)
            &&& final(c).core.last_size == old(c).core.last_size
            &&& final(c).core.input_events == old(c).core.input_events
            &&& final(c).core.draws_requested == old(c).core.draws_requested
            &&& final(c).core.draws_performed == old(c).core.draws_performed
        },
{
    if r is Ok {
        assert(final(c).core.config->0@ == config@);
        lists_agree(final(c).core.config->0.init_scripts@, config.init_scripts@);
    }
}

/// Binding of a controller in this process succeeds once, after setting up.
pub proof fn binding_happens_once_by_in_process(
    c: &mut InProcessController,
    handles: NativeSurfaceHandles,
    r: Result<(), ControllerError>,
)
    requires
        call_ensures(<InProcessController as WebviewController>::bind_surface, (c, handles), r),
    ensures
        r is Ok <==> old(c).core.initialized && !old(c).core.surface_bound,
        r is Err ==> unchanged(final(c).core, old(c).core),
        r is Err && !old(c).core.initialized ==> r->Err_0 is NotInitialized,
        r is Err && old(c).core.initialized ==> r->Err_0 is InvalidState,
        r is Ok ==> {
            &&& final(c).core.surface_bound
            &&& final(c).core.initialized == old(c).core.initialized
            &&& final(c).core.alive == old(c).core.alive
            &&& final(c).core.visible == old(c).core.visible
            &&& same_option(final(c).core.last_url, old(c).core.last_url)
            &&& same_option(final(c).core.last_script, old(c).core.last_script)
            &&& final(c).core.last_size == old(c).core.last_size
            &&& final(c).core.input_events == old(c).core.input_events
            &&& final(c).core.draws_requested == old(c).core.draws_requested
            &&& final(c).core.draws_performed == old(c).core.draws_performed
        },
{
}

/// Shutting down of a controller in this process ends its life and nothing else; it needs setting
/// up.
pub proof fn shutdown_ends_life_by_in_process(
    c: &mut InProcessController,
    r: Result<(), ControllerError>,
)
    requires
        call_ensures(<InProcessController as WebviewController>::shutdown, (c,), r),
    ensures
        r is Ok <==> old(c).core.initialized,
        r is Err ==> r->Err_0 is NotInitialized && unchanged(final(c).core, old(c).core),
        r is Ok ==> {
            &&& !final(c).core.alive
            &&& final(c).core.initialized == old(c).core.initialized
            &&& final(c).core.surface_bound == old(c).core.surface_bound
            &&& final(c).core.visible == old(c).core.visible
            &&& same_option(final(c).core.last_url, old(c).core.last_url)
            &&& same_option(final(c).core.last_script, old(c).core.last_script)
            &&& final(c).core.last_size == old(c).core.last_size
            &&& final(c).core.input_events == old(c).core.input_events
            &&& final(c).core.draws_requested == old(c).core.draws_requested
            &&& final(c).core.draws_performed == old(c).core.draws_performed
        },
{
}

/// A load remembers its URL and changes nothing else (of the mock controller); a controller that
/// cannot be used refuses.
pub proof fn load_is_remembered_by_mock<S: Sink<ControllerEvent>>(
    c: &mut MockWebviewController<S>,
    url: &str,
    r: Result<(), ControllerError>,
)
    requires
        call_ensures(<MockWebviewController<S> as WebviewController>::load, (c, url), r),
    ensures
        !usable(old(c).core) ==> refused(old(c).core, final(c).core, r),
        usable(old(c).core) ==> {
            &&& r is Ok
            &&& final(c).core.last_url is Some && final(c).core.last_url->0@ == url@
            &&& final(c).core.initialized == old(c).core.initialized
            &&& final(c).core.surface_bound == old(c).core.surface_bound
            &&& final(c).core.alive == old(c).core.alive
            &&& final(c).core.visible == old(c).core.visible
            &&& same_option(final(c).core.last_script, old(c).core.last_script)
            &&& final(c).core.last_size == old(c).core.last_size
            &&& final(c).core.input_events == old(c).core.input_events
            &&& final(c).core.draws_requested == old(c).core.draws_requested
            &&& final(c).core.draws_performed == old(c).core.draws_performed
        },
{
}

/// A script is remembered and changes nothing else (of the mock controller); a controller that
/// cannot be used refuses.
pub proof fn script_is_remembered_by_mock<S: Sink<ControllerEvent>>(
    c: &mut MockWebviewController<S>,
    source: &str,
    r: Result<(), ControllerError>,
)
    requires
        call_ensures(<MockWebviewController<S> as WebviewController>::eval_script, (c, source), r),
    ensures
        !usable(old(c).core) ==> refused(old(c).core, final(c).core, r),
        usable(old(c).core) ==> {
            &&& r is Ok
            &&& final(c).core.last_script is Some && final(c).core.last_script->0@ == source@
            &&& final(c).core.initialized == old(c).core.initialized
            &&& final(c).core.surface_bound == old(c).core.surface_bound
            &&& final(c).core.alive == old(c).core.alive
            &&& final(c).core.visible == old(c).core.visible
            &&& same_option(final(c).core.last_url, old(c).core.last_url)
            &&& final(c).core.last_size == old(c).core.last_size
            &&& final(c).core.input_events == old(c).core.input_events
            &&& final(c).core.draws_requested == old(c).core.draws_requested
            &&& final(c).core.draws_performed == old(c).core.draws_performed
        },
{
}

/// A size is remembered as given and changes nothing else (of the mock controller); a controller
/// that cannot be used refuses.
pub proof fn size_is_remembered_by_mock<S: Sink<ControllerEvent>>(
    c: &mut MockWebviewController<S>,
    size: PhysicalSize,
    r: Result<(), ControllerError>,
)
    requires
        call_ensures(<MockWebviewController<S> as WebviewController>::resize, (c, size), r),
    ensures
        !usable(old(c).core) ==> refused(old(c).core, final(c).core, r),
        usable(old(c).core) ==> {
            &&& r is Ok
            &&& final(c).core.last_size == Some(size)
            &&& final(c).core.initialized == old(c).core.initialized
            &&& final(c).core.surface_bound == old(c).core.surface_bound
            &&& final(c).core.alive == old(c).core.alive
            &&& final(c).core.visible == old(c).core.visible
            &&& same_option(final(c).core.last_url, old(c).core.last_url)
            &&& same_option(final(c).core.last_script, old(c).core.last_script)
            &&& final(c).core.input_events == old(c).core.input_events
            &&& final(c).core.draws_requested == old(c).core.draws_requested
            &&& final(c).core.draws_performed == old(c).core.draws_performed
        },
{
}

/// A scheduled draw is counted as one (of the mock controller); a controller that cannot be used
/// refuses.
pub proof fn scheduled_draw_is_counted_by_mock<S: Sink<ControllerEvent>>(
    c: &mut MockWebviewController<S>,
    r: Result<(), ControllerError>,
)
    requires
        call_ensures(<MockWebviewController<S> as WebviewController>::request_draw, (c,), r),
    ensures
        !usable(old(c).core) ==> refused(old(c).core, final(c).core, r),
        usable(old(c).core) ==> {
            &&& r is Ok
            &&& old(c).core.draws_requested < usize::MAX ==> final(c).core.draws_requested
                == old(c).core.draws_requested + 1
            &&& old(c).core.draws_requested == usize::MAX ==> final(c).core.draws_requested == 0
            &&& final(c).core.initialized == old(c).core.initialized
            &&& final(c).core.surface_bound == old(c).core.surface_bound
            &&& final(c).core.alive == old(c).core.alive
            &&& final(c).core.visible == old(c).core.visible
            &&& same_option(final(c).core.last_url, old(c).core.last_url)
            &&& same_option(final(c).core.last_script, old(c).core.last_script)
            &&& final(c).core.last_size == old(c).core.last_size
            &&& final(c).core.input_events == old(c).core.input_events
            &&& final(c).core.draws_performed == old(c).core.draws_performed
        },
{
}

/// An immediate draw is counted as one (of the mock controller); a controller that cannot be used
/// refuses.
pub proof fn draw_is_counted_by_mock<S: Sink<ControllerEvent>>(
    c: &mut MockWebviewController<S>,
    r: Result<(), ControllerError>,
)
    requires
        call_ensures(<MockWebviewController<S> as WebviewController>::draw, (c,), r),
    ensures
        !usable(old(c).core) ==> refused(old(c).core, final(c).core, r),
        usable(old(c).core) ==> {
            &&& r is Ok
            &&& old(c).core.draws_performed < usize::MAX ==> final(c).core.draws_performed
                == old(c).core.draws_performed + 1
            &&& old(c).core.draws_performed == usize::MAX ==> final(c).core.draws_performed == 0
            &&& final(c).core.initialized == old(c).core.initialized
            &&& final(c).core.surface_bound == old(c).core.surface_bound
            &&& final(c).core.alive == old(c).core.alive
            &&& final(c).core.visible == old(c).core.visible
            &&& same_option(final(c).core.last_url, old(c).core.last_url)
            &&& same_option(final(c).core.last_script, old(c).core.last_script)
            &&& final(c).core.last_size == old(c).core.last_size
            &&& final(c).core.input_events == old(c).core.input_events
            &&& final(c).core.draws_requested == old(c).core.draws_requested
        },
{
}

/// An input event is counted as one (of the mock controller); a controller that cannot be used
/// refuses.
pub proof fn input_is_counted_by_mock<S: Sink<ControllerEvent>>(
    c: &mut MockWebviewController<S>,
    event: InputEvent,
    r: Result<(), ControllerError>,
)
    requires
        call_ensures(<MockWebviewController<S> as WebviewController>::send_input, (c, event), r),
    ensures
        !usable(old(c).core) ==> refused(old(c).core, final(c).core, r),
        usable(old(c).core) ==> {
            &&& r is Ok
            &&& old(c).core.input_events < usize::MAX ==> final(c).core.input_events
                == old(c).core.input_events + 1
            &&& old(c).core.input_events == usize::MAX ==> final(c).core.input_events == 0
            &&& final(c).core.initialized == old(c).core.initialized
            &&& final(c).core.surface_bound == old(c).core.surface_bound
            &&& final(c).core.alive == old(c).core.alive
            &&& final(c).core.visible == old(c).core.visible
            &&& same_option(final(c).core.last_url, old(c).core.last_url)
            &&& same_option(final(c).core.last_script, old(c).core.last_script)
            &&& final(c).core.last_size == old(c).core.last_size
            &&& final(c).core.draws_requested == old(c).core.draws_requested
            &&& final(c).core.draws_performed == old(c).core.draws_performed
        },
{
}

/// Visibility is recorded as given (of the mock controller); a controller that cannot be used
/// refuses.
pub proof fn visibility_is_recorded_by_mock<S: Sink<ControllerEvent>>(
    c: &mut MockWebviewController<S>,
    visible: bool,
    r: Result<(), ControllerError>,
)
    requires
        call_ensures(<MockWebviewController<S> as WebviewController>::set_visibility, (c, visible), r),
    ensures
        !usable(old(c).core) ==> refused(old(c).core, final(c).core, r),
        usable(old(c).core) ==> {
            &&& r is Ok
            &&& final(c).core.visible == visible
            &&& final(c).core.initialized == old(c).core.initialized
            &&& final(c).core.surface_bound == old(c).core.surface_bound
            &&& final(c).core.alive == old(c).core.alive
            &&& same_option(final(c).core.last_url, old(c).core.last_url)
            &&& same_option(final(c).core.last_script, old(c).core.last_script)
            &&& final(c).core.last_size == old(c).core.last_size
            &&& final(c).core.input_events == old(c).core.input_events
            &&& final(c).core.draws_requested == old(c).core.draws_requested
            &&& final(c).core.draws_performed == old(c).core.draws_performed
        },
{
}

/// Focus changes nothing (of the mock controller); a controller that cannot be used refuses.
pub proof fn focus_changes_nothing_by_mock<S: Sink<ControllerEvent>>(
    c: &mut MockWebviewController<S>,
    r: Result<(), ControllerError>,
)
    requires
        call_ensures(<MockWebviewController<S> as WebviewController>::focus, (c,), r),
    ensures
        !usable(old(c).core) ==> refused(old(c).core, final(c).core, r),
        usable(old(c).core) ==> {
            &&& r is Ok
            &&& final(c).core.initialized == old(c).core.initialized
            &&& final(c).core.surface_bound == old(c).core.surface_bound
            &&& final(c).core.alive == old(c).core.alive
            &&& final(c).core.visible == old(c).core.visible
            &&& same_option(final(c).core.last_url, old(c).core.last_url)
            &&& same_option(final(c).core.last_script, old(c).core.last_script)
            &&& final(c).core.last_size == old(c).core.last_size
            &&& final(c).core.input_events == old(c).core.input_events
            &&& final(c).core.draws_requested == old(c).core.draws_requested
            &&& final(c).core.draws_performed == old(c).core.draws_performed
        },
{
}

/// Setting up of the mock controller succeeds once, keeps the configuration whole, and brings it to
/// life.
pub proof fn configuration_is_kept_by_mock<S: Sink<ControllerEvent>>(
    c: &mut MockWebviewController<S>,
    config: ControllerConfig,
    r: Result<(), ControllerError>,
)
    requires
        call_ensures(<MockWebviewController<S> as WebviewController>::initialize, (c, config), r),
    ensures
        r is Ok <==> !old(c).core.initialized,
        r is Err ==> r->Err_0 is InvalidState && unchanged(final(c).core, old(c).core),
        r is Ok ==> {
            &&& final(c).core.initialized && final(c).core.alive
            &&& final(c).core.config is Some
            &&& same_configuration(final(c).core.config->0, config)
            &&& final(c).core.surface_bound == old(c).core.surface_bound
            &&& final(c).core.visible == old(c).core.visible
            &&& same_option(final(c).core.last_url, old(c).core.last_url)
            &&& same_option(final(c).core.last_script, old(c).core.last_script)
            &&& final(c).core.last_size == old(c).core.last_size
            &&& final(c).core.input_events == old(c).core.input_events
            &&& final(c).core.draws_requested == old(c).core.draws_requested
            &&& final(c).core.draws_performed == old(c).core.draws_performed
        },
{
    if r is Ok {
        assert(final(c).core.config->0@ == config@);
        lists_agree(final(c).core.config->0.init_scripts@, config.init_scripts@);
    }
}

/// Binding of the mock controller succeeds once, after setting up.
pub proof fn binding_happens_once_by_mock<S: Sink<ControllerEvent>>(
    c: &mut MockWebviewController<S>,
    handles: NativeSurfaceHandles,
    r: Result<(), ControllerError>,
)
    requires
        call_ensures(<MockWebviewController<S> as WebviewController>::bind_surface, (c, handles), r),
    ensures
        r is Ok <==> old(c).core.initialized && !old(c).core.surface_bound,
        r is Err ==> unchanged(final(c).core, old(c).core),
        r is Err && !old(c).core.initialized ==> r->Err_0 is NotInitialized,
        r is Err && old(c).core.initialized ==> r->Err_0 is InvalidState,
        r is Ok ==> {
            &&& final(c).core.surface_bound
            &&& final(c).core.initialized == old(c).core.initialized
            &&& final(c).core.alive == old(c).core.alive
            &&& final(c).core.visible == old(c).core.visible
            &&& same_option(final(c).core.last_url, old(c).core.last_url)
            &&& same_option(final(c).core.last_script, old(c).core.last_script)
            &&& final(c).core.last_size == old(c).core.last_size
            &&& final(c).core.input_events == old(c).core.input_events
            &&& final(c).core.draws_requested == old(c).core.draws_requested
            &&& final(c).core.draws_performed == old(c).core.draws_performed
        },
{
}

/// Shutting down of the mock controller ends its life and nothing else; it needs setting up.
pub proof fn shutdown_ends_life_by_mock<S: Sink<ControllerEvent>>(
    c: &mut MockWebviewController<S>,
    r: Result<(), ControllerError>,
)
    requires
        call_ensures(<MockWebviewController<S> as WebviewController>::shutdown, (c,), r),
    ensures
        r is Ok <==> old(c).core.initialized,
        r is Err ==> r->Err_0 is NotInitialized && unchanged(final(c).core, old(c).core),
        r is Ok ==> {
            &&& !final(c).core.alive
            &&& final(c).core.initialized == old(c).core.initialized
            &&& final(c).core.surface_bound == old(c).core.surface_bound
            &&& final(c).core.visible == old(c).core.visible
            &&& same_option(final(c).core.last_url, old(c).core.last_url)
            &&& same_option(final(c).core.last_script, old(c).core.last_script)
            &&& final(c).core.last_size == old(c).core.last_size
            &&& final(c).core.input_events == old(c).core.input_events
            &&& final(c).core.draws_requested == old(c).core.draws_requested
            &&& final(c).core.draws_performed == old(c).core.draws_performed
        },
{
}

/// The mock controller reports a load as a committed navigation to its URL and a script as a debug
/// line, each once, and reports nothing where it refuses; other calls report nothing.
pub proof fn mock_reports_what_was_done<S: Sink<ControllerEvent>>(
    a: &mut MockWebviewController<S>,
    url: &str,
    loaded: Result<(), ControllerError>,
    b: &mut MockWebviewController<S>,
    source: &str,
    ran: Result<(), ControllerError>,
    c: &mut MockWebviewController<S>,
    drawn: Result<(), ControllerError>,
)
    requires
        call_ensures(<MockWebviewController<S> as WebviewController>::load, (a, url), loaded),
        call_ensures(<MockWebviewController<S> as WebviewController>::eval_script, (b, source), ran),
        call_ensures(<MockWebviewController<S> as WebviewController>::draw, (c,), drawn),
        old(a).event_sink is Some,
        old(b).event_sink is Some,
    ensures
        loaded is Err ==> final(a).reports@ == old(a).reports@,
        loaded is Ok ==> {
            let said = final(a).reports@.last();
            &&& final(a).reports@.len() == old(a).reports@.len() + 1
            &&& final(a).reports@.drop_last() == old(a).reports@
            &&& said is Navigation && said->status is Committed
            &&& said->Navigation_url == Some(url@)
            &&& said->http_status == Some(200u16)
        },
        ran is Err ==> final(b).reports@ == old(b).reports@,
        ran is Ok ==> {
            let said = final(b).reports@.last();
            &&& final(b).reports@.len() == old(b).reports@.len() + 1
            &&& final(b).reports@.drop_last() == old(b).reports@
            &&& said is Console && said->level is Debug
            &&& said->message == "eval_script executed"@ && said->source == Some("mock"@)
            &&& said->line is None && said->column is None
        },
        final(c).reports@ == old(c).reports@,
{
    assert(loaded is Ok ==> final(a).reports@.drop_last() =~= old(a).reports@);
    assert(ran is Ok ==> final(b).reports@.drop_last() =~= old(b).reports@);
}

/// The counters and records of the mock controller are told as they are.
pub proof fn mock_tells_its_records<S: Sink<ControllerEvent>>(
    c: &MockWebviewController<S>,
    inputs: usize,
    requested: usize,
    performed: usize,
    url: Option<&str>,
    script: Option<&str>,
    size: Option<PhysicalSize>,
)
    requires
        call_ensures(MockWebviewController::<S>::input_event_count, (c,), inputs),
        call_ensures(MockWebviewController::<S>::draws_requested, (c,), requested),
        call_ensures(MockWebviewController::<S>::draws_performed, (c,), performed),
        call_ensures(MockWebviewController::<S>::last_url, (c,), url),
        call_ensures(MockWebviewController::<S>::last_script, (c,), script),
        call_ensures(MockWebviewController::<S>::last_size, (c,), size),
    ensures
        inputs == c.core.input_events,
        requested == c.core.draws_requested,
        performed == c.core.draws_performed,
        url is Some <==> c.core.last_url is Some,
        url is Some ==> url->0@ == c.core.last_url->0@,
        script is Some <==> c.core.last_script is Some,
        script is Some ==> script->0@ == c.core.last_script->0@,
        size == c.core.last_size,
{
}

/// The diagnostics give the input events, then the draws requested, then the draws made; a
/// controller in this process has no event receiver and no handshake.
pub proof fn in_process_controller_tells_its_records(
    c: &InProcessController,
    d: (usize, usize, usize),
    s: &mut InProcessController,
    r: Result<(), ControllerError>,
    caps: Option<ControllerCapabilities>,
    alive: bool,
)
    requires
        call_ensures(InProcessController::diagnostics, (c,), d),
        call_ensures(<InProcessController as WebviewController>::set_event_sink, (s, ()), r),
        call_ensures(<InProcessController as WebviewController>::capabilities, (c,), caps),
        call_ensures(<InProcessController as WebviewController>::is_alive, (c,), alive),
    ensures
        d.0 == c.core.input_events && d.1 == c.core.draws_requested && d.2
            == c.core.draws_performed,
        r is Err && r->Err_0 is Unsupported && r->Err_0->Unsupported_0@
            == "event sink not supported"@,
        caps is None,
        alive == c.core.alive,
{
}

} // verus!
