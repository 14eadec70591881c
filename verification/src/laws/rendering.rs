//! What the engines draw and what they keep.
use vstd::prelude::*;
use vstd::std_specs::hash::*;
use std::collections::hash_map::DefaultHasher;
use crate::calls::Function;
use crate::dioxus_engine::{
    byte_of, draws, hash_page, hash_to_rgba, hash_writes, loaded, normalize_load_input, page_hash,
    page_kind, paint, picture, picture_byte, pictured, shaded, DioxusEngine, PageKind, Shades,
};
use crate::engine::{
    bitmap, bitmap_at, choose_devtools, gradient, gradient_at, one_or_more, size_for_surface,
    stride_of, DemoEngine, Engine, EngineCall, EngineCapabilities, EngineError, EngineFrame,
    EngineInit, EngineReply,
};
use crate::ipc_protocol::{CompressedFormat, IpcInputEvent, PixelFormat, Real32, SurfaceDescriptor};
use crate::laws::hosting::ends_with;
use crate::laws::{lists_agree, same_list, same_option};
use crate::png::{encode_bitmap, holds_bitmap, png_file, to_rgba, unpad};
use crate::servo_engine::{
    load_target, normalize_url, sanitize_scale, worker_refusal, ServoEngine, ServoWorkerEngine,
    WorkerCommand, WorkerReply,
};

verus! {

/// A side of a picture: what was asked for, but at least one pixel.
pub open spec fn is_side(asked: u32, side: u32) -> bool {
    side >= 1 && (asked >= 1 ==> side == asked) && (asked == 0 ==> side == 1)
}

/// An explicit port wins; 0 asks for the configured one, and so does no wish at all.
pub proof fn devtools_port_is_chosen(requested: Option<u16>, configured: Option<u16>, r: Option<u16>)
    requires
        call_ensures(choose_devtools, (requested, configured), r),
    ensures
        requested is Some && requested->0 != 0 ==> r == requested,
        requested is None ==> r == configured,
        requested == Some(0u16) && configured is Some ==> r == configured,
        requested == Some(0u16) && configured is None ==> r == Some(0u16),
{
}

/// No side is empty, a row has four bytes for each pixel, and a surface of a known size gives that
/// size while another keeps what there is.
pub proof fn sizes_are_kept(
    n: u32,
    side: u32,
    w: u32,
    stride: u32,
    surface: &SurfaceDescriptor,
    width: u32,
    height: u32,
    start_width: u32,
    start_height: u32,
    size: (u32, u32),
)
    requires
        call_ensures(one_or_more, (n,), side),
        call_ensures(stride_of, (w,), stride),
        call_ensures(size_for_surface, (surface, width, height, start_width, start_height), size),
    ensures
        is_side(n, side),
        w <= 0x3FFF_FFFF ==> stride == 4 * w,
        surface is Fallback ==> is_side(surface->Fallback_width, size.0) && is_side(
            surface->Fallback_height,
            size.1,
        ),
        !(surface is Fallback) && width > 0 && height > 0 ==> size == (width, height),
        !(surface is Fallback) && (width == 0 || height == 0) ==> size == (
            start_width,
            start_height,
        ),
{
}

/// The gradient: at column `x` and row `y` stand the column, the row, a fixed blue, and no
/// transparency.
pub open spec fn is_gradient(bytes: Seq<u8>, w: u32, h: u32) -> bool {
    &&& bytes.len() == 4 * w * h
    &&& forall|x: int, y: int|
        0 <= x < w && 0 <= y < h ==> #[trigger] is_gradient_pixel(bytes, w, x, y)
}

/// One pixel of the gradient.
pub open spec fn is_gradient_pixel(bytes: Seq<u8>, w: u32, x: int, y: int) -> bool {
    let at = y * (4 * w) + x * 4;
    bytes[at] == x % 256 && bytes[at + 1] == y % 256 && bytes[at + 2] == 0x80 && bytes[at + 3]
        == 0xFF
}

pub(crate) proof fn gradient_is_gradient(w: u32, h: u32)
    ensures
        is_gradient(gradient(w as nat, h as nat), w, h),
{
    let g = gradient(w as nat, h as nat);
    assert(g.len() == 4 * (w as nat) * (h as nat));
    assert forall|x: int, y: int| 0 <= x < w && 0 <= y < h implies #[trigger] is_gradient_pixel(
        g,
        w,
        x,
        y,
    ) by {
        gradient_at(w as nat, h as nat, x as nat, y as nat, 0);
        gradient_at(w as nat, h as nat, x as nat, y as nat, 1);
        gradient_at(w as nat, h as nat, x as nat, y as nat, 2);
        gradient_at(w as nat, h as nat, x as nat, y as nat, 3);
    }
}

/// The frame is a tight RGBA bitmap of the gradient of the given size, by value or to be shared.
pub open spec fn shows_demo(f: EngineFrame, w: u32, h: u32, shared: bool) -> bool {
    if shared {
        match f {
            EngineFrame::SharedMemoryExport { width, height, stride, format, bytes } => width == w
                && height == h && (w <= 0x3FFF_FFFF ==> stride == 4 * w) && format is Rgba8888 && is_gradient(
                bytes@,
                w,
                h,
            ),
            _ => false,
        }
    } else {
        match f {
            EngineFrame::SharedMemoryInline { width, height, stride, format, bytes } => width == w
                && height == h && (w <= 0x3FFF_FFFF ==> stride == 4 * w) && format is Rgba8888 && is_gradient(
                bytes@,
                w,
                h,
            ),
            _ => false,
        }
    }
}

/// What the demonstration engine was set up with is the same.
pub open spec fn demo_set_up_as(a: DemoEngine, b: DemoEngine) -> bool {
    &&& same_option(a.resources_dir, b.resources_dir)
    &&& same_option(a.user_agent, b.user_agent)
    &&& same_list(a.init_scripts@, b.init_scripts@)
    &&& a.devtools_port_cfg == b.devtools_port_cfg
    &&& a.prefer_zero_copy == b.prefer_zero_copy
    &&& a.zero_copy == b.zero_copy
}

/// The demonstration engine has the same size, page and counters.
pub open spec fn demo_runs_as(a: DemoEngine, b: DemoEngine) -> bool {
    &&& a.width == b.width && a.height == b.height && a.stride == b.stride
    &&& same_option(a.last_url, b.last_url)
    &&& a.next_frame_id == b.next_frame_id
    &&& a.input_events == b.input_events
}

/// What the page engine was set up with is the same.
pub open spec fn page_set_up_as<R, S>(a: DioxusEngine<R, S>, b: DioxusEngine<R, S>) -> bool {
    &&& same_option(a.resources_dir, b.resources_dir)
    &&& same_option(a.user_agent, b.user_agent)
    &&& same_list(a.init_scripts@, b.init_scripts@)
    &&& a.devtools_port_cfg == b.devtools_port_cfg
    &&& a.prefer_zero_copy == b.prefer_zero_copy
    &&& a.render == b.render && a.shade == b.shade
}

/// The page engine has the same size, page and counters.
pub open spec fn page_runs_as<R, S>(a: DioxusEngine<R, S>, b: DioxusEngine<R, S>) -> bool {
    &&& a.width == b.width && a.height == b.height && a.stride == b.stride
    &&& same_option(a.last_html, b.last_html)
    &&& a.next_frame_id == b.next_frame_id
    &&& a.input_events == b.input_events
}

/// Setting the demonstration engine up keeps all that it is told, and its size, page and counters
/// stay.
pub proof fn demo_engine_is_set_up_as_told(
    e: &mut DemoEngine,
    init: EngineInit,
    r: Result<EngineCapabilities, EngineError>,
)
    requires
        call_ensures(<DemoEngine as Engine>::init, (e, init), r),
    ensures
        same_option(final(e).resources_dir, init.resources_dir),
        same_option(final(e).user_agent, init.user_agent),
        same_list(final(e).init_scripts@, init.init_scripts@),
        final(e).devtools_port_cfg == init.devtools_port,
        final(e).prefer_zero_copy == init.prefer_zero_copy,
        demo_runs_as(*final(e), *old(e)),
        r is Ok && r->Ok_0.compressed_frames,
        r->Ok_0.fd_passing == old(e).zero_copy && r->Ok_0.zero_copy_frames == old(e).zero_copy,
        r->Ok_0.supported_compressed@ == seq![CompressedFormat::Png],
        final(e).zero_copy == old(e).zero_copy,
{
    lists_agree(final(e).init_scripts@, init.init_scripts@);
}

/// A new size is taken as it is, width as width and height as height, and the demonstration engine
/// keeps all else.
pub proof fn demo_engine_takes_a_size(
    e: &mut DemoEngine,
    width: u32,
    height: u32,
    r: Result<(), EngineError>,
)
    requires
        call_ensures(<DemoEngine as Engine>::resize, (e, width, height), r),
    ensures
        r is Ok,
        is_side(width, final(e).width),
        is_side(height, final(e).height),
        final(e).width <= 0x3FFF_FFFF ==> final(e).stride == 4 * final(e).width,
        demo_set_up_as(*final(e), *old(e)),
        same_option(final(e).last_url, old(e).last_url),
        final(e).next_frame_id == old(e).next_frame_id,
        final(e).input_events == old(e).input_events,
{
    lists_agree(final(e).init_scripts@, old(e).init_scripts@);
}

/// A surface of known size gives that size, another keeps the size there is or starts at the usual
/// one; the demonstration engine keeps all else.
pub proof fn demo_engine_takes_a_surface(
    e: &mut DemoEngine,
    surface: &SurfaceDescriptor,
    r: Result<(), EngineError>,
)
    requires
        call_ensures(<DemoEngine as Engine>::bind_surface, (e, surface), r),
    ensures
        r is Ok,
        surface is Fallback ==> is_side(surface->Fallback_width, final(e).width) && is_side(surface->Fallback_height, final(e).height),
        !(surface is Fallback) && old(e).width > 0 && old(e).height > 0 ==> final(e).width == old(e).width && final(e).height == old(e).height,
        !(surface is Fallback) && (old(e).width == 0 || old(e).height == 0) ==> final(e).width == 64 && final(e).height == 64,
        demo_set_up_as(*final(e), *old(e)),
        same_option(final(e).last_url, old(e).last_url),
        final(e).next_frame_id == old(e).next_frame_id,
        final(e).input_events == old(e).input_events,
{
    lists_agree(final(e).init_scripts@, old(e).init_scripts@);
}

/// Input is counted, a script changes nothing, and the demonstration engine keeps all else.
pub proof fn demo_engine_counts_input(
    e: &mut DemoEngine,
    events: &Vec<IpcInputEvent>,
    r: Result<(), EngineError>,
    f: &mut DemoEngine,
    source: &str,
    q: Result<(), EngineError>,
)
    requires
        call_ensures(<DemoEngine as Engine>::input_events, (e, events), r),
        call_ensures(<DemoEngine as Engine>::eval_script, (f, source), q),
    ensures
        r is Ok && q is Ok,
        old(e).input_events + events@.len() <= usize::MAX ==> final(e).input_events == old(e).input_events + events@.len(),
        final(e).width == old(e).width && final(e).height == old(e).height,
        same_option(final(e).last_url, old(e).last_url),
        final(e).next_frame_id == old(e).next_frame_id,
        demo_set_up_as(*final(e), *old(e)),
        demo_set_up_as(*final(f), *old(f)),
        demo_runs_as(*final(f), *old(f)),
{
    lists_agree(final(e).init_scripts@, old(e).init_scripts@);
    lists_agree(final(f).init_scripts@, old(f).init_scripts@);
    assert(crate::ipc_protocol::event_views(events@).len() == events@.len());
}

/// The demonstration engine opens the port wished for, else the configured one, and changes
/// nothing.
pub proof fn demo_engine_opens_the_port_wished_for(
    e: &mut DemoEngine,
    requested: Option<u16>,
    r: Result<Option<u16>, EngineError>,
)
    requires
        call_ensures(<DemoEngine as Engine>::open_devtools, (e, requested), r),
    ensures
        r is Ok,
        requested is Some && requested->0 != 0 ==> r->Ok_0 == requested,
        requested is None ==> r->Ok_0 == old(e).devtools_port_cfg,
        requested == Some(0u16) && old(e).devtools_port_cfg is Some ==> r->Ok_0 == old(e).devtools_port_cfg,
        demo_set_up_as(*final(e), *old(e)),
        demo_runs_as(*final(e), *old(e)),
{
    lists_agree(final(e).init_scripts@, old(e).init_scripts@);
}

/// Shutting down makes the demonstration engine forget its size and nothing else.
pub proof fn demo_engine_forgets_its_size(
    e: &mut DemoEngine,
    r: Result<(), EngineError>,
)
    requires
        call_ensures(<DemoEngine as Engine>::shutdown, (e,), r),
    ensures
        r is Ok,
        final(e).width == 0 && final(e).height == 0,
        demo_set_up_as(*final(e), *old(e)),
        final(e).next_frame_id == old(e).next_frame_id,
        final(e).input_events == old(e).input_events,
        same_option(final(e).last_url, old(e).last_url),
{
    lists_agree(final(e).init_scripts@, old(e).init_scripts@);
}

/// Setting the page engine up keeps all that it is told, and its size, page and counters stay.
pub proof fn page_engine_is_set_up_as_told<
    R: Fn(&Option<String>, usize) -> String,
    S: Fn(u32, u32, u8) -> u8,
>(
    e: &mut DioxusEngine<R, S>,
    init: EngineInit,
    r: Result<EngineCapabilities, EngineError>,
)
    requires
        call_ensures(<DioxusEngine<R, S> as Engine>::init, (e, init), r),
    ensures
        same_option(final(e).resources_dir, init.resources_dir),
        same_option(final(e).user_agent, init.user_agent),
        same_list(final(e).init_scripts@, init.init_scripts@),
        final(e).devtools_port_cfg == init.devtools_port,
        final(e).prefer_zero_copy == init.prefer_zero_copy,
        page_runs_as(*final(e), *old(e)),
        r is Ok && r->Ok_0.compressed_frames,
        !r->Ok_0.fd_passing && !r->Ok_0.zero_copy_frames,
        r->Ok_0.supported_compressed@ == seq![CompressedFormat::Png],
{
    lists_agree(final(e).init_scripts@, init.init_scripts@);
}

/// A new size is taken as it is, width as width and height as height, and the page engine keeps all
/// else.
pub proof fn page_engine_takes_a_size<
    R: Fn(&Option<String>, usize) -> String,
    S: Fn(u32, u32, u8) -> u8,
>(
    e: &mut DioxusEngine<R, S>,
    width: u32,
    height: u32,
    r: Result<(), EngineError>,
)
    requires
        call_ensures(<DioxusEngine<R, S> as Engine>::resize, (e, width, height), r),
    ensures
        r is Ok,
        is_side(width, final(e).width),
        is_side(height, final(e).height),
        final(e).width <= 0x3FFF_FFFF ==> final(e).stride == 4 * final(e).width,
        page_set_up_as(*final(e), *old(e)),
        same_option(final(e).last_html, old(e).last_html),
        final(e).next_frame_id == old(e).next_frame_id,
        final(e).input_events == old(e).input_events,
{
    lists_agree(final(e).init_scripts@, old(e).init_scripts@);
}

/// A surface of known size gives that size, another keeps the size there is or starts at the usual
/// one; the page engine keeps all else.
pub proof fn page_engine_takes_a_surface<
    R: Fn(&Option<String>, usize) -> String,
    S: Fn(u32, u32, u8) -> u8,
>(
    e: &mut DioxusEngine<R, S>,
    surface: &SurfaceDescriptor,
    r: Result<(), EngineError>,
)
    requires
        call_ensures(<DioxusEngine<R, S> as Engine>::bind_surface, (e, surface), r),
    ensures
        r is Ok,
        surface is Fallback ==> is_side(surface->Fallback_width, final(e).width) && is_side(surface->Fallback_height, final(e).height),
        !(surface is Fallback) && old(e).width > 0 && old(e).height > 0 ==> final(e).width == old(e).width && final(e).height == old(e).height,
        !(surface is Fallback) && (old(e).width == 0 || old(e).height == 0) ==> final(e).width == 800 && final(e).height == 600,
        page_set_up_as(*final(e), *old(e)),
        same_option(final(e).last_html, old(e).last_html),
        final(e).next_frame_id == old(e).next_frame_id,
        final(e).input_events == old(e).input_events,
{
    lists_agree(final(e).init_scripts@, old(e).init_scripts@);
}

/// Input is counted, a script changes nothing, and the page engine keeps all else.
pub proof fn page_engine_counts_input<
    R: Fn(&Option<String>, usize) -> String,
    S: Fn(u32, u32, u8) -> u8,
>(
    e: &mut DioxusEngine<R, S>,
    events: &Vec<IpcInputEvent>,
    r: Result<(), EngineError>,
    f: &mut DioxusEngine<R, S>,
    source: &str,
    q: Result<(), EngineError>,
)
    requires
        call_ensures(<DioxusEngine<R, S> as Engine>::input_events, (e, events), r),
        call_ensures(<DioxusEngine<R, S> as Engine>::eval_script, (f, source), q),
    ensures
        r is Ok && q is Ok,
        old(e).input_events + events@.len() <= usize::MAX ==> final(e).input_events == old(e).input_events + events@.len(),
        final(e).width == old(e).width && final(e).height == old(e).height,
        same_option(final(e).last_html, old(e).last_html),
        final(e).next_frame_id == old(e).next_frame_id,
        page_set_up_as(*final(e), *old(e)),
        page_set_up_as(*final(f), *old(f)),
        page_runs_as(*final(f), *old(f)),
{
    lists_agree(final(e).init_scripts@, old(e).init_scripts@);
    lists_agree(final(f).init_scripts@, old(f).init_scripts@);
    assert(crate::ipc_protocol::event_views(events@).len() == events@.len());
}

/// The page engine opens the port wished for, else the configured one, and changes nothing.
pub proof fn page_engine_opens_the_port_wished_for<
    R: Fn(&Option<String>, usize) -> String,
    S: Fn(u32, u32, u8) -> u8,
>(
    e: &mut DioxusEngine<R, S>,
    requested: Option<u16>,
    r: Result<Option<u16>, EngineError>,
)
    requires
        call_ensures(<DioxusEngine<R, S> as Engine>::open_devtools, (e, requested), r),
    ensures
        r is Ok,
        requested is Some && requested->0 != 0 ==> r->Ok_0 == requested,
        requested is None ==> r->Ok_0 == old(e).devtools_port_cfg,
        requested == Some(0u16) && old(e).devtools_port_cfg is Some ==> r->Ok_0 == old(e).devtools_port_cfg,
        page_set_up_as(*final(e), *old(e)),
        page_runs_as(*final(e), *old(e)),
{
    lists_agree(final(e).init_scripts@, old(e).init_scripts@);
}

/// Shutting down makes the page engine forget its size and its page and nothing else.
pub proof fn page_engine_forgets_its_size<
    R: Fn(&Option<String>, usize) -> String,
    S: Fn(u32, u32, u8) -> u8,
>(
    e: &mut DioxusEngine<R, S>,
    r: Result<(), EngineError>,
)
    requires
        call_ensures(<DioxusEngine<R, S> as Engine>::shutdown, (e,), r),
    ensures
        r is Ok,
        final(e).width == 0 && final(e).height == 0,
        page_set_up_as(*final(e), *old(e)),
        final(e).next_frame_id == old(e).next_frame_id,
        final(e).input_events == old(e).input_events,
        final(e).last_html is None,
{
    lists_agree(final(e).init_scripts@, old(e).init_scripts@);
}

/// A load is remembered by the demonstration engine, and nothing else changes.
pub proof fn demo_engine_remembers_a_load(
    e: &mut DemoEngine,
    url: &str,
    r: Result<(), EngineError>,
)
    requires
        call_ensures(<DemoEngine as Engine>::load, (e, url), r),
    ensures
        r is Ok,
        final(e).last_url is Some && final(e).last_url->0@ == url@,
        demo_set_up_as(*final(e), *old(e)),
        final(e).width == old(e).width && final(e).height == old(e).height,
        final(e).next_frame_id == old(e).next_frame_id,
        final(e).input_events == old(e).input_events,
{
    lists_agree(final(e).init_scripts@, old(e).init_scripts@);
}

/// The demonstration engine draws the gradient at its size, shared exactly where the platform can
/// and the session wants it; without a size it takes the usual one.  A scheduled draw gives the
/// same frame as an immediate one.
pub proof fn demo_engine_draws_its_size(
    e: &mut DemoEngine,
    r: Result<Option<EngineFrame>, EngineError>,
    f: &mut DemoEngine,
    q: Result<Option<EngineFrame>, EngineError>,
)
    requires
        call_ensures(<DemoEngine as Engine>::draw_now, (e,), r),
        call_ensures(<DemoEngine as Engine>::request_draw, (f,), q),
    ensures
        r is Ok && r->Ok_0 is Some,
        q is Ok && q->Ok_0 is Some,
        shows_demo(
            r->Ok_0->0,
            final(e).width,
            final(e).height,
            old(e).zero_copy && old(e).prefer_zero_copy,
        ),
        shows_demo(
            q->Ok_0->0,
            final(f).width,
            final(f).height,
            old(f).zero_copy && old(f).prefer_zero_copy,
        ),
        old(e).width > 0 && old(e).height > 0 ==> final(e).width == old(e).width && final(e).height
            == old(e).height,
        old(e).width == 0 || old(e).height == 0 ==> final(e).width == 64 && final(e).height == 64,
        old(f).width > 0 && old(f).height > 0 ==> final(f).width == old(f).width && final(f).height
            == old(f).height,
        same_option(final(e).last_url, old(e).last_url),
        final(e).input_events == old(e).input_events,
        old(e).next_frame_id < u64::MAX ==> final(e).next_frame_id == old(e).next_frame_id + 1,
        demo_set_up_as(*final(e), *old(e)),
{
    lists_agree(final(e).init_scripts@, old(e).init_scripts@);
    gradient_is_gradient(final(e).width, final(e).height);
    gradient_is_gradient(final(f).width, final(f).height);
}

/// The stand-in for Servo draws as the demonstration engine does.
pub proof fn stand_in_draws_its_size(
    e: &mut ServoEngine,
    r: Result<Option<EngineFrame>, EngineError>,
    f: &mut ServoEngine,
    url: &str,
    q: Result<(), EngineError>,
)
    requires
        call_ensures(<ServoEngine as Engine>::draw_now, (e,), r),
        call_ensures(<ServoEngine as Engine>::load, (f, url), q),
    ensures
        r is Ok && r->Ok_0 is Some,
        shows_demo(
            r->Ok_0->0,
            final(e).inner.width,
            final(e).inner.height,
            old(e).inner.zero_copy && old(e).inner.prefer_zero_copy,
        ),
        old(e).inner.width > 0 && old(e).inner.height > 0 ==> final(e).inner.width
            == old(e).inner.width && final(e).inner.height == old(e).inner.height,
        q is Ok,
        final(f).inner.last_url is Some && final(f).inner.last_url->0@ == url@,
{
    gradient_is_gradient(final(e).inner.width, final(e).inner.height);
}

/// New engines have no size, no page and nothing counted; only the one that was asked to shares.
pub proof fn new_engines_know_nothing(a: DemoEngine, b: DemoEngine, c: ServoEngine)
    requires
        call_ensures(DemoEngine::new, (), a),
        call_ensures(DemoEngine::with_zero_copy, (), b),
        call_ensures(ServoEngine::new, (), c),
    ensures
        !a.zero_copy && b.zero_copy && !c.inner.zero_copy,
        a.width == 0 && a.height == 0 && a.last_url is None && a.input_events == 0,
        b.width == 0 && b.height == 0 && b.last_url is None && b.input_events == 0,
        !a.prefer_zero_copy && !b.prefer_zero_copy,
        a.init_scripts@.len() == 0 && a.user_agent is None && a.devtools_port_cfg is None,
{
    assert(a@.init_scripts.len() == a.init_scripts@.len());
}

/// One of the low four bytes of a hash.
pub open spec fn hash_part(h: u64, i: int) -> int {
    if i == 0 {
        h as int % 256
    } else if i == 1 {
        h as int / 256 % 256
    } else if i == 2 {
        h as int / 65536 % 256
    } else {
        h as int / 16777216 % 256
    }
}

proof fn hash_parts(h: u64)
    ensures
        (h & 0xFF) as u8 == hash_part(h, 0),
        ((h >> 8) & 0xFF) as u8 == hash_part(h, 1),
        ((h >> 16) & 0xFF) as u8 == hash_part(h, 2),
        ((h >> 24) & 0xFF) as u8 == hash_part(h, 3),
{
    assert(h & 0xFF == h % 256) by (bit_vector);
    assert((h >> 8) & 0xFF == (h / 256) % 256) by (bit_vector);
    assert((h >> 16) & 0xFF == (h / 65536) % 256) by (bit_vector);
    assert((h >> 24) & 0xFF == (h / 16777216) % 256) by (bit_vector);
}

/// The colour of a page is made of the three low bytes of its hash and is opaque, and the hash is
/// that of its text.
pub proof fn page_colour_comes_from_its_text(
    html: &str,
    h: u64,
    c: (u8, u8, u8, u8),
    i: u32,
    b: u8,
)
    requires
        call_ensures(hash_page, (html,), h),
        call_ensures(hash_to_rgba, (h,), c),
        i < 4,
        call_ensures(byte_of, (h, i), b),
    ensures
        h == DefaultHasher::spec_finish(hash_writes(html@)),
        c.0 == hash_part(h, 0) && c.1 == hash_part(h, 1) && c.2 == hash_part(h, 2) && c.3 == 255,
        b == hash_part(h, i as int),
{
    hash_parts(h);
}

/// A pixel of the picture of a page: in the middle third of the rows the colour of its bar, a
/// quarter of the width each, elsewhere the shades of its row; opaque everywhere.
pub open spec fn is_page_pixel(
    bytes: Seq<u8>,
    hash: u64,
    rows: Seq<Shades>,
    w: u32,
    h: u32,
    x: int,
    y: int,
) -> bool {
    let at = y * (4 * w) + x * 4;
    let quarter = w as int / 4;
    let bar = if quarter == 0 || x >= 3 * quarter {
        3int
    } else if x >= 2 * quarter {
        2int
    } else if x >= quarter {
        1int
    } else {
        0int
    };
    let shade = hash_part(hash, bar);
    &&& bytes[at + 3] == 255
    &&& if h as int / 3 <= y < 2 * h / 3 {
        bytes[at] == shade && bytes[at + 1] == 255 - shade && bytes[at + 2] == (shade as u8) ^ 0x5A
    } else {
        bytes[at] == rows[y].red && bytes[at + 1] == rows[y].green && bytes[at + 2] == rows[y].blue
    }
}

/// The picture of a page.
pub open spec fn is_page_picture(
    bytes: Seq<u8>,
    hash: u64,
    rows: Seq<Shades>,
    w: u32,
    h: u32,
) -> bool {
    &&& bytes.len() == 4 * w * h
    &&& forall|x: int, y: int|
        0 <= x < w && 0 <= y < h ==> #[trigger] is_page_pixel(bytes, hash, rows, w, h, x, y)
}

proof fn bars_are_quarters(x: nat, w: nat)
    requires
        x < w,
    ensures
        crate::dioxus_engine::bar_at(x, w) == (if w / 4 == 0 || x >= 3 * (w / 4) {
            3int
        } else if x >= 2 * (w / 4) {
            2int
        } else if x >= w / 4 {
            1int
        } else {
            0int
        }),
{
    let q = w / 4;
    if q > 0 {
        let k = x / q;
        assert(k * q <= x < (k + 1) * q) by (nonlinear_arith)
            requires
                q > 0,
                k == x / q,
        ;
        assert(k >= 3 ==> x >= 3 * q) by (nonlinear_arith)
            requires
                k * q <= x,
                q > 0,
        ;
        assert(k == 2 ==> 2 * q <= x < 3 * q) by (nonlinear_arith)
            requires
                k * q <= x < (k + 1) * q,
        ;
        assert(k == 1 ==> q <= x < 2 * q) by (nonlinear_arith)
            requires
                k * q <= x < (k + 1) * q,
        ;
        assert(k == 0 ==> x < q) by (nonlinear_arith)
            requires
                k * q <= x < (k + 1) * q,
        ;
    }
}

proof fn picture_is_page_picture(hash: u64, rows: Seq<Shades>, w: u32, h: u32)
    ensures
        is_page_picture(picture(hash, rows, w as nat, h as nat), hash, rows, w, h),
{
    let p = picture(hash, rows, w as nat, h as nat);
    let pixel = |x: nat, y: nat, c: nat| picture_byte(hash, rows, w as nat, h as nat, x, y, c);
    hash_parts(hash);
    assert(p.len() == 4 * (w as nat) * (h as nat));
    assert forall|x: int, y: int| 0 <= x < w && 0 <= y < h implies #[trigger] is_page_pixel(
        p,
        hash,
        rows,
        w,
        h,
        x,
        y,
    ) by {
        bitmap_at(w as nat, h as nat, pixel, x as nat, y as nat, 0);
        bitmap_at(w as nat, h as nat, pixel, x as nat, y as nat, 1);
        bitmap_at(w as nat, h as nat, pixel, x as nat, y as nat, 2);
        bitmap_at(w as nat, h as nat, pixel, x as nat, y as nat, 3);
        bars_are_quarters(x as nat, w as nat);
    }
}

/// Painting puts every pixel where it belongs.
pub proof fn every_pixel_is_painted(
    hash: u64,
    rows: &Vec<Shades>,
    width: u32,
    height: u32,
    bytes: Vec<u8>,
)
    requires
        call_ensures(paint, (hash, rows, width, height), bytes),
    ensures
        is_page_picture(bytes@, hash, rows@, width, height),
{
    picture_is_page_picture(hash, rows@, width, height);
}

/// Two texts are the same but for the case of Latin letters.
pub open spec fn same_letters(a: Seq<char>, b: Seq<char>) -> bool {
    a.len() == b.len() && forall|i: int| 0 <= i < a.len() ==> same_letter(#[trigger] a[i], b[i])
}

/// Two characters are the same but for the case of Latin letters.
pub open spec fn same_letter(a: char, b: char) -> bool {
    let (x, y) = (a as u32 as int, b as u32 as int);
    x == y || (65 <= x <= 90 && y == x + 32) || (65 <= y <= 90 && x == y + 32)
}

/// The text is HTML: it begins, after blanks and line ends, with an angle bracket.
pub open spec fn looks_like_html(s: Seq<char>, k: int) -> bool {
    &&& 0 <= k < s.len() && s[k] == '<'
    &&& forall|j: int| 0 <= j < k ==> (#[trigger] s[j] == ' ' || s[j] == '\n' || s[j] == '\t')
}

proof fn trimming_finds_the_bracket(s: Seq<char>, k: int)
    requires
        looks_like_html(s, k),
    ensures
        crate::text::trim_start(s).len() > 0,
        crate::text::trim_start(s)[0] == '<',
    decreases s.len(),
{
    if k > 0 {
        assert(s[0] == ' ' || s[0] == '\n' || s[0] == '\t');
        let t = s.drop_first();
        assert forall|j: int| 0 <= j < k - 1 implies (#[trigger] t[j] == ' ' || t[j] == '\n' || t[j]
            == '\t') by {
            assert(t[j] == s[j + 1]);
        }
        assert(t[k - 1] == s[k]);
        trimming_finds_the_bracket(t, k - 1);
    }
}

proof fn without_bracket_nothing_is_found(s: Seq<char>)
    requires
        !s.contains('<'),
    ensures
        !(crate::text::trim_start(s).len() > 0 && crate::text::trim_start(s)[0] == '<'),
    decreases s.len(),
{
    if s.len() > 0 {
        assert(s[0] != '<');
        if crate::text::is_white(s[0]) {
            let t = s.drop_first();
            assert(!t.contains('<')) by {
                if t.contains('<') {
                    let i = choose|i: int| 0 <= i < t.len() && t[i] == '<';
                    assert(s[i + 1] == '<');
                }
            }
            without_bracket_nothing_is_found(t);
        }
    }
}

pub(crate) proof fn letters_and_cases(a: Seq<char>, b: Seq<char>)
    ensures
        crate::text::same_ignoring_case(a, b) <==> same_letters(a, b),
{
    if crate::text::same_ignoring_case(a, b) {
        assert forall|i: int| 0 <= i < a.len() implies same_letter(#[trigger] a[i], b[i]) by {
            assert(crate::text::folded(a[i]) == crate::text::folded(b[i]));
        }
    }
    if same_letters(a, b) {
        assert forall|i: int| 0 <= i < a.len() implies crate::text::folded(a[i])
            == crate::text::folded(b[i]) by {
            assert(same_letter(a[i], b[i]));
        }
    }
}

/// HTML is loaded as it is, whatever blanks come before it, and so is an HTML data URL.
pub proof fn html_is_loaded_as_it_is(s: &str, built_in: &str, page: String, k: int)
    requires
        call_ensures(normalize_load_input, (s, built_in), page),
        looks_like_html(s@, k) || "data:text/html"@.is_prefix_of(s@),
    ensures
        page@ == s@,
{
    if looks_like_html(s@, k) {
        trimming_finds_the_bracket(s@, k);
    }
}

/// The blank page, by its name in any case, is an HTML page with an empty body.
pub proof fn blank_page_is_empty(s: &str, built_in: &str, page: String)
    requires
        call_ensures(normalize_load_input, (s, built_in), page),
        same_letters(s@, "about:blank"@),
    ensures
        page@.len() > 0 && page@[0] == '<',
        ends_with(page@, "<body></body></html>"@),
{
    reveal_strlit("about:blank");
    reveal_strlit("data:text/html");
    reveal_strlit("<body></body></html>");
    reveal_strlit(
        "<!doctype html><html><head><meta charset=\"utf-8\"><title>blank</title></head><body></body></html>",
    );
    let name = "about:blank"@;
    letters_and_cases(s@, name);
    assert(!s@.contains('<')) by {
        if s@.contains('<') {
            let i = choose|i: int| 0 <= i < s@.len() && s@[i] == '<';
            assert(same_letter(s@[i], name[i]));
        }
    }
    without_bracket_nothing_is_found(s@);
    if "data:text/html"@.is_prefix_of(s@) {
        assert("data:text/html"@.len() <= s@.len());
    }
    let end = "<body></body></html>"@;
    assert(page@.skip(page@.len() - end.len()) =~= end);
}

/// Both names of the built-in page, in any case, lead to it.
pub proof fn built_in_page_is_loaded_by_name(s: &str, built_in: &str, page: String)
    requires
        call_ensures(normalize_load_input, (s, built_in), page),
        same_letters(s@, "dioxus://default"@) || same_letters(s@, "about:dioxus"@),
    ensures
        page@ == built_in@,
{
    reveal_strlit("about:blank");
    reveal_strlit("data:text/html");
    reveal_strlit("dioxus://default");
    reveal_strlit("about:dioxus");
    let name = if same_letters(s@, "dioxus://default"@) {
        "dioxus://default"@
    } else {
        "about:dioxus"@
    };
    letters_and_cases(s@, "dioxus://default"@);
    letters_and_cases(s@, "about:dioxus"@);
    letters_and_cases(s@, "about:blank"@);
    assert(!s@.contains('<')) by {
        if s@.contains('<') {
            let i = choose|i: int| 0 <= i < s@.len() && s@[i] == '<';
            assert(same_letter(s@[i], name[i]));
        }
    }
    without_bracket_nothing_is_found(s@);
    let data = "data:text/html"@;
    if data.is_prefix_of(s@) {
        assert(data[1] == s@.subrange(0, data.len() as int)[1]);
        assert(same_letter(s@[1], name[1]));
    }
}

/// Any other text becomes the paragraph of an HTML page.
pub proof fn other_text_becomes_a_paragraph(s: &str, built_in: &str, page: String)
    requires
        call_ensures(normalize_load_input, (s, built_in), page),
        !s@.contains('<'),
        !("data:text/html"@.is_prefix_of(s@)),
        !same_letters(s@, "about:blank"@),
        !same_letters(s@, "dioxus://default"@),
        !same_letters(s@, "about:dioxus"@),
    ensures
        page@[0] == '<',
        exists|i: int| #[trigger] is_paragraph(page@, i, s@),
{
    reveal_strlit("<!doctype html><html><body><p>");
    reveal_strlit("</p></body></html>");
    reveal_strlit("<p>");
    reveal_strlit("</p>");
    letters_and_cases(s@, "dioxus://default"@);
    letters_and_cases(s@, "about:dioxus"@);
    letters_and_cases(s@, "about:blank"@);
    without_bracket_nothing_is_found(s@);
    let p = page@;
    assert(p.subrange(27, 30) =~= "<p>"@);
    assert(p.subrange(30, 30 + s@.len() as int) =~= s@);
    assert(p.subrange(30 + s@.len() as int, 34 + s@.len() as int) =~= "</p>"@);
    assert(is_paragraph(p, 30, s@));
}

/// The text stands in a paragraph of the page, from position `i`.
pub open spec fn is_paragraph(page: Seq<char>, i: int, text: Seq<char>) -> bool {
    &&& 3 <= i && i + text.len() + 4 <= page.len()
    &&& page.subrange(i - 3, i) == "<p>"@
    &&& page.subrange(i, i + text.len()) == text
    &&& page.subrange(i + text.len(), i + text.len() + 4) == "</p>"@
}

/// The page engine loads the page that its text leads to, and a text that names the built-in page
/// has that rendered for the agent and the number of scripts of the session; nothing else changes.
pub proof fn page_engine_loads_the_page_of_its_text<
    R: Fn(&Option<String>, usize) -> String,
    S: Fn(u32, u32, u8) -> u8,
>(
    e: &mut DioxusEngine<R, S>,
    text: &str,
    r: Result<(), EngineError>,
    built_in: &str,
    page: String,
    kind: PageKind,
)
    requires
        call_ensures(<DioxusEngine<R, S> as Engine>::load, (e, text), r),
        call_ensures(normalize_load_input, (text, built_in), page),
        call_ensures(page_kind, (text,), kind),
    ensures
        r is Ok,
        final(e).last_html is Some,
        !(kind is BuiltIn) ==> final(e).last_html->0@ == page@,
        kind is BuiltIn ==> page@ == built_in@ && exists|s: String| #[trigger]
            call_ensures(
                old(e).render,
                (&old(e).user_agent, old(e).init_scripts@.len() as usize),
                s,
            ) && s@ == final(e).last_html->0@,
        page_set_up_as(*final(e), *old(e)),
        final(e).width == old(e).width && final(e).height == old(e).height,
        final(e).next_frame_id == old(e).next_frame_id,
        final(e).input_events == old(e).input_events,
{
    lists_agree(final(e).init_scripts@, old(e).init_scripts@);
}

/// Every row is shaded from the colour of the page: red from red, green from green and blue from
/// blue, for the row and the height of the picture.
pub open spec fn are_shades<S: Fn(u32, u32, u8) -> u8>(
    shade: S,
    hash: u64,
    h: u32,
    rows: Seq<Shades>,
) -> bool {
    &&& rows.len() == h
    &&& forall|y: u32|
        y < h ==> #[trigger] call_ensures(
            shade,
            (y, h, hash_part(hash, 0) as u8),
            rows[y as int].red,
        )
    &&& forall|y: u32|
        y < h ==> #[trigger] call_ensures(
            shade,
            (y, h, hash_part(hash, 1) as u8),
            rows[y as int].green,
        )
    &&& forall|y: u32|
        y < h ==> #[trigger] call_ensures(
            shade,
            (y, h, hash_part(hash, 2) as u8),
            rows[y as int].blue,
        )
}

/// The reply is the PNG file of the picture of a page at a size, or that encoding it failed.
pub open spec fn shows_page<S: Fn(u32, u32, u8) -> u8>(
    shade: S,
    html: Seq<char>,
    w: u32,
    h: u32,
    r: Result<Option<EngineFrame>, EngineError>,
) -> bool {
    exists|rows: Seq<Shades>, pixels: Seq<u8>|
        {
            &&& are_shades(shade, DefaultHasher::spec_finish(hash_writes(html)), h, rows)
            &&& #[trigger] is_page_picture(
                pixels,
                DefaultHasher::spec_finish(hash_writes(html)),
                rows,
                w,
                h,
            )
            &&& match png_file(w, h, pixels) {
                Some(file) => r is Ok && r->Ok_0 is Some && is_png_frame(r->Ok_0->0, w, h, file),
                None => r is Err && "PNG encode failed: "@.is_prefix_of(r->Err_0.msg@),
            }
        }
}

/// The frame is a PNG file of the given size.
pub open spec fn is_png_frame(f: EngineFrame, w: u32, h: u32, file: Seq<u8>) -> bool {
    match f {
        EngineFrame::CompressedImage { width, height, format, data } => width == w && height == h
            && format is Png && data@ == file,
        _ => false,
    }
}

proof fn pictured_page_is_shown<S: Fn(u32, u32, u8) -> u8>(
    shade: S,
    html: Seq<char>,
    w: u32,
    h: u32,
    rows: Seq<Shades>,
    r: Result<Option<EngineFrame>, EngineError>,
)
    requires
        pictured(shade, html, w, h, rows, crate::engine::frame_reply(r)),
    ensures
        shows_page(shade, html, w, h, r),
{
    let hash = page_hash(html);
    let pixels = picture(hash, rows, w as nat, h as nat);
    if png_file(w, h, pixels) is None {
        let text = choose|text: Seq<char>| #[trigger]
            ("PNG encode failed: "@ + text) == r->Err_0.msg@;
        let start = "PNG encode failed: "@;
        assert((start + text).subrange(0, start.len() as int) =~= start);
    }
    picture_is_page_picture(hash, rows, w, h);
    hash_parts(hash);
    assert forall|y: u32| y < h implies shaded(shade, y, h, hash, #[trigger] rows[y as int]) by {
        let i = y as int;
        assert(shaded(shade, i as u32, h, hash, rows[i]));
    }
    assert forall|y: u32| y < h implies #[trigger] call_ensures(
        shade,
        (y, h, hash_part(hash, 0) as u8),
        rows[y as int].red,
    ) by {
        assert(shaded(shade, y, h, hash, rows[y as int]));
    }
    assert forall|y: u32| y < h implies #[trigger] call_ensures(
        shade,
        (y, h, hash_part(hash, 1) as u8),
        rows[y as int].green,
    ) by {
        assert(shaded(shade, y, h, hash, rows[y as int]));
    }
    assert forall|y: u32| y < h implies #[trigger] call_ensures(
        shade,
        (y, h, hash_part(hash, 2) as u8),
        rows[y as int].blue,
    ) by {
        assert(shaded(shade, y, h, hash, rows[y as int]));
    }
    assert(is_page_picture(pixels, DefaultHasher::spec_finish(hash_writes(html)), rows, w, h));
}

/// A draw shows the page that is loaded, at the size of the engine, and leaves it loaded; where
/// none is loaded the built-in page is rendered and drawn.  A scheduled draw does the same.
pub proof fn page_engine_draws_the_loaded_page<
    R: Fn(&Option<String>, usize) -> String,
    S: Fn(u32, u32, u8) -> u8,
>(
    e: &mut DioxusEngine<R, S>,
    r: Result<Option<EngineFrame>, EngineError>,
    scheduled: bool,
)
    requires
        !scheduled ==> call_ensures(<DioxusEngine<R, S> as Engine>::draw_now, (e,), r),
        scheduled ==> call_ensures(<DioxusEngine<R, S> as Engine>::request_draw, (e,), r),
    ensures
        final(e).last_html is Some,
        old(e).last_html is Some ==> final(e).last_html->0@ == old(e).last_html->0@,
        old(e).last_html is None ==> exists|s: String| #[trigger]
            call_ensures(
                old(e).render,
                (&old(e).user_agent, old(e).init_scripts@.len() as usize),
                s,
            ) && s@ == final(e).last_html->0@,
        shows_page(old(e).shade, final(e).last_html->0@, final(e).width, final(e).height, r),
        old(e).width > 0 && old(e).height > 0 ==> final(e).width == old(e).width && final(e).height
            == old(e).height,
        old(e).width == 0 || old(e).height == 0 ==> final(e).width == 800 && final(e).height
            == 600,
        page_set_up_as(*final(e), *old(e)),
        final(e).input_events == old(e).input_events,
        r is Ok && old(e).next_frame_id < u64::MAX ==> final(e).next_frame_id
            == old(e).next_frame_id + 1,
        r is Err ==> final(e).next_frame_id == old(e).next_frame_id,
{
    lists_agree(final(e).init_scripts@, old(e).init_scripts@);
    let reply = crate::engine::frame_reply(r);
    let (html, rows) = choose|html: Seq<char>, rows: Seq<Shades>| #[trigger]
        draws(*old(e), html, rows, final(e)@, reply);
    pictured_page_is_shown(old(e).shade, html, final(e).width, final(e).height, rows, r);
}

/// A call that comes between a load and a draw and touches no page.
pub open spec fn touches_no_page(call: EngineCall) -> bool {
    call is Resize || call is EvalScript || call is InputEvents || call is OpenDevtools
        || call is BindSurface || call is Init
}

/// What was loaded stays loaded until the next load, draw or shutdown.
pub proof fn loaded_page_stays_loaded<
    R: Fn(&Option<String>, usize) -> String,
    S: Fn(u32, u32, u8) -> u8,
>(
    states: Seq<DioxusEngine<R, S>>,
    calls: Seq<EngineCall>,
    replies: Seq<EngineReply>,
)
    requires
        states.len() == calls.len() + 1,
        replies.len() == calls.len(),
        forall|i: int|
            0 <= i < calls.len() ==> touches_no_page(#[trigger] calls[i])
                && <DioxusEngine<R, S> as Engine>::step(
                states[i],
                calls[i],
                states[i + 1],
                replies[i],
            ),
    ensures
        same_option(states.last().last_html, states.first().last_html),
    decreases calls.len(),
{
    if calls.len() > 0 {
        let n = calls.len() - 1;
        let s = states.drop_last();
        assert forall|i: int| 0 <= i < n implies touches_no_page(#[trigger] calls.drop_last()[i])
            && <DioxusEngine<R, S> as Engine>::step(
            s[i],
            calls.drop_last()[i],
            s[i + 1],
            replies.drop_last()[i],
        ) by {
            assert(calls.drop_last()[i] == calls[i]);
        }
        loaded_page_stays_loaded(s, calls.drop_last(), replies.drop_last());
        assert(touches_no_page(calls[n]));
        assert(s.last() == states[n]);
        assert(s.first() == states.first());
    }
}

/// A draw shows what was loaded: after a load of a text that does not name the built-in page, and
/// whatever sizes, scripts and input come in between, the frame is the picture of the page of that
/// text, and the page is still that one.
pub proof fn draw_shows_what_was_loaded<
    R: Fn(&Option<String>, usize) -> String,
    S: Fn(u32, u32, u8) -> u8,
>(
    loading: &mut DioxusEngine<R, S>,
    text: &str,
    done: Result<(), EngineError>,
    built_in: &str,
    page: String,
    kind: PageKind,
    states: Seq<DioxusEngine<R, S>>,
    calls: Seq<EngineCall>,
    replies: Seq<EngineReply>,
    drawing: &mut DioxusEngine<R, S>,
    r: Result<Option<EngineFrame>, EngineError>,
    scheduled: bool,
)
    requires
        call_ensures(<DioxusEngine<R, S> as Engine>::load, (loading, text), done),
        call_ensures(normalize_load_input, (text, built_in), page),
        call_ensures(page_kind, (text,), kind),
        !(kind is BuiltIn),
        states.len() == calls.len() + 1,
        replies.len() == calls.len(),
        states.first() == *final(loading),
        states.last() == *old(drawing),
        forall|i: int|
            0 <= i < calls.len() ==> touches_no_page(#[trigger] calls[i])
                && <DioxusEngine<R, S> as Engine>::step(
                states[i],
                calls[i],
                states[i + 1],
                replies[i],
            ),
        !scheduled ==> call_ensures(<DioxusEngine<R, S> as Engine>::draw_now, (drawing,), r),
        scheduled ==> call_ensures(<DioxusEngine<R, S> as Engine>::request_draw, (drawing,), r),
    ensures
        final(drawing).last_html is Some && final(drawing).last_html->0@ == page@,
        shows_page(old(drawing).shade, page@, final(drawing).width, final(drawing).height, r),
{
    let at_load = *final(loading);
    page_engine_loads_the_page_of_its_text(loading, text, done, built_in, page, kind);
    loaded_page_stays_loaded(states, calls, replies);
    let at_draw = *old(drawing);
    assert(at_load.last_html is Some && at_load.last_html->0@ == page@);
    assert(at_draw.last_html is Some && at_draw.last_html->0@ == page@);
    page_engine_draws_the_loaded_page(drawing, r, scheduled);
}

/// The same over the steps of an engine: a load of HTML, then a draw.
pub proof fn html_that_was_loaded_is_drawn<
    R: Fn(&Option<String>, usize) -> String,
    S: Fn(u32, u32, u8) -> u8,
>(
    a: DioxusEngine<R, S>,
    text: Seq<char>,
    k: int,
    b: DioxusEngine<R, S>,
    done: EngineReply,
    c: DioxusEngine<R, S>,
    r: Result<Option<EngineFrame>, EngineError>,
    call: EngineCall,
)
    requires
        looks_like_html(text, k),
        <DioxusEngine<R, S> as Engine>::step(a, EngineCall::Load(text), b, done),
        call is DrawNow || call is RequestDraw,
        <DioxusEngine<R, S> as Engine>::step(b, call, c, crate::engine::frame_reply(r)),
    ensures
        c.last_html is Some && c.last_html->0@ == text,
        shows_page(a.shade, text, c.width, c.height, r),
{
    trimming_finds_the_bracket(text, k);
    let reply = crate::engine::frame_reply(r);
    let (html, rows) = choose|html: Seq<char>, rows: Seq<Shades>| #[trigger]
        draws(b, html, rows, c@, reply);
    pictured_page_is_shown(b.shade, html, c.width, c.height, rows, r);
}

/// A URL is loaded as it is parsed, and a text that is none leads to the blank page.
pub proof fn url_is_loaded_or_blank(s: &str, r: String, parsed: Option<String>, t: String)
    requires
        call_ensures(normalize_url, (s,), r),
        call_ensures(load_target, (parsed,), t),
    ensures
        crate::servo_engine::url_parse(s@) is Some ==> r@ == crate::servo_engine::url_parse(s@)->0,
        crate::servo_engine::url_parse(s@) is None ==> r@ == "about:blank"@,
        parsed is Some ==> t@ == parsed->0@,
        parsed is None ==> t@ == "about:blank"@,
{
}

/// A scale factor that is finite and positive is kept; any other becomes one.
pub proof fn scale_is_kept_where_usable(s: Real32, r: Real32)
    requires
        call_ensures(sanitize_scale, (s,), r),
    ensures
        1 <= s.bits <= 0x7F7F_FFFF ==> r.bits == s.bits,
        s.bits == 0 || s.bits >= 0x7F80_0000 ==> r.bits == 0x3F80_0000,
{
}

/// The worker answered a command that is none of setting up and shutting down.
pub open spec fn worker_answered<W: Function<WorkerCommand, WorkerReply>>(
    worker: W,
    command: WorkerCommand,
    answer: WorkerReply,
) -> bool {
    worker.answered(command, answer)
}

/// A load, a script and a size reach the worker as they are, once it is set up, and what the worker
/// answers is the result.
pub proof fn worker_gets_what_the_engine_got<W: Function<WorkerCommand, WorkerReply>>(
    a: &mut ServoWorkerEngine<W>,
    text: &str,
    url: String,
    loaded: Result<(), EngineError>,
    b: &mut ServoWorkerEngine<W>,
    source: &str,
    ran: Result<(), EngineError>,
    c: &mut ServoWorkerEngine<W>,
    width: u32,
    height: u32,
    sized: Result<(), EngineError>,
)
    requires
        call_ensures(<ServoWorkerEngine<W> as Engine>::load, (a, text), loaded),
        call_ensures(normalize_url, (text,), url),
        call_ensures(<ServoWorkerEngine<W> as Engine>::eval_script, (b, source), ran),
        call_ensures(<ServoWorkerEngine<W> as Engine>::resize, (c, width, height), sized),
    ensures
        final(a).initialized ==> final(a).given@.len() > 0 && final(a).given@.last() is Load
            && final(a).given@.last()->url == url@,
        final(b).initialized ==> final(b).given@.len() > 0 && final(b).given@.last() is EvalScript
            && final(b).given@.last()->source == source@,
        final(c).initialized ==> final(c).given@.len() > 0 && final(c).given@.last() is Resize
            && is_side(width, final(c).given@.last()->Resize_width) && is_side(
            height,
            final(c).given@.last()->Resize_height,
        ),
        is_side(width, final(c).width) && is_side(height, final(c).height),
        !final(a).initialized ==> loaded is Err && final(a).given@.last() is Init,
        !final(b).initialized ==> ran is Err && final(b).given@.last() is Init,
        !final(c).initialized ==> sized is Err && final(c).given@.last() is Init,
        final(a).initialized ==> exists|command: WorkerCommand, answer: WorkerReply| #[trigger]
            worker_answered(old(a).worker, command, answer) && command is Load && command->url@
                == url@ && (loaded is Err <==> answer is Failed) && (loaded is Err
                ==> loaded->Err_0.msg@ == answer->Failed_0@),
{
    if final(a).initialized {
        let reply = crate::engine::done_reply(loaded);
        let view = crate::servo_engine::WorkerCommandView::Load { url: url@ };
        let error = choose|error: Option<Seq<char>>| #[trigger]
            crate::servo_engine::set_up(old(a).worker, old(a)@, final(a)@, error) && match error {
                Some(e) => reply == EngineReply::Failed(e),
                None => exists|answer: WorkerReply| #[trigger]
                    crate::servo_engine::asked(old(a).worker, view, answer) && reply
                        == crate::servo_engine::outcome(view, answer),
            };
        assert(error is None);
        let answer = choose|answer: WorkerReply| #[trigger]
            crate::servo_engine::asked(old(a).worker, view, answer) && reply
                == crate::servo_engine::outcome(view, answer);
        let command = choose|command: WorkerCommand|
            command@ == view && #[trigger] old(a).worker.answered(command, answer);
        assert(worker_answered(old(a).worker, command, answer));
    }
}

/// A draw hands over the frame that the worker made, as a PNG file of its own size, and fails with
/// what the worker said.
pub proof fn worker_frame_is_handed_over<W: Function<WorkerCommand, WorkerReply>>(
    e: &mut ServoWorkerEngine<W>,
    r: Result<Option<EngineFrame>, EngineError>,
)
    requires
        call_ensures(<ServoWorkerEngine<W> as Engine>::draw_now, (e,), r),
    ensures
        final(e).initialized ==> final(e).given@.len() > 0 && final(e).given@.last() is DrawNow,
        final(e).initialized ==> exists|command: WorkerCommand, answer: WorkerReply| #[trigger]
            worker_answered(old(e).worker, command, answer) && command is DrawNow && match answer {
                WorkerReply::Frame { width, height, png } => r is Ok && r->Ok_0 is Some
                    && is_png_frame(r->Ok_0->0, width, height, png@),
                WorkerReply::Failed(text) => r is Err && r->Err_0.msg@ == text@,
                WorkerReply::Done => r is Ok && r->Ok_0 is None,
            },
        !final(e).initialized ==> r is Err,
{
    if final(e).initialized {
        let reply = crate::engine::frame_reply(r);
        let view = crate::servo_engine::WorkerCommandView::DrawNow;
        let error = choose|error: Option<Seq<char>>| #[trigger]
            crate::servo_engine::set_up(old(e).worker, old(e)@, final(e)@, error) && match error {
                Some(e) => reply == EngineReply::Failed(e),
                None => exists|answer: WorkerReply| #[trigger]
                    crate::servo_engine::asked(old(e).worker, view, answer) && reply
                        == crate::servo_engine::outcome(view, answer),
            };
        assert(error is None);
        let answer = choose|answer: WorkerReply| #[trigger]
            crate::servo_engine::asked(old(e).worker, view, answer) && reply
                == crate::servo_engine::outcome(view, answer);
        let command = choose|command: WorkerCommand|
            command@ == view && #[trigger] old(e).worker.answered(command, answer);
        assert(worker_answered(old(e).worker, command, answer));
    }
}

/// The worker is set up with what the engine was told: its size, its scale where that is usable,
/// and the whole configuration.
pub proof fn worker_is_set_up_as_told<W: Function<WorkerCommand, WorkerReply>>(
    e: &mut ServoWorkerEngine<W>,
    r: Result<(), EngineError>,
    scale: Real32,
)
    requires
        call_ensures(ServoWorkerEngine::<W>::init_on_worker, (e,), r),
        call_ensures(sanitize_scale, (old(e).scale_factor,), scale),
    ensures
        old(e).initialized ==> r is Ok && final(e).given@ == old(e).given@,
        !old(e).initialized ==> {
            let given = final(e).given@.last();
            &&& final(e).given@.len() == old(e).given@.len() + 1
            &&& given is Init
            &&& is_side(old(e).width, given->Init_width)
            &&& is_side(old(e).height, given->Init_height)
            &&& given->scale_factor == scale
            &&& given->resources_dir is Some <==> old(e).resources_dir is Some
            &&& given->resources_dir is Some ==> given->resources_dir->0 == old(e).resources_dir->0@
            &&& given->user_agent is Some <==> old(e).user_agent is Some
            &&& given->user_agent is Some ==> given->user_agent->0 == old(e).user_agent->0@
            &&& given->devtools_port == old(e).devtools_port
            &&& given->init_scripts.len() == old(e).init_scripts@.len()
            &&& forall|i: int|
                0 <= i < given->init_scripts.len() ==> #[trigger] given->init_scripts[i] == old(e).init_scripts@[i]@
        },
        r is Ok <==> final(e).initialized,
{
    assert(old(e)@.init_scripts.len() == old(e).init_scripts@.len());
}

/// The worker engine keeps what it is told when it is set up, takes sizes and surfaces as they are,
/// and its scale from the surface.
pub proof fn worker_engine_keeps_what_it_is_told<W: Function<WorkerCommand, WorkerReply>>(
    a: &mut ServoWorkerEngine<W>,
    init: EngineInit,
    caps: Result<EngineCapabilities, EngineError>,
    b: &mut ServoWorkerEngine<W>,
    surface: &SurfaceDescriptor,
    bound: Result<(), EngineError>,
    c: &mut ServoWorkerEngine<W>,
    ended: Result<(), EngineError>,
)
    requires
        call_ensures(<ServoWorkerEngine<W> as Engine>::init, (a, init), caps),
        call_ensures(<ServoWorkerEngine<W> as Engine>::bind_surface, (b, surface), bound),
        call_ensures(<ServoWorkerEngine<W> as Engine>::shutdown, (c,), ended),
    ensures
        same_option(final(a).resources_dir, init.resources_dir),
        same_option(final(a).user_agent, init.user_agent),
        same_list(final(a).init_scripts@, init.init_scripts@),
        final(a).devtools_port == init.devtools_port,
        final(a).given@ == old(a).given@,
        caps is Ok && caps->Ok_0.compressed_frames && !caps->Ok_0.fd_passing
            && !caps->Ok_0.zero_copy_frames,
        surface is Fallback ==> is_side(surface->Fallback_width, final(b).width) && is_side(
            surface->Fallback_height,
            final(b).height,
        ) && final(b).scale_factor == surface->scale_factor,
        !(surface is Fallback) && old(b).width > 0 && old(b).height > 0 ==> final(b).width
            == old(b).width && final(b).height == old(b).height,
        !(surface is Fallback) && (old(b).width == 0 || old(b).height == 0) ==> final(b).width
            == 800 && final(b).height == 600,
        !(surface is Fallback) ==> final(b).scale_factor == old(b).scale_factor,
        bound is Ok <==> final(b).initialized,
        old(b).initialized ==> bound is Ok && final(b).started == old(b).started,
        !old(b).initialized ==> final(b).started && final(b).given@.len() == old(b).given@.len() + 1
            && final(b).given@.last() is Init,
        ended is Ok && !final(c).initialized && !final(c).started,
        old(c).started ==> final(c).given@.len() == old(c).given@.len() + 1 && final(c).given@.last() is Shutdown,
        !old(c).started ==> final(c).given@ == old(c).given@,
{
    lists_agree(final(a).init_scripts@, init.init_scripts@);
}

/// Pixels in RGBA order: the channels of each pixel stand where they belong, and a format without
/// alpha is opaque.
pub proof fn channels_stand_in_order(format: PixelFormat, bytes: Vec<u8>, r: Vec<u8>, k: int)
    requires
        call_ensures(to_rgba, (format, bytes), r),
        0 <= k,
        4 * k + 3 < bytes@.len(),
    ensures
        r@.len() == bytes@.len(),
        r@[4 * k + 1] == bytes@[4 * k + 1],
        format is Rgba8888 ==> r@[4 * k] == bytes@[4 * k] && r@[4 * k + 2] == bytes@[4 * k + 2]
            && r@[4 * k + 3] == bytes@[4 * k + 3],
        format is Bgra8888 ==> r@[4 * k] == bytes@[4 * k + 2] && r@[4 * k + 2] == bytes@[4 * k]
            && r@[4 * k + 3] == bytes@[4 * k + 3],
        format is Rgbx8888 ==> r@[4 * k] == bytes@[4 * k] && r@[4 * k + 2] == bytes@[4 * k + 2]
            && r@[4 * k + 3] == 255,
        format is Bgrx8888 ==> r@[4 * k] == bytes@[4 * k + 2] && r@[4 * k + 2] == bytes@[4 * k]
            && r@[4 * k + 3] == 255,
{
}

/// Without padding every byte of a row stands where it stood in its row.
pub proof fn rows_lose_only_their_padding(
    width: u32,
    height: u32,
    stride: u32,
    format: PixelFormat,
    bytes: Vec<u8>,
    r: Vec<u8>,
    i: int,
    y: int,
)
    requires
        call_ensures(unpad, (width, height, stride, format, bytes), r),
        0 <= i < 4 * width,
        0 <= y < height,
    ensures
        r@.len() == 4 * width * height,
        r@[y * (4 * width) + i] == bytes@[y * stride + i],
{
    let row = 4 * width as int;
    assert((y * row + i) / row == y && (y * row + i) % row == i) by (nonlinear_arith)
        requires
            0 <= i < row,
            0 <= y,
    ;
    assert(y * row + i < row * height) by (nonlinear_arith)
        requires
            0 <= i < row,
            y + 1 <= height,
    ;
    assert(row * height == 4 * width * height) by (nonlinear_arith)
        requires
            row == 4 * width,
    ;
    assert(y * row >= 0) by (nonlinear_arith)
        requires
            y >= 0,
            row >= 0,
    ;
}

/// Bytes hold a bitmap exactly where there are pixels of four byte channels, every row fits its
/// stride, and the last row is whole.
pub proof fn bitmaps_are_recognized(
    width: u32,
    height: u32,
    stride: u32,
    format: PixelFormat,
    bytes: &Vec<u8>,
    b: bool,
)
    requires
        call_ensures(holds_bitmap, (width, height, stride, format, bytes), b),
    ensures
        b ==> width > 0 && height > 0 && stride >= 4 * width,
        b ==> stride * (height - 1) + 4 * width <= bytes@.len(),
        b ==> !(format is Rg16f) && !(format is Rgba16f) && !(format is Unknown),
        !b && width > 0 && height > 0 && (format is Rgba8888 || format is Bgra8888
            || format is Rgbx8888 || format is Bgrx8888) ==> stride < 4 * width || stride * (height
            - 1) + 4 * width > bytes@.len(),
{
}

/// A bitmap is encoded from its own pixels: without padding, in RGBA order, at its own size.
pub proof fn bitmap_is_encoded_from_its_pixels(
    width: u32,
    height: u32,
    stride: u32,
    format: PixelFormat,
    bytes: Vec<u8>,
    file: Option<Vec<u8>>,
    tight: Vec<u8>,
    pixels: Vec<u8>,
)
    requires
        call_ensures(encode_bitmap, (width, height, stride, format, bytes), file),
        call_ensures(unpad, (width, height, stride, format, bytes), tight),
        call_ensures(to_rgba, (format, tight), pixels),
    ensures
        file is Some <==> png_file(width, height, pixels@) is Some,
        file is Some ==> file->0@ == png_file(width, height, pixels@)->0,
{
}

/// A page is made into the PNG file of its picture at the given size, of which a side of no pixels
/// becomes one pixel.
pub proof fn page_file_is_its_picture<
    R: Fn(&Option<String>, usize) -> String,
    S: Fn(u32, u32, u8) -> u8,
>(
    e: &DioxusEngine<R, S>,
    html: &str,
    width: u32,
    height: u32,
    r: Result<Vec<u8>, EngineError>,
    w: u32,
    h: u32,
    f: Result<Option<EngineFrame>, EngineError>,
)
    requires
        call_ensures(
            DioxusEngine::<R, S>::rasterize_html_to_png,
            (e, html, width, height),
            r,
        ),
        is_side(width, w) && is_side(height, h),
        r is Ok ==> f is Ok && f->Ok_0 == Some(
            EngineFrame::CompressedImage {
                width: w,
                height: h,
                format: CompressedFormat::Png,
                data: r->Ok_0,
            },
        ),
        r is Err ==> f is Err && f->Err_0 == r->Err_0,
    ensures
        shows_page(e.shade, html@, w, h, f),
{
    let rows = choose|rows: Seq<Shades>| #[trigger]
        pictured(
            e.shade,
            html@,
            crate::engine::at_least_one(width),
            crate::engine::at_least_one(height),
            rows,
            crate::dioxus_engine::file_reply(
                crate::engine::at_least_one(width),
                crate::engine::at_least_one(height),
                r,
            ),
        );
    pictured_page_is_shown(e.shade, html@, w, h, rows, f);
}

/// An engine without a size takes the usual one, and one with a size keeps it; the gradient is
/// drawn at the size that there is.
pub proof fn size_is_settled_before_drawing(
    e: &mut DemoEngine,
    done: (),
    f: &DemoEngine,
    bytes: Vec<u8>,
)
    requires
        call_ensures(DemoEngine::ensure_size, (e,), done),
        call_ensures(DemoEngine::make_rgba_gradient, (f,), bytes),
    ensures
        old(e).width > 0 && old(e).height > 0 ==> final(e).width == old(e).width && final(e).height
            == old(e).height,
        old(e).width == 0 || old(e).height == 0 ==> final(e).width == 64 && final(e).height == 64,
        final(e).width <= 0x3FFF_FFFF ==> final(e).stride == 4 * final(e).width,
        demo_set_up_as(*final(e), *old(e)),
        same_option(final(e).last_url, old(e).last_url),
        is_gradient(bytes@, f.width, f.height),
{
    lists_agree(final(e).init_scripts@, old(e).init_scripts@);
    gradient_is_gradient(f.width, f.height);
}

/// A worker without a web view refuses what needs one and nothing else; with a web view it refuses
/// nothing.
pub proof fn worker_refuses_what_needs_a_view(
    command: &WorkerCommand,
    has_view: bool,
    r: Option<WorkerReply>,
)
    requires
        call_ensures(worker_refusal, (command, has_view), r),
    ensures
        r is Some <==> !has_view && (command is Load || command is Resize || command is DrawNow),
        r is Some ==> r->0 is Failed,
        r is Some && command is Load ==> "Worker.load"@.is_prefix_of(r->0->Failed_0@),
        r is Some && command is Resize ==> "Worker.resize"@.is_prefix_of(r->0->Failed_0@),
        r is Some && command is DrawNow ==> "Worker.draw_now_png"@.is_prefix_of(r->0->Failed_0@),
{
    reveal_strlit("Worker.load");
    reveal_strlit("Worker.resize");
    reveal_strlit("Worker.draw_now_png");
    reveal_strlit("Worker.load: webview not initialized");
    reveal_strlit("Worker.resize: webview not initialized");
    reveal_strlit("Worker.draw_now_png: webview not initialized");
    let load = "Worker.load: webview not initialized"@;
    let resize = "Worker.resize: webview not initialized"@;
    let draw = "Worker.draw_now_png: webview not initialized"@;
    assert(load.subrange(0, 11) =~= "Worker.load"@);
    assert(resize.subrange(0, 13) =~= "Worker.resize"@);
    assert(draw.subrange(0, 19) =~= "Worker.draw_now_png"@);
}

} // verus!
