//! What errors, notes and file names say, word by word.
use vstd::prelude::*;
use serde_json::Value;
use crate::controller::{ensure_ready, ControllerConfig, ControllerCore, ControllerError};
use crate::engine::Engine;
use crate::ipc_controller::{
    classify_reply, settle, FrameInbox, IpcController, Operation, ReceivedHandle, Waited,
};
use crate::ipc_protocol::{Envelope, ErrorCode, Request, Response};
use crate::ipc_transport::TransportError;
use crate::laws::serving::event_of;
use crate::server::{handle_request, resume_request, Candidate, Rest, Step};
use crate::servo_locator::detect_host_triple;
use crate::servo_prep::{
    determine_servo_src, exit_report, locate_servo_artifact, package_name, pointer_failure,
    tool_output, BuildProfile, HostSystem, PackageKind,
};
use crate::tauri_ipc_adapter::{AdapterError, CommandResult, ServedCommands};
use crate::text::{decimal_text, join_all, signed_text};
use crate::tray_and_notify::{notify_error, ApiError};
use crate::window_manager::WindowError;
use crate::winit_runtime::{map_winit_key, post_outcome, Key, NamedKey, WinitRuntimeError};

verus! {

/// What the errors of controllers say.
pub proof fn controller_errors_in_words(e: &ControllerError, s: String)
    requires
        call_ensures(ControllerError::to_text, (e,), s),
    ensures
        e is NotInitialized ==> s@ == "not initialized: "@ + e->NotInitialized_0@,
        e is SurfaceNotBound ==> s@ == "surface not bound"@,
        e is InvalidState ==> s@ == "invalid state: "@ + e->InvalidState_0@,
        e is Unsupported ==> s@ == "unsupported: "@ + e->Unsupported_0@,
        e is Backend ==> s@ == "backend error: "@ + e->Backend_0@,
        e is BackendMsg ==> s@ == "backend error: "@ + e->BackendMsg_0@,
{
}

/// What the errors of windows, of the loop, of trays and notifications, of adapters and of
/// transports say.
pub proof fn other_errors_in_words(
    w: &WindowError,
    a: String,
    l: &WinitRuntimeError,
    shown: &str,
    b: String,
    t: &ApiError,
    c: String,
    error: &str,
    n: ApiError,
    x: &AdapterError,
    d: String,
    y: AdapterError,
    e: String,
    p: &TransportError,
    f: String,
)
    requires
        call_ensures(WindowError::to_text, (w,), a),
        call_ensures(WinitRuntimeError::to_text, (l, shown), b),
        call_ensures(ApiError::to_text, (t,), c),
        call_ensures(notify_error, (error,), n),
        call_ensures(AdapterError::to_text, (x,), d),
        call_ensures(AdapterError::err_to_string, (y,), e),
        call_ensures(TransportError::to_text, (p,), f),
    ensures
        w is Unsupported ==> a@ == "unsupported: "@ + w->Unsupported_0@,
        w is Failed ==> a@ == "failed: "@ + w->Failed_0@,
        w is Closed ==> a@ == "window is closed"@,
        l is UnknownWindow ==> b@ == "unknown window: "@ + shown@,
        l is NotInitialized ==> b@ == "not initialized: "@ + l->NotInitialized_0@,
        l is Backend ==> b@ == "backend error: "@ + l->Backend_0@,
        t is Unsupported ==> c@ == "unsupported: "@ + t->Unsupported_0@,
        t is Backend ==> c@ == "backend error: "@ + t->Backend_0@,
        n is Backend && n->Backend_0@ == "notify-rust error: "@ + error@,
        x is UnknownCommand ==> d@ == "unknown command: "@ + x->UnknownCommand_0@,
        x is Handler ==> d@ == "handler error: "@ + x->Handler_0@,
        x is Serialization ==> d@ == "serialization error: "@ + x->Serialization_0@,
        x is Other ==> d@ == "adapter error: "@ + x->Other_0@,
        y is UnknownCommand ==> e@ == "unknown command: "@ + y->UnknownCommand_0@,
        y is Serialization ==> e@ == "serialization error: "@ + y->Serialization_0@,
        p is Io ==> f@ == "io error: "@ + p->Io_0.message@,
        p is Unsupported ==> f@ == "unsupported: "@ + p->Unsupported_0@,
{
}

/// How a controller refuses work that it is not ready for: what is missing first is told first.
pub proof fn missing_steps_in_words(
    initialized: bool,
    bound: bool,
    alive: bool,
    r: Result<(), ControllerError>,
    c: &mut ControllerCore,
    config: ControllerConfig,
    again: Result<(), ControllerError>,
    b: &mut ControllerCore,
    twice: Result<(), ControllerError>,
    d: &mut IpcController,
    second: Result<(), ControllerError>,
    e: &IpcController,
    path: &str,
    bind: Result<String, ControllerError>,
)
    requires
        call_ensures(ensure_ready, (initialized, bound, alive), r),
        call_ensures(ControllerCore::initialize, (c, config), again),
        call_ensures(ControllerCore::bind_surface, (b,), twice),
        call_ensures(IpcController::initialize, (d, config), second),
        call_ensures(IpcController::begin_bind, (e, path), bind),
    ensures
        r is Ok <==> initialized && bound && alive,
        !initialized ==> r->Err_0 is NotInitialized && r->Err_0->NotInitialized_0@
            == "call initialize() before using the controller"@,
        initialized && !bound ==> r->Err_0 is SurfaceNotBound,
        initialized && bound && !alive ==> r->Err_0 is InvalidState && r->Err_0->InvalidState_0@
            == "controller not alive"@,
        again is Err <==> old(c).initialized,
        again is Err ==> again->Err_0 is InvalidState && again->Err_0->InvalidState_0@
            == "initialize() called more than once"@,
        twice is Err <==> !old(b).initialized || old(b).surface_bound,
        twice is Err && old(b).initialized ==> twice->Err_0 is InvalidState
            && twice->Err_0->InvalidState_0@ == "bind_surface() called more than once"@,
        second is Err <==> old(d).initialized,
        second is Err ==> second->Err_0 is InvalidState && second->Err_0->InvalidState_0@
            == "initialize() called more than once"@,
        bind is Err <==> !e.initialized || e.connected,
        bind is Err && !e.initialized ==> bind->Err_0 is NotInitialized
            && bind->Err_0->NotInitialized_0@ == "call initialize() before using the controller"@,
        bind is Err && e.initialized ==> bind->Err_0 is InvalidState && bind->Err_0->InvalidState_0@
            == "bind_surface() called more than once"@,
{
}

/// A refusal of the server is told as the operation, the code and the message; a response that fits
/// no operation is shown.
pub proof fn refusals_in_words(
    op: Operation,
    resp: &Response,
    shown: &str,
    r: Result<(), ControllerError>,
    code: Seq<char>,
)
    requires
        call_ensures(classify_reply, (op, resp, shown), r),
        code == match *resp {
            Response::Error { code: ErrorCode::InvalidState, .. } => "InvalidState"@,
            Response::Error { code: ErrorCode::Unsupported, .. } => "Unsupported"@,
            Response::Error { code: ErrorCode::BadMessage, .. } => "BadMessage"@,
            Response::Error { code: ErrorCode::SurfaceError, .. } => "SurfaceError"@,
            _ => "Internal"@,
        },
    ensures
        r is Ok <==> resp is Ack,
        resp is Error && op is BindSurface ==> r->Err_0->BackendMsg_0@ == "bind surface error: "@
            + code + ": "@ + resp->message@,
        resp is Error && op is Load ==> r->Err_0->BackendMsg_0@ == "load error: "@ + code + ": "@
            + resp->message@,
        resp is Error && op is EvalScript ==> r->Err_0->BackendMsg_0@ == "eval_script error: "@
            + code + ": "@ + resp->message@,
        resp is Error && op is Resize ==> r->Err_0->BackendMsg_0@ == "resize error: "@ + code
            + ": "@ + resp->message@,
        resp is Error && op is Draw ==> r->Err_0->BackendMsg_0@ == "draw error: "@ + code + ": "@
            + resp->message@,
        !(resp is Ack || resp is Error) && op is BindSurface ==> r->Err_0->BackendMsg_0@
            == "unexpected response to BindSurface: "@ + shown@,
        !(resp is Ack || resp is Error) && op is Load ==> r->Err_0->BackendMsg_0@
            == "unexpected response to Load: "@ + shown@,
        !(resp is Ack || resp is Error) && op is EvalScript ==> r->Err_0->BackendMsg_0@
            == "unexpected response to EvalScript: "@ + shown@,
        !(resp is Ack || resp is Error) && op is Resize ==> r->Err_0->BackendMsg_0@
            == "unexpected response to Resize: "@ + shown@,
        !(resp is Ack || resp is Error) && op is Draw ==> r->Err_0->BackendMsg_0@
            == "unexpected response to DrawNow: "@ + shown@,
{
}

/// Why no reply came.
pub proof fn missing_replies_in_words(w: Waited, r: Result<Response, ControllerError>)
    requires
        call_ensures(settle, (w,), r),
    ensures
        w is NotEncoded ==> r->Err_0 is BackendMsg && r->Err_0->BackendMsg_0@ == "serialize: "@
            + w->NotEncoded_0@,
        w is NotConnected ==> r->Err_0 is InvalidState && r->Err_0->InvalidState_0@
            == "transport not ready"@,
        w is NoRuntime ==> r->Err_0 is InvalidState && r->Err_0->InvalidState_0@
            == "tokio runtime not initialized"@,
        w is NotSent ==> r->Err_0 is Backend && r->Err_0->Backend_0@ == "send failed"@,
        w is Canceled ==> r->Err_0 is Backend && r->Err_0->Backend_0@
            == "response channel canceled"@,
        w is TimedOut ==> r->Err_0 is Backend && r->Err_0->Backend_0@ == "request timed out"@,
{
}

/// A token under which nothing waits is told apart from one under which no handle waits.
pub proof fn missing_handles_in_words(
    b: &mut FrameInbox,
    token: u64,
    r: Result<ReceivedHandle, ControllerError>,
)
    requires
        call_ensures(FrameInbox::consume_handle, (b, token), r),
    ensures
        r is Err <==> !old(b).pending_handles@.contains_key(token) || old(
            b).pending_handles@[token]@.len() == 0,
        !old(b).pending_handles@.contains_key(token) ==> r->Err_0->InvalidState_0@
            == "handle token not found"@,
        old(b).pending_handles@.contains_key(token) && old(b).pending_handles@[token]@.len() == 0
            ==> r->Err_0->InvalidState_0@ == "no handles attached for token"@,
        r is Ok ==> r->Ok_0.handle == old(b).pending_handles@[token]@[0],
{
}

/// A server that no version suits says which versions it was offered, and one that serves no
/// commands says so.
pub proof fn refused_requests_in_words<E: Engine, F: Fn(Value) -> CommandResult>(
    engine: &mut E,
    commands: &mut Option<ServedCommands<F>>,
    next_id: &mut u64,
    server_name: &str,
    handle_passing: bool,
    peer_version: u16,
    req_id: u64,
    req: Request,
    r: (Envelope, Rest),
    lowest: u64,
    a: String,
    highest: u64,
    b: String,
)
    requires
        call_ensures(
            handle_request::<E, F>,
            (
                engine,
                commands,
                next_id,
                server_name,
                handle_passing,
                peer_version,
                req_id,
                req,
            ),
            r,
        ),
        req is Init ==> lowest == req->supported.min && highest == req->supported.max,
        call_ensures(decimal_text, (lowest,), a),
        call_ensures(decimal_text, (highest,), b),
    ensures
        req is Init && r.0.message->Response_0 is Error ==> r.0.message->Response_0->message@
            == "no compatible protocol version in range "@ + a@ + "-"@ + b@,
        req is Invoke && *old(commands) is None ==> {
            let resp = r.0.message->Response_0;
            &&& !resp->ok && resp->data is None && resp->error is Some
            &&& resp->error->0@ == "invoke not supported (tauri_ipc feature disabled)"@
        },
{
}

/// The notes of a server come from the engine, without a place, and say what was asked.
pub proof fn notes_in_words<E: Engine>(
    engine: &mut E,
    next_id: &mut u64,
    handle_passing: bool,
    rest: Rest,
    step: Step,
)
    requires
        call_ensures(resume_request::<E>, (engine, next_id, handle_passing, rest), step),
    ensures
        rest is LoadNote ==> event_of(step)->message@ == "Load requested: "@
            + rest->LoadNote_url@,
        rest is EvalNote ==> event_of(step)->message@ == "EvalScript received"@,
        rest is LoadNote || rest is EvalNote ==> {
            let e = event_of(step);
            &&& e->source is Some && e->source->0@ == "photon"@
            &&& e->line is None && e->column is None
        },
        rest is Draw && step is Send && event_of(step) is ConsoleMessage ==> {
            let e = event_of(step);
            &&& e->message@ == "Draw requested (no frame produced)"@
            &&& e->source is Some && e->source->0@ == "photon"@
        },
{
}

/// What preparing a build says of what went wrong, and what packages are called.
pub proof fn preparations_in_words(
    cli: &Option<String>,
    env: &Option<Candidate>,
    config: &Option<Candidate>,
    src: Result<String, String>,
    tool: &str,
    stdout: &str,
    stderr: &str,
    out: Result<String, String>,
    code: Option<i32>,
    report: String,
    number: i32,
    numeral: String,
    what: &str,
    path: &str,
    error: &str,
    written: Result<(), String>,
)
    requires
        call_ensures(determine_servo_src, (cli, env, config), src),
        call_ensures(tool_output, (tool, false, stdout, stderr), out),
        call_ensures(exit_report, (tool, code), report),
        number == (match code {
            Some(c) => c,
            None => -1i32,
        }),
        call_ensures(signed_text, (number,), numeral),
        call_ensures(pointer_failure, (true, what, path, error), written),
    ensures
        src is Err ==> src->Err_0@
            == "Servo source path not provided. Use --servo-src, set SERVO_SRC, or configure `servo_src` in servo-build-config.toml"@,
        out is Err && out->Err_0@ == tool@ + " failed: "@ + stderr@,
        report@ == tool@ + " failed with status "@ + numeral@,
        written is Err && written->Err_0@ == "failed to write "@ + what@ + " "@ + path@ + ": "@
            + error@,
{
}

/// What a search for the built binary says when it fails: all the places, in order.
pub proof fn tried_places_in_words(
    candidates: &Vec<Candidate>,
    r: Result<String, String>,
    paths: &Vec<String>,
    sep: &str,
    list: String,
)
    requires
        call_ensures(locate_servo_artifact, (candidates,), r),
        paths@.len() == candidates@.len(),
        forall|i: int| 0 <= i < paths@.len() ==> (#[trigger] paths@[i])@ == candidates@[i].path@,
        sep@ == ", "@,
        call_ensures(join_all, (paths, sep), list),
    ensures
        r is Err ==> r->Err_0@ == "Could not find built binary. Tried: "@ + list@,
{
    assert(crate::text::views(paths@) =~= crate::servo_prep::candidate_paths(candidates@));
}

/// The names of packages, and on which systems they can be made.
pub proof fn package_names_in_words(
    kind: PackageKind,
    system: HostSystem,
    target: &str,
    profile: BuildProfile,
    commit: &str,
    r: Result<String, String>,
    dir: &'static str,
    p: &BuildProfile,
)
    requires
        call_ensures(package_name, (kind, system, target, profile, commit), r),
        *p == profile,
        call_ensures(BuildProfile::as_dir, (p,), dir),
    ensures
        kind is Zip ==> r is Ok && r->Ok_0@ == "servo-"@ + target@ + "-"@ + dir@ + "-"@ + commit@
            + ".zip"@,
        kind is AppImage ==> r is Ok && r->Ok_0@ == "Verso-"@ + target@ + ".AppImage"@,
        kind is Dmg && system is MacOs ==> r is Ok && r->Ok_0@ == "Verso.dmg"@,
        kind is Msi && system is Windows ==> r is Ok && r->Ok_0@ == "Verso.msi"@,
        kind is Dmg && !(system is MacOs) ==> r is Err && r->Err_0@
            == "DMG packaging requires macOS (hdiutil)."@,
        kind is Msi && !(system is Windows) ==> r is Err && r->Err_0@
            == "MSI packaging requires Windows with WiX Toolset installed."@,
{
}

/// What is said of a loop that does not run or takes nothing, of a report that names no host, and
/// of keys without a name.
pub proof fn remaining_words(
    running: bool,
    taken: bool,
    user: bool,
    r: Result<(), WinitRuntimeError>,
    report: &str,
    host: Result<String, String>,
    key: &Key,
    name: Option<&'static str>,
)
    requires
        call_ensures(post_outcome, (running, taken, user), r),
        call_ensures(detect_host_triple, (report,), host),
        call_ensures(map_winit_key, (key,), name),
    ensures
        !running ==> r->Err_0->NotInitialized_0@ == "event loop proxy not available"@,
        running && !taken && user ==> r->Err_0->Backend_0@ == "failed to post user event"@,
        running && !taken && !user ==> r->Err_0->Backend_0@ == "failed to post event"@,
        host is Err ==> host->Err_0@ == "could not parse host triple from rustc -vV"@,
        *key == Key::Named(NamedKey::Other) ==> name->0@ == "Unmapped"@,
{
}

} // verus!
