//! What registries of commands and buses of events do.
use vstd::prelude::*;
use std::sync::Arc;
use serde_json::Value;
use crate::calls::{CallLog, Receiver};
use crate::json::{
    decode_payload, json_contents, json_opt_number, json_opt_text, json_parse, JsonContents,
};
use crate::laws::hosting::ends_with;
use crate::named_table::NamedTable;
use crate::tauri_compat_ipc;
use crate::tauri_ipc_adapter::{
    call_each, each_once, has_id, listeners_of, notices, publish, reply_to, unsubscribe_removes_one,
    AdapterError, ChannelAdapter, CommandRegistry, CommandResult, EventBus, EventCall, EventMessage,
    InvokeRequest, InvokeResponse, ListenerId, MessageId, ServedCommands, Subscription,
};

verus! {

/// A value that is put into a table under a name is found there, takes the place of the one before,
/// and leaves all other names as they were.
pub proof fn table_keeps_values_by_name<T>(
    a: &mut NamedTable<T>,
    name: String,
    x: T,
    prev: Option<T>,
    b: &NamedTable<T>,
    c: &NamedTable<T>,
    asked: &str,
    now: Option<&T>,
    before: Option<&T>,
    there: bool,
)
    requires
        call_ensures(NamedTable::<T>::insert, (a, name, x), prev),
        *b == *final(a),
        *c == *old(a),
        call_ensures(NamedTable::<T>::get, (b, asked), now),
        call_ensures(NamedTable::<T>::get, (c, asked), before),
        call_ensures(NamedTable::<T>::contains, (b, asked), there),
    ensures
        asked@ == name@ ==> now == Some(&x) && there,
        asked@ == name@ ==> (before is Some <==> prev is Some),
        asked@ == name@ && before is Some ==> prev == Some(*before->0),
        asked@ != name@ ==> now == before && (there <==> before is Some),
{
}

/// A name that is taken out of a table is gone, its value is handed back, and all other names stay.
pub proof fn table_gives_values_back<T>(
    a: &mut NamedTable<T>,
    name: &str,
    r: Option<T>,
    b: &NamedTable<T>,
    c: &NamedTable<T>,
    asked: &str,
    now: Option<&T>,
    before: Option<&T>,
)
    requires
        call_ensures(NamedTable::<T>::remove, (a, name), r),
        *b == *final(a),
        *c == *old(a),
        call_ensures(NamedTable::<T>::get, (b, asked), now),
        call_ensures(NamedTable::<T>::get, (c, asked), before),
    ensures
        asked@ == name@ ==> now is None,
        asked@ == name@ ==> (before is Some <==> r is Some),
        asked@ == name@ && before is Some ==> r == Some(*before->0),
        asked@ != name@ ==> now == before,
{
}

/// A new table has no names.
pub proof fn new_table_is_empty<T>(t: NamedTable<T>, b: &NamedTable<T>, asked: &str, r: Option<&T>)
    requires
        call_ensures(NamedTable::<T>::new, (), t),
        *b == t,
        call_ensures(NamedTable::<T>::get, (b, asked), r),
    ensures
        r is None,
{
}

/// A command that was registered is there, and calling it is calling the handler that was
/// registered last, with the payload that was given.
pub proof fn registered_command_is_called<F: Fn(Value) -> CommandResult>(
    a: &mut CommandRegistry<F>,
    name: &str,
    handler: F,
    prev: Option<F>,
    b: &CommandRegistry<F>,
    payload: Value,
    r: CommandResult,
    there: bool,
)
    requires
        call_ensures(CommandRegistry::<F>::register, (a, name, handler), prev),
        *b == *final(a),
        call_ensures(CommandRegistry::<F>::invoke, (b, name, payload), r),
        call_ensures(CommandRegistry::<F>::contains, (b, name), there),
    ensures
        there,
        call_ensures(handler, (payload,), r),
{
}

/// Registering a command hands back the handler that had the name, and no other.
pub proof fn replaced_handler_is_handed_back<F: Fn(Value) -> CommandResult>(
    a: &mut CommandRegistry<F>,
    name: &str,
    first: F,
    p: Option<F>,
    b: &mut CommandRegistry<F>,
    again: &str,
    second: F,
    q: Option<F>,
    c: &CommandRegistry<F>,
    there: bool,
)
    requires
        call_ensures(CommandRegistry::<F>::register, (a, name, first), p),
        *old(b) == *final(a),
        call_ensures(CommandRegistry::<F>::register, (b, again, second), q),
        *c == *old(a),
        call_ensures(CommandRegistry::<F>::contains, (c, again), there),
    ensures
        again@ == name@ ==> q == Some(first),
        again@ != name@ ==> (q is Some <==> there),
{
}

/// A command that was removed is gone: a call of it is answered with its name, and all others are
/// there as before.
pub proof fn removed_command_is_gone<F: Fn(Value) -> CommandResult>(
    a: &mut CommandRegistry<F>,
    name: &str,
    removed: bool,
    b: &CommandRegistry<F>,
    payload: Value,
    r: CommandResult,
    other: &str,
    after: bool,
    c: &CommandRegistry<F>,
    before: bool,
)
    requires
        call_ensures(CommandRegistry::<F>::unregister, (a, name), removed),
        *b == *final(a),
        *c == *old(a),
        call_ensures(CommandRegistry::<F>::invoke, (b, name, payload), r),
        call_ensures(CommandRegistry::<F>::contains, (b, other), after),
        call_ensures(CommandRegistry::<F>::contains, (c, other), before),
    ensures
        r is Err && r->Err_0 is UnknownCommand && r->Err_0->UnknownCommand_0@ == name@,
        other@ == name@ ==> !after && removed == before,
        other@ != name@ ==> after == before,
{
}

/// A registry to which nothing was added knows no command.
pub proof fn new_registry_knows_nothing<F: Fn(Value) -> CommandResult>(
    a: CommandRegistry<F>,
    b: &CommandRegistry<F>,
    name: &str,
    payload: Value,
    r: CommandResult,
    there: bool,
)
    requires
        call_ensures(CommandRegistry::<F>::new, (), a),
        *b == a,
        call_ensures(CommandRegistry::<F>::invoke, (b, name, payload), r),
        call_ensures(CommandRegistry::<F>::contains, (b, name), there),
    ensures
        !there,
        r is Err && r->Err_0 is UnknownCommand && r->Err_0->UnknownCommand_0@ == name@,
{
}

/// A served command is called once, under its name and with what the payload holds; a command that
/// is not served calls nothing.
pub proof fn served_command_is_called_once<F: Fn(Value) -> CommandResult>(
    c: &CommandRegistry<F>,
    registry: CommandRegistry<F>,
    s: ServedCommands<F>,
    a: &mut ServedCommands<F>,
    name: &str,
    payload: Value,
    r: CommandResult,
    there: bool,
)
    requires
        *c == registry,
        call_ensures(CommandRegistry::<F>::contains, (c, name), there),
        call_ensures(ServedCommands::<F>::new, (registry,), s),
        *old(a) == s,
        call_ensures(ServedCommands::<F>::call, (a, name, payload), r),
    ensures
        there ==> final(a).made().len() == 1,
        there ==> final(a).made()[0].command == name@ && final(a).made()[0].payload
            == json_contents(payload),
        !there ==> final(a).made().len() == 0,
        !there ==> r is Err && r->Err_0 is UnknownCommand && r->Err_0->UnknownCommand_0@ == name@,
        final(a)@ == old(a)@,
{
}

/// A reply comes under the id of its call; it holds the result of a call that succeeded and nothing
/// else, and of one that failed the words of the handler, or what was wrong with the call.
pub proof fn reply_says_what_became_of_the_call(
    id: MessageId,
    result: CommandResult,
    resp: InvokeResponse,
)
    requires
        call_ensures(reply_to, (id, result), resp),
    ensures
        resp.in_reply_to == id,
        result is Ok ==> resp.ok == Some(result->Ok_0) && resp.err is None,
        result is Err ==> resp.ok is None && resp.err is Some,
        result is Err && result->Err_0 is Handler ==> resp.err->0@ == result->Err_0->Handler_0@,
        result is Err && result->Err_0 is Other ==> resp.err->0@ == result->Err_0->Other_0@,
        result is Err && result->Err_0 is UnknownCommand ==> resp.err->0@[0] == 'u' && ends_with(
            resp.err->0@,
            result->Err_0->UnknownCommand_0@,
        ),
        result is Err && result->Err_0 is Serialization ==> resp.err->0@[0] == 's' && ends_with(
            resp.err->0@,
            result->Err_0->Serialization_0@,
        ),
{
    reveal_strlit("unknown command: ");
    reveal_strlit("serialization error: ");
    if result is Err {
        let end = match result->Err_0 {
            AdapterError::UnknownCommand(s) => s@,
            AdapterError::Handler(s) => s@,
            AdapterError::Serialization(s) => s@,
            AdapterError::Other(s) => s@,
        };
        let text = resp.err->0@;
        assert(text.skip(text.len() - end.len()) =~= end);
    }
}

/// The text of an error ends with what went wrong and tells the errors apart.
pub proof fn adapter_error_says_what_went_wrong(
    e: &AdapterError,
    s: String,
    f: AdapterError,
    t: String,
)
    requires
        call_ensures(AdapterError::to_text, (e,), s),
        call_ensures(AdapterError::err_to_string, (f,), t),
    ensures
        e is UnknownCommand ==> s@[0] == 'u' && ends_with(s@, e->UnknownCommand_0@),
        e is Handler ==> s@[0] == 'h' && ends_with(s@, e->Handler_0@),
        e is Serialization ==> s@[0] == 's' && ends_with(s@, e->Serialization_0@),
        e is Other ==> s@[0] == 'a' && ends_with(s@, e->Other_0@),
        f is UnknownCommand ==> t@[0] == 'u' && ends_with(t@, f->UnknownCommand_0@),
        f is Handler ==> t@ == f->Handler_0@,
        f is Serialization ==> t@[0] == 's' && ends_with(t@, f->Serialization_0@),
        f is Other ==> t@ == f->Other_0@,
{
    reveal_strlit("unknown command: ");
    reveal_strlit("handler error: ");
    reveal_strlit("serialization error: ");
    reveal_strlit("adapter error: ");
    let x = match *e {
        AdapterError::UnknownCommand(s) => s@,
        AdapterError::Handler(s) => s@,
        AdapterError::Serialization(s) => s@,
        AdapterError::Other(s) => s@,
    };
    let y = match f {
        AdapterError::UnknownCommand(s) => s@,
        AdapterError::Handler(s) => s@,
        AdapterError::Serialization(s) => s@,
        AdapterError::Other(s) => s@,
    };
    assert(s@.skip(s@.len() - x.len()) =~= x);
    assert(t@.skip(t@.len() - y.len()) =~= y);
}

/// A request on a channel is answered under its id with what the registered handler returned.
pub proof fn request_is_answered_by_its_handler<
    F: Fn(Value) -> CommandResult,
    L: Receiver<Value>,
    H: Receiver<EventMessage>,
>(
    a: &mut CommandRegistry<F>,
    name: &str,
    handler: F,
    prev: Option<F>,
    b: &CommandRegistry<F>,
    c: &ChannelAdapter<L, H>,
    req: InvokeRequest,
    resp: InvokeResponse,
)
    requires
        call_ensures(CommandRegistry::<F>::register, (a, name, handler), prev),
        *b == *final(a),
        req.command@ == name@,
        call_ensures(ChannelAdapter::<L, H>::invoke::<F>, (c, b, req), resp),
    ensures
        resp.in_reply_to == req.id,
        resp.ok is Some <==> resp.err is None,
        resp.ok is Some ==> call_ensures(
            handler,
            (req.payload,),
            Ok::<Value, AdapterError>(resp.ok->0),
        ),
        resp.ok is None ==> exists|e: AdapterError| #[trigger]
            call_ensures(handler, (req.payload,), Err::<Value, AdapterError>(e)),
{
    let r = choose|r: CommandResult| #[trigger]
        crate::tauri_ipc_adapter::call_outcome(b@, req.command@, req.payload, r)
            && crate::tauri_ipc_adapter::is_reply(req.id, r, resp);
    assert(call_ensures(handler, (req.payload,), r));
    if resp.ok is None {
        assert(r == Err::<Value, AdapterError>(r->Err_0));
    }
}

/// A request for a command that was removed is answered under its id with the name of the command.
pub proof fn removed_command_is_answered<
    F: Fn(Value) -> CommandResult,
    L: Receiver<Value>,
    H: Receiver<EventMessage>,
>(
    a: &mut CommandRegistry<F>,
    name: &str,
    removed: bool,
    b: &CommandRegistry<F>,
    c: &ChannelAdapter<L, H>,
    req: InvokeRequest,
    resp: InvokeResponse,
)
    requires
        call_ensures(CommandRegistry::<F>::unregister, (a, name), removed),
        *b == *final(a),
        req.command@ == name@,
        call_ensures(ChannelAdapter::<L, H>::invoke::<F>, (c, b, req), resp),
    ensures
        resp.in_reply_to == req.id && resp.ok is None && resp.err is Some,
        resp.err->0@[0] == 'u' && ends_with(resp.err->0@, name@),
{
    reveal_strlit("unknown command: ");
    let text = resp.err->0@;
    assert(text.skip(text.len() - name@.len()) =~= name@);
}

/// Ids grow in the order of subscription.
pub open spec fn in_order<L>(subs: Seq<Subscription<L>>) -> bool {
    forall|i: int, j: int|
        0 <= i < j < subs.len() ==> (#[trigger] subs[i]).id < (#[trigger] subs[j]).id
}

/// A call tells the listener of a subscription to the event of the payload.
pub open spec fn tells<L>(
    call: EventCall,
    subs: Seq<Subscription<L>>,
    name: Seq<char>,
    payload: Value,
    k: int,
) -> bool {
    &&& 0 <= k < subs.len() && subs[k].name@ == name
    &&& call is Listener && call->id == subs[k].id && call->Listener_payload == payload
}

/// A call tells some listener of the event.
pub open spec fn tells_some<L>(
    call: EventCall,
    subs: Seq<Subscription<L>>,
    name: Seq<char>,
    payload: Value,
) -> bool {
    exists|k: int| tells(call, subs, name, payload, k)
}

/// Some call tells the listener of a subscription.
pub open spec fn is_told<L>(
    calls: Seq<EventCall>,
    subs: Seq<Subscription<L>>,
    name: Seq<char>,
    payload: Value,
    k: int,
) -> bool {
    exists|i: int| 0 <= i < calls.len() && tells(#[trigger] calls[i], subs, name, payload, k)
}

/// The calls tell every listener of the event, and no other, once each and in the order of
/// subscription.
pub open spec fn tell_each<L>(
    calls: Seq<EventCall>,
    subs: Seq<Subscription<L>>,
    name: Seq<char>,
    payload: Value,
) -> bool {
    &&& forall|i: int|
        0 <= i < calls.len() ==> tells_some(#[trigger] calls[i], subs, name, payload)
    &&& forall|k: int|
        0 <= k < subs.len() && (#[trigger] subs[k]).name@ == name ==> is_told(
            calls,
            subs,
            name,
            payload,
            k,
        )
    &&& forall|i: int, j: int|
        0 <= i < j < calls.len() ==> (#[trigger] calls[i])->id < (#[trigger] calls[j])->id
}

proof fn notices_tell_each<L>(subs: Seq<Subscription<L>>, name: Seq<char>, payload: Value)
    requires
        in_order(subs),
    ensures
        tell_each(notices(subs, name, payload), subs, name, payload),
    decreases subs.len(),
{
    let now = notices(subs, name, payload);
    if subs.len() > 0 {
        let front = subs.drop_last();
        let last = subs.last();
        let before = notices(front, name, payload);
        assert(in_order(front)) by {
            assert forall|i: int, j: int| 0 <= i < j < front.len() implies (
            #[trigger] front[i]).id < (#[trigger] front[j]).id by {
                assert(front[i] == subs[i] && front[j] == subs[j]);
            }
        }
        notices_tell_each(front, name, payload);
        let new = EventCall::Listener { id: last.id, payload };
        assert(subs[subs.len() - 1] == last);
        if last.name@ == name {
            assert(now =~= before.push(new));
        } else {
            assert(now =~= before);
        }
        assert forall|i: int| 0 <= i < now.len() implies tells_some(
            #[trigger] now[i],
            subs,
            name,
            payload,
        ) by {
            if i < before.len() {
                assert(now[i] == before[i]);
                let k = choose|k: int| tells(before[i], front, name, payload, k);
                assert(front[k] == subs[k]);
                assert(tells(now[i], subs, name, payload, k));
            } else {
                assert(tells(now[i], subs, name, payload, subs.len() - 1));
            }
        }
        assert forall|k: int| 0 <= k < subs.len() && (#[trigger] subs[k]).name@ == name implies is_told(
            now,
            subs,
            name,
            payload,
            k,
        ) by {
            if k < front.len() {
                assert(front[k] == subs[k]);
                let i = choose|i: int|
                    0 <= i < before.len() && tells(#[trigger] before[i], front, name, payload, k);
                assert(now[i] == before[i]);
                assert(tells(now[i], subs, name, payload, k));
            } else {
                assert(tells(now[before.len() as int], subs, name, payload, k));
            }
        }
        assert forall|i: int, j: int| 0 <= i < j < now.len() implies (#[trigger] now[i])->id < (
        #[trigger] now[j])->id by {
            assert(now[i] == before[i]);
            if j < before.len() {
                assert(now[j] == before[j]);
            } else {
                let k = choose|k: int| tells(before[i], front, name, payload, k);
                assert(front[k] == subs[k]);
            }
        }
    } else {
        assert(now =~= Seq::empty());
    }
}

/// An emit calls every listener of its event and no other, once each, in the order of subscription,
/// with the payload.
pub proof fn emit_tells_its_listeners<L: Receiver<Value>>(
    bus: &EventBus<L>,
    name: &str,
    payload: &Value,
    calls: CallLog<EventCall>,
    k: int,
)
    requires
        call_ensures(EventBus::<L>::emit, (bus, name, payload), calls),
        in_order(bus.subscriptions@),
    ensures
        tell_each(calls@, bus.subscriptions@, name@, *payload),
        0 <= k < bus.subscriptions@.len() && bus.subscriptions@[k].name@ == name@
            ==> bus.subscriptions@[k].listener.told(payload),
{
    notices_tell_each(bus.subscriptions@, name@, *payload);
}

/// The hook is told of an event after its listeners, once, by its name and with the same payload.
pub open spec fn hook_comes_last<L, H: Receiver<EventMessage>>(
    calls: Seq<EventCall>,
    subs: Seq<Subscription<L>>,
    hook: Option<H>,
    name: Seq<char>,
    payload: Value,
) -> bool {
    &&& hook is None ==> tell_each(calls, subs, name, payload)
    &&& hook is Some ==> calls.len() > 0 && tell_each(calls.drop_last(), subs, name, payload)
    &&& hook is Some ==> calls.last() is Hook && calls.last()->name == name
        && calls.last()->Hook_payload == json_contents(payload)
    &&& hook is Some ==> exists|m: EventMessage|
        m.name@ == name && m.payload is Some && json_contents(m.payload->0) == json_contents(
            payload,
        ) && m.tag is None && #[trigger] hook->0.told(&m)
}

proof fn publication_ends_with_the_hook<L: Receiver<Value>, H: Receiver<EventMessage>>(
    calls: Seq<EventCall>,
    subs: Seq<Subscription<L>>,
    hook: Option<H>,
    name: Seq<char>,
    payload: Value,
)
    requires
        in_order(subs),
        calls == crate::tauri_ipc_adapter::publication(subs, hook, name, payload),
        crate::tauri_ipc_adapter::hook_notified(hook, name, payload),
    ensures
        hook_comes_last(calls, subs, hook, name, payload),
{
    notices_tell_each(subs, name, payload);
    if hook is Some {
        assert(calls.drop_last() =~= notices(subs, name, payload));
        let m = choose|m: EventMessage| #[trigger]
            crate::tauri_ipc_adapter::announces(m, name, payload) && hook->0.told(&m);
        assert(hook->0.told(&m));
    }
}

/// Publishing tells the listeners of the event and then the hook.
pub proof fn published_event_reaches_the_hook<L: Receiver<Value>, H: Receiver<EventMessage>>(
    bus: &EventBus<L>,
    hook: &Option<H>,
    name: &str,
    payload: &Value,
    calls: CallLog<EventCall>,
    a: &ChannelAdapter<L, H>,
    b: CallLog<EventCall>,
    c: &tauri_compat_ipc::ChannelAdapter<L, H>,
    d: CallLog<EventCall>,
)
    requires
        in_order(bus.subscriptions@) && in_order(a.bus.subscriptions@) && in_order(
            c.bus.subscriptions@,
        ),
        call_ensures(publish::<L, H>, (bus, hook, name, payload), calls),
        call_ensures(ChannelAdapter::<L, H>::emit_event, (a, name, payload), b),
        call_ensures(tauri_compat_ipc::ChannelAdapter::<L, H>::emit_event, (c, name, payload), d),
    ensures
        hook_comes_last(calls@, bus.subscriptions@, *hook, name@, *payload),
        hook_comes_last(b@, a.bus.subscriptions@, a.on_emit, name@, *payload),
        hook_comes_last(d@, c.bus.subscriptions@, c.on_emit, name@, *payload),
{
    publication_ends_with_the_hook(calls@, bus.subscriptions@, *hook, name@, *payload);
    publication_ends_with_the_hook(b@, a.bus.subscriptions@, a.on_emit, name@, *payload);
    publication_ends_with_the_hook(d@, c.bus.subscriptions@, c.on_emit, name@, *payload);
}

/// An id and a listener are those of a subscription to the event.
pub open spec fn is_listener<L>(
    x: (ListenerId, L),
    subs: Seq<Subscription<L>>,
    name: Seq<char>,
    k: int,
) -> bool {
    &&& 0 <= k < subs.len() && subs[k].name@ == name
    &&& x.0 == subs[k].id && x.1 == subs[k].listener
}

proof fn listener_is_subscribed<L>(subs: Seq<Subscription<L>>, name: Seq<char>, i: int)
    requires
        0 <= i < listeners_of(subs, name).len(),
    ensures
        exists|k: int| #[trigger] is_listener(listeners_of(subs, name)[i], subs, name, k),
    decreases subs.len(),
{
    let x = listeners_of(subs, name)[i];
    let front = subs.drop_last();
    if i < listeners_of(front, name).len() {
        listener_is_subscribed(front, name, i);
        let k = choose|k: int| #[trigger]
            is_listener(listeners_of(front, name)[i], front, name, k);
        assert(front[k] == subs[k]);
        assert(is_listener(x, subs, name, k));
    } else {
        assert(is_listener(x, subs, name, subs.len() - 1));
    }
}

/// Listeners that are taken from a bus and then called are those of the event, in the order of
/// subscription, each called once.
pub proof fn taken_listeners_are_called<F: Receiver<Value>>(
    bus: &EventBus<Arc<F>>,
    name: &str,
    taken: Vec<(ListenerId, Arc<F>)>,
    c: &Vec<(ListenerId, Arc<F>)>,
    payload: &Value,
    calls: CallLog<EventCall>,
    i: int,
)
    requires
        in_order(bus.subscriptions@),
        call_ensures(EventBus::<Arc<F>>::callbacks, (bus, name), taken),
        *c == taken,
        call_ensures(call_each::<F>, (c, payload), calls),
    ensures
        tell_each(calls@, bus.subscriptions@, name@, *payload),
        calls@.len() == taken@.len(),
        0 <= i < taken@.len() ==> calls@[i] is Listener && calls@[i]->id == taken@[i].0 && (
        *taken@[i].1).told(payload),
        0 <= i < taken@.len() ==> exists|k: int| #[trigger]
            is_listener(taken@[i], bus.subscriptions@, name@, k),
{
    if 0 <= i < taken@.len() {
        listener_is_subscribed(bus.subscriptions@, name@, i);
    }
    notices_tell_each(bus.subscriptions@, name@, *payload);
    if 0 <= i < taken@.len() {
        assert(c[i] == taken@[i]);
    }
}

/// A subscription comes after those that are there, under an id that none of them has while there
/// are ids left; its listener is called last by the next emit of its event.
pub proof fn subscribed_listener_is_called<L: Receiver<Value>>(
    a: &mut EventBus<L>,
    name: &str,
    listener: L,
    id: ListenerId,
    b: &EventBus<L>,
    payload: &Value,
    calls: CallLog<EventCall>,
)
    requires
        call_ensures(EventBus::<L>::subscribe, (a, name, listener), id),
        *b == *final(a),
        call_ensures(EventBus::<L>::emit, (b, name, payload), calls),
    ensures
        id == old(a).next_id,
        id < u64::MAX ==> final(a).next_id == id + 1,
        final(a).subscriptions@.drop_last() == old(a).subscriptions@,
        calls@.len() > 0 && calls@.last() == (EventCall::Listener { id, payload: *payload }),
        listener.told(payload),
{
    let subs = b.subscriptions@;
    assert(listeners_of(subs, name@).len() > 0);
    assert(calls@ =~= each_once(listeners_of(subs, name@), *payload));
    assert(subs[subs.len() - 1].name@ == name@);
}

/// A subscription to one event leaves the emits of every other as they were.
pub proof fn other_events_are_emitted_as_before<L: Receiver<Value>>(
    a: &mut EventBus<L>,
    name: &str,
    listener: L,
    id: ListenerId,
    b: &EventBus<L>,
    c: &EventBus<L>,
    other: &str,
    payload: &Value,
    after: CallLog<EventCall>,
    before: CallLog<EventCall>,
)
    requires
        call_ensures(EventBus::<L>::subscribe, (a, name, listener), id),
        *b == *final(a),
        *c == *old(a),
        other@ != name@,
        call_ensures(EventBus::<L>::emit, (b, other, payload), after),
        call_ensures(EventBus::<L>::emit, (c, other, payload), before),
    ensures
        after@ == before@,
{
}

/// Ending a subscription takes out that subscription and no other; an id that nobody has changes
/// nothing.
pub proof fn ended_subscription_leaves<L>(
    a: &mut EventBus<L>,
    id: ListenerId,
    removed: bool,
    k: int,
)
    requires
        call_ensures(EventBus::<L>::unsubscribe, (a, id), removed),
        old(a).wf(),
        old(a).next_id < u64::MAX,
    ensures
        0 <= k < old(a).subscriptions@.len() && old(a).subscriptions@[k].id == id ==> removed
            && final(a).subscriptions@ == old(a).subscriptions@.remove(k),
        !removed ==> final(a).subscriptions@ == old(a).subscriptions@,
        removed ==> exists|j: int|
            0 <= j < old(a).subscriptions@.len() && #[trigger] old(a).subscriptions@[j].id == id,
        final(a).next_id == old(a).next_id,
{
    let subs = old(a).subscriptions@;
    if 0 <= k < subs.len() && subs[k].id == id {
        assert(has_id(subs, id, k));
        unsubscribe_removes_one(*old(a), k);
    }
    if removed {
        let j = choose|j: int| has_id(subs, id, j);
        assert(old(a).subscriptions@[j].id == id);
    }
}

/// A channel subscribes and ends subscriptions as its bus does, and keeps its hook.
pub proof fn channel_keeps_its_hook<L: Receiver<Value>, H: Receiver<EventMessage>>(
    a: &mut ChannelAdapter<L, H>,
    name: &str,
    listener: L,
    id: ListenerId,
    b: &mut ChannelAdapter<L, H>,
    gone: ListenerId,
    removed: bool,
    k: int,
    c: &mut ChannelAdapter<L, H>,
    f: Option<H>,
    done: (),
)
    requires
        call_ensures(ChannelAdapter::<L, H>::subscribe, (a, name, listener), id),
        call_ensures(ChannelAdapter::<L, H>::unsubscribe, (b, gone), removed),
        old(b).bus.wf() && old(b).bus.next_id < u64::MAX,
        call_ensures(ChannelAdapter::<L, H>::set_on_emit, (c, f), done),
    ensures
        final(a).on_emit == old(a).on_emit && final(b).on_emit == old(b).on_emit,
        id == old(a).bus.next_id,
        final(a).bus.subscriptions@.drop_last() == old(a).bus.subscriptions@,
        final(a).bus.subscriptions@.len() == old(a).bus.subscriptions@.len() + 1,
        final(a).bus.subscriptions@.last().name@ == name@ && final(a).bus.subscriptions@.last().id
            == id && final(a).bus.subscriptions@.last().listener == listener,
        0 <= k < old(b).bus.subscriptions@.len() && old(b).bus.subscriptions@[k].id == gone
            ==> removed && final(b).bus.subscriptions@ == old(b).bus.subscriptions@.remove(k),
        !removed ==> final(b).bus.subscriptions@ == old(b).bus.subscriptions@,
        final(c).on_emit == f && final(c).bus == old(c).bus,
{
    let subs = old(b).bus.subscriptions@;
    if 0 <= k < subs.len() && subs[k].id == gone {
        assert(has_id(subs, gone, k));
        unsubscribe_removes_one(old(b).bus, k);
    }
}

/// The other channel subscribes and ends subscriptions as its bus does too, and keeps its hook.
pub proof fn other_channel_keeps_its_hook<L: Receiver<Value>, H: Receiver<EventMessage>>(
    a: &mut tauri_compat_ipc::ChannelAdapter<L, H>,
    name: &str,
    listener: L,
    id: ListenerId,
    b: &mut tauri_compat_ipc::ChannelAdapter<L, H>,
    gone: ListenerId,
    removed: bool,
    k: int,
    c: &mut tauri_compat_ipc::ChannelAdapter<L, H>,
    f: Option<H>,
    done: (),
)
    requires
        call_ensures(
            tauri_compat_ipc::ChannelAdapter::<L, H>::subscribe,
            (a, name, listener),
            id,
        ),
        call_ensures(tauri_compat_ipc::ChannelAdapter::<L, H>::unsubscribe, (b, gone), removed),
        old(b).bus.wf() && old(b).bus.next_id < u64::MAX,
        call_ensures(tauri_compat_ipc::ChannelAdapter::<L, H>::set_on_emit, (c, f), done),
    ensures
        final(a).on_emit == old(a).on_emit && final(b).on_emit == old(b).on_emit,
        id == old(a).bus.next_id,
        final(a).bus.subscriptions@.drop_last() == old(a).bus.subscriptions@,
        final(a).bus.subscriptions@.len() == old(a).bus.subscriptions@.len() + 1,
        final(a).bus.subscriptions@.last().name@ == name@ && final(a).bus.subscriptions@.last().id
            == id && final(a).bus.subscriptions@.last().listener == listener,
        0 <= k < old(b).bus.subscriptions@.len() && old(b).bus.subscriptions@[k].id == gone
            ==> removed && final(b).bus.subscriptions@ == old(b).bus.subscriptions@.remove(k),
        !removed ==> final(b).bus.subscriptions@ == old(b).bus.subscriptions@,
        final(c).on_emit == f && final(c).bus == old(c).bus,
{
    let subs = old(b).bus.subscriptions@;
    if 0 <= k < subs.len() && subs[k].id == gone {
        assert(has_id(subs, gone, k));
        unsubscribe_removes_one(old(b).bus, k);
    }
}

/// A command that answers at once is called at once, also where a command that answers later has
/// the same name; the handler is the one that was registered last.
pub proof fn prompt_command_is_preferred<F: Fn(Value) -> CommandResult, A>(
    a: &mut tauri_compat_ipc::CommandRegistry<F, A>,
    name: &str,
    handler: F,
    prev: Option<F>,
    b: &tauri_compat_ipc::CommandRegistry<F, A>,
    payload: Value,
    r: CommandResult,
    d: tauri_compat_ipc::Dispatch<'_, A>,
    there: bool,
)
    requires
        call_ensures(tauri_compat_ipc::CommandRegistry::<F, A>::register, (a, name, handler), prev),
        *b == *final(a),
        call_ensures(tauri_compat_ipc::CommandRegistry::<F, A>::invoke, (b, name, payload), r),
        call_ensures(
            tauri_compat_ipc::CommandRegistry::<F, A>::invoke_async,
            (b, name, payload),
            d,
        ),
        call_ensures(tauri_compat_ipc::CommandRegistry::<F, A>::contains, (b, name), there),
    ensures
        there,
        call_ensures(handler, (payload,), r),
        d is Answered && call_ensures(handler, (payload,), d->Answered_0),
        final(a).async_commands == old(a).async_commands,
{
}

/// A command that answers later is handed back with the payload, unless one that answers at once
/// has its name.
pub proof fn later_command_is_handed_back<F: Fn(Value) -> CommandResult, A>(
    a: &mut tauri_compat_ipc::CommandRegistry<F, A>,
    name: &str,
    removed: bool,
    b: &mut tauri_compat_ipc::CommandRegistry<F, A>,
    handler: A,
    prev: Option<A>,
    c: &tauri_compat_ipc::CommandRegistry<F, A>,
    payload: Value,
    d: tauri_compat_ipc::Dispatch<'_, A>,
    there: bool,
    r: CommandResult,
)
    requires
        call_ensures(tauri_compat_ipc::CommandRegistry::<F, A>::unregister, (a, name), removed),
        *old(b) == *final(a),
        call_ensures(
            tauri_compat_ipc::CommandRegistry::<F, A>::register_async,
            (b, name, handler),
            prev,
        ),
        *c == *final(b),
        call_ensures(
            tauri_compat_ipc::CommandRegistry::<F, A>::invoke_async,
            (c, name, payload),
            d,
        ),
        call_ensures(tauri_compat_ipc::CommandRegistry::<F, A>::contains, (c, name), there),
        call_ensures(tauri_compat_ipc::CommandRegistry::<F, A>::invoke, (c, name, payload), r),
    ensures
        there,
        d is Deferred && *d->handler == handler && d->payload == payload,
        r is Err && r->Err_0 is UnknownCommand && r->Err_0->UnknownCommand_0@ == name@,
{
}

/// A command that was removed in both sorts is unknown.
pub proof fn command_without_handlers_is_unknown<F: Fn(Value) -> CommandResult, A>(
    a: &mut tauri_compat_ipc::CommandRegistry<F, A>,
    name: &str,
    x: bool,
    b: &mut tauri_compat_ipc::CommandRegistry<F, A>,
    y: bool,
    c: &tauri_compat_ipc::CommandRegistry<F, A>,
    payload: Value,
    d: tauri_compat_ipc::Dispatch<'_, A>,
    there: bool,
)
    requires
        call_ensures(tauri_compat_ipc::CommandRegistry::<F, A>::unregister, (a, name), x),
        *old(b) == *final(a),
        call_ensures(tauri_compat_ipc::CommandRegistry::<F, A>::unregister_async, (b, name), y),
        *c == *final(b),
        call_ensures(
            tauri_compat_ipc::CommandRegistry::<F, A>::invoke_async,
            (c, name, payload),
            d,
        ),
        call_ensures(tauri_compat_ipc::CommandRegistry::<F, A>::contains, (c, name), there),
    ensures
        !there,
        d is Answered && d->Answered_0 is Err && d->Answered_0->Err_0 is UnknownCommand
            && d->Answered_0->Err_0->UnknownCommand_0@ == name@,
{
}

/// Registering a handler hands back the one of the same sort and name, and leaves the other sort;
/// what is known of a command is what was given with it.
pub proof fn replaced_handlers_are_handed_back<F: Fn(Value) -> CommandResult, A>(
    a: &mut tauri_compat_ipc::CommandRegistry<F, A>,
    name: &str,
    f: F,
    m: tauri_compat_ipc::CommandMeta,
    p: Option<F>,
    b: &mut tauri_compat_ipc::CommandRegistry<F, A>,
    g: F,
    q: Option<F>,
    c: &mut tauri_compat_ipc::CommandRegistry<F, A>,
    h: A,
    n: tauri_compat_ipc::CommandMeta,
    s: Option<A>,
    d: &mut tauri_compat_ipc::CommandRegistry<F, A>,
    i: A,
    t: Option<A>,
)
    requires
        call_ensures(
            tauri_compat_ipc::CommandRegistry::<F, A>::register_with_meta,
            (a, name, f, m),
            p,
        ),
        *old(b) == *final(a),
        call_ensures(tauri_compat_ipc::CommandRegistry::<F, A>::register, (b, name, g), q),
        *old(c) == *final(b),
        call_ensures(
            tauri_compat_ipc::CommandRegistry::<F, A>::register_async_with_meta,
            (c, name, h, n),
            s,
        ),
        *old(d) == *final(c),
        call_ensures(tauri_compat_ipc::CommandRegistry::<F, A>::register_async, (d, name, i), t),
    ensures
        q == Some(f),
        t == Some(h),
        final(a).sync_commands@[name@] == (f, m),
        final(c).async_commands@[name@] == (h, n),
        final(b).sync_commands@[name@].0 == g && final(b).sync_commands@[name@].1.capabilities@.len()
            == 0,
        final(d).async_commands@[name@].0 == i
            && final(d).async_commands@[name@].1.capabilities@.len() == 0,
        final(d).sync_commands == final(b).sync_commands,
        final(b).async_commands == old(a).async_commands,
{
}

/// A request for a command that answers at once is answered under its id with what the handler
/// returned; a request for one that answers later waits for that handler, under its id and with its
/// payload.
pub proof fn requests_of_either_sort_are_served<
    F: Fn(Value) -> CommandResult,
    A,
    L: Receiver<Value>,
    H: Receiver<EventMessage>,
>(
    a: &mut tauri_compat_ipc::CommandRegistry<F, A>,
    name: &str,
    handler: F,
    prev: Option<F>,
    b: &tauri_compat_ipc::CommandRegistry<F, A>,
    c: &tauri_compat_ipc::ChannelAdapter<L, H>,
    req: InvokeRequest,
    p: tauri_compat_ipc::Pending<'_, A>,
    resp: InvokeResponse,
)
    requires
        call_ensures(tauri_compat_ipc::CommandRegistry::<F, A>::register, (a, name, handler), prev),
        *b == *final(a),
        req.command@ == name@,
        call_ensures(
            tauri_compat_ipc::ChannelAdapter::<L, H>::invoke_async::<F, A>,
            (c, b, req),
            p,
        ),
        call_ensures(tauri_compat_ipc::ChannelAdapter::<L, H>::invoke::<F, A>, (c, b, req), resp),
    ensures
        p is Ready && p->Ready_0.in_reply_to == req.id,
        p->Ready_0.ok is Some <==> p->Ready_0.err is None,
        p->Ready_0.ok is Some ==> call_ensures(
            handler,
            (req.payload,),
            Ok::<Value, AdapterError>(p->Ready_0.ok->0),
        ),
        resp.in_reply_to == req.id,
        resp.ok is Some <==> resp.err is None,
        resp.ok is Some ==> call_ensures(
            handler,
            (req.payload,),
            Ok::<Value, AdapterError>(resp.ok->0),
        ),
{
}

/// A request for a command that answers later waits for its handler.
pub proof fn request_waits_for_its_handler<
    F: Fn(Value) -> CommandResult,
    A,
    L: Receiver<Value>,
    H: Receiver<EventMessage>,
>(
    a: &mut tauri_compat_ipc::CommandRegistry<F, A>,
    name: &str,
    removed: bool,
    d: &mut tauri_compat_ipc::CommandRegistry<F, A>,
    handler: A,
    prev: Option<A>,
    b: &tauri_compat_ipc::CommandRegistry<F, A>,
    c: &tauri_compat_ipc::ChannelAdapter<L, H>,
    req: InvokeRequest,
    p: tauri_compat_ipc::Pending<'_, A>,
)
    requires
        call_ensures(tauri_compat_ipc::CommandRegistry::<F, A>::unregister, (a, name), removed),
        *old(d) == *final(a),
        call_ensures(
            tauri_compat_ipc::CommandRegistry::<F, A>::register_async,
            (d, name, handler),
            prev,
        ),
        *b == *final(d),
        req.command@ == name@,
        call_ensures(
            tauri_compat_ipc::ChannelAdapter::<L, H>::invoke_async::<F, A>,
            (c, b, req),
            p,
        ),
    ensures
        p is Waiting && p->id == req.id && *p->handler == handler && p->payload == req.payload,
{
}

/// New registries, buses and channels are empty, and the first id is one.
pub proof fn new_channels_are_empty<
    F: Fn(Value) -> CommandResult,
    A,
    L: Receiver<Value>,
    H: Receiver<EventMessage>,
>(
    b: EventBus<L>,
    c: ChannelAdapter<L, H>,
    d: tauri_compat_ipc::ChannelAdapter<L, H>,
    m: tauri_compat_ipc::CommandMeta,
    r: tauri_compat_ipc::CommandRegistry<F, A>,
    s: &tauri_compat_ipc::CommandRegistry<F, A>,
    name: &str,
    there: bool,
)
    requires
        call_ensures(EventBus::<L>::new, (), b),
        call_ensures(ChannelAdapter::<L, H>::new, (), c),
        call_ensures(tauri_compat_ipc::ChannelAdapter::<L, H>::new, (), d),
        call_ensures(tauri_compat_ipc::CommandMeta::default, (), m),
        call_ensures(tauri_compat_ipc::CommandRegistry::<F, A>::new, (), r),
        *s == r,
        call_ensures(tauri_compat_ipc::CommandRegistry::<F, A>::contains, (s, name), there),
    ensures
        b.subscriptions@.len() == 0 && b.next_id == 1,
        c.bus.subscriptions@.len() == 0 && c.bus.next_id == 1 && c.on_emit is None,
        d.bus.subscriptions@.len() == 0 && d.bus.next_id == 1 && d.on_emit is None,
        m.capabilities@.len() == 0,
        !there,
{
}

/// A payload is what its bytes say; where there are none, or they say nothing, it is null.
pub proof fn payload_is_what_its_bytes_say(bytes: &Vec<u8>, v: Value)
    requires
        call_ensures(decode_payload, (bytes,), v),
    ensures
        bytes@.len() > 0 && json_parse(bytes@) is Some ==> json_contents(v) == json_parse(bytes@)->0,
        bytes@.len() == 0 || json_parse(bytes@) is None ==> json_contents(v) is Null,
{
}

/// A text or number that may be absent is written as it is, or as null.
pub proof fn absent_values_are_null(o: &Option<String>, x: Value, n: Option<u64>, y: Value)
    requires
        call_ensures(json_opt_text, (o,), x),
        call_ensures(json_opt_number, (n,), y),
    ensures
        o is Some ==> json_contents(x) == JsonContents::Text(o->0@),
        o is None <==> json_contents(x) is Null,
        n is Some ==> json_contents(y) == JsonContents::Integer(n->0 as int),
        n is None <==> json_contents(y) is Null,
{
}

} // verus!
