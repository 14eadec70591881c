//! Commands and events for web content: a registry of named command handlers, a publish/subscribe
//! bus, and a channel that ties the two together.
use vstd::prelude::*;
use std::sync::Arc;
use serde_json::Value;
use crate::calls::{CallLog, Receiver};
use crate::json::{json_contents, JsonContents};
use crate::named_table::NamedTable;
use crate::text::{joined, same_text};

verus! {

/// Correlates requests and responses.
pub type MessageId = u64;

/// Identifies a subscription.
pub type ListenerId = u64;

/// A command call.
#[derive(Debug, Clone, PartialEq)]
pub struct InvokeRequest {
    /// Name under which the command is registered.
    pub command: String,
    pub payload: Value,
    /// Chosen by the caller.
    pub id: MessageId,
}

/// The reply to a command call.
#[derive(Debug, Clone, PartialEq)]
pub struct InvokeResponse {
    /// Id of the call.
    pub in_reply_to: MessageId,
    /// The result of a successful call.
    pub ok: Option<Value>,
    /// The message of a failed call.
    pub err: Option<String>,
}

/// A published event.
#[derive(Debug, Clone, PartialEq)]
pub struct EventMessage {
    pub name: String,
    pub payload: Option<Value>,
    /// A token for transports that need one.
    pub tag: Option<String>,
}

/// Errors of the adapter.
#[derive(Debug, Clone, PartialEq, Eq)]
pub enum AdapterError {
    /// No handler has the name.
    UnknownCommand(String),
    /// A handler failed.
    Handler(String),
    /// A message could not be encoded or decoded.
    Serialization(String),
    Other(String),
}

impl AdapterError {
    /// The message text of an error.
    pub open spec fn message(self) -> Seq<char> {
        match self {
            AdapterError::UnknownCommand(s) => "unknown command: "@ + s@,
            AdapterError::Handler(s) => "handler error: "@ + s@,
            AdapterError::Serialization(s) => "serialization error: "@ + s@,
            AdapterError::Other(s) => "adapter error: "@ + s@,
        }
    }

    /// The text that a caller of a failed command sees: the handler's own words, or what was
    /// wrong with the call.
    pub open spec fn reply(self) -> Seq<char> {
        match self {
            AdapterError::UnknownCommand(s) => "unknown command: "@ + s@,
            AdapterError::Handler(s) => s@,
            AdapterError::Serialization(s) => "serialization error: "@ + s@,
            AdapterError::Other(s) => s@,
        }
    }

    /// Writes the message text.
    pub fn to_text(&self) -> (s: String)
        ensures
            s@ == self.message(),
    {
        match self {
            AdapterError::UnknownCommand(s) => joined("unknown command: ", s.as_str()),
            AdapterError::Handler(s) => joined("handler error: ", s.as_str()),
            AdapterError::Serialization(s) => joined("serialization error: ", s.as_str()),
            AdapterError::Other(s) => joined("adapter error: ", s.as_str()),
        }
    }

    /// Writes the text for the caller of a failed command.
    pub fn err_to_string(self) -> (s: String)
        ensures
            s@ == self.reply(),
    {
        match self {
            AdapterError::UnknownCommand(s) => joined("unknown command: ", s.as_str()),
            AdapterError::Handler(s) => s,
            AdapterError::Serialization(s) => joined("serialization error: ", s.as_str()),
            AdapterError::Other(s) => s,
        }
    }
}

/// What a command handler returns.
pub type CommandResult = Result<Value, AdapterError>;

/// Command handlers by name.
pub struct CommandRegistry<F> {
    pub commands: NamedTable<F>,
}

impl<F> View for CommandRegistry<F> {
    type V = Map<Seq<char>, F>;

    open spec fn view(&self) -> Map<Seq<char>, F> {
        self.commands@
    }
}

/// What a call of `name` on the handlers `commands` may return: what the handler of that name
/// returns, or that there is none.
pub open spec fn call_outcome<F: Fn(Value) -> CommandResult>(
    commands: Map<Seq<char>, F>,
    name: Seq<char>,
    payload: Value,
    r: CommandResult,
) -> bool {
    if commands.contains_key(name) {
        call_ensures(commands[name], (payload,), r)
    } else {
        r is Err && r->Err_0 is UnknownCommand && r->Err_0->UnknownCommand_0@ == name
    }
}

/// The handler of a name, if there is one, takes the payload.
pub open spec fn takes<F: Fn(Value) -> CommandResult>(
    commands: Map<Seq<char>, F>,
    name: Seq<char>,
    payload: Value,
) -> bool {
    commands.contains_key(name) ==> call_requires(commands[name], (payload,))
}

impl<F: Fn(Value) -> CommandResult> CommandRegistry<F> {
    /// No name is registered twice.
    pub open spec fn wf(&self) -> bool {
        self.commands.wf()
    }

    /// A registry without commands.
    pub fn new() -> (r: Self)
        ensures
            r.wf(),
            r@ == Map::<Seq<char>, F>::empty(),
    {
        CommandRegistry { commands: NamedTable::new() }
    }

    /// Registers a handler; returns the one that it replaces.
    pub fn register(&mut self, name: &str, handler: F) -> (prev: Option<F>)
        requires
            old(self).wf(),
        ensures
            final(self).wf(),
            final(self)@ == old(self)@.insert(name@, handler),
            old(self)@.contains_key(name@) ==> prev == Some(old(self)@[name@]),
            !old(self)@.contains_key(name@) ==> prev is None,
    {
        self.commands.insert(name.to_owned(), handler)
    }

    /// Removes a handler; tells whether there was one.
    pub fn unregister(&mut self, name: &str) -> (b: bool)
        requires
            old(self).wf(),
        ensures
            final(self).wf(),
            final(self)@ == old(self)@.remove(name@),
            b == old(self)@.contains_key(name@),
    {
        self.commands.remove(name).is_some()
    }

    /// Calls the handler of a name.
    pub fn invoke(&self, name: &str, payload: Value) -> (r: CommandResult)
        requires
            self.wf(),
            takes(self@, name@, payload),
        ensures
            call_outcome(self@, name@, payload, r),
    {
        match self.commands.get(name) {
            Some(handler) => (*handler)(payload),
            None => Err(AdapterError::UnknownCommand(name.to_owned())),
        }
    }

    /// Whether a name has a handler.
    pub fn contains(&self, name: &str) -> (b: bool)
        requires
            self.wf(),
        ensures
            b == self@.contains_key(name@),
    {
        self.commands.contains(name)
    }
}

/// A call of a command handler: the name and what the payload holds.
pub struct CommandCall {
    pub command: Seq<char>,
    pub payload: JsonContents,
}

/// The handler calls that a call of `name` makes: one where the name has a handler, else none.
pub open spec fn handler_calls<F>(
    commands: Map<Seq<char>, F>,
    name: Seq<char>,
    payload: JsonContents,
) -> Seq<CommandCall> {
    if commands.contains_key(name) {
        seq![CommandCall { command: name, payload }]
    } else {
        Seq::empty()
    }
}

/// The commands that a server serves.  Handlers are reached by [`ServedCommands::call`] alone, which
/// keeps a log of its calls.
pub struct ServedCommands<F> {
    registry: CommandRegistry<F>,
    calls: CallLog<CommandCall>,
}

impl<F> View for ServedCommands<F> {
    type V = Map<Seq<char>, F>;

    closed spec fn view(&self) -> Map<Seq<char>, F> {
        self.registry@
    }
}

impl<F: Fn(Value) -> CommandResult> ServedCommands<F> {
    /// No name is registered twice.
    pub closed spec fn wf(&self) -> bool {
        self.registry.wf()
    }

    /// The handler calls that were made, in order.
    pub closed spec fn made(&self) -> Seq<CommandCall> {
        self.calls@
    }

    /// Serves the commands of a registry.
    pub fn new(registry: CommandRegistry<F>) -> (s: Self)
        requires
            registry.wf(),
        ensures
            s.wf(),
            s@ == registry@,
            s.made() == Seq::<CommandCall>::empty(),
    {
        ServedCommands { registry, calls: CallLog::new() }
    }

    /// Calls the handler of a name, once.
    pub fn call(&mut self, name: &str, payload: Value) -> (r: CommandResult)
        requires
            old(self).wf(),
            takes(old(self)@, name@, payload),
        ensures
            final(self).wf(),
            final(self)@ == old(self)@,
            call_outcome(old(self)@, name@, payload, r),
            final(self).made() == old(self).made() + handler_calls(
                old(self)@,
                name@,
                json_contents(payload),
            ),
    {
        match self.registry.commands.get(name) {
            Some(handler) => {
                let entry = Ghost(
                    CommandCall { command: name@, payload: json_contents(payload) },
                );
                self.calls.call1(handler, payload, entry)
            },
            None => Err(AdapterError::UnknownCommand(name.to_owned())),
        }
    }
}

/// The reply to a call: the result, or the text of the error.
pub open spec fn is_reply(id: MessageId, result: CommandResult, resp: InvokeResponse) -> bool {
    &&& resp.in_reply_to == id
    &&& match result {
        Ok(v) => resp.ok == Some(v) && resp.err is None,
        Err(e) => resp.ok is None && resp.err is Some && resp.err->0@ == e.reply(),
    }
}

/// Makes the reply to a call.
pub fn reply_to(id: MessageId, result: CommandResult) -> (resp: InvokeResponse)
    ensures
        is_reply(id, result, resp),
{
    match result {
        Ok(v) => InvokeResponse { in_reply_to: id, ok: Some(v), err: None },
        Err(e) => InvokeResponse { in_reply_to: id, ok: None, err: Some(e.err_to_string()) },
    }
}

/// One subscription.
pub struct Subscription<L> {
    pub name: String,
    pub id: ListenerId,
    pub listener: L,
}

/// The subscriptions that stay when `id` leaves: those of its event with that id are dropped.
pub open spec fn without<L>(subs: Seq<Subscription<L>>, id: ListenerId) -> Seq<Subscription<L>> {
    if exists|i: int| has_id(subs, id, i) {
        let first = first_with(subs, id);
        subs.filter(|s: Subscription<L>| !(s.id == id && s.name@ == subs[first].name@))
    } else {
        subs
    }
}

/// Position `i` holds a subscription with the id.
pub open spec fn has_id<L>(subs: Seq<Subscription<L>>, id: ListenerId, i: int) -> bool {
    0 <= i < subs.len() && subs[i].id == id
}

/// Position `i` holds the first subscription with the id.
pub open spec fn is_first_with<L>(subs: Seq<Subscription<L>>, id: ListenerId, i: int) -> bool {
    has_id(subs, id, i) && forall|j: int| 0 <= j < i ==> (#[trigger] subs[j]).id != id
}

/// The first position with the id.
pub open spec fn first_with<L>(subs: Seq<Subscription<L>>, id: ListenerId) -> int {
    choose|i: int| is_first_with(subs, id, i)
}

/// Publish/subscribe by event name.
pub struct EventBus<L> {
    pub subscriptions: Vec<Subscription<L>>,
    pub next_id: ListenerId,
}

impl<L> EventBus<L> {
    /// Ids are handed out in increasing order: every id in use is below the next one, and no two
    /// subscriptions share one, unless the ids are exhausted.
    pub open spec fn wf(&self) -> bool {
        &&& self.next_id >= 1
        &&& forall|i: int|
            0 <= i < self.subscriptions.len() ==> 1 <= (#[trigger] self.subscriptions[i]).id
                <= self.next_id
        &&& self.next_id < u64::MAX ==> {
            &&& forall|i: int|
                0 <= i < self.subscriptions.len() ==> (#[trigger] self.subscriptions[i]).id
                    < self.next_id
            &&& forall|i: int, j: int|
                0 <= i < j < self.subscriptions.len() ==> (#[trigger] self.subscriptions[i]).id < (
                #[trigger] self.subscriptions[j]).id
        }
    }

    /// A bus without subscriptions.
    pub fn new() -> (b: Self)
        ensures
            b.wf(),
            b.subscriptions@ == Seq::<Subscription<L>>::empty(),
            b.next_id == 1,
    {
        EventBus { subscriptions: Vec::new(), next_id: 1 }
    }

    /// Subscribes a listener to a named event; returns the id of the subscription.
    pub fn subscribe(&mut self, name: &str, listener: L) -> (id: ListenerId)
        requires
            old(self).wf(),
        ensures
            final(self).wf(),
            id == old(self).next_id,
            final(self).next_id == (if id < u64::MAX {
                (id + 1) as u64
            } else {
                id
            }),
            final(self).subscriptions@.len() == old(self).subscriptions@.len() + 1,
            final(self).subscriptions@.drop_last() == old(self).subscriptions@,
            final(self).subscriptions@.last().name@ == name@,
            final(self).subscriptions@.last().id == id,
            final(self).subscriptions@.last().listener == listener,
    {
        let id: u64 = self.next_id;
        self.next_id = self.next_id.saturating_add(1);
        self.subscriptions.push(Subscription { name: name.to_owned(), id, listener });
        proof {
            assert(self.subscriptions@.drop_last() =~= old(self).subscriptions@);
        }
        id
    }

    /// Ends a subscription; tells whether there was one.
    pub fn unsubscribe(&mut self, id: ListenerId) -> (removed: bool)
        requires
            old(self).wf(),
        ensures
            final(self).wf(),
            final(self).next_id == old(self).next_id,
            final(self).subscriptions@ == without(old(self).subscriptions@, id),
            removed == exists|i: int| has_id(old(self).subscriptions@, id, i),
    {
        let ghost pre = self.subscriptions@;
        let mut first: Option<usize> = None;
        let mut i: usize = 0;
        while i < self.subscriptions.len()
            invariant
                i <= self.subscriptions.len(),
                pre == self.subscriptions@,
                match first {
                    Some(f) => f < i && is_first_with(pre, id, f as int),
                    None => forall|j: int| 0 <= j < i ==> (#[trigger] pre[j]).id != id,
                },
            decreases self.subscriptions.len() - i,
        {
            if first.is_none() && self.subscriptions[i].id == id {
                first = Some(i);
            }
            i += 1;
        }
        match first {
            None => {
                return false;
            },
            Some(f) => {
                proof {
                    assert(has_id(pre, id, f as int));
                    let g = first_with(pre, id);
                    assert(is_first_with(pre, id, f as int));
                    assert(is_first_with(pre, id, g));
                    assert(g == f);
                }
                let name = self.subscriptions[f].name.clone();
                let ghost keep = |s: Subscription<L>| !(s.id == id && s.name@ == pre[f as int].name@);
                let mut i: usize = 0;
                let ghost mut n: int = 0;
                proof {
                    assert(pre.take(0).filter(keep) =~= Seq::empty()) by {
                        reveal(Seq::filter);
                    }
                }
                while i < self.subscriptions.len()
                    invariant
                        name@ == pre[f as int].name@,
                        keep == (|s: Subscription<L>|
                            !(s.id == id && s.name@ == pre[f as int].name@)),
                        0 <= n <= pre.len(),
                        i == pre.take(n).filter(keep).len(),
                        self.subscriptions@ =~= pre.take(n).filter(keep) + pre.skip(n),
                        self.wf(),
                        self.next_id == old(self).next_id,
                    decreases self.subscriptions.len() - i,
                {
                    let ghost before = *self;
                    proof {
                        reveal(Seq::filter);
                        assert(pre.take(n + 1).drop_last() =~= pre.take(n));
                        assert(before.subscriptions@[i as int] == pre[n]);
                    }
                    if self.subscriptions[i].id == id && same_text(
                        self.subscriptions[i].name.as_str(),
                        name.as_str(),
                    ) {
                        let _ = self.subscriptions.remove(i);
                        proof {
                            assert forall|k: int| 0 <= k < self.subscriptions.len() implies (
                            #[trigger] self.subscriptions[k]) == before.subscriptions[if k < i {
                                k
                            } else {
                                k + 1
                            }] by {}
                        }
                    } else {
                        i += 1;
                    }
                    proof {
                        n = n + 1;
                    }
                }
                proof {
                    assert(n == pre.len());
                    assert(pre.take(n) =~= pre);
                    assert(pre.skip(n) =~= Seq::empty());
                    assert(self.subscriptions@ =~= pre.filter(keep));
                }
                true
            },
        }
    }
}

/// Every listener of the named event takes the payload.
pub open spec fn attentive<L: Receiver<Value>>(
    subs: Seq<Subscription<L>>,
    name: Seq<char>,
    payload: &Value,
) -> bool {
    forall|i: int|
        0 <= i < subs.len() && (#[trigger] subs[i]).name@ == name ==> subs[i].listener.ready(
            payload,
        )
}

/// Every listener of the named event has been called with the payload.
pub open spec fn all_notified<L: Receiver<Value>>(
    subs: Seq<Subscription<L>>,
    name: Seq<char>,
    payload: &Value,
) -> bool {
    forall|i: int|
        0 <= i < subs.len() && (#[trigger] subs[i]).name@ == name ==> subs[i].listener.told(
            payload,
        )
}

/// The listeners of a named event with the ids of their subscriptions, in subscription order.
pub open spec fn listeners_of<L>(subs: Seq<Subscription<L>>, name: Seq<char>) -> Seq<
    (ListenerId, L),
>
    decreases subs.len(),
{
    if subs.len() == 0 {
        Seq::empty()
    } else if subs.last().name@ == name {
        listeners_of(subs.drop_last(), name).push((subs.last().id, subs.last().listener))
    } else {
        listeners_of(subs.drop_last(), name)
    }
}

/// A call that publishes an event.
pub enum EventCall {
    /// The listener of a subscription.
    Listener { id: ListenerId, payload: Value },
    /// The hook that sees every event.
    Hook { name: Seq<char>, payload: JsonContents },
}

/// One call of each of the listeners, in order.
pub open spec fn each_once<L>(listeners: Seq<(ListenerId, L)>, payload: Value) -> Seq<EventCall> {
    Seq::new(
        listeners.len(),
        |i: int| EventCall::Listener { id: listeners[i].0, payload },
    )
}

/// The calls that an emit makes: each listener of the event once, in subscription order, and no
/// other listener.
pub open spec fn notices<L>(
    subs: Seq<Subscription<L>>,
    name: Seq<char>,
    payload: Value,
) -> Seq<EventCall> {
    each_once(listeners_of(subs, name), payload)
}

impl<L: Receiver<Value>> EventBus<L> {
    /// Calls every listener of the named event with the payload, once each, in subscription order,
    /// and no other listener.
    pub fn emit(&self, name: &str, payload: &Value) -> (calls: CallLog<EventCall>)
        requires
            attentive(self.subscriptions@, name@, payload),
        ensures
            all_notified(self.subscriptions@, name@, payload),
            calls@ == notices(self.subscriptions@, name@, *payload),
    {
        let ghost subs = self.subscriptions@;
        let mut calls: CallLog<EventCall> = CallLog::new();
        let mut i: usize = 0;
        proof {
            assert(notices(subs.take(0), name@, *payload) =~= Seq::empty());
        }
        while i < self.subscriptions.len()
            invariant
                i <= self.subscriptions.len(),
                subs == self.subscriptions@,
                attentive(subs, name@, payload),
                calls@ == notices(subs.take(i as int), name@, *payload),
                forall|k: int|
                    0 <= k < i && (#[trigger] subs[k]).name@ == name@ ==> subs[k].listener.told(
                        payload,
                    ),
            decreases self.subscriptions.len() - i,
        {
            proof {
                assert(subs.take(i + 1).drop_last() =~= subs.take(i as int));
                assert(subs.take(i + 1).last() == subs[i as int]);
            }
            let sub = &self.subscriptions[i];
            if same_text(sub.name.as_str(), name) {
                let entry = Ghost(EventCall::Listener { id: sub.id, payload: *payload });
                sub.listener.tell(payload, &mut calls, entry);
            }
            i += 1;
            proof {
                assert(calls@ =~= notices(subs.take(i as int), name@, *payload));
            }
        }
        proof {
            assert(subs.take(i as int) =~= subs);
        }
        calls
    }
}

impl<F: Receiver<Value>> EventBus<Arc<F>> {
    /// The listeners of a named event, to be called by [`call_each`] when the bus is no longer
    /// held: a listener may then subscribe and unsubscribe.
    pub fn callbacks(&self, name: &str) -> (r: Vec<(ListenerId, Arc<F>)>)
        ensures
            r@ == listeners_of(self.subscriptions@, name@),
    {
        let mut out: Vec<(ListenerId, Arc<F>)> = Vec::new();
        let mut i: usize = 0;
        while i < self.subscriptions.len()
            invariant
                i <= self.subscriptions.len(),
                out@ == listeners_of(self.subscriptions@.take(i as int), name@),
            decreases self.subscriptions.len() - i,
        {
            proof {
                let now = self.subscriptions@.take(i + 1);
                assert(now.drop_last() =~= self.subscriptions@.take(i as int));
                assert(now.last() == self.subscriptions@[i as int]);
            }
            if same_text(self.subscriptions[i].name.as_str(), name) {
                out.push((self.subscriptions[i].id, self.subscriptions[i].listener.clone()));
            }
            i += 1;
        }
        proof {
            assert(self.subscriptions@.take(i as int) =~= self.subscriptions@);
        }
        out
    }
}

/// Calls listeners with a payload, once each, in order.
pub fn call_each<F: Receiver<Value>>(callbacks: &Vec<(ListenerId, Arc<F>)>, payload: &Value) -> (calls:
    CallLog<EventCall>)
    requires
        forall|i: int|
            0 <= i < callbacks.len() ==> (*(#[trigger] callbacks[i]).1).ready(payload),
    ensures
        forall|i: int|
            0 <= i < callbacks.len() ==> (*(#[trigger] callbacks[i]).1).told(payload),
        calls@ == each_once(callbacks@, *payload),
{
    let mut calls: CallLog<EventCall> = CallLog::new();
    let mut i: usize = 0;
    proof {
        assert(each_once(callbacks@.take(0), *payload) =~= Seq::empty());
    }
    while i < callbacks.len()
        invariant
            i <= callbacks.len(),
            forall|k: int|
                0 <= k < callbacks.len() ==> (*(#[trigger] callbacks[k]).1).ready(payload),
            forall|k: int|
                0 <= k < i ==> (*(#[trigger] callbacks[k]).1).told(payload),
            calls@ == each_once(callbacks@.take(i as int), *payload),
        decreases callbacks.len() - i,
    {
        let callback = &callbacks[i];
        let entry = Ghost(EventCall::Listener { id: callback.0, payload: *payload });
        (*callback.1).tell(payload, &mut calls, entry);
        i += 1;
        proof {
            assert(calls@ =~= each_once(callbacks@.take(i as int), *payload));
        }
    }
    proof {
        assert(callbacks@.take(i as int) =~= callbacks@);
    }
    calls
}

/// Command dispatch and events in one place, with an optional hook that sees every event.
pub struct ChannelAdapter<L, H> {
    pub bus: EventBus<L>,
    pub on_emit: Option<H>,
}

/// The message that announces an event to the hook.
pub open spec fn announces(msg: EventMessage, name: Seq<char>, payload: Value) -> bool {
    &&& msg.name@ == name
    &&& msg.payload is Some
    &&& json_contents(msg.payload->0) == json_contents(payload)
    &&& msg.tag is None
}

/// The hook, if there is one, has been called with the message that announces the event.
pub open spec fn hook_notified<H: Receiver<EventMessage>>(
    hook: Option<H>,
    name: Seq<char>,
    payload: Value,
) -> bool {
    hook is Some ==> exists|msg: EventMessage| #[trigger]
        announces(msg, name, payload) && hook->0.told(&msg)
}

/// The hook, if there is one, takes every message that announces the event.
pub open spec fn hook_ready<H: Receiver<EventMessage>>(
    hook: Option<H>,
    name: Seq<char>,
    payload: Value,
) -> bool {
    hook is Some ==> forall|m: &EventMessage|
        announces(*m, name, payload) ==> #[trigger] hook->0.ready(m)
}

/// The calls that publish an event: those of an emit, then the hook, if there is one, once.
pub open spec fn publication<L, H>(
    subs: Seq<Subscription<L>>,
    hook: Option<H>,
    name: Seq<char>,
    payload: Value,
) -> Seq<EventCall> {
    if hook is Some {
        notices(subs, name, payload).push(
            EventCall::Hook { name, payload: json_contents(payload) },
        )
    } else {
        notices(subs, name, payload)
    }
}

/// Publishes an event to the listeners of a bus, then to a hook.
pub fn publish<L: Receiver<Value>, H: Receiver<EventMessage>>(
    bus: &EventBus<L>,
    hook: &Option<H>,
    name: &str,
    payload: &Value,
) -> (calls: CallLog<EventCall>)
    requires
        attentive(bus.subscriptions@, name@, payload),
        hook_ready(*hook, name@, *payload),
    ensures
        all_notified(bus.subscriptions@, name@, payload),
        hook_notified(*hook, name@, *payload),
        calls@ == publication(bus.subscriptions@, *hook, name@, *payload),
{
    let mut calls = bus.emit(name, payload);
    match hook {
        Some(h) => {
            let msg = EventMessage {
                name: name.to_owned(),
                payload: Some(payload.clone()),
                tag: None,
            };
            proof {
                assert(announces(msg, name@, *payload));
            }
            let entry = Ghost(
                EventCall::Hook { name: name@, payload: json_contents(*payload) },
            );
            h.tell(&msg, &mut calls, entry);
        },
        None => {},
    }
    calls
}

impl<L: Receiver<Value>, H: Receiver<EventMessage>> ChannelAdapter<L, H> {
    /// The invariant of the bus.
    pub open spec fn wf(&self) -> bool {
        self.bus.wf()
    }

    /// A channel without subscriptions and without a hook.
    pub fn new() -> (c: Self)
        ensures
            c.wf(),
            c.bus.subscriptions@ == Seq::<Subscription<L>>::empty(),
            c.bus.next_id == 1,
            c.on_emit is None,
    {
        ChannelAdapter { bus: EventBus::new(), on_emit: None }
    }

    /// Calls the requested command; the reply carries the id of the request.
    pub fn invoke<F: Fn(Value) -> CommandResult>(
        &self,
        registry: &CommandRegistry<F>,
        req: InvokeRequest,
    ) -> (resp: InvokeResponse)
        requires
            registry.wf(),
            takes(registry@, req.command@, req.payload),
        ensures
            exists|r: CommandResult| #[trigger]
                call_outcome(registry@, req.command@, req.payload, r) && is_reply(req.id, r, resp),
    {
        let result = registry.invoke(req.command.as_str(), req.payload);
        reply_to(req.id, result)
    }

    /// Subscribes a listener; see [`EventBus::subscribe`].
    pub fn subscribe(&mut self, name: &str, listener: L) -> (id: ListenerId)
        requires
            old(self).wf(),
        ensures
            final(self).wf(),
            final(self).on_emit == old(self).on_emit,
            id == old(self).bus.next_id,
            final(self).bus.next_id == (if id < u64::MAX {
                (id + 1) as u64
            } else {
                id
            }),
            final(self).bus.subscriptions@.drop_last() == old(self).bus.subscriptions@,
            final(self).bus.subscriptions@.len() == old(self).bus.subscriptions@.len() + 1,
            final(self).bus.subscriptions@.last().name@ == name@,
            final(self).bus.subscriptions@.last().id == id,
            final(self).bus.subscriptions@.last().listener == listener,
    {
        self.bus.subscribe(name, listener)
    }

    /// Ends a subscription; tells whether there was one.
    pub fn unsubscribe(&mut self, id: ListenerId) -> (removed: bool)
        requires
            old(self).wf(),
        ensures
            final(self).wf(),
            final(self).on_emit == old(self).on_emit,
            final(self).bus.next_id == old(self).bus.next_id,
            final(self).bus.subscriptions@ == without(old(self).bus.subscriptions@, id),
            removed == exists|i: int| has_id(old(self).bus.subscriptions@, id, i),
    {
        self.bus.unsubscribe(id)
    }

    /// Publishes an event to its listeners, then to the hook.
    pub fn emit_event(&self, name: &str, payload: &Value) -> (calls: CallLog<EventCall>)
        requires
            attentive(self.bus.subscriptions@, name@, payload),
            hook_ready(self.on_emit, name@, *payload),
        ensures
            all_notified(self.bus.subscriptions@, name@, payload),
            hook_notified(self.on_emit, name@, *payload),
            calls@ == publication(self.bus.subscriptions@, self.on_emit, name@, *payload),
    {
        publish(&self.bus, &self.on_emit, name, payload)
    }

    /// Installs or clears the hook.
    pub fn set_on_emit(&mut self, f: Option<H>)
        ensures
            final(self).on_emit == f,
            final(self).bus == old(self).bus,
    {
        self.on_emit = f;
    }
}

/// Calling a command right after it was registered reaches the handler that was registered.
pub proof fn registered_handler_answers<F: Fn(Value) -> CommandResult>(
    commands: Map<Seq<char>, F>,
    name: Seq<char>,
    handler: F,
    payload: Value,
    r: CommandResult,
)
    requires
        call_outcome(commands.insert(name, handler), name, payload, r),
    ensures
        call_ensures(handler, (payload,), r),
{
}

/// Registering a command leaves the outcome of every other command as it was.
pub proof fn other_commands_unaffected<F: Fn(Value) -> CommandResult>(
    commands: Map<Seq<char>, F>,
    name: Seq<char>,
    handler: F,
    other: Seq<char>,
    payload: Value,
    r: CommandResult,
)
    requires
        other != name,
    ensures
        call_outcome(commands.insert(name, handler), other, payload, r) == call_outcome(
            commands,
            other,
            payload,
            r,
        ),
{
}

/// A command that was removed is unknown: the caller is told so, by name, under the id of the call.
pub proof fn removed_command_is_unknown<F: Fn(Value) -> CommandResult>(
    commands: Map<Seq<char>, F>,
    name: Seq<char>,
    payload: Value,
    r: CommandResult,
    id: MessageId,
    resp: InvokeResponse,
)
    requires
        call_outcome(commands.remove(name), name, payload, r),
        is_reply(id, r, resp),
    ensures
        resp.in_reply_to == id,
        resp.ok is None,
        resp.err is Some,
        resp.err->0@ == "unknown command: "@ + name,
{
}

/// A reply holds a result or an error text, never both and never neither.
pub proof fn reply_is_ok_or_error(id: MessageId, r: CommandResult, resp: InvokeResponse)
    requires
        is_reply(id, r, resp),
    ensures
        resp.ok is Some <==> resp.err is None,
        resp.in_reply_to == id,
{
}

/// While ids are not exhausted, ending a subscription removes exactly that subscription, and the
/// others keep their order.
pub proof fn unsubscribe_removes_one<L>(bus: EventBus<L>, k: int)
    requires
        bus.wf(),
        bus.next_id < u64::MAX,
        0 <= k < bus.subscriptions@.len(),
    ensures
        without(bus.subscriptions@, bus.subscriptions@[k].id) == bus.subscriptions@.remove(k),
{
    let subs = bus.subscriptions@;
    let id = subs[k].id;
    assert(has_id(subs, id, k));
    assert forall|j: int| 0 <= j < subs.len() && j != k implies (#[trigger] subs[j]).id != id by {
        assert(bus.subscriptions[j] == subs[j] && bus.subscriptions[k] == subs[k]);
        if j < k {
        } else {
        }
    }
    assert(is_first_with(subs, id, k));
    let first = first_with(subs, id);
    assert(is_first_with(subs, id, first));
    assert(first == k);
    let keep = |s: Subscription<L>| !(s.id == id && s.name@ == subs[first].name@);
    let left = subs.take(k);
    let right = subs.skip(k + 1);
    assert(subs =~= left + seq![subs[k]] + right);
    filter_all(left, keep);
    filter_all(right, keep);
    Seq::filter_distributes_over_add(left + seq![subs[k]], right, keep);
    Seq::filter_distributes_over_add(left, seq![subs[k]], keep);
    let one = seq![subs[k]];
    assert(one.filter(keep) =~= Seq::empty()) by {
        reveal(Seq::filter);
        assert(one.drop_last() =~= Seq::empty());
        assert(one.drop_last().filter(keep) =~= Seq::empty());
        assert(!keep(one.last()));
    }
    assert(subs.remove(k) =~= left + right);
}

/// What an emit calls is settled when it begins.  Where a listener of the event subscribes another
/// and ends the subscription of a third, the next emit calls the new listener, last, and not the
/// one that left; all others are called as before.
pub proof fn changes_count_from_the_next_emit<L>(
    bus: EventBus<L>,
    after: EventBus<L>,
    name: Seq<char>,
    new: Subscription<L>,
    k: int,
)
    requires
        bus.wf(),
        after.wf(),
        after.next_id < u64::MAX,
        0 <= k < bus.subscriptions@.len(),
        bus.subscriptions@[k].name@ == name,
        new.name@ == name,
        after.subscriptions@ == bus.subscriptions@.push(new),
    ensures
        listeners_of(without(after.subscriptions@, bus.subscriptions@[k].id), name)
            == listeners_of(bus.subscriptions@.take(k), name) + listeners_of(
            bus.subscriptions@.skip(k + 1),
            name,
        ).push((new.id, new.listener)),
        listeners_of(bus.subscriptions@, name) == listeners_of(bus.subscriptions@.take(k), name)
            + (seq![(bus.subscriptions@[k].id, bus.subscriptions@[k].listener)] + listeners_of(
            bus.subscriptions@.skip(k + 1),
            name,
        )),
{
    let subs = bus.subscriptions@;
    let left = subs.take(k);
    let right = subs.skip(k + 1);
    let one = seq![subs[k]];
    assert(after.subscriptions@[k] == subs[k]);
    unsubscribe_removes_one(after, k);
    assert(after.subscriptions@.remove(k) =~= left + right.push(new));
    listeners_of_both(left, right.push(new), name);
    assert(right.push(new).drop_last() =~= right);
    assert(subs =~= left + (one + right));
    listeners_of_both(left, one + right, name);
    listeners_of_both(one, right, name);
    assert(one.drop_last() =~= Seq::empty());
    assert(listeners_of(one.drop_last(), name) =~= Seq::<(ListenerId, L)>::empty());
    assert(listeners_of(one, name) =~= seq![(subs[k].id, subs[k].listener)]);
}

/// While ids are not exhausted, an emit calls the listener of every subscription to the event
/// exactly once, and nothing else; after a subscription has ended, its listener is called no more.
pub proof fn every_listener_is_told_once<L>(bus: EventBus<L>, name: Seq<char>, payload: Value)
    requires
        bus.wf(),
        bus.next_id < u64::MAX,
    ensures
        notices(bus.subscriptions@, name, payload).no_duplicates(),
        forall|call: EventCall| #[trigger]
            notices(bus.subscriptions@, name, payload).contains(call) <==> call is Listener
                && call->Listener_payload == payload && exists|k: int|
                0 <= k < bus.subscriptions@.len() && (#[trigger] bus.subscriptions@[k]).name@
                    == name && bus.subscriptions@[k].id == call->id,
        forall|k: int|
            0 <= k < bus.subscriptions@.len() ==> !notices(
                without(bus.subscriptions@, (#[trigger] bus.subscriptions@[k]).id),
                name,
                payload,
            ).contains(EventCall::Listener { id: bus.subscriptions@[k].id, payload }),
{
    let subs = bus.subscriptions@;
    notices_name_subscriptions(subs, name, payload);
    assert forall|k: int| 0 <= k < subs.len() implies !notices(
        without(subs, (#[trigger] subs[k]).id),
        name,
        payload,
    ).contains(EventCall::Listener { id: subs[k].id, payload }) by {
        unsubscribe_removes_one(bus, k);
        let left = subs.remove(k);
        assert forall|i: int, j: int| 0 <= i < j < left.len() implies (#[trigger] left[i]).id < (
        #[trigger] left[j]).id by {
            let a = if i < k { i } else { i + 1 };
            let b = if j < k { j } else { j + 1 };
            assert(left[i] == bus.subscriptions[a] && left[j] == bus.subscriptions[b]);
        }
        notices_name_subscriptions(left, name, payload);
        let gone = EventCall::Listener { id: subs[k].id, payload };
        if notices(left, name, payload).contains(gone) {
            let j = choose|j: int|
                0 <= j < left.len() && (#[trigger] left[j]).name@ == name && left[j].id == gone->id;
            let b = if j < k { j } else { j + 1 };
            assert(left[j] == bus.subscriptions[b] && subs[k] == bus.subscriptions[k]);
        }
    }
}

proof fn notices_name_subscriptions<L>(
    subs: Seq<Subscription<L>>,
    name: Seq<char>,
    payload: Value,
)
    requires
        forall|i: int, j: int|
            0 <= i < j < subs.len() ==> (#[trigger] subs[i]).id < (#[trigger] subs[j]).id,
    ensures
        notices(subs, name, payload).no_duplicates(),
        forall|call: EventCall| #[trigger]
            notices(subs, name, payload).contains(call) <==> call is Listener
                && call->Listener_payload == payload && exists|k: int|
                0 <= k < subs.len() && (#[trigger] subs[k]).name@ == name && subs[k].id
                    == call->id,
    decreases subs.len(),
{
    let now = notices(subs, name, payload);
    if subs.len() == 0 {
        assert(now =~= Seq::empty());
    } else {
        let front = subs.drop_last();
        let last = subs.last();
        let before = notices(front, name, payload);
        assert forall|i: int, j: int| 0 <= i < j < front.len() implies (#[trigger] front[i]).id < (
        #[trigger] front[j]).id by {
            assert(front[i] == subs[i] && front[j] == subs[j]);
        }
        notices_name_subscriptions(front, name, payload);
        let new = EventCall::Listener { id: last.id, payload };
        if last.name@ == name {
            assert(now =~= before.push(new));
            if before.contains(new) {
                let k = choose|k: int|
                    0 <= k < front.len() && (#[trigger] front[k]).name@ == name && front[k].id
                        == new->id;
                assert(front[k] == subs[k] && subs[subs.len() - 1] == last);
            }
            assert forall|i: int, j: int| 0 <= i < now.len() && 0 <= j < now.len() && i
                != j implies now[i] != now[j] by {
                if i < before.len() && j < before.len() {
                    assert(before[i] != before[j]);
                } else if i < before.len() {
                    assert(before.contains(before[i]));
                } else {
                    assert(before.contains(before[j]));
                }
            }
        } else {
            assert(now =~= before);
        }
        assert forall|call: EventCall| #[trigger] now.contains(call) <==> call is Listener
            && call->Listener_payload == payload && exists|k: int|
            0 <= k < subs.len() && (#[trigger] subs[k]).name@ == name && subs[k].id == call->id by {
            if now.contains(call) {
                let i = choose|i: int| 0 <= i < now.len() && now[i] == call;
                if i < before.len() {
                    assert(before[i] == call);
                    assert(before.contains(call));
                    let k = choose|k: int|
                        0 <= k < front.len() && (#[trigger] front[k]).name@ == name && front[k].id
                            == call->id;
                    assert(subs[k] == front[k]);
                } else {
                    assert(subs[subs.len() - 1].name@ == name);
                }
            }
            if call is Listener && call->Listener_payload == payload && exists|k: int|
                0 <= k < subs.len() && (#[trigger] subs[k]).name@ == name && subs[k].id
                    == call->id {
                let k = choose|k: int|
                    0 <= k < subs.len() && (#[trigger] subs[k]).name@ == name && subs[k].id
                        == call->id;
                if k < front.len() {
                    assert(front[k] == subs[k]);
                    assert(before.contains(call));
                    let i = choose|i: int| 0 <= i < before.len() && before[i] == call;
                    assert(now[i] == call);
                } else {
                    assert(now[before.len() as int] == new);
                }
            }
        }
    }
}

/// Subscriptions to other events have no part in an emit.
pub proof fn other_events_are_not_called<L>(
    subs: Seq<Subscription<L>>,
    other: Subscription<L>,
    name: Seq<char>,
)
    requires
        other.name@ != name,
    ensures
        listeners_of(subs.push(other), name) == listeners_of(subs, name),
{
    assert(subs.push(other).drop_last() =~= subs);
}

proof fn listeners_of_both<L>(
    a: Seq<Subscription<L>>,
    b: Seq<Subscription<L>>,
    name: Seq<char>,
)
    ensures
        listeners_of(a + b, name) == listeners_of(a, name) + listeners_of(b, name),
    decreases b.len(),
{
    if b.len() == 0 {
        assert(a + b =~= a);
        assert(listeners_of(a, name) + listeners_of(b, name) =~= listeners_of(a, name));
    } else {
        listeners_of_both(a, b.drop_last(), name);
        assert((a + b).drop_last() =~= a + b.drop_last());
        assert(listeners_of(a + b, name) =~= listeners_of(a, name) + listeners_of(b, name));
    }
}

/// Filtering keeps a sequence whose elements all pass.
proof fn filter_all<A>(s: Seq<A>, keep: spec_fn(A) -> bool)
    requires
        forall|i: int| 0 <= i < s.len() ==> keep(#[trigger] s[i]),
    ensures
        s.filter(keep) == s,
    decreases s.len(),
{
    reveal(Seq::filter);
    if s.len() > 0 {
        filter_all(s.drop_last(), keep);
        assert(s.drop_last().push(s.last()) =~= s);
    }
}

/// A script that gives web content a promise-based command entry point.
pub const SHIM_MIN: &'static str = r#"(() => {
if (typeof window !== 'undefined') {
  window.__verso = window.__verso || {};
  if (!window.__verso.invoke) {
    window.__verso.invoke = async (cmd, payload) => {
      try {
        window.postMessage({ __verso_invoke: { cmd, payload } }, '*');
        return null;
      } catch (e) {
        return Promise.reject(String(e));
      }
    };
  }
}
})();"#;

/// The script for web content.
pub fn script() -> (s: &'static str)
    ensures
        s == SHIM_MIN,
{
    SHIM_MIN
}

} // verus!
