//! A command registry whose handlers may answer at once or later, with the channel that serves it.
//!
//! Handlers that answer later are opaque to this module: it chooses the handler and hands it back,
//! and whoever runs it makes the reply from its result.
use vstd::prelude::*;
use serde_json::Value;
use crate::named_table::NamedTable;
pub use crate::tauri_ipc_adapter::{
    script, AdapterError, CommandResult, EventBus, EventMessage, InvokeRequest, InvokeResponse,
    ListenerId, MessageId, SHIM_MIN,
};
use crate::calls::{CallLog, Receiver};
use crate::tauri_ipc_adapter::{
    all_notified, attentive, has_id, hook_notified, hook_ready, is_reply, publication, publish,
    reply_to, without, EventCall, Subscription,
};

verus! {

/// What is known of a command besides its handler.
#[derive(Debug, Clone)]
pub struct CommandMeta {
    /// Capabilities that a caller needs.
    pub capabilities: Vec<String>,
}

impl Default for CommandMeta {
    /// No capability is needed.
    fn default() -> (m: Self)
        ensures
            m.capabilities@ == Seq::<String>::empty(),
    {
        CommandMeta { capabilities: Vec::new() }
    }
}

/// Handlers by name: `F` answers at once, `A` answers later.
pub struct CommandRegistry<F, A> {
    pub sync_commands: NamedTable<(F, CommandMeta)>,
    pub async_commands: NamedTable<(A, CommandMeta)>,
}

/// What a call of a command that answers at once may return.
pub open spec fn sync_outcome<F: Fn(Value) -> CommandResult>(
    commands: Map<Seq<char>, (F, CommandMeta)>,
    name: Seq<char>,
    payload: Value,
    r: CommandResult,
) -> bool {
    if commands.contains_key(name) {
        call_ensures(commands[name].0, (payload,), r)
    } else {
        is_unknown(name, r)
    }
}

/// The result says that no handler has the name.
pub open spec fn is_unknown(name: Seq<char>, r: CommandResult) -> bool {
    r is Err && r->Err_0 is UnknownCommand && r->Err_0->UnknownCommand_0@ == name
}

/// The handler of a name that answers at once, if there is one, takes the payload.
pub open spec fn takes<F: Fn(Value) -> CommandResult>(
    commands: Map<Seq<char>, (F, CommandMeta)>,
    name: Seq<char>,
    payload: Value,
) -> bool {
    commands.contains_key(name) ==> call_requires(commands[name].0, (payload,))
}

/// How far a call got: it is answered, or a handler has yet to be run on the payload.
pub enum Dispatch<'a, A> {
    Answered(CommandResult),
    Deferred { handler: &'a A, payload: Value },
}

impl<F: Fn(Value) -> CommandResult, A> CommandRegistry<F, A> {
    /// No name is registered twice in either table.
    pub open spec fn wf(&self) -> bool {
        self.sync_commands.wf() && self.async_commands.wf()
    }

    /// A registry without commands.
    pub fn new() -> (r: Self)
        ensures
            r.wf(),
            r.sync_commands@ == Map::<Seq<char>, (F, CommandMeta)>::empty(),
            r.async_commands@ == Map::<Seq<char>, (A, CommandMeta)>::empty(),
    {
        CommandRegistry { sync_commands: NamedTable::new(), async_commands: NamedTable::new() }
    }

    /// Registers a handler that answers at once; returns the one that it replaces.
    pub fn register(&mut self, name: &str, handler: F) -> (prev: Option<F>)
        requires
            old(self).wf(),
        ensures
            final(self).wf(),
            final(self).async_commands == old(self).async_commands,
            exists|meta: CommandMeta|
                meta.capabilities@.len() == 0 && #[trigger] old(self).sync_commands@.insert(
                    name@,
                    (handler, meta),
                ) == final(self).sync_commands@,
            old(self).sync_commands@.contains_key(name@) ==> prev == Some(
                old(self).sync_commands@[name@].0,
            ),
            !old(self).sync_commands@.contains_key(name@) ==> prev is None,
    {
        self.register_with_meta(name, handler, CommandMeta::default())
    }

    /// Registers a handler that answers at once, with its metadata; returns the one that it
    /// replaces.
    pub fn register_with_meta(&mut self, name: &str, handler: F, meta: CommandMeta) -> (prev:
        Option<F>)
        requires
            old(self).wf(),
        ensures
            final(self).wf(),
            final(self).async_commands == old(self).async_commands,
            final(self).sync_commands@ == old(self).sync_commands@.insert(name@, (handler, meta)),
            old(self).sync_commands@.contains_key(name@) ==> prev == Some(
                old(self).sync_commands@[name@].0,
            ),
            !old(self).sync_commands@.contains_key(name@) ==> prev is None,
    {
        match self.sync_commands.insert(name.to_owned(), (handler, meta)) {
            Some((prev, _)) => Some(prev),
            None => None,
        }
    }

    /// Removes a handler that answers at once; tells whether there was one.
    pub fn unregister(&mut self, name: &str) -> (b: bool)
        requires
            old(self).wf(),
        ensures
            final(self).wf(),
            final(self).async_commands == old(self).async_commands,
            final(self).sync_commands@ == old(self).sync_commands@.remove(name@),
            b == old(self).sync_commands@.contains_key(name@),
    {
        self.sync_commands.remove(name).is_some()
    }

    /// Calls the handler of a name that answers at once.
    pub fn invoke(&self, name: &str, payload: Value) -> (r: CommandResult)
        requires
            self.wf(),
            takes(self.sync_commands@, name@, payload),
        ensures
            sync_outcome(self.sync_commands@, name@, payload, r),
    {
        match self.sync_commands.get(name) {
            Some(entry) => (entry.0)(payload),
            None => Err(AdapterError::UnknownCommand(name.to_owned())),
        }
    }

    /// Whether a name has a handler of either sort.
    pub fn contains(&self, name: &str) -> (b: bool)
        requires
            self.wf(),
        ensures
            b == (self.sync_commands@.contains_key(name@) || self.async_commands@.contains_key(
                name@,
            )),
    {
        self.sync_commands.contains(name) || self.async_commands.contains(name)
    }

    /// Registers a handler that answers later; returns the one that it replaces.
    pub fn register_async(&mut self, name: &str, handler: A) -> (prev: Option<A>)
        requires
            old(self).wf(),
        ensures
            final(self).wf(),
            final(self).sync_commands == old(self).sync_commands,
            exists|meta: CommandMeta|
                meta.capabilities@.len() == 0 && #[trigger] old(self).async_commands@.insert(
                    name@,
                    (handler, meta),
                ) == final(self).async_commands@,
            old(self).async_commands@.contains_key(name@) ==> prev == Some(
                old(self).async_commands@[name@].0,
            ),
            !old(self).async_commands@.contains_key(name@) ==> prev is None,
    {
        self.register_async_with_meta(name, handler, CommandMeta::default())
    }

    /// Registers a handler that answers later, with its metadata; returns the one that it replaces.
    pub fn register_async_with_meta(&mut self, name: &str, handler: A, meta: CommandMeta) -> (prev:
        Option<A>)
        requires
            old(self).wf(),
        ensures
            final(self).wf(),
            final(self).sync_commands == old(self).sync_commands,
            final(self).async_commands@ == old(self).async_commands@.insert(name@, (handler, meta)),
            old(self).async_commands@.contains_key(name@) ==> prev == Some(
                old(self).async_commands@[name@].0,
            ),
            !old(self).async_commands@.contains_key(name@) ==> prev is None,
    {
        match self.async_commands.insert(name.to_owned(), (handler, meta)) {
            Some((prev, _)) => Some(prev),
            None => None,
        }
    }

    /// Removes a handler that answers later; tells whether there was one.
    pub fn unregister_async(&mut self, name: &str) -> (b: bool)
        requires
            old(self).wf(),
        ensures
            final(self).wf(),
            final(self).sync_commands == old(self).sync_commands,
            final(self).async_commands@ == old(self).async_commands@.remove(name@),
            b == old(self).async_commands@.contains_key(name@),
    {
        self.async_commands.remove(name).is_some()
    }

    /// Calls a command of either sort: a handler that answers at once is preferred and has been
    /// called; a handler that answers later is handed back with the payload.
    pub fn invoke_async(&self, name: &str, payload: Value) -> (d: Dispatch<'_, A>)
        requires
            self.wf(),
            takes(self.sync_commands@, name@, payload),
        ensures
            if self.sync_commands@.contains_key(name@) {
                d is Answered && call_ensures(
                    self.sync_commands@[name@].0,
                    (payload,),
                    d->Answered_0,
                )
            } else if self.async_commands@.contains_key(name@) {
                d == (Dispatch::Deferred { handler: &self.async_commands@[name@].0, payload })
            } else {
                d is Answered && is_unknown(name@, d->Answered_0)
            },
    {
        match self.sync_commands.get(name) {
            Some(entry) => return Dispatch::Answered((entry.0)(payload)),
            None => {},
        }
        match self.async_commands.get(name) {
            Some(entry) => Dispatch::Deferred { handler: &entry.0, payload },
            None => Dispatch::Answered(Err(AdapterError::UnknownCommand(name.to_owned()))),
        }
    }
}

/// Command dispatch and events in one place, with an optional hook that sees every event.
pub struct ChannelAdapter<L, H> {
    pub bus: EventBus<L>,
    pub on_emit: Option<H>,
}

/// A dispatched request: the reply, or what has yet to be run for the reply to `id`.
pub enum Pending<'a, A> {
    Ready(InvokeResponse),
    Waiting { id: MessageId, handler: &'a A, payload: Value },
}

impl<L: Receiver<Value>, H: Receiver<EventMessage>> ChannelAdapter<L, H> {
    /// The invariant of the bus.
    pub open spec fn wf(&self) -> bool {
        self.bus.wf()
    }

    /// A channel without subscriptions and without a hook.
    pub fn new() -> (c: Self)
        ensures
            c.wf(),
            c.bus.subscriptions@ == Seq::<Subscription<L>>::empty(),
            c.bus.next_id == 1,
            c.on_emit is None,
    {
        ChannelAdapter { bus: EventBus::new(), on_emit: None }
    }

    /// Calls the requested command; the reply carries the id of the request.
    pub fn invoke<F: Fn(Value) -> CommandResult, A>(
        &self,
        registry: &CommandRegistry<F, A>,
        req: InvokeRequest,
    ) -> (resp: InvokeResponse)
        requires
            registry.wf(),
            takes(registry.sync_commands@, req.command@, req.payload),
        ensures
            exists|r: CommandResult| #[trigger]
                sync_outcome(registry.sync_commands@, req.command@, req.payload, r) && is_reply(
                    req.id,
                    r,
                    resp,
                ),
    {
        let result = registry.invoke(req.command.as_str(), req.payload);
        reply_to(req.id, result)
    }

    /// Calls the requested command, which may answer later; [`reply_to`] makes the reply from
    /// what a handler that was handed back returns.
    pub fn invoke_async<'a, F: Fn(Value) -> CommandResult, A>(
        &self,
        registry: &'a CommandRegistry<F, A>,
        req: InvokeRequest,
    ) -> (p: Pending<'a, A>)
        requires
            registry.wf(),
            takes(registry.sync_commands@, req.command@, req.payload),
        ensures
            if registry.sync_commands@.contains_key(req.command@)
                || !registry.async_commands@.contains_key(req.command@) {
                p is Ready && exists|r: CommandResult| #[trigger]
                    sync_outcome(registry.sync_commands@, req.command@, req.payload, r) && is_reply(
                        req.id,
                        r,
                        p->Ready_0,
                    )
            } else {
                p == (Pending::Waiting {
                    id: req.id,
                    handler: &registry.async_commands@[req.command@].0,
                    payload: req.payload,
                })
            },
    {
        match registry.invoke_async(req.command.as_str(), req.payload) {
            Dispatch::Answered(r) => {
                proof {
                    assert(sync_outcome(registry.sync_commands@, req.command@, req.payload, r));
                }
                Pending::Ready(reply_to(req.id, r))
            },
            Dispatch::Deferred { handler, payload } => Pending::Waiting {
                id: req.id,
                handler,
                payload,
            },
        }
    }

    /// Subscribes a listener; see [`EventBus::subscribe`].
    pub fn subscribe(&mut self, name: &str, listener: L) -> (id: ListenerId)
        requires
            old(self).wf(),
        ensures
            final(self).wf(),
            final(self).on_emit == old(self).on_emit,
            id == old(self).bus.next_id,
            final(self).bus.next_id == (if id < u64::MAX {
                (id + 1) as u64
            } else {
                id
            }),
            final(self).bus.subscriptions@.drop_last() == old(self).bus.subscriptions@,
            final(self).bus.subscriptions@.len() == old(self).bus.subscriptions@.len() + 1,
            final(self).bus.subscriptions@.last().name@ == name@,
            final(self).bus.subscriptions@.last().id == id,
            final(self).bus.subscriptions@.last().listener == listener,
    {
        self.bus.subscribe(name, listener)
    }

    /// Ends a subscription; tells whether there was one.
    pub fn unsubscribe(&mut self, id: ListenerId) -> (removed: bool)
        requires
            old(self).wf(),
        ensures
            final(self).wf(),
            final(self).on_emit == old(self).on_emit,
            final(self).bus.next_id == old(self).bus.next_id,
            final(self).bus.subscriptions@ == without(old(self).bus.subscriptions@, id),
            removed == exists|i: int| has_id(old(self).bus.subscriptions@, id, i),
    {
        self.bus.unsubscribe(id)
    }

    /// Publishes an event to its listeners, then to the hook.
    pub fn emit_event(&self, name: &str, payload: &Value) -> (calls: CallLog<EventCall>)
        requires
            attentive(self.bus.subscriptions@, name@, payload),
            hook_ready(self.on_emit, name@, *payload),
        ensures
            all_notified(self.bus.subscriptions@, name@, payload),
            hook_notified(self.on_emit, name@, *payload),
            calls@ == publication(self.bus.subscriptions@, self.on_emit, name@, *payload),
    {
        publish(&self.bus, &self.on_emit, name, payload)
    }

    /// Installs or clears the hook.
    pub fn set_on_emit(&mut self, f: Option<H>)
        ensures
            final(self).on_emit == f,
            final(self).bus == old(self).bus,
    {
        self.on_emit = f;
    }
}

} // verus!
