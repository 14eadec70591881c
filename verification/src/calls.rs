//! Calls of functions that an application hands to the library and that have effects: hooks and
//! actions of windows, receivers of clicks, listeners of events, receivers of reports, notification
//! services, the commands that a server serves, and the worker of an engine.
//!
//! Such a function is called together with an entry in a [`CallLog`].  A contract over the log says
//! how often which function is called, with what, and in what order.  Calls that only compute, such
//! as those that render a page, leave no entry.
use vstd::prelude::*;

verus! {

/// The calls that were made, in order.  A log exists in contracts only and takes no memory.
#[verifier::reject_recursive_types(A)]
pub struct CallLog<A> {
    entries: Ghost<Seq<A>>,
}

impl<A> View for CallLog<A> {
    type V = Seq<A>;

    closed spec fn view(&self) -> Seq<A> {
        self.entries@
    }
}

impl<A> CallLog<A> {
    /// A log without calls.
    pub fn new() -> (log: Self)
        ensures
            log@ == Seq::<A>::empty(),
    {
        CallLog { entries: Ghost(Seq::empty()) }
    }

    fn record(&mut self, entry: Ghost<A>)
        ensures
            final(self)@ == old(self)@.push(entry@),
    {
        self.entries = Ghost(self.entries@.push(entry@));
    }

    /// Records that nobody is there to be called.
    pub(crate) fn call_nobody(&mut self, entry: Ghost<A>)
        ensures
            final(self)@ == old(self)@.push(entry@),
    {
        self.record(entry)
    }

    /// Calls a function without arguments.
    pub(crate) fn call0<R, F: Fn() -> R>(&mut self, f: &F, entry: Ghost<A>) -> (r: R)
        requires
            call_requires(*f, ()),
        ensures
            call_ensures(*f, (), r),
            final(self)@ == old(self)@.push(entry@),
    {
        self.record(entry);
        (*f)()
    }

    /// Calls a function of one argument.
    pub(crate) fn call1<T, R, F: Fn(T) -> R>(&mut self, f: &F, x: T, entry: Ghost<A>) -> (r: R)
        requires
            call_requires(*f, (x,)),
        ensures
            call_ensures(*f, (x,), r),
            final(self)@ == old(self)@.push(entry@),
    {
        self.record(entry);
        (*f)(x)
    }

    /// Calls a function of two arguments.
    pub(crate) fn call2<T, U, R, F: Fn(T, U) -> R>(
        &mut self,
        f: &F,
        x: T,
        y: U,
        entry: Ghost<A>,
    ) -> (r: R)
        requires
            call_requires(*f, (x, y)),
        ensures
            call_ensures(*f, (x, y), r),
            final(self)@ == old(self)@.push(entry@),
    {
        self.record(entry);
        (*f)(x, y)
    }

    /// Calls a function of three arguments.
    pub(crate) fn call3<T, U, V, R, F: Fn(T, U, V) -> R>(
        &mut self,
        f: &F,
        x: T,
        y: U,
        z: V,
        entry: Ghost<A>,
    ) -> (r: R)
        requires
            call_requires(*f, (x, y, z)),
        ensures
            call_ensures(*f, (x, y, z), r),
            final(self)@ == old(self)@.push(entry@),
    {
        self.record(entry);
        (*f)(x, y, z)
    }
}

/// Something that can be told of a value.  Code that knows a function only as a receiver cannot call
/// it without a log.
pub trait Receiver<T> {
    /// Whether it can be told.
    spec fn ready(&self, x: &T) -> bool;

    /// It has been told.
    spec fn told(&self, x: &T) -> bool;

    /// Tells it, once.
    fn tell<A>(&self, x: &T, calls: &mut CallLog<A>, entry: Ghost<A>)
        requires
            self.ready(x),
        ensures
            self.told(x),
            final(calls)@ == old(calls)@.push(entry@),
    ;
}

impl<T, F: Fn(&T)> Receiver<T> for F {
    open spec fn ready(&self, x: &T) -> bool {
        call_requires(*self, (x,))
    }

    open spec fn told(&self, x: &T) -> bool {
        call_ensures(*self, (x,), ())
    }

    fn tell<A>(&self, x: &T, calls: &mut CallLog<A>, entry: Ghost<A>) {
        calls.call1(self, x, entry)
    }
}

/// Something that a value can be handed to.
pub trait Sink<T> {
    /// Whether it takes the value.
    spec fn ready(&self, x: T) -> bool;

    /// It has been handed the value.
    spec fn told(&self, x: T) -> bool;

    /// Hands it the value, once.
    fn hand<A>(&self, x: T, calls: &mut CallLog<A>, entry: Ghost<A>)
        requires
            self.ready(x),
        ensures
            self.told(x),
            final(calls)@ == old(calls)@.push(entry@),
    ;
}

impl<T, F: Fn(T)> Sink<T> for F {
    open spec fn ready(&self, x: T) -> bool {
        call_requires(*self, (x,))
    }

    open spec fn told(&self, x: T) -> bool {
        call_ensures(*self, (x,), ())
    }

    fn hand<A>(&self, x: T, calls: &mut CallLog<A>, entry: Ghost<A>) {
        calls.call1(self, x, entry)
    }
}

/// A function that a value can be handed to and that answers.
pub trait Function<T, R> {
    /// Whether it takes the value.
    spec fn ready(&self, x: T) -> bool;

    /// Handed the value, it answered `r`.
    spec fn answered(&self, x: T, r: R) -> bool;

    /// Calls it, once.
    fn ask<A>(&self, x: T, calls: &mut CallLog<A>, entry: Ghost<A>) -> (r: R)
        requires
            self.ready(x),
        ensures
            self.answered(x, r),
            final(calls)@ == old(calls)@.push(entry@),
    ;
}

impl<T, R, F: Fn(T) -> R> Function<T, R> for F {
    open spec fn ready(&self, x: T) -> bool {
        call_requires(*self, (x,))
    }

    open spec fn answered(&self, x: T, r: R) -> bool {
        call_ensures(*self, (x,), r)
    }

    fn ask<A>(&self, x: T, calls: &mut CallLog<A>, entry: Ghost<A>) -> (r: R) {
        calls.call1(self, x, entry)
    }
}

} // verus!
