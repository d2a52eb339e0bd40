use crate::anyhashable::AnyHashable;
use std::collections::HashMap;
use vstd::prelude::*;
use vstd::std_specs::iter::IteratorSpec;

verus! {

broadcast use vstd::std_specs::hash::group_hash_axioms;

/// Entries found again by a 64-bit identifier: the running timers of a
/// reducer, the subscribers of a publisher, the child reducers of a scope.
pub struct IdMap<V> {
    entries: HashMap<u64, V>,
}

impl<V> View for IdMap<V> {
    type V = Map<u64, V>;

    closed spec fn view(&self) -> Map<u64, V> {
        self.entries@
    }
}

impl<V> IdMap<V> {
    /// A map without entries.
    pub fn new() -> (m: Self)
        ensures
            m@ == Map::<u64, V>::empty(),
    {
        IdMap { entries: HashMap::new() }
    }

    /// Puts `value` under `id`; hands back what was there before.
    pub fn insert(&mut self, id: u64, value: V) -> (previous: Option<V>)
        ensures
            final(self)@ == old(self)@.insert(id, value),
            previous == if old(self)@.contains_key(id) {
                Some(old(self)@[id])
            } else {
                None
            },
    {
        self.entries.insert(id, value)
    }

    /// Takes out the entry under `id`, if there is one.
    pub fn remove(&mut self, id: u64) -> (removed: Option<V>)
        ensures
            final(self)@ == old(self)@.remove(id),
            removed == if old(self)@.contains_key(id) {
                Some(old(self)@[id])
            } else {
                None
            },
    {
        self.entries.remove(&id)
    }

    /// Whether there is an entry under `id`.
    pub fn contains(&self, id: u64) -> (r: bool)
        ensures
            r == self@.contains_key(id),
    {
        self.entries.contains_key(&id)
    }

    /// The entry under `id`, if there is one.
    pub fn get(&self, id: u64) -> (r: Option<&V>)
        ensures
            r == if self@.contains_key(id) {
                Some(&self@[id])
            } else {
                None
            },
    {
        self.entries.get(&id)
    }

    /// The number of entries.
    pub fn len(&self) -> (r: usize)
        ensures
            r == self@.len(),
    {
        self.entries.len()
    }

    /// Removes every entry.
    pub fn clear(&mut self)
        ensures
            final(self)@ == Map::<u64, V>::empty(),
    {
        self.entries.clear()
    }

    /// The identifiers that have an entry, each once, in no particular order.
    pub fn ids(&self) -> (r: Vec<u64>)
        ensures
            r@.to_set() == self@.dom(),
            r@.no_duplicates(),
            r@.len() == self@.len(),
    {
        let mut r: Vec<u64> = Vec::new();
        let ghost keys = vstd::std_specs::hash::spec_keys_iter(&self.entries).remaining();
        for k in it: self.entries.keys()
            invariant
                it.seq() == keys,
                r@ == it.seq().take(it.index() as int).unref(),
            ensures
                r@ == keys.unref(),
        {
            r.push(*k);
            assert(it.seq().take(it.index() as int + 1).unref() =~= r@);
        }
        r
    }
}

/// The timers that a reducer has started, by the identifier it gave them.
/// `H` is the runtime's handle of a running timer.
pub struct Timers<H> {
    running: IdMap<H>,
}

impl<H> View for Timers<H> {
    type V = Map<u64, H>;

    closed spec fn view(&self) -> Map<u64, H> {
        self.running@
    }
}

impl<H> Timers<H> {
    /// No timer is running.
    pub fn new() -> (t: Self)
        ensures
            t@ == Map::<u64, H>::empty(),
    {
        Timers { running: IdMap::new() }
    }

    /// Records a timer that was started under `id`. A timer that ran under
    /// the same identifier is handed back: it is no longer known by the
    /// identifier (and is not stopped by this).
    pub fn start(&mut self, id: AnyHashable, handle: H) -> (displaced: Option<H>)
        ensures
            final(self)@ == old(self)@.insert(id.spec_id(), handle),
            displaced == if old(self)@.contains_key(id.spec_id()) {
                Some(old(self)@[id.spec_id()])
            } else {
                None
            },
    {
        self.running.insert(id.id(), handle)
    }

    /// Takes out the timer running under `id`, if there is one, so that it
    /// can be stopped.
    pub fn cancel(&mut self, id: AnyHashable) -> (stopped: Option<H>)
        ensures
            final(self)@ == old(self)@.remove(id.spec_id()),
            stopped == if old(self)@.contains_key(id.spec_id()) {
                Some(old(self)@[id.spec_id()])
            } else {
                None
            },
    {
        self.running.remove(id.id())
    }

    /// Whether a timer runs under `id`.
    pub fn is_running(&self, id: AnyHashable) -> (r: bool)
        ensures
            r == self@.contains_key(id.spec_id()),
    {
        self.running.contains(id.id())
    }
}

/// Cancelling a timer right after starting it hands back that very timer
/// and leaves no timer under its identifier; the other timers are as they
/// were before the start.
pub proof fn lemma_cancel_after_start<H>(running: Map<u64, H>, id: u64, handle: H)
    ensures
        running.insert(id, handle).contains_key(id),
        running.insert(id, handle)[id] == handle,
        running.insert(id, handle).remove(id) == running.remove(id),
{
    assert(running.insert(id, handle).remove(id) =~= running.remove(id));
}

/// What a reducer's runtime keeps between updates: its scope, the sender of
/// its actions (`S`), what is called to send a message to each hosted child
/// (`M`, by the child's scope), its subscriptions (`U`), and the timers it
/// has started (`H`, the handle of a running timer), which live as long as
/// the reducer and not only for one update.
pub struct Runtime<S, M, U, H> {
    scope_id: usize,
    sender: S,
    child_senders: IdMap<M>,
    subscriptions: Vec<U>,
    timers: Timers<H>,
}

/// The scope of a child as the key of its sender.
pub open spec fn scope_key(scope_id: usize) -> u64 {
    scope_id as u64
}

impl<S, M, U, H> Runtime<S, M, U, H> {
    /// The scope the reducer runs in.
    pub closed spec fn spec_scope_id(&self) -> usize {
        self.scope_id
    }

    /// The sender of the reducer's actions.
    pub closed spec fn spec_sender(&self) -> S {
        self.sender
    }

    /// The children hosted in this runtime, by scope.
    pub closed spec fn children(&self) -> Map<u64, M> {
        self.child_senders@
    }

    /// The subscriptions kept alive by this runtime.
    pub closed spec fn spec_subscriptions(&self) -> Seq<U> {
        self.subscriptions@
    }

    /// The timers running for this reducer, by identifier.
    pub closed spec fn spec_timers(&self) -> Map<u64, H> {
        self.timers@
    }

    /// A runtime without children, subscriptions or timers.
    pub fn new(scope_id: usize, sender: S) -> (r: Self)
        ensures
            r.spec_scope_id() == scope_id,
            r.spec_sender() == sender,
            r.children() == Map::<u64, M>::empty(),
            r.spec_subscriptions() == Seq::<U>::empty(),
            r.spec_timers() == Map::<u64, H>::empty(),
    {
        Runtime {
            scope_id,
            sender,
            child_senders: IdMap::new(),
            subscriptions: Vec::new(),
            timers: Timers::new(),
        }
    }

    /// Registers how to reach the child hosted in `scope_id`. Answers
    /// whether another child was registered in that scope already (the new
    /// one takes its place).
    pub fn register_child(&mut self, scope_id: usize, send: M) -> (taken: bool)
        ensures
            final(self).children() == old(self).children().insert(scope_key(scope_id), send),
            taken == old(self).children().contains_key(scope_key(scope_id)),
            final(self).spec_scope_id() == old(self).spec_scope_id(),
            final(self).spec_sender() == old(self).spec_sender(),
            final(self).spec_subscriptions() == old(self).spec_subscriptions(),
            final(self).spec_timers() == old(self).spec_timers(),
    {
        let key = scope_id as u64;
        let taken = self.child_senders.contains(key);
        let _ = self.child_senders.insert(key, send);
        taken
    }

    /// Forgets the child hosted in `scope_id`.
    pub fn remove_child(&mut self, scope_id: usize) -> (removed: Option<M>)
        ensures
            final(self).children() == old(self).children().remove(scope_key(scope_id)),
            removed == if old(self).children().contains_key(scope_key(scope_id)) {
                Some(old(self).children()[scope_key(scope_id)])
            } else {
                None
            },
            final(self).spec_scope_id() == old(self).spec_scope_id(),
            final(self).spec_sender() == old(self).spec_sender(),
            final(self).spec_subscriptions() == old(self).spec_subscriptions(),
            final(self).spec_timers() == old(self).spec_timers(),
    {
        self.child_senders.remove(scope_id as u64)
    }

    /// The scopes of the hosted children, each once.
    pub fn child_scopes(&self) -> (r: Vec<u64>)
        ensures
            r@.to_set() == self.children().dom(),
            r@.no_duplicates(),
    {
        self.child_senders.ids()
    }

    /// How to reach the child hosted under `key`.
    pub fn child(&self, key: u64) -> (r: Option<&M>)
        ensures
            r == if self.children().contains_key(key) {
                Some(&self.children()[key])
            } else {
                None
            },
    {
        self.child_senders.get(key)
    }

    /// The scope the reducer runs in.
    pub fn scope_id(&self) -> (r: usize)
        ensures
            r == self.spec_scope_id(),
    {
        self.scope_id
    }

    /// The sender of the reducer's actions.
    pub fn sender(&self) -> (r: &S)
        ensures
            *r == self.spec_sender(),
    {
        &self.sender
    }

    /// Records a timer started under `id`. A timer that ran under the same
    /// identifier is handed back, to be stopped: it is no longer known by the
    /// identifier.
    pub fn start_timer(&mut self, id: AnyHashable, handle: H) -> (displaced: Option<H>)
        ensures
            final(self).spec_timers() == old(self).spec_timers().insert(id.spec_id(), handle),
            displaced == if old(self).spec_timers().contains_key(id.spec_id()) {
                Some(old(self).spec_timers()[id.spec_id()])
            } else {
                None
            },
            final(self).children() == old(self).children(),
            final(self).spec_subscriptions() == old(self).spec_subscriptions(),
            final(self).spec_scope_id() == old(self).spec_scope_id(),
            final(self).spec_sender() == old(self).spec_sender(),
    {
        self.timers.start(id, handle)
    }

    /// Takes out the timer running under `id`, if there is one, so that it
    /// can be stopped; it may have been started on any earlier update.
    pub fn cancel_timer(&mut self, id: AnyHashable) -> (stopped: Option<H>)
        ensures
            final(self).spec_timers() == old(self).spec_timers().remove(id.spec_id()),
            stopped == if old(self).spec_timers().contains_key(id.spec_id()) {
                Some(old(self).spec_timers()[id.spec_id()])
            } else {
                None
            },
            final(self).children() == old(self).children(),
            final(self).spec_subscriptions() == old(self).spec_subscriptions(),
            final(self).spec_scope_id() == old(self).spec_scope_id(),
            final(self).spec_sender() == old(self).spec_sender(),
    {
        self.timers.cancel(id)
    }

    /// Whether a timer runs under `id`.
    pub fn is_timer_running(&self, id: AnyHashable) -> (r: bool)
        ensures
            r == self.spec_timers().contains_key(id.spec_id()),
    {
        self.timers.is_running(id)
    }

    /// Keeps a subscription alive.
    pub fn add_subscription(&mut self, subscription: U)
        ensures
            final(self).spec_subscriptions() == old(self).spec_subscriptions().push(subscription),
            final(self).children() == old(self).children(),
            final(self).spec_scope_id() == old(self).spec_scope_id(),
            final(self).spec_sender() == old(self).spec_sender(),
            final(self).spec_timers() == old(self).spec_timers(),
    {
        self.subscriptions.push(subscription);
    }

    /// Hands out all subscriptions (to be cancelled) and keeps none.
    pub fn take_subscriptions(&mut self) -> (taken: Vec<U>)
        ensures
            taken@ == old(self).spec_subscriptions(),
            final(self).spec_subscriptions() == Seq::<U>::empty(),
            final(self).children() == old(self).children(),
            final(self).spec_scope_id() == old(self).spec_scope_id(),
            final(self).spec_sender() == old(self).spec_sender(),
            final(self).spec_timers() == old(self).spec_timers(),
    {
        let mut taken: Vec<U> = Vec::new();
        std::mem::swap(&mut taken, &mut self.subscriptions);
        taken
    }
}

/// A child registered in a scope where no child was, and then removed
/// again, leaves the children of a runtime as they were.
pub proof fn lemma_remove_child_undoes_register<M>(children: Map<u64, M>, scope_id: usize, send: M)
    requires
        !children.contains_key(scope_key(scope_id)),
    ensures
        children.insert(scope_key(scope_id), send).remove(scope_key(scope_id)) == children,
{
    assert(children.insert(scope_key(scope_id), send).remove(scope_key(scope_id)) =~= children);
}

/// Different scopes get different keys: the key of a scope is the scope
/// itself, so a child is found again by exactly the scope it was hosted in.
pub proof fn lemma_scope_keys_distinct(a: usize, b: usize)
    ensures
        (scope_key(a) == scope_key(b)) <==> a == b,
        scope_key(a) as int == a as int,
{
}

/// Registering a child in one scope never displaces or changes the child
/// registered in another scope.
pub proof fn lemma_register_keeps_other_children<M>(
    children: Map<u64, M>,
    scope: usize,
    other: usize,
    send: M,
)
    requires
        scope != other,
    ensures
        children.insert(scope_key(scope), send).contains_key(scope_key(other))
            == children.contains_key(scope_key(other)),
        children.contains_key(scope_key(other)) ==> children.insert(scope_key(scope), send)[scope_key(
            other,
        )] == children[scope_key(other)],
        children.insert(scope_key(scope), send).remove(scope_key(other)).contains_key(
            scope_key(scope),
        ),
{
    lemma_scope_keys_distinct(scope, other);
}

} // verus!
