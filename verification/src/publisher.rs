use crate::anyhashable::AnyHashable;
use crate::runtime::IdMap;
use std::cell::RefMut;
use vstd::prelude::*;

verus! {

/// The version that follows `version` after one more mutation (it wraps
/// around at the top of the range).
pub open spec fn spec_next_version(version: u64) -> u64 {
    if version == u64::MAX {
        0
    } else {
        (version + 1) as u64
    }
}

/// The value that a publisher's version counter takes after one more mutation.
pub fn next_version(version: u64) -> (next: u64)
    ensures
        next == spec_next_version(version),
{
    version.wrapping_add(1)
}

/// What a publisher keeps besides its data: how often the data was
/// mutated, and who is to be told about it. `F` is what is called to tell a
/// subscriber.
pub struct PublisherState<F> {
    version: u64,
    subscribers: IdMap<F>,
}

/// The view of a publisher's state.
pub struct PublisherView<F> {
    pub version: u64,
    pub subscribers: Map<u64, F>,
}

impl<F> View for PublisherState<F> {
    type V = PublisherView<F>;

    closed spec fn view(&self) -> PublisherView<F> {
        PublisherView { version: self.version, subscribers: self.subscribers@ }
    }
}

impl<F> PublisherState<F> {
    /// A publisher that was never mutated and has no subscribers.
    pub fn new() -> (p: Self)
        ensures
            p@.version == 0,
            p@.subscribers == Map::<u64, F>::empty(),
    {
        PublisherState { version: 0, subscribers: IdMap::new() }
    }

    /// How often the data was mutated (modulo 2^64).
    pub fn version(&self) -> (v: u64)
        ensures
            v == self@.version,
    {
        self.version
    }

    /// Records one mutation of the data; hands back the identifiers of the
    /// subscribers that are to be told, each once.
    pub fn mutated(&mut self) -> (notify: Vec<u64>)
        ensures
            final(self)@.version == spec_next_version(old(self)@.version),
            final(self)@.subscribers == old(self)@.subscribers,
            notify@.to_set() == old(self)@.subscribers.dom(),
            notify@.no_duplicates(),
    {
        self.version = next_version(self.version);
        self.subscribers.ids()
    }

    /// Registers `subscriber` under the identifier `id`, in place of any
    /// subscriber that had it; hands back the key it is kept under.
    pub fn subscribe(&mut self, id: AnyHashable, subscriber: F) -> (key: u64)
        ensures
            key == id.spec_id(),
            final(self)@.version == old(self)@.version,
            final(self)@.subscribers == old(self)@.subscribers.insert(key, subscriber),
    {
        let key = id.id();
        let _ = self.subscribers.insert(key, subscriber);
        key
    }

    /// Removes the subscriber kept under `key`, if there is one.
    pub fn unsubscribe(&mut self, key: u64) -> (removed: Option<F>)
        ensures
            final(self)@.version == old(self)@.version,
            final(self)@.subscribers == old(self)@.subscribers.remove(key),
            removed == if old(self)@.subscribers.contains_key(key) {
                Some(old(self)@.subscribers[key])
            } else {
                None
            },
    {
        self.subscribers.remove(key)
    }

    /// The subscriber kept under `key`, if there is one.
    pub fn subscriber(&self, key: u64) -> (r: Option<&F>)
        ensures
            r == if self@.subscribers.contains_key(key) {
                Some(&self@.subscribers[key])
            } else {
                None
            },
    {
        self.subscribers.get(key)
    }
}

/// Each mutation changes the version: a subscriber that remembers the
/// version it last saw notices every mutation.
pub proof fn lemma_mutation_changes_version(version: u64)
    ensures
        spec_next_version(version) != version,
{
}

/// Cancelling a subscription made under a key that was free restores the
/// publisher as it was (the version and the subscribers, with the same
/// callbacks): `subscribe` followed by `unsubscribe` of the key it handed
/// back. A later mutation does not tell the cancelled subscriber, and
/// cancelling a second time changes nothing.
pub proof fn lemma_cancel_restores_subscribers<F>(p: PublisherView<F>, key: u64, f: F)
    requires
        !p.subscribers.contains_key(key),
    ensures
        ({
            let subscribed = PublisherView {
                version: p.version,
                subscribers: p.subscribers.insert(key, f),
            };
            let cancelled = PublisherView {
                version: subscribed.version,
                subscribers: subscribed.subscribers.remove(key),
            };
            let again = PublisherView {
                version: cancelled.version,
                subscribers: cancelled.subscribers.remove(key),
            };
            &&& subscribed.subscribers.contains_key(key)
            &&& subscribed.subscribers[key] == f
            &&& cancelled == p
            &&& !cancelled.subscribers.dom().contains(key)
            &&& again == cancelled
        }),
{
    assert(p.subscribers.insert(key, f).remove(key) =~= p.subscribers);
    assert(p.subscribers.remove(key) =~= p.subscribers);
}

/// `std::cell::RefMut`, the handle through which a publisher's data is
/// changed; opaque here.
#[verifier::external_type_specification]
#[verifier::external_body]
#[verifier::reject_recursive_types(T)]
pub struct ExRefMut<'b, T: ?Sized + 'b>(RefMut<'b, T>);

/// Something that holds data that can be changed and that tells others
/// about each change.
pub trait Publisher {
    type Data;

    /// Changes the data through `action` and tells the subscribers.
    fn with_mutation<T>(&self, action: impl FnOnce(RefMut<Self::Data>) -> T) -> T;
}

/// A registration that can be cancelled.
pub trait Subscription {
    /// The identifier the subscription was registered under.
    fn id(&self) -> u64;

    /// Ends the subscription.
    fn cancel(&self);
}

/// Any subscription, whatever its kind.
pub struct AnySubscription(pub Box<dyn Subscription>);

impl Subscription for AnySubscription {
    fn id(&self) -> u64 {
        self.0.id()
    }

    fn cancel(&self) {
        self.0.cancel()
    }
}

} // verus!
