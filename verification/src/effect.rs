use crate::anyhashable::AnyHashable;
use std::sync::atomic::{AtomicBool, Ordering};
use std::sync::Arc;
use std::time::Duration;
use vstd::prelude::*;

verus! {

/// What a reducer asks the runtime to do after it handled an action.
///
/// `A` is the reducer's action type. `T` is the runtime's own unit of
/// asynchronous work (a boxed future, a subscription handle, ...): the library
/// only carries it to the place where it is started.
pub enum InnerEffect<A, T> {
    /// Run a future whose output is the next action.
    Future(T),
    /// Run a future whose output is ignored.
    FireForget(T),
    /// Reduce this action next.
    Action(A),
    /// Handle the inner effect after the given time.
    Delay(Duration, Box<InnerEffect<A, T>>),
    /// Keep a subscription alive for as long as the reducer lives.
    Subscription(T),
    /// Handle each of these effects.
    Multiple(Vec<InnerEffect<A, T>>),
    /// Do nothing.
    Nothing,
    /// Execute the following javascript, ignore the result.
    Ui(String),
    /// Execute javascript and turn its result into an action.
    UiFuture(T),
    /// Send the action again and again, each time the duration has passed.
    /// The identifier can be used to cancel it.
    Timer(Duration, A, AnyHashable),
    /// Stop the timer with this identifier.
    CancelTimer(AnyHashable),
}

/// The children of a `Multiple` effect, and nothing for any other effect.
pub open spec fn spec_children_of<A, T>(e: InnerEffect<A, T>) -> Seq<InnerEffect<A, T>> {
    match e {
        InnerEffect::Multiple(v) => v@,
        _ => Seq::empty(),
    }
}

/// An effect, as a reducer returns it. What it holds is its view.
pub struct Effect<A, T>(InnerEffect<A, T>);

impl<A, T> View for Effect<A, T> {
    type V = InnerEffect<A, T>;

    closed spec fn view(&self) -> InnerEffect<A, T> {
        self.0
    }
}

impl<A, T> Effect<A, T> {
    /// Effects that are handled together, in the order given.
    pub fn merge2(a: Effect<A, T>, b: Effect<A, T>) -> (r: Self)
        ensures
            r@ is Multiple,
            spec_children_of(r@) == seq![a@, b@],
    {
        let mut v: Vec<InnerEffect<A, T>> = Vec::new();
        v.push(a.0);
        v.push(b.0);
        Effect(InnerEffect::Multiple(v))
    }

    /// Effects that are handled together, in the order given.
    pub fn merge3(a: Effect<A, T>, b: Effect<A, T>, c: Effect<A, T>) -> (r: Self)
        ensures
            r@ is Multiple,
            spec_children_of(r@) == seq![a@, b@, c@],
    {
        let mut v: Vec<InnerEffect<A, T>> = Vec::new();
        v.push(a.0);
        v.push(b.0);
        v.push(c.0);
        Effect(InnerEffect::Multiple(v))
    }

    /// Effects that are handled together, in the order given.
    pub fn merge4(a: Effect<A, T>, b: Effect<A, T>, c: Effect<A, T>, d: Effect<A, T>) -> (r: Self)
        ensures
            r@ is Multiple,
            spec_children_of(r@) == seq![a@, b@, c@, d@],
    {
        let mut v: Vec<InnerEffect<A, T>> = Vec::new();
        v.push(a.0);
        v.push(b.0);
        v.push(c.0);
        v.push(d.0);
        Effect(InnerEffect::Multiple(v))
    }

    /// Effects that are handled together, in the order given.
    pub fn merge5(
        a: Effect<A, T>,
        b: Effect<A, T>,
        c: Effect<A, T>,
        d: Effect<A, T>,
        e: Effect<A, T>,
    ) -> (r: Self)
        ensures
            r@ is Multiple,
            spec_children_of(r@) == seq![a@, b@, c@, d@, e@],
    {
        let mut v: Vec<InnerEffect<A, T>> = Vec::new();
        v.push(a.0);
        v.push(b.0);
        v.push(c.0);
        v.push(d.0);
        v.push(e.0);
        Effect(InnerEffect::Multiple(v))
    }

    /// Effects that are handled together, in the order given.
    pub fn merge6(
        a: Effect<A, T>,
        b: Effect<A, T>,
        c: Effect<A, T>,
        d: Effect<A, T>,
        e: Effect<A, T>,
        f: Effect<A, T>,
    ) -> (r: Self)
        ensures
            r@ is Multiple,
            spec_children_of(r@) == seq![a@, b@, c@, d@, e@, f@],
    {
        let mut v: Vec<InnerEffect<A, T>> = Vec::new();
        v.push(a.0);
        v.push(b.0);
        v.push(c.0);
        v.push(d.0);
        v.push(e.0);
        v.push(f.0);
        Effect(InnerEffect::Multiple(v))
    }

    /// Effects that are handled one after the other, in the order given.
    pub fn merge_all(effects: Vec<Effect<A, T>>) -> (r: Self)
        ensures
            r@ is Multiple,
            spec_children_of(r@) == effects@.map_values(|e: Effect<A, T>| e@),
    {
        let mut effects = effects;
        let ghost all = effects@;
        let mut rev: Vec<InnerEffect<A, T>> = Vec::new();
        while effects.len() > 0
            invariant
                effects@ == all.subrange(0, effects@.len() as int),
                rev@.len() == all.len() - effects@.len(),
                forall|i: int|
                    0 <= i < rev@.len() ==> #[trigger] rev@[i] == all[all.len() - 1 - i]@,
            decreases effects.len(),
        {
            let e = effects.pop().unwrap();
            rev.push(e.0);
        }
        let mut v: Vec<InnerEffect<A, T>> = Vec::new();
        while rev.len() > 0
            invariant
                rev@.len() + v@.len() == all.len(),
                forall|i: int|
                    0 <= i < rev@.len() ==> #[trigger] rev@[i] == all[all.len() - 1 - i]@,
                forall|i: int| 0 <= i < v@.len() ==> #[trigger] v@[i] == all[i]@,
            decreases rev.len(),
        {
            let e = rev.pop().unwrap();
            v.push(e);
        }
        assert(v@ =~= all.map_values(|e: Effect<A, T>| e@));
        Effect(InnerEffect::Multiple(v))
    }

    /// Run a future whose output is the next action.
    pub fn future(work: T) -> (r: Self)
        ensures
            r@ == InnerEffect::<A, T>::Future(work),
    {
        Effect(InnerEffect::Future(work))
    }

    /// Run a future whose output is ignored.
    pub fn fire_forget(work: T) -> (r: Self)
        ensures
            r@ == InnerEffect::<A, T>::FireForget(work),
    {
        Effect(InnerEffect::FireForget(work))
    }

    /// Reduce this action next.
    pub fn action(action: A) -> (r: Self)
        ensures
            r@ == InnerEffect::<A, T>::Action(action),
    {
        Effect(InnerEffect::Action(action))
    }

    /// Keep a subscription for as long as the reducer lives.
    pub fn subscription(s: T) -> (r: Self)
        ensures
            r@ == InnerEffect::<A, T>::Subscription(s),
    {
        Effect(InnerEffect::Subscription(s))
    }

    /// Do nothing.
    pub fn nothing() -> (r: Self)
        ensures
            r@ == InnerEffect::<A, T>::Nothing,
    {
        Effect(InnerEffect::Nothing)
    }

    /// Execute the given javascript and ignore its result.
    pub fn ui(s: &str) -> (r: Self)
        ensures
            r@ is Ui,
            r@->Ui_0@ == s@,
    {
        Effect(InnerEffect::Ui(s.to_owned()))
    }

    /// Execute javascript and turn its result into an action.
    pub fn ui_future(work: T) -> (r: Self)
        ensures
            r@ == InnerEffect::<A, T>::UiFuture(work),
    {
        Effect(InnerEffect::UiFuture(work))
    }

    /// Send `action` each time `duration` has passed, until the timer with
    /// this identifier is cancelled.
    pub fn timer(duration: Duration, action: A, hash: AnyHashable) -> (r: Self)
        ensures
            r@ == InnerEffect::<A, T>::Timer(duration, action, hash),
    {
        Effect(InnerEffect::Timer(duration, action, hash))
    }

    /// Stop the timer with this identifier.
    pub fn cancel_timer(hash: AnyHashable) -> (r: Self)
        ensures
            r@ == InnerEffect::<A, T>::CancelTimer(hash),
    {
        Effect(InnerEffect::CancelTimer(hash))
    }

    /// The same effect, handled only after `duration` has passed.
    pub fn delay(self, duration: Duration) -> (r: Self)
        ensures
            r@ == InnerEffect::<A, T>::Delay(duration, Box::new(self@)),
    {
        Effect(InnerEffect::Delay(duration, Box::new(self.0)))
    }

    /// What the effect holds.
    pub fn inner(self) -> (r: InnerEffect<A, T>)
        ensures
            r == self@,
    {
        self.0
    }

    /// An effect that holds what is given.
    pub fn from_inner(inner: InnerEffect<A, T>) -> (r: Self)
        ensures
            r@ == inner,
    {
        Effect(inner)
    }
}

/// A switch shared by the clones of one debouncer: a debounced effect that
/// wakes up after its delay and finds it switched on does not run its
/// future. Once switched on it stays on.
#[derive(Debug)]
pub struct Debouncer(Arc<AtomicBool>);

impl Default for Debouncer {
    /// A debouncer that is not cancelled.
    fn default() -> Self {
        Debouncer::new()
    }
}

impl Clone for Debouncer {
    /// Another handle on the same switch.
    fn clone(&self) -> Self {
        Debouncer(Arc::clone(&self.0))
    }
}

impl Debouncer {
    /// A debouncer that is not cancelled.
    pub fn new() -> Self {
        Debouncer(Arc::new(AtomicBool::new(false)))
    }

    /// Switches the debouncer on, for all its clones.
    pub fn cancel(&self) {
        let _ = self.0.swap(true, Ordering::SeqCst);
    }

    /// Whether some clone of the debouncer was cancelled.
    pub fn is_cancelled(&self) -> bool {
        self.0.load(Ordering::Relaxed)
    }
}

} // verus!
