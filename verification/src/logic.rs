use crate::effect::{spec_children_of, Effect, InnerEffect};
use vstd::prelude::*;
use vstd::std_specs::cmp::PartialEqSpec;

verus! {

// ---------------------------------------------------------------------------
// The model: how a list of effects is worked off
// ---------------------------------------------------------------------------

/// Whether the runtime has to see this effect: everything but `Multiple`
/// (whose children are worked off in its place) and `Nothing`.
pub open spec fn surfaces<A, T>(e: InnerEffect<A, T>) -> bool {
    !(e is Multiple) && !(e is Nothing)
}

/// The number of nodes of an effect tree, counting through `Multiple`.
pub open spec fn effect_size<A, T>(e: InnerEffect<A, T>) -> nat
    decreases e,
{
    match e {
        InnerEffect::Multiple(v) => {
            proof {
                assert(decreases_to!(e => v));
                assert(decreases_to!(v => v@));
            }
            1 + effects_size(v@)
        },
        _ => 1,
    }
}

/// The number of nodes of a list of effect trees.
pub open spec fn effects_size<A, T>(s: Seq<InnerEffect<A, T>>) -> nat
    decreases s,
{
    if s.len() == 0 {
        0
    } else {
        effect_size(s[0]) + effects_size(s.drop_first())
    }
}

/// The effects of one level that the runtime has to see, in their order.
pub open spec fn level_leaves<A, T>(s: Seq<InnerEffect<A, T>>) -> Seq<InnerEffect<A, T>>
    decreases s.len(),
{
    if s.len() == 0 {
        Seq::empty()
    } else if surfaces(s[0]) {
        seq![s[0]] + level_leaves(s.drop_first())
    } else {
        level_leaves(s.drop_first())
    }
}

/// The level below: the children of the `Multiple` effects of a level, in order.
pub open spec fn next_level<A, T>(s: Seq<InnerEffect<A, T>>) -> Seq<InnerEffect<A, T>>
    decreases s.len(),
{
    if s.len() == 0 {
        Seq::empty()
    } else {
        spec_children_of(s[0]) + next_level(s.drop_first())
    }
}

/// The effects of a list of effect trees that the runtime has to see, level
/// by level: first those of the list itself, then those of the level below.
pub open spec fn flatten_levels<A, T>(s: Seq<InnerEffect<A, T>>) -> Seq<InnerEffect<A, T>>
    decreases effects_size(s),
{
    if s.len() == 0 {
        Seq::empty()
    } else {
        proof {
            lemma_next_level_size(s);
        }
        level_leaves(s) + flatten_levels(next_level(s))
    }
}

pub proof fn lemma_size_concat<A, T>(a: Seq<InnerEffect<A, T>>, b: Seq<InnerEffect<A, T>>)
    ensures
        effects_size(a + b) == effects_size(a) + effects_size(b),
    decreases a.len(),
{
    if a.len() == 0 {
        assert(a + b =~= b);
    } else {
        lemma_size_concat(a.drop_first(), b);
        assert((a + b).drop_first() =~= a.drop_first() + b);
        assert((a + b)[0] == a[0]);
    }
}

pub proof fn lemma_next_level_size<A, T>(s: Seq<InnerEffect<A, T>>)
    ensures
        effects_size(next_level(s)) + s.len() == effects_size(s),
    decreases s.len(),
{
    if s.len() > 0 {
        lemma_next_level_size(s.drop_first());
        lemma_size_concat(spec_children_of(s[0]), next_level(s.drop_first()));
        assert(effects_size(s) == effect_size(s[0]) + effects_size(s.drop_first()));
        assert(next_level(s) == spec_children_of(s[0]) + next_level(s.drop_first()));
        assert(effects_size(Seq::<InnerEffect<A, T>>::empty()) == 0);
        assert(effect_size(s[0]) == 1 + effects_size(spec_children_of(s[0])));
    }
}

/// The state of a queue of effects: what is left of the level that is being
/// worked off, and what has been collected for the level after it.
pub struct QueueView<A, T> {
    pub current: Seq<InnerEffect<A, T>>,
    pub next: Seq<InnerEffect<A, T>>,
}

/// What the queue hands out next.
pub enum Step<A, T> {
    /// The reducer is to handle this action; what it returns goes back with `push`.
    Reduce(A),
    /// The runtime is to carry out this effect (never `Action`, `Multiple` or `Nothing`).
    Perform(InnerEffect<A, T>),
    /// Nothing is left to do.
    Done,
}

/// The effect that a step hands out (`Nothing` for `Done`).
pub open spec fn step_effect<A, T>(s: Step<A, T>) -> InnerEffect<A, T> {
    match s {
        Step::Reduce(a) => InnerEffect::Action(a),
        Step::Perform(e) => e,
        Step::Done => InnerEffect::Nothing,
    }
}

/// All that a queue will hand out, in order, if no reducer adds anything.
pub open spec fn pending<A, T>(q: QueueView<A, T>) -> Seq<InnerEffect<A, T>> {
    level_leaves(q.current) + flatten_levels(q.next + next_level(q.current))
}

pub open spec fn queue_measure<A, T>(q: QueueView<A, T>) -> nat {
    2 * (effects_size(q.current) + effects_size(q.next)) + if q.current.len() == 0 {
        1nat
    } else {
        0nat
    }
}

/// One call of `EffectQueue::next`: effects are taken from the front of the
/// current level; a `Multiple` puts its children at the end of the next
/// level and `Nothing` is dropped; an action is handed to the reducer, any
/// other effect to the runtime. When the level is used up, the next one
/// takes its place.
pub open spec fn advance<A, T>(q: QueueView<A, T>) -> (QueueView<A, T>, Step<A, T>)
    decreases queue_measure(q),
{
    if q.current.len() > 0 {
        let e = q.current[0];
        let rest = q.current.drop_first();
        proof {
            assert(effects_size(q.current) == effect_size(e) + effects_size(rest));
        }
        match e {
            InnerEffect::Multiple(v) => {
                proof {
                    lemma_size_concat(q.next, v@);
                }
                advance(QueueView { current: rest, next: q.next + v@ })
            },
            InnerEffect::Nothing => advance(QueueView { current: rest, next: q.next }),
            InnerEffect::Action(a) => (QueueView { current: rest, next: q.next }, Step::Reduce(a)),
            _ => (QueueView { current: rest, next: q.next }, Step::Perform(e)),
        }
    } else if q.next.len() > 0 {
        advance(QueueView { current: q.next, next: Seq::empty() })
    } else {
        (q, Step::Done)
    }
}

/// The queue hands things out in the order of `pending`: each call of
/// `next` hands out the first pending effect (an action as `Reduce`) and
/// leaves the rest pending; it answers `Done` exactly when nothing is
/// pending, and then the queue is empty. No effect is lost, none is handed
/// out twice, and `Multiple` and `Nothing` are never handed out.
pub proof fn lemma_next_takes_first_pending<A, T>(q: QueueView<A, T>)
    ensures
        ({
            let (q2, s) = advance(q);
            &&& (s is Done) == (pending(q).len() == 0)
            &&& s is Done ==> q2.current.len() == 0 && q2.next.len() == 0
            &&& !(s is Done) ==> {
                &&& pending(q).len() > 0
                &&& step_effect(s) == pending(q)[0]
                &&& pending(q2) == pending(q).drop_first()
                &&& surfaces(step_effect(s))
            }
            &&& s is Perform ==> !(step_effect(s) is Action)
        }),
    decreases queue_measure(q),
{
    if q.current.len() > 0 {
        let e = q.current[0];
        let rest = q.current.drop_first();
        assert(effects_size(q.current) == effect_size(e) + effects_size(rest));
        assert(next_level(q.current) == spec_children_of(e) + next_level(rest));
        match e {
            InnerEffect::Multiple(v) => {
                lemma_size_concat(q.next, v@);
                let q1 = QueueView { current: rest, next: q.next + v@ };
                assert(level_leaves(q.current) == level_leaves(rest));
                assert(q.next + next_level(q.current) =~= q1.next + next_level(rest));
                lemma_next_takes_first_pending(q1);
            },
            InnerEffect::Nothing => {
                let q1 = QueueView { current: rest, next: q.next };
                assert(level_leaves(q.current) == level_leaves(rest));
                assert(q.next + next_level(q.current) =~= q1.next + next_level(rest));
                lemma_next_takes_first_pending(q1);
            },
            _ => {
                let q2 = QueueView { current: rest, next: q.next };
                assert(spec_children_of(e) =~= Seq::<InnerEffect<A, T>>::empty());
                assert(q.next + next_level(q.current) =~= q2.next + next_level(rest));
                assert(level_leaves(q.current) == seq![e] + level_leaves(rest));
                assert(pending(q) =~= seq![e] + pending(q2));
                assert(pending(q).drop_first() =~= pending(q2));
            },
        }
    } else if q.next.len() > 0 {
        let q1 = QueueView { current: q.next, next: Seq::<InnerEffect<A, T>>::empty() };
        assert(level_leaves(q.current) =~= Seq::<InnerEffect<A, T>>::empty());
        assert(next_level(q.current) =~= Seq::<InnerEffect<A, T>>::empty());
        assert(q.next + next_level(q.current) =~= q.next);
        assert(q1.next + next_level(q1.current) =~= next_level(q.next));
        assert(flatten_levels(q.next) == level_leaves(q.next) + flatten_levels(
            next_level(q.next),
        ));
        assert(pending(q) =~= pending(q1));
        assert(effects_size(Seq::<InnerEffect<A, T>>::empty()) == 0);
        lemma_next_takes_first_pending(q1);
    } else {
        assert(level_leaves(q.current) =~= Seq::<InnerEffect<A, T>>::empty());
        assert(next_level(q.current) =~= Seq::<InnerEffect<A, T>>::empty());
        assert(q.next + next_level(q.current) =~= Seq::<InnerEffect<A, T>>::empty());
        assert(pending(q) =~= Seq::<InnerEffect<A, T>>::empty());
    }
}

/// If every effect of a list is handed out as it is (none is `Multiple` or
/// `Nothing`), the list is handed out in its own order: merged effects keep
/// the order in which they were merged.
pub proof fn lemma_plain_effects_keep_order<A, T>(s: Seq<InnerEffect<A, T>>)
    requires
        forall|i: int| 0 <= i < s.len() ==> surfaces(#[trigger] s[i]),
    ensures
        flatten_levels(s) == s,
    decreases s.len(),
{
    lemma_plain_level(s);
    if s.len() > 0 {
        assert(flatten_levels(Seq::<InnerEffect<A, T>>::empty()) == Seq::<
            InnerEffect<A, T>,
        >::empty());
        assert(s + Seq::<InnerEffect<A, T>>::empty() =~= s);
    }
}

proof fn lemma_plain_level<A, T>(s: Seq<InnerEffect<A, T>>)
    requires
        forall|i: int| 0 <= i < s.len() ==> surfaces(#[trigger] s[i]),
    ensures
        level_leaves(s) == s,
        next_level(s) == Seq::<InnerEffect<A, T>>::empty(),
    decreases s.len(),
{
    if s.len() > 0 {
        let rest = s.drop_first();
        assert forall|i: int| 0 <= i < rest.len() implies surfaces(#[trigger] rest[i]) by {
            assert(rest[i] == s[i + 1]);
        }
        lemma_plain_level(rest);
        assert(surfaces(s[0]));
        assert(seq![s[0]] + rest =~= s);
        assert(spec_children_of(s[0]) =~= Seq::<InnerEffect<A, T>>::empty());
        assert(next_level(s) =~= Seq::<InnerEffect<A, T>>::empty());
    }
}

/// The actions that arrived for an update are reduced in the order in which
/// they arrived, before anything a reducer answers with.
pub proof fn lemma_actions_reduced_in_order<A, T>(actions: Seq<A>)
    ensures
        pending(
            QueueView {
                current: actions.map_values(|a: A| InnerEffect::<A, T>::Action(a)),
                next: Seq::<InnerEffect<A, T>>::empty(),
            },
        ) == actions.map_values(|a: A| InnerEffect::<A, T>::Action(a)),
{
    let s = actions.map_values(|a: A| InnerEffect::<A, T>::Action(a));
    assert forall|i: int| 0 <= i < s.len() implies surfaces(#[trigger] s[i]) by {}
    lemma_plain_level(s);
    let empty = Seq::<InnerEffect<A, T>>::empty();
    assert(empty + next_level(s) =~= empty);
    assert(flatten_levels(empty) == empty);
    assert(s + empty =~= s);
}

proof fn lemma_level_leaves_concat<A, T>(x: Seq<InnerEffect<A, T>>, y: Seq<InnerEffect<A, T>>)
    ensures
        level_leaves(x + y) == level_leaves(x) + level_leaves(y),
    decreases x.len(),
{
    if x.len() == 0 {
        assert(x + y =~= y);
        assert(level_leaves(x) + level_leaves(y) =~= level_leaves(y));
    } else {
        lemma_level_leaves_concat(x.drop_first(), y);
        assert((x + y).drop_first() =~= x.drop_first() + y);
        assert((x + y)[0] == x[0]);
        if surfaces(x[0]) {
            assert(seq![x[0]] + (level_leaves(x.drop_first()) + level_leaves(y)) =~= (seq![x[0]]
                + level_leaves(x.drop_first())) + level_leaves(y));
        }
    }
}

proof fn lemma_next_level_concat<A, T>(x: Seq<InnerEffect<A, T>>, y: Seq<InnerEffect<A, T>>)
    ensures
        next_level(x + y) == next_level(x) + next_level(y),
    decreases x.len(),
{
    if x.len() == 0 {
        assert(x + y =~= y);
        assert(next_level(x) + next_level(y) =~= next_level(y));
    } else {
        lemma_next_level_concat(x.drop_first(), y);
        assert((x + y).drop_first() =~= x.drop_first() + y);
        assert((x + y)[0] == x[0]);
        assert(spec_children_of(x[0]) + (next_level(x.drop_first()) + next_level(y)) =~= (
        spec_children_of(x[0]) + next_level(x.drop_first())) + next_level(y));
    }
}

/// A reducer that answers with `Nothing` adds nothing to do: what is
/// pending stays exactly as it was.
pub proof fn lemma_answer_nothing_adds_nothing<A, T>(q: QueueView<A, T>)
    ensures
        pending(QueueView { current: q.current, next: q.next.push(InnerEffect::Nothing) })
            == pending(q),
{
    let n = seq![InnerEffect::<A, T>::Nothing];
    let a = q.next;
    let b = next_level(q.current);
    assert(q.next.push(InnerEffect::Nothing) + b =~= a + (n + b));
    lemma_level_leaves_concat(a, n + b);
    lemma_level_leaves_concat(n, b);
    lemma_level_leaves_concat(a, b);
    lemma_next_level_concat(a, n + b);
    lemma_next_level_concat(n, b);
    lemma_next_level_concat(a, b);
    assert(level_leaves(n.drop_first()) == Seq::<InnerEffect<A, T>>::empty());
    assert(level_leaves(n) =~= Seq::<InnerEffect<A, T>>::empty());
    assert(next_level(n.drop_first()) == Seq::<InnerEffect<A, T>>::empty());
    assert(next_level(n) =~= Seq::<InnerEffect<A, T>>::empty());
    let s1 = a + (n + b);
    let s2 = a + b;
    assert(level_leaves(s1) =~= level_leaves(s2));
    assert(next_level(s1) =~= next_level(s2));
    if s2.len() == 0 {
        assert(flatten_levels(s1) == level_leaves(s1) + flatten_levels(next_level(s1)));
        assert(flatten_levels(Seq::<InnerEffect<A, T>>::empty()) == Seq::<
            InnerEffect<A, T>,
        >::empty());
        assert(next_level(s2) =~= Seq::<InnerEffect<A, T>>::empty());
        assert(level_leaves(s2) =~= Seq::<InnerEffect<A, T>>::empty());
        assert(flatten_levels(s1) =~= flatten_levels(s2));
    } else {
        assert(flatten_levels(s1) == level_leaves(s1) + flatten_levels(next_level(s1)));
        assert(flatten_levels(s2) == level_leaves(s2) + flatten_levels(next_level(s2)));
    }
}

// ---------------------------------------------------------------------------
// Resetting a hosted child
// ---------------------------------------------------------------------------

/// The value a child reducer was last hosted with. When the parent hosts it
/// with a different value, the child's state is built anew.
pub struct ResetTracker<V> {
    last: V,
}

impl<V> View for ResetTracker<V> {
    type V = V;

    closed spec fn view(&self) -> V {
        self.last
    }
}

impl<V: PartialEq + Clone> ResetTracker<V> {
    /// Starts out with a copy of the first value.
    pub fn new(value: &V) -> (t: Self)
        ensures
            cloned(*value, t@),
    {
        ResetTracker { last: value.clone() }
    }

    /// Whether the child has to be reset for this value: it has, when the
    /// value differs from the last one; the value is then remembered.
    pub fn observe(&mut self, value: &V) -> (reset: bool)
        ensures
            V::obeys_eq_spec() ==> reset == !old(self)@.eq_spec(value),
            reset ==> cloned(*value, final(self)@),
            !reset ==> final(self)@ == old(self)@,
    {
        let reset = self.last.ne(value);
        if reset {
            self.last = value.clone();
        }
        reset
    }
}

/// The reverse of a sequence.
pub open spec fn reversed<X>(s: Seq<X>) -> Seq<X> {
    Seq::new(s.len(), |i: int| s[s.len() - 1 - i])
}

// ---------------------------------------------------------------------------
// The queue
// ---------------------------------------------------------------------------

/// The effects that one update of a reducer works off. The current level is
/// kept back to front, so that its first effect is the last of the vector.
pub struct EffectQueue<A, T> {
    current_rev: Vec<InnerEffect<A, T>>,
    next: Vec<InnerEffect<A, T>>,
}

impl<A, T> View for EffectQueue<A, T> {
    type V = QueueView<A, T>;

    closed spec fn view(&self) -> QueueView<A, T> {
        QueueView { current: reversed(self.current_rev@), next: self.next@ }
    }
}

impl<A, T> EffectQueue<A, T> {
    /// A queue whose first level is the effect left over from a delay (if
    /// any), then each of the actions, in order.
    pub fn new(later: Option<Effect<A, T>>, actions: Vec<A>) -> (q: Self)
        ensures
            q@.next == Seq::<InnerEffect<A, T>>::empty(),
            q@.current == match later {
                Some(e) => seq![e@],
                None => Seq::<InnerEffect<A, T>>::empty(),
            } + actions@.map_values(|a: A| InnerEffect::<A, T>::Action(a)),
    {
        let mut actions = actions;
        let ghost all = actions@;
        let mut current_rev: Vec<InnerEffect<A, T>> = Vec::new();
        while actions.len() > 0
            invariant
                actions@ == all.subrange(0, actions@.len() as int),
                current_rev@.len() == all.len() - actions@.len(),
                forall|i: int|
                    0 <= i < current_rev@.len() ==> #[trigger] current_rev@[i]
                        == InnerEffect::<A, T>::Action(all[all.len() - 1 - i]),
            decreases actions.len(),
        {
            let a = actions.pop().unwrap();
            current_rev.push(InnerEffect::Action(a));
        }
        match later {
            Some(e) => {
                current_rev.push(e.inner());
            },
            None => {},
        }
        let q = EffectQueue { current_rev, next: Vec::new() };
        assert(q@.current =~= match later {
            Some(e) => seq![e@],
            None => Seq::<InnerEffect<A, T>>::empty(),
        } + all.map_values(|a: A| InnerEffect::<A, T>::Action(a)));
        q
    }

    /// A queue whose first level is every effect left over from a delay, in
    /// the order their delays ended, then each of the actions, in order.
    pub fn with_delayed(later: Vec<Effect<A, T>>, actions: Vec<A>) -> (q: Self)
        ensures
            q@.next == Seq::<InnerEffect<A, T>>::empty(),
            q@.current == later@.map_values(|e: Effect<A, T>| e@) + actions@.map_values(
                |a: A| InnerEffect::<A, T>::Action(a),
            ),
    {
        let mut actions = actions;
        let ghost all = actions@;
        let mut current_rev: Vec<InnerEffect<A, T>> = Vec::new();
        while actions.len() > 0
            invariant
                actions@ == all.subrange(0, actions@.len() as int),
                current_rev@.len() == all.len() - actions@.len(),
                forall|i: int|
                    0 <= i < current_rev@.len() ==> #[trigger] current_rev@[i]
                        == InnerEffect::<A, T>::Action(all[all.len() - 1 - i]),
            decreases actions.len(),
        {
            let a = actions.pop().unwrap();
            current_rev.push(InnerEffect::Action(a));
        }
        let mut later = later;
        let ghost delayed = later@;
        let ghost n = current_rev@.len();
        while later.len() > 0
            invariant
                n == all.len(),
                later@.len() <= delayed.len(),
                later@ == delayed.subrange(0, later@.len() as int),
                current_rev@.len() == n + delayed.len() - later@.len(),
                forall|i: int|
                    0 <= i < n ==> #[trigger] current_rev@[i] == InnerEffect::<A, T>::Action(
                        all[all.len() - 1 - i],
                    ),
                forall|i: int|
                    n <= i < current_rev@.len() ==> #[trigger] current_rev@[i] == delayed[delayed.len()
                        - 1 - (i - n)]@,
            decreases later.len(),
        {
            let e = later.pop().unwrap();
            current_rev.push(e.inner());
        }
        let q = EffectQueue { current_rev, next: Vec::new() };
        assert(q@.current =~= delayed.map_values(|e: Effect<A, T>| e@) + all.map_values(
            |a: A| InnerEffect::<A, T>::Action(a),
        ));
        q
    }

    /// The reducer's answer to the action that `next` handed out: it is
    /// worked off on the next level, after what is already collected there.
    pub fn push(&mut self, effect: Effect<A, T>)
        ensures
            final(self)@.current == old(self)@.current,
            final(self)@.next == old(self)@.next.push(effect@),
    {
        self.next.push(effect.inner());
    }

    /// Whether nothing at all is left in the queue.
    pub fn is_empty(&self) -> (r: bool)
        ensures
            r == (self@.current.len() == 0 && self@.next.len() == 0),
    {
        self.current_rev.len() == 0 && self.next.len() == 0
    }

    /// Hands out the next action to reduce or effect to carry out.
    /// It hands out the first pending effect (an action as `Reduce`) and
    /// leaves the rest pending, or answers `Done` when nothing is pending.
    pub fn next(&mut self) -> (r: Step<A, T>)
        ensures
            (final(self)@, r) == advance(old(self)@),
            (r is Done) == (pending(old(self)@).len() == 0),
            !(r is Done) ==> {
                &&& step_effect(r) == pending(old(self)@)[0]
                &&& pending(final(self)@) == pending(old(self)@).drop_first()
            },
            r is Perform ==> surfaces(step_effect(r)) && !(step_effect(r) is Action),
    {
        loop
            invariant
                advance(self@) == advance(old(self)@),
            decreases queue_measure(self@),
        {
            if self.current_rev.len() > 0 {
                let ghost before = self@;
                let e = self.current_rev.pop().unwrap();
                assert(before.current[0] == e);
                assert(reversed(self.current_rev@) =~= before.current.drop_first());
                assert(effects_size(before.current) == effect_size(e) + effects_size(
                    before.current.drop_first(),
                ));
                match e {
                    InnerEffect::Multiple(v) => {
                        let mut v = v;
                        self.next.append(&mut v);
                        proof {
                            lemma_size_concat(before.next, spec_children_of(e));
                        }
                    },
                    InnerEffect::Nothing => {},
                    InnerEffect::Action(a) => {
                        proof {
                            lemma_next_takes_first_pending(old(self)@);
                        }
                        return Step::Reduce(a);
                    },
                    other => {
                        proof {
                            lemma_next_takes_first_pending(old(self)@);
                        }
                        return Step::Perform(other);
                    },
                }
            } else if self.next.len() > 0 {
                let ghost level = self.next@;
                while self.next.len() > 0
                    invariant
                        self.current_rev@.len() + self.next@.len() == level.len(),
                        self.next@ == level.subrange(0, self.next@.len() as int),
                        forall|i: int|
                            0 <= i < self.current_rev@.len() ==> #[trigger] self.current_rev@[i]
                                == level[level.len() - 1 - i],
                    decreases self.next.len(),
                {
                    let e = self.next.pop().unwrap();
                    self.current_rev.push(e);
                }
                assert(reversed(self.current_rev@) =~= level);
                assert(self.next@ =~= Seq::<InnerEffect<A, T>>::empty());
                assert(effects_size(Seq::<InnerEffect<A, T>>::empty()) == 0);
            } else {
                proof {
                    lemma_next_takes_first_pending(old(self)@);
                }
                return Step::Done;
            }
        }
    }
}

} // verus!
