use navicula::anyhashable::AnyHashable;
use navicula::effect::{Debouncer, Effect, InnerEffect};
use navicula::logic::{EffectQueue, ResetTracker, Step};
use std::time::Duration;

type E = Effect<u32, &'static str>;

fn reduce_step(step: Step<u32, &'static str>) -> u32 {
    match step {
        Step::Reduce(a) => a,
        _ => panic!("expected an action to reduce"),
    }
}

fn perform_step(step: Step<u32, &'static str>) -> InnerEffect<u32, &'static str> {
    match step {
        Step::Perform(e) => e,
        _ => panic!("expected an effect to perform"),
    }
}

#[test]
fn merge2_keeps_both_in_order() {
    let e: E = Effect::merge2(Effect::action(1), Effect::action(2));
    match e.inner() {
        InnerEffect::Multiple(v) => {
            assert_eq!(v.len(), 2);
            assert!(matches!(v[0], InnerEffect::Action(1)));
            assert!(matches!(v[1], InnerEffect::Action(2)));
        }
        _ => panic!("not merged"),
    }
}

#[test]
fn merge6_keeps_all_in_order() {
    let e: E = Effect::merge6(
        Effect::action(1),
        Effect::action(2),
        Effect::nothing(),
        Effect::ui("x"),
        Effect::future("f"),
        Effect::action(6),
    );
    match e.inner() {
        InnerEffect::Multiple(v) => {
            assert_eq!(v.len(), 6);
            assert!(matches!(v[0], InnerEffect::Action(1)));
            assert!(matches!(v[2], InnerEffect::Nothing));
            assert!(matches!(&v[3], InnerEffect::Ui(s) if s == "x"));
            assert!(matches!(v[4], InnerEffect::Future("f")));
            assert!(matches!(v[5], InnerEffect::Action(6)));
        }
        _ => panic!("not merged"),
    }
}

#[test]
fn merge_all_keeps_order() {
    let e: E = Effect::merge_all(vec![Effect::action(7), Effect::action(8), Effect::action(9)]);
    match e.inner() {
        InnerEffect::Multiple(v) => {
            let got: Vec<u32> = v
                .iter()
                .map(|x| match x {
                    InnerEffect::Action(a) => *a,
                    _ => 0,
                })
                .collect();
            assert_eq!(got, vec![7, 8, 9]);
        }
        _ => panic!("not merged"),
    }
}

#[test]
fn delay_wraps_the_effect() {
    let e: E = Effect::action(3).delay(Duration::from_secs(2));
    match e.inner() {
        InnerEffect::Delay(d, inner) => {
            assert_eq!(d, Duration::from_secs(2));
            assert!(matches!(*inner, InnerEffect::Action(3)));
        }
        _ => panic!("not delayed"),
    }
}

#[test]
fn timer_and_cancel_carry_the_identifier() {
    let id = AnyHashable::from_str("tick");
    let e: E = Effect::timer(Duration::from_millis(5), 4, id);
    assert!(matches!(e.inner(), InnerEffect::Timer(_, 4, i) if i == id));
    let c: E = Effect::cancel_timer(id);
    assert!(matches!(c.inner(), InnerEffect::CancelTimer(i) if i == id));
}

#[test]
fn queue_works_off_level_by_level() {
    // Two actions; the first answers with a merge, the second with nothing.
    let mut q: EffectQueue<u32, &'static str> = EffectQueue::new(None, vec![1, 2]);
    assert_eq!(reduce_step(q.next()), 1);
    q.push(Effect::merge2(Effect::ui("a"), Effect::action(3)));
    assert_eq!(reduce_step(q.next()), 2);
    q.push(Effect::nothing());
    // Next level: the merge is opened, its children come one level deeper.
    let ui = perform_step(q.next());
    assert!(matches!(&ui, InnerEffect::Ui(s) if s == "a"));
    assert_eq!(reduce_step(q.next()), 3);
    q.push(Effect::future("done"));
    assert!(matches!(perform_step(q.next()), InnerEffect::Future("done")));
    assert!(matches!(q.next(), Step::Done));
    assert!(q.is_empty());
}

#[test]
fn queue_starts_with_the_delayed_effect() {
    let mut q: EffectQueue<u32, &'static str> =
        EffectQueue::new(Some(Effect::action(9)), vec![1]);
    assert_eq!(reduce_step(q.next()), 9);
    q.push(Effect::nothing());
    assert_eq!(reduce_step(q.next()), 1);
    q.push(Effect::nothing());
    assert!(matches!(q.next(), Step::Done));
}

#[test]
fn queue_breadth_first_order() {
    // [M[M[x], y], z]: y and z are on the first levels, x one deeper.
    let tree: E = Effect::merge2(
        Effect::merge2(Effect::merge2(Effect::future("x"), Effect::nothing()), Effect::future("y")),
        Effect::future("z"),
    );
    let mut q: EffectQueue<u32, &'static str> = EffectQueue::new(Some(tree), vec![]);
    let mut seen = vec![];
    loop {
        match q.next() {
            Step::Perform(InnerEffect::Future(f)) => seen.push(f),
            Step::Done => break,
            _ => panic!("unexpected step"),
        }
    }
    assert_eq!(seen, vec!["z", "y", "x"]);
}

#[test]
fn queue_empty_is_done() {
    let mut q: EffectQueue<u32, &'static str> = EffectQueue::new(None, vec![]);
    assert!(q.is_empty());
    assert!(matches!(q.next(), Step::Done));
}

#[test]
fn delay_is_handed_out_whole() {
    let mut q: EffectQueue<u32, &'static str> = EffectQueue::new(None, vec![1]);
    assert_eq!(reduce_step(q.next()), 1);
    q.push(Effect::action(2).delay(Duration::from_secs(1)));
    match perform_step(q.next()) {
        InnerEffect::Delay(_, inner) => assert!(matches!(*inner, InnerEffect::Action(2))),
        _ => panic!("expected the delay"),
    }
    assert!(matches!(q.next(), Step::Done));
}

#[test]
fn reset_tracker_resets_on_change_only() {
    let mut t = ResetTracker::new(&5u32);
    assert!(!t.observe(&5));
    assert!(t.observe(&6));
    assert!(!t.observe(&6));
    assert!(t.observe(&5));
}

#[test]
fn debouncer_cancel_is_shared() {
    let d = Debouncer::new();
    let d2 = d.clone();
    assert!(!d2.is_cancelled());
    d.cancel();
    assert!(d2.is_cancelled());
    d.cancel();
    assert!(d.is_cancelled());
}

#[test]
fn all_delayed_effects_come_first_in_order() {
    let mut q: EffectQueue<u32, &'static str> = EffectQueue::with_delayed(
        vec![Effect::action(10), Effect::ui("u"), Effect::action(11)],
        vec![1, 2],
    );
    assert_eq!(reduce_step(q.next()), 10);
    q.push(Effect::nothing());
    assert!(matches!(perform_step(q.next()), InnerEffect::Ui(s) if s == "u"));
    assert_eq!(reduce_step(q.next()), 11);
    q.push(Effect::nothing());
    assert_eq!(reduce_step(q.next()), 1);
    q.push(Effect::nothing());
    assert_eq!(reduce_step(q.next()), 2);
    q.push(Effect::nothing());
    assert!(matches!(q.next(), Step::Done));
}

#[test]
fn debouncer_default_is_not_cancelled() {
    let d = Debouncer::default();
    assert!(!d.is_cancelled());
}
