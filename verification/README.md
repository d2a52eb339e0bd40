# navicula

A small composable architecture for user interfaces built with dioxus:
state, reducers, actions, an environment, nested reducers that message
each other, and effects (futures, actions, delays, timers, subscriptions,
javascript).

## Layout

- `src/` is the library, proved with Verus:
  - `effect.rs`: effects, how they are made and merged; the `Debouncer`.
  - `logic.rs`: the queue that works off the effects of one update, level
    by level, and the laws about the order in which it hands them out;
    the tracker that decides when a hosted child is reset.
  - `runtime.rs`: maps by identifier, the timers of a reducer, and what a
    reducer's runtime keeps (hosted children, subscriptions, timers).
  - `publisher.rs`: the version and the subscribers of shared data;
    the `Publisher` and `Subscription` traits.
  - `anyhashable.rs`: identifiers of timers and subscriptions, made by hashing.
  - `event_receiver.rs`: events of the window and what a drag and drop
    becomes.
  - `menu.rs`: context menus as data.
  - `model.rs`, `root.rs`, `sidebar.rs`, `chat.rs`: the example application's
    data and the decisions of its reducers.
- `app/` runs the library on dioxus: hooks, channels, tasks, the window,
  the reducer traits, and the example application's views.
- `tests/` exercises the library.
