//! A small composable architecture for user interfaces: reducers turn
//! actions into state changes and effects; effects are worked off level by
//! level; reducers are nested and exchange messages; shared data tells its
//! subscribers about each change.

pub mod anyhashable;
pub mod chat;
pub mod effect;
pub mod event_receiver;
pub mod logic;
pub mod menu;
pub mod model;
pub mod publisher;
pub mod root;
pub mod runtime;
pub mod sidebar;
