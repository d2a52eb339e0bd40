use crate::model::{Chat, Environment};
use crate::root;
use std::rc::Rc;
use vstd::prelude::*;

verus! {

/// The reducer of the list of chats at the side of the example application.
pub struct ChildReducer {}

pub struct State {
    pub chats: Rc<Vec<Chat>>,
    pub counter: usize,
}

impl State {
    pub fn new() -> (s: State)
        ensures
            s.chats@.len() == 0,
            s.counter == 0,
    {
        State { chats: Rc::new(Vec::new()), counter: 0 }
    }
}

/// Sent by the list to the root.
#[derive(Clone, Copy, Debug)]
pub enum DelegateMessage {
    Selected(u64),
}

#[derive(Clone, Copy, Debug)]
pub enum Action {
    Initial,
    Select(u64),
    Reload,
}

impl ChildReducer {
    /// The action the list starts with.
    pub fn initial_action() -> (a: Option<Action>)
        ensures
            a == Some(Action::Initial),
    {
        Some(Action::Initial)
    }

    /// Handles one action: `Initial` takes the chats from the environment,
    /// `Select` tells the root which chat was picked, `Reload` counts.
    /// Answers the message for the root, if any.
    pub fn reduce(action: Action, state: &mut State, environment: &Environment) -> (r: Option<
        DelegateMessage,
    >)
        requires
            action is Reload ==> old(state).counter < usize::MAX,
        ensures
            match action {
                Action::Initial => final(state).chats@ == environment.spec_chats()
                    && final(state).counter == old(state).counter && r is None,
                Action::Select(id) => r == Some(DelegateMessage::Selected(id))
                    && final(state).chats == old(state).chats
                    && final(state).counter == old(state).counter,
                Action::Reload => final(state).counter == old(state).counter + 1
                    && final(state).chats == old(state).chats && r is None,
            },
    {
        match action {
            Action::Initial => {
                state.chats = environment.chats();
                None
            },
            Action::Select(a) => Some(DelegateMessage::Selected(a)),
            Action::Reload => {
                state.counter = state.counter + 1;
                None
            },
        }
    }

    /// What a message of the root means to the list.
    pub fn to_child(message: root::Message) -> (a: Option<Action>)
        ensures
            a == Some(Action::Reload),
    {
        match message {
            root::Message::Reload => Some(Action::Reload),
        }
    }

    /// What a message of the list means to the root.
    pub fn from_child(message: DelegateMessage) -> (a: Option<root::Action>)
        ensures
            match message {
                DelegateMessage::Selected(id) => a == Some(root::Action::Selected(id)),
            },
    {
        match message {
            DelegateMessage::Selected(item) => Some(root::Action::Selected(item)),
        }
    }
}

} // verus!
