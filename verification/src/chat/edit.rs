use crate::chat;
use crate::model::Message;
use vstd::prelude::*;

verus! {

/// The reducer of the editor of a chat message.
pub struct EditReducer {}

pub struct EditState {
    pub message: Option<Message>,
}

impl EditState {
    /// Nothing is being edited.
    pub fn new() -> (s: EditState)
        ensures
            s.message is None,
    {
        EditState { message: None }
    }
}

/// Sent by the editor to the chat.
#[derive(Clone, Copy, Debug)]
pub enum DelegateMessage {
    Done,
}

#[derive(Clone, Debug)]
pub enum EditAction {
    Initial,
    ReceivedMessage(Option<Message>),
    Done,
}

/// What the editor asks of its surroundings for an action.
pub enum Request {
    /// Nothing beyond the change of its state.
    Nothing,
    /// Subscribe to the selected message under "selected"; each change is
    /// answered with `ReceivedMessage`.
    SubscribeSelected,
    /// Send this message to the chat.
    ToParent(DelegateMessage),
}

impl EditReducer {
    /// The action the editor starts with.
    pub fn initial_action() -> (a: Option<EditAction>)
        ensures
            a == Some(EditAction::Initial),
    {
        Some(EditAction::Initial)
    }

    /// Handles one action: a received message becomes the one edited,
    /// `Done` tells the chat.
    pub fn reduce(action: EditAction, state: &mut EditState) -> (r: Request)
        ensures
            match action {
                EditAction::Initial => r == Request::SubscribeSelected && final(state).message
                    == old(state).message,
                EditAction::ReceivedMessage(m) => r == Request::Nothing && final(state).message
                    == m,
                EditAction::Done => r == Request::ToParent(DelegateMessage::Done)
                    && final(state).message == old(state).message,
            },
    {
        match action {
            EditAction::Initial => Request::SubscribeSelected,
            EditAction::ReceivedMessage(message) => {
                state.message = message;
                Request::Nothing
            },
            EditAction::Done => Request::ToParent(DelegateMessage::Done),
        }
    }

    /// What a message of the editor means to the chat.
    pub fn from_child(message: DelegateMessage) -> (a: Option<chat::Action>)
        ensures
            a == Some(chat::Action::FinishEdit),
    {
        match message {
            DelegateMessage::Done => Some(chat::Action::FinishEdit),
        }
    }
}

} // verus!
