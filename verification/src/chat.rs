use crate::effect::{Effect, InnerEffect};
use crate::model::{Chat, Message};
use crate::root;
use std::time::Duration;
use vstd::prelude::*;

pub mod edit;

verus! {

/// The reducer of the open chat of the example application.
pub struct ChildReducer {}

pub struct State {
    pub chat: Chat,
}

impl State {
    pub fn new(chat: Chat) -> (s: State)
        ensures
            s.chat == chat,
    {
        State { chat }
    }
}

/// Sent by the chat to the root.
#[derive(Clone, Copy, Debug)]
pub enum DelegateMessage {
    Closed,
}

#[derive(Clone, Debug)]
pub enum Action {
    Initial,
    Close,
    Chats(usize),
    Edit(Message),
    Edit2(Message),
    FinishEdit,
}

/// The duration of a number of whole seconds.
pub uninterp spec fn spec_seconds(secs: u64) -> Duration;

/// Trusted: `std::time::Duration::from_secs`.
///
/// Claims that the duration it makes depends on the number of seconds alone
/// (it is that many whole seconds); nothing else of it is stated.
#[verifier::external_body]
fn seconds(secs: u64) -> (d: Duration)
    ensures
        d == spec_seconds(secs),
{
    Duration::from_secs(secs)
}

/// What the chat asks of its surroundings for an action. `T` is the
/// runtime's unit of asynchronous work.
pub enum Request<T> {
    /// Subscribe to the shared chats under "chat-chats"; each change is
    /// answered with `Chats` and their number.
    SubscribeChats,
    /// Report the number of chats.
    ReportChats(usize),
    /// Return this effect: `Edit2` with the message, two seconds from now.
    EditLater(Effect<Action, T>),
    /// Make this the message that is being edited.
    Select(Option<Message>),
    /// Send this message to the root.
    ToParent(DelegateMessage),
}

impl ChildReducer {
    /// The action the chat starts with.
    pub fn initial_action() -> (a: Option<Action>)
        ensures
            a == Some(Action::Initial),
    {
        Some(Action::Initial)
    }

    /// Handles one action: `Edit` selects its message two seconds later,
    /// `FinishEdit` unselects it, `Close` tells the root.
    pub fn reduce<T>(action: Action) -> (r: Request<T>)
        ensures
            match action {
                Action::Initial => r is SubscribeChats,
                Action::Chats(n) => r == Request::<T>::ReportChats(n),
                Action::Edit(m) => r is EditLater && r->EditLater_0@ == InnerEffect::<
                    Action,
                    T,
                >::Delay(spec_seconds(2), Box::new(InnerEffect::Action(Action::Edit2(m)))),
                Action::Edit2(m) => r == Request::<T>::Select(Some(m)),
                Action::FinishEdit => r == Request::<T>::Select(None),
                Action::Close => r == Request::<T>::ToParent(DelegateMessage::Closed),
            },
    {
        match action {
            Action::Initial => Request::SubscribeChats,
            Action::Chats(cnt) => Request::ReportChats(cnt),
            Action::Edit(message) => Request::EditLater(
                Effect::action(Action::Edit2(message)).delay(seconds(2)),
            ),
            Action::Edit2(message) => Request::Select(Some(message)),
            Action::FinishEdit => Request::Select(None),
            Action::Close => Request::ToParent(DelegateMessage::Closed),
        }
    }

    /// A message of the root means nothing to the chat.
    pub fn to_child(message: root::Message) -> (a: Option<Action>)
        ensures
            a is None,
    {
        None
    }

    /// What a message of the chat means to the root.
    pub fn from_child(message: DelegateMessage) -> (a: Option<root::Action>)
        ensures
            a == Some(root::Action::ClosedMessage),
    {
        match message {
            DelegateMessage::Closed => Some(root::Action::ClosedMessage),
        }
    }
}

} // verus!
