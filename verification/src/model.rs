use std::rc::Rc;
use vstd::prelude::*;
use vstd::std_specs::cmp::{PartialEqSpec, PartialEqSpecImpl};

pub mod mock;

verus! {

/// A chat message, by who wrote it.
#[derive(Debug)]
pub enum Message {
    /// Written by the user.
    Send(String),
    /// Written by the other side.
    Received(String),
}

impl Clone for Message {
    fn clone(&self) -> (r: Self)
        ensures
            r == *self,
    {
        match self {
            Message::Send(s) => Message::Send(s.clone()),
            Message::Received(s) => Message::Received(s.clone()),
        }
    }
}

/// A conversation with someone.
#[derive(Debug)]
pub struct Chat {
    pub id: u64,
    pub with: String,
    pub messages: Vec<Message>,
}

/// Whether two chats hold the same: identifier, partner and messages.
pub open spec fn same_chat(a: Chat, b: Chat) -> bool {
    a.id == b.id && a.with == b.with && a.messages@ == b.messages@
}

impl Clone for Chat {
    fn clone(&self) -> (r: Self)
        ensures
            same_chat(r, *self),
    {
        let messages = self.messages.clone();
        assert forall|i: int| 0 <= i < messages@.len() implies messages@[i] == self.messages@[i] by {
            assert(cloned::<Message>(self.messages[i], messages[i]));
        }
        assert(messages@ =~= self.messages@);
        Chat { id: self.id, with: self.with.clone(), messages }
    }
}

/// Two chats are the same chat when they have the same identifier.
impl PartialEq for Chat {
    fn eq(&self, other: &Self) -> (r: bool) {
        self.id == other.id
    }
}

impl PartialEqSpecImpl for Chat {
    open spec fn obeys_eq_spec() -> bool {
        true
    }

    open spec fn eq_spec(&self, other: &Self) -> bool {
        self.id == other.id
    }
}

impl Eq for Chat {

}

/// The events of the example application.
pub enum AppEvent {
    Something,
}

/// What the reducers of the example application share: the chats.
pub struct Environment {
    chats: Rc<Vec<Chat>>,
}

impl Environment {
    /// The chats this environment shares.
    pub closed spec fn spec_chats(&self) -> Seq<Chat> {
        self.chats@
    }

    pub fn new(chats: Vec<Chat>) -> (e: Self)
        ensures
            e.spec_chats() == chats@,
    {
        Environment { chats: Rc::new(chats) }
    }

    /// A shared handle on the chats.
    pub fn chats(&self) -> (r: Rc<Vec<Chat>>)
        ensures
            r@ == self.spec_chats(),
    {
        Rc::clone(&self.chats)
    }
}

/// Two chats are equal exactly when their identifiers are: equality is
/// symmetric, and chats with different identifiers are never equal, however
/// much else they share.
pub proof fn lemma_chat_equality_is_by_id(a: Chat, b: Chat)
    ensures
        <Chat as PartialEqSpec>::obeys_eq_spec(),
        PartialEqSpec::eq_spec(&a, &b) <==> a.id == b.id,
        PartialEqSpec::eq_spec(&a, &b) == PartialEqSpec::eq_spec(&b, &a),
        PartialEqSpec::eq_spec(&a, &a),
        a.id != b.id ==> !PartialEqSpec::eq_spec(&a, &b),
{
}

/// A child hosted with a chat is reset exactly when the hosted chat is a
/// different chat (another identifier): whatever `ResetTracker::observe`
/// answers for chats, it answers by identifier.
pub proof fn lemma_chat_reset_by_id(last: Chat, value: Chat, reset: bool)
    requires
        <Chat as PartialEqSpec>::obeys_eq_spec() ==> reset == !PartialEqSpec::eq_spec(&last, &value),
    ensures
        reset <==> last.id != value.id,
{
}

} // verus!
