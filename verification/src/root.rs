use crate::effect::{Effect, InnerEffect};
use crate::model::{same_chat, Chat, Message as ChatMessage};
use vstd::prelude::*;
use vstd::string::StringExecFns;

verus! {

/// The reducer at the root of the example application: the list of chats
/// and the chat that is open.
pub struct RootReducer {}

/// Sent by the root to its children.
#[derive(Clone, Copy, Debug)]
pub enum Message {
    Reload,
}

/// Sent by the root to its parent (it has none).
#[derive(Clone, Copy, Debug)]
pub enum DelegateMessage {
    Closed,
}

#[derive(Clone, Copy, Debug)]
pub enum Action {
    Initial,
    Load,
    Reload,
    CreateChat,
    Selected(u64),
    ClosedMessage,
}

pub struct State {
    pub counter: usize,
    pub selected: Option<Chat>,
}

impl State {
    pub fn new() -> (s: State)
        ensures
            s.counter == 0,
            s.selected is None,
    {
        State { counter: 0, selected: None }
    }
}

/// What the root asks for besides the change of its state: the effect it
/// returns, the message for its children, and the chat to add to the shared
/// chats (whose subscribers are then told).
pub struct Reduced<A, T, M> {
    pub effect: Effect<A, T>,
    pub to_children: Option<M>,
    pub add_chat: Option<Chat>,
}

/// The decimal digits of a number.
pub open spec fn decimal(n: nat) -> Seq<char>
    decreases n,
{
    if n < 10 {
        seq![digit(n)]
    } else {
        decimal(n / 10).push(digit(n % 10))
    }
}

/// The character of a decimal digit.
pub open spec fn digit(d: nat) -> char {
    (d + 48) as char
}

/// The text `"id "` followed by the number in decimal.
pub open spec fn spec_chat_title(n: usize) -> Seq<char> {
    "id "@ + decimal(n as nat)
}

/// Trusted: `<usize as ToString>::to_string`.
///
/// Claims that it gives the decimal digits of `n`, without sign or padding,
/// as the documentation of `Display` for integers describes.
#[verifier::external_body]
fn decimal_text(n: usize) -> (s: String)
    ensures
        s@ == decimal(n as nat),
{
    n.to_string()
}

/// The title of the chat that is added after `n` others.
fn chat_title(n: usize) -> (s: String)
    ensures
        s@ == spec_chat_title(n),
{
    let digits = decimal_text(n);
    "id ".to_owned().concat(digits.as_str())
}

/// The chat that `CreateChat` adds to `count` chats: the next identifier, a
/// title with the count, and a first message.
pub open spec fn is_new_chat(c: Chat, count: usize) -> bool {
    &&& c.id == count + 1
    &&& c.with@ == spec_chat_title(count)
    &&& c.messages@.len() == 1
    &&& c.messages@[0] is Send
    &&& c.messages@[0]->Send_0@ == "This is a test"@
}

/// The first chat of the list with the identifier `id`, if there is one.
pub open spec fn is_first_with_id(chats: Seq<Chat>, id: u64, found: Option<Chat>) -> bool {
    match found {
        Some(c) => exists|i: int|
            0 <= i < chats.len() && chats[i].id == id && (forall|j: int|
                0 <= j < i ==> #[trigger] chats[j].id != id) && same_chat(c, chats[i]),
        None => forall|i: int| 0 <= i < chats.len() ==> #[trigger] chats[i].id != id,
    }
}

/// Finds the first chat with the identifier `id` and copies it.
pub fn find_chat(chats: &Vec<Chat>, id: u64) -> (r: Option<Chat>)
    ensures
        is_first_with_id(chats@, id, r),
{
    let mut i: usize = 0;
    while i < chats.len()
        invariant
            i <= chats@.len(),
            forall|j: int| 0 <= j < i ==> #[trigger] chats@[j].id != id,
        decreases chats.len() - i,
    {
        if chats[i].id == id {
            let c = chats[i].clone();
            assert(same_chat(c, chats@[i as int]));
            return Some(c);
        }
        i = i + 1;
    }
    None
}

/// Adds a new chat after `count` others.
pub fn new_chat(count: usize) -> (c: Chat)
    requires
        count < usize::MAX,
    ensures
        is_new_chat(c, count),
{
    let mut messages: Vec<ChatMessage> = Vec::new();
    messages.push(ChatMessage::Send("This is a test".to_owned()));
    let id = (count + 1) as u64;
    Chat { id, with: chat_title(count), messages }
}

/// When the identifiers of the chats are 1, 2, ... in order, they still are
/// after the chat that `CreateChat` asks for is appended: identifiers stay
/// distinct.
pub proof fn lemma_created_chat_keeps_ids(chats: Seq<Chat>, c: Chat)
    requires
        chats.len() < usize::MAX,
        forall|i: int| 0 <= i < chats.len() ==> #[trigger] chats[i].id == i + 1,
        is_new_chat(c, chats.len() as usize),
    ensures
        forall|i: int| 0 <= i < chats.push(c).len() ==> #[trigger] chats.push(c)[i].id == i + 1,
        forall|i: int, j: int|
            0 <= i < j < chats.push(c).len() ==> #[trigger] chats.push(c)[i].id != #[trigger] chats.push(
                c,
            )[j].id,
{
    assert forall|i: int| 0 <= i < chats.push(c).len() implies #[trigger] chats.push(c)[i].id == i
        + 1 by {
        if i < chats.len() {
            assert(chats.push(c)[i] == chats[i]);
        }
    }
}

impl RootReducer {
    /// The action the root starts with.
    pub fn initial_action() -> (a: Option<Action>)
        ensures
            a == Some(Action::Initial),
    {
        Some(Action::Initial)
    }

    /// Handles one action. `Initial` restarts the counter and asks for
    /// `Load`, which counts; `CreateChat` asks for a new chat after the
    /// existing ones; `Selected` opens the
    /// first chat with that identifier (or none); `ClosedMessage` closes it;
    /// `Reload` passes `Reload` on to the children.
    pub fn reduce<T>(action: Action, state: &mut State, chats: &Vec<Chat>) -> (r: Reduced<
        Action,
        T,
        Message,
    >)
        requires
            action is Load ==> old(state).counter < usize::MAX,
            action is CreateChat ==> chats@.len() < usize::MAX,
        ensures
            match action {
                Action::Initial => r.effect@ == InnerEffect::<Action, T>::Action(Action::Load),
                _ => r.effect@ == InnerEffect::<Action, T>::Nothing,
            },
            r.to_children == if action is Reload {
                Some(Message::Reload)
            } else {
                None::<Message>
            },
            match r.add_chat {
                Some(c) => action is CreateChat && is_new_chat(c, chats@.len() as usize),
                None => !(action is CreateChat),
            },
            final(state).counter == match action {
                Action::Initial => 0,
                Action::Load => old(state).counter + 1,
                _ => old(state).counter as int,
            },
            match action {
                Action::Selected(id) => is_first_with_id(chats@, id, final(state).selected),
                Action::ClosedMessage => final(state).selected is None,
                _ => final(state).selected == old(state).selected,
            },
    {
        match action {
            Action::Initial => {
                state.counter = 0;
                return Reduced {
                    effect: Effect::action(Action::Load),
                    to_children: None,
                    add_chat: None,
                };
            },
            Action::CreateChat => {
                let c = new_chat(chats.len());
                return Reduced { effect: Effect::nothing(), to_children: None, add_chat: Some(c) };
            },
            Action::Load => {
                state.counter = state.counter + 1;
            },
            Action::Selected(item) => {
                state.selected = find_chat(chats, item);
            },
            Action::Reload => {
                return Reduced {
                    effect: Effect::nothing(),
                    to_children: Some(Message::Reload),
                    add_chat: None,
                };
            },
            Action::ClosedMessage => {
                state.selected = None;
            },
        }
        Reduced { effect: Effect::nothing(), to_children: None, add_chat: None }
    }
}

} // verus!
