use crate::model::{Chat, Message};
use vstd::prelude::*;

verus! {

/// Whether a message was written by the given side and holds the given text.
pub open spec fn message_is(m: Message, sent: bool, text: Seq<char>) -> bool {
    match m {
        Message::Send(s) => sent && s@ == text,
        Message::Received(s) => !sent && s@ == text,
    }
}

fn sent(text: &str) -> (m: Message)
    ensures
        message_is(m, true, text@),
{
    Message::Send(text.to_owned())
}

fn received(text: &str) -> (m: Message)
    ensures
        message_is(m, false, text@),
{
    Message::Received(text.to_owned())
}

/// Three chats to try the example application with.
pub fn chats() -> (r: Vec<Chat>)
    ensures
        r@.len() == 3,
        r@[0].id == 1,
        r@[0].with@ == "Klaus"@,
        r@[0].messages@.len() == 6,
        message_is(r@[0].messages@[0], true, "Hey, how are you"@),
        message_is(r@[0].messages@[1], false, "I'm good"@),
        message_is(r@[0].messages@[2], false, "You?"@),
        message_is(r@[0].messages@[3], true, "Top"@),
        message_is(r@[0].messages@[4], true, "You up for Baseball today?"@),
        message_is(r@[0].messages@[5], false, "I'm game"@),
        r@[1].id == 2,
        r@[1].with@ == "Hans"@,
        r@[1].messages@.len() == 4,
        message_is(r@[1].messages@[0], true, "Whats up"@),
        message_is(r@[1].messages@[1], false, "Bored"@),
        message_is(r@[1].messages@[2], false, "You?"@),
        message_is(r@[1].messages@[3], true, "Bored!"@),
        r@[2].id == 3,
        r@[2].with@ == "Carl"@,
        r@[2].messages@.len() == 1,
        message_is(r@[2].messages@[0], false, "Hey!"@),
{
    let mut klaus: Vec<Message> = Vec::new();
    klaus.push(sent("Hey, how are you"));
    klaus.push(received("I'm good"));
    klaus.push(received("You?"));
    klaus.push(sent("Top"));
    klaus.push(sent("You up for Baseball today?"));
    klaus.push(received("I'm game"));
    let mut hans: Vec<Message> = Vec::new();
    hans.push(sent("Whats up"));
    hans.push(received("Bored"));
    hans.push(received("You?"));
    hans.push(sent("Bored!"));
    let mut carl: Vec<Message> = Vec::new();
    carl.push(received("Hey!"));
    let mut r: Vec<Chat> = Vec::new();
    r.push(Chat { id: 1, with: "Klaus".to_owned(), messages: klaus });
    r.push(Chat { id: 2, with: "Hans".to_owned(), messages: hans });
    r.push(Chat { id: 3, with: "Carl".to_owned(), messages: carl });
    r
}

} // verus!
