use navicula::anyhashable::AnyHashable;
use navicula::chat;
use navicula::chat::edit::{DelegateMessage as EditDelegate, Request as EditRequest};
use navicula::chat::{Action as A, ChildReducer, Request};
use navicula::chat::edit::{EditAction, EditReducer, EditState};
use navicula::effect::InnerEffect;
use navicula::event_receiver::{file_event_for, AppEvent, DropEvent, FileEvent};
use navicula::menu::{ContextMenu, ContextMenuItem, ContextMenuKind};
use navicula::model::mock;
use navicula::model::{Chat, Environment, Message};
use navicula::root::{find_chat, new_chat, Action, RootReducer, State};
use navicula::sidebar;
use std::path::PathBuf;

fn text(m: &Message) -> (bool, &str) {
    match m {
        Message::Send(s) => (true, s.as_str()),
        Message::Received(s) => (false, s.as_str()),
    }
}

#[test]
fn mock_chats() {
    let chats = mock::chats();
    assert_eq!(chats.len(), 3);
    assert_eq!(chats.iter().map(|c| c.id).collect::<Vec<_>>(), vec![1, 2, 3]);
    assert_eq!(chats[0].with, "Klaus");
    assert_eq!(chats[1].with, "Hans");
    assert_eq!(chats[2].with, "Carl");
    assert_eq!(chats[0].messages.len(), 6);
    assert_eq!(text(&chats[0].messages[4]), (true, "You up for Baseball today?"));
    assert_eq!(text(&chats[2].messages[0]), (false, "Hey!"));
}

#[test]
fn chats_are_equal_by_id() {
    let a = Chat { id: 1, with: "a".to_string(), messages: vec![] };
    let b = Chat { id: 1, with: "b".to_string(), messages: vec![Message::Send("x".to_string())] };
    let c = Chat { id: 2, with: "a".to_string(), messages: vec![] };
    assert!(a == b);
    assert!(a != c);
}

#[test]
fn new_chat_title_and_id() {
    let c = new_chat(3);
    assert_eq!(c.id, 4);
    assert_eq!(c.with, "id 3");
    assert_eq!(c.messages.len(), 1);
    assert_eq!(text(&c.messages[0]), (true, "This is a test"));
    assert_eq!(new_chat(1234).with, "id 1234");
    assert_eq!(new_chat(0).with, "id 0");
}

#[test]
fn find_chat_takes_the_first() {
    let mut chats = mock::chats();
    chats.push(Chat { id: 2, with: "Other".to_string(), messages: vec![] });
    assert_eq!(find_chat(&chats, 2).unwrap().with, "Hans");
    assert!(find_chat(&chats, 9).is_none());
}

#[test]
fn root_reducer_transitions() {
    let mut state = State::new();
    let mut chats = mock::chats();
    assert!(matches!(RootReducer::initial_action(), Some(Action::Initial)));

    let r = RootReducer::reduce::<()>(Action::Initial, &mut state, &chats);
    assert!(matches!(r.effect.inner(), InnerEffect::Action(Action::Load)));
    assert_eq!(state.counter, 0);

    let r = RootReducer::reduce::<()>(Action::Load, &mut state, &chats);
    assert!(matches!(r.effect.inner(), InnerEffect::Nothing));
    assert_eq!(state.counter, 1);

    let r = RootReducer::reduce::<()>(Action::CreateChat, &mut state, &chats);
    let added = r.add_chat.unwrap();
    assert_eq!(added.id, 4);
    assert_eq!(added.with, "id 3");
    chats.push(added);
    assert_eq!(state.counter, 1);

    let r = RootReducer::reduce::<()>(Action::Selected(2), &mut state, &chats);
    assert!(r.add_chat.is_none());
    assert_eq!(state.selected.as_ref().unwrap().with, "Hans");

    let r = RootReducer::reduce::<()>(Action::Reload, &mut state, &chats);
    assert!(matches!(r.to_children, Some(navicula::root::Message::Reload)));

    RootReducer::reduce::<()>(Action::ClosedMessage, &mut state, &chats);
    assert!(state.selected.is_none());

    RootReducer::reduce::<()>(Action::Selected(99), &mut state, &chats);
    assert!(state.selected.is_none());
}

#[test]
fn sidebar_reducer() {
    let env = Environment::new(mock::chats());
    let mut state = sidebar::State::new();
    assert!(state.chats.is_empty());
    assert!(sidebar::ChildReducer::reduce(sidebar::Action::Initial, &mut state, &env).is_none());
    assert_eq!(state.chats.len(), 3);
    assert!(matches!(
        sidebar::ChildReducer::reduce(sidebar::Action::Select(3), &mut state, &env),
        Some(sidebar::DelegateMessage::Selected(3))
    ));
    sidebar::ChildReducer::reduce(sidebar::Action::Reload, &mut state, &env);
    assert_eq!(state.counter, 1);
    assert!(matches!(
        sidebar::ChildReducer::to_child(navicula::root::Message::Reload),
        Some(sidebar::Action::Reload)
    ));
    assert!(matches!(
        sidebar::ChildReducer::from_child(sidebar::DelegateMessage::Selected(5)),
        Some(Action::Selected(5))
    ));
    assert_eq!(env.chats().len(), 3);
}

#[test]
fn chat_reducer() {
    assert!(matches!(ChildReducer::reduce::<()>(A::Initial), Request::SubscribeChats));
    assert!(matches!(ChildReducer::reduce::<()>(A::Chats(4)), Request::ReportChats(4)));
    match ChildReducer::reduce::<()>(A::Edit(Message::Send("m".to_string()))) {
        Request::EditLater(effect) => match effect.inner() {
            InnerEffect::Delay(d, inner) => {
                assert_eq!(d, std::time::Duration::from_secs(2));
                match *inner {
                    InnerEffect::Action(A::Edit2(Message::Send(s))) => assert_eq!(s, "m"),
                    _ => panic!("expected Edit2 with the message"),
                }
            }
            _ => panic!("expected a delay"),
        },
        _ => panic!("expected EditLater"),
    }
    assert!(matches!(ChildReducer::reduce::<()>(A::Edit2(Message::Received("r".to_string()))), Request::Select(Some(_))));
    assert!(matches!(ChildReducer::reduce::<()>(A::FinishEdit), Request::Select(None)));
    assert!(matches!(
        ChildReducer::reduce::<()>(A::Close),
        Request::ToParent(chat::DelegateMessage::Closed)
    ));
    assert!(ChildReducer::to_child(navicula::root::Message::Reload).is_none());
    assert!(matches!(
        ChildReducer::from_child(chat::DelegateMessage::Closed),
        Some(Action::ClosedMessage)
    ));
    let s = chat::State::new(mock::chats().remove(0));
    assert_eq!(s.chat.id, 1);
}

#[test]
fn edit_reducer() {
    let mut state = EditState::new();
    assert!(matches!(
        EditReducer::reduce(EditAction::Initial, &mut state),
        EditRequest::SubscribeSelected
    ));
    assert!(state.message.is_none());
    EditReducer::reduce(EditAction::ReceivedMessage(Some(Message::Send("x".to_string()))), &mut state);
    assert!(matches!(state.message, Some(Message::Send(_))));
    assert!(matches!(
        EditReducer::reduce(EditAction::Done, &mut state),
        EditRequest::ToParent(EditDelegate::Done)
    ));
    assert!(matches!(
        EditReducer::from_child(EditDelegate::Done),
        Some(chat::Action::FinishEdit)
    ));
}

#[test]
fn file_events() {
    assert!(matches!(
        file_event_for(DropEvent::Hovered(vec![])),
        Some(AppEvent::FileEvent(FileEvent::Hovering(false)))
    ));
    assert!(matches!(
        file_event_for(DropEvent::Hovered(vec![PathBuf::from("/a")])),
        Some(AppEvent::FileEvent(FileEvent::Hovering(true)))
    ));
    assert!(file_event_for(DropEvent::Dropped(vec![])).is_none());
    match file_event_for(DropEvent::Dropped(vec![PathBuf::from("/b")])) {
        Some(AppEvent::FileEvent(FileEvent::Dropped(files))) => {
            assert_eq!(files, vec![PathBuf::from("/b")])
        }
        _ => panic!("drop lost"),
    }
    assert!(matches!(
        file_event_for(DropEvent::Cancelled),
        Some(AppEvent::FileEvent(FileEvent::Cancelled))
    ));
    assert!(file_event_for(DropEvent::Other).is_none());
}

#[test]
fn context_menu_entries() {
    let menu = ContextMenu::new(
        "Menu",
        true,
        vec![
            ContextMenuItem::item("Open", 1u32),
            ContextMenuItem::separator(),
            ContextMenuItem::submenu("More", vec![ContextMenuItem::checkbox("Pin", true, 2u32)]),
        ],
    );
    let (title, enabled, children) = menu.into_parts();
    assert_eq!(title, "Menu");
    assert!(enabled);
    let kinds: Vec<ContextMenuKind<u32>> = children.into_iter().map(|c| c.into_kind()).collect();
    assert!(matches!(&kinds[0], ContextMenuKind::Item { title, payload: 1 } if title == "Open"));
    assert!(matches!(kinds[1], ContextMenuKind::Separator));
    match &kinds[2] {
        ContextMenuKind::Submenu { title, children } => {
            assert_eq!(title, "More");
            assert_eq!(children.len(), 1);
        }
        _ => panic!("submenu lost"),
    }
}

#[test]
fn anyhashable_conversions() {
    let a: AnyHashable = "key".into();
    let b: AnyHashable = String::from("key").into();
    let c: AnyHashable = (&String::from("key")).into();
    assert_eq!(a, AnyHashable::from_str("key"));
    assert_eq!(a, b);
    assert_eq!(b, c);
    let d: AnyHashable = 5usize.into();
    assert_eq!(d, AnyHashable::from_usize(5));
}

#[test]
fn created_chats_keep_ids_in_order() {
    let mut state = State::new();
    let mut chats = mock::chats();
    for _ in 0..3 {
        let r = RootReducer::reduce::<()>(Action::CreateChat, &mut state, &chats);
        chats.push(r.add_chat.unwrap());
    }
    let ids: Vec<u64> = chats.iter().map(|c| c.id).collect();
    assert_eq!(ids, vec![1, 2, 3, 4, 5, 6]);
    assert_eq!(chats[5].with, "id 5");
}
