use std::collections::VecDeque;
use conrod_thread::custom_widget::chatview::handle_input as borrowed_input;
use conrod_thread::custom_widget::chatview_ownedmsg::{apply_edits, handle_input, submit, Message};
use conrod_thread::gui::{chat_fields, update_state, websocket_text, ChatFields, ReceivedMsg};
use conrod_thread::run_conrod_borrow::Conrod_Message;
use conrod_thread::support::events::WsMessage;

fn logo() -> conrod::image::Id {
    let mut map = conrod::image::Map::<()>::new();
    map.insert(())
}

fn some(s: &str) -> Option<Option<String>> {
    Some(Some(s.to_owned()))
}

fn chat(location: &str, sender: &str, message: &str) -> ReceivedMsg {
    ReceivedMsg {
        msg_type: "chat".to_owned(),
        location: some(location),
        sender: some(sender),
        message: some(message),
    }
}

#[test]
fn lobby_chat_is_appended() {
    let mut history = VecDeque::new();
    let mut demo = "typing".to_owned();
    update_state(logo(), Some(chat("lobby", "alan", "hi")), &mut demo, &mut history);
    assert_eq!(history.len(), 1);
    assert_eq!(history[0].name, "alan");
    assert_eq!(history[0].text, "hi");
    assert_eq!(history[0].image_id, logo());
    assert_eq!(demo, "typing");
    update_state(logo(), Some(chat("lobby", "bob", "yo")), &mut demo, &mut history);
    assert_eq!(history.len(), 2);
    assert_eq!(history[0].name, "alan");
    assert_eq!(history[1].text, "yo");
}

#[test]
fn other_messages_leave_history_alone() {
    let mut history = VecDeque::new();
    let mut demo = String::new();
    update_state(logo(), Some(chat("table", "alan", "hi")), &mut demo, &mut history);
    update_state(logo(), None, &mut demo, &mut history);
    let mut lobby = chat("lobby", "alan", "hi");
    lobby.msg_type = "lobby".to_owned();
    update_state(logo(), Some(lobby), &mut demo, &mut history);
    let mut missing = chat("lobby", "alan", "hi");
    missing.sender = Some(None);
    update_state(logo(), Some(missing), &mut demo, &mut history);
    let mut absent = chat("lobby", "alan", "hi");
    absent.message = None;
    update_state(logo(), Some(absent), &mut demo, &mut history);
    assert!(history.is_empty());
}

#[test]
fn chat_fields_of_complete_chat_messages() {
    assert_eq!(
        chat_fields(&chat("table", "a", "b")),
        Some(ChatFields {
            location: "table".to_owned(),
            sender: "a".to_owned(),
            message: "b".to_owned()
        })
    );
    let mut not_chat = chat("lobby", "a", "b");
    not_chat.msg_type = "chats".to_owned();
    assert_eq!(chat_fields(&not_chat), None);
    let mut no_location = chat("lobby", "a", "b");
    no_location.location = None;
    assert_eq!(chat_fields(&no_location), None);
}

#[test]
fn only_websocket_text_carries_text() {
    let t = Conrod_Message::Websocket(WsMessage::Text("{}".to_owned()));
    assert_eq!(websocket_text(&t), Some("{}".to_owned()));
    let b = Conrod_Message::Websocket(WsMessage::Binary(vec![7]));
    assert_eq!(websocket_text(&b), None);
    let e = Conrod_Message::Event(conrod::event::Input::Redraw);
    assert_eq!(websocket_text(&e), None);
}

#[test]
fn enter_sends_the_text_and_empties_the_box() {
    let mut text = "hello there".to_owned();
    let name = "Kop".to_owned();
    let msg: Message = submit(&mut text, &name, logo());
    assert_eq!(msg.text, "hello there");
    assert_eq!(msg.name, "Kop");
    assert_eq!(msg.image_id, logo());
    assert_eq!(text, "");
}

#[test]
fn the_last_edit_wins() {
    let mut text = "a".to_owned();
    apply_edits(&mut text, vec![]);
    assert_eq!(text, "a");
    apply_edits(&mut text, vec!["ab".to_owned(), "abc".to_owned()]);
    assert_eq!(text, "abc");
}

#[test]
fn enabled_view_sends_on_click_only() {
    let name = "Kop".to_owned();
    let mut text = "a".to_owned();
    let none = handle_input(true, &mut text, vec!["ab".to_owned()], false, &name, logo());
    assert!(none.is_none());
    assert_eq!(text, "ab");
    let sent = handle_input(true, &mut text, vec!["abc".to_owned()], true, &name, logo()).unwrap();
    assert_eq!(sent.text, "abc");
    assert_eq!(sent.name, "Kop");
    assert_eq!(text, "");
}

#[test]
fn disabled_view_takes_no_input() {
    let name = "Kop".to_owned();
    let mut text = "keep".to_owned();
    assert!(handle_input(false, &mut text, vec!["x".to_owned()], true, &name, logo()).is_none());
    assert_eq!(text, "keep");
}

#[test]
fn borrowed_view_event_is_some_exactly_when_clicked() {
    let mut text = "a".to_owned();
    assert_eq!(borrowed_input(true, &mut text, vec!["ab".to_owned()], false), None);
    assert_eq!(text, "ab");
    assert_eq!(borrowed_input(true, &mut text, vec![], true), Some(()));
    assert_eq!(text, "");
    text = "z".to_owned();
    assert_eq!(borrowed_input(false, &mut text, vec!["y".to_owned()], true), None);
    assert_eq!(text, "z");
}
