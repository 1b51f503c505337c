use conrod_thread::engine::{Engine, LoopAction};
use conrod_thread::support::events::{Key, WindowEvent, WsMessage};
use conrod_thread::support::threaded::Message;

fn ws() -> Message {
    Message::Websocket(WsMessage::Text("x".to_owned()))
}

#[test]
fn escape_or_close_quits_after_the_redraws_before_it() {
    let e = Engine::new();
    let events = vec![ws(), ws(), Message::Event(WindowEvent::KeyboardInput(Some(Key::Escape))), ws()];
    assert_eq!(e.react(&events), LoopAction { redraws: 2, quit: true });
    assert_eq!(
        e.react(&vec![Message::Event(WindowEvent::Closed), ws()]),
        LoopAction { redraws: 0, quit: true }
    );
}

#[test]
fn each_websocket_message_asks_for_a_redraw() {
    let e = Engine::new();
    let events = vec![
        Message::Event(WindowEvent::KeyboardInput(Some(Key::Other))),
        Message::Websocket(WsMessage::Close(None)),
        Message::Event(WindowEvent::Other),
        ws(),
    ];
    assert_eq!(e.react(&events), LoopAction { redraws: 2, quit: false });
}

#[test]
fn other_events_are_ignored() {
    let e = Engine::new();
    let events = vec![
        Message::Event(WindowEvent::KeyboardInput(None)),
        Message::Event(WindowEvent::Other),
    ];
    assert_eq!(e.react(&events), LoopAction { redraws: 0, quit: false });
    assert_eq!(e.react(&vec![]), LoopAction { redraws: 0, quit: false });
}
