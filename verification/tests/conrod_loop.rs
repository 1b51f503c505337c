use conrod_thread::run_conrod::{Conrod_Message, LibraryWatch};
use conrod_thread::run_conrod_borrow::ConrodLoop;
use conrod_thread::support::events::WsMessage;

fn text(s: &str) -> Conrod_Message {
    Conrod_Message::Websocket(WsMessage::Text(s.to_owned()))
}

#[test]
fn text_messages_replace_the_shown_text() {
    let mut l = ConrodLoop::new("Lorem".to_owned());
    assert!(l.needs_update);
    l.absorb(&Conrod_Message::Event(conrod::event::Input::Focus(true)));
    assert_eq!(l.demo_text, "Lorem");
    l.absorb(&Conrod_Message::Websocket(WsMessage::Binary(vec![1, 2])));
    assert_eq!(l.demo_text, "Lorem");
    l.absorb(&text("hello"));
    assert_eq!(l.demo_text, "hello");
    assert!(l.needs_update);
}

#[test]
fn the_last_text_of_a_batch_is_shown() {
    let mut l = ConrodLoop::new("start".to_owned());
    let batch = vec![
        text("one"),
        Conrod_Message::Event(conrod::event::Input::Redraw),
        text("two"),
        Conrod_Message::Websocket(WsMessage::Pong(vec![])),
    ];
    l.absorb_all(&batch);
    assert_eq!(l.demo_text, "two");
    l.absorb_all(&vec![Conrod_Message::Event(conrod::event::Input::Redraw)]);
    assert_eq!(l.demo_text, "two");
}

#[test]
fn batches_in_turn_show_the_same_as_one_batch() {
    let mut split = ConrodLoop::new("s".to_owned());
    split.absorb_all(&vec![text("a"), text("b")]);
    split.absorb_all(&vec![Conrod_Message::Event(conrod::event::Input::Redraw)]);
    let mut whole = ConrodLoop::new("s".to_owned());
    whole.absorb_all(&vec![
        text("a"),
        text("b"),
        Conrod_Message::Event(conrod::event::Input::Redraw),
    ]);
    assert_eq!(split.demo_text, whole.demo_text);
}

#[test]
fn blocking_and_settling() {
    let mut l = ConrodLoop::new(String::new());
    assert!(l.must_block(0));
    assert!(!l.must_block(3));
    l.settle(0);
    assert!(!l.needs_update);
    assert!(l.must_block(3));
    l.settle(2);
    assert!(l.needs_update);
    assert!(!l.must_block(1));
}

#[test]
fn library_reloads_once_per_newer_modification() {
    let mut w = LibraryWatch::new(100);
    assert!(!w.changed(None));
    assert!(!w.changed(Some(100)));
    assert!(!w.changed(Some(50)));
    assert_eq!(w.last_modified, 100);
    assert!(w.changed(Some(150)));
    assert_eq!(w.last_modified, 150);
    assert!(!w.changed(Some(150)));
    let mut early = LibraryWatch::new(-500);
    assert!(early.changed(Some(-20)));
    assert_eq!(early.last_modified, -20);
}
