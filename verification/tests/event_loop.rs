use conrod_thread::support::events::{Key, WindowEvent, WsMessage};
use conrod_thread::support::threaded::{frame_delay_nanos, EventLoop, Message, FRAME_NANOS};

#[test]
fn frame_delay_fills_up_sixteen_ms() {
    assert_eq!(FRAME_NANOS, 16_000_000);
    assert_eq!(frame_delay_nanos(0), 16_000_000);
    assert_eq!(frame_delay_nanos(6_000_000), 10_000_000);
    assert_eq!(frame_delay_nanos(15_999_999), 1);
    assert_eq!(frame_delay_nanos(16_000_000), 0);
    assert_eq!(frame_delay_nanos(40_000_000), 0);
}

#[test]
fn new_loop_updates_first_then_waits_when_idle() {
    let mut el = EventLoop::new();
    assert!(!el.must_wait(0));
    assert!(el.frame_delay() <= FRAME_NANOS);
    el.finish();
    assert!(el.must_wait(0));
    assert!(!el.must_wait(2));
    el.needs_update();
    assert!(!el.must_wait(0));
}

#[test]
fn gather_puts_window_events_before_websocket_messages() {
    let polled = vec![WindowEvent::Closed, WindowEvent::KeyboardInput(Some(Key::Escape))];
    let received = vec![WsMessage::Text("a".to_owned()), WsMessage::Ping(vec![1])];
    let events = EventLoop::gather(polled, received);
    assert_eq!(
        events,
        vec![
            Message::Event(WindowEvent::Closed),
            Message::Event(WindowEvent::KeyboardInput(Some(Key::Escape))),
            Message::Websocket(WsMessage::Text("a".to_owned())),
            Message::Websocket(WsMessage::Ping(vec![1])),
        ]
    );
    assert!(EventLoop::gather(vec![], vec![]).is_empty());
}
