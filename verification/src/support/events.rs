//! The events that reach the application from the window and from the websocket, as far
//! as the application tells them apart.
use vstd::prelude::*;

verus! {

/// A keyboard key, as far as the application tells keys apart.
#[derive(Clone, Copy, Debug, PartialEq, Eq)]
pub enum Key {
    Escape,
    Other,
}

/// An event of the window: a key going down or up (with the key, where the window
/// could name it), the window being closed, or anything else.
#[derive(Clone, Copy, Debug, PartialEq, Eq)]
pub enum WindowEvent {
    KeyboardInput(Option<Key>),
    Closed,
    Other,
}

/// Why a websocket was closed.
#[derive(Clone, Debug, PartialEq, Eq)]
pub struct CloseData {
    pub status_code: u16,
    pub reason: String,
}

/// A message received over the websocket.
#[derive(Clone, Debug, PartialEq, Eq)]
pub enum WsMessage {
    Text(String),
    Binary(Vec<u8>),
    Close(Option<CloseData>),
    Ping(Vec<u8>),
    Pong(Vec<u8>),
}

} // verus!
