//! What the chat application does with a message received from the game server.
use vstd::prelude::*;
use std::collections::VecDeque;
use crate::custom_widget::chatview_ownedmsg::Message;
use crate::run_conrod_borrow::Conrod_Message;
use crate::support::events::WsMessage;

verus! {

/// A message from the game server, as far as the chat reads it: its type, and where,
/// from whom and what was said, each of which may be missing or null.
#[derive(Clone, Debug, PartialEq, Eq)]
pub struct ReceivedMsg {
    pub msg_type: String,
    pub location: Option<Option<String>>,
    pub sender: Option<Option<String>>,
    pub message: Option<Option<String>>,
}

/// The place, sender and text of a complete chat message.
#[derive(Clone, Debug, PartialEq, Eq)]
pub struct ChatFields {
    pub location: String,
    pub sender: String,
    pub message: String,
}

/// Whether a received message is a chat message whose place, sender and text are all
/// present and not null.
pub open spec fn is_complete_chat(msg: ReceivedMsg) -> bool {
    &&& msg.msg_type@ == "chat"@
    &&& msg.location matches Some(Some(_))
    &&& msg.sender matches Some(Some(_))
    &&& msg.message matches Some(Some(_))
}

/// Whether a received message is a complete chat message said in the lobby.
pub open spec fn is_lobby_chat(msg: ReceivedMsg) -> bool {
    &&& is_complete_chat(msg)
    &&& msg.location->0->0@ == "lobby"@
}

/// The history after `received` arrived: a lobby chat message is appended, from its sender,
/// with the picture `image_id`; anything else leaves the history as it was.
pub open spec fn updated_history(
    history: Seq<Message>,
    image_id: conrod::image::Id,
    received: Option<ReceivedMsg>,
) -> Seq<Message> {
    match received {
        Some(msg) => if is_lobby_chat(msg) {
            history.push(
                Message {
                    image_id,
                    name: msg.sender->0->0,
                    text: msg.message->0->0,
                },
            )
        } else {
            history
        },
        None => history,
    }
}

/// The text of a websocket text message, which is what the server's messages come in.
pub fn websocket_text(conrod_msg: &Conrod_Message) -> (text: Option<String>)
    ensures
        match *conrod_msg {
            Conrod_Message::Websocket(WsMessage::Text(z)) => text == Some(z),
            _ => text is None,
        },
{
    match conrod_msg {
        Conrod_Message::Websocket(WsMessage::Text(z)) => Some(z.clone()),
        _ => None,
    }
}

/// The place, sender and text of a complete chat message; `None` for any other message.
pub fn chat_fields(msg: &ReceivedMsg) -> (fields: Option<ChatFields>)
    ensures
        fields is Some <==> is_complete_chat(*msg),
        fields matches Some(f) ==> {
            &&& f.location == msg.location->0->0
            &&& f.sender == msg.sender->0->0
            &&& f.message == msg.message->0->0
        },
{
    let chat = "chat".to_owned();
    if msg.msg_type == chat {
        match (&msg.location, &msg.sender, &msg.message) {
            (Some(Some(location)), Some(Some(sender)), Some(Some(message))) => Some(
                ChatFields {
                    location: location.clone(),
                    sender: sender.clone(),
                    message: message.clone(),
                },
            ),
            _ => None,
        }
    } else {
        None
    }
}

/// Takes in what the server sent, already parsed (`None` when the message was not a
/// server message): a chat message said in the lobby is appended to `history`, from its
/// sender, with the picture `rust_logo`. Nothing else changes, and the text being edited
/// is left alone.
pub fn update_state(
    rust_logo: conrod::image::Id,
    received: Option<ReceivedMsg>,
    demo_text: &mut String,
    history: &mut VecDeque<Message>,
)
    ensures
        final(history)@ == updated_history(old(history)@, rust_logo, received),
        *final(demo_text) == *old(demo_text),
{
    if let Some(msg) = received {
        if let Some(fields) = chat_fields(&msg) {
            let lobby = "lobby".to_owned();
            if fields.location == lobby {
                history.push_back(
                    Message { image_id: rust_logo, name: fields.sender, text: fields.message },
                );
            }
        }
    }
}

/// A received message never removes or changes what the history holds: it only ever
/// appends at most one message at the end.
pub proof fn lemma_history_only_grows(
    history: Seq<Message>,
    image_id: conrod::image::Id,
    received: Option<ReceivedMsg>,
)
    ensures
        ({
            let h = updated_history(history, image_id, received);
            &&& history.len() <= h.len() <= history.len() + 1
            &&& h.take(history.len() as int) == history
        }),
{
    let h = updated_history(history, image_id, received);
    assert(h.take(history.len() as int) =~= history);
}

/// Every complete chat message said in the lobby is appended, whatever the history holds:
/// the history afterwards is the old one with exactly one more message at the end, from its
/// sender, with its text and the given picture.
pub proof fn lemma_lobby_chat_appended(
    history: Seq<Message>,
    image_id: conrod::image::Id,
    msg: ReceivedMsg,
    location: String,
    sender: String,
    text: String,
)
    requires
        msg.msg_type@ == "chat"@,
        msg.location == Some(Some(location)),
        location@ == "lobby"@,
        msg.sender == Some(Some(sender)),
        msg.message == Some(Some(text)),
    ensures
        updated_history(history, image_id, Some(msg)) == history.push(
            Message { image_id, name: sender, text },
        ),
        updated_history(history, image_id, Some(msg)).len() == history.len() + 1,
{
}

/// Anything but a complete chat message said in the lobby leaves the history as it was:
/// no message at all, a message of another type, one said elsewhere, or one whose place,
/// sender or text is missing or null.
pub proof fn lemma_other_messages_ignored(
    history: Seq<Message>,
    image_id: conrod::image::Id,
    received: Option<ReceivedMsg>,
)
    requires
        received matches Some(msg) ==> {
            ||| msg.msg_type@ != "chat"@
            ||| !(msg.location matches Some(Some(l)) && l@ == "lobby"@)
            ||| !(msg.sender matches Some(Some(_)))
            ||| !(msg.message matches Some(Some(_)))
        },
    ensures
        updated_history(history, image_id, received) == history,
{
}

} // verus!
