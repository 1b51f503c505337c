//! The conrod thread's loop: which text it shows, and when it blocks for the next event.
use vstd::prelude::*;
use crate::support::events::WsMessage;

verus! {

/// What the conrod thread receives: an input event for the `Ui`, or a websocket message.
#[allow(non_camel_case_types)]
#[derive(Debug)]
pub enum Conrod_Message {
    Event(conrod::event::Input),
    Websocket(WsMessage),
}

/// The text a message carries when it is a websocket text message.
pub open spec fn carried_text(m: Conrod_Message) -> Option<Seq<char>> {
    match m {
        Conrod_Message::Websocket(WsMessage::Text(z)) => Some(z@),
        _ => None,
    }
}

/// The text shown after the messages `events` arrived in order, starting from `text`:
/// that of the last websocket text message among them, or `text` when there is none.
pub open spec fn shown_text(events: Seq<Conrod_Message>, text: Seq<char>) -> Seq<char>
    decreases events.len(),
{
    if events.len() == 0 {
        text
    } else {
        match carried_text(events.last()) {
            Some(t) => t,
            None => shown_text(events.drop_last(), text),
        }
    }
}

/// The state that the conrod thread's loop keeps from one frame to the next.
pub struct ConrodLoop {
    /// The text shown in the chat view's text box.
    pub demo_text: String,
    /// Whether the last frame handled any event, so that the `Ui` may still be changing.
    pub needs_update: bool,
}

impl ConrodLoop {
    /// A loop that shows `demo_text` and updates the `Ui` in its first frame.
    pub fn new(demo_text: String) -> (l: Self)
        ensures
            l.demo_text@ == demo_text@,
            l.needs_update,
    {
        ConrodLoop { demo_text, needs_update: true }
    }

    /// Takes in one received message: a websocket text message replaces the text shown.
    pub fn absorb(&mut self, event: &Conrod_Message)
        ensures
            final(self).demo_text@ == shown_text(seq![*event], old(self).demo_text@),
            final(self).needs_update == old(self).needs_update,
    {
        proof {
            reveal_with_fuel(shown_text, 2);
            assert(seq![*event].drop_last() =~= Seq::<Conrod_Message>::empty());
            assert(seq![*event].last() == *event);
        }
        if let Conrod_Message::Websocket(WsMessage::Text(z)) = event {
            self.demo_text = z.clone();
        }
    }

    /// Takes in the messages of one frame in the order they arrived.
    pub fn absorb_all(&mut self, events: &Vec<Conrod_Message>)
        ensures
            final(self).demo_text@ == shown_text(events@, old(self).demo_text@),
            final(self).needs_update == old(self).needs_update,
    {
        let n = events.len();
        let mut i: usize = 0;
        while i < n
            invariant
                n == events@.len(),
                i <= n,
                self.demo_text@ == shown_text(events@.take(i as int), old(self).demo_text@),
                self.needs_update == old(self).needs_update,
            decreases n - i,
        {
            let ghost before = self.demo_text@;
            self.absorb(&events[i]);
            proof {
                lemma_shown_text_append(events@.take(i as int), seq![events@[i as int]], old(self).demo_text@);
                assert(events@.take(i as int) + seq![events@[i as int]] =~= events@.take(i + 1));
            }
            i = i + 1;
        }
        assert(events@.take(n as int) =~= events@);
    }

    /// Whether a frame in which `pending` messages were collected blocks until the next
    /// one arrives: when none was collected, or when the last frame handled none.
    pub fn must_block(&self, pending: usize) -> (block: bool)
        ensures
            block == (pending == 0 || !self.needs_update),
    {
        pending == 0 || !self.needs_update
    }

    /// Ends a frame in which `handled` messages were fed to the `Ui`: the `Ui` needs
    /// another update exactly when there was at least one.
    pub fn settle(&mut self, handled: usize)
        ensures
            final(self).needs_update == (handled > 0),
            final(self).demo_text == old(self).demo_text,
    {
        self.needs_update = handled > 0;
    }
}

/// Taking in two batches of messages one after the other shows the same text as taking in
/// both at once.
pub proof fn lemma_shown_text_append(a: Seq<Conrod_Message>, b: Seq<Conrod_Message>, text: Seq<char>)
    ensures
        shown_text(a + b, text) == shown_text(b, shown_text(a, text)),
    decreases b.len(),
{
    if b.len() == 0 {
        assert(a + b =~= a);
    } else {
        assert((a + b).drop_last() =~= a + b.drop_last());
        assert((a + b).last() == b.last());
        lemma_shown_text_append(a, b.drop_last(), text);
    }
}

/// Only a websocket text message changes the shown text, to its own text; any other
/// message (an input event, or a websocket close, ping, pong or binary message) leaves the
/// text as it was.
pub proof fn lemma_only_text_changes_shown_text(m: Conrod_Message, text: Seq<char>)
    ensures
        m matches Conrod_Message::Websocket(WsMessage::Text(z)) ==> shown_text(seq![m], text)
            == z@,
        !(m matches Conrod_Message::Websocket(WsMessage::Text(_))) ==> shown_text(seq![m], text)
            == text,
{
    reveal_with_fuel(shown_text, 2);
    assert(seq![m].drop_last() =~= Seq::<Conrod_Message>::empty());
    assert(seq![m].last() == m);
}

/// After a batch, the shown text is that of its last websocket text message; with no
/// websocket text message in the batch, it is the text shown before.
pub proof fn lemma_shown_text_is_last_text(events: Seq<Conrod_Message>, text: Seq<char>)
    ensures
        (forall|k: int|
            0 <= k < events.len() ==> !(#[trigger] events[k] matches Conrod_Message::Websocket(
                WsMessage::Text(_),
            ))) ==> shown_text(events, text) == text,
        forall|i: int|
            0 <= i < events.len() && (#[trigger] events[i] matches Conrod_Message::Websocket(
                WsMessage::Text(_),
            )) && (forall|k: int|
                i < k < events.len() ==> !(#[trigger] events[k] matches Conrod_Message::Websocket(
                    WsMessage::Text(_),
                ))) ==> shown_text(events, text) == events[i]->Websocket_0->Text_0@,
    decreases events.len(),
{
    if events.len() > 0 {
        let rest = events.drop_last();
        lemma_shown_text_is_last_text(rest, text);
        assert forall|k: int| 0 <= k < rest.len() implies rest[k] == events[k] by {}
        assert forall|i: int|
            0 <= i < events.len() && (#[trigger] events[i] matches Conrod_Message::Websocket(
                WsMessage::Text(_),
            )) && (forall|k: int|
                i < k < events.len() ==> !(#[trigger] events[k] matches Conrod_Message::Websocket(
                    WsMessage::Text(_),
                ))) implies shown_text(events, text) == events[i]->Websocket_0->Text_0@ by {
            if i < events.len() - 1 {
                assert(!(events[events.len() - 1] matches Conrod_Message::Websocket(
                    WsMessage::Text(_),
                )));
                assert(rest[i] == events[i]);
                assert forall|k: int| i < k < rest.len() implies !(#[trigger] rest[k] matches Conrod_Message::Websocket(
                    WsMessage::Text(_),
                )) by {
                    assert(rest[k] == events[k]);
                }
            }
        }
        if forall|k: int|
            0 <= k < events.len() ==> !(#[trigger] events[k] matches Conrod_Message::Websocket(
                WsMessage::Text(_),
            )) {
            assert(!(events[events.len() - 1] matches Conrod_Message::Websocket(
                WsMessage::Text(_),
            )));
            assert forall|k: int| 0 <= k < rest.len() implies !(#[trigger] rest[k] matches Conrod_Message::Websocket(
                WsMessage::Text(_),
            )) by {
                assert(rest[k] == events[k]);
            }
        }
    }
}

} // verus!
