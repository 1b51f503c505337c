//! The single-threaded engine: what its window loop does with each frame's events.
use vstd::prelude::*;
use crate::support::events::{Key, WindowEvent};
use crate::support::threaded::Message;

verus! {

/// The application's engine, which owns the window loop.
pub struct Engine {}

/// What the window loop does with the events of one frame: how many times it asks the
/// `Ui` to be drawn again while it reads them, and whether it then leaves the loop.
#[derive(Clone, Copy, Debug, PartialEq, Eq)]
pub struct LoopAction {
    /// One redraw request for each websocket message read.
    pub redraws: usize,
    /// Leave the loop: escape was pressed or the window was closed.
    pub quit: bool,
}

/// Whether an event ends the window loop: the escape key, or the window closing.
pub open spec fn ends_loop(m: Message) -> bool {
    match m {
        Message::Event(WindowEvent::KeyboardInput(Some(Key::Escape))) => true,
        Message::Event(WindowEvent::Closed) => true,
        _ => false,
    }
}

/// Whether an event asks for the `Ui` to be drawn again: any websocket message.
pub open spec fn asks_redraw(m: Message) -> bool {
    m is Websocket
}

/// The number of websocket messages among `events`, each of which asks for a redraw.
pub open spec fn redraw_count(events: Seq<Message>) -> nat
    decreases events.len(),
{
    if events.len() == 0 {
        0
    } else {
        redraw_count(events.drop_last()) + if asks_redraw(events.last()) {
            1nat
        } else {
            0nat
        }
    }
}

/// What the loop does with `events`, read in order: it asks for a redraw for each websocket
/// message until the first event that ends the loop, and quits there; with no such event
/// it asks for a redraw for every websocket message and carries on.
pub open spec fn is_loop_action(events: Seq<Message>, action: LoopAction) -> bool {
    &&& action.quit == exists|i: int| 0 <= i < events.len() && ends_loop(#[trigger] events[i])
    &&& action.quit ==> exists|j: int|
        0 <= j < events.len() && ends_loop(#[trigger] events[j]) && (forall|k: int|
            0 <= k < j ==> !ends_loop(#[trigger] events[k])) && action.redraws == redraw_count(
            events.take(j),
        )
    &&& !action.quit ==> action.redraws == redraw_count(events)
}

impl Engine {
    pub fn new() -> (e: Self)
        ensures
            e == (Engine {}),
    {
        Engine {}
    }

    /// Reads the events of one frame in order: each websocket message asks for a redraw;
    /// the first escape key or window close ends the loop; anything else is ignored.
    pub fn react(&self, events: &Vec<Message>) -> (action: LoopAction)
        ensures
            is_loop_action(events@, action),
    {
        let mut redraws: usize = 0;
        let n = events.len();
        let mut i: usize = 0;
        while i < n
            invariant
                n == events@.len(),
                i <= n,
                redraws <= i,
                forall|k: int| 0 <= k < i ==> !ends_loop(#[trigger] events@[k]),
                redraws == redraw_count(events@.take(i as int)),
            decreases n - i,
        {
            let ghost prefix = events@.take(i + 1);
            assert(prefix.drop_last() =~= events@.take(i as int));
            assert(prefix.last() == events@[i as int]);
            match &events[i] {
                Message::Event(WindowEvent::KeyboardInput(Some(Key::Escape))) => {
                    assert(ends_loop(events@[i as int]));
                    return LoopAction { redraws, quit: true };
                },
                Message::Event(WindowEvent::Closed) => {
                    assert(ends_loop(events@[i as int]));
                    return LoopAction { redraws, quit: true };
                },
                Message::Websocket(_) => {
                    redraws = redraws + 1;
                },
                _ => {},
            }
            i = i + 1;
        }
        assert(events@.take(n as int) =~= events@);
        LoopAction { redraws, quit: false }
    }
}

/// The number of websocket messages a batch asks redraws for is the number of websocket
/// messages in it.
pub proof fn lemma_redraw_count_counts_websocket(events: Seq<Message>)
    ensures
        redraw_count(events) == events.filter(|m: Message| m is Websocket).len(),
    decreases events.len(),
{
    reveal_with_fuel(Seq::filter, 1);
    if events.len() > 0 {
        lemma_redraw_count_counts_websocket(events.drop_last());
    }
}

/// No websocket message ends the window loop, whatever it carries, and the escape key and
/// the window closing do.
pub proof fn lemma_only_escape_or_close_ends_loop(m: Message)
    ensures
        m is Websocket ==> !ends_loop(m),
        m == Message::Event(WindowEvent::KeyboardInput(Some(Key::Escape))) ==> ends_loop(m),
        m == Message::Event(WindowEvent::Closed) ==> ends_loop(m),
        ends_loop(m) ==> (m == Message::Event(WindowEvent::KeyboardInput(Some(Key::Escape))) || m
            == Message::Event(WindowEvent::Closed)),
{
}

/// What `react` decides for a batch: the loop quits exactly when an escape key or a window
/// close is among the events; it then asks for one redraw per websocket message before the
/// first of them, and otherwise for one per websocket message in the batch.
pub proof fn lemma_react_decides(events: Seq<Message>, action: LoopAction)
    requires
        is_loop_action(events, action),
    ensures
        action.quit <==> exists|i: int|
            0 <= i < events.len() && (events[i] == Message::Event(
                WindowEvent::KeyboardInput(Some(Key::Escape)),
            ) || events[i] == Message::Event(WindowEvent::Closed)),
        action.quit ==> exists|j: int|
            0 <= j < events.len() && (events[j] == Message::Event(
                WindowEvent::KeyboardInput(Some(Key::Escape)),
            ) || events[j] == Message::Event(WindowEvent::Closed)) && action.redraws == events.take(
                j,
            ).filter(|m: Message| m is Websocket).len(),
        !action.quit ==> action.redraws == events.filter(|m: Message| m is Websocket).len(),
{
    lemma_redraw_count_counts_websocket(events);
    if action.quit {
        let j = choose|j: int|
            0 <= j < events.len() && ends_loop(#[trigger] events[j]) && (forall|k: int|
                0 <= k < j ==> !ends_loop(#[trigger] events[k])) && action.redraws == redraw_count(
                events.take(j),
            );
        lemma_only_escape_or_close_ends_loop(events[j]);
        lemma_redraw_count_counts_websocket(events.take(j));
    }
    assert forall|i: int| 0 <= i < events.len() implies ends_loop(events[i]) <==> (events[i]
        == Message::Event(WindowEvent::KeyboardInput(Some(Key::Escape))) || events[i]
        == Message::Event(WindowEvent::Closed)) by {
        lemma_only_escape_or_close_ends_loop(events[i]);
    }
}

} // verus!
