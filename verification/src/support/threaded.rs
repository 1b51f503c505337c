//! The window thread's event loop: how long it waits between frames, whether it blocks
//! for the next event, and the order in which it hands events on.
use vstd::prelude::*;
use crate::support::events::{WindowEvent, WsMessage};

verus! {

/// A point in time of the monotonic clock.
#[verifier::external_type_specification]
#[verifier::external_body]
pub struct ExInstant(std::time::Instant);

/// Calls `std::time::Instant::now`. Nothing is stated of the time it reads.
#[verifier::external_body]
fn instant_now() -> std::time::Instant {
    std::time::Instant::now()
}

/// Calls `std::time::Instant::elapsed` and converts the duration to nanoseconds. Nothing
/// is stated of the time it reads.
#[verifier::external_body]
fn elapsed_nanos(since: &std::time::Instant) -> u128 {
    since.elapsed().as_nanos()
}

/// The shortest time between two frames: 16 ms, so that no loop runs faster than 60 FPS.
pub const FRAME_NANOS: u128 = 16_000_000;

/// How long to wait before the next frame when `elapsed` nanoseconds have passed since
/// the last one.
pub open spec fn frame_delay(elapsed: u128) -> u128 {
    if elapsed < FRAME_NANOS {
        (FRAME_NANOS - elapsed) as u128
    } else {
        0
    }
}

/// How long to wait before the next frame when `elapsed` nanoseconds have passed since
/// the last one: whatever is left of 16 ms. After the wait at least 16 ms have passed.
pub fn frame_delay_nanos(elapsed: u128) -> (delay: u128)
    ensures
        delay == frame_delay(elapsed),
        delay <= FRAME_NANOS,
        elapsed + delay >= FRAME_NANOS,
{
    if elapsed < FRAME_NANOS {
        FRAME_NANOS - elapsed
    } else {
        0
    }
}

/// What the window thread receives: an event of the window, or a websocket message.
#[derive(Clone, Debug, PartialEq, Eq)]
pub enum Message {
    Event(WindowEvent),
    Websocket(WsMessage),
}

/// The events of one frame, in the order the loop hands them on: all window events as
/// polled, then all websocket messages as received.
pub open spec fn gathered(polled: Seq<WindowEvent>, received: Seq<WsMessage>) -> Seq<Message> {
    polled.map_values(|e: WindowEvent| Message::Event(e)) + received.map_values(
        |m: WsMessage| Message::Websocket(m),
    )
}

/// The state of the window thread's event loop between frames.
pub struct EventLoop {
    ui_needs_update: bool,
    last_update: std::time::Instant,
}

impl EventLoop {
    /// Whether the `Ui` asked for another update whether or not events are pending.
    pub closed spec fn spec_ui_needs_update(self) -> bool {
        self.ui_needs_update
    }

    /// When the last frame ended.
    pub closed spec fn spec_last_update(self) -> std::time::Instant {
        self.last_update
    }

    /// Whether a frame in which `pending` events were collected blocks until the next
    /// event arrives.
    pub open spec fn waits(self, pending: nat) -> bool {
        pending == 0 && !self.spec_ui_needs_update()
    }

    /// A loop whose first frame updates the `Ui`, timed from now.
    pub fn new() -> (el: Self)
        ensures
            el.spec_ui_needs_update(),
    {
        EventLoop { last_update: instant_now(), ui_needs_update: true }
    }

    /// How long to wait before collecting the next frame's events: whatever is left of
    /// 16 ms since the last frame ended.
    pub fn frame_delay(&self) -> (delay: u128)
        ensures
            delay <= FRAME_NANOS,
    {
        frame_delay_nanos(elapsed_nanos(&self.last_update))
    }

    /// Whether this frame, having collected `pending` events, must block until the next
    /// event: when there are none and the `Ui` does not need updating.
    pub fn must_wait(&self, pending: usize) -> (wait: bool)
        ensures
            wait == self.waits(pending as nat),
    {
        pending == 0 && !self.ui_needs_update
    }

    /// Puts the events of one frame in the order the loop hands them on: the window's
    /// events, then the websocket's messages.
    pub fn gather(polled: Vec<WindowEvent>, received: Vec<WsMessage>) -> (events: Vec<Message>)
        ensures
            events@ == gathered(polled@, received@),
            events.len() == polled.len() + received.len(),
    {
        let mut events: Vec<Message> = Vec::new();
        let ghost p = polled@;
        let ghost r = received@;
        for e in it: polled
            invariant
                it.seq() == p,
                events@ =~= p.take(it.index() as int).map_values(|e: WindowEvent| Message::Event(e)),
        {
            assert(p.take(it.index() + 1) =~= p.take(it.index() as int).push(e));
            events.push(Message::Event(e));
        }
        assert(p.take(p.len() as int) =~= p);
        let ghost first = events@;
        for x in it: received
            invariant
                it.seq() == r,
                events@ =~= first + r.take(it.index() as int).map_values(
                    |x: WsMessage| Message::Websocket(x),
                ),
        {
            assert(r.take(it.index() + 1) =~= r.take(it.index() as int).push(x));
            events.push(Message::Websocket(x));
        }
        assert(r.take(r.len() as int) =~= r);
        events
    }

    /// Ends a frame: the `Ui` has been updated, and the next frame is timed from now.
    pub fn finish(&mut self)
        ensures
            !final(self).spec_ui_needs_update(),
    {
        self.ui_needs_update = false;
        self.last_update = instant_now();
    }

    /// Notifies the event loop that the `Ui` requires another update whether or not there
    /// are any pending events.
    ///
    /// This is primarily used on the occasion that some part of the `Ui` is still animating
    /// and requires further updates to do so.
    pub fn needs_update(&mut self)
        ensures
            final(self).spec_ui_needs_update(),
            final(self).spec_last_update() == old(self).spec_last_update(),
    {
        self.ui_needs_update = true;
    }
}

/// Identifiers of the resources the application loads: an image or a font.
#[derive(Debug)]
pub enum SupportIdType {
    ImageId(conrod::image::Id),
    FontId(conrod::text::font::Id),
}

/// A loop whose `Ui` asked for an update (as after `needs_update`) does not block in its
/// next frame, even when no event is pending.
pub proof fn lemma_requested_update_never_waits(el: EventLoop, pending: nat)
    requires
        el.spec_ui_needs_update(),
    ensures
        !el.waits(pending),
{
}

/// After a frame ended (`finish`) and until `needs_update` is called, a frame that finds no
/// pending event blocks for the next one, and a frame that finds some does not.
pub proof fn lemma_idle_loop_waits(el: EventLoop, pending: nat)
    requires
        !el.spec_ui_needs_update(),
    ensures
        el.waits(pending) == (pending == 0),
{
}

} // verus!
