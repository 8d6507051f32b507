//! The remote-control protocol: the requests that the media-control bridge hands
//! to the control loop, the answers to its property reads, and the single slot
//! that lets one property read at a time wait for its answer.
use vstd::prelude::*;
use crate::api::Title;

verus! {

/// Milliseconds that a property read waits for the control loop's answer before
/// it gives the default value.
pub const REPLY_TIMEOUT_MS: u64 = 1000;

/// A request of the remote-control bridge to the control loop.
#[derive(Debug, Clone, Copy, PartialEq, Eq, Structural)]
pub enum Command {
    PlayPause,
    Play,
    Stop,
    Next,
    Previous,
    NowPlaying,
    Status,
}

/// The control loop's answer to a property read.
#[derive(Debug)]
pub enum Response {
    NowPlaying { title: String, artist: String },
    Status(String),
}

/// An answer as a mathematical value.
pub enum ResponseView {
    NowPlaying(Seq<char>, Seq<char>),
    Status(Seq<char>),
}

impl View for Response {
    type V = ResponseView;

    open spec fn view(&self) -> ResponseView {
        match self {
            Response::NowPlaying { title, artist } => ResponseView::NowPlaying(title@, artist@),
            Response::Status(s) => ResponseView::Status(s@),
        }
    }
}

/// The playback status that a read gives when no answer came in time.
pub open spec fn unknown_status() -> Seq<char> {
    "Unknown"@
}

/// The playback status read by the bridge, from the answer it received, if any.
pub fn status_reply(answer: Option<Response>) -> (r: String)
    ensures
        match answer {
            Some(Response::Status(s)) => r@ == s@,
            _ => r@ == unknown_status(),
        },
{
    match answer {
        Some(Response::Status(s)) => s,
        _ => String::from_str("Unknown"),
    }
}

/// The song metadata read by the bridge, from the answer it received, if any:
/// nothing when no song answer came.
pub fn metadata_reply(answer: Option<Response>) -> (r: Option<Title>)
    ensures
        match answer {
            Some(Response::NowPlaying { title, artist }) => r is Some && r->Some_0.song@ == title@
                && r->Some_0.artist@ == artist@,
            _ => r is None,
        },
{
    match answer {
        Some(Response::NowPlaying { title, artist }) => Some(Title { song: title, artist }),
        _ => None,
    }
}

/// The one slot for answers to property reads. A read takes the slot before it
/// sends its request and gives it back after the answer came or the wait ended;
/// a read that finds the slot taken is refused rather than made to share it.
pub struct RequestSlot {
    taken: bool,
}

impl View for RequestSlot {
    type V = bool;

    closed spec fn view(&self) -> bool {
        self.taken
    }
}

impl RequestSlot {
    /// A free slot.
    pub fn new() -> (r: RequestSlot)
        ensures
            !r@,
    {
        RequestSlot { taken: false }
    }

    /// Whether a read waits in the slot.
    pub fn is_taken(&self) -> (r: bool)
        ensures
            r == self@,
    {
        self.taken
    }

    /// Takes the slot if it is free, and says whether it did.
    pub fn try_acquire(&mut self) -> (r: bool)
        ensures
            r == !old(self)@,
            final(self)@,
    {
        if self.taken {
            false
        } else {
            self.taken = true;
            true
        }
    }

    /// Gives the slot back.
    pub fn release(&mut self)
        ensures
            !final(self)@,
    {
        self.taken = false;
    }
}

} // verus!
