//! The life of a connection outside the router: the acceptor that names it
//! and the reader that turns its frames into events.
//!
//! The tasks themselves wait on sockets and queues; what they decide between
//! two waits is decided here.

use crate::protocol::{Command, CommandView};
use crate::wire::{decode_command, decoded_command};
use vstd::prelude::*;

verus! {

/// The acceptor's supply of connection identifiers: a counter that starts at
/// zero and only grows, so that no identifier is handed out twice.
pub struct ConnectionIds {
    next: u64,
}

impl ConnectionIds {
    /// The identifier that will be issued next.
    pub closed spec fn upcoming(&self) -> u64 {
        self.next
    }

    /// A supply that has issued nothing yet.
    pub fn new() -> (ids: ConnectionIds)
        ensures
            ids.upcoming() == 0,
    {
        ConnectionIds { next: 0 }
    }

    /// Whether the supply has run out: the next identifier would be the last
    /// that 64 bits can hold.
    pub fn is_exhausted(&self) -> (r: bool)
        ensures
            r == (self.upcoming() == u64::MAX),
    {
        self.next == u64::MAX
    }

    /// Issues the next identifier.  Every identifier issued later is
    /// greater.
    pub fn issue(&mut self) -> (id: u64)
        requires
            old(self).upcoming() < u64::MAX,
        ensures
            id == old(self).upcoming(),
            final(self).upcoming() == id + 1,
    {
        let id = self.next;
        self.next = self.next + 1;
        id
    }
}

/// What the transport of a connection delivered to its reader.
#[derive(Debug, PartialEq, Eq)]
pub enum Incoming {
    /// A text frame.
    Text(String),
    /// A close frame.
    Close,
    /// A frame of another kind.
    Other,
    /// A transport error.
    Failure,
    /// Nothing more: the stream has ended.
    End,
}

/// The mathematical value of an [`Incoming`].
pub enum IncomingView {
    Text(Seq<char>),
    Close,
    Other,
    Failure,
    End,
}

impl View for Incoming {
    type V = IncomingView;

    open spec fn view(&self) -> IncomingView {
        match *self {
            Incoming::Text(text) => IncomingView::Text(text@),
            Incoming::Close => IncomingView::Close,
            Incoming::Other => IncomingView::Other,
            Incoming::Failure => IncomingView::Failure,
            Incoming::End => IncomingView::End,
        }
    }
}

/// What the reader of a connection does next.
#[derive(Debug, PartialEq, Eq)]
pub enum ReaderStep {
    /// Report the command to the router and go on reading.
    Forward(Command),
    /// Drop what was delivered and go on reading.
    Skip,
    /// Stop reading and report the connection as disconnected.
    Finish,
}

/// The mathematical value of a [`ReaderStep`].
pub enum ReaderStepView {
    Forward(CommandView),
    Skip,
    Finish,
}

impl View for ReaderStep {
    type V = ReaderStepView;

    open spec fn view(&self) -> ReaderStepView {
        match *self {
            ReaderStep::Forward(command) => ReaderStepView::Forward(command@),
            ReaderStep::Skip => ReaderStepView::Skip,
            ReaderStep::Finish => ReaderStepView::Finish,
        }
    }
}

/// The step that follows a delivery: a text frame that holds a command is
/// forwarded, one that does not is dropped, and so is a frame of another
/// kind; a close frame, a transport error and the end of the stream finish
/// the reader.
pub open spec fn step_after(incoming: IncomingView) -> ReaderStepView {
    match incoming {
        IncomingView::Text(text) => match decoded_command(text) {
            Some(command) => ReaderStepView::Forward(command),
            None => ReaderStepView::Skip,
        },
        IncomingView::Other => ReaderStepView::Skip,
        IncomingView::Close => ReaderStepView::Finish,
        IncomingView::Failure => ReaderStepView::Finish,
        IncomingView::End => ReaderStepView::Finish,
    }
}

/// Decides what the reader of a connection does about what its transport
/// delivered.
pub fn reader_step(incoming: Incoming) -> (step: ReaderStep)
    ensures
        step@ == step_after(incoming@),
{
    match incoming {
        Incoming::Text(text) => match decode_command(text.as_str()) {
            Some(command) => ReaderStep::Forward(command),
            None => ReaderStep::Skip,
        },
        Incoming::Other => ReaderStep::Skip,
        Incoming::Close => ReaderStep::Finish,
        Incoming::Failure => ReaderStep::Finish,
        Incoming::End => ReaderStep::Finish,
    }
}

/// What a reader reports, in order, when its transport delivers
/// `deliveries` and then ends: the commands it forwards, closed by one
/// `Finish`.  Nothing that is delivered after the reader has finished is
/// looked at.
pub open spec fn reports(deliveries: Seq<IncomingView>) -> Seq<ReaderStepView>
    decreases deliveries.len(),
{
    if deliveries.len() == 0 {
        seq![ReaderStepView::Finish]
    } else {
        match step_after(deliveries[0]) {
            ReaderStepView::Forward(command) => seq![ReaderStepView::Forward(command)] + reports(
                deliveries.drop_first(),
            ),
            ReaderStepView::Skip => reports(deliveries.drop_first()),
            ReaderStepView::Finish => seq![ReaderStepView::Finish],
        }
    }
}

/// A reader reports the end of its connection exactly once, and last:
/// whatever its transport delivers, the reports end with `Finish` and hold
/// nothing but forwarded commands before it.
pub proof fn lemma_reader_finishes_once(deliveries: Seq<IncomingView>)
    ensures
        reports(deliveries).len() >= 1,
        reports(deliveries).last() is Finish,
        forall|i: int|
            0 <= i < reports(deliveries).len() - 1 ==> (#[trigger] reports(
                deliveries,
            )[i]) is Forward,
    decreases deliveries.len(),
{
    if deliveries.len() > 0 {
        lemma_reader_finishes_once(deliveries.drop_first());
    }
}

} // verus!
