//! The lobby's router: one event at a time, each handled to completion.

use crate::lobby::handlers::connected::handle_connected_event;
use crate::lobby::handlers::disconnected::handle_disconnected_event;
use crate::lobby::handlers::received::{handle_received_event, received};
use crate::lifecycle::{Incoming, IncomingView};
use crate::lobby::protocol::{decode_command, decoded_command, Command, CommandView, Event};
use crate::lobby::state::{LobbyView, RouterState};
use vstd::prelude::*;

verus! {

/// Whether `post` can be the state of the lobby after `event` was handled
/// in the state `pre`.
pub open spec fn stepped(pre: LobbyView, event: Event, post: LobbyView) -> bool {
    match event {
        Event::Connected { client_id, out_tx } => post == pre || post == pre.connect(
            client_id,
            out_tx,
        ),
        Event::Received { client_id, command } => received(pre, client_id, command@, post),
        Event::Disconnected { client_id } => post == pre.disconnect(client_id),
    }
}

/// Handles one event of the lobby to completion.
pub fn handle_event(router_state: &mut RouterState, event: Event)
    ensures
        stepped(old(router_state)@, event, final(router_state)@),
{
    match event {
        Event::Connected { client_id, out_tx } => {
            handle_connected_event(router_state, client_id, out_tx);
        },
        Event::Received { client_id, command } => {
            handle_received_event(router_state, client_id, command);
        },
        Event::Disconnected { client_id } => {
            handle_disconnected_event(router_state, client_id);
        },
    }
}

/// What the reader of a connection to the lobby does next.
#[derive(Debug, PartialEq, Eq)]
pub enum ReaderStep {
    /// Report the command to the lobby and go on reading.
    Forward(Command),
    /// Drop what was delivered and go on reading.
    Skip,
    /// Stop reading and report the connection as disconnected.
    Finish,
}

/// The mathematical value of a [`ReaderStep`].
pub enum ReaderStepView {
    Forward(CommandView),
    Skip,
    Finish,
}

impl View for ReaderStep {
    type V = ReaderStepView;

    open spec fn view(&self) -> ReaderStepView {
        match *self {
            ReaderStep::Forward(command) => ReaderStepView::Forward(command@),
            ReaderStep::Skip => ReaderStepView::Skip,
            ReaderStep::Finish => ReaderStepView::Finish,
        }
    }
}

/// The step that follows a delivery: a text frame that holds a command of
/// the lobby is forwarded, one that does not is dropped, and so is a frame
/// of another kind; a close frame, a transport error and the end of the
/// stream finish the reader.
pub open spec fn step_after(incoming: IncomingView) -> ReaderStepView {
    match incoming {
        IncomingView::Text(text) => match decoded_command(text) {
            Some(command) => ReaderStepView::Forward(command),
            None => ReaderStepView::Skip,
        },
        IncomingView::Other => ReaderStepView::Skip,
        IncomingView::Close => ReaderStepView::Finish,
        IncomingView::Failure => ReaderStepView::Finish,
        IncomingView::End => ReaderStepView::Finish,
    }
}

/// Decides what the reader of a connection to the lobby does about what its
/// transport delivered.
pub fn reader_step(incoming: Incoming) -> (step: ReaderStep)
    ensures
        step@ == step_after(incoming@),
{
    match incoming {
        Incoming::Text(text) => match decode_command(text.as_str()) {
            Some(command) => ReaderStep::Forward(command),
            None => ReaderStep::Skip,
        },
        Incoming::Other => ReaderStep::Skip,
        Incoming::Close => ReaderStep::Finish,
        Incoming::Failure => ReaderStep::Finish,
        Incoming::End => ReaderStep::Finish,
    }
}

} // verus!
