//! The decisions of a client connection: what to do with each frame the
//! client sends, and with each event broadcast to every connection.
use vstd::prelude::*;

use crate::datatypes::{ClientMessage, ClientPayload, ServerEvent, ServerMessage, ServerPayload};

verus! {

/// The user every connection acts for until sessions are confirmed.
pub const CONNECTION_USER: u32 = 1;

/// A frame received from the client.
#[derive(Debug)]
pub enum ClientFrame {
    /// A binary frame, decoded as a client message.
    Message(ClientMessage),
    /// The client closed the connection.
    Close,
    /// Receiving failed.
    ReceiveError,
    /// Any other frame (text, ping, pong).
    Other,
}

/// What the connection does next.
#[derive(Debug, PartialEq, Eq)]
pub enum ConnectionAction {
    /// Send the client everything changed since `last_sync`, as `user_id`.
    Sync { last_sync: u32, user_id: u32 },
    /// Record an address as visited or not, then announce it to everyone.
    CompleteAddress { address_id: u32, checked: bool, announce: ServerEvent },
    /// Stop serving the connection.
    Disconnect,
    /// Nothing to do; wait for the next frame or event.
    Continue,
}

/// What the connection does with a frame from the client: a sync request is
/// served (as `CONNECTION_USER`), an address completion is recorded and
/// announced, a close ends the connection, and anything else (a login or
/// token request on this channel, a failed receive, other frames) is passed
/// over.
pub open spec fn spec_frame_action(frame: ClientFrame) -> ConnectionAction {
    match frame {
        ClientFrame::Message(message) => match message.payload {
            ClientPayload::RequestSync(last_sync) => ConnectionAction::Sync {
                last_sync,
                user_id: CONNECTION_USER,
            },
            ClientPayload::CompleteAddress { id, checked } => ConnectionAction::CompleteAddress {
                address_id: id,
                checked,
                announce: ServerEvent::AddressCompleted { id, checked },
            },
            _ => ConnectionAction::Continue,
        },
        ClientFrame::Close => ConnectionAction::Disconnect,
        ClientFrame::ReceiveError => ConnectionAction::Continue,
        ClientFrame::Other => ConnectionAction::Continue,
    }
}

/// Decides what the connection does with a frame from the client.
pub fn frame_action(frame: ClientFrame) -> (action: ConnectionAction)
    ensures
        action == spec_frame_action(frame),
{
    match frame {
        ClientFrame::Message(message) => match message.payload {
            ClientPayload::RequestSync(last_sync) => ConnectionAction::Sync {
                last_sync,
                user_id: CONNECTION_USER,
            },
            ClientPayload::CompleteAddress { id, checked } => ConnectionAction::CompleteAddress {
                address_id: id,
                checked,
                announce: ServerEvent::AddressCompleted { id, checked },
            },
            _ => ConnectionAction::Continue,
        },
        ClientFrame::Close => ConnectionAction::Disconnect,
        ClientFrame::ReceiveError => ConnectionAction::Continue,
        ClientFrame::Other => ConnectionAction::Continue,
    }
}

/// The message a connection sends its client when an event is broadcast,
/// stamped with `timestamp` and carrying the event's id.
pub open spec fn spec_event_message(event: ServerEvent, timestamp: u32) -> ServerMessage {
    match event {
        ServerEvent::AddressCompleted { id, checked } => ServerMessage {
            id,
            timestamp,
            payload: ServerPayload::AddressCompleted { id, checked },
        },
    }
}

/// Builds the message a connection sends its client for a broadcast event.
pub fn event_message(event: ServerEvent, timestamp: u32) -> (message: ServerMessage)
    ensures
        message == spec_event_message(event, timestamp),
{
    match event {
        ServerEvent::AddressCompleted { id, checked } => ServerMessage {
            id,
            timestamp,
            payload: ServerPayload::AddressCompleted { id, checked },
        },
    }
}

/// An address completed by one client is announced to every client with the
/// same address and state: the event the connection broadcasts becomes, on
/// every connection and whatever its clock says, a message that carries them
/// unchanged.
pub proof fn completion_reaches_clients_unchanged(
    message: ClientMessage,
    address_id: u32,
    checked: bool,
    timestamp: u32,
)
    requires
        message.payload == (ClientPayload::CompleteAddress { id: address_id, checked }),
    ensures
        spec_frame_action(ClientFrame::Message(message)) matches ConnectionAction::CompleteAddress {
            address_id: a,
            checked: c,
            announce,
        } && a == address_id && c == checked && spec_event_message(announce, timestamp) == (
        ServerMessage {
            id: address_id,
            timestamp,
            payload: ServerPayload::AddressCompleted { id: address_id, checked },
        }),
{
}

} // verus!
