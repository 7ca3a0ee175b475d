use vstd::prelude::*;
use vstd::string::*;

verus! {

/// A frame that the player's browser sent over the websocket.
#[derive(Debug)]
pub enum ClientFrame {
    /// A ping with its payload.
    Ping(Vec<u8>),
    /// A chat message of the player.
    Text(String),
    /// Anything else: binary data, a close frame, a continuation, ...
    Other,
}

/// What the server does with a frame of the client.
#[derive(Debug)]
pub enum RelayAction {
    /// Answer the ping with a pong carrying the same payload.
    Pong(Vec<u8>),
    /// Hand the message on to the model.
    Forward(String),
    /// Stop reading from the client.
    Stop,
}

/// Routes a frame of the client: a ping is answered with its own payload, a
/// text goes on to the model unchanged, and anything else ends the relay.
pub fn route_client_frame(frame: ClientFrame) -> (a: RelayAction)
    ensures
        match frame {
            ClientFrame::Ping(p) => a matches RelayAction::Pong(q) && q@ == p@,
            ClientFrame::Text(t) => a matches RelayAction::Forward(u) && u@ == t@,
            ClientFrame::Other => a is Stop,
        },
{
    match frame {
        ClientFrame::Ping(payload) => RelayAction::Pong(payload),
        ClientFrame::Text(text) => RelayAction::Forward(text),
        ClientFrame::Other => RelayAction::Stop,
    }
}

/// The address of the game's websocket on the host the page came from.
pub fn websocket_url(hostname: &str) -> (u: String)
    ensures
        u@ == "ws://"@ + hostname@ + ":8080/websocket"@,
{
    let mut u = String::from_str("ws://");
    u.append(hostname);
    u.append(":8080/websocket");
    u
}

} // verus!
