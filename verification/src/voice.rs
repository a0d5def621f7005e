//! Messages of the voice gateway.
use vstd::prelude::*;

verus! {

/// A message sent to or received from the voice gateway, as text.
#[derive(Debug, Clone, PartialEq, Eq)]
pub struct VoiceGatewayMessage(pub String);

/// A websocket message as the browser websocket transport delivers it.
#[derive(Debug, Clone, PartialEq, Eq)]
pub enum WsMessage {
    Text(String),
    Binary(Vec<u8>),
}

/// The text of the voice gateway message that a websocket message carries: its text, or an
/// empty text for a binary message (whose bytes are not read).
pub open spec fn carried_text(value: WsMessage) -> Seq<char> {
    match value {
        WsMessage::Text(t) => t@,
        WsMessage::Binary(_) => Seq::empty(),
    }
}

impl VoiceGatewayMessage {
    /// The websocket message that carries this voice gateway message: its text.
    pub fn into_ws_message(self) -> (res: WsMessage)
        ensures
            res == WsMessage::Text(self.0),
    {
        WsMessage::Text(self.0)
    }

    /// The voice gateway message that a websocket message carries: its text, or an empty
    /// text for a binary message (whose bytes are not read).
    pub fn from_ws_message(value: WsMessage) -> (res: VoiceGatewayMessage)
        ensures
            res.0@ == carried_text(value),
            value matches WsMessage::Text(t) ==> res.0 == t,
    {
        match value {
            WsMessage::Text(text) => VoiceGatewayMessage(text),
            WsMessage::Binary(_bin) => VoiceGatewayMessage(String::new()),
        }
    }
}

} // verus!

verus! {

/// A voice gateway message sent over a websocket comes back unchanged.
pub proof fn lemma_voice_round_trip(m: VoiceGatewayMessage)
    ensures
        carried_text(WsMessage::Text(m.0)) == m.0@,
{
}

} // verus!
