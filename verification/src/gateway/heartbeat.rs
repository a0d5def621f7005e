//! The heartbeat task: when to send a heartbeat, and which sequence number it carries.
use vstd::prelude::*;

use super::message::{GATEWAY_HEARTBEAT, GATEWAY_HEARTBEAT_ACK};
use crate::api::types::GatewayHeartbeat;

verus! {

/// How long (in milliseconds) to wait for a heartbeat to be acknowledged before sending
/// another one.
pub const HEARTBEAT_ACK_TIMEOUT: u64 = 2000;

/// What the listener tells the heartbeat task: a sequence number update, a heartbeat
/// acknowledgement, or a request by the server for a heartbeat.
#[derive(Clone, Copy, Debug, PartialEq, Eq, Structural)]
pub struct HeartbeatThreadCommunication {
    /// The opcode of the message that the communication is about, if relevant.
    pub op_code: Option<u8>,
    /// The sequence number received, if any.
    pub sequence_number: Option<u64>,
}

/// What the heartbeat task remembers between heartbeats.
#[derive(Clone, Copy, Debug, PartialEq, Eq, Structural)]
pub struct HeartbeatState {
    /// Whether the last heartbeat sent was acknowledged.
    pub last_heartbeat_acknowledged: bool,
    /// The last sequence number received from the gateway.
    pub last_seq_number: Option<u64>,
}

/// What wakes the heartbeat task up.
#[derive(Clone, Copy, Debug, PartialEq, Eq, Structural)]
pub enum HeartbeatEvent {
    /// The task was told to stop.
    Killed,
    /// The time to the next heartbeat ran out.
    TimerElapsed,
    /// The listener passed something on.
    Received(HeartbeatThreadCommunication),
    /// Sending the last heartbeat failed: the websocket is broken.
    SendFailed,
}

/// What the heartbeat task does next.
#[derive(Clone, Copy, Debug, PartialEq, Eq)]
pub enum HeartbeatAction {
    /// Stop the task.
    Stop,
    /// Wait for the next event.
    Wait,
    /// Send this heartbeat.
    Send(GatewayHeartbeat),
}

/// The state after an event, and whether a heartbeat is due. A heartbeat is due when the
/// timer runs out or the server asks for one; an acknowledgement is remembered; a sequence
/// number replaces the last one. Sending a heartbeat leaves it unacknowledged. The task
/// stops when it is told to or when a heartbeat could not be sent.
pub open spec fn spec_heartbeat_step(s: HeartbeatState, e: HeartbeatEvent) -> (HeartbeatState, HeartbeatAction) {
    match e {
        HeartbeatEvent::Killed => (s, HeartbeatAction::Stop),
        HeartbeatEvent::SendFailed => (s, HeartbeatAction::Stop),
        HeartbeatEvent::TimerElapsed => (
            HeartbeatState { last_heartbeat_acknowledged: false, ..s },
            HeartbeatAction::Send(GatewayHeartbeat { op: GATEWAY_HEARTBEAT, d: s.last_seq_number }),
        ),
        HeartbeatEvent::Received(c) => {
            let seq = if c.sequence_number is Some {
                c.sequence_number
            } else {
                s.last_seq_number
            };
            let acked = if c.op_code == Some(GATEWAY_HEARTBEAT_ACK) {
                true
            } else {
                s.last_heartbeat_acknowledged
            };
            if c.op_code == Some(GATEWAY_HEARTBEAT) {
                (
                    HeartbeatState { last_heartbeat_acknowledged: false, last_seq_number: seq },
                    HeartbeatAction::Send(GatewayHeartbeat { op: GATEWAY_HEARTBEAT, d: seq }),
                )
            } else {
                (
                    HeartbeatState { last_heartbeat_acknowledged: acked, last_seq_number: seq },
                    HeartbeatAction::Wait,
                )
            }
        },
    }
}

impl HeartbeatState {
    /// The state of a task that has not sent anything yet.
    pub fn new() -> (res: HeartbeatState)
        ensures
            res.last_heartbeat_acknowledged,
            res.last_seq_number is None,
    {
        HeartbeatState { last_heartbeat_acknowledged: true, last_seq_number: None }
    }

    /// How long to wait before the next heartbeat: the gateway's interval if the last
    /// heartbeat was acknowledged, the acknowledgement timeout otherwise.
    pub fn timeout_ms(&self, heartbeat_interval_ms: u64) -> (res: u64)
        ensures
            res == if self.last_heartbeat_acknowledged {
                heartbeat_interval_ms
            } else {
                HEARTBEAT_ACK_TIMEOUT
            },
    {
        if self.last_heartbeat_acknowledged {
            heartbeat_interval_ms
        } else {
            HEARTBEAT_ACK_TIMEOUT
        }
    }

    /// Takes one event into account and says what to do next.
    pub fn step(&mut self, event: HeartbeatEvent) -> (res: HeartbeatAction)
        ensures
            (*final(self), res) == spec_heartbeat_step(*old(self), event),
    {
        let mut should_send = false;
        match event {
            HeartbeatEvent::Killed => {
                return HeartbeatAction::Stop;
            },
            HeartbeatEvent::SendFailed => {
                return HeartbeatAction::Stop;
            },
            HeartbeatEvent::TimerElapsed => {
                should_send = true;
            },
            HeartbeatEvent::Received(communication) => {
                if communication.sequence_number.is_some() {
                    self.last_seq_number = communication.sequence_number;
                }
                if let Some(op_code) = communication.op_code {
                    if op_code == GATEWAY_HEARTBEAT {
                        should_send = true;
                    } else if op_code == GATEWAY_HEARTBEAT_ACK {
                        self.last_heartbeat_acknowledged = true;
                    }
                }
            },
        }
        if should_send {
            let heartbeat = GatewayHeartbeat { op: GATEWAY_HEARTBEAT, d: self.last_seq_number };
            self.last_heartbeat_acknowledged = false;
            return HeartbeatAction::Send(heartbeat);
        }
        HeartbeatAction::Wait
    }
}

} // verus!

verus! {

/// Every heartbeat carries the last sequence number received, and is unacknowledged once
/// sent; and the task stops exactly when it is told to or a heartbeat could not be sent.
pub proof fn lemma_heartbeat_carries_last_sequence(s: HeartbeatState, e: HeartbeatEvent)
    ensures
        spec_heartbeat_step(s, e).1 matches HeartbeatAction::Send(h) ==> h.d
            == spec_heartbeat_step(s, e).0.last_seq_number && h.op == GATEWAY_HEARTBEAT
            && !spec_heartbeat_step(s, e).0.last_heartbeat_acknowledged,
        spec_heartbeat_step(s, e).1 is Stop <==> (e is Killed || e is SendFailed),
{
}

/// A sequence number passed on by the listener is the one the next heartbeat carries, and a
/// communication without one keeps the last.
pub proof fn lemma_heartbeat_sequence_update(s: HeartbeatState, c: HeartbeatThreadCommunication)
    ensures
        c.sequence_number is Some ==> spec_heartbeat_step(s, HeartbeatEvent::Received(c)).0.last_seq_number
            == c.sequence_number,
        c.sequence_number is None ==> spec_heartbeat_step(s, HeartbeatEvent::Received(c)).0.last_seq_number
            == s.last_seq_number,
{
}

/// After an acknowledgement, heartbeats go back to the gateway's interval; after a
/// heartbeat is sent, the next one is due after the acknowledgement timeout unless it is
/// acknowledged first.
pub proof fn lemma_heartbeat_acknowledgement(s: HeartbeatState, seq: Option<u64>)
    ensures
        spec_heartbeat_step(
            s,
            HeartbeatEvent::Received(
                HeartbeatThreadCommunication { op_code: Some(GATEWAY_HEARTBEAT_ACK), sequence_number: seq },
            ),
        ).0.last_heartbeat_acknowledged,
        !spec_heartbeat_step(s, HeartbeatEvent::TimerElapsed).0.last_heartbeat_acknowledged,
{
}

} // verus!

verus! {

/// Only an acknowledgement or sending a heartbeat changes whether the last heartbeat counts
/// as acknowledged: any other communication from the listener (a sequence number, an
/// unrelated opcode) leaves the flag, and so the wait before the next heartbeat, as it was,
/// and sends nothing.
pub proof fn lemma_only_acks_and_sends_change_acknowledgement(s: HeartbeatState, c: HeartbeatThreadCommunication)
    requires
        c.op_code != Some(GATEWAY_HEARTBEAT),
        c.op_code != Some(GATEWAY_HEARTBEAT_ACK),
    ensures
        spec_heartbeat_step(s, HeartbeatEvent::Received(c)).0.last_heartbeat_acknowledged
            == s.last_heartbeat_acknowledged,
        spec_heartbeat_step(s, HeartbeatEvent::Received(c)).1 == HeartbeatAction::Wait,
{
}

/// A heartbeat request from the server is answered at once with a heartbeat that carries
/// the newest sequence number, and an elapsed timer sends one with the last sequence number
/// received; both leave the heartbeat unacknowledged.
pub proof fn lemma_heartbeat_sent_when_due(s: HeartbeatState, seq: Option<u64>)
    ensures
        spec_heartbeat_step(s, HeartbeatEvent::TimerElapsed) == (
            HeartbeatState { last_heartbeat_acknowledged: false, last_seq_number: s.last_seq_number },
            HeartbeatAction::Send(GatewayHeartbeat { op: 1, d: s.last_seq_number }),
        ),
        spec_heartbeat_step(
            s,
            HeartbeatEvent::Received(HeartbeatThreadCommunication { op_code: Some(1), sequence_number: seq }),
        ).1 == HeartbeatAction::Send(
            GatewayHeartbeat { op: 1, d: if seq is Some { seq } else { s.last_seq_number } },
        ),
        spec_heartbeat_step(
            s,
            HeartbeatEvent::Received(HeartbeatThreadCommunication { op_code: Some(11), sequence_number: seq }),
        ).0.last_heartbeat_acknowledged,
{
}

} // verus!
