//! Glove side of the link: the decisions of the client loop, from joining
//! the network to writing one frame per instruction.

use vstd::prelude::*;
use crate::custom_hid::{frame_of, HidInstruction, HidInstructionArr};
use crate::definitions::{JOIN_RETRY_MS, JOIN_TIMEOUT_SECS, SOCKET_TIMEOUT_SECS, TCP_ENDPOINT};

verus! {

/// Where the client loop stands.
#[derive(Clone, Copy, Debug, PartialEq, Eq, Structural)]
pub enum ClientState {
    /// Not on the network; pausing before the next attempt to join.
    Disconnected,
    /// An attempt to join the wireless network is under way.
    Associating,
    /// Joined; waiting for the link to come up.
    LinkWait,
    /// Link up; waiting for the address configuration.
    DhcpWait,
    /// Opening the TCP connection to the dongle.
    Connecting,
    /// Connected; instructions are taken from the queue and written.
    Connected,
}

/// What the network or the queue reported back to the client loop.
#[derive(Clone, Copy, Debug, PartialEq, Eq)]
pub enum ClientEvent {
    /// The loop was started.
    Started,
    /// The pause before the next attempt to join is over.
    RetryElapsed,
    /// The network was joined.
    Joined,
    /// Joining failed.
    JoinFailed,
    /// Joining took longer than allowed.
    JoinTimedOut,
    /// The link came up.
    LinkUp,
    /// The address configuration is in place.
    ConfigUp,
    /// The TCP connection stands.
    ConnectOk,
    /// The TCP connection could not be opened.
    ConnectFailed,
    /// The queue handed over this instruction.
    Dequeued(HidInstruction),
    /// The frame was written.
    Written,
    /// Writing the frame failed.
    WriteFailed,
}

/// What the client loop does next.
#[derive(Clone, Copy, Debug, PartialEq, Eq)]
pub enum ClientAction {
    /// Drop any association, then join the network within this many seconds.
    Join { timeout_secs: u64 },
    /// Pause for this many milliseconds before the next attempt to join.
    WaitRetry { millis: u64 },
    /// Wait for the link to come up.
    WaitLink,
    /// Wait for the address configuration.
    WaitConfig,
    /// Open a socket with this idle timeout and connect to the dongle on
    /// this port.
    Connect { port: u16, idle_timeout_secs: u64 },
    /// Take the next instruction from the queue.
    Dequeue,
    /// Write this frame to the connection.
    Write(HidInstructionArr),
}

/// What a state is there to do.
pub open spec fn client_duty(state: ClientState) -> ClientAction {
    match state {
        ClientState::Disconnected => ClientAction::WaitRetry { millis: JOIN_RETRY_MS },
        ClientState::Associating => ClientAction::Join { timeout_secs: JOIN_TIMEOUT_SECS },
        ClientState::LinkWait => ClientAction::WaitLink,
        ClientState::DhcpWait => ClientAction::WaitConfig,
        ClientState::Connecting => ClientAction::Connect {
            port: TCP_ENDPOINT,
            idle_timeout_secs: SOCKET_TIMEOUT_SECS,
        },
        ClientState::Connected => ClientAction::Dequeue,
    }
}

/// The state after an event. An event that a state does not wait for leaves
/// it as it is.
pub open spec fn client_next(state: ClientState, event: ClientEvent) -> ClientState {
    match (state, event) {
        (ClientState::Disconnected, ClientEvent::Started) => ClientState::Associating,
        (ClientState::Disconnected, ClientEvent::RetryElapsed) => ClientState::Associating,
        (ClientState::Associating, ClientEvent::Joined) => ClientState::LinkWait,
        (ClientState::Associating, ClientEvent::JoinFailed) => ClientState::Disconnected,
        (ClientState::Associating, ClientEvent::JoinTimedOut) => ClientState::Disconnected,
        (ClientState::LinkWait, ClientEvent::LinkUp) => ClientState::DhcpWait,
        (ClientState::DhcpWait, ClientEvent::ConfigUp) => ClientState::Connecting,
        (ClientState::Connecting, ClientEvent::ConnectOk) => ClientState::Connected,
        (ClientState::Connected, ClientEvent::WriteFailed) => ClientState::Connecting,
        _ => state,
    }
}

/// The instruction that is to be written after an event, if any: the one
/// that the queue handed over while connected.
pub open spec fn client_sends(state: ClientState, event: ClientEvent) -> Option<HidInstruction> {
    match (state, event) {
        (ClientState::Connected, ClientEvent::Dequeued(x)) => Some(x),
        _ => None,
    }
}

/// `action` is the action after `event`: the frame of the instruction to be
/// written, or else the new state's duty.
pub open spec fn client_acts(state: ClientState, event: ClientEvent, action: ClientAction) -> bool {
    match client_sends(state, event) {
        Some(x) => action matches ClientAction::Write(frame) && frame@ == frame_of(x),
        None => action == client_duty(client_next(state, event)),
    }
}

/// Whether the status light is on: while the dongle is connected.
pub open spec fn client_led(state: ClientState) -> bool {
    state == ClientState::Connected
}

fn duty_of(state: ClientState) -> (action: ClientAction)
    ensures
        action == client_duty(state),
{
    match state {
        ClientState::Disconnected => ClientAction::WaitRetry { millis: JOIN_RETRY_MS },
        ClientState::Associating => ClientAction::Join { timeout_secs: JOIN_TIMEOUT_SECS },
        ClientState::LinkWait => ClientAction::WaitLink,
        ClientState::DhcpWait => ClientAction::WaitConfig,
        ClientState::Connecting => ClientAction::Connect {
            port: TCP_ENDPOINT,
            idle_timeout_secs: SOCKET_TIMEOUT_SECS,
        },
        ClientState::Connected => ClientAction::Dequeue,
    }
}

/// Decides what the client loop does after `event`.
pub fn client_step(state: ClientState, event: ClientEvent) -> (step: (ClientState, ClientAction))
    ensures
        step.0 == client_next(state, event),
        client_acts(state, event, step.1),
{
    let next = match (state, event) {
        (ClientState::Disconnected, ClientEvent::Started) => ClientState::Associating,
        (ClientState::Disconnected, ClientEvent::RetryElapsed) => ClientState::Associating,
        (ClientState::Associating, ClientEvent::Joined) => ClientState::LinkWait,
        (ClientState::Associating, ClientEvent::JoinFailed) => ClientState::Disconnected,
        (ClientState::Associating, ClientEvent::JoinTimedOut) => ClientState::Disconnected,
        (ClientState::LinkWait, ClientEvent::LinkUp) => ClientState::DhcpWait,
        (ClientState::DhcpWait, ClientEvent::ConfigUp) => ClientState::Connecting,
        (ClientState::Connecting, ClientEvent::ConnectOk) => ClientState::Connected,
        (ClientState::Connected, ClientEvent::WriteFailed) => ClientState::Connecting,
        (_, _) => state,
    };
    let action = match (state, event) {
        (ClientState::Connected, ClientEvent::Dequeued(x)) => ClientAction::Write(x.to_be_bytes()),
        (_, _) => duty_of(next),
    };
    (next, action)
}

/// Whether the status light is on in `state`.
pub fn client_status_led(state: ClientState) -> (on: bool)
    ensures
        on == client_led(state),
{
    match state {
        ClientState::Connected => true,
        _ => false,
    }
}

/// Joining never gives up. A failed or overlong attempt leads to the pause,
/// and the end of the pause to the next attempt.
pub proof fn lemma_client_retries_join(failure: ClientEvent)
    requires
        failure == ClientEvent::JoinFailed || failure == ClientEvent::JoinTimedOut,
    ensures
        client_next(ClientState::Associating, failure) == ClientState::Disconnected,
        client_acts(
            ClientState::Associating,
            failure,
            ClientAction::WaitRetry { millis: JOIN_RETRY_MS },
        ),
        client_next(ClientState::Disconnected, ClientEvent::RetryElapsed)
            == ClientState::Associating,
        client_acts(
            ClientState::Disconnected,
            ClientEvent::RetryElapsed,
            ClientAction::Join { timeout_secs: JOIN_TIMEOUT_SECS },
        ),
{
}

/// A frame is written only over a standing connection, and it is the frame
/// of the instruction that the queue has just handed over.
pub proof fn lemma_client_writes_when_connected(
    state: ClientState,
    event: ClientEvent,
    action: ClientAction,
    frame: HidInstructionArr,
)
    requires
        client_acts(state, event, action),
        action == ClientAction::Write(frame),
    ensures
        state == ClientState::Connected,
        client_next(state, event) == ClientState::Connected,
        event matches ClientEvent::Dequeued(x) && frame@ == frame_of(x),
{
}

/// A failure on the connection costs the connection only. A failed connect
/// is tried again and a failed write leads to a new connect; neither takes
/// the loop back to joining the network.
pub proof fn lemma_client_reconnects(state: ClientState, failure: ClientEvent)
    requires
        state == ClientState::Connecting || state == ClientState::Connected,
        failure == ClientEvent::ConnectFailed || failure == ClientEvent::WriteFailed,
    ensures
        client_next(state, failure) == ClientState::Connecting || client_next(state, failure)
            == state,
        client_next(state, failure) == ClientState::Connecting ==> client_acts(
            state,
            failure,
            ClientAction::Connect { port: TCP_ENDPOINT, idle_timeout_secs: SOCKET_TIMEOUT_SECS },
        ),
{
}

} // verus!
