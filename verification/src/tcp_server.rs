//! Dongle side of the link: cutting the received bytes into frames, and the
//! decisions of the server loop.

use vstd::prelude::*;
use crate::custom_hid::{frame_of, instruction_of, HidInstruction, HidInstructionArr, lemma_decode_encode};
use crate::definitions::{SOCKET_TIMEOUT_SECS, TCP_ENDPOINT};

verus! {

/// The instructions that a run of received bytes carries: one per complete
/// 16-byte frame, in order. Bytes after the last complete frame carry
/// nothing.
pub open spec fn frames_in(received: Seq<u8>) -> Seq<HidInstruction> {
    Seq::new(
        (received.len() / 16) as nat,
        |i: int| instruction_of(received.subrange(16 * i, 16 * i + 16)),
    )
}

/// The bytes that a run of instructions is on the wire, frame after frame.
pub open spec fn stream_of(run: Seq<HidInstruction>) -> Seq<u8>
    decreases run.len(),
{
    if run.len() == 0 {
        Seq::empty()
    } else {
        stream_of(run.drop_last()) + frame_of(run.last())
    }
}

/// Decodes every complete frame of `received`, in order, and drops the
/// incomplete rest.
pub fn split_frames(received: &[u8]) -> (frames: Vec<HidInstruction>)
    ensures
        frames@ == frames_in(received@),
        frames.len() == received.len() / 16,
{
    let count: usize = received.len() / 16;
    let mut frames: Vec<HidInstruction> = Vec::new();
    let mut n: usize = 0;
    while n < count
        invariant
            count == received.len() / 16,
            n <= count,
            frames.len() == n,
            forall|i: int| 0 <= i < n ==> frames[i] == frames_in(received@)[i],
        decreases count - n,
    {
        let base: usize = n * 16;
        let mut frame: HidInstructionArr = [0u8; 16];
        let mut j: usize = 0;
        while j < 16
            invariant
                j <= 16,
                base == n * 16,
                base + 16 <= received.len(),
                forall|k: int| 0 <= k < j ==> frame[k] == received[base + k],
            decreases 16 - j,
        {
            frame[j] = received[base + j];
            j += 1;
        }
        assert(frame@ =~= received@.subrange(16 * n, 16 * n + 16));
        frames.push(HidInstruction::from_be_bytes(frame));
        n += 1;
    }
    assert(frames@ =~= frames_in(received@));
    frames
}

/// The wire stream of a run has sixteen bytes per instruction.
pub proof fn lemma_stream_len(run: Seq<HidInstruction>)
    ensures
        stream_of(run).len() == 16 * run.len(),
    decreases run.len(),
{
    if run.len() > 0 {
        lemma_stream_len(run.drop_last());
        lemma_decode_encode(run.last());
    }
}

/// The `i`-th frame of a run's wire stream is the frame of its `i`-th
/// instruction, whatever follows the stream.
pub proof fn lemma_stream_frame(run: Seq<HidInstruction>, tail: Seq<u8>, i: int)
    requires
        0 <= i < run.len(),
    ensures
        (stream_of(run) + tail).subrange(16 * i, 16 * i + 16) == frame_of(run[i]),
    decreases run.len(),
{
    let head = run.drop_last();
    lemma_stream_len(head);
    lemma_decode_encode(run.last());
    if i < run.len() - 1 {
        lemma_stream_frame(head, frame_of(run.last()) + tail, i);
        assert(stream_of(run) + tail =~= stream_of(head) + (frame_of(run.last()) + tail));
    } else {
        assert((stream_of(run) + tail).subrange(16 * i, 16 * i + 16) =~= frame_of(run[i]));
    }
}

/// What was sent arrives. Cutting the wire stream of a run of instructions
/// into frames gives back the same instructions in the same order, and fewer
/// than sixteen further bytes after the stream change nothing.
pub proof fn lemma_split_of_stream(run: Seq<HidInstruction>, tail: Seq<u8>)
    requires
        tail.len() < 16,
    ensures
        frames_in(stream_of(run) + tail) == run,
{
    lemma_stream_len(run);
    let received = stream_of(run) + tail;
    assert(received.len() / 16 == run.len());
    assert forall|i: int| 0 <= i < run.len() implies frames_in(received)[i] == run[i] by {
        lemma_stream_frame(run, tail, i);
        lemma_decode_encode(run[i]);
    }
    assert(frames_in(received) =~= run);
}

/// Where the server loop stands.
#[derive(Clone, Copy, Debug, PartialEq, Eq, Structural)]
pub enum ServerState {
    /// Joining the wireless network.
    Joining,
    /// Joined; waiting for the link to come up.
    LinkWait,
    /// Link up; waiting for the address configuration.
    DhcpWait,
    /// Waiting for the glove to connect.
    Listening,
    /// The glove is connected and its bytes are read.
    Connected,
}

/// What the network reported back to the server loop.
#[derive(Clone, Copy, Debug, PartialEq, Eq, Structural)]
pub enum ServerEvent {
    /// The network was joined.
    Joined,
    /// Joining failed.
    JoinFailed,
    /// The link came up.
    LinkUp,
    /// The address configuration is in place.
    ConfigUp,
    /// A connection was accepted.
    Accepted,
    /// Accepting failed.
    AcceptFailed,
    /// A read returned this many bytes; none means the peer closed.
    Received(usize),
    /// A read failed.
    ReadFailed,
    /// The instructions of the last read were handed on.
    Forwarded,
}

/// What the server loop does next.
#[derive(Clone, Copy, Debug, PartialEq, Eq, Structural)]
pub enum ServerAction {
    /// Join the wireless network.
    Join,
    /// Wait for the link to come up.
    WaitLink,
    /// Wait for the address configuration.
    WaitConfig,
    /// Open a socket with this idle timeout and accept one connection on
    /// this port.
    Listen { port: u16, idle_timeout_secs: u64 },
    /// Read from the connection.
    Read,
    /// Cut the bytes just read into frames and hand each instruction on.
    Forward,
}

/// Listening on the configured port with the configured idle timeout.
pub open spec fn server_listen() -> ServerAction {
    ServerAction::Listen { port: TCP_ENDPOINT, idle_timeout_secs: SOCKET_TIMEOUT_SECS }
}

/// What a state is there to do.
pub open spec fn server_duty(state: ServerState) -> ServerAction {
    match state {
        ServerState::Joining => ServerAction::Join,
        ServerState::LinkWait => ServerAction::WaitLink,
        ServerState::DhcpWait => ServerAction::WaitConfig,
        ServerState::Listening => server_listen(),
        ServerState::Connected => ServerAction::Read,
    }
}

/// The state after an event. An event that a state does not wait for leaves
/// it as it is.
pub open spec fn server_next(state: ServerState, event: ServerEvent) -> ServerState {
    match (state, event) {
        (ServerState::Joining, ServerEvent::Joined) => ServerState::LinkWait,
        (ServerState::LinkWait, ServerEvent::LinkUp) => ServerState::DhcpWait,
        (ServerState::DhcpWait, ServerEvent::ConfigUp) => ServerState::Listening,
        (ServerState::Listening, ServerEvent::Accepted) => ServerState::Connected,
        (ServerState::Connected, ServerEvent::ReadFailed) => ServerState::Listening,
        (ServerState::Connected, ServerEvent::Received(n)) => if n == 0 {
            ServerState::Listening
        } else {
            ServerState::Connected
        },
        _ => state,
    }
}

/// The action after an event: bytes that were read are forwarded, and
/// otherwise the new state's duty is taken up.
pub open spec fn server_action(state: ServerState, event: ServerEvent) -> ServerAction {
    match (state, event) {
        (ServerState::Connected, ServerEvent::Received(n)) => if n == 0 {
            server_listen()
        } else {
            ServerAction::Forward
        },
        _ => server_duty(server_next(state, event)),
    }
}

/// Whether the status light is on: while the glove is connected.
pub open spec fn server_led(state: ServerState) -> bool {
    state == ServerState::Connected
}

/// The state in which the server loop starts, and its first action.
pub fn server_start() -> (first: (ServerState, ServerAction))
    ensures
        first == (ServerState::Joining, ServerAction::Join),
{
    (ServerState::Joining, ServerAction::Join)
}

fn duty_of(state: ServerState) -> (action: ServerAction)
    ensures
        action == server_duty(state),
{
    match state {
        ServerState::Joining => ServerAction::Join,
        ServerState::LinkWait => ServerAction::WaitLink,
        ServerState::DhcpWait => ServerAction::WaitConfig,
        ServerState::Listening => ServerAction::Listen {
            port: TCP_ENDPOINT,
            idle_timeout_secs: SOCKET_TIMEOUT_SECS,
        },
        ServerState::Connected => ServerAction::Read,
    }
}

/// Decides what the server loop does after `event`.
pub fn server_step(state: ServerState, event: ServerEvent) -> (step: (ServerState, ServerAction))
    ensures
        step.0 == server_next(state, event),
        step.1 == server_action(state, event),
{
    let next = match (state, event) {
        (ServerState::Joining, ServerEvent::Joined) => ServerState::LinkWait,
        (ServerState::LinkWait, ServerEvent::LinkUp) => ServerState::DhcpWait,
        (ServerState::DhcpWait, ServerEvent::ConfigUp) => ServerState::Listening,
        (ServerState::Listening, ServerEvent::Accepted) => ServerState::Connected,
        (ServerState::Connected, ServerEvent::ReadFailed) => ServerState::Listening,
        (ServerState::Connected, ServerEvent::Received(n)) => {
            if n == 0 {
                ServerState::Listening
            } else {
                ServerState::Connected
            }
        },
        (_, _) => state,
    };
    let action = match (state, event) {
        (ServerState::Connected, ServerEvent::Received(n)) => {
            if n == 0 {
                duty_of(next)
            } else {
                ServerAction::Forward
            }
        },
        (_, _) => duty_of(next),
    };
    (next, action)
}

/// Whether the status light is on in `state`.
pub fn server_status_led(state: ServerState) -> (on: bool)
    ensures
        on == server_led(state),
{
    match state {
        ServerState::Connected => true,
        _ => false,
    }
}

/// A lost connection costs the connection only. Once the server listens or
/// is connected, no event takes it back to joining the network, and a
/// connection ends in listening again.
pub proof fn lemma_server_keeps_network(state: ServerState, event: ServerEvent)
    requires
        state == ServerState::Listening || state == ServerState::Connected,
    ensures
        server_next(state, event) == ServerState::Listening || server_next(state, event)
            == ServerState::Connected,
        server_led(state) && !server_led(server_next(state, event)) ==> server_action(state, event)
            == server_listen(),
{
}

/// Bytes are forwarded only from a connection that stays open, and only when
/// a read brought some.
pub proof fn lemma_server_forwards_what_was_read(state: ServerState, event: ServerEvent)
    ensures
        server_action(state, event) == ServerAction::Forward <==> state == ServerState::Connected
            && (event matches ServerEvent::Received(n) && n > 0),
        server_action(state, event) == ServerAction::Forward ==> server_next(state, event)
            == ServerState::Connected,
{
}

} // verus!
