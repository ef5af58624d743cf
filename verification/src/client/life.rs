//! The life of a client's session on its transport: opening, open,
//! closing, closed, and what is sent on the way.

use vstd::prelude::*;
use crate::client::{
    at_stage, disconnect_begins, gives_nothing, info_begins, logs_begin, users_begin, with_options,
    ClientModel, ClientPhase, Reply, Stage,
};
use crate::client::combined::resumed;
use crate::client::transport::TransportModel;
use crate::protocol::{cmd, lemma_header_round_trip, tcp_packet, udp_packet, word_at};
use crate::session::{lemma_sent_count_step, sends_command_at, sent_count_at, Purpose};
use crate::step::{Event, Step};
use crate::tcp::TcpPhase;
use crate::types::OptionsModel;
use crate::udp::UdpPhase;

verus! {

/// Where the header of a packet begins on a transport: behind the
/// envelope on a stream, at the start of a datagram.
pub open spec fn header_offset(t: TransportModel) -> int {
    match t {
        TransportModel::Tcp(_) => 8,
        TransportModel::Udp(_) => 0,
    }
}

/// Where the header of a packet begins on the transport of a client; -1
/// for a client without transport.
pub open spec fn client_offset(m: ClientModel) -> int {
    match m.transport {
        Some(t) => header_offset(t),
        None => -1,
    }
}

/// Whether the transport has been asked to open its connection and has
/// not sent anything yet.
pub open spec fn transport_opening(t: TransportModel) -> bool {
    match t {
        TransportModel::Tcp(a) => a.phase == TcpPhase::Dialing,
        TransportModel::Udp(a) => a.phase == UdpPhase::Binding,
    }
}

/// Whether the session of the transport is open and not about to close.
pub open spec fn transport_open(t: TransportModel) -> bool {
    match t {
        TransportModel::Tcp(a) => crate::tcp::laws::session_open(a),
        TransportModel::Udp(a) => crate::udp::laws::session_open(a),
    }
}

/// Whether the transport is closing its session: the exit command is
/// under way, or the connection is being closed.
pub open spec fn transport_closing(t: TransportModel) -> bool {
    match t {
        TransportModel::Tcp(a) => a.connected && (a.phase == TcpPhase::Closing || (a.purpose
            == Purpose::Exit && (a.phase == TcpPhase::Sending || a.phase
            == TcpPhase::Receiving))),
        TransportModel::Udp(a) => a.connected && (a.phase == UdpPhase::Closing || (a.purpose
            == Purpose::Exit && (a.phase == UdpPhase::Sending || a.phase
            == UdpPhase::Receiving))),
    }
}

/// What a caller does with a client that is connecting or connected.
pub enum ClientCall {
    /// `get_device_info`.
    Info,
    /// `get_users`.
    Users,
    /// `get_attendance_logs`, with the options.
    Logs(Option<OptionsModel>),
    /// `disconnect`.
    Disconnect,
    /// `resume`, with the outcome.
    Resume(Event),
}

/// What a call does to a client.
pub open spec fn client_called(
    pre: ClientModel,
    call: ClientCall,
    post: ClientModel,
    step: Step<Reply>,
) -> bool {
    let single = at_stage(pre, Stage::Single);
    match call {
        ClientCall::Info => info_begins(single, post, step),
        ClientCall::Users => users_begin(single, post, step),
        ClientCall::Logs(options) => logs_begin(with_options(single, options), post, step),
        ClientCall::Disconnect => disconnect_begins(single, post, step),
        ClientCall::Resume(event) => resumed(pre, event, post, step),
    }
}

/// Where the session of a client stands.
pub enum Life {
    /// The client connects, and authenticates if it has a key.
    Opening,
    /// The client is connected.
    Open,
    /// The client disconnects.
    Closing,
    /// The client has no transport.
    Closed,
    /// The client gives up connecting over this transport and closes it.
    Failing,
}

/// Whether a client, outside any combined operation, stands at `life`
/// with the transport whose packets have their header at `at`.
pub open spec fn lives(m: ClientModel, at: int, life: Life) -> bool {
    &&& m.stage == Stage::Single
    &&& match life {
        Life::Closed => m.transport is None && m.phase == ClientPhase::Idle,
        _ => m.transport matches Some(t) && header_offset(t) == at && match life {
            Life::Opening => (m.phase == ClientPhase::Connecting && (transport_opening(t)
                || transport_open(t))) || (m.phase == ClientPhase::Authenticating
                && transport_open(t)),
            Life::Open => transport_open(t) && (m.phase == ClientPhase::Idle || m.phase
                == ClientPhase::Info || m.phase == ClientPhase::InfoClock || m.phase
                == ClientPhase::Users || m.phase == ClientPhase::Logs),
            Life::Closing => m.phase == ClientPhase::Disconnecting && transport_closing(t),
            _ => m.phase == ClientPhase::AuthCleanup || (m.phase
                == ClientPhase::FallbackCleanup && t is Tcp),
        },
    }
}

/// Whether a step sends a packet with the given command, on the
/// transport whose packets have their header at `at`.
pub open spec fn sends(step: Step<Reply>, at: int, command: u16) -> bool {
    sends_command_at(step, at, command)
}

/// Every packet holds its command where its header begins.
pub proof fn lemma_packets_hold_their_command()
    ensures
        forall|c: u16, s: u16, r: u16, d: Seq<u8>|
            word_at(#[trigger] tcp_packet(c, s, r, d), 8) == c && tcp_packet(c, s, r, d).len()
                == 16 + d.len(),
        forall|c: u16, s: u16, r: u16, d: Seq<u8>|
            word_at(#[trigger] udp_packet(c, s, r, d), 0) == c && udp_packet(c, s, r, d).len() == 8
                + d.len(),
{
    assert forall|c: u16, s: u16, r: u16, d: Seq<u8>|
        word_at(#[trigger] tcp_packet(c, s, r, d), 8) == c && tcp_packet(c, s, r, d).len() == 16
            + d.len() by {
        lemma_header_round_trip(c, s, r, d);
    }
    assert forall|c: u16, s: u16, r: u16, d: Seq<u8>|
        word_at(#[trigger] udp_packet(c, s, r, d), 0) == c && udp_packet(c, s, r, d).len() == 8
            + d.len() by {
        lemma_header_round_trip(c, s, r, d);
    }
}

/// One step of a client that is connecting: the connect command goes out
/// exactly when the transport has just opened its connection; the client
/// goes on connecting, is connected, or gives up on this transport.
pub proof fn lemma_opening_step(
    pre: ClientModel,
    at: int,
    event: Event,
    post: ClientModel,
    step: Step<Reply>,
)
    requires
        lives(pre, at, Life::Opening),
        resumed(pre, event, post, step),
    ensures
        sends(step, at, cmd::CMD_CONNECT) ==> transport_opening(pre.transport->0),
        step is Next ==> lives(post, at, Life::Opening) || lives(post, at, Life::Failing)
            || client_offset(post) != at,
        step is Next && lives(post, at, Life::Opening) ==> {
            &&& !transport_opening(post.transport->0)
            &&& (sends(step, at, cmd::CMD_CONNECT) <==> transport_opening(pre.transport->0))
            &&& !sends(step, at, cmd::CMD_EXIT)
        },
        step matches Step::Finished(Ok(_)) ==> {
            &&& lives(post, at, Life::Open)
            &&& !transport_opening(pre.transport->0)
        },
{
    lemma_packets_hold_their_command();
}

/// One step of a client that is giving up on a transport: it never ends
/// in success.
pub proof fn lemma_failing_step(
    pre: ClientModel,
    at: int,
    event: Event,
    post: ClientModel,
    step: Step<Reply>,
)
    requires
        lives(pre, at, Life::Failing),
        resumed(pre, event, post, step),
    ensures
        step is Next ==> lives(post, at, Life::Failing) || client_offset(post) != at,
        !(step matches Step::Finished(Ok(_))),
{
}

/// One call on a connected client other than `disconnect`: the client
/// stays connected, and neither a connect nor an exit command goes out.
pub proof fn lemma_open_step(
    pre: ClientModel,
    at: int,
    call: ClientCall,
    post: ClientModel,
    step: Step<Reply>,
)
    requires
        lives(pre, at, Life::Open),
        !(call is Disconnect),
        client_called(pre, call, post, step),
    ensures
        lives(post, at, Life::Open),
        !sends(step, at, cmd::CMD_CONNECT),
        !sends(step, at, cmd::CMD_EXIT),
{
    lemma_packets_hold_their_command();
}

/// `disconnect` on a connected client sends the exit command.
pub proof fn lemma_disconnect_step(pre: ClientModel, at: int, post: ClientModel, step: Step<Reply>)
    requires
        lives(pre, at, Life::Open),
        client_called(pre, ClientCall::Disconnect, post, step),
    ensures
        lives(post, at, Life::Closing),
        step is Next,
        sends(step, at, cmd::CMD_EXIT),
        !sends(step, at, cmd::CMD_CONNECT),
{
    lemma_packets_hold_their_command();
}

/// One step of a client that is disconnecting: nothing more is sent, and
/// when the operation ends the client has no transport.
pub proof fn lemma_closing_step(
    pre: ClientModel,
    at: int,
    event: Event,
    post: ClientModel,
    step: Step<Reply>,
)
    requires
        lives(pre, at, Life::Closing),
        resumed(pre, event, post, step),
    ensures
        !sends(step, at, cmd::CMD_CONNECT),
        !sends(step, at, cmd::CMD_EXIT),
        step is Next ==> lives(post, at, Life::Closing),
        step is Finished ==> lives(post, at, Life::Closed),
{
    lemma_packets_hold_their_command();
}

/// A client without transport: every read fails with `Not connected`,
/// `disconnect` succeeds, and nothing is sent.
pub proof fn lemma_closed_client(
    pre: ClientModel,
    at: int,
    call: ClientCall,
    post: ClientModel,
    step: Step<Reply>,
)
    requires
        lives(pre, at, Life::Closed),
        !(call is Resume),
        client_called(pre, call, post, step),
    ensures
        lives(post, at, Life::Closed),
        call is Disconnect ==> gives_nothing(step),
        !(call is Disconnect) ==> step.fails_with("Not connected"@),
{
}

/// Whether a history is that of one session of a client on the transport
/// whose packets have their header at `at`. The transport has been asked
/// to open its connection; the client is resumed until it is connected,
/// at the call `connected`, without leaving this transport; reads and
/// their outcomes follow; the call `closing` is the one call of
/// `disconnect`, which is resumed until it ends with the last call.
pub open spec fn one_client_session(
    states: Seq<ClientModel>,
    calls: Seq<ClientCall>,
    steps: Seq<Step<Reply>>,
    at: int,
    connected: int,
    closing: int,
) -> bool {
    &&& states.len() == calls.len() + 1
    &&& steps.len() == calls.len()
    &&& forall|i: int|
        0 <= i < calls.len() ==> client_called(
            states[i],
            #[trigger] calls[i],
            states[i + 1],
            steps[i],
        )
    &&& lives(states[0], at, Life::Opening)
    &&& transport_opening(states[0].transport->0)
    &&& 0 <= connected < closing < calls.len() - 1
    &&& forall|i: int|
        0 <= i <= connected ==> (#[trigger] calls[i]) is Resume && client_offset(states[i + 1])
            == at
    &&& forall|i: int| 0 <= i < connected ==> (#[trigger] steps[i]) is Next
    &&& steps[connected] matches Step::Finished(Ok(_))
    &&& forall|i: int| connected < i < closing ==> !((#[trigger] calls[i]) is Disconnect)
    &&& calls[closing] is Disconnect
    &&& forall|i: int| closing < i < calls.len() ==> (#[trigger] calls[i]) is Resume
    &&& forall|i: int| closing < i < calls.len() - 1 ==> (#[trigger] steps[i]) is Next
    &&& steps[calls.len() - 1] is Finished
}

/// Where the session stands after the first `i` calls of its history.
pub open spec fn life_after(i: int, connected: int, closing: int, len: int) -> Life {
    if i <= connected {
        Life::Opening
    } else if i <= closing {
        Life::Open
    } else if i < len {
        Life::Closing
    } else {
        Life::Closed
    }
}

/// Where a session stands after the first `i` calls, and what has been
/// sent by then.
pub proof fn lemma_client_session_prefix(
    states: Seq<ClientModel>,
    calls: Seq<ClientCall>,
    steps: Seq<Step<Reply>>,
    at: int,
    connected: int,
    closing: int,
    i: int,
)
    requires
        one_client_session(states, calls, steps, at, connected, closing),
        0 <= i <= calls.len(),
    ensures
        i <= connected ==> lives(states[i], at, Life::Failing) || {
            &&& lives(states[i], at, Life::Opening)
            &&& sent_count_at(steps.take(i), at, cmd::CMD_CONNECT) == if transport_opening(
                states[i].transport->0,
            ) {
                0nat
            } else {
                1nat
            }
            &&& sent_count_at(steps.take(i), at, cmd::CMD_EXIT) == 0
        },
        i > connected ==> {
            &&& lives(states[i], at, life_after(i, connected, closing, calls.len() as int))
            &&& sent_count_at(steps.take(i), at, cmd::CMD_CONNECT) == 1
            &&& sent_count_at(steps.take(i), at, cmd::CMD_EXIT) == if i > closing {
                1nat
            } else {
                0nat
            }
        },
    decreases i,
{
    if i == 0 {
        assert(steps.take(0).len() == 0);
    } else {
        let k = i - 1;
        lemma_client_session_prefix(states, calls, steps, at, connected, closing, k);
        lemma_sent_count_step(steps, k, at, cmd::CMD_CONNECT);
        lemma_sent_count_step(steps, k, at, cmd::CMD_EXIT);
        assert(client_called(states[k], calls[k], states[k + 1], steps[k]));
        if k <= connected {
            assert(calls[k] is Resume && client_offset(states[k + 1]) == at);
            let event = calls[k]->Resume_0;
            if lives(states[k], at, Life::Failing) {
                lemma_failing_step(states[k], at, event, states[k + 1], steps[k]);
                if k < connected {
                    assert(steps[k] is Next);
                }
            } else {
                lemma_opening_step(states[k], at, event, states[k + 1], steps[k]);
                if k < connected {
                    assert(steps[k] is Next);
                }
            }
        } else if k < closing {
            assert(!(calls[k] is Disconnect));
            lemma_open_step(states[k], at, calls[k], states[k + 1], steps[k]);
        } else if k == closing {
            lemma_disconnect_step(states[k], at, states[k + 1], steps[k]);
        } else {
            assert(calls[k] is Resume);
            let event = calls[k]->Resume_0;
            lemma_closing_step(states[k], at, event, states[k + 1], steps[k]);
            if k < calls.len() - 1 {
                assert(steps[k] is Next);
            }
        }
    }
}

/// Over the life of a client's session, exactly one connect command and
/// exactly one exit command are sent on its transport, and the client
/// holds no transport in the end.
pub proof fn lemma_client_session_sends_one_connect_and_one_exit(
    states: Seq<ClientModel>,
    calls: Seq<ClientCall>,
    steps: Seq<Step<Reply>>,
    at: int,
    connected: int,
    closing: int,
)
    requires
        one_client_session(states, calls, steps, at, connected, closing),
    ensures
        sent_count_at(steps, at, cmd::CMD_CONNECT) == 1,
        sent_count_at(steps, at, cmd::CMD_EXIT) == 1,
        lives(states[calls.len() as int], at, Life::Closed),
        states[calls.len() as int].transport is None,
{
    let len = calls.len() as int;
    lemma_client_session_prefix(states, calls, steps, at, connected, closing, len);
    assert(steps.take(len) =~= steps);
}

} // verus!
