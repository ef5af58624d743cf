//! What holds of every datagram session.

use vstd::prelude::*;
use crate::protocol::{cmd, le32_bytes, lemma_header_round_trip, udp_packet, word_at};
use crate::protocol::records::{RecordLayout, UserLayout};
use crate::session::{
    device_address, lemma_sent_count_step, next_reply_id, reply_id_after, sends_command_at,
    sent_count_at, session_after_connect, yields_nothing, yields_record_rows, yields_user_rows,
    BulkKind, Call, Payload, Purpose,
};
use crate::step::{Action, Event, Step};
use crate::transfer::{
    chunk_count, chunk_len, chunk_request_payload, chunk_start, lemma_chunks_cover,
    receive_budget_secs,
};
use crate::udp::{
    binding, bulk_begins, bulk_ends, chunks_requested, disconnect_begins, exchange_begins, resumed,
    with_kind, UdpModel, UdpPhase,
};

verus! {

/// Whether the step sends a datagram with the given command.
pub open spec fn sends_command(step: Step<Payload>, command: u16) -> bool {
    sends_command_at(step, 0, command)
}

/// A datagram carries its command at bytes 0..2.
pub proof fn lemma_packet_command(command: u16, session_id: u16, reply_id: u16, data: Seq<u8>)
    ensures
        word_at(udp_packet(command, session_id, reply_id, data), 0) == command,
        udp_packet(command, session_id, reply_id, data).len() == 8 + data.len(),
{
    lemma_header_round_trip(command, session_id, reply_id, data);
}

/// Whatever `resume` sends is a connect command, a release of the data
/// buffer, a bulk request or a chunk request. It sends a connect command
/// only when the socket has just been bound, and never an exit command.
pub proof fn lemma_resume_sends(pre: UdpModel, event: Event, post: UdpModel, step: Step<Payload>)
    requires
        resumed(pre, event, post, step),
        step matches Step::Next(Action::Send { .. }),
    ensures
        sends_command(step, cmd::CMD_CONNECT) || sends_command(step, cmd::CMD_FREE_DATA)
            || sends_command(step, cmd::CMD_DATA_WRRQ) || sends_command(step, cmd::CMD_DATA_RDY),
        sends_command(step, cmd::CMD_CONNECT) ==> pre.phase == UdpPhase::Binding,
        !sends_command(step, cmd::CMD_EXIT),
{
    assert forall|c: u16, s: u16, r: u16, d: Seq<u8>|
        word_at(#[trigger] udp_packet(c, s, r, d), 0) == c && udp_packet(c, s, r, d).len() == 8
            + d.len() by {
        lemma_packet_command(c, s, r, d);
    }
}

/// The opening of a session, from the binding of the socket on: the one
/// datagram that is sent is the connect command with both counters at
/// zero, and the third outcome ends the operation. If it ends in success,
/// the outcome was an acknowledgement, and the session id is the number
/// at bytes 4..6 of it.
pub proof fn lemma_connect_run(
    s0: UdpModel,
    e1: Event,
    s1: UdpModel,
    st1: Step<Payload>,
    e2: Event,
    s2: UdpModel,
    st2: Step<Payload>,
    e3: Event,
    s3: UdpModel,
    st3: Step<Payload>,
)
    requires
        s0.phase == UdpPhase::Binding,
        resumed(s0, e1, s1, st1),
        st1 is Next,
        resumed(s1, e2, s2, st2),
        st2 is Next,
        resumed(s2, e3, s3, st3),
    ensures
        e1 is Done,
        st1.asks_send(udp_packet(cmd::CMD_CONNECT, 0, 0, Seq::empty())),
        sends_command(st1, cmd::CMD_CONNECT),
        e2 is Done,
        st2.asks_receive(s0.timeout_ms),
        st3 is Finished,
        s3.phase == UdpPhase::Idle,
        yields_nothing(st3) ==> {
            &&& e3 matches Event::Data(ack)
            &&& s3.session_id == session_after_connect(0, ack@)
            &&& s3.reply_id == 0
            &&& s3.connected
        },
{
    lemma_packet_command(cmd::CMD_CONNECT, 0, 0, Seq::empty());
}

/// The closing of an open session: the one datagram that is sent is the
/// exit command, under the next reply id. Whatever comes of it, the socket
/// is closed next, and the operation then ends in success without a
/// socket.
pub proof fn lemma_disconnect_run(
    pre: UdpModel,
    s0: UdpModel,
    st0: Step<Payload>,
    e1: Event,
    s1: UdpModel,
    st1: Step<Payload>,
    e2: Event,
    s2: UdpModel,
    st2: Step<Payload>,
    e3: Event,
    s3: UdpModel,
    st3: Step<Payload>,
)
    requires
        pre.connected,
        disconnect_begins(pre, s0, st0),
        resumed(s0, e1, s1, st1),
        st1 is Next ==> resumed(s1, e2, s2, st2),
        st1 is Next && st2 is Next ==> resumed(s2, e3, s3, st3),
    ensures
        st0.asks_send(
            udp_packet(cmd::CMD_EXIT, pre.session_id, next_reply_id(pre.reply_id), Seq::empty()),
        ),
        sends_command(st0, cmd::CMD_EXIT),
        st1 is Next ==> st1.asks_close() || st1.asks_receive(pre.timeout_ms),
        st1.asks_close() ==> yields_nothing(st2) && !s2.connected,
        st1.asks_receive(pre.timeout_ms) && st2 is Next ==> st2.asks_close() && yields_nothing(st3)
            && !s3.connected,
{
    lemma_packet_command(cmd::CMD_EXIT, pre.session_id, next_reply_id(pre.reply_id), Seq::empty());
}

/// What a call does to a session.
pub open spec fn called(pre: UdpModel, call: Call, post: UdpModel, step: Step<Payload>) -> bool {
    match call {
        Call::Connect => post == binding(pre) && step.asks_bind(device_address(pre.ip, pre.port)),
        Call::Auth(key) => exchange_begins(
            pre,
            cmd::CMD_AUTH,
            le32_bytes(key as int),
            Purpose::Auth,
            post,
            step,
        ),
        Call::Command(command, data) => exchange_begins(
            pre,
            command,
            data,
            Purpose::Command,
            post,
            step,
        ),
        Call::Bulk(request) => bulk_begins(pre, BulkKind::Raw, request, post, step),
        Call::Users => exchange_begins(
            with_kind(pre, BulkKind::Users),
            cmd::CMD_FREE_DATA,
            Seq::empty(),
            Purpose::FreeBefore,
            post,
            step,
        ),
        Call::Attendances => exchange_begins(
            with_kind(pre, BulkKind::Attendances),
            cmd::CMD_FREE_DATA,
            Seq::empty(),
            Purpose::FreeBefore,
            post,
            step,
        ),
        Call::Info => exchange_begins(
            pre,
            cmd::CMD_GET_FREE_SIZES,
            Seq::empty(),
            Purpose::Info,
            post,
            step,
        ),
        Call::Free => exchange_begins(
            pre,
            cmd::CMD_FREE_DATA,
            Seq::empty(),
            Purpose::Free,
            post,
            step,
        ),
        Call::Disconnect => disconnect_begins(pre, post, step),
        Call::Resume(event) => resumed(pre, event, post, step),
    }
}

/// Whether a call asks by hand for a command that opens or closes the
/// session.
pub open spec fn is_raw_session_command(call: Call) -> bool {
    call matches Call::Command(command, _) && (command == cmd::CMD_CONNECT || command
        == cmd::CMD_EXIT)
}

/// A history of a session: each call takes the session from one state to
/// the next and gives one step.
pub open spec fn history(
    states: Seq<UdpModel>,
    calls: Seq<Call>,
    steps: Seq<Step<Payload>>,
) -> bool {
    &&& states.len() == calls.len() + 1
    &&& steps.len() == calls.len()
    &&& forall|i: int|
        0 <= i < calls.len() ==> called(states[i], #[trigger] calls[i], states[i + 1], steps[i])
}

/// The number of steps that send a packet with the given command.
pub open spec fn sent_count(steps: Seq<Step<Payload>>, command: u16) -> nat {
    sent_count_at(steps, 0, command)
}

/// Whether a session is open and not about to close.
pub open spec fn session_open(m: UdpModel) -> bool {
    &&& m.connected
    &&& m.phase != UdpPhase::Closing
    &&& m.phase != UdpPhase::Binding
    &&& !(m.purpose == Purpose::Exit && (m.phase == UdpPhase::Sending || m.phase
        == UdpPhase::Receiving))
}

/// What one call can send. A connect command goes out only when the
/// socket has just been bound, an exit command only when the closing
/// of an open session is started; only the start of `connect` leads to
/// binding; and an open session stays open under every call but those
/// two.
pub proof fn lemma_call_effects(pre: UdpModel, call: Call, post: UdpModel, step: Step<Payload>)
    requires
        called(pre, call, post, step),
        !is_raw_session_command(call),
    ensures
        sends_command(step, cmd::CMD_CONNECT) <==> (call matches Call::Resume(Event::Done)
            && pre.phase == UdpPhase::Binding),
        sends_command(step, cmd::CMD_EXIT) <==> (call is Disconnect && pre.connected),
        post.phase == UdpPhase::Binding <==> call is Connect,
        session_open(pre) && !(call is Disconnect) && !(call is Connect) ==> session_open(post),
{
    assert forall|c: u16, s: u16, r: u16, d: Seq<u8>|
        word_at(#[trigger] udp_packet(c, s, r, d), 0) == c && udp_packet(c, s, r, d).len() == 8
            + d.len() by {
        lemma_packet_command(c, s, r, d);
    }
}

/// Whether a history is that of one session: it begins with `connect`,
/// whose run of three outcomes ends in success; `connect` is not called
/// again; the call at `closing` is the one call of `disconnect`; and no
/// call asks by hand for the connect or the exit command.
pub open spec fn one_session(
    states: Seq<UdpModel>,
    calls: Seq<Call>,
    steps: Seq<Step<Payload>>,
    closing: int,
) -> bool {
    &&& history(states, calls, steps)
    &&& 4 <= closing < calls.len()
    &&& calls[0] is Connect
    &&& calls[1] is Resume
    &&& calls[2] is Resume
    &&& calls[3] is Resume
    &&& steps[1] is Next
    &&& steps[2] is Next
    &&& yields_nothing(steps[3])
    &&& calls[closing] is Disconnect
    &&& forall|i: int|
        0 <= i < calls.len() ==> {
            &&& !is_raw_session_command(#[trigger] calls[i])
            &&& (calls[i] is Connect ==> i == 0)
            &&& (calls[i] is Disconnect ==> i == closing)
        }
}

/// The counts of connect and exit commands after the first `i` calls of
/// a session.
pub proof fn lemma_session_prefix(
    states: Seq<UdpModel>,
    calls: Seq<Call>,
    steps: Seq<Step<Payload>>,
    closing: int,
    i: int,
)
    requires
        one_session(states, calls, steps, closing),
        0 <= i <= calls.len(),
    ensures
        sent_count(steps.take(i), cmd::CMD_CONNECT) == if i >= 2 {
            1nat
        } else {
            0nat
        },
        sent_count(steps.take(i), cmd::CMD_EXIT) == if i > closing {
            1nat
        } else {
            0nat
        },
        i >= 1 ==> (states[i].phase == UdpPhase::Binding <==> i == 1),
        4 <= i <= closing ==> session_open(states[i]),
    decreases i,
{
    if i == 0 {
        assert(steps.take(0).len() == 0);
    } else {
        let k = i - 1;
        lemma_session_prefix(states, calls, steps, closing, k);
        assert(called(states[k], calls[k], states[k + 1], steps[k]));
        lemma_call_effects(states[k], calls[k], states[k + 1], steps[k]);
        lemma_sent_count_step(steps, k, 0, cmd::CMD_CONNECT);
        lemma_sent_count_step(steps, k, 0, cmd::CMD_EXIT);
        if i == 2 || i == 4 {
            assert(called(states[1], calls[1], states[2], steps[1]));
            assert(called(states[2], calls[2], states[3], steps[2]));
            assert(called(states[3], calls[3], states[4], steps[3]));
            assert(called(states[0], calls[0], states[1], steps[0]));
            let e1 = calls[1]->Resume_0;
            let e2 = calls[2]->Resume_0;
            let e3 = calls[3]->Resume_0;
            lemma_connect_run(
                states[1],
                e1,
                states[2],
                steps[1],
                e2,
                states[3],
                steps[2],
                e3,
                states[4],
                steps[3],
            );
        }
    }
}

/// In the history of one session, exactly one connect command and
/// exactly one exit command are sent.
pub proof fn lemma_session_sends_one_connect_and_one_exit(
    states: Seq<UdpModel>,
    calls: Seq<Call>,
    steps: Seq<Step<Payload>>,
    closing: int,
)
    requires
        one_session(states, calls, steps, closing),
    ensures
        sent_count(steps, cmd::CMD_CONNECT) == 1,
        sent_count(steps, cmd::CMD_EXIT) == 1,
{
    lemma_session_prefix(states, calls, steps, closing, calls.len() as int);
    assert(steps.take(calls.len() as int) =~= steps);
}

/// The rows of a bulk read. Once a bulk read for rows has its data set,
/// the data buffer is released once more, and whatever comes of that, the
/// operation ends with the rows of the data set: it skips the four bytes
/// of the length prefix, decodes every whole row in its order, and leaves
/// a shorter remainder unread. A user row has 28 bytes; an attendance row
/// has 8 bytes after a small response and 16 otherwise, and both its type
/// fields are zero.
pub proof fn lemma_rows_after_read(
    pre: UdpModel,
    s0: UdpModel,
    st0: Step<Payload>,
    sent: Event,
    s1: UdpModel,
    st1: Step<Payload>,
    reply: Event,
    s2: UdpModel,
    st2: Step<Payload>,
)
    requires
        pre.connected,
        pre.kind != BulkKind::Raw,
        bulk_ends(pre, None, s0, st0),
        sent is Done || sent is Failed,
        reply is Data || reply is TimedOut || reply is Failed,
        resumed(s0, sent, s1, st1),
        st1 is Next ==> resumed(s1, reply, s2, st2),
    ensures
        sends_command(st0, cmd::CMD_FREE_DATA),
        st1 is Next ==> st1.asks_receive(pre.timeout_ms),
        ({
            let last = if st1 is Next {
                st2
            } else {
                st1
            };
            &&& pre.kind == BulkKind::Users ==> yields_user_rows(
                last,
                pre.data,
                UserLayout::Compact,
            )
            &&& pre.kind == BulkKind::Attendances ==> yields_record_rows(
                last,
                pre.data,
                if pre.small {
                    RecordLayout::CompactSmall
                } else {
                    RecordLayout::Compact
                },
            )
        }),
{
    lemma_packet_command(
        cmd::CMD_FREE_DATA,
        pre.session_id,
        next_reply_id(pre.reply_id),
        Seq::empty(),
    );
}

/// The state of a bulk read after `i` chunk requests have gone out.
pub open spec fn requesting(base: UdpModel, i: int) -> UdpModel {
    UdpModel {
        phase: UdpPhase::BulkChunks,
        reply_id: reply_id_after(base.reply_id, i),
        sent_chunks: i as u32,
        ..base
    }
}

/// The datagram that asks for chunk `i`: the chunk's offset and length,
/// under the reply id that follows that of the request before it.
pub open spec fn chunk_request_packet(base: UdpModel, i: int) -> Seq<u8> {
    udp_packet(
        cmd::CMD_DATA_RDY,
        base.session_id,
        reply_id_after(base.reply_id, i + 1),
        chunk_request_payload(base.size as int, i),
    )
}

/// Whether the states and steps are those of the chunk requests of a bulk
/// read: `base` is the session when the device has announced a data set
/// that is not empty, and each request is followed by the outcome that
/// it has gone out.
pub open spec fn chunk_request_run(
    base: UdpModel,
    states: Seq<UdpModel>,
    steps: Seq<Step<Payload>>,
) -> bool {
    let n = chunk_count(base.size as int);
    &&& base.size > 0
    &&& base.sent_chunks == 0
    &&& base.data.len() == 0
    &&& states.len() == n + 1
    &&& steps.len() == n + 1
    &&& chunks_requested(base, states[0], steps[0])
    &&& forall|i: int|
        1 <= i <= n ==> resumed(states[i - 1], Event::Done, #[trigger] states[i], steps[i])
}

/// One chunk request: from a session in which `i` requests have gone
/// out and more are to go, the next step sends the request for chunk `i`.
pub proof fn lemma_chunk_request_step(
    base: UdpModel,
    pre: UdpModel,
    i: int,
    post: UdpModel,
    step: Step<Payload>,
)
    requires
        0 <= i < chunk_count(base.size as int),
        pre == base || pre == requesting(base, i),
        pre.sent_chunks == i,
        pre.reply_id == reply_id_after(base.reply_id, i),
        chunks_requested(pre, post, step),
    ensures
        post == requesting(base, i + 1),
        step.asks_send(chunk_request_packet(base, i)),
{
    assert(pre.size == base.size && pre.session_id == base.session_id);
    assert(next_reply_id(pre.reply_id) == reply_id_after(base.reply_id, i + 1));
    assert((pre.sent_chunks as int) < chunk_count(pre.size as int));
    assert(post =~= requesting(base, i + 1));
}

/// A chunk request carries the command that asks for data.
pub proof fn lemma_chunk_request_command(base: UdpModel, i: int, step: Step<Payload>)
    requires
        step.asks_send(chunk_request_packet(base, i)),
    ensures
        sends_command(step, cmd::CMD_DATA_RDY),
{
    lemma_packet_command(
        cmd::CMD_DATA_RDY,
        base.session_id,
        reply_id_after(base.reply_id, i + 1),
        chunk_request_payload(base.size as int, i),
    );
}

/// The request for chunk `i` of a bulk read.
pub proof fn lemma_chunk_request(
    base: UdpModel,
    states: Seq<UdpModel>,
    steps: Seq<Step<Payload>>,
    i: int,
)
    requires
        chunk_request_run(base, states, steps),
        0 <= i < chunk_count(base.size as int),
    ensures
        states[i] == requesting(base, i + 1),
        steps[i].asks_send(chunk_request_packet(base, i)),
        sends_command(steps[i], cmd::CMD_DATA_RDY),
    decreases i,
{
    if i == 0 {
        lemma_chunk_request_step(base, base, 0, states[0], steps[0]);
        lemma_chunk_request_command(base, 0, steps[0]);
    } else {
        lemma_chunk_request(base, states, steps, i - 1);
        let pre = states[i - 1];
        assert(pre == requesting(base, i));
        assert(resumed(pre, Event::Done, states[i], steps[i]));
        assert(pre.phase == UdpPhase::BulkChunks);
        assert(chunks_requested(pre, states[i], steps[i]));
        lemma_chunk_request_step(base, pre, i, states[i], steps[i]);
        lemma_chunk_request_command(base, i, steps[i]);
    }
}

/// The chunk requests of a bulk read. For a data set of `size` bytes,
/// exactly `size / 65472`, rounded up, requests are sent, all of them
/// before the first chunk is awaited. Request `i` asks for the bytes from
/// `i * 65472` on: a full chunk, or what is left for the last one. The
/// lengths lie in `1..=65472` and add up to the size.
pub proof fn lemma_chunk_requests_run(
    base: UdpModel,
    states: Seq<UdpModel>,
    steps: Seq<Step<Payload>>,
)
    requires
        chunk_request_run(base, states, steps),
    ensures
        forall|i: int|
            0 <= i < chunk_count(base.size as int) ==> (#[trigger] steps[i]).asks_send(
                chunk_request_packet(base, i),
            ),
        forall|i: int|
            0 <= i < chunk_count(base.size as int) ==> {
                &&& 1 <= #[trigger] chunk_len(base.size as int, i) <= 65472
                &&& chunk_start(i) + chunk_len(base.size as int, i) == if i + 1 == chunk_count(
                    base.size as int,
                ) {
                    base.size as int
                } else {
                    chunk_start(i + 1)
                }
            },
        steps[chunk_count(base.size as int)].asks_receive_until(
            receive_budget_secs(base.size as int) as u64,
            true,
        ),
        states[chunk_count(base.size as int)].phase == UdpPhase::BulkReceive,
{
    let n = chunk_count(base.size as int);
    assert forall|i: int| 0 <= i < n implies (#[trigger] steps[i]).asks_send(
        chunk_request_packet(base, i),
    ) by {
        lemma_chunk_request(base, states, steps, i);
    }
    assert forall|i: int| 0 <= i < n implies {
        &&& 1 <= #[trigger] chunk_len(base.size as int, i) <= 65472
        &&& chunk_start(i) + chunk_len(base.size as int, i) == if i + 1 == n {
            base.size as int
        } else {
            chunk_start(i + 1)
        }
    } by {
        lemma_chunks_cover(base.size as int, i);
    }
    lemma_chunk_request(base, states, steps, n - 1);
    let last = states[n - 1];
    assert(last == requesting(base, n));
    assert(resumed(last, Event::Done, states[n], steps[n]));
    assert(last.phase == UdpPhase::BulkChunks);
    assert(chunks_requested(last, states[n], steps[n]));
}

} // verus!
