//! What holds of every stream session.

use vstd::prelude::*;
use crate::protocol::{
    cmd, dword_at, is_event_tcp, le32_bytes, lemma_header_round_trip, tcp_packet,
    without_envelope, word_at,
};
use crate::protocol::records::{RecordLayout, UserLayout};
use crate::session::{
    bulk_request_payload, device_address, lemma_sent_count_step, next_reply_id, reply_id_after,
    sends_command_at, sent_count_at, session_after_connect, yields_buffer, yields_nothing,
    yields_record_rows, yields_user_rows, BulkKind, Call, Payload, Purpose,
};
use crate::step::{Action, Event, Step};
use crate::tcp::{
    bulk_begins, bulk_ends, chunk_packet, dial_timeout_ms, dialing, disconnect_begins,
    exchange_begins, head_decided, resumed, with_kind, TcpModel, TcpPhase,
};
use crate::tcp::assembly::{
    assembly, chunk_data, chunk_stream, chunks_of, drained, expected_chunk_bytes, framed,
    lemma_chunks_reassemble, ChunkPacket,
};
use crate::transfer::{chunk_count, chunk_request_payload, receive_budget_secs};

verus! {

/// Whether the step sends a stream packet with the given command.
pub open spec fn sends_command(step: Step<Payload>, command: u16) -> bool {
    sends_command_at(step, 8, command)
}

/// A stream packet carries its command at bytes 8..10.
pub proof fn lemma_packet_command(command: u16, session_id: u16, reply_id: u16, data: Seq<u8>)
    ensures
        word_at(tcp_packet(command, session_id, reply_id, data), 8) == command,
        tcp_packet(command, session_id, reply_id, data).len() == 16 + data.len(),
{
    lemma_header_round_trip(command, session_id, reply_id, data);
}

/// Whatever `resume` sends is a connect command, a release of the data
/// buffer, a bulk request or a chunk request. It sends a connect command
/// only when the connection has just been opened, and never an exit
/// command.
pub proof fn lemma_resume_sends(pre: TcpModel, event: Event, post: TcpModel, step: Step<Payload>)
    requires
        resumed(pre, event, post, step),
        step matches Step::Next(Action::Send { .. }),
    ensures
        sends_command(step, cmd::CMD_CONNECT) || sends_command(step, cmd::CMD_FREE_DATA)
            || sends_command(step, cmd::CMD_DATA_WRRQ) || sends_command(step, cmd::CMD_DATA_RDY),
        sends_command(step, cmd::CMD_CONNECT) ==> pre.phase == TcpPhase::Dialing,
        !sends_command(step, cmd::CMD_EXIT),
{
    assert forall|c: u16, s: u16, r: u16, d: Seq<u8>|
        word_at(#[trigger] tcp_packet(c, s, r, d), 8) == c && tcp_packet(c, s, r, d).len() == 16
            + d.len() by {
        lemma_packet_command(c, s, r, d);
    }
}

/// The opening of a session, from the dial on: the one packet that is
/// sent is the connect command with both counters at zero; its reply is
/// awaited for two seconds; and the third outcome ends the operation. If
/// it ends in success, the outcome was an acknowledgement, the session id
/// is the number at bytes 4..6 of it, and both counters are as the
/// connect command left them.
pub proof fn lemma_connect_run(
    s0: TcpModel,
    e1: Event,
    s1: TcpModel,
    st1: Step<Payload>,
    e2: Event,
    s2: TcpModel,
    st2: Step<Payload>,
    e3: Event,
    s3: TcpModel,
    st3: Step<Payload>,
)
    requires
        s0.phase == TcpPhase::Dialing,
        resumed(s0, e1, s1, st1),
        st1 is Next,
        resumed(s1, e2, s2, st2),
        st2 is Next,
        resumed(s2, e3, s3, st3),
    ensures
        e1 is Done,
        st1.asks_send(tcp_packet(cmd::CMD_CONNECT, 0, 0, Seq::empty())),
        sends_command(st1, cmd::CMD_CONNECT),
        e2 is Done,
        st2.asks_receive(2000),
        st3 is Finished,
        s3.phase == TcpPhase::Idle,
        yields_nothing(st3) ==> {
            &&& e3 matches Event::Data(ack)
            &&& s3.session_id == session_after_connect(0, without_envelope(ack@))
            &&& s3.reply_id == 0
            &&& s3.connected
        },
{
    lemma_packet_command(cmd::CMD_CONNECT, 0, 0, Seq::empty());
}

/// The closing of an open session: the one packet that is sent is the
/// exit command, under the next reply id. Whatever comes of it, the
/// connection is closed next, and the operation then ends in success with
/// the connection closed.
pub proof fn lemma_disconnect_run(
    pre: TcpModel,
    s0: TcpModel,
    st0: Step<Payload>,
    e1: Event,
    s1: TcpModel,
    st1: Step<Payload>,
    e2: Event,
    s2: TcpModel,
    st2: Step<Payload>,
    e3: Event,
    s3: TcpModel,
    st3: Step<Payload>,
)
    requires
        pre.connected,
        disconnect_begins(pre, s0, st0),
        resumed(s0, e1, s1, st1),
        st1 is Next ==> resumed(s1, e2, s2, st2),
        st1 is Next && st2 is Next ==> resumed(s2, e3, s3, st3),
    ensures
        st0.asks_send(
            tcp_packet(cmd::CMD_EXIT, pre.session_id, next_reply_id(pre.reply_id), Seq::empty()),
        ),
        sends_command(st0, cmd::CMD_EXIT),
        st1 is Next ==> st1.asks_close() || st1.asks_receive(2000),
        st1.asks_close() ==> yields_nothing(st2) && !s2.connected,
        st1.asks_receive(2000) && st2 is Next ==> st2.asks_close() && yields_nothing(st3)
            && !s3.connected,
{
    lemma_packet_command(cmd::CMD_EXIT, pre.session_id, next_reply_id(pre.reply_id), Seq::empty());
}

/// A bulk read hands back the data set: when the chunks that were asked
/// for arrive in one read, one inner packet each, the read ends with the
/// data of the chunks in their order.
pub proof fn lemma_bulk_read_assembles(
    pre: TcpModel,
    packets: Seq<ChunkPacket>,
    bytes: Vec<u8>,
    post: TcpModel,
    step: Step<Payload>,
)
    requires
        pre.phase == TcpPhase::BulkReceive,
        pre.kind == BulkKind::Raw,
        pre.size > 0,
        pre.packets_remaining == chunk_count(pre.size as int),
        pre.stream.len() == 0,
        pre.chunk.len() == 0,
        pre.data.len() == 0,
        chunks_of(packets, pre.size as int),
        bytes@ == chunk_stream(packets),
        !is_event_tcp(bytes@),
        resumed(pre, Event::Data(bytes), post, step),
    ensures
        yields_buffer(step, chunk_data(packets), pre.small),
        chunk_data(packets).len() == pre.size,
        post.phase == TcpPhase::Idle,
{
    lemma_chunks_reassemble(packets, pre.size as int);
    assert(pre.stream + bytes@ =~= chunk_stream(packets));
    assert(pre.chunk =~= Seq::<u8>::empty());
    assert(pre.data =~= Seq::<u8>::empty());
    assert(chunk_stream(packets).len() > 0) by {
        assert(packets.len() > 0);
        assert(framed(packets[0]).len() > 0);
    }
}

/// What a call does to a session.
pub open spec fn called(pre: TcpModel, call: Call, post: TcpModel, step: Step<Payload>) -> bool {
    match call {
        Call::Connect => post == dialing(pre) && step.asks_dial(
            device_address(pre.ip, pre.port),
            dial_timeout_ms(pre.timeout_ms),
        ),
        Call::Auth(key) => exchange_begins(
            pre,
            cmd::CMD_AUTH,
            le32_bytes(key as int),
            Purpose::Auth,
            post,
            step,
        ),
        Call::Command(command, data) => exchange_begins(
            pre,
            command,
            data,
            Purpose::Command,
            post,
            step,
        ),
        Call::Bulk(request) => bulk_begins(pre, BulkKind::Raw, request, post, step),
        Call::Users => exchange_begins(
            with_kind(pre, BulkKind::Users),
            cmd::CMD_FREE_DATA,
            Seq::empty(),
            Purpose::FreeBefore,
            post,
            step,
        ),
        Call::Attendances => exchange_begins(
            with_kind(pre, BulkKind::Attendances),
            cmd::CMD_FREE_DATA,
            Seq::empty(),
            Purpose::FreeBefore,
            post,
            step,
        ),
        Call::Info => exchange_begins(
            pre,
            cmd::CMD_GET_FREE_SIZES,
            Seq::empty(),
            Purpose::Info,
            post,
            step,
        ),
        Call::Free => exchange_begins(
            pre,
            cmd::CMD_FREE_DATA,
            Seq::empty(),
            Purpose::Free,
            post,
            step,
        ),
        Call::Disconnect => disconnect_begins(pre, post, step),
        Call::Resume(event) => resumed(pre, event, post, step),
    }
}

/// Whether a call asks by hand for a command that opens or closes the
/// session.
pub open spec fn is_raw_session_command(call: Call) -> bool {
    call matches Call::Command(command, _) && (command == cmd::CMD_CONNECT || command
        == cmd::CMD_EXIT)
}

/// A history of a session: each call takes the session from one state to
/// the next and gives one step.
pub open spec fn history(
    states: Seq<TcpModel>,
    calls: Seq<Call>,
    steps: Seq<Step<Payload>>,
) -> bool {
    &&& states.len() == calls.len() + 1
    &&& steps.len() == calls.len()
    &&& forall|i: int|
        0 <= i < calls.len() ==> called(states[i], #[trigger] calls[i], states[i + 1], steps[i])
}

/// The number of steps that send a packet with the given command.
pub open spec fn sent_count(steps: Seq<Step<Payload>>, command: u16) -> nat {
    sent_count_at(steps, 8, command)
}

/// Whether a session is open and not about to close.
pub open spec fn session_open(m: TcpModel) -> bool {
    &&& m.connected
    &&& m.phase != TcpPhase::Closing
    &&& m.phase != TcpPhase::Dialing
    &&& !(m.purpose == Purpose::Exit && (m.phase == TcpPhase::Sending || m.phase
        == TcpPhase::Receiving))
}

/// What one call can send. A connect command goes out only when the
/// connection has just been opened, an exit command only when the closing
/// of an open session is started; only the start of `connect` leads to
/// dialling; and an open session stays open under every call but those
/// two.
pub proof fn lemma_call_effects(pre: TcpModel, call: Call, post: TcpModel, step: Step<Payload>)
    requires
        called(pre, call, post, step),
        !is_raw_session_command(call),
    ensures
        sends_command(step, cmd::CMD_CONNECT) <==> (call matches Call::Resume(Event::Done)
            && pre.phase == TcpPhase::Dialing),
        sends_command(step, cmd::CMD_EXIT) <==> (call is Disconnect && pre.connected),
        post.phase == TcpPhase::Dialing <==> call is Connect,
        session_open(pre) && !(call is Disconnect) && !(call is Connect) ==> session_open(post),
{
    assert forall|c: u16, s: u16, r: u16, d: Seq<u8>|
        word_at(#[trigger] tcp_packet(c, s, r, d), 8) == c && tcp_packet(c, s, r, d).len() == 16
            + d.len() by {
        lemma_packet_command(c, s, r, d);
    }
}

/// Whether a history is that of one session: it begins with `connect`,
/// whose run of three outcomes ends in success; `connect` is not called
/// again; the call at `closing` is the one call of `disconnect`; and no
/// call asks by hand for the connect or the exit command.
pub open spec fn one_session(
    states: Seq<TcpModel>,
    calls: Seq<Call>,
    steps: Seq<Step<Payload>>,
    closing: int,
) -> bool {
    &&& history(states, calls, steps)
    &&& 4 <= closing < calls.len()
    &&& calls[0] is Connect
    &&& calls[1] is Resume
    &&& calls[2] is Resume
    &&& calls[3] is Resume
    &&& steps[1] is Next
    &&& steps[2] is Next
    &&& yields_nothing(steps[3])
    &&& calls[closing] is Disconnect
    &&& forall|i: int|
        0 <= i < calls.len() ==> {
            &&& !is_raw_session_command(#[trigger] calls[i])
            &&& (calls[i] is Connect ==> i == 0)
            &&& (calls[i] is Disconnect ==> i == closing)
        }
}

/// The counts of connect and exit commands after the first `i` calls of
/// a session.
pub proof fn lemma_session_prefix(
    states: Seq<TcpModel>,
    calls: Seq<Call>,
    steps: Seq<Step<Payload>>,
    closing: int,
    i: int,
)
    requires
        one_session(states, calls, steps, closing),
        0 <= i <= calls.len(),
    ensures
        sent_count(steps.take(i), cmd::CMD_CONNECT) == if i >= 2 {
            1nat
        } else {
            0nat
        },
        sent_count(steps.take(i), cmd::CMD_EXIT) == if i > closing {
            1nat
        } else {
            0nat
        },
        i >= 1 ==> (states[i].phase == TcpPhase::Dialing <==> i == 1),
        4 <= i <= closing ==> session_open(states[i]),
    decreases i,
{
    if i == 0 {
        assert(steps.take(0).len() == 0);
    } else {
        let k = i - 1;
        lemma_session_prefix(states, calls, steps, closing, k);
        assert(called(states[k], calls[k], states[k + 1], steps[k]));
        lemma_call_effects(states[k], calls[k], states[k + 1], steps[k]);
        lemma_sent_count_step(steps, k, 8, cmd::CMD_CONNECT);
        lemma_sent_count_step(steps, k, 8, cmd::CMD_EXIT);
        if i == 2 || i == 4 {
            assert(called(states[1], calls[1], states[2], steps[1]));
            assert(called(states[2], calls[2], states[3], steps[2]));
            assert(called(states[3], calls[3], states[4], steps[3]));
            assert(called(states[0], calls[0], states[1], steps[0]));
            let e1 = calls[1]->Resume_0;
            let e2 = calls[2]->Resume_0;
            let e3 = calls[3]->Resume_0;
            lemma_connect_run(
                states[1],
                e1,
                states[2],
                steps[1],
                e2,
                states[3],
                steps[2],
                e3,
                states[4],
                steps[3],
            );
        }
    }
}

/// In the history of one session, exactly one connect command and
/// exactly one exit command are sent.
pub proof fn lemma_session_sends_one_connect_and_one_exit(
    states: Seq<TcpModel>,
    calls: Seq<Call>,
    steps: Seq<Step<Payload>>,
    closing: int,
)
    requires
        one_session(states, calls, steps, closing),
    ensures
        sent_count(steps, cmd::CMD_CONNECT) == 1,
        sent_count(steps, cmd::CMD_EXIT) == 1,
{
    lemma_session_prefix(states, calls, steps, closing, calls.len() as int);
    assert(steps.take(calls.len() as int) =~= steps);
}

/// The session when the request of a bulk read for rows has gone out
/// after the release of the data buffer: two commands have been counted,
/// and nothing of an earlier read is left.
pub open spec fn rows_requested(pre: TcpModel, kind: BulkKind) -> TcpModel {
    TcpModel {
        phase: TcpPhase::BulkRequest,
        purpose: Purpose::FreeBefore,
        command: cmd::CMD_FREE_DATA,
        kind: kind,
        reply_id: reply_id_after(pre.reply_id, 2),
        head: Seq::empty(),
        stream: Seq::empty(),
        chunk: Seq::empty(),
        data: Seq::empty(),
        small: false,
        size: 0,
        sent_chunks: 0,
        packets_remaining: 0,
        ..pre
    }
}

/// A bulk read for rows begins: the data buffer is released, and
/// whatever comes of that, the request for the rows goes out next.
pub proof fn lemma_rows_read_begins(
    pre: TcpModel,
    kind: BulkKind,
    s0: TcpModel,
    st0: Step<Payload>,
    s1: TcpModel,
    st1: Step<Payload>,
    release: Event,
    s2: TcpModel,
    st2: Step<Payload>,
)
    requires
        pre.connected,
        kind != BulkKind::Raw,
        called(
            pre,
            if kind == BulkKind::Users {
                Call::Users
            } else {
                Call::Attendances
            },
            s0,
            st0,
        ),
        resumed(s0, Event::Done, s1, st1),
        release is Data || release is TimedOut || release is Failed,
        resumed(s1, release, s2, st2),
    ensures
        sends_command(st0, cmd::CMD_FREE_DATA),
        st1.asks_receive(pre.timeout_ms),
        s2 == rows_requested(pre, kind),
        st2.asks_send(
            tcp_packet(
                cmd::CMD_DATA_WRRQ,
                pre.session_id,
                reply_id_after(pre.reply_id, 2),
                bulk_request_payload(kind),
            ),
        ),
        sends_command(st2, cmd::CMD_DATA_WRRQ),
{
    lemma_packet_command(
        cmd::CMD_FREE_DATA,
        pre.session_id,
        next_reply_id(pre.reply_id),
        Seq::empty(),
    );
    lemma_packet_command(
        cmd::CMD_DATA_WRRQ,
        pre.session_id,
        reply_id_after(pre.reply_id, 2),
        bulk_request_payload(kind),
    );
    assert(s0.phase == TcpPhase::Sending && s0.purpose == Purpose::FreeBefore);
    assert(s1.phase == TcpPhase::Receiving && s1.purpose == Purpose::FreeBefore);
    assert(s2 =~= rows_requested(pre, kind));
}

/// The session when the first response to a bulk request has arrived.
pub open spec fn first_response(requested: TcpModel, response: Seq<u8>) -> TcpModel {
    TcpModel { phase: TcpPhase::BulkHeader, head: response, ..requested }
}

/// The first response to a bulk request, when it arrives in one read of
/// sixteen bytes or more, is read as `head_decided` says.
pub proof fn lemma_first_response(
    requested: TcpModel,
    s1: TcpModel,
    st1: Step<Payload>,
    response: Vec<u8>,
    s2: TcpModel,
    st2: Step<Payload>,
)
    requires
        requested.phase == TcpPhase::BulkRequest,
        requested.head.len() == 0,
        response@.len() >= 16,
        resumed(requested, Event::Done, s1, st1),
        resumed(s1, Event::Data(response), s2, st2),
    ensures
        st1.asks_receive(requested.timeout_ms),
        head_decided(first_response(requested, response@), s2, st2),
{
    assert(requested.head + response@ =~= response@);
    assert(s1 =~= TcpModel { phase: TcpPhase::BulkHeader, ..requested });
    assert(TcpModel { head: s1.head + response@, ..s1 } =~= first_response(
        requested,
        response@,
    ));
}

/// A first response that is a data packet holds the whole data set behind
/// its sixteen bytes of envelope and header.
pub proof fn lemma_small_response(h: TcpModel, post: TcpModel, step: Step<Payload>)
    requires
        h.head.len() >= 16,
        word_at(h.head, 8) == cmd::CMD_DATA,
        head_decided(h, post, step),
    ensures
        bulk_ends(TcpModel { data: h.head.skip(16), small: true, ..h }, None, post, step),
{
}

/// Taking apart a stream that holds the last chunk in one inner packet
/// gives the data of the chunk.
pub proof fn lemma_last_chunk_drained(packet: ChunkPacket, size: int)
    requires
        packet.header.len() == 8,
        packet.meta.len() == 8,
        packet.data.len() + 8 >= expected_chunk_bytes(size, 1),
        packet.data.len() + 16 <= 65535,
    ensures
        drained(assembly(framed(packet), Seq::empty(), Seq::empty(), 1), size) == assembly(
            Seq::empty(),
            Seq::empty(),
            packet.data,
            0,
        ),
{
    let stream = framed(packet);
    let len: int = 16 + packet.data.len() as int;
    assert(word_at(stream, 4) == len);
    assert(stream.subrange(16, 8 + len) =~= packet.meta + packet.data);
    assert(stream.skip(8 + len) =~= Seq::<u8>::empty());
    let chunk = Seq::<u8>::empty() + stream.subrange(16, 8 + len);
    assert(chunk =~= packet.meta + packet.data);
    assert(chunk.skip(8) =~= packet.data);
    assert(Seq::<u8>::empty() + chunk.skip(8) =~= packet.data);
    let gone = assembly(Seq::empty(), Seq::empty(), packet.data, 0);
    assert(drained(gone, size) == gone);
}

/// When the last chunk request has gone out, the chunks are awaited,
/// against a deadline that starts then.
pub proof fn lemma_requests_done(pre: TcpModel, post: TcpModel, step: Step<Payload>)
    requires
        pre.phase == TcpPhase::BulkChunks,
        pre.sent_chunks >= chunk_count(pre.size as int),
        resumed(pre, Event::Done, post, step),
    ensures
        post == (TcpModel { phase: TcpPhase::BulkReceive, ..pre }),
        step.asks_receive_until(receive_budget_secs(pre.size as int) as u64, true),
{
    assert(post =~= TcpModel { phase: TcpPhase::BulkReceive, ..pre });
}

/// A read that brings the last chunk in one inner packet ends the bulk
/// read with the data of the chunk.
pub proof fn lemma_last_chunk_arrives(
    pre: TcpModel,
    packet: ChunkPacket,
    bytes: Vec<u8>,
    post: TcpModel,
    step: Step<Payload>,
)
    requires
        pre.phase == TcpPhase::BulkReceive,
        pre.packets_remaining == 1,
        pre.stream.len() == 0,
        pre.chunk.len() == 0,
        pre.data.len() == 0,
        packet.header.len() == 8,
        packet.meta.len() == 8,
        packet.data.len() + 8 >= expected_chunk_bytes(pre.size as int, 1),
        packet.data.len() + 16 <= 65535,
        bytes@ == framed(packet),
        !is_event_tcp(bytes@),
        resumed(pre, Event::Data(bytes), post, step),
    ensures
        bulk_ends(TcpModel { data: packet.data, packets_remaining: 0, ..pre }, None, post, step),
{
    lemma_last_chunk_drained(packet, pre.size as int);
    assert(pre.stream + bytes@ =~= framed(packet));
    assert(pre.chunk =~= Seq::<u8>::empty());
    assert(pre.data =~= Seq::<u8>::empty());
    assert(pre.stream =~= Seq::<u8>::empty());
    assert(bytes@.len() > 0);
    let a = drained(
        assembly(pre.stream + bytes@, pre.chunk, pre.data, pre.packets_remaining as int),
        pre.size as int,
    );
    assert(a == assembly(Seq::empty(), Seq::empty(), packet.data, 0));
    assert(TcpModel {
        stream: a.stream,
        chunk: a.chunk,
        data: a.data,
        packets_remaining: a.remaining as u32,
        ..pre
    } =~= TcpModel { data: packet.data, packets_remaining: 0, ..pre });
}

/// A data set that takes one chunk. When the first response announces a
/// size of one chunk at most, the chunk is asked for, the chunk is awaited
/// for ninety seconds, and a read that brings the chunk in one inner
/// packet, eight bytes of metadata in front of its data, ends the bulk
/// read with that data.
pub proof fn lemma_one_chunk_read(
    h: TcpModel,
    size: u32,
    s0: TcpModel,
    st0: Step<Payload>,
    s1: TcpModel,
    st1: Step<Payload>,
    packet: ChunkPacket,
    bytes: Vec<u8>,
    s2: TcpModel,
    st2: Step<Payload>,
)
    requires
        h.head.len() >= 21,
        word_at(h.head, 8) == cmd::CMD_ACK_OK || word_at(h.head, 8) == cmd::CMD_PREPARE_DATA,
        dword_at(h.head.skip(16), 1) == size,
        0 < size <= 65472,
        h.stream.len() == 0,
        h.chunk.len() == 0,
        h.data.len() == 0,
        head_decided(h, s0, st0),
        resumed(s0, Event::Done, s1, st1),
        packet.header.len() == 8,
        packet.meta.len() == 8,
        packet.data.len() + 8 >= expected_chunk_bytes(size as int, 1),
        packet.data.len() + 16 <= 65535,
        bytes@ == framed(packet),
        !is_event_tcp(bytes@),
        resumed(s1, Event::Data(bytes), s2, st2),
    ensures
        s0 == chunks_planned(h, size),
        st0.asks_send(chunk_packet(s0, 0)),
        sends_command(st0, cmd::CMD_DATA_RDY),
        st1.asks_receive_until(90, true),
        bulk_ends(
            TcpModel {
                phase: TcpPhase::BulkReceive,
                data: packet.data,
                packets_remaining: 0,
                ..s0
            },
            None,
            s2,
            st2,
        ),
{
    assert(chunk_count(size as int) == 1);
    lemma_chunks_planned(h, size, s0, st0);
    lemma_requests_done(s0, s1, st1);
    lemma_last_chunk_arrives(s1, packet, bytes, s2, st2);
    assert(TcpModel { data: packet.data, packets_remaining: 0, ..s1 } =~= TcpModel {
        phase: TcpPhase::BulkReceive,
        data: packet.data,
        packets_remaining: 0,
        ..s0
    });
}

/// Reading the users of an open session whose table comes in one small
/// response: the data buffer is released, the table is asked for, the
/// buffer is released again, and the rows that follow the sixteen bytes
/// of envelope and header are decoded in the extended layout. Whatever
/// comes of the two releases does not matter.
pub proof fn lemma_small_users_run(
    pre: TcpModel,
    s0: TcpModel,
    st0: Step<Payload>,
    release: Event,
    response: Vec<u8>,
    release_again: Event,
    s: Seq<TcpModel>,
    st: Seq<Step<Payload>>,
)
    requires
        pre.connected,
        called(pre, Call::Users, s0, st0),
        release is Data || release is TimedOut || release is Failed,
        release_again is Data || release_again is TimedOut || release_again is Failed,
        response@.len() >= 16,
        word_at(response@, 8) == cmd::CMD_DATA,
        s.len() == 6,
        st.len() == 6,
        resumed(s0, Event::Done, s[0], st[0]),
        resumed(s[0], release, s[1], st[1]),
        resumed(s[1], Event::Done, s[2], st[2]),
        resumed(s[2], Event::Data(response), s[3], st[3]),
        resumed(s[3], Event::Done, s[4], st[4]),
        resumed(s[4], release_again, s[5], st[5]),
    ensures
        sends_command(st0, cmd::CMD_FREE_DATA),
        sends_command(st[1], cmd::CMD_DATA_WRRQ),
        sends_command(st[3], cmd::CMD_FREE_DATA),
        yields_user_rows(st[5], response@.skip(16), UserLayout::Extended),
{
    lemma_rows_read_begins(pre, BulkKind::Users, s0, st0, s[0], st[0], release, s[1], st[1]);
    let requested = rows_requested(pre, BulkKind::Users);
    lemma_first_response(requested, s[2], st[2], response, s[3], st[3]);
    let h = first_response(requested, response@);
    lemma_small_response(h, s[3], st[3]);
    let read = TcpModel { data: h.head.skip(16), small: true, ..h };
    lemma_rows_after_read(read, s[3], st[3], Event::Done, s[4], st[4], release_again, s[5], st[5]);
}

/// Reading the users of an open session whose table takes one chunk: the
/// data buffer is released, the table is asked for, the device announces
/// its size, the chunk is asked for and comes in one inner packet, the
/// buffer is released again, and the rows of the chunk's data are decoded
/// in the extended layout. The data holds the four bytes of the length
/// prefix and the rows; the announced size may count the prefix or not.
pub proof fn lemma_chunked_users_run(
    pre: TcpModel,
    s0: TcpModel,
    st0: Step<Payload>,
    release: Event,
    response: Vec<u8>,
    size: u32,
    packet: ChunkPacket,
    bytes: Vec<u8>,
    release_again: Event,
    s: Seq<TcpModel>,
    st: Seq<Step<Payload>>,
)
    requires
        pre.connected,
        called(pre, Call::Users, s0, st0),
        release is Data || release is TimedOut || release is Failed,
        release_again is Data || release_again is TimedOut || release_again is Failed,
        response@.len() >= 21,
        word_at(response@, 8) == cmd::CMD_ACK_OK || word_at(response@, 8)
            == cmd::CMD_PREPARE_DATA,
        dword_at(response@.skip(16), 1) == size,
        0 < size <= 65472,
        packet.header.len() == 8,
        packet.meta.len() == 8,
        packet.data.len() + 8 >= expected_chunk_bytes(size as int, 1),
        packet.data.len() + 16 <= 65535,
        bytes@ == framed(packet),
        !is_event_tcp(bytes@),
        s.len() == 8,
        st.len() == 8,
        resumed(s0, Event::Done, s[0], st[0]),
        resumed(s[0], release, s[1], st[1]),
        resumed(s[1], Event::Done, s[2], st[2]),
        resumed(s[2], Event::Data(response), s[3], st[3]),
        resumed(s[3], Event::Done, s[4], st[4]),
        resumed(s[4], Event::Data(bytes), s[5], st[5]),
        resumed(s[5], Event::Done, s[6], st[6]),
        resumed(s[6], release_again, s[7], st[7]),
    ensures
        sends_command(st0, cmd::CMD_FREE_DATA),
        sends_command(st[1], cmd::CMD_DATA_WRRQ),
        sends_command(st[3], cmd::CMD_DATA_RDY),
        st[4].asks_receive_until(90, true),
        sends_command(st[5], cmd::CMD_FREE_DATA),
        yields_user_rows(st[7], packet.data, UserLayout::Extended),
{
    lemma_rows_read_begins(pre, BulkKind::Users, s0, st0, s[0], st[0], release, s[1], st[1]);
    let requested = rows_requested(pre, BulkKind::Users);
    lemma_first_response(requested, s[2], st[2], response, s[3], st[3]);
    let h = first_response(requested, response@);
    lemma_one_chunk_read(h, size, s[3], st[3], s[4], st[4], packet, bytes, s[5], st[5]);
    let read = TcpModel {
        phase: TcpPhase::BulkReceive,
        data: packet.data,
        packets_remaining: 0,
        ..s[3]
    };
    lemma_rows_after_read(read, s[5], st[5], Event::Done, s[6], st[6], release_again, s[7], st[7]);
}

/// The rows of a bulk read. Once a bulk read for rows has its data set,
/// the data buffer is released once more, and whatever comes of that, the
/// operation ends with the rows of the data set: it skips the four bytes
/// of the length prefix, decodes every whole row of 72 bytes for users
/// and of 40 bytes for attendance records, in their order, and leaves a
/// shorter remainder unread.
pub proof fn lemma_rows_after_read(
    pre: TcpModel,
    s0: TcpModel,
    st0: Step<Payload>,
    sent: Event,
    s1: TcpModel,
    st1: Step<Payload>,
    reply: Event,
    s2: TcpModel,
    st2: Step<Payload>,
)
    requires
        pre.connected,
        pre.kind != BulkKind::Raw,
        bulk_ends(pre, None, s0, st0),
        sent is Done || sent is Failed,
        reply is Data || reply is TimedOut || reply is Failed,
        resumed(s0, sent, s1, st1),
        st1 is Next ==> resumed(s1, reply, s2, st2),
    ensures
        sends_command(st0, cmd::CMD_FREE_DATA),
        st1 is Next ==> st1.asks_receive(pre.timeout_ms),
        ({
            let last = if st1 is Next {
                st2
            } else {
                st1
            };
            &&& pre.kind == BulkKind::Users ==> yields_user_rows(
                last,
                pre.data,
                UserLayout::Extended,
            )
            &&& pre.kind == BulkKind::Attendances ==> yields_record_rows(
                last,
                pre.data,
                RecordLayout::Full,
            )
        }),
{
    lemma_packet_command(
        cmd::CMD_FREE_DATA,
        pre.session_id,
        next_reply_id(pre.reply_id),
        Seq::empty(),
    );
}

/// The session when the device has announced a data set of `size` bytes
/// and the first chunk has been asked for: the requests for all chunks
/// have their reply ids, one after the other.
pub open spec fn chunks_planned(h: TcpModel, size: u32) -> TcpModel {
    TcpModel {
        phase: TcpPhase::BulkChunks,
        size: size,
        packets_remaining: chunk_count(size as int) as u32,
        sent_chunks: 1,
        chunk_base: h.reply_id,
        reply_id: reply_id_after(h.reply_id, chunk_count(size as int)),
        ..h
    }
}

/// A first response that announces a data set which is not empty makes
/// the plan of its chunks and sends the request for the first.
pub proof fn lemma_chunks_planned(h: TcpModel, size: u32, post: TcpModel, step: Step<Payload>)
    requires
        h.head.len() >= 21,
        word_at(h.head, 8) == cmd::CMD_ACK_OK || word_at(h.head, 8) == cmd::CMD_PREPARE_DATA,
        dword_at(h.head.skip(16), 1) == size,
        size > 0,
        head_decided(h, post, step),
    ensures
        post == chunks_planned(h, size),
        step.asks_send(chunk_packet(post, 0)),
        sends_command(step, cmd::CMD_DATA_RDY),
{
    assert(chunk_count(size as int) > 0);
    assert(post =~= chunks_planned(h, size));
    lemma_packet_command(
        cmd::CMD_DATA_RDY,
        post.session_id,
        reply_id_after(post.chunk_base, 1),
        chunk_request_payload(size as int, 0),
    );
}

/// The session after `i` chunk requests have gone out.
pub open spec fn requesting(first: TcpModel, i: int) -> TcpModel {
    TcpModel { sent_chunks: i as u32, ..first }
}

/// Whether the states and steps are those of the chunk requests that
/// follow the first: `first` is the session when the first request has
/// been handed out, and each request is followed by the outcome that it
/// has gone out.
pub open spec fn chunk_request_run(
    first: TcpModel,
    states: Seq<TcpModel>,
    steps: Seq<Step<Payload>>,
) -> bool {
    let n = chunk_count(first.size as int);
    &&& first.phase == TcpPhase::BulkChunks
    &&& first.sent_chunks == 1
    &&& first.size > 0
    &&& states.len() == n + 1
    &&& steps.len() == n + 1
    &&& states[0] == first
    &&& forall|i: int|
        1 <= i <= n ==> resumed(states[i - 1], Event::Done, #[trigger] states[i], steps[i])
}

/// The request for chunk `i` of a bulk read, for `i` above zero.
pub proof fn lemma_chunk_request(
    first: TcpModel,
    states: Seq<TcpModel>,
    steps: Seq<Step<Payload>>,
    i: int,
)
    requires
        chunk_request_run(first, states, steps),
        0 <= i < chunk_count(first.size as int),
    ensures
        states[i] == requesting(first, i + 1),
        i > 0 ==> steps[i].asks_send(chunk_packet(first, i)),
    decreases i,
{
    if i == 0 {
        assert(states[0] =~= requesting(first, 1));
    } else {
        lemma_chunk_request(first, states, steps, i - 1);
        let pre = states[i - 1];
        assert(pre == requesting(first, i));
        assert(resumed(pre, Event::Done, states[i], steps[i]));
        assert(pre.phase == TcpPhase::BulkChunks);
        assert((pre.sent_chunks as int) < chunk_count(pre.size as int));
        assert(states[i] =~= requesting(first, i + 1));
        assert(chunk_packet(pre, i) == chunk_packet(first, i));
    }
}

/// The chunk requests of a bulk read. For a data set of `size` bytes,
/// exactly `size / 65472`, rounded up, requests are sent, all of them
/// before the first chunk is awaited. Request `i` asks for the bytes from
/// `i * 65472` on, a full chunk or what is left for the last one, under
/// the reply id that follows that of the request before it.
pub proof fn lemma_chunk_requests_run(
    first: TcpModel,
    states: Seq<TcpModel>,
    steps: Seq<Step<Payload>>,
)
    requires
        chunk_request_run(first, states, steps),
    ensures
        forall|i: int|
            1 <= i < chunk_count(first.size as int) ==> (#[trigger] steps[i]).asks_send(
                chunk_packet(first, i),
            ),
        steps[chunk_count(first.size as int)].asks_receive_until(
            receive_budget_secs(first.size as int) as u64,
            true,
        ),
        states[chunk_count(first.size as int)].phase == TcpPhase::BulkReceive,
{
    let n = chunk_count(first.size as int);
    assert forall|i: int| 1 <= i < n implies (#[trigger] steps[i]).asks_send(
        chunk_packet(first, i),
    ) by {
        lemma_chunk_request(first, states, steps, i);
    }
    lemma_chunk_request(first, states, steps, n - 1);
    let last = states[n - 1];
    assert(last == requesting(first, n));
    assert(resumed(last, Event::Done, states[n], steps[n]));
    assert(last.phase == TcpPhase::BulkChunks);
    assert(!((last.sent_chunks as int) < chunk_count(last.size as int)));
}

} // verus!
