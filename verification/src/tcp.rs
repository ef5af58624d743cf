//! The stream transport: one session with a terminal over TCP, as a state
//! machine.
//!
//! An operation is started by the method of its name, which hands out the
//! first step. Each `Step::Next` names an action for the owner of the
//! socket; its outcome goes to `ZKTcp::resume`, until a `Step::Finished`
//! carries the result of the operation.

use vstd::prelude::*;
use vstd::slice::{slice_subrange, slice_to_vec};
use vstd::string::StringExecFns;
use crate::protocol::{
    append_bytes, check_not_event_tcp, cmd, command_name, create_tcp_header, decode_tcp_header,
    dword_at, is_event_tcp, le32_bytes, read_u16, read_u32, remove_tcp_header, request_data,
    tcp_packet, without_envelope, word_at,
};
use crate::protocol::records::{decode_record_rows, decode_user_rows, RecordLayout, UserLayout};
use crate::session::{
    auth_payload, auth_verdict, bulk_request_payload, check_auth_reply, device_address, info_counts,
    next_reply_id, read_info_counts, reply_id_after, reply_of, session_after_connect, text_of,
    unexpected_command_text, yields_buffer, yields_bytes, yields_counts, yields_nothing,
    yields_record_rows, yields_user_rows, BulkKind, Payload, Purpose,
};
use crate::step::{unexpected_event, unexpected_event_text, Action, Event, Step};
use crate::tcp::assembly::{assembly, drain_stream, drained};
use crate::text::{decimal, decimal_digits, join2, join3, join4};
use crate::transfer::{
    chunk_count, chunk_request, chunk_request_payload, receive_budget, receive_budget_secs,
    total_chunks,
};

pub mod assembly;
pub mod laws;

verus! {

/// What the machine is waiting for.
#[derive(Debug, Clone, Copy, PartialEq, Eq, Structural)]
pub enum TcpPhase {
    /// No operation is in flight.
    Idle,
    /// The connection is being opened.
    Dialing,
    /// A command packet is being written.
    Sending,
    /// The reply to a command is awaited.
    Receiving,
    /// The bulk request is being written.
    BulkRequest,
    /// The first response to a bulk request is being collected.
    BulkHeader,
    /// The chunk requests are being written.
    BulkChunks,
    /// The chunks are being received.
    BulkReceive,
    /// The connection is being closed.
    Closing,
}

/// The state of a stream session.
pub struct ZKTcp {
    pub ip: String,
    pub port: u16,
    pub timeout_ms: u64,
    /// Whether the connection is open.
    pub connected: bool,
    pub session_id: u16,
    pub reply_id: u16,
    pub phase: TcpPhase,
    pub purpose: Purpose,
    pub kind: BulkKind,
    /// The command in flight.
    pub command: u16,
    /// The first response to a bulk request, as far as it has arrived.
    pub head: Vec<u8>,
    /// Received bytes that do not yet make a whole inner packet.
    pub stream: Vec<u8>,
    /// The payload of the chunk that is being received.
    pub chunk: Vec<u8>,
    /// The data set assembled so far.
    pub data: Vec<u8>,
    /// Whether the data set came in a single small response.
    pub small: bool,
    /// The size that the device announced for the data set.
    pub size: u32,
    /// The number of chunk requests handed out.
    pub sent_chunks: u32,
    /// The number of chunks still to come.
    pub packets_remaining: u32,
    /// The reply counter before the chunk requests were numbered.
    pub chunk_base: u16,
}

/// The state of a stream session as plain values.
#[verifier::ext_equal]
pub struct TcpModel {
    pub ip: Seq<char>,
    pub port: u16,
    pub timeout_ms: u64,
    pub connected: bool,
    pub session_id: u16,
    pub reply_id: u16,
    pub phase: TcpPhase,
    pub purpose: Purpose,
    pub kind: BulkKind,
    pub command: u16,
    pub head: Seq<u8>,
    pub stream: Seq<u8>,
    pub chunk: Seq<u8>,
    pub data: Seq<u8>,
    pub small: bool,
    pub size: u32,
    pub sent_chunks: u32,
    pub packets_remaining: u32,
    pub chunk_base: u16,
}

impl View for ZKTcp {
    type V = TcpModel;

    open spec fn view(&self) -> TcpModel {
        TcpModel {
            ip: self.ip@,
            port: self.port,
            timeout_ms: self.timeout_ms,
            connected: self.connected,
            session_id: self.session_id,
            reply_id: self.reply_id,
            phase: self.phase,
            purpose: self.purpose,
            kind: self.kind,
            command: self.command,
            head: self.head@,
            stream: self.stream@,
            chunk: self.chunk@,
            data: self.data@,
            small: self.small,
            size: self.size,
            sent_chunks: self.sent_chunks,
            packets_remaining: self.packets_remaining,
            chunk_base: self.chunk_base,
        }
    }
}

/// The milliseconds allowed for opening the connection: the session's
/// timeout, and five seconds at most.
pub open spec fn dial_timeout_ms(timeout_ms: u64) -> u64 {
    if timeout_ms < 5000 {
        timeout_ms
    } else {
        5000
    }
}

/// The milliseconds allowed for the reply to a command: two seconds for
/// the connect and exit commands, the session's timeout for the others.
pub open spec fn reply_timeout_ms(m: TcpModel) -> u64 {
    if m.command == cmd::CMD_CONNECT || m.command == cmd::CMD_EXIT {
        2000
    } else {
        m.timeout_ms
    }
}

/// The state with the counters as the next command needs them: the
/// connect command resets both, any other command counts one up.
pub open spec fn counted(m: TcpModel, command: u16) -> TcpModel {
    if command == cmd::CMD_CONNECT {
        TcpModel { session_id: 0, reply_id: 0, ..m }
    } else {
        TcpModel { reply_id: next_reply_id(m.reply_id), ..m }
    }
}

/// The packet that asks for chunk `i` of the data set.
pub open spec fn chunk_packet(m: TcpModel, i: int) -> Seq<u8> {
    tcp_packet(
        cmd::CMD_DATA_RDY,
        m.session_id,
        reply_id_after(m.chunk_base, i + 1),
        chunk_request_payload(m.size as int, i),
    )
}

/// The text of the error for a deadline that passed between two reads.
pub open spec fn chunks_expired_text(m: TcpModel) -> Seq<char> {
    "Timeout receiving chunks, "@ + decimal_digits(m.packets_remaining as nat)
        + " packets remain, got "@ + decimal_digits(m.data.len()) + "/"@ + decimal_digits(
        m.size as nat,
    ) + " bytes"@
}

/// The text of the error for a read that ran into the deadline.
pub open spec fn chunk_timeout_text(m: TcpModel) -> Seq<char> {
    "Timeout receiving chunk data, "@ + decimal_digits(m.packets_remaining as nat)
        + " packets remain"@
}

/// The operation is given up: the outcome is not one that the machine was
/// waiting for.
pub open spec fn aborted(pre: TcpModel, post: TcpModel, step: Step<Payload>) -> bool {
    &&& post =~= TcpModel { phase: TcpPhase::Idle, ..pre }
    &&& step.fails_with(unexpected_event_text())
}

/// The operation ends with the error `message`.
pub open spec fn failed(
    pre: TcpModel,
    message: Seq<char>,
    post: TcpModel,
    step: Step<Payload>,
) -> bool {
    &&& post =~= TcpModel { phase: TcpPhase::Idle, ..pre }
    &&& step.fails_with(message)
}

/// A bulk read for rows ends: the assembled bytes are decoded by the
/// stream layouts and handed back.
pub open spec fn rows_delivered(pre: TcpModel, post: TcpModel, step: Step<Payload>) -> bool {
    &&& post =~= TcpModel { phase: TcpPhase::Idle, ..pre }
    &&& match pre.kind {
        BulkKind::Raw => yields_buffer(step, pre.data, pre.small),
        BulkKind::Users => yields_user_rows(step, pre.data, UserLayout::Extended),
        BulkKind::Attendances => yields_record_rows(step, pre.data, RecordLayout::Full),
    }
}

/// After a bulk read for rows, the device's buffer is released once more;
/// the reply to that command is awaited but not looked at.
pub open spec fn free_after_begins(pre: TcpModel, post: TcpModel, step: Step<Payload>) -> bool {
    let m = TcpModel {
        purpose: Purpose::FreeAfter,
        command: cmd::CMD_FREE_DATA,
        ..counted(pre, cmd::CMD_FREE_DATA)
    };
    if pre.connected {
        &&& post =~= TcpModel { phase: TcpPhase::Sending, ..m }
        &&& step.asks_send(
            tcp_packet(cmd::CMD_FREE_DATA, m.session_id, m.reply_id, Seq::empty()),
        )
    } else {
        rows_delivered(m, post, step)
    }
}

/// A bulk read ends, with an error or with the data set in `pre.data`.
pub open spec fn bulk_ends(
    pre: TcpModel,
    error: Option<Seq<char>>,
    post: TcpModel,
    step: Step<Payload>,
) -> bool {
    match error {
        Some(message) => failed(pre, message, post, step),
        None => match pre.kind {
            BulkKind::Raw => rows_delivered(pre, post, step),
            _ => free_after_begins(pre, post, step),
        },
    }
}

/// A bulk read begins: the request goes out under the next reply id.
pub open spec fn bulk_begins(
    pre: TcpModel,
    kind: BulkKind,
    request: Seq<u8>,
    post: TcpModel,
    step: Step<Payload>,
) -> bool {
    let m = TcpModel {
        reply_id: next_reply_id(pre.reply_id),
        kind: kind,
        head: Seq::empty(),
        stream: Seq::empty(),
        chunk: Seq::empty(),
        data: Seq::empty(),
        small: false,
        size: 0,
        sent_chunks: 0,
        packets_remaining: 0,
        ..pre
    };
    if pre.connected {
        &&& post =~= TcpModel { phase: TcpPhase::BulkRequest, ..m }
        &&& step.asks_send(tcp_packet(cmd::CMD_DATA_WRRQ, m.session_id, m.reply_id, request))
    } else {
        bulk_ends(m, Some("TCP not connected"@), post, step)
    }
}

/// A command exchange ends, with the raw reply or with an error. What
/// follows depends on what the command was sent for.
pub open spec fn exchange_ends(
    pre: TcpModel,
    result: Result<Seq<u8>, Seq<char>>,
    post: TcpModel,
    step: Step<Payload>,
) -> bool {
    let idle = TcpModel { phase: TcpPhase::Idle, ..pre };
    match pre.purpose {
        Purpose::FreeBefore => bulk_begins(
            pre,
            pre.kind,
            bulk_request_payload(pre.kind),
            post,
            step,
        ),
        Purpose::FreeAfter => rows_delivered(pre, post, step),
        Purpose::Exit => post =~= TcpModel { phase: TcpPhase::Closing, ..pre } && step.asks_close(),
        _ => match result {
            Err(message) => failed(pre, message, post, step),
            Ok(reply) => match pre.purpose {
                Purpose::Connect => {
                    &&& post =~= TcpModel {
                        session_id: session_after_connect(pre.session_id, without_envelope(reply)),
                        ..idle
                    }
                    &&& yields_nothing(step)
                },
                Purpose::Auth => match auth_verdict(without_envelope(reply)) {
                    None => post =~= idle && yields_nothing(step),
                    Some(message) => failed(pre, message, post, step),
                },
                Purpose::Info => {
                    &&& post =~= idle
                    &&& yields_counts(
                        step,
                        info_counts(without_envelope(reply)).0,
                        info_counts(without_envelope(reply)).1,
                    )
                },
                Purpose::Free => post =~= idle && yields_nothing(step),
                _ => post =~= idle && yields_bytes(step, reply),
            },
        },
    }
}

/// A command exchange begins: the counters move, and the packet goes out
/// if the connection is open.
pub open spec fn exchange_begins(
    pre: TcpModel,
    command: u16,
    data: Seq<u8>,
    purpose: Purpose,
    post: TcpModel,
    step: Step<Payload>,
) -> bool {
    let m = TcpModel { purpose: purpose, command: command, ..counted(pre, command) };
    if pre.connected {
        &&& post =~= TcpModel { phase: TcpPhase::Sending, ..m }
        &&& step.asks_send(tcp_packet(command, m.session_id, m.reply_id, data))
    } else {
        exchange_ends(m, Err("TCP not connected"@), post, step)
    }
}

/// The first response to a bulk request is complete enough to be read:
/// sixteen bytes or more are in `pre.head`.
pub open spec fn head_decided(pre: TcpModel, post: TcpModel, step: Step<Payload>) -> bool {
    let code = word_at(pre.head, 8) as u16;
    let body = pre.head.skip(16);
    if code == cmd::CMD_DATA {
        bulk_ends(TcpModel { data: body, small: true, ..pre }, None, post, step)
    } else if code == cmd::CMD_ACK_OK || code == cmd::CMD_PREPARE_DATA {
        if body.len() < 5 {
            bulk_ends(pre, Some("Prepare data response too short"@), post, step)
        } else {
            let size = dword_at(body, 1) as u32;
            let total = chunk_count(size as int);
            let planned = TcpModel {
                size: size,
                packets_remaining: total as u32,
                chunk_base: pre.reply_id,
                reply_id: reply_id_after(pre.reply_id, total),
                ..pre
            };
            if total == 0 {
                bulk_ends(planned, None, post, step)
            } else {
                &&& post =~= TcpModel { phase: TcpPhase::BulkChunks, sent_chunks: 1, ..planned }
                &&& step.asks_send(chunk_packet(planned, 0))
            }
        }
    } else {
        bulk_ends(pre, Some(unexpected_command_text(code)), post, step)
    }
}

/// Bytes have arrived while chunks are received.
pub open spec fn chunk_bytes_arrived(
    pre: TcpModel,
    bytes: Seq<u8>,
    post: TcpModel,
    step: Step<Payload>,
) -> bool {
    if bytes.len() == 0 {
        bulk_ends(pre, Some("Connection closed during chunk transfer"@), post, step)
    } else if is_event_tcp(bytes) {
        post =~= pre && step.asks_receive_until(
            receive_budget_secs(pre.size as int) as u64,
            false,
        )
    } else {
        let a = drained(
            assembly(pre.stream + bytes, pre.chunk, pre.data, pre.packets_remaining as int),
            pre.size as int,
        );
        let m = TcpModel {
            stream: a.stream,
            chunk: a.chunk,
            data: a.data,
            packets_remaining: a.remaining as u32,
            ..pre
        };
        if a.malformed {
            bulk_ends(m, Some("Malformed chunk packet"@), post, step)
        } else if a.remaining == 0 {
            bulk_ends(m, None, post, step)
        } else {
            post =~= m && step.asks_receive_until(
                receive_budget_secs(pre.size as int) as u64,
                false,
            )
        }
    }
}

/// What `resume` does: the state and the step that follow the outcome
/// `event` in the state `pre`.
pub open spec fn resumed(pre: TcpModel, event: Event, post: TcpModel, step: Step<Payload>) -> bool {
    match pre.phase {
        TcpPhase::Idle => aborted(pre, post, step),
        TcpPhase::Dialing => match event {
            Event::Done => exchange_begins(
                TcpModel { connected: true, session_id: 0, reply_id: 0, ..pre },
                cmd::CMD_CONNECT,
                Seq::empty(),
                Purpose::Connect,
                post,
                step,
            ),
            Event::TimedOut => failed(
                pre,
                "TCP connect timeout to "@ + device_address(pre.ip, pre.port),
                post,
                step,
            ),
            Event::Failed(e) => failed(
                pre,
                "TCP connect failed to "@ + device_address(pre.ip, pre.port) + ": "@ + e@,
                post,
                step,
            ),
            _ => aborted(pre, post, step),
        },
        TcpPhase::Sending => match event {
            Event::Done => {
                &&& post =~= TcpModel { phase: TcpPhase::Receiving, ..pre }
                &&& step.asks_receive(reply_timeout_ms(pre))
            },
            Event::Failed(e) => exchange_ends(pre, Err("TCP write failed: "@ + e@), post, step),
            _ => aborted(pre, post, step),
        },
        TcpPhase::Receiving => match event {
            Event::Data(bytes) => if bytes@.len() == 0 {
                exchange_ends(pre, Err("Connection closed by device"@), post, step)
            } else {
                exchange_ends(pre, Ok(bytes@), post, step)
            },
            Event::TimedOut => exchange_ends(
                pre,
                Err("Timeout waiting for TCP response"@),
                post,
                step,
            ),
            Event::Failed(e) => exchange_ends(pre, Err("TCP read failed: "@ + e@), post, step),
            _ => aborted(pre, post, step),
        },
        TcpPhase::BulkRequest => match event {
            Event::Done => {
                &&& post =~= TcpModel { phase: TcpPhase::BulkHeader, ..pre }
                &&& step.asks_receive(pre.timeout_ms)
            },
            Event::Failed(e) => bulk_ends(pre, Some("TCP write failed: "@ + e@), post, step),
            _ => aborted(pre, post, step),
        },
        TcpPhase::BulkHeader => match event {
            Event::Data(bytes) => if bytes@.len() == 0 {
                bulk_ends(pre, Some("Connection closed during data request"@), post, step)
            } else if pre.head.len() + bytes@.len() < 16 {
                &&& post =~= TcpModel { head: pre.head + bytes@, ..pre }
                &&& step.asks_receive(pre.timeout_ms)
            } else {
                head_decided(TcpModel { head: pre.head + bytes@, ..pre }, post, step)
            },
            Event::TimedOut => bulk_ends(
                pre,
                Some("Timeout receiving data request response"@),
                post,
                step,
            ),
            Event::Failed(e) => bulk_ends(pre, Some("TCP read failed: "@ + e@), post, step),
            _ => aborted(pre, post, step),
        },
        TcpPhase::BulkChunks => match event {
            Event::Done => if (pre.sent_chunks as int) < chunk_count(pre.size as int) {
                &&& post =~= TcpModel { sent_chunks: (pre.sent_chunks + 1) as u32, ..pre }
                &&& step.asks_send(chunk_packet(pre, pre.sent_chunks as int))
            } else {
                &&& post =~= TcpModel { phase: TcpPhase::BulkReceive, ..pre }
                &&& step.asks_receive_until(receive_budget_secs(pre.size as int) as u64, true)
            },
            Event::Failed(e) => bulk_ends(
                pre,
                Some("TCP write chunk request failed: "@ + e@),
                post,
                step,
            ),
            _ => aborted(pre, post, step),
        },
        TcpPhase::BulkReceive => match event {
            Event::Data(bytes) => chunk_bytes_arrived(pre, bytes@, post, step),
            Event::Expired => bulk_ends(pre, Some(chunks_expired_text(pre)), post, step),
            Event::TimedOut => bulk_ends(pre, Some(chunk_timeout_text(pre)), post, step),
            Event::Failed(e) => bulk_ends(pre, Some("TCP read chunk failed: "@ + e@), post, step),
            _ => aborted(pre, post, step),
        },
        TcpPhase::Closing => {
            &&& post =~= TcpModel { phase: TcpPhase::Idle, connected: false, ..pre }
            &&& yields_nothing(step)
        },
    }
}

/// The state of a session that has not been opened.
pub open spec fn fresh_session(ip: Seq<char>, port: u16, timeout_ms: u64) -> TcpModel {
    TcpModel {
        ip: ip,
        port: port,
        timeout_ms: timeout_ms,
        connected: false,
        session_id: 0,
        reply_id: 0,
        phase: TcpPhase::Idle,
        purpose: Purpose::Command,
        kind: BulkKind::Raw,
        command: 0,
        head: Seq::empty(),
        stream: Seq::empty(),
        chunk: Seq::empty(),
        data: Seq::empty(),
        small: false,
        size: 0,
        sent_chunks: 0,
        packets_remaining: 0,
        chunk_base: 0,
    }
}

impl ZKTcp {
    /// A session with the device at `ip:port` that has not been opened.
    pub fn new(ip: &str, port: u16, timeout_ms: u64) -> (tcp: Self)
        ensures
            tcp@ == fresh_session(ip@, port, timeout_ms),
    {
        ZKTcp {
            ip: String::from_str(ip),
            port: port,
            timeout_ms: timeout_ms,
            connected: false,
            session_id: 0,
            reply_id: 0,
            phase: TcpPhase::Idle,
            purpose: Purpose::Command,
            kind: BulkKind::Raw,
            command: 0,
            head: Vec::new(),
            stream: Vec::new(),
            chunk: Vec::new(),
            data: Vec::new(),
            small: false,
            size: 0,
            sent_chunks: 0,
            packets_remaining: 0,
            chunk_base: 0,
        }
    }

    /// The address `ip:port` of the device.
    pub fn address(&self) -> (address: String)
        ensures
            address@ == device_address(self@.ip, self@.port),
    {
        let port = decimal(self.port as u64);
        join3(self.ip.as_str(), ":", port.as_str())
    }

    fn fail(&mut self, message: String) -> (step: Step<Payload>)
        ensures
            failed(old(self)@, message@, final(self)@, step),
    {
        self.phase = TcpPhase::Idle;
        Step::Finished(Err(message))
    }

    fn abort(&mut self) -> (step: Step<Payload>)
        ensures
            aborted(old(self)@, final(self)@, step),
    {
        self.phase = TcpPhase::Idle;
        unexpected_event()
    }

    fn count(&mut self, command: u16)
        ensures
            final(self)@ == counted(old(self)@, command),
    {
        if command == cmd::CMD_CONNECT {
            self.session_id = 0;
            self.reply_id = 0;
        } else {
            self.reply_id = self.reply_id.wrapping_add(1);
        }
    }

    fn deliver_rows(&mut self) -> (step: Step<Payload>)
        ensures
            rows_delivered(old(self)@, final(self)@, step),
    {
        self.phase = TcpPhase::Idle;
        match self.kind {
            BulkKind::Raw => {
                let copy = slice_to_vec(self.data.as_slice());
                Step::Finished(Ok(Payload::Buffer(copy, self.small)))
            },
            BulkKind::Users => {
                let rows = decode_user_rows(self.data.as_slice(), UserLayout::Extended);
                Step::Finished(Ok(Payload::UserRows(rows)))
            },
            BulkKind::Attendances => {
                let rows = decode_record_rows(self.data.as_slice(), RecordLayout::Full);
                Step::Finished(Ok(Payload::RecordRows(rows)))
            },
        }
    }

    fn begin_free_after(&mut self) -> (step: Step<Payload>)
        ensures
            free_after_begins(old(self)@, final(self)@, step),
    {
        self.count(cmd::CMD_FREE_DATA);
        self.purpose = Purpose::FreeAfter;
        self.command = cmd::CMD_FREE_DATA;
        if self.connected {
            let empty: Vec<u8> = Vec::new();
            let packet = create_tcp_header(
                cmd::CMD_FREE_DATA,
                self.session_id,
                self.reply_id,
                empty.as_slice(),
            );
            self.phase = TcpPhase::Sending;
            Step::Next(Action::Send { bytes: packet })
        } else {
            self.deliver_rows()
        }
    }

    fn end_bulk(&mut self, error: Option<String>) -> (step: Step<Payload>)
        ensures
            bulk_ends(old(self)@, text_of(error), final(self)@, step),
    {
        match error {
            Some(message) => self.fail(message),
            None => match self.kind {
                BulkKind::Raw => self.deliver_rows(),
                _ => self.begin_free_after(),
            },
        }
    }

    fn begin_bulk(&mut self, kind: BulkKind, request: &[u8]) -> (step: Step<Payload>)
        ensures
            bulk_begins(old(self)@, kind, request@, final(self)@, step),
    {
        self.reply_id = self.reply_id.wrapping_add(1);
        self.kind = kind;
        self.head.clear();
        self.stream.clear();
        self.chunk.clear();
        self.data.clear();
        self.small = false;
        self.size = 0;
        self.sent_chunks = 0;
        self.packets_remaining = 0;
        if self.connected {
            let packet = create_tcp_header(
                cmd::CMD_DATA_WRRQ,
                self.session_id,
                self.reply_id,
                request,
            );
            self.phase = TcpPhase::BulkRequest;
            Step::Next(Action::Send { bytes: packet })
        } else {
            self.end_bulk(Some("TCP not connected".to_string()))
        }
    }

    fn end_exchange(&mut self, result: Result<Vec<u8>, String>) -> (step: Step<Payload>)
        ensures
            exchange_ends(old(self)@, reply_of(result), final(self)@, step),
    {
        match self.purpose {
            Purpose::FreeBefore => {
                let kind = self.kind;
                match kind {
                    BulkKind::Users => self.begin_bulk(kind, request_data::GET_USERS.as_slice()),
                    _ => self.begin_bulk(kind, request_data::GET_ATTENDANCE_LOGS.as_slice()),
                }
            },
            Purpose::FreeAfter => self.deliver_rows(),
            Purpose::Exit => {
                self.phase = TcpPhase::Closing;
                Step::Next(Action::Close)
            },
            _ => match result {
                Err(message) => self.fail(message),
                Ok(reply) => {
                    match self.purpose {
                        Purpose::Connect => {
                            let inner = remove_tcp_header(reply.as_slice());
                            if inner.len() >= 6 {
                                self.session_id = read_u16(inner, 4);
                            }
                            self.phase = TcpPhase::Idle;
                            Step::Finished(Ok(Payload::Nothing))
                        },
                        Purpose::Auth => {
                            let inner = remove_tcp_header(reply.as_slice());
                            match check_auth_reply(inner) {
                                Ok(_) => {
                                    self.phase = TcpPhase::Idle;
                                    Step::Finished(Ok(Payload::Nothing))
                                },
                                Err(message) => self.fail(message),
                            }
                        },
                        Purpose::Info => {
                            let inner = remove_tcp_header(reply.as_slice());
                            let counts = read_info_counts(inner);
                            self.phase = TcpPhase::Idle;
                            Step::Finished(Ok(Payload::Counts(counts.0, counts.1)))
                        },
                        Purpose::Free => {
                            self.phase = TcpPhase::Idle;
                            Step::Finished(Ok(Payload::Nothing))
                        },
                        _ => {
                            self.phase = TcpPhase::Idle;
                            Step::Finished(Ok(Payload::Bytes(reply)))
                        },
                    }
                },
            },
        }
    }

    fn begin_exchange(
        &mut self,
        command: u16,
        data: &[u8],
        purpose: Purpose,
    ) -> (step: Step<Payload>)
        ensures
            exchange_begins(old(self)@, command, data@, purpose, final(self)@, step),
    {
        self.count(command);
        self.purpose = purpose;
        self.command = command;
        if self.connected {
            let packet = create_tcp_header(command, self.session_id, self.reply_id, data);
            self.phase = TcpPhase::Sending;
            Step::Next(Action::Send { bytes: packet })
        } else {
            self.end_exchange(Err("TCP not connected".to_string()))
        }
    }

    fn chunk_request_packet(&self, index: u32) -> (packet: Vec<u8>)
        requires
            index < chunk_count(self.size as int),
        ensures
            packet@ == chunk_packet(self@, index as int),
    {
        let payload = chunk_request(self.size, index);
        let reply_id: u16 = ((self.chunk_base as u32 + index + 1) % 65536) as u16;
        create_tcp_header(cmd::CMD_DATA_RDY, self.session_id, reply_id, payload.as_slice())
    }

    fn decide_head(&mut self) -> (step: Step<Payload>)
        requires
            old(self).head@.len() >= 16,
        ensures
            head_decided(old(self)@, final(self)@, step),
    {
        let n: usize = self.head.len();
        let decoded = decode_tcp_header(self.head.as_slice());
        let code: u16 = decoded.0.command_id;
        let body = slice_subrange(self.head.as_slice(), 16, n);
        assert(body@ =~= self.head@.skip(16));
        if code == cmd::CMD_DATA {
            let data = slice_to_vec(body);
            self.data = data;
            self.small = true;
            self.end_bulk(None)
        } else if code == cmd::CMD_ACK_OK || code == cmd::CMD_PREPARE_DATA {
            if body.len() < 5 {
                self.end_bulk(Some("Prepare data response too short".to_string()))
            } else {
                let size: u32 = read_u32(body, 1);
                let total: u32 = total_chunks(size);
                self.size = size;
                self.packets_remaining = total;
                self.chunk_base = self.reply_id;
                self.reply_id = ((self.reply_id as u32 + total) % 65536) as u16;
                if total == 0 {
                    self.end_bulk(None)
                } else {
                    let packet = self.chunk_request_packet(0);
                    self.sent_chunks = 1;
                    self.phase = TcpPhase::BulkChunks;
                    Step::Next(Action::Send { bytes: packet })
                }
            }
        } else {
            let number = decimal(code as u64);
            let mut message = join4(
                "Unexpected command in data response: ",
                number.as_str(),
                " (",
                command_name(code),
            );
            message.append(")");
            self.end_bulk(Some(message))
        }
    }

    fn expired_message(&self) -> (message: String)
        ensures
            message@ == chunks_expired_text(self@),
    {
        let left = decimal(self.packets_remaining as u64);
        let got = decimal(self.data.len() as u64);
        let size = decimal(self.size as u64);
        let mut message = join4(
            "Timeout receiving chunks, ",
            left.as_str(),
            " packets remain, got ",
            got.as_str(),
        );
        message.append("/");
        message.append(size.as_str());
        message.append(" bytes");
        message
    }

    fn on_chunk_bytes(&mut self, bytes: Vec<u8>) -> (step: Step<Payload>)
        ensures
            chunk_bytes_arrived(old(self)@, bytes@, final(self)@, step),
    {
        if bytes.len() == 0 {
            self.end_bulk(Some("Connection closed during chunk transfer".to_string()))
        } else if check_not_event_tcp(bytes.as_slice()) {
            Step::Next(
                Action::ReceiveUntil { budget_secs: receive_budget(self.size), restart: false },
            )
        } else {
            append_bytes(&mut self.stream, bytes.as_slice());
            let left = drain_stream(
                &mut self.stream,
                &mut self.chunk,
                &mut self.data,
                self.packets_remaining,
                self.size,
            );
            self.packets_remaining = left.0;
            if left.1 {
                self.end_bulk(Some("Malformed chunk packet".to_string()))
            } else if left.0 == 0 {
                self.end_bulk(None)
            } else {
                Step::Next(
                    Action::ReceiveUntil { budget_secs: receive_budget(self.size), restart: false },
                )
            }
        }
    }

    /// Takes the outcome of the action that the last step asked for and
    /// gives the next step of the operation in flight. An outcome that the
    /// action cannot have ends the operation with an error.
    pub fn resume(&mut self, event: Event) -> (step: Step<Payload>)
        ensures
            resumed(old(self)@, event, final(self)@, step),
    {
        match self.phase {
            TcpPhase::Idle => self.abort(),
            TcpPhase::Dialing => match event {
                Event::Done => {
                    self.connected = true;
                    self.session_id = 0;
                    self.reply_id = 0;
                    let empty: Vec<u8> = Vec::new();
                    self.begin_exchange(cmd::CMD_CONNECT, empty.as_slice(), Purpose::Connect)
                },
                Event::TimedOut => {
                    let address = self.address();
                    self.fail(join2("TCP connect timeout to ", address.as_str()))
                },
                Event::Failed(e) => {
                    let address = self.address();
                    self.fail(join4("TCP connect failed to ", address.as_str(), ": ", e.as_str()))
                },
                _ => self.abort(),
            },
            TcpPhase::Sending => match event {
                Event::Done => {
                    self.phase = TcpPhase::Receiving;
                    let timeout_ms: u64 = if self.command == cmd::CMD_CONNECT || self.command
                        == cmd::CMD_EXIT {
                        2000
                    } else {
                        self.timeout_ms
                    };
                    Step::Next(Action::Receive { timeout_ms: timeout_ms })
                },
                Event::Failed(e) => self.end_exchange(Err(join2("TCP write failed: ", e.as_str()))),
                _ => self.abort(),
            },
            TcpPhase::Receiving => match event {
                Event::Data(bytes) => {
                    if bytes.len() == 0 {
                        self.end_exchange(Err("Connection closed by device".to_string()))
                    } else {
                        self.end_exchange(Ok(bytes))
                    }
                },
                Event::TimedOut => self.end_exchange(
                    Err("Timeout waiting for TCP response".to_string()),
                ),
                Event::Failed(e) => self.end_exchange(Err(join2("TCP read failed: ", e.as_str()))),
                _ => self.abort(),
            },
            TcpPhase::BulkRequest => match event {
                Event::Done => {
                    self.phase = TcpPhase::BulkHeader;
                    Step::Next(Action::Receive { timeout_ms: self.timeout_ms })
                },
                Event::Failed(e) => self.end_bulk(Some(join2("TCP write failed: ", e.as_str()))),
                _ => self.abort(),
            },
            TcpPhase::BulkHeader => match event {
                Event::Data(bytes) => {
                    if bytes.len() == 0 {
                        self.end_bulk(Some("Connection closed during data request".to_string()))
                    } else {
                        append_bytes(&mut self.head, bytes.as_slice());
                        if self.head.len() < 16 {
                            Step::Next(Action::Receive { timeout_ms: self.timeout_ms })
                        } else {
                            self.decide_head()
                        }
                    }
                },
                Event::TimedOut => self.end_bulk(
                    Some("Timeout receiving data request response".to_string()),
                ),
                Event::Failed(e) => self.end_bulk(Some(join2("TCP read failed: ", e.as_str()))),
                _ => self.abort(),
            },
            TcpPhase::BulkChunks => match event {
                Event::Done => {
                    if self.sent_chunks < total_chunks(self.size) {
                        let packet = self.chunk_request_packet(self.sent_chunks);
                        self.sent_chunks = self.sent_chunks + 1;
                        Step::Next(Action::Send { bytes: packet })
                    } else {
                        self.phase = TcpPhase::BulkReceive;
                        Step::Next(
                            Action::ReceiveUntil {
                                budget_secs: receive_budget(self.size),
                                restart: true,
                            },
                        )
                    }
                },
                Event::Failed(e) => self.end_bulk(
                    Some(join2("TCP write chunk request failed: ", e.as_str())),
                ),
                _ => self.abort(),
            },
            TcpPhase::BulkReceive => match event {
                Event::Data(bytes) => self.on_chunk_bytes(bytes),
                Event::Expired => {
                    let message = self.expired_message();
                    self.end_bulk(Some(message))
                },
                Event::TimedOut => {
                    let left = decimal(self.packets_remaining as u64);
                    let message = join3(
                        "Timeout receiving chunk data, ",
                        left.as_str(),
                        " packets remain",
                    );
                    self.end_bulk(Some(message))
                },
                Event::Failed(e) => self.end_bulk(
                    Some(join2("TCP read chunk failed: ", e.as_str())),
                ),
                _ => self.abort(),
            },
            TcpPhase::Closing => {
                self.connected = false;
                self.phase = TcpPhase::Idle;
                Step::Finished(Ok(Payload::Nothing))
            },
        }
    }
}

/// The state in which the connection is being opened.
pub open spec fn dialing(pre: TcpModel) -> TcpModel {
    TcpModel { phase: TcpPhase::Dialing, ..pre }
}

/// The state in which a bulk read of the given kind is prepared.
pub open spec fn with_kind(pre: TcpModel, kind: BulkKind) -> TcpModel {
    TcpModel { kind: kind, ..pre }
}

/// What `disconnect` does: the exit command goes out if the connection is
/// open, and nothing happens otherwise.
pub open spec fn disconnect_begins(pre: TcpModel, post: TcpModel, step: Step<Payload>) -> bool {
    if pre.connected {
        exchange_begins(pre, cmd::CMD_EXIT, Seq::empty(), Purpose::Exit, post, step)
    } else {
        post =~= TcpModel { phase: TcpPhase::Idle, ..pre } && yields_nothing(step)
    }
}

impl ZKTcp {
    /// Starts opening the session: the connection is dialled within
    /// `dial_timeout_ms`; then the connect command goes out with both
    /// counters at zero, and the session id is read from its reply.
    pub fn connect(&mut self) -> (step: Step<Payload>)
        ensures
            final(self)@ == dialing(old(self)@),
            step.asks_dial(
                device_address(old(self)@.ip, old(self)@.port),
                dial_timeout_ms(old(self)@.timeout_ms),
            ),
    {
        let address = self.address();
        let timeout_ms: u64 = if self.timeout_ms < 5000 {
            self.timeout_ms
        } else {
            5000
        };
        self.phase = TcpPhase::Dialing;
        Step::Next(Action::Dial { address: address, timeout_ms: timeout_ms })
    }

    /// Starts the authentication with a communication key: the key goes
    /// out in four bytes, and the reply must be the acknowledgement.
    pub fn auth(&mut self, comm_key: u32) -> (step: Step<Payload>)
        ensures
            exchange_begins(
                old(self)@,
                cmd::CMD_AUTH,
                le32_bytes(comm_key as int),
                Purpose::Auth,
                final(self)@,
                step,
            ),
    {
        let payload = auth_payload(comm_key);
        self.begin_exchange(cmd::CMD_AUTH, payload.as_slice(), Purpose::Auth)
    }

    /// Starts a command whose raw reply is handed back.
    pub fn execute_cmd(&mut self, command: u16, data: &[u8]) -> (step: Step<Payload>)
        ensures
            exchange_begins(old(self)@, command, data@, Purpose::Command, final(self)@, step),
    {
        self.begin_exchange(command, data, Purpose::Command)
    }

    /// Starts a bulk read whose assembled bytes are handed back.
    pub fn read_with_buffer(&mut self, req_data: &[u8]) -> (step: Step<Payload>)
        ensures
            bulk_begins(old(self)@, BulkKind::Raw, req_data@, final(self)@, step),
    {
        self.begin_bulk(BulkKind::Raw, req_data)
    }

    /// Starts reading the user table: the device's buffer is released, the
    /// table is read in bulk, the buffer is released again, and the rows of
    /// 72 bytes are decoded.
    pub fn get_users(&mut self) -> (step: Step<Payload>)
        ensures
            exchange_begins(
                with_kind(old(self)@, BulkKind::Users),
                cmd::CMD_FREE_DATA,
                Seq::empty(),
                Purpose::FreeBefore,
                final(self)@,
                step,
            ),
    {
        self.kind = BulkKind::Users;
        let empty: Vec<u8> = Vec::new();
        self.begin_exchange(cmd::CMD_FREE_DATA, empty.as_slice(), Purpose::FreeBefore)
    }

    /// Starts reading the attendance log: the device's buffer is released,
    /// the log is read in bulk, the buffer is released again, and the rows
    /// of 40 bytes are decoded.
    pub fn get_attendances(&mut self) -> (step: Step<Payload>)
        ensures
            exchange_begins(
                with_kind(old(self)@, BulkKind::Attendances),
                cmd::CMD_FREE_DATA,
                Seq::empty(),
                Purpose::FreeBefore,
                final(self)@,
                step,
            ),
    {
        self.kind = BulkKind::Attendances;
        let empty: Vec<u8> = Vec::new();
        self.begin_exchange(cmd::CMD_FREE_DATA, empty.as_slice(), Purpose::FreeBefore)
    }

    /// Starts asking for the counts of users and attendance records.
    pub fn get_info(&mut self) -> (step: Step<Payload>)
        ensures
            exchange_begins(
                old(self)@,
                cmd::CMD_GET_FREE_SIZES,
                Seq::empty(),
                Purpose::Info,
                final(self)@,
                step,
            ),
    {
        let empty: Vec<u8> = Vec::new();
        self.begin_exchange(cmd::CMD_GET_FREE_SIZES, empty.as_slice(), Purpose::Info)
    }

    /// Starts releasing the device's data buffer.
    pub fn free_data(&mut self) -> (step: Step<Payload>)
        ensures
            exchange_begins(
                old(self)@,
                cmd::CMD_FREE_DATA,
                Seq::empty(),
                Purpose::Free,
                final(self)@,
                step,
            ),
    {
        let empty: Vec<u8> = Vec::new();
        self.begin_exchange(cmd::CMD_FREE_DATA, empty.as_slice(), Purpose::Free)
    }

    /// Starts closing the session: the exit command goes out, its reply is
    /// awaited but not looked at, and the connection is closed. Without an
    /// open connection there is nothing to do.
    pub fn disconnect(&mut self) -> (step: Step<Payload>)
        ensures
            disconnect_begins(old(self)@, final(self)@, step),
    {
        if self.connected {
            let empty: Vec<u8> = Vec::new();
            self.begin_exchange(cmd::CMD_EXIT, empty.as_slice(), Purpose::Exit)
        } else {
            self.phase = TcpPhase::Idle;
            Step::Finished(Ok(Payload::Nothing))
        }
    }
}

} // verus!
