//! The datagram transport: one session with a terminal over UDP, as a
//! state machine.
//!
//! It mirrors the stream transport. A datagram is a whole packet, so there
//! is no envelope and nothing to take apart; rows come in the compact
//! layouts.

use vstd::prelude::*;
use vstd::slice::{slice_subrange, slice_to_vec};
use vstd::string::StringExecFns;
use crate::protocol::{
    append_bytes, check_not_event_udp, cmd, command_name, create_udp_header, decode_udp_header,
    dword_at, le32_bytes, read_u16, read_u32, request_data, udp_packet, word_at,
};
use crate::protocol::records::{decode_record_rows, decode_user_rows, RecordLayout, UserLayout};
use crate::session::{
    auth_payload, auth_verdict, bulk_request_payload, check_auth_reply, device_address, info_counts,
    next_reply_id, read_info_counts, reply_of, session_after_connect, text_of,
    unexpected_command_text, yields_buffer, yields_bytes, yields_counts, yields_nothing,
    yields_record_rows, yields_user_rows, BulkKind, Payload, Purpose,
};
use crate::step::{unexpected_event, unexpected_event_text, Action, Event, Step};
use crate::text::{decimal, decimal_digits, join2, join3, join4};
use crate::transfer::{
    chunk_count, chunk_request, chunk_request_payload, receive_budget, receive_budget_secs,
    total_chunks,
};

pub mod laws;

verus! {

/// What the machine is waiting for.
#[derive(Debug, Clone, Copy, PartialEq, Eq, Structural)]
pub enum UdpPhase {
    /// No operation is in flight.
    Idle,
    /// The socket is being bound and connected.
    Binding,
    /// A command datagram is being sent.
    Sending,
    /// The reply to a command is awaited.
    Receiving,
    /// The bulk request is being sent.
    BulkRequest,
    /// The first response to a bulk request is awaited.
    BulkHeader,
    /// The chunk requests are being sent.
    BulkChunks,
    /// The chunks are being received.
    BulkReceive,
    /// The socket is being closed.
    Closing,
}

/// The state of a datagram session.
pub struct ZKUdp {
    pub ip: String,
    pub port: u16,
    pub timeout_ms: u64,
    /// Whether the socket is there.
    pub connected: bool,
    pub session_id: u16,
    pub reply_id: u16,
    pub phase: UdpPhase,
    pub purpose: Purpose,
    pub kind: BulkKind,
    /// The data set assembled so far.
    pub data: Vec<u8>,
    /// Whether the data set came in a single small response.
    pub small: bool,
    /// The size that the device announced for the data set.
    pub size: u32,
    /// The number of chunk requests handed out.
    pub sent_chunks: u32,
}

/// The state of a datagram session as plain values.
#[verifier::ext_equal]
pub struct UdpModel {
    pub ip: Seq<char>,
    pub port: u16,
    pub timeout_ms: u64,
    pub connected: bool,
    pub session_id: u16,
    pub reply_id: u16,
    pub phase: UdpPhase,
    pub purpose: Purpose,
    pub kind: BulkKind,
    pub data: Seq<u8>,
    pub small: bool,
    pub size: u32,
    pub sent_chunks: u32,
}

impl View for ZKUdp {
    type V = UdpModel;

    open spec fn view(&self) -> UdpModel {
        UdpModel {
            ip: self.ip@,
            port: self.port,
            timeout_ms: self.timeout_ms,
            connected: self.connected,
            session_id: self.session_id,
            reply_id: self.reply_id,
            phase: self.phase,
            purpose: self.purpose,
            kind: self.kind,
            data: self.data@,
            small: self.small,
            size: self.size,
            sent_chunks: self.sent_chunks,
        }
    }
}

/// The state with the counters as the next command needs them: the
/// connect command resets both, any other command counts one up.
pub open spec fn counted(m: UdpModel, command: u16) -> UdpModel {
    if command == cmd::CMD_CONNECT {
        UdpModel { session_id: 0, reply_id: 0, ..m }
    } else {
        UdpModel { reply_id: next_reply_id(m.reply_id), ..m }
    }
}

/// The text `got X/Y bytes` of the progress of a bulk read.
pub open spec fn progress_text(m: UdpModel) -> Seq<char> {
    "got "@ + decimal_digits(m.data.len()) + "/"@ + decimal_digits(m.size as nat) + " bytes"@
}

/// The layout of the user rows of a datagram transfer.
pub open spec fn user_layout() -> UserLayout {
    UserLayout::Compact
}

/// The layout of the attendance rows of a datagram transfer: eight bytes
/// a row in a small response, sixteen otherwise.
pub open spec fn record_layout(small: bool) -> RecordLayout {
    if small {
        RecordLayout::CompactSmall
    } else {
        RecordLayout::Compact
    }
}

/// The operation is given up: the outcome is not one that the machine was
/// waiting for.
pub open spec fn aborted(pre: UdpModel, post: UdpModel, step: Step<Payload>) -> bool {
    &&& post =~= UdpModel { phase: UdpPhase::Idle, ..pre }
    &&& step.fails_with(unexpected_event_text())
}

/// The operation ends with the error `message`.
pub open spec fn failed(
    pre: UdpModel,
    message: Seq<char>,
    post: UdpModel,
    step: Step<Payload>,
) -> bool {
    &&& post =~= UdpModel { phase: UdpPhase::Idle, ..pre }
    &&& step.fails_with(message)
}

/// A bulk read ends in success: the assembled bytes are handed back, as
/// they are or decoded by the compact layouts.
pub open spec fn rows_delivered(pre: UdpModel, post: UdpModel, step: Step<Payload>) -> bool {
    &&& post =~= UdpModel { phase: UdpPhase::Idle, ..pre }
    &&& match pre.kind {
        BulkKind::Raw => yields_buffer(step, pre.data, pre.small),
        BulkKind::Users => yields_user_rows(step, pre.data, user_layout()),
        BulkKind::Attendances => yields_record_rows(step, pre.data, record_layout(pre.small)),
    }
}

/// After a bulk read for rows, the device's buffer is released once more;
/// the reply to that command is awaited but not looked at.
pub open spec fn free_after_begins(pre: UdpModel, post: UdpModel, step: Step<Payload>) -> bool {
    let m = UdpModel { purpose: Purpose::FreeAfter, ..counted(pre, cmd::CMD_FREE_DATA) };
    if pre.connected {
        &&& post =~= UdpModel { phase: UdpPhase::Sending, ..m }
        &&& step.asks_send(
            udp_packet(cmd::CMD_FREE_DATA, m.session_id, m.reply_id, Seq::empty()),
        )
    } else {
        rows_delivered(m, post, step)
    }
}

/// A bulk read ends, with an error or with the data set in `pre.data`.
pub open spec fn bulk_ends(
    pre: UdpModel,
    error: Option<Seq<char>>,
    post: UdpModel,
    step: Step<Payload>,
) -> bool {
    match error {
        Some(message) => failed(pre, message, post, step),
        None => match pre.kind {
            BulkKind::Raw => rows_delivered(pre, post, step),
            _ => free_after_begins(pre, post, step),
        },
    }
}

/// A bulk read begins: the request goes out under the next reply id.
pub open spec fn bulk_begins(
    pre: UdpModel,
    kind: BulkKind,
    request: Seq<u8>,
    post: UdpModel,
    step: Step<Payload>,
) -> bool {
    let m = UdpModel {
        reply_id: next_reply_id(pre.reply_id),
        kind: kind,
        data: Seq::empty(),
        small: false,
        size: 0,
        sent_chunks: 0,
        ..pre
    };
    if pre.connected {
        &&& post =~= UdpModel { phase: UdpPhase::BulkRequest, ..m }
        &&& step.asks_send(udp_packet(cmd::CMD_DATA_WRRQ, m.session_id, m.reply_id, request))
    } else {
        bulk_ends(m, Some("UDP not connected"@), post, step)
    }
}

/// A command exchange ends, with the raw reply or with an error. What
/// follows depends on what the command was sent for.
pub open spec fn exchange_ends(
    pre: UdpModel,
    result: Result<Seq<u8>, Seq<char>>,
    post: UdpModel,
    step: Step<Payload>,
) -> bool {
    let idle = UdpModel { phase: UdpPhase::Idle, ..pre };
    match pre.purpose {
        Purpose::FreeBefore => bulk_begins(
            pre,
            pre.kind,
            bulk_request_payload(pre.kind),
            post,
            step,
        ),
        Purpose::FreeAfter => rows_delivered(pre, post, step),
        Purpose::Exit => post =~= UdpModel { phase: UdpPhase::Closing, ..pre } && step.asks_close(),
        _ => match result {
            Err(message) => failed(pre, message, post, step),
            Ok(reply) => match pre.purpose {
                Purpose::Connect => {
                    &&& post =~= UdpModel {
                        session_id: session_after_connect(pre.session_id, reply),
                        ..idle
                    }
                    &&& yields_nothing(step)
                },
                Purpose::Auth => match auth_verdict(reply) {
                    None => post =~= idle && yields_nothing(step),
                    Some(message) => failed(pre, message, post, step),
                },
                Purpose::Info => {
                    &&& post =~= idle
                    &&& yields_counts(step, info_counts(reply).0, info_counts(reply).1)
                },
                Purpose::Free => post =~= idle && yields_nothing(step),
                _ => post =~= idle && yields_bytes(step, reply),
            },
        },
    }
}

/// A command exchange begins: the counters move, and the datagram goes
/// out if the socket is there.
pub open spec fn exchange_begins(
    pre: UdpModel,
    command: u16,
    data: Seq<u8>,
    purpose: Purpose,
    post: UdpModel,
    step: Step<Payload>,
) -> bool {
    let m = UdpModel { purpose: purpose, ..counted(pre, command) };
    if pre.connected {
        &&& post =~= UdpModel { phase: UdpPhase::Sending, ..m }
        &&& step.asks_send(udp_packet(command, m.session_id, m.reply_id, data))
    } else {
        exchange_ends(m, Err("UDP not connected"@), post, step)
    }
}

/// The next chunk request goes out under the next reply id; after the
/// last one the chunks are received, against a deadline that starts then.
pub open spec fn chunks_requested(pre: UdpModel, post: UdpModel, step: Step<Payload>) -> bool {
    if (pre.sent_chunks as int) < chunk_count(pre.size as int) {
        let reply_id = next_reply_id(pre.reply_id);
        &&& post =~= UdpModel {
            phase: UdpPhase::BulkChunks,
            reply_id: reply_id,
            sent_chunks: (pre.sent_chunks + 1) as u32,
            ..pre
        }
        &&& step.asks_send(
            udp_packet(
                cmd::CMD_DATA_RDY,
                pre.session_id,
                reply_id,
                chunk_request_payload(pre.size as int, pre.sent_chunks as int),
            ),
        )
    } else if pre.data.len() < pre.size {
        &&& post =~= UdpModel { phase: UdpPhase::BulkReceive, ..pre }
        &&& step.asks_receive_until(receive_budget_secs(pre.size as int) as u64, true)
    } else {
        bulk_ends(pre, None, post, step)
    }
}

/// The first response to a bulk request has arrived.
pub open spec fn head_decided(
    pre: UdpModel,
    reply: Seq<u8>,
    post: UdpModel,
    step: Step<Payload>,
) -> bool {
    if reply.len() < 8 {
        bulk_ends(pre, Some("Response too short"@), post, step)
    } else {
        let code = word_at(reply, 0) as u16;
        let body = reply.skip(8);
        if code == cmd::CMD_DATA {
            bulk_ends(UdpModel { data: body, small: true, ..pre }, None, post, step)
        } else if code == cmd::CMD_ACK_OK || code == cmd::CMD_PREPARE_DATA {
            if body.len() < 5 {
                bulk_ends(pre, Some("Prepare data response too short"@), post, step)
            } else {
                chunks_requested(UdpModel { size: dword_at(body, 1) as u32, ..pre }, post, step)
            }
        } else {
            bulk_ends(pre, Some(unexpected_command_text(code)), post, step)
        }
    }
}

/// A datagram has arrived while chunks are received. Only a data packet
/// adds to the data set: events, datagrams shorter than a header, the
/// announcement and the closing acknowledgement add nothing. The read ends
/// when the announced size is reached.
pub open spec fn chunk_arrived(
    pre: UdpModel,
    bytes: Seq<u8>,
    post: UdpModel,
    step: Step<Payload>,
) -> bool {
    let adds = bytes.len() >= 8 && word_at(bytes, 0) == cmd::CMD_DATA;
    let m = if adds {
        UdpModel { data: pre.data + bytes.skip(8), ..pre }
    } else {
        pre
    };
    if m.data.len() < m.size {
        post =~= m && step.asks_receive_until(receive_budget_secs(pre.size as int) as u64, false)
    } else {
        bulk_ends(m, None, post, step)
    }
}

/// What `resume` does: the state and the step that follow the outcome
/// `event` in the state `pre`.
pub open spec fn resumed(pre: UdpModel, event: Event, post: UdpModel, step: Step<Payload>) -> bool {
    match pre.phase {
        UdpPhase::Idle => aborted(pre, post, step),
        UdpPhase::Binding => match event {
            Event::Done => exchange_begins(
                UdpModel { connected: true, session_id: 0, reply_id: 0, ..pre },
                cmd::CMD_CONNECT,
                Seq::empty(),
                Purpose::Connect,
                post,
                step,
            ),
            Event::BindFailed(e) => failed(pre, "Failed to bind UDP socket: "@ + e@, post, step),
            Event::AddressInvalid(e) => failed(pre, "Invalid device address: "@ + e@, post, step),
            Event::Failed(e) => failed(pre, "UDP connect failed: "@ + e@, post, step),
            _ => aborted(pre, post, step),
        },
        UdpPhase::Sending => match event {
            Event::Done => {
                &&& post =~= UdpModel { phase: UdpPhase::Receiving, ..pre }
                &&& step.asks_receive(pre.timeout_ms)
            },
            Event::Failed(e) => exchange_ends(pre, Err("UDP send failed: "@ + e@), post, step),
            _ => aborted(pre, post, step),
        },
        UdpPhase::Receiving => match event {
            Event::Data(bytes) => exchange_ends(pre, Ok(bytes@), post, step),
            Event::TimedOut => exchange_ends(
                pre,
                Err("Timeout waiting for UDP response"@),
                post,
                step,
            ),
            Event::Failed(e) => exchange_ends(pre, Err("UDP recv failed: "@ + e@), post, step),
            _ => aborted(pre, post, step),
        },
        UdpPhase::BulkRequest => match event {
            Event::Done => {
                &&& post =~= UdpModel { phase: UdpPhase::BulkHeader, ..pre }
                &&& step.asks_receive(pre.timeout_ms)
            },
            Event::Failed(e) => bulk_ends(pre, Some("UDP send failed: "@ + e@), post, step),
            _ => aborted(pre, post, step),
        },
        UdpPhase::BulkHeader => match event {
            Event::Data(bytes) => head_decided(pre, bytes@, post, step),
            Event::TimedOut => bulk_ends(
                pre,
                Some("Timeout receiving data request response"@),
                post,
                step,
            ),
            Event::Failed(e) => bulk_ends(pre, Some("UDP recv failed: "@ + e@), post, step),
            _ => aborted(pre, post, step),
        },
        UdpPhase::BulkChunks => match event {
            Event::Done => chunks_requested(pre, post, step),
            Event::Failed(e) => bulk_ends(
                pre,
                Some("UDP send chunk request failed: "@ + e@),
                post,
                step,
            ),
            _ => aborted(pre, post, step),
        },
        UdpPhase::BulkReceive => match event {
            Event::Data(bytes) => chunk_arrived(pre, bytes@, post, step),
            Event::Expired => bulk_ends(
                pre,
                Some("Timeout receiving UDP chunks, "@ + progress_text(pre)),
                post,
                step,
            ),
            Event::TimedOut => bulk_ends(
                pre,
                Some("Timeout receiving UDP chunk, "@ + progress_text(pre)),
                post,
                step,
            ),
            Event::Failed(e) => bulk_ends(pre, Some("UDP recv chunk failed: "@ + e@), post, step),
            _ => aborted(pre, post, step),
        },
        UdpPhase::Closing => {
            &&& post =~= UdpModel { phase: UdpPhase::Idle, connected: false, ..pre }
            &&& yields_nothing(step)
        },
    }
}

/// The state of a session that has not been opened.
pub open spec fn fresh_session(ip: Seq<char>, port: u16, timeout_ms: u64) -> UdpModel {
    UdpModel {
        ip: ip,
        port: port,
        timeout_ms: timeout_ms,
        connected: false,
        session_id: 0,
        reply_id: 0,
        phase: UdpPhase::Idle,
        purpose: Purpose::Command,
        kind: BulkKind::Raw,
        data: Seq::empty(),
        small: false,
        size: 0,
        sent_chunks: 0,
    }
}

/// The state in which the socket is being bound.
pub open spec fn binding(pre: UdpModel) -> UdpModel {
    UdpModel { phase: UdpPhase::Binding, ..pre }
}

/// The state in which a bulk read of the given kind is prepared.
pub open spec fn with_kind(pre: UdpModel, kind: BulkKind) -> UdpModel {
    UdpModel { kind: kind, ..pre }
}

/// What `disconnect` does: the exit command goes out if the socket is
/// there, and nothing happens otherwise.
pub open spec fn disconnect_begins(pre: UdpModel, post: UdpModel, step: Step<Payload>) -> bool {
    if pre.connected {
        exchange_begins(pre, cmd::CMD_EXIT, Seq::empty(), Purpose::Exit, post, step)
    } else {
        post =~= UdpModel { phase: UdpPhase::Idle, ..pre } && yields_nothing(step)
    }
}

impl ZKUdp {
    /// A session with the device at `ip:port` that has not been opened.
    pub fn new(ip: &str, port: u16, timeout_ms: u64) -> (udp: Self)
        ensures
            udp@ == fresh_session(ip@, port, timeout_ms),
    {
        ZKUdp {
            ip: String::from_str(ip),
            port: port,
            timeout_ms: timeout_ms,
            connected: false,
            session_id: 0,
            reply_id: 0,
            phase: UdpPhase::Idle,
            purpose: Purpose::Command,
            kind: BulkKind::Raw,
            data: Vec::new(),
            small: false,
            size: 0,
            sent_chunks: 0,
        }
    }

    /// The address `ip:port` of the device.
    pub fn address(&self) -> (address: String)
        ensures
            address@ == device_address(self@.ip, self@.port),
    {
        let port = decimal(self.port as u64);
        join3(self.ip.as_str(), ":", port.as_str())
    }

    fn fail(&mut self, message: String) -> (step: Step<Payload>)
        ensures
            failed(old(self)@, message@, final(self)@, step),
    {
        self.phase = UdpPhase::Idle;
        Step::Finished(Err(message))
    }

    fn abort(&mut self) -> (step: Step<Payload>)
        ensures
            aborted(old(self)@, final(self)@, step),
    {
        self.phase = UdpPhase::Idle;
        unexpected_event()
    }

    fn count(&mut self, command: u16)
        ensures
            final(self)@ == counted(old(self)@, command),
    {
        if command == cmd::CMD_CONNECT {
            self.session_id = 0;
            self.reply_id = 0;
        } else {
            self.reply_id = self.reply_id.wrapping_add(1);
        }
    }

    fn deliver_rows(&mut self) -> (step: Step<Payload>)
        ensures
            rows_delivered(old(self)@, final(self)@, step),
    {
        self.phase = UdpPhase::Idle;
        match self.kind {
            BulkKind::Raw => {
                let copy = slice_to_vec(self.data.as_slice());
                Step::Finished(Ok(Payload::Buffer(copy, self.small)))
            },
            BulkKind::Users => {
                let rows = decode_user_rows(self.data.as_slice(), UserLayout::Compact);
                Step::Finished(Ok(Payload::UserRows(rows)))
            },
            BulkKind::Attendances => {
                let layout = if self.small {
                    RecordLayout::CompactSmall
                } else {
                    RecordLayout::Compact
                };
                let rows = decode_record_rows(self.data.as_slice(), layout);
                Step::Finished(Ok(Payload::RecordRows(rows)))
            },
        }
    }

    fn begin_free_after(&mut self) -> (step: Step<Payload>)
        ensures
            free_after_begins(old(self)@, final(self)@, step),
    {
        self.count(cmd::CMD_FREE_DATA);
        self.purpose = Purpose::FreeAfter;
        if self.connected {
            let empty: Vec<u8> = Vec::new();
            let packet = create_udp_header(
                cmd::CMD_FREE_DATA,
                self.session_id,
                self.reply_id,
                empty.as_slice(),
            );
            self.phase = UdpPhase::Sending;
            Step::Next(Action::Send { bytes: packet })
        } else {
            self.deliver_rows()
        }
    }

    fn end_bulk(&mut self, error: Option<String>) -> (step: Step<Payload>)
        ensures
            bulk_ends(old(self)@, text_of(error), final(self)@, step),
    {
        match error {
            Some(message) => self.fail(message),
            None => match self.kind {
                BulkKind::Raw => self.deliver_rows(),
                _ => self.begin_free_after(),
            },
        }
    }

    fn begin_bulk(&mut self, kind: BulkKind, request: &[u8]) -> (step: Step<Payload>)
        ensures
            bulk_begins(old(self)@, kind, request@, final(self)@, step),
    {
        self.reply_id = self.reply_id.wrapping_add(1);
        self.kind = kind;
        self.data.clear();
        self.small = false;
        self.size = 0;
        self.sent_chunks = 0;
        if self.connected {
            let packet = create_udp_header(
                cmd::CMD_DATA_WRRQ,
                self.session_id,
                self.reply_id,
                request,
            );
            self.phase = UdpPhase::BulkRequest;
            Step::Next(Action::Send { bytes: packet })
        } else {
            self.end_bulk(Some("UDP not connected".to_string()))
        }
    }

    fn end_exchange(&mut self, result: Result<Vec<u8>, String>) -> (step: Step<Payload>)
        ensures
            exchange_ends(old(self)@, reply_of(result), final(self)@, step),
    {
        match self.purpose {
            Purpose::FreeBefore => {
                let kind = self.kind;
                match kind {
                    BulkKind::Users => self.begin_bulk(kind, request_data::GET_USERS.as_slice()),
                    _ => self.begin_bulk(kind, request_data::GET_ATTENDANCE_LOGS.as_slice()),
                }
            },
            Purpose::FreeAfter => self.deliver_rows(),
            Purpose::Exit => {
                self.phase = UdpPhase::Closing;
                Step::Next(Action::Close)
            },
            _ => match result {
                Err(message) => self.fail(message),
                Ok(reply) => {
                    match self.purpose {
                        Purpose::Connect => {
                            if reply.len() >= 6 {
                                self.session_id = read_u16(reply.as_slice(), 4);
                            }
                            self.phase = UdpPhase::Idle;
                            Step::Finished(Ok(Payload::Nothing))
                        },
                        Purpose::Auth => {
                            match check_auth_reply(reply.as_slice()) {
                                Ok(_) => {
                                    self.phase = UdpPhase::Idle;
                                    Step::Finished(Ok(Payload::Nothing))
                                },
                                Err(message) => self.fail(message),
                            }
                        },
                        Purpose::Info => {
                            let counts = read_info_counts(reply.as_slice());
                            self.phase = UdpPhase::Idle;
                            Step::Finished(Ok(Payload::Counts(counts.0, counts.1)))
                        },
                        Purpose::Free => {
                            self.phase = UdpPhase::Idle;
                            Step::Finished(Ok(Payload::Nothing))
                        },
                        _ => {
                            self.phase = UdpPhase::Idle;
                            Step::Finished(Ok(Payload::Bytes(reply)))
                        },
                    }
                },
            },
        }
    }

    fn begin_exchange(
        &mut self,
        command: u16,
        data: &[u8],
        purpose: Purpose,
    ) -> (step: Step<Payload>)
        ensures
            exchange_begins(old(self)@, command, data@, purpose, final(self)@, step),
    {
        self.count(command);
        self.purpose = purpose;
        if self.connected {
            let packet = create_udp_header(command, self.session_id, self.reply_id, data);
            self.phase = UdpPhase::Sending;
            Step::Next(Action::Send { bytes: packet })
        } else {
            self.end_exchange(Err("UDP not connected".to_string()))
        }
    }

    fn request_chunks(&mut self) -> (step: Step<Payload>)
        ensures
            chunks_requested(old(self)@, final(self)@, step),
    {
        if self.sent_chunks < total_chunks(self.size) {
            let payload = chunk_request(self.size, self.sent_chunks);
            self.reply_id = self.reply_id.wrapping_add(1);
            let packet = create_udp_header(
                cmd::CMD_DATA_RDY,
                self.session_id,
                self.reply_id,
                payload.as_slice(),
            );
            self.sent_chunks = self.sent_chunks + 1;
            self.phase = UdpPhase::BulkChunks;
            Step::Next(Action::Send { bytes: packet })
        } else if self.data.len() < self.size as usize {
            self.phase = UdpPhase::BulkReceive;
            Step::Next(
                Action::ReceiveUntil { budget_secs: receive_budget(self.size), restart: true },
            )
        } else {
            self.end_bulk(None)
        }
    }

    fn decide_head(&mut self, reply: Vec<u8>) -> (step: Step<Payload>)
        ensures
            head_decided(old(self)@, reply@, final(self)@, step),
    {
        let n: usize = reply.len();
        if n < 8 {
            return self.end_bulk(Some("Response too short".to_string()));
        }
        let header = decode_udp_header(reply.as_slice());
        let code: u16 = header.command_id;
        let body = slice_subrange(reply.as_slice(), 8, n);
        assert(body@ =~= reply@.skip(8));
        if code == cmd::CMD_DATA {
            let data = slice_to_vec(body);
            self.data = data;
            self.small = true;
            self.end_bulk(None)
        } else if code == cmd::CMD_ACK_OK || code == cmd::CMD_PREPARE_DATA {
            if body.len() < 5 {
                self.end_bulk(Some("Prepare data response too short".to_string()))
            } else {
                self.size = read_u32(body, 1);
                self.request_chunks()
            }
        } else {
            let number = decimal(code as u64);
            let mut message = join4(
                "Unexpected command in data response: ",
                number.as_str(),
                " (",
                command_name(code),
            );
            message.append(")");
            self.end_bulk(Some(message))
        }
    }

    fn progress(&self, lead: &str) -> (message: String)
        ensures
            message@ == lead@ + progress_text(self@),
    {
        let got = decimal(self.data.len() as u64);
        let size = decimal(self.size as u64);
        let mut message = join4(lead, "got ", got.as_str(), "/");
        message.append(size.as_str());
        message.append(" bytes");
        assert(message@ =~= lead@ + progress_text(self@));
        message
    }

    fn on_chunk(&mut self, bytes: Vec<u8>) -> (step: Step<Payload>)
        ensures
            chunk_arrived(old(self)@, bytes@, final(self)@, step),
    {
        let n: usize = bytes.len();
        if !check_not_event_udp(bytes.as_slice()) && n >= 8 {
            let header = decode_udp_header(bytes.as_slice());
            if header.command_id == cmd::CMD_DATA {
                let body = slice_subrange(bytes.as_slice(), 8, n);
                assert(body@ =~= bytes@.skip(8));
                append_bytes(&mut self.data, body);
            }
        }
        if self.data.len() < self.size as usize {
            Step::Next(
                Action::ReceiveUntil { budget_secs: receive_budget(self.size), restart: false },
            )
        } else {
            self.end_bulk(None)
        }
    }

    /// Takes the outcome of the action that the last step asked for and
    /// gives the next step of the operation in flight. An outcome that the
    /// action cannot have ends the operation with an error.
    pub fn resume(&mut self, event: Event) -> (step: Step<Payload>)
        ensures
            resumed(old(self)@, event, final(self)@, step),
    {
        match self.phase {
            UdpPhase::Idle => self.abort(),
            UdpPhase::Binding => match event {
                Event::Done => {
                    self.connected = true;
                    self.session_id = 0;
                    self.reply_id = 0;
                    let empty: Vec<u8> = Vec::new();
                    self.begin_exchange(cmd::CMD_CONNECT, empty.as_slice(), Purpose::Connect)
                },
                Event::BindFailed(e) => self.fail(join2("Failed to bind UDP socket: ", e.as_str())),
                Event::AddressInvalid(e) => self.fail(
                    join2("Invalid device address: ", e.as_str()),
                ),
                Event::Failed(e) => self.fail(join2("UDP connect failed: ", e.as_str())),
                _ => self.abort(),
            },
            UdpPhase::Sending => match event {
                Event::Done => {
                    self.phase = UdpPhase::Receiving;
                    Step::Next(Action::Receive { timeout_ms: self.timeout_ms })
                },
                Event::Failed(e) => self.end_exchange(Err(join2("UDP send failed: ", e.as_str()))),
                _ => self.abort(),
            },
            UdpPhase::Receiving => match event {
                Event::Data(bytes) => self.end_exchange(Ok(bytes)),
                Event::TimedOut => self.end_exchange(
                    Err("Timeout waiting for UDP response".to_string()),
                ),
                Event::Failed(e) => self.end_exchange(Err(join2("UDP recv failed: ", e.as_str()))),
                _ => self.abort(),
            },
            UdpPhase::BulkRequest => match event {
                Event::Done => {
                    self.phase = UdpPhase::BulkHeader;
                    Step::Next(Action::Receive { timeout_ms: self.timeout_ms })
                },
                Event::Failed(e) => self.end_bulk(Some(join2("UDP send failed: ", e.as_str()))),
                _ => self.abort(),
            },
            UdpPhase::BulkHeader => match event {
                Event::Data(bytes) => self.decide_head(bytes),
                Event::TimedOut => self.end_bulk(
                    Some("Timeout receiving data request response".to_string()),
                ),
                Event::Failed(e) => self.end_bulk(Some(join2("UDP recv failed: ", e.as_str()))),
                _ => self.abort(),
            },
            UdpPhase::BulkChunks => match event {
                Event::Done => self.request_chunks(),
                Event::Failed(e) => self.end_bulk(
                    Some(join2("UDP send chunk request failed: ", e.as_str())),
                ),
                _ => self.abort(),
            },
            UdpPhase::BulkReceive => match event {
                Event::Data(bytes) => self.on_chunk(bytes),
                Event::Expired => {
                    let message = self.progress("Timeout receiving UDP chunks, ");
                    self.end_bulk(Some(message))
                },
                Event::TimedOut => {
                    let message = self.progress("Timeout receiving UDP chunk, ");
                    self.end_bulk(Some(message))
                },
                Event::Failed(e) => self.end_bulk(
                    Some(join2("UDP recv chunk failed: ", e.as_str())),
                ),
                _ => self.abort(),
            },
            UdpPhase::Closing => {
                self.connected = false;
                self.phase = UdpPhase::Idle;
                Step::Finished(Ok(Payload::Nothing))
            },
        }
    }

    /// Starts opening the session: a socket is bound and connected; then
    /// the connect command goes out with both counters at zero, and the
    /// session id is read from its reply.
    pub fn connect(&mut self) -> (step: Step<Payload>)
        ensures
            final(self)@ == binding(old(self)@),
            step.asks_bind(device_address(old(self)@.ip, old(self)@.port)),
    {
        let address = self.address();
        self.phase = UdpPhase::Binding;
        Step::Next(Action::Bind { address: address })
    }

    /// Starts the authentication with a communication key: the key goes
    /// out in four bytes, and the reply must be the acknowledgement.
    pub fn auth(&mut self, comm_key: u32) -> (step: Step<Payload>)
        ensures
            exchange_begins(
                old(self)@,
                cmd::CMD_AUTH,
                le32_bytes(comm_key as int),
                Purpose::Auth,
                final(self)@,
                step,
            ),
    {
        let payload = auth_payload(comm_key);
        self.begin_exchange(cmd::CMD_AUTH, payload.as_slice(), Purpose::Auth)
    }

    /// Starts a command whose raw reply is handed back.
    pub fn execute_cmd(&mut self, command: u16, data: &[u8]) -> (step: Step<Payload>)
        ensures
            exchange_begins(old(self)@, command, data@, Purpose::Command, final(self)@, step),
    {
        self.begin_exchange(command, data, Purpose::Command)
    }

    /// Starts a bulk read whose assembled bytes are handed back.
    pub fn read_with_buffer(&mut self, req_data: &[u8]) -> (step: Step<Payload>)
        ensures
            bulk_begins(old(self)@, BulkKind::Raw, req_data@, final(self)@, step),
    {
        self.begin_bulk(BulkKind::Raw, req_data)
    }

    /// Starts reading the user table: the device's buffer is released, the
    /// table is read in bulk, the buffer is released again, and the rows of
    /// 28 bytes are decoded.
    pub fn get_users(&mut self) -> (step: Step<Payload>)
        ensures
            exchange_begins(
                with_kind(old(self)@, BulkKind::Users),
                cmd::CMD_FREE_DATA,
                Seq::empty(),
                Purpose::FreeBefore,
                final(self)@,
                step,
            ),
    {
        self.kind = BulkKind::Users;
        let empty: Vec<u8> = Vec::new();
        self.begin_exchange(cmd::CMD_FREE_DATA, empty.as_slice(), Purpose::FreeBefore)
    }

    /// Starts reading the attendance log: the device's buffer is released,
    /// the log is read in bulk, the buffer is released again, and the rows
    /// are decoded: of 8 bytes after a small response, of 16 otherwise.
    pub fn get_attendances(&mut self) -> (step: Step<Payload>)
        ensures
            exchange_begins(
                with_kind(old(self)@, BulkKind::Attendances),
                cmd::CMD_FREE_DATA,
                Seq::empty(),
                Purpose::FreeBefore,
                final(self)@,
                step,
            ),
    {
        self.kind = BulkKind::Attendances;
        let empty: Vec<u8> = Vec::new();
        self.begin_exchange(cmd::CMD_FREE_DATA, empty.as_slice(), Purpose::FreeBefore)
    }

    /// Starts asking for the counts of users and attendance records.
    pub fn get_info(&mut self) -> (step: Step<Payload>)
        ensures
            exchange_begins(
                old(self)@,
                cmd::CMD_GET_FREE_SIZES,
                Seq::empty(),
                Purpose::Info,
                final(self)@,
                step,
            ),
    {
        let empty: Vec<u8> = Vec::new();
        self.begin_exchange(cmd::CMD_GET_FREE_SIZES, empty.as_slice(), Purpose::Info)
    }

    /// Starts releasing the device's data buffer.
    pub fn free_data(&mut self) -> (step: Step<Payload>)
        ensures
            exchange_begins(
                old(self)@,
                cmd::CMD_FREE_DATA,
                Seq::empty(),
                Purpose::Free,
                final(self)@,
                step,
            ),
    {
        let empty: Vec<u8> = Vec::new();
        self.begin_exchange(cmd::CMD_FREE_DATA, empty.as_slice(), Purpose::Free)
    }

    /// Starts closing the session: the exit command goes out, its reply is
    /// awaited but not looked at, and the socket is closed. Without a
    /// socket there is nothing to do.
    pub fn disconnect(&mut self) -> (step: Step<Payload>)
        ensures
            disconnect_begins(old(self)@, final(self)@, step),
    {
        if self.connected {
            let empty: Vec<u8> = Vec::new();
            self.begin_exchange(cmd::CMD_EXIT, empty.as_slice(), Purpose::Exit)
        } else {
            self.phase = UdpPhase::Idle;
            Step::Finished(Ok(Payload::Nothing))
        }
    }
}

} // verus!
