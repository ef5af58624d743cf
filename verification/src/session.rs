//! What the two transports share: the results of their operations, the
//! purposes of a command, the judgment of replies, and the histories of a
//! session.

use vstd::prelude::*;
use vstd::slice::slice_subrange;
use crate::protocol::{
    cmd, command_name, command_name_of, dword_at, le32_bytes, push_u32, read_u16, read_u32,
    request_data, word_at,
};
use crate::protocol::records::{is_record_rows, is_user_rows, RecordLayout, UserLayout};
use crate::step::{Action, Event, Step};
use crate::text::{decimal_digits, join3};

verus! {

/// What an operation of a transport hands back.
#[derive(Debug)]
pub enum Payload {
    /// The operation has no result beyond its success.
    Nothing,
    /// The raw reply to a command.
    Bytes(Vec<u8>),
    /// A bulk data set, and whether it came in a single small response.
    Buffer(Vec<u8>, bool),
    /// Decoded user rows: `(uid, user id, name)`.
    UserRows(Vec<(u16, String, String)>),
    /// Decoded attendance rows:
    /// `(user id, timestamp, verify type, in/out state)`.
    RecordRows(Vec<(String, String, u8, u8)>),
    /// The number of users and of attendance records on the device.
    Counts(u32, u32),
}

/// The operation ends in success, without a result.
pub open spec fn yields_nothing(step: Step<Payload>) -> bool {
    step matches Step::Finished(Ok(Payload::Nothing))
}

/// The operation ends with the raw reply `bytes`.
pub open spec fn yields_bytes(step: Step<Payload>, bytes: Seq<u8>) -> bool {
    step matches Step::Finished(Ok(Payload::Bytes(b))) && b@ == bytes
}

/// The operation ends with the bulk data set `bytes`.
pub open spec fn yields_buffer(step: Step<Payload>, bytes: Seq<u8>, small: bool) -> bool {
    step matches Step::Finished(Ok(Payload::Buffer(b, s))) && b@ == bytes && s == small
}

/// The operation ends with the user rows that `data` decodes to.
pub open spec fn yields_user_rows(step: Step<Payload>, data: Seq<u8>, layout: UserLayout) -> bool {
    step matches Step::Finished(Ok(Payload::UserRows(rows))) && is_user_rows(rows@, data, layout)
}

/// The operation ends with the attendance rows that `data` decodes to.
pub open spec fn yields_record_rows(
    step: Step<Payload>,
    data: Seq<u8>,
    layout: RecordLayout,
) -> bool {
    step matches Step::Finished(Ok(Payload::RecordRows(rows))) && is_record_rows(
        rows@,
        data,
        layout,
    )
}

/// The operation ends with the two counts.
pub open spec fn yields_counts(step: Step<Payload>, users: int, logs: int) -> bool {
    step matches Step::Finished(Ok(Payload::Counts(u, l))) && u == users && l == logs
}

/// The reply counter after one more command; it wraps at 16 bits.
pub open spec fn next_reply_id(reply_id: u16) -> u16 {
    if reply_id == 65535 {
        0
    } else {
        (reply_id + 1) as u16
    }
}

/// The reply counter after `n` more commands.
pub open spec fn reply_id_after(reply_id: u16, n: int) -> u16 {
    ((reply_id as int + n) % 65536) as u16
}

/// The user and log counts in the payload of a free-sizes reply: the
/// numbers at offsets 24 and 40 if the payload has 76 bytes or more, zero
/// otherwise. The payload is what follows the eight header bytes; a reply
/// of eight bytes or less is taken as it is.
pub open spec fn info_counts(reply: Seq<u8>) -> (int, int) {
    let payload = if reply.len() > 8 {
        reply.skip(8)
    } else {
        reply
    };
    if payload.len() >= 76 {
        (dword_at(payload, 24), dword_at(payload, 40))
    } else {
        (0, 0)
    }
}

/// Reads the user and log counts from a free-sizes reply.
pub fn read_info_counts(reply: &[u8]) -> (counts: (u32, u32))
    ensures
        counts.0 as int == info_counts(reply@).0,
        counts.1 as int == info_counts(reply@).1,
{
    let n: usize = reply.len();
    let payload = if n > 8 {
        slice_subrange(reply, 8, n)
    } else {
        reply
    };
    if payload.len() >= 76 {
        (read_u32(payload, 24), read_u32(payload, 40))
    } else {
        (0, 0)
    }
}

/// What a reply to the authentication command means: `None` when the
/// device accepted the key, and the error text otherwise.
pub open spec fn auth_verdict(reply: Seq<u8>) -> Option<Seq<char>> {
    if reply.len() >= 2 {
        let code = word_at(reply, 0) as u16;
        if code == 2000 {
            None
        } else {
            Some(
                "Device authentication failed (response: "@ + command_name_of(code)
                    + ")"@,
            )
        }
    } else {
        Some("Device authentication failed: empty response"@)
    }
}

/// Judges the reply to the authentication command.
pub fn check_auth_reply(reply: &[u8]) -> (verdict: Result<(), String>)
    ensures
        match auth_verdict(reply@) {
            None => verdict is Ok,
            Some(text) => verdict matches Err(e) && e@ == text,
        },
{
    if reply.len() >= 2 {
        let cmd_id: u16 = read_u16(reply, 0);
        if cmd_id == cmd::CMD_ACK_OK {
            return Ok(());
        }
        return Err(
            join3(
                "Device authentication failed (response: ",
                command_name(cmd_id),
                ")",
            ),
        );
    }
    Err("Device authentication failed: empty response".to_string())
}

/// The session id after the reply to the connect command: the number at
/// bytes 4..6 of the reply if it has them, the old one otherwise.
pub open spec fn session_after_connect(session_id: u16, reply: Seq<u8>) -> u16 {
    if reply.len() >= 6 {
        word_at(reply, 4) as u16
    } else {
        session_id
    }
}

/// The four bytes of a communication key, as the authentication command
/// carries them.
pub fn auth_payload(comm_key: u32) -> (payload: Vec<u8>)
    ensures
        payload@ == le32_bytes(comm_key as int),
{
    let mut payload: Vec<u8> = Vec::new();
    push_u32(&mut payload, comm_key);
    payload
}

/// What the command in flight was sent for.
#[derive(Debug, Clone, Copy, PartialEq, Eq, Structural)]
pub enum Purpose {
    /// Opening the session.
    Connect,
    /// Authenticating with the communication key.
    Auth,
    /// A command of the caller, whose raw reply is handed back.
    Command,
    /// Asking for the counts of users and records.
    Info,
    /// Releasing the device's data buffer, on its own.
    Free,
    /// Releasing the device's data buffer before a bulk read.
    FreeBefore,
    /// Releasing the device's data buffer after a bulk read.
    FreeAfter,
    /// Closing the session.
    Exit,
}

/// What a bulk read is made for.
#[derive(Debug, Clone, Copy, PartialEq, Eq, Structural)]
pub enum BulkKind {
    /// The assembled bytes are handed back as they are.
    Raw,
    /// The bytes are the user table.
    Users,
    /// The bytes are the attendance log.
    Attendances,
}

/// The request payload of a bulk read.
pub open spec fn bulk_request_payload(kind: BulkKind) -> Seq<u8> {
    match kind {
        BulkKind::Users => request_data::GET_USERS@,
        _ => request_data::GET_ATTENDANCE_LOGS@,
    }
}

/// The address `ip:port` of the device.
pub open spec fn device_address(ip: Seq<char>, port: u16) -> Seq<char> {
    ip + ":"@ + decimal_digits(port as nat)
}

/// The text of the error for a first response that is neither data nor
/// the announcement of a data set.
pub open spec fn unexpected_command_text(code: u16) -> Seq<char> {
    "Unexpected command in data response: "@ + decimal_digits(code as nat) + " ("@
        + command_name_of(code) + ")"@
}

/// An optional error message as plain text.
pub open spec fn text_of(error: Option<String>) -> Option<Seq<char>> {
    match error {
        Some(message) => Some(message@),
        None => None,
    }
}

/// The result of a command exchange as plain values.
pub open spec fn reply_of(result: Result<Vec<u8>, String>) -> Result<Seq<u8>, Seq<char>> {
    match result {
        Ok(bytes) => Ok(bytes@),
        Err(message) => Err(message@),
    }
}

/// What a caller does with a session: it starts an operation, or it
/// resumes the operation in flight with an outcome.
pub enum Call {
    /// `connect`.
    Connect,
    /// `auth`, with the communication key.
    Auth(u32),
    /// `execute_cmd`, with the command and its payload.
    Command(u16, Seq<u8>),
    /// `read_with_buffer`, with the request.
    Bulk(Seq<u8>),
    /// `get_users`.
    Users,
    /// `get_attendances`.
    Attendances,
    /// `get_info`.
    Info,
    /// `free_data`.
    Free,
    /// `disconnect`.
    Disconnect,
    /// `resume`, with the outcome.
    Resume(Event),
}

/// Whether the step sends a packet that holds `command` at byte `at`,
/// where its header begins.
pub open spec fn sends_command_at<T>(step: Step<T>, at: int, command: u16) -> bool {
    step matches Step::Next(Action::Send { bytes }) && bytes@.len() >= at + 8 && word_at(bytes@, at)
        == command
}

/// The number of steps that send a packet with the given command.
pub open spec fn sent_count_at<T>(steps: Seq<Step<T>>, at: int, command: u16) -> nat
    decreases steps.len(),
{
    if steps.len() == 0 {
        0
    } else {
        sent_count_at(steps.drop_last(), at, command) + if sends_command_at(
            steps.last(),
            at,
            command,
        ) {
            1nat
        } else {
            0nat
        }
    }
}

/// The count of a history grows with its last step.
pub proof fn lemma_sent_count_step<T>(steps: Seq<Step<T>>, i: int, at: int, command: u16)
    requires
        0 <= i < steps.len(),
    ensures
        sent_count_at(steps.take(i + 1), at, command) == sent_count_at(steps.take(i), at, command)
            + if sends_command_at(steps[i], at, command) {
            1nat
        } else {
            0nat
        },
{
    assert(steps.take(i + 1).drop_last() =~= steps.take(i));
    assert(steps.take(i + 1).last() == steps[i]);
}

} // verus!
