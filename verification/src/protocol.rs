//! Wire codec: checksum, packet headers, stream envelope and record layouts.

use vstd::prelude::*;
use vstd::slice::slice_subrange;

pub mod cmd;
pub mod records;
pub mod request_data;

pub use self::records::{
    decode_record_data_16, decode_record_data_40, decode_record_data_8, decode_record_rows,
    decode_user_data_28, decode_user_data_72, decode_user_rows, RecordLayout, UserLayout,
};
pub use crate::text::extract_ascii_string;
pub use crate::time::parse_zk_time;

verus! {

/// Modulus of the checksum and of the reply counter on the wire.
pub const USHRT_MAX: u32 = 65535;

/// Largest number of payload bytes that one bulk chunk carries.
pub const MAX_CHUNK: usize = 65472;

/// The four bytes that open every stream envelope.
pub const TCP_PREFIX: [u8; 4] = [0x50, 0x50, 0x82, 0x7d];

/// The value of two bytes read as a little-endian 16-bit word.
pub open spec fn le16(lo: u8, hi: u8) -> int {
    lo as int + 256 * (hi as int)
}

/// The value of four bytes read as a little-endian 32-bit word.
pub open spec fn le32(b0: u8, b1: u8, b2: u8, b3: u8) -> int {
    b0 as int + 256 * (b1 as int) + 65536 * (b2 as int) + 16777216 * (b3 as int)
}

/// The two bytes of a 16-bit word, low byte first.
pub open spec fn le16_bytes(v: int) -> Seq<u8> {
    seq![(v % 256) as u8, (v / 256 % 256) as u8]
}

/// The four bytes of a 32-bit word, low byte first.
pub open spec fn le32_bytes(v: int) -> Seq<u8> {
    seq![
        (v % 256) as u8,
        (v / 256 % 256) as u8,
        (v / 65536 % 256) as u8,
        (v / 16777216 % 256) as u8,
    ]
}

/// The little-endian 16-bit word that starts at `at`.
pub open spec fn word_at(s: Seq<u8>, at: int) -> int
    recommends
        0 <= at,
        at + 2 <= s.len(),
{
    le16(s[at], s[at + 1])
}

/// The little-endian 32-bit word that starts at `at`.
pub open spec fn dword_at(s: Seq<u8>, at: int) -> int
    recommends
        0 <= at,
        at + 4 <= s.len(),
{
    le32(s[at], s[at + 1], s[at + 2], s[at + 3])
}

/// Reads the little-endian 16-bit word that starts at `at`.
pub fn read_u16(data: &[u8], at: usize) -> (v: u16)
    requires
        at + 2 <= data@.len(),
    ensures
        v as int == word_at(data@, at as int),
{
    let lo: u16 = data[at] as u16;
    let hi: u16 = data[at + 1] as u16;
    lo + 256 * hi
}

/// Reads the little-endian 32-bit word that starts at `at`.
pub fn read_u32(data: &[u8], at: usize) -> (v: u32)
    requires
        at + 4 <= data@.len(),
    ensures
        v as int == dword_at(data@, at as int),
{
    let b0: u32 = data[at] as u32;
    let b1: u32 = data[at + 1] as u32;
    let b2: u32 = data[at + 2] as u32;
    let b3: u32 = data[at + 3] as u32;
    b0 + 256 * b1 + 65536 * b2 + 16777216 * b3
}

/// The sum of the buffer's little-endian 16-bit words; an odd last byte
/// counts as a byte.
pub open spec fn word_sum(s: Seq<u8>) -> int
    decreases s.len(),
{
    if s.len() == 0 {
        0
    } else if s.len() == 1 {
        s[0] as int
    } else {
        le16(s[0], s[1]) + word_sum(s.skip(2))
    }
}

/// The checksum of a buffer: `65535 - (word sum mod 65535) - 1`.
pub open spec fn checksum(s: Seq<u8>) -> int {
    65535 - word_sum(s) % 65535 - 1
}

/// Computes the checksum of a buffer.
pub fn create_checksum(buf: &[u8]) -> (sum: u16)
    ensures
        sum as int == checksum(buf@),
        sum < 65535,
{
    let mut chksum: u32 = 0;
    let mut i: usize = 0;
    let n: usize = buf.len();
    assert(buf@.skip(0) =~= buf@);
    while i < n
        invariant
            n == buf@.len(),
            i <= n,
            i < n ==> i % 2 == 0,
            chksum < 65535,
            (chksum as int + word_sum(buf@.skip(i as int))) % 65535 == word_sum(buf@) % 65535,
        decreases n - i,
    {
        let ghost rest = buf@.skip(i as int);
        let ghost before = chksum as int;
        if i == n - 1 {
            chksum = chksum + buf[i] as u32;
            proof {
                assert(rest.len() == 1);
                assert(word_sum(rest) == buf@[i as int] as int);
                assert(buf@.skip(n as int).len() == 0);
            }
            chksum = chksum % USHRT_MAX;
            i = n;
        } else {
            let w: u16 = read_u16(buf, i);
            chksum = chksum + w as u32;
            proof {
                assert(rest.skip(2) =~= buf@.skip(i as int + 2));
                assert(word_sum(rest) == w as int + word_sum(buf@.skip(i as int + 2)));
            }
            chksum = chksum % USHRT_MAX;
            i = i + 2;
        }
        proof {
            let tail = word_sum(buf@.skip(i as int));
            let added = word_sum(rest) - tail;
            assert(chksum as int == (before + added) % 65535);
            vstd::arithmetic::div_mod::lemma_add_mod_noop(before + added, tail, 65535);
            vstd::arithmetic::div_mod::lemma_add_mod_noop(chksum as int, tail, 65535);
            vstd::arithmetic::div_mod::lemma_mod_twice(before + added, 65535);
        }
    }
    proof {
        assert(buf@.skip(n as int).len() == 0);
        assert(word_sum(buf@.skip(n as int)) == 0);
    }
    let r: u32 = USHRT_MAX - chksum - 1;
    r as u16
}

/// Appends a copy of `data` to `buf`.
pub fn append_bytes(buf: &mut Vec<u8>, data: &[u8])
    ensures
        final(buf)@ == old(buf)@ + data@,
{
    let n: usize = data.len();
    let mut i: usize = 0;
    while i < n
        invariant
            n == data@.len(),
            i <= n,
            buf@ == old(buf)@ + data@.take(i as int),
        decreases n - i,
    {
        buf.push(data[i]);
        i = i + 1;
        assert(data@.take(i as int) =~= data@.take(i as int - 1).push(data@[i as int - 1]));
    }
    assert(data@.take(n as int) =~= data@);
}

/// Appends the two bytes of `v`, low byte first.
pub fn push_u16(buf: &mut Vec<u8>, v: u16)
    ensures
        final(buf)@ == old(buf)@ + le16_bytes(v as int),
{
    buf.push((v % 256) as u8);
    buf.push((v / 256) as u8);
}

/// Appends the four bytes of `v`, low byte first.
pub fn push_u32(buf: &mut Vec<u8>, v: u32)
    ensures
        final(buf)@ == old(buf)@ + le32_bytes(v as int),
{
    buf.push((v % 256) as u8);
    buf.push((v / 256 % 256) as u8);
    buf.push((v / 65536 % 256) as u8);
    buf.push((v / 16777216) as u8);
}

/// A decoded packet header.
#[derive(Debug, Clone, Copy, PartialEq, Eq, Structural)]
pub struct PacketHeader {
    pub command_id: u16,
    pub checksum: u16,
    pub session_id: u16,
    pub reply_id: u16,
}

/// The header that the eight bytes from `at` on hold.
pub open spec fn header_at(s: Seq<u8>, at: int) -> PacketHeader
    recommends
        0 <= at,
        at + 8 <= s.len(),
{
    PacketHeader {
        command_id: word_at(s, at) as u16,
        checksum: word_at(s, at + 2) as u16,
        session_id: word_at(s, at + 4) as u16,
        reply_id: word_at(s, at + 6) as u16,
    }
}

/// Decodes the header of a datagram.
pub fn decode_udp_header(data: &[u8]) -> (header: PacketHeader)
    requires
        data@.len() >= 8,
    ensures
        header == header_at(data@, 0),
{
    PacketHeader {
        command_id: read_u16(data, 0),
        checksum: read_u16(data, 2),
        session_id: read_u16(data, 4),
        reply_id: read_u16(data, 6),
    }
}

/// Decodes the inner header of an enveloped packet, and the length that the
/// envelope announces.
pub fn decode_tcp_header(data: &[u8]) -> (decoded: (PacketHeader, u16))
    requires
        data@.len() >= 16,
    ensures
        decoded.0 == header_at(data@, 8),
        decoded.1 as int == word_at(data@, 4),
{
    let payload_size: u16 = read_u16(data, 4);
    let header = PacketHeader {
        command_id: read_u16(data, 8),
        checksum: read_u16(data, 10),
        session_id: read_u16(data, 12),
        reply_id: read_u16(data, 14),
    };
    (header, payload_size)
}

/// The reply counter as it travels: one more than the local counter,
/// modulo 65535.
pub open spec fn wire_reply_id(reply_id: u16) -> int {
    (reply_id as int + 1) % 65535
}

/// The eight header bytes for the given field values.
pub open spec fn header_bytes(command: int, chk: int, session: int, reply: int) -> Seq<u8> {
    le16_bytes(command) + le16_bytes(chk) + le16_bytes(session) + le16_bytes(reply)
}

/// A packet before its checksum is known: the checksum field holds zero.
pub open spec fn unsummed_packet(
    command: u16,
    session_id: u16,
    reply_id: u16,
    data: Seq<u8>,
) -> Seq<u8> {
    header_bytes(command as int, 0, session_id as int, wire_reply_id(reply_id)) + data
}

/// A datagram: header with the checksum of the unsummed packet, then payload.
pub open spec fn udp_packet(
    command: u16,
    session_id: u16,
    reply_id: u16,
    data: Seq<u8>,
) -> Seq<u8> {
    header_bytes(
        command as int,
        checksum(unsummed_packet(command, session_id, reply_id, data)),
        session_id as int,
        wire_reply_id(reply_id),
    ) + data
}

/// The eight envelope bytes in front of an inner packet of `len` bytes.
pub open spec fn tcp_envelope(len: int) -> Seq<u8> {
    seq![0x50u8, 0x50u8, 0x82u8, 0x7du8] + le16_bytes(len % 65536) + seq![0u8, 0u8]
}

/// A stream packet: envelope, then the datagram form of the packet.
pub open spec fn tcp_packet(
    command: u16,
    session_id: u16,
    reply_id: u16,
    data: Seq<u8>,
) -> Seq<u8> {
    tcp_envelope(8 + data.len() as int) + udp_packet(command, session_id, reply_id, data)
}

/// Builds a datagram. The reply counter is written as
/// `wire_reply_id(reply_id)` before the checksum is taken.
pub fn create_udp_header(
    command: u16,
    session_id: u16,
    reply_id: u16,
    data: &[u8],
) -> (packet: Vec<u8>)
    ensures
        packet@ == udp_packet(command, session_id, reply_id, data@),
        packet@.len() == 8 + data@.len(),
{
    let next_reply: u16 = ((reply_id as u32 + 1) % USHRT_MAX) as u16;
    let mut buf: Vec<u8> = Vec::new();
    push_u16(&mut buf, command);
    push_u16(&mut buf, 0);
    push_u16(&mut buf, session_id);
    push_u16(&mut buf, next_reply);
    append_bytes(&mut buf, data);
    assert(buf@ =~= unsummed_packet(command, session_id, reply_id, data@));
    let chksum: u16 = create_checksum(buf.as_slice());
    buf.set(2, (chksum % 256) as u8);
    buf.set(3, (chksum / 256) as u8);
    assert(buf@ =~= udp_packet(command, session_id, reply_id, data@));
    buf
}

/// Builds a stream packet: the envelope with the inner length, then the
/// datagram form of the packet.
pub fn create_tcp_header(
    command: u16,
    session_id: u16,
    reply_id: u16,
    data: &[u8],
) -> (packet: Vec<u8>)
    ensures
        packet@ == tcp_packet(command, session_id, reply_id, data@),
        packet@.len() == 16 + data@.len(),
{
    let inner: Vec<u8> = create_udp_header(command, session_id, reply_id, data);
    let inner_len: u16 = (inner.len() % 65536) as u16;
    let mut result: Vec<u8> = Vec::new();
    result.push(0x50);
    result.push(0x50);
    result.push(0x82);
    result.push(0x7d);
    push_u16(&mut result, inner_len);
    result.push(0x00);
    result.push(0x00);
    assert(result@ =~= tcp_envelope(8 + data@.len() as int));
    append_bytes(&mut result, inner.as_slice());
    result
}

/// Whether the buffer starts with a stream envelope.
pub open spec fn has_envelope(s: Seq<u8>) -> bool {
    s.len() >= 8 && s[0] == 0x50 && s[1] == 0x50 && s[2] == 0x82 && s[3] == 0x7d
}

/// The buffer without its stream envelope, if it has one.
pub open spec fn without_envelope(s: Seq<u8>) -> Seq<u8> {
    if has_envelope(s) {
        s.skip(8)
    } else {
        s
    }
}

/// Strips the eight envelope bytes if the buffer starts with the prefix.
pub fn remove_tcp_header(buf: &[u8]) -> (inner: &[u8])
    ensures
        inner@ == without_envelope(buf@),
{
    if buf.len() < 8 {
        return buf;
    }
    if buf[0] == 0x50 && buf[1] == 0x50 && buf[2] == 0x82 && buf[3] == 0x7d {
        slice_subrange(buf, 8, buf.len())
    } else {
        buf
    }
}

/// The header fields of an encoded packet are those that went in: the
/// command, the session id, the reply counter in its wire form, and the
/// checksum of the unsummed packet.
pub proof fn lemma_header_round_trip(command: u16, session_id: u16, reply_id: u16, data: Seq<u8>)
    ensures
        header_at(udp_packet(command, session_id, reply_id, data), 0) == (PacketHeader {
            command_id: command,
            checksum: checksum(unsummed_packet(command, session_id, reply_id, data)) as u16,
            session_id: session_id,
            reply_id: wire_reply_id(reply_id) as u16,
        }),
        header_at(tcp_packet(command, session_id, reply_id, data), 8) == header_at(
            udp_packet(command, session_id, reply_id, data),
            0,
        ),
        word_at(tcp_packet(command, session_id, reply_id, data), 4) == (8 + data.len()) % 65536,
{
    let p = udp_packet(command, session_id, reply_id, data);
    let t = tcp_packet(command, session_id, reply_id, data);
    assert(forall|i: int| 0 <= i < 8 ==> t[8 + i] == p[i]);
}

/// The checksum field of an encoded packet holds the checksum of the
/// packet with that field set to zero.
pub proof fn lemma_checksum_field(command: u16, session_id: u16, reply_id: u16, data: Seq<u8>)
    ensures
        word_at(udp_packet(command, session_id, reply_id, data), 2) == checksum(
            udp_packet(command, session_id, reply_id, data).update(2, 0).update(3, 0),
        ),
        word_at(tcp_packet(command, session_id, reply_id, data), 10) == checksum(
            tcp_packet(command, session_id, reply_id, data).skip(8).update(2, 0).update(3, 0),
        ),
{
    let p = udp_packet(command, session_id, reply_id, data);
    let t = tcp_packet(command, session_id, reply_id, data);
    let blank = unsummed_packet(command, session_id, reply_id, data);
    assert(p.update(2, 0).update(3, 0) =~= blank);
    assert(t.skip(8) =~= p);
    assert(t[10] == p[2] && t[11] == p[3]);
}

/// The reply counter travels as one more than the local counter, modulo
/// 65535.
pub proof fn lemma_wire_reply_id(command: u16, session_id: u16, reply_id: u16, data: Seq<u8>)
    ensures
        word_at(udp_packet(command, session_id, reply_id, data), 6) == (reply_id + 1) % 65535,
        word_at(tcp_packet(command, session_id, reply_id, data), 14) == (reply_id + 1) % 65535,
{
    lemma_header_round_trip(command, session_id, reply_id, data);
    let t = tcp_packet(command, session_id, reply_id, data);
    let p = udp_packet(command, session_id, reply_id, data);
    assert(t[14] == p[6] && t[15] == p[7]);
}

/// Taking the envelope off a stream packet gives the datagram form of the
/// packet.
pub proof fn lemma_envelope_removal(command: u16, session_id: u16, reply_id: u16, data: Seq<u8>)
    ensures
        has_envelope(tcp_packet(command, session_id, reply_id, data)),
        without_envelope(tcp_packet(command, session_id, reply_id, data)) == udp_packet(
            command,
            session_id,
            reply_id,
            data,
        ),
{
    let t = tcp_packet(command, session_id, reply_id, data);
    assert(t.skip(8) =~= udp_packet(command, session_id, reply_id, data));
}

/// Whether a datagram is a real-time event notification.
pub open spec fn is_event_udp(s: Seq<u8>) -> bool {
    s.len() >= 8 && word_at(s, 0) == 500
}

/// Whether a stream read starts with a real-time event notification: the
/// packet that follows the envelope, if there is one, has the event code
/// as its command.
pub open spec fn is_event_tcp(s: Seq<u8>) -> bool {
    let inner = without_envelope(s);
    inner.len() >= 6 && word_at(inner, 0) == 500
}

/// True when the datagram is a real-time event, which the transports skip.
pub fn check_not_event_udp(data: &[u8]) -> (event: bool)
    ensures
        event == is_event_udp(data@),
{
    if data.len() < 8 {
        return false;
    }
    let header = decode_udp_header(data);
    header.command_id == cmd::CMD_REG_EVENT
}

/// True when the stream read starts with a real-time event, which the
/// transports skip.
pub fn check_not_event_tcp(data: &[u8]) -> (event: bool)
    ensures
        event == is_event_tcp(data@),
{
    let inner = remove_tcp_header(data);
    if inner.len() < 6 {
        return false;
    }
    let command_id: u16 = read_u16(inner, 0);
    command_id == cmd::CMD_REG_EVENT
}

/// The name of an acknowledgement code.
pub open spec fn command_name_of(cmd_id: u16) -> Seq<char> {
    if cmd_id == 2000 {
        "CMD_ACK_OK"@
    } else if cmd_id == 2001 {
        "CMD_ACK_ERROR"@
    } else if cmd_id == 2002 {
        "CMD_ACK_DATA"@
    } else if cmd_id == 2003 {
        "CMD_ACK_RETRY"@
    } else if cmd_id == 2004 {
        "CMD_ACK_REPEAT"@
    } else if cmd_id == 2005 {
        "CMD_ACK_UNAUTH"@
    } else if cmd_id == 0xFFFF {
        "CMD_ACK_UNKNOWN"@
    } else if cmd_id == 0xFFFD {
        "CMD_ACK_ERROR_CMD"@
    } else if cmd_id == 0xFFFC {
        "CMD_ACK_ERROR_INIT"@
    } else if cmd_id == 0xFFFB {
        "CMD_ACK_ERROR_DATA"@
    } else {
        "UNKNOWN_COMMAND"@
    }
}

/// Names an acknowledgement code; `UNKNOWN_COMMAND` for any other value.
pub fn command_name(cmd_id: u16) -> (name: &'static str)
    ensures
        name@ == command_name_of(cmd_id),
{
    match cmd_id {
        2000 => "CMD_ACK_OK",
        2001 => "CMD_ACK_ERROR",
        2002 => "CMD_ACK_DATA",
        2003 => "CMD_ACK_RETRY",
        2004 => "CMD_ACK_REPEAT",
        2005 => "CMD_ACK_UNAUTH",
        0xFFFF => "CMD_ACK_UNKNOWN",
        0xFFFD => "CMD_ACK_ERROR_CMD",
        0xFFFC => "CMD_ACK_ERROR_INIT",
        0xFFFB => "CMD_ACK_ERROR_DATA",
        _ => "UNKNOWN_COMMAND",
    }
}

} // verus!
