//! The layouts of user and attendance rows, and their decoders.

use vstd::prelude::*;
use vstd::slice::slice_subrange;
use crate::protocol::{dword_at, read_u16, read_u32, word_at};
use crate::text::{decimal, decimal_digits, extract_ascii_string, is_field_text};
use crate::time::{instant_of, parse_zk_time};

verus! {

/// Size of a user row in a datagram transfer.
pub const USER_RECORD_UDP: usize = 28;

/// Size of a user row in a stream transfer.
pub const USER_RECORD_TCP: usize = 72;

/// Size of an attendance row in a stream transfer.
pub const ATT_RECORD_TCP: usize = 40;

/// Size of an attendance row in a large datagram transfer.
pub const ATT_RECORD_UDP: usize = 16;

/// Size of an attendance row in a small datagram transfer.
pub const ATT_RECORD_UDP_SMALL: usize = 8;

/// Decodes a compact user row: `(uid, user id, name)`. The user id is the
/// 32-bit number at offset 24, written in decimal.
pub fn decode_user_data_28(data: &[u8]) -> (user: (u16, String, String))
    requires
        data@.len() >= 28,
    ensures
        user.0 as int == word_at(data@, 0),
        user.1@ == decimal_digits(dword_at(data@, 24) as nat),
        is_field_text(user.2@, data@.subrange(8, 16)),
{
    let uid: u16 = read_u16(data, 0);
    let name: String = extract_ascii_string(slice_subrange(data, 8, 16));
    let val: u32 = read_u32(data, 24);
    let user_id: String = decimal(val as u64);
    (uid, user_id, name)
}

/// Decodes an extended user row: `(uid, user id, name)`.
pub fn decode_user_data_72(data: &[u8]) -> (user: (u16, String, String))
    requires
        data@.len() >= 57,
    ensures
        user.0 as int == word_at(data@, 0),
        is_field_text(user.1@, data@.subrange(48, 57)),
        is_field_text(user.2@, data@.subrange(11, 35)),
{
    let uid: u16 = read_u16(data, 0);
    let name: String = extract_ascii_string(slice_subrange(data, 11, 35));
    let user_id: String = extract_ascii_string(slice_subrange(data, 48, 57));
    (uid, user_id, name)
}

/// Decodes a full attendance row:
/// `(user id, timestamp, verify type, in/out state)`.
pub fn decode_record_data_40(data: &[u8]) -> (record: (String, String, u8, u8))
    requires
        data@.len() >= 31,
    ensures
        is_field_text(record.0@, data@.subrange(2, 11)),
        record.1@ == instant_of(dword_at(data@, 27)).iso_text(),
        record.2 == data@[11],
        record.3 == data@[12],
{
    let device_user_id: String = extract_ascii_string(slice_subrange(data, 2, 11));
    let verify_type: u8 = data[11];
    let in_out_state: u8 = data[12];
    let time_val: u32 = read_u32(data, 27);
    let timestamp: String = parse_zk_time(time_val);
    (device_user_id, timestamp, verify_type, in_out_state)
}

/// Decodes a compact attendance row of a large transfer. The user id is
/// the 16-bit number at offset 0, written in decimal; both type fields are
/// zero.
pub fn decode_record_data_16(data: &[u8]) -> (record: (String, String, u8, u8))
    requires
        data@.len() >= 8,
    ensures
        record.0@ == decimal_digits(word_at(data@, 0) as nat),
        record.1@ == instant_of(dword_at(data@, 4)).iso_text(),
        record.2 == 0,
        record.3 == 0,
{
    let uid: u16 = read_u16(data, 0);
    let device_user_id: String = decimal(uid as u64);
    let time_val: u32 = read_u32(data, 4);
    let timestamp: String = parse_zk_time(time_val);
    (device_user_id, timestamp, 0, 0)
}

/// Decodes a compact attendance row of a small transfer: the layout of
/// the sixteen-byte row, of which only eight bytes are there.
pub fn decode_record_data_8(data: &[u8]) -> (record: (String, String, u8, u8))
    requires
        data@.len() >= 8,
    ensures
        record.0@ == decimal_digits(word_at(data@, 0) as nat),
        record.1@ == instant_of(dword_at(data@, 4)).iso_text(),
        record.2 == 0,
        record.3 == 0,
{
    let uid: u16 = read_u16(data, 0);
    let device_user_id: String = decimal(uid as u64);
    let time_val: u32 = read_u32(data, 4);
    let timestamp: String = parse_zk_time(time_val);
    (device_user_id, timestamp, 0, 0)
}

/// The layouts of a user row.
#[derive(Debug, Clone, Copy, PartialEq, Eq, Structural)]
pub enum UserLayout {
    /// 28 bytes, as datagram transfers carry them.
    Compact,
    /// 72 bytes, as stream transfers carry them.
    Extended,
}

/// The layouts of an attendance row.
#[derive(Debug, Clone, Copy, PartialEq, Eq, Structural)]
pub enum RecordLayout {
    /// 40 bytes, as stream transfers carry them.
    Full,
    /// 16 bytes, as large datagram transfers carry them.
    Compact,
    /// 8 bytes, as small datagram transfers carry them.
    CompactSmall,
}

impl UserLayout {
    /// The size of one row.
    pub open spec fn row_size(self) -> int {
        match self {
            UserLayout::Compact => 28,
            UserLayout::Extended => 72,
        }
    }

    /// Whether `user` is what the row `bytes` decodes to.
    pub open spec fn decodes(self, bytes: Seq<u8>, user: (u16, String, String)) -> bool {
        match self {
            UserLayout::Compact => {
                &&& user.0 as int == word_at(bytes, 0)
                &&& user.1@ == decimal_digits(dword_at(bytes, 24) as nat)
                &&& is_field_text(user.2@, bytes.subrange(8, 16))
            },
            UserLayout::Extended => {
                &&& user.0 as int == word_at(bytes, 0)
                &&& is_field_text(user.1@, bytes.subrange(48, 57))
                &&& is_field_text(user.2@, bytes.subrange(11, 35))
            },
        }
    }
}

impl RecordLayout {
    /// The size of one row.
    pub open spec fn row_size(self) -> int {
        match self {
            RecordLayout::Full => 40,
            RecordLayout::Compact => 16,
            RecordLayout::CompactSmall => 8,
        }
    }

    /// Whether `record` is what the row `bytes` decodes to.
    pub open spec fn decodes(self, bytes: Seq<u8>, record: (String, String, u8, u8)) -> bool {
        match self {
            RecordLayout::Full => {
                &&& is_field_text(record.0@, bytes.subrange(2, 11))
                &&& record.1@ == instant_of(dword_at(bytes, 27)).iso_text()
                &&& record.2 == bytes[11]
                &&& record.3 == bytes[12]
            },
            _ => {
                &&& record.0@ == decimal_digits(word_at(bytes, 0) as nat)
                &&& record.1@ == instant_of(dword_at(bytes, 4)).iso_text()
                &&& record.2 == 0
                &&& record.3 == 0
            },
        }
    }
}

/// The number of whole rows of `size` bytes in a bulk payload of `len`
/// bytes, whose first four bytes are a length prefix.
pub open spec fn row_count(len: int, size: int) -> int {
    if len < 4 {
        0
    } else {
        (len - 4) / size
    }
}

/// The bytes of row `i` of a bulk payload.
pub open spec fn row_bytes(data: Seq<u8>, size: int, i: int) -> Seq<u8> {
    data.subrange(4 + i * size, 4 + (i + 1) * size)
}

/// Whether `users` are the decoded user rows of the bulk payload `data`:
/// one for every whole row, in order.
pub open spec fn is_user_rows(
    users: Seq<(u16, String, String)>,
    data: Seq<u8>,
    layout: UserLayout,
) -> bool {
    &&& users.len() == row_count(data.len() as int, layout.row_size())
    &&& forall|i: int|
        0 <= i < users.len() ==> layout.decodes(
            row_bytes(data, layout.row_size(), i),
            #[trigger] users[i],
        )
}

/// Whether `records` are the decoded attendance rows of the bulk payload
/// `data`: one for every whole row, in order.
pub open spec fn is_record_rows(
    records: Seq<(String, String, u8, u8)>,
    data: Seq<u8>,
    layout: RecordLayout,
) -> bool {
    &&& records.len() == row_count(data.len() as int, layout.row_size())
    &&& forall|i: int|
        0 <= i < records.len() ==> layout.decodes(
            row_bytes(data, layout.row_size(), i),
            #[trigger] records[i],
        )
}

/// A bulk payload of a length prefix, `n` rows and a remainder shorter
/// than a row has `n` rows; they take up `n * size` bytes behind the
/// prefix, and the remainder is not read. A payload shorter than the
/// prefix has no rows.
pub proof fn lemma_row_count(len: int, size: int, n: int, k: int)
    requires
        size > 0,
        n >= 0,
        0 <= k < size,
        len == 4 + n * size + k,
    ensures
        row_count(len, size) == n,
        4 + row_count(len, size) * size + k == len,
        forall|short: int| short < 4 ==> row_count(short, size) == 0,
{
    assert((n * size + k) / size == n) by (nonlinear_arith)
        requires
            size > 0,
            0 <= k < size,
            n >= 0,
    ;
}

/// A bulk payload of a length prefix and `n` rows has `n` rows, and they
/// take up all that follows the prefix.
pub proof fn lemma_rows_exact(data: Seq<u8>, size: int, n: int)
    requires
        size > 0,
        n >= 0,
        data.len() == 4 + n * size,
    ensures
        row_count(data.len() as int, size) == n,
        4 + row_count(data.len() as int, size) * size == data.len(),
        forall|i: int| 0 <= i < n ==> (#[trigger] row_bytes(data, size, i)).len() == size,
{
    lemma_row_count(data.len() as int, size, n, 0);
    assert forall|i: int| 0 <= i < n implies (#[trigger] row_bytes(data, size, i)).len()
        == size by {
        assert(0 <= 4 + i * size && 4 + (i + 1) * size <= 4 + n * size && (i + 1) * size == i
            * size + size) by (nonlinear_arith)
            requires
                0 <= i < n,
                size > 0,
        ;
    }
}

/// Decodes the user rows of a bulk payload: the four-byte length prefix
/// is skipped, every whole row is decoded in order, and a remainder
/// shorter than a row is left unread.
pub fn decode_user_rows(data: &[u8], layout: UserLayout) -> (users: Vec<(u16, String, String)>)
    ensures
        is_user_rows(users@, data@, layout),
{
    let mut users: Vec<(u16, String, String)> = Vec::new();
    let n: usize = data.len();
    if n < 4 {
        return users;
    }
    let size: usize = match layout {
        UserLayout::Compact => USER_RECORD_UDP,
        UserLayout::Extended => USER_RECORD_TCP,
    };
    let mut at: usize = 4;
    assert(0 * size == 0);
    while n - at >= size
        invariant
            n == data@.len(),
            4 <= at <= n,
            size == layout.row_size(),
            at == 4 + users@.len() * size,
            forall|i: int|
                0 <= i < users@.len() ==> layout.decodes(
                    row_bytes(data@, layout.row_size(), i),
                    #[trigger] users@[i],
                ),
        decreases n - at,
    {
        let row = slice_subrange(data, at, at + size);
        let user = match layout {
            UserLayout::Compact => decode_user_data_28(row),
            UserLayout::Extended => decode_user_data_72(row),
        };
        proof {
            let k = users@.len() as int;
            assert(4 + (k + 1) * size == at + size) by (nonlinear_arith)
                requires
                    at == 4 + k * size,
            ;
            assert(row@ == row_bytes(data@, layout.row_size(), k));
        }
        users.push(user);
        at = at + size;
        assert(at == 4 + users@.len() * size) by (nonlinear_arith)
            requires
                at - size == 4 + (users@.len() - 1) * size,
        ;
    }
    proof {
        let len = users@.len() as int;
        assert(len == (n - 4) / (size as int)) by (nonlinear_arith)
            requires
                n - 4 == len * size + (n - at),
                0 <= n - at < size,
                size > 0,
        ;
    }
    users
}

/// Decodes the attendance rows of a bulk payload: the four-byte length
/// prefix is skipped, every whole row is decoded in order, and a remainder
/// shorter than a row is left unread.
pub fn decode_record_rows(
    data: &[u8],
    layout: RecordLayout,
) -> (records: Vec<(String, String, u8, u8)>)
    ensures
        is_record_rows(records@, data@, layout),
{
    let mut records: Vec<(String, String, u8, u8)> = Vec::new();
    let n: usize = data.len();
    if n < 4 {
        return records;
    }
    let size: usize = match layout {
        RecordLayout::Full => ATT_RECORD_TCP,
        RecordLayout::Compact => ATT_RECORD_UDP,
        RecordLayout::CompactSmall => ATT_RECORD_UDP_SMALL,
    };
    let mut at: usize = 4;
    assert(0 * size == 0);
    while n - at >= size
        invariant
            n == data@.len(),
            4 <= at <= n,
            size == layout.row_size(),
            at == 4 + records@.len() * size,
            forall|i: int|
                0 <= i < records@.len() ==> layout.decodes(
                    row_bytes(data@, layout.row_size(), i),
                    #[trigger] records@[i],
                ),
        decreases n - at,
    {
        let row = slice_subrange(data, at, at + size);
        let record = match layout {
            RecordLayout::Full => decode_record_data_40(row),
            RecordLayout::Compact => decode_record_data_16(row),
            RecordLayout::CompactSmall => decode_record_data_8(row),
        };
        proof {
            let k = records@.len() as int;
            assert(4 + (k + 1) * size == at + size) by (nonlinear_arith)
                requires
                    at == 4 + k * size,
            ;
            assert(row@ == row_bytes(data@, layout.row_size(), k));
        }
        records.push(record);
        at = at + size;
        assert(at == 4 + records@.len() * size) by (nonlinear_arith)
            requires
                at - size == 4 + (records@.len() - 1) * size,
        ;
    }
    proof {
        let len = records@.len() as int;
        assert(len == (n - 4) / (size as int)) by (nonlinear_arith)
            requires
                n - 4 == len * size + (n - at),
                0 <= n - at < size,
                size > 0,
        ;
    }
    records
}

} // verus!
