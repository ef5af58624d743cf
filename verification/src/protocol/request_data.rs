//! Fixed request payloads.

use vstd::prelude::*;

verus! {

/// Payload of the request that switches the terminal off-line.
pub const DISABLE_DEVICE: [u8; 4] = [0x00, 0x00, 0x00, 0x00];

/// Payload of the bulk request for the attendance log.
pub const GET_ATTENDANCE_LOGS: [u8; 11] = [
    0x01, 0x0d, 0x00, 0x00, 0x00, 0x00, 0x00, 0x00, 0x00, 0x00, 0x00,
];

/// Payload of the bulk request for the user table.
pub const GET_USERS: [u8; 11] = [
    0x01, 0x09, 0x00, 0x05, 0x00, 0x00, 0x00, 0x00, 0x00, 0x00, 0x00,
];

} // verus!
