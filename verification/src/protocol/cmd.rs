//! Command and acknowledgement codes of the wire protocol.

use vstd::prelude::*;

verus! {

pub const CMD_CONNECT: u16 = 1000;

pub const CMD_EXIT: u16 = 1001;

pub const CMD_ENABLEDEVICE: u16 = 1002;

pub const CMD_DISABLEDEVICE: u16 = 1003;

pub const CMD_RESTART: u16 = 1004;

pub const CMD_POWEROFF: u16 = 1005;

pub const CMD_GET_VERSION: u16 = 1100;

pub const CMD_AUTH: u16 = 1102;

pub const CMD_PREPARE_DATA: u16 = 1500;

pub const CMD_DATA: u16 = 1501;

pub const CMD_FREE_DATA: u16 = 1502;

pub const CMD_DATA_WRRQ: u16 = 1503;

pub const CMD_DATA_RDY: u16 = 1504;

pub const CMD_DB_RRQ: u16 = 7;

pub const CMD_USER_WRQ: u16 = 8;

pub const CMD_USERTEMP_RRQ: u16 = 9;

pub const CMD_OPTIONS_RRQ: u16 = 11;

pub const CMD_ATTLOG_RRQ: u16 = 13;

pub const CMD_CLEAR_ATTLOG: u16 = 15;

pub const CMD_GET_FREE_SIZES: u16 = 50;

pub const CMD_GET_TIME: u16 = 201;

pub const CMD_SET_TIME: u16 = 202;

pub const CMD_REG_EVENT: u16 = 500;

pub const CMD_ACK_OK: u16 = 2000;

pub const CMD_ACK_ERROR: u16 = 2001;

pub const CMD_ACK_DATA: u16 = 2002;

pub const CMD_ACK_UNAUTH: u16 = 2005;

pub const CMD_ACK_UNKNOWN: u16 = 0xFFFF;

pub const CMD_ACK_ERROR_CMD: u16 = 0xFFFD;

pub const CMD_ACK_ERROR_INIT: u16 = 0xFFFC;

pub const CMD_ACK_ERROR_DATA: u16 = 0xFFFB;

} // verus!
