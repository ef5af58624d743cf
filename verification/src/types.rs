//! The records that callers hand in and get back.

use vstd::prelude::*;
use crate::text::{number_of, parse_number};

verus! {

/// How to reach a device.
#[derive(Debug, Clone)]
pub struct DeviceConfig {
    /// The IPv4 address, dotted.
    pub ip: String,
    pub port: u16,
    /// The communication key, in decimal; absent when the device has none.
    pub comm_key: Option<String>,
    /// The timeout of a network step, in milliseconds.
    pub timeout: Option<u64>,
}

/// A `DeviceConfig` as plain values.
pub struct ConfigModel {
    pub ip: Seq<char>,
    pub port: u16,
    pub comm_key: Option<Seq<char>>,
    pub timeout: Option<u64>,
}

/// An optional text as plain values.
pub open spec fn optional_text(text: Option<String>) -> Option<Seq<char>> {
    match text {
        Some(t) => Some(t@),
        None => None,
    }
}

impl View for DeviceConfig {
    type V = ConfigModel;

    open spec fn view(&self) -> ConfigModel {
        ConfigModel {
            ip: self.ip@,
            port: self.port,
            comm_key: optional_text(self.comm_key),
            timeout: self.timeout,
        }
    }
}

/// The port of a device unless the caller names another.
pub fn default_port() -> (port: u16)
    ensures
        port == 4370,
{
    4370
}

/// The timeout unless the caller names another.
pub fn default_timeout() -> (timeout: Option<u64>)
    ensures
        timeout == Some(10000u64),
{
    Some(10000)
}

/// Copies an optional text.
pub fn copy_optional_text(text: &Option<String>) -> (copy: Option<String>)
    ensures
        optional_text(copy) == optional_text(*text),
{
    match text {
        Some(t) => Some(t.clone()),
        None => None,
    }
}

/// The number of a communication key: what the text holds if it is a
/// decimal number of 32 bits, and zero if the key is absent, empty or
/// anything else. Zero means that the device asks for no authentication.
pub open spec fn comm_key_of(comm_key: Option<Seq<char>>) -> u32 {
    match comm_key {
        None => 0,
        Some(text) => match number_of(text, 0xffff_ffff) {
            Some(v) => v as u32,
            None => 0,
        },
    }
}

/// A key that is absent, empty, or no number stands for zero.
pub proof fn lemma_no_key_is_zero(comm_key: Option<Seq<char>>)
    requires
        comm_key is None || comm_key->0.len() == 0 || number_of(comm_key->0, 0xffff_ffff) is None,
    ensures
        comm_key_of(comm_key) == 0,
{
}

impl DeviceConfig {
    /// A copy of the configuration.
    pub fn duplicate(&self) -> (copy: Self)
        ensures
            copy@ == self@,
    {
        DeviceConfig {
            ip: self.ip.clone(),
            port: self.port,
            comm_key: copy_optional_text(&self.comm_key),
            timeout: self.timeout,
        }
    }

    /// The number of the communication key.
    pub fn comm_key_number(&self) -> (key: u32)
        ensures
            key == comm_key_of(self@.comm_key),
    {
        match &self.comm_key {
            None => 0,
            Some(text) => match parse_number(text.as_str(), 0xffff_ffff) {
                Some(v) => v as u32,
                None => 0,
            },
        }
    }

    /// The timeout, or `fallback` where none is configured.
    pub fn timeout_or(&self, fallback: u64) -> (timeout_ms: u64)
        ensures
            timeout_ms == match self.timeout {
                Some(t) => t,
                None => fallback,
            },
    {
        match self.timeout {
            Some(t) => t,
            None => fallback,
        }
    }
}

/// What is known of a device.
#[derive(Debug, Clone)]
pub struct DeviceInfo {
    pub serial_number: String,
    pub firmware_version: String,
    pub user_count: u32,
    pub log_count: u32,
    /// When the information was read, in RFC 3339 form.
    pub last_activity: String,
}

/// A `DeviceInfo` as plain values.
pub struct InfoModel {
    pub serial_number: Seq<char>,
    pub firmware_version: Seq<char>,
    pub user_count: u32,
    pub log_count: u32,
    pub last_activity: Seq<char>,
}

impl View for DeviceInfo {
    type V = InfoModel;

    open spec fn view(&self) -> InfoModel {
        InfoModel {
            serial_number: self.serial_number@,
            firmware_version: self.firmware_version@,
            user_count: self.user_count,
            log_count: self.log_count,
            last_activity: self.last_activity@,
        }
    }
}

impl DeepView for DeviceInfo {
    type V = InfoModel;

    open spec fn deep_view(&self) -> InfoModel {
        self@
    }
}

/// The information on a device of which only the counts are known.
pub open spec fn info_with_counts(user_count: u32, log_count: u32, now: Seq<char>) -> InfoModel {
    InfoModel {
        serial_number: "Unknown"@,
        firmware_version: "Unknown"@,
        user_count: user_count,
        log_count: log_count,
        last_activity: now,
    }
}

impl DeviceInfo {
    /// The information on a device of which only the counts are known:
    /// serial number and firmware version are `Unknown`.
    pub fn with_counts(user_count: u32, log_count: u32, now: String) -> (info: Self)
        ensures
            info@ == info_with_counts(user_count, log_count, now@),
    {
        DeviceInfo {
            serial_number: "Unknown".to_string(),
            firmware_version: "Unknown".to_string(),
            user_count: user_count,
            log_count: log_count,
            last_activity: now,
        }
    }
}

/// A user of a device.
#[derive(Debug, Clone)]
pub struct DeviceUser {
    pub device_user_id: String,
    pub device_name: String,
}

/// A `DeviceUser` as plain values.
pub struct UserModel {
    pub device_user_id: Seq<char>,
    pub device_name: Seq<char>,
}

impl View for DeviceUser {
    type V = UserModel;

    open spec fn view(&self) -> UserModel {
        UserModel { device_user_id: self.device_user_id@, device_name: self.device_name@ }
    }
}

impl DeepView for DeviceUser {
    type V = UserModel;

    open spec fn deep_view(&self) -> UserModel {
        self@
    }
}

/// One attendance record of a device.
#[derive(Debug, Clone)]
pub struct AttendanceLog {
    pub device_user_id: String,
    /// The instant, as `YYYY-MM-DDTHH:MM:SS.000Z`.
    pub timestamp: String,
    pub verify_type: u8,
    pub punch_type: u8,
}

/// An `AttendanceLog` as plain values.
pub struct LogModel {
    pub device_user_id: Seq<char>,
    pub timestamp: Seq<char>,
    pub verify_type: u8,
    pub punch_type: u8,
}

impl View for AttendanceLog {
    type V = LogModel;

    open spec fn view(&self) -> LogModel {
        LogModel {
            device_user_id: self.device_user_id@,
            timestamp: self.timestamp@,
            verify_type: self.verify_type,
            punch_type: self.punch_type,
        }
    }
}

impl DeepView for AttendanceLog {
    type V = LogModel;

    open spec fn deep_view(&self) -> LogModel {
        self@
    }
}

/// The outcome of a connection test.
#[derive(Debug, Clone)]
pub struct ConnectionTestResult {
    pub success: bool,
    pub device_info: Option<DeviceInfo>,
    pub error: Option<String>,
    /// The time that the test took, in milliseconds.
    pub latency: u64,
}

/// A `ConnectionTestResult` as plain values.
pub struct TestModel {
    pub success: bool,
    pub device_info: Option<InfoModel>,
    pub error: Option<Seq<char>>,
    pub latency: u64,
}

impl View for ConnectionTestResult {
    type V = TestModel;

    open spec fn view(&self) -> TestModel {
        TestModel {
            success: self.success,
            device_info: self.device_info.deep_view(),
            error: optional_text(self.error),
            latency: self.latency,
        }
    }
}

/// Which attendance records a caller asks for.
#[derive(Debug, Clone)]
pub struct SyncOptions {
    /// `all` or `range`.
    pub mode: String,
    /// The first day of the range, as a date or as a date and time.
    pub start_date: Option<String>,
    /// The last day of the range, as a date or as a date and time.
    pub end_date: Option<String>,
}

/// A `SyncOptions` as plain values.
pub struct OptionsModel {
    pub mode: Seq<char>,
    pub start_date: Option<Seq<char>>,
    pub end_date: Option<Seq<char>>,
}

impl View for SyncOptions {
    type V = OptionsModel;

    open spec fn view(&self) -> OptionsModel {
        OptionsModel {
            mode: self.mode@,
            start_date: optional_text(self.start_date),
            end_date: optional_text(self.end_date),
        }
    }
}

impl SyncOptions {
    /// A copy of the options.
    pub fn duplicate(&self) -> (copy: Self)
        ensures
            copy@ == self@,
    {
        SyncOptions {
            mode: self.mode.clone(),
            start_date: copy_optional_text(&self.start_date),
            end_date: copy_optional_text(&self.end_date),
        }
    }
}

/// Users and attendance records of one device, fetched together.
#[derive(Debug, Clone)]
pub struct SyncAllResult {
    pub users: Vec<DeviceUser>,
    pub logs: Vec<AttendanceLog>,
}

/// A `SyncAllResult` as plain values.
pub struct SyncModel {
    pub users: Seq<UserModel>,
    pub logs: Seq<LogModel>,
}

impl View for SyncAllResult {
    type V = SyncModel;

    open spec fn view(&self) -> SyncModel {
        SyncModel { users: self.users.deep_view(), logs: self.logs.deep_view() }
    }
}

} // verus!
