//! The high-level client: transport negotiation, authentication, the data
//! operations, and the combined operations built from them.

use vstd::prelude::*;
use vstd::string::StringExecFns;
use crate::client::errors::{format_error, friendly_error};
use crate::client::records::{
    apply_options, logs_from_rows, logs_in_range, logs_of, options_model, range_of, users_from_rows,
    users_of,
};
use crate::client::transport::{
    transport_disconnect_begins, transport_exchange_begins, transport_resumed, transport_rows_begin,
    Transport, TransportModel,
};
use crate::protocol::{cmd, le32_bytes};
use crate::session::{device_address, BulkKind, Payload, Purpose};
use crate::step::{unexpected_event, unexpected_event_text, Action, Event, Step};
use crate::tcp::{dial_timeout_ms, ZKTcp};
use crate::text::{decimal, decimal_digits, join2, join3, join4, lowercase_of};
use crate::types::{
    comm_key_of, info_with_counts, AttendanceLog, ConfigModel, ConnectionTestResult, DeviceConfig,
    DeviceInfo, DeviceUser, InfoModel, LogModel, OptionsModel, SyncAllResult, SyncOptions,
    TestModel, UserModel,
};
use crate::udp::ZKUdp;

pub mod combined;
pub mod errors;
pub mod laws;
pub mod life;
pub mod records;
pub mod transport;

verus! {

/// What an operation of the client hands back.
#[derive(Debug)]
pub enum Reply {
    /// The operation has no result beyond its success.
    Nothing,
    /// The information on the device.
    Info(DeviceInfo),
    /// The users of the device.
    Users(Vec<DeviceUser>),
    /// The attendance records of the device.
    Logs(Vec<AttendanceLog>),
    /// Users and attendance records, read together.
    Sync(SyncAllResult),
    /// The outcome of a connection test.
    Test(ConnectionTestResult),
}

/// The operation ends in success, without a result.
pub open spec fn gives_nothing(step: Step<Reply>) -> bool {
    step matches Step::Finished(Ok(Reply::Nothing))
}

/// The operation ends with this information on the device.
pub open spec fn gives_info(step: Step<Reply>, info: InfoModel) -> bool {
    step matches Step::Finished(Ok(Reply::Info(i))) && i@ == info
}

/// The operation ends with these users.
pub open spec fn gives_users(step: Step<Reply>, users: Seq<UserModel>) -> bool {
    step matches Step::Finished(Ok(Reply::Users(u))) && u.deep_view() == users
}

/// The operation ends with these attendance records.
pub open spec fn gives_logs(step: Step<Reply>, logs: Seq<LogModel>) -> bool {
    step matches Step::Finished(Ok(Reply::Logs(l))) && l.deep_view() == logs
}

/// The operation ends with these users and attendance records.
pub open spec fn gives_sync(step: Step<Reply>, users: Seq<UserModel>, logs: Seq<LogModel>) -> bool {
    step matches Step::Finished(Ok(Reply::Sync(r))) && r@.users == users && r@.logs == logs
}

/// The operation ends with this outcome of a connection test.
pub open spec fn gives_test(step: Step<Reply>, outcome: TestModel) -> bool {
    step matches Step::Finished(Ok(Reply::Test(t))) && t@ == outcome
}

/// The client hands on the action that its transport asks for.
pub open spec fn passes(inner: Step<Payload>, step: Step<Reply>) -> bool {
    inner matches Step::Next(action) && step == Step::<Reply>::Next(action)
}

/// What the client is waiting for.
#[derive(Debug, Clone, Copy, PartialEq, Eq, Structural)]
pub enum ClientPhase {
    /// No operation is in flight.
    Idle,
    /// The transport opens its session.
    Connecting,
    /// The transport authenticates.
    Authenticating,
    /// The transport closes after a failed authentication.
    AuthCleanup,
    /// The stream transport closes before the datagram transport is tried.
    FallbackCleanup,
    /// The transport asks for the counts.
    Info,
    /// The clock is read for the time of the information.
    InfoClock,
    /// The transport reads the user table.
    Users,
    /// The transport reads the attendance log.
    Logs,
    /// The transport closes its session.
    Disconnecting,
}

/// Where a combined operation stands.
#[derive(Debug, Clone, Copy, PartialEq, Eq, Structural)]
pub enum Stage {
    /// No combined operation is in flight.
    Single,
    /// The connection test connects.
    TestConnect,
    /// The connection test has failed to connect and reads the clock.
    TestFailClock,
    /// The connection test asks for the information on the device.
    TestInfo,
    /// The connection test reads the clock for a placeholder.
    TestInfoClock,
    /// The connection test disconnects.
    TestDisconnect,
    /// The connection test reads the clock for its latency.
    TestDoneClock,
    /// The combined read connects.
    SyncConnect,
    /// The combined read reads the users.
    SyncUsers,
    /// The combined read disconnects after the users.
    SyncDisconnect,
    /// The combined read waits before an attempt at the attendance log.
    SyncSleep,
    /// The combined read connects again.
    SyncReconnect,
    /// The combined read reads the attendance log.
    SyncLogs,
    /// The combined read disconnects after a failed attempt.
    SyncRetryDisconnect,
    /// The combined read disconnects after it has the attendance log.
    SyncFinalDisconnect,
}

/// The client of one device.
pub struct ZKClient {
    /// The transport in use or under trial.
    pub transport: Option<Transport>,
    pub phase: ClientPhase,
    pub config: DeviceConfig,
    /// The error of the stream transport, kept while the datagram
    /// transport is tried.
    pub first_error: String,
    /// The error to report once the transport has closed.
    pub pending_error: String,
    pub user_count: u32,
    pub log_count: u32,
    /// The options of the read of the attendance log.
    pub options: Option<SyncOptions>,
    pub stage: Stage,
    /// The information gathered by a connection test.
    pub info: Option<DeviceInfo>,
    /// The users gathered by a combined read.
    pub users: Vec<DeviceUser>,
    /// The attendance records gathered by a combined read.
    pub logs: Vec<AttendanceLog>,
    /// The error of the last attempt of a combined operation.
    pub last_error: String,
    /// The number of attempts at the attendance log that have failed.
    pub attempt: u32,
}

/// A `ZKClient` as plain values.
#[verifier::ext_equal]
pub struct ClientModel {
    pub transport: Option<TransportModel>,
    pub phase: ClientPhase,
    pub config: ConfigModel,
    pub first_error: Seq<char>,
    pub pending_error: Seq<char>,
    pub user_count: u32,
    pub log_count: u32,
    pub options: Option<OptionsModel>,
    pub stage: Stage,
    pub info: Option<InfoModel>,
    pub users: Seq<UserModel>,
    pub logs: Seq<LogModel>,
    pub last_error: Seq<char>,
    pub attempt: u32,
}

/// An optional transport as plain values.
pub open spec fn transport_model(transport: Option<Transport>) -> Option<TransportModel> {
    match transport {
        Some(t) => Some(t@),
        None => None,
    }
}

/// Optional options as plain values.
pub open spec fn stored_options(options: Option<SyncOptions>) -> Option<OptionsModel> {
    match options {
        Some(o) => Some(o@),
        None => None,
    }
}

impl View for ZKClient {
    type V = ClientModel;

    open spec fn view(&self) -> ClientModel {
        ClientModel {
            transport: transport_model(self.transport),
            phase: self.phase,
            config: self.config@,
            first_error: self.first_error@,
            pending_error: self.pending_error@,
            user_count: self.user_count,
            log_count: self.log_count,
            options: stored_options(self.options),
            stage: self.stage,
            info: self.info.deep_view(),
            users: self.users.deep_view(),
            logs: self.logs.deep_view(),
            last_error: self.last_error@,
            attempt: self.attempt,
        }
    }
}

/// The timeout of a network step: what is configured, or thirty seconds.
pub open spec fn timeout_of(config: ConfigModel) -> u64 {
    match config.timeout {
        Some(t) => t,
        None => 30000,
    }
}

/// The error after both transports have failed, before it is made
/// friendly.
pub open spec fn connect_failed_text(
    address: Seq<char>,
    first: Seq<char>,
    second: Seq<char>,
) -> Seq<char> {
    "Failed to connect to device "@ + address + " — TCP: "@ + first + " | UDP: "@ + second
}

/// The error of a combined read that got the users but not the
/// attendance log.
pub open spec fn partial_sync_text(users: nat, error: Seq<char>) -> Seq<char> {
    "Got "@ + decimal_digits(users) + " users but failed to fetch attendance logs: "@ + error
}

/// The milliseconds to wait before attempt `attempt` at the attendance
/// log, counted from zero.
pub open spec fn retry_delay_ms(attempt: u32) -> u64 {
    (500 + attempt * 500) as u64
}

/// The operation ends with the error `message`.
pub open spec fn client_failed(
    pre: ClientModel,
    message: Seq<char>,
    post: ClientModel,
    step: Step<Reply>,
) -> bool {
    &&& post =~= ClientModel { phase: ClientPhase::Idle, ..pre }
    &&& step.fails_with(message)
}

/// The operation is given up: the outcome is not one that the client was
/// waiting for.
pub open spec fn client_aborted(pre: ClientModel, post: ClientModel, step: Step<Reply>) -> bool {
    client_failed(pre, unexpected_event_text(), post, step)
}

/// The transport has closed after a failed authentication: the client
/// has no transport, and the authentication error is reported.
pub open spec fn auth_cleanup_done(pre: ClientModel, post: ClientModel, step: Step<Reply>) -> bool {
    &&& post =~= ClientModel { transport: None, phase: ClientPhase::Idle, ..pre }
    &&& step.fails_with(pre.pending_error)
}

/// The authentication has ended. A failure closes the transport and is
/// then reported as it is, behind `Device authentication failed: `.
pub open spec fn auth_done(
    pre: ClientModel,
    result: Result<Payload, String>,
    post: ClientModel,
    step: Step<Reply>,
) -> bool {
    match result {
        Ok(_) => post =~= ClientModel { phase: ClientPhase::Idle, ..pre } && gives_nothing(step),
        Err(e) => {
            let pending = "Device authentication failed: "@ + e@;
            match pre.transport {
                Some(t) => exists|t2: TransportModel, inner: Step<Payload>|
                    #[trigger] transport_disconnect_begins(t, t2, inner) && {
                        let mid = ClientModel {
                            transport: Some(t2),
                            phase: ClientPhase::AuthCleanup,
                            pending_error: pending,
                            ..pre
                        };
                        match inner {
                            Step::Next(_) => post =~= mid && passes(inner, step),
                            Step::Finished(_) => auth_cleanup_done(mid, post, step),
                        }
                    },
                None => auth_cleanup_done(
                    ClientModel { pending_error: pending, ..pre },
                    post,
                    step,
                ),
            }
        },
    }
}

/// The stream transport has closed: the datagram transport is tried.
pub open spec fn fallback_done(pre: ClientModel, post: ClientModel, step: Step<Reply>) -> bool {
    let udp = crate::udp::binding(
        crate::udp::fresh_session(pre.config.ip, pre.config.port, timeout_of(pre.config)),
    );
    &&& post =~= ClientModel {
        transport: Some(TransportModel::Udp(udp)),
        phase: ClientPhase::Connecting,
        ..pre
    }
    &&& step.asks_bind(device_address(pre.config.ip, pre.config.port))
}

/// A transport has ended the opening of its session. After a success the
/// client authenticates if the communication key is above zero, and is
/// connected otherwise. A failure of the stream transport leads to the
/// datagram transport; a failure of the datagram transport ends the
/// operation with both errors in one friendly message.
pub open spec fn connect_done(
    pre: ClientModel,
    result: Result<Payload, String>,
    post: ClientModel,
    step: Step<Reply>,
) -> bool {
    match result {
        Ok(_) => if comm_key_of(pre.config.comm_key) > 0 {
            match pre.transport {
                Some(t) => exists|t2: TransportModel, inner: Step<Payload>|
                    #[trigger] transport_exchange_begins(
                        t,
                        cmd::CMD_AUTH,
                        le32_bytes(comm_key_of(pre.config.comm_key) as int),
                        Purpose::Auth,
                        t2,
                        inner,
                    ) && {
                        let mid = ClientModel {
                            transport: Some(t2),
                            phase: ClientPhase::Authenticating,
                            ..pre
                        };
                        match inner {
                            Step::Next(_) => post =~= mid && passes(inner, step),
                            Step::Finished(r) => auth_done(mid, r, post, step),
                        }
                    },
                None => client_aborted(pre, post, step),
            }
        } else {
            post =~= ClientModel { phase: ClientPhase::Idle, ..pre } && gives_nothing(step)
        },
        Err(e) => match pre.transport {
            Some(TransportModel::Tcp(a)) => exists|t2: TransportModel, inner: Step<Payload>|
                #[trigger] transport_disconnect_begins(TransportModel::Tcp(a), t2, inner) && {
                    let mid = ClientModel {
                        transport: Some(t2),
                        phase: ClientPhase::FallbackCleanup,
                        first_error: e@,
                        ..pre
                    };
                    match inner {
                        Step::Next(_) => post =~= mid && passes(inner, step),
                        Step::Finished(_) => fallback_done(mid, post, step),
                    }
                },
            _ => {
                let combined = connect_failed_text(
                    device_address(pre.config.ip, pre.config.port),
                    pre.first_error,
                    e@,
                );
                &&& post =~= ClientModel { transport: None, phase: ClientPhase::Idle, ..pre }
                &&& step.fails_with(friendly_error(combined, lowercase_of(combined)))
            },
        },
    }
}

/// The transport has answered the request for the counts: the clock is
/// read next, for the time of the information.
pub open spec fn info_done(
    pre: ClientModel,
    result: Result<Payload, String>,
    post: ClientModel,
    step: Step<Reply>,
) -> bool {
    match result {
        Ok(Payload::Counts(u, l)) => {
            &&& post =~= ClientModel {
                phase: ClientPhase::InfoClock,
                user_count: u,
                log_count: l,
                ..pre
            }
            &&& step.asks_clock()
        },
        Ok(_) => client_aborted(pre, post, step),
        Err(e) => client_failed(pre, e@, post, step),
    }
}

/// The transport has read the user table.
pub open spec fn users_done(
    pre: ClientModel,
    result: Result<Payload, String>,
    post: ClientModel,
    step: Step<Reply>,
) -> bool {
    match result {
        Ok(Payload::UserRows(rows)) => {
            &&& post =~= ClientModel { phase: ClientPhase::Idle, ..pre }
            &&& gives_users(step, users_of(rows@))
        },
        Ok(_) => client_aborted(pre, post, step),
        Err(e) => client_failed(pre, e@, post, step),
    }
}

/// The transport has read the attendance log: the records within the
/// range of the options are handed back.
pub open spec fn logs_done(
    pre: ClientModel,
    result: Result<Payload, String>,
    post: ClientModel,
    step: Step<Reply>,
) -> bool {
    match result {
        Ok(Payload::RecordRows(rows)) => {
            &&& post =~= ClientModel { phase: ClientPhase::Idle, ..pre }
            &&& gives_logs(step, logs_in_range(logs_of(rows@), range_of(pre.options)))
        },
        Ok(_) => client_aborted(pre, post, step),
        Err(e) => client_failed(pre, e@, post, step),
    }
}

/// The transport has closed: the client has none any more.
pub open spec fn disconnect_done(
    pre: ClientModel,
    result: Result<Payload, String>,
    post: ClientModel,
    step: Step<Reply>,
) -> bool {
    &&& post =~= ClientModel { transport: None, phase: ClientPhase::Idle, ..pre }
    &&& match result {
        Ok(_) => gives_nothing(step),
        Err(e) => step.fails_with(e@),
    }
}

/// What the client does with a step of its transport: an action is
/// handed on, and a result is taken by the phase.
pub open spec fn basic_advanced(
    pre: ClientModel,
    inner: Step<Payload>,
    post: ClientModel,
    step: Step<Reply>,
) -> bool {
    match inner {
        Step::Next(_) => post =~= pre && passes(inner, step),
        Step::Finished(result) => match pre.phase {
            ClientPhase::Connecting => connect_done(pre, result, post, step),
            ClientPhase::Authenticating => auth_done(pre, result, post, step),
            ClientPhase::AuthCleanup => auth_cleanup_done(pre, post, step),
            ClientPhase::FallbackCleanup => fallback_done(pre, post, step),
            ClientPhase::Info => info_done(pre, result, post, step),
            ClientPhase::Users => users_done(pre, result, post, step),
            ClientPhase::Logs => logs_done(pre, result, post, step),
            ClientPhase::Disconnecting => disconnect_done(pre, result, post, step),
            _ => client_aborted(pre, post, step),
        },
    }
}

/// The client with another transport state.
pub open spec fn with_transport(pre: ClientModel, t: TransportModel) -> ClientModel {
    ClientModel { transport: Some(t), ..pre }
}

/// What a single operation does with an outcome.
pub open spec fn basic_resumed(
    pre: ClientModel,
    event: Event,
    post: ClientModel,
    step: Step<Reply>,
) -> bool {
    match pre.phase {
        ClientPhase::Idle => client_aborted(pre, post, step),
        ClientPhase::InfoClock => match event {
            Event::Clock { now, elapsed_ms } => {
                &&& post =~= ClientModel { phase: ClientPhase::Idle, ..pre }
                &&& gives_info(step, info_with_counts(pre.user_count, pre.log_count, now@))
            },
            _ => client_aborted(pre, post, step),
        },
        _ => match pre.transport {
            Some(t) => exists|t2: TransportModel, inner: Step<Payload>|
                #[trigger] transport_resumed(t, event, t2, inner) && basic_advanced(
                    with_transport(pre, t2),
                    inner,
                    post,
                    step,
                ),
            None => client_aborted(pre, post, step),
        },
    }
}

/// The opening of a session begins: the stream transport is tried first.
pub open spec fn connect_begins(pre: ClientModel, post: ClientModel, step: Step<Reply>) -> bool {
    let tcp = crate::tcp::dialing(
        crate::tcp::fresh_session(pre.config.ip, pre.config.port, timeout_of(pre.config)),
    );
    &&& post =~= ClientModel {
        transport: Some(TransportModel::Tcp(tcp)),
        phase: ClientPhase::Connecting,
        first_error: Seq::empty(),
        pending_error: Seq::empty(),
        ..pre
    }
    &&& step.asks_dial(
        device_address(pre.config.ip, pre.config.port),
        dial_timeout_ms(timeout_of(pre.config)),
    )
}

/// The request for the counts begins; without a transport it fails with
/// `Not connected`.
pub open spec fn info_begins(pre: ClientModel, post: ClientModel, step: Step<Reply>) -> bool {
    match pre.transport {
        Some(t) => exists|t2: TransportModel, inner: Step<Payload>|
            #[trigger] transport_exchange_begins(
                t,
                cmd::CMD_GET_FREE_SIZES,
                Seq::empty(),
                Purpose::Info,
                t2,
                inner,
            ) && {
                let mid = ClientModel { transport: Some(t2), phase: ClientPhase::Info, ..pre };
                match inner {
                    Step::Next(_) => post =~= mid && passes(inner, step),
                    Step::Finished(r) => info_done(mid, r, post, step),
                }
            },
        None => client_failed(pre, "Not connected"@, post, step),
    }
}

/// The read of the user table begins; without a transport it fails with
/// `Not connected`.
pub open spec fn users_begin(pre: ClientModel, post: ClientModel, step: Step<Reply>) -> bool {
    match pre.transport {
        Some(t) => exists|t2: TransportModel, inner: Step<Payload>|
            #[trigger] transport_rows_begin(t, BulkKind::Users, t2, inner) && {
                let mid = ClientModel { transport: Some(t2), phase: ClientPhase::Users, ..pre };
                match inner {
                    Step::Next(_) => post =~= mid && passes(inner, step),
                    Step::Finished(r) => users_done(mid, r, post, step),
                }
            },
        None => client_failed(pre, "Not connected"@, post, step),
    }
}

/// The read of the attendance log begins, with the options that the
/// client holds; without a transport it fails with `Not connected`.
pub open spec fn logs_begin(pre: ClientModel, post: ClientModel, step: Step<Reply>) -> bool {
    match pre.transport {
        Some(t) => exists|t2: TransportModel, inner: Step<Payload>|
            #[trigger] transport_rows_begin(t, BulkKind::Attendances, t2, inner) && {
                let mid = ClientModel { transport: Some(t2), phase: ClientPhase::Logs, ..pre };
                match inner {
                    Step::Next(_) => post =~= mid && passes(inner, step),
                    Step::Finished(r) => logs_done(mid, r, post, step),
                }
            },
        None => client_failed(pre, "Not connected"@, post, step),
    }
}

/// The closing of the session begins; without a transport there is
/// nothing to do.
pub open spec fn disconnect_begins(pre: ClientModel, post: ClientModel, step: Step<Reply>) -> bool {
    match pre.transport {
        Some(t) => exists|t2: TransportModel, inner: Step<Payload>|
            #[trigger] transport_disconnect_begins(t, t2, inner) && {
                let mid = ClientModel {
                    transport: Some(t2),
                    phase: ClientPhase::Disconnecting,
                    ..pre
                };
                match inner {
                    Step::Next(_) => post =~= mid && passes(inner, step),
                    Step::Finished(r) => disconnect_done(mid, r, post, step),
                }
            },
        None => post =~= ClientModel { phase: ClientPhase::Idle, ..pre } && gives_nothing(step),
    }
}

/// The client with other options for the read of the attendance log.
pub open spec fn with_options(pre: ClientModel, options: Option<OptionsModel>) -> ClientModel {
    ClientModel { options: options, ..pre }
}

/// The client at another stage of a combined operation.
pub open spec fn at_stage(pre: ClientModel, stage: Stage) -> ClientModel {
    ClientModel { stage: stage, ..pre }
}

/// A client that has done nothing yet.
pub open spec fn idle_client(config: ConfigModel) -> ClientModel {
    ClientModel {
        transport: None,
        phase: ClientPhase::Idle,
        config: config,
        first_error: Seq::empty(),
        pending_error: Seq::empty(),
        user_count: 0,
        log_count: 0,
        options: None,
        stage: Stage::Single,
        info: None,
        users: Seq::empty(),
        logs: Seq::empty(),
        last_error: Seq::empty(),
        attempt: 0,
    }
}

impl ZKClient {
    /// A client for the device of `config` that has done nothing yet.
    pub fn new(config: &DeviceConfig) -> (client: Self)
        ensures
            client@ == idle_client(config@),
    {
        ZKClient {
            transport: None,
            phase: ClientPhase::Idle,
            config: config.duplicate(),
            first_error: String::new(),
            pending_error: String::new(),
            user_count: 0,
            log_count: 0,
            options: None,
            stage: Stage::Single,
            info: None,
            users: Vec::new(),
            logs: Vec::new(),
            last_error: String::new(),
            attempt: 0,
        }
    }

    fn fail(&mut self, message: String) -> (step: Step<Reply>)
        ensures
            client_failed(old(self)@, message@, final(self)@, step),
    {
        self.phase = ClientPhase::Idle;
        Step::Finished(Err(message))
    }

    fn abort(&mut self) -> (step: Step<Reply>)
        ensures
            client_aborted(old(self)@, final(self)@, step),
    {
        self.phase = ClientPhase::Idle;
        unexpected_event()
    }

    fn on_auth_cleanup_done(&mut self) -> (step: Step<Reply>)
        ensures
            auth_cleanup_done(old(self)@, final(self)@, step),
    {
        self.transport = None;
        self.phase = ClientPhase::Idle;
        Step::Finished(Err(self.pending_error.clone()))
    }

    fn on_auth_done(&mut self, result: Result<Payload, String>) -> (step: Step<Reply>)
        ensures
            auth_done(old(self)@, result, final(self)@, step),
    {
        match result {
            Ok(_) => {
                self.phase = ClientPhase::Idle;
                Step::Finished(Ok(Reply::Nothing))
            },
            Err(e) => {
                let pending = join2("Device authentication failed: ", e.as_str());
                match &mut self.transport {
                    Some(t) => {
                        let inner = t.disconnect();
                        self.phase = ClientPhase::AuthCleanup;
                        self.pending_error = pending;
                        match inner {
                            Step::Next(action) => Step::Next(action),
                            Step::Finished(_) => self.on_auth_cleanup_done(),
                        }
                    },
                    None => {
                        self.pending_error = pending;
                        self.on_auth_cleanup_done()
                    },
                }
            },
        }
    }

    fn timeout_ms(&self) -> (timeout_ms: u64)
        ensures
            timeout_ms == timeout_of(self@.config),
    {
        self.config.timeout_or(30000)
    }

    fn on_fallback_done(&mut self) -> (step: Step<Reply>)
        ensures
            fallback_done(old(self)@, final(self)@, step),
    {
        let mut udp = ZKUdp::new(self.config.ip.as_str(), self.config.port, self.timeout_ms());
        let inner = udp.connect();
        self.transport = Some(Transport::Udp(udp));
        self.phase = ClientPhase::Connecting;
        match inner {
            Step::Next(action) => Step::Next(action),
            Step::Finished(_) => unexpected_event(),
        }
    }

    fn device_address(&self) -> (address: String)
        ensures
            address@ == device_address(self@.config.ip, self@.config.port),
    {
        let port = decimal(self.config.port as u64);
        join3(self.config.ip.as_str(), ":", port.as_str())
    }

    fn on_connect_done(&mut self, result: Result<Payload, String>) -> (step: Step<Reply>)
        ensures
            connect_done(old(self)@, result, final(self)@, step),
    {
        match result {
            Ok(_) => {
                let key: u32 = self.config.comm_key_number();
                if key > 0 {
                    match &mut self.transport {
                        Some(t) => {
                            let inner = t.auth(key);
                            self.phase = ClientPhase::Authenticating;
                            match inner {
                                Step::Next(action) => Step::Next(action),
                                Step::Finished(r) => self.on_auth_done(r),
                            }
                        },
                        None => self.abort(),
                    }
                } else {
                    self.phase = ClientPhase::Idle;
                    Step::Finished(Ok(Reply::Nothing))
                }
            },
            Err(e) => {
                match &mut self.transport {
                    Some(Transport::Tcp(tcp)) => {
                        let inner = tcp.disconnect();
                        assert(transport_disconnect_begins(
                            old(self)@.transport->0,
                            self@.transport->0,
                            inner,
                        ));
                        self.phase = ClientPhase::FallbackCleanup;
                        self.first_error = e;
                        match inner {
                            Step::Next(action) => Step::Next(action),
                            Step::Finished(_) => self.on_fallback_done(),
                        }
                    },
                    _ => {
                        let address = self.device_address();
                        let mut combined = join4(
                            "Failed to connect to device ",
                            address.as_str(),
                            " — TCP: ",
                            self.first_error.as_str(),
                        );
                        combined.append(" | UDP: ");
                        combined.append(e.as_str());
                        assert(combined@ =~= connect_failed_text(
                            device_address(self@.config.ip, self@.config.port),
                            self@.first_error,
                            e@,
                        ));
                        self.transport = None;
                        self.phase = ClientPhase::Idle;
                        Step::Finished(Err(format_error(combined.as_str())))
                    },
                }
            },
        }
    }

    fn on_info_done(&mut self, result: Result<Payload, String>) -> (step: Step<Reply>)
        ensures
            info_done(old(self)@, result, final(self)@, step),
    {
        match result {
            Ok(Payload::Counts(u, l)) => {
                self.user_count = u;
                self.log_count = l;
                self.phase = ClientPhase::InfoClock;
                Step::Next(Action::Clock)
            },
            Ok(_) => self.abort(),
            Err(e) => self.fail(e),
        }
    }

    fn on_users_done(&mut self, result: Result<Payload, String>) -> (step: Step<Reply>)
        ensures
            users_done(old(self)@, result, final(self)@, step),
    {
        match result {
            Ok(Payload::UserRows(rows)) => {
                self.phase = ClientPhase::Idle;
                Step::Finished(Ok(Reply::Users(users_from_rows(&rows))))
            },
            Ok(_) => self.abort(),
            Err(e) => self.fail(e),
        }
    }

    fn on_logs_done(&mut self, result: Result<Payload, String>) -> (step: Step<Reply>)
        ensures
            logs_done(old(self)@, result, final(self)@, step),
    {
        match result {
            Ok(Payload::RecordRows(rows)) => {
                self.phase = ClientPhase::Idle;
                let logs = logs_from_rows(&rows);
                let kept = apply_options(logs, self.options.as_ref());
                Step::Finished(Ok(Reply::Logs(kept)))
            },
            Ok(_) => self.abort(),
            Err(e) => self.fail(e),
        }
    }

    fn on_disconnect_done(&mut self, result: Result<Payload, String>) -> (step: Step<Reply>)
        ensures
            disconnect_done(old(self)@, result, final(self)@, step),
    {
        self.transport = None;
        self.phase = ClientPhase::Idle;
        match result {
            Ok(_) => Step::Finished(Ok(Reply::Nothing)),
            Err(e) => Step::Finished(Err(e)),
        }
    }

    fn basic_advance(&mut self, inner: Step<Payload>) -> (step: Step<Reply>)
        ensures
            basic_advanced(old(self)@, inner, final(self)@, step),
    {
        match inner {
            Step::Next(action) => Step::Next(action),
            Step::Finished(result) => match self.phase {
                ClientPhase::Connecting => self.on_connect_done(result),
                ClientPhase::Authenticating => self.on_auth_done(result),
                ClientPhase::AuthCleanup => self.on_auth_cleanup_done(),
                ClientPhase::FallbackCleanup => self.on_fallback_done(),
                ClientPhase::Info => self.on_info_done(result),
                ClientPhase::Users => self.on_users_done(result),
                ClientPhase::Logs => self.on_logs_done(result),
                ClientPhase::Disconnecting => self.on_disconnect_done(result),
                _ => self.abort(),
            },
        }
    }

    fn basic_resume(&mut self, event: Event) -> (step: Step<Reply>)
        ensures
            basic_resumed(old(self)@, event, final(self)@, step),
    {
        match self.phase {
            ClientPhase::Idle => self.abort(),
            ClientPhase::InfoClock => match event {
                Event::Clock { now, elapsed_ms } => {
                    self.phase = ClientPhase::Idle;
                    let info = DeviceInfo::with_counts(self.user_count, self.log_count, now);
                    Step::Finished(Ok(Reply::Info(info)))
                },
                _ => self.abort(),
            },
            _ => match &mut self.transport {
                Some(t) => {
                    let inner = t.resume(event);
                    self.basic_advance(inner)
                },
                None => self.abort(),
            },
        }
    }

    fn begin_connect(&mut self) -> (step: Step<Reply>)
        ensures
            connect_begins(old(self)@, final(self)@, step),
    {
        let mut tcp = ZKTcp::new(self.config.ip.as_str(), self.config.port, self.timeout_ms());
        let inner = tcp.connect();
        self.transport = Some(Transport::Tcp(tcp));
        self.phase = ClientPhase::Connecting;
        self.first_error = String::new();
        self.pending_error = String::new();
        match inner {
            Step::Next(action) => Step::Next(action),
            Step::Finished(_) => unexpected_event(),
        }
    }

    fn begin_info(&mut self) -> (step: Step<Reply>)
        ensures
            info_begins(old(self)@, final(self)@, step),
    {
        match &mut self.transport {
            Some(t) => {
                let inner = t.get_info();
                self.phase = ClientPhase::Info;
                match inner {
                    Step::Next(action) => Step::Next(action),
                    Step::Finished(r) => self.on_info_done(r),
                }
            },
            None => self.fail("Not connected".to_string()),
        }
    }

    fn begin_users(&mut self) -> (step: Step<Reply>)
        ensures
            users_begin(old(self)@, final(self)@, step),
    {
        match &mut self.transport {
            Some(t) => {
                let inner = t.get_users();
                self.phase = ClientPhase::Users;
                match inner {
                    Step::Next(action) => Step::Next(action),
                    Step::Finished(r) => self.on_users_done(r),
                }
            },
            None => self.fail("Not connected".to_string()),
        }
    }

    fn begin_logs(&mut self) -> (step: Step<Reply>)
        ensures
            logs_begin(old(self)@, final(self)@, step),
    {
        match &mut self.transport {
            Some(t) => {
                let inner = t.get_attendances();
                self.phase = ClientPhase::Logs;
                match inner {
                    Step::Next(action) => Step::Next(action),
                    Step::Finished(r) => self.on_logs_done(r),
                }
            },
            None => self.fail("Not connected".to_string()),
        }
    }

    fn begin_disconnect(&mut self) -> (step: Step<Reply>)
        ensures
            disconnect_begins(old(self)@, final(self)@, step),
    {
        match &mut self.transport {
            Some(t) => {
                let inner = t.disconnect();
                self.phase = ClientPhase::Disconnecting;
                match inner {
                    Step::Next(action) => Step::Next(action),
                    Step::Finished(r) => self.on_disconnect_done(r),
                }
            },
            None => {
                self.phase = ClientPhase::Idle;
                Step::Finished(Ok(Reply::Nothing))
            },
        }
    }
}

/// The client as a combined read starts it: new, with the options of
/// the read, at the stage of the first connection.
pub open spec fn sync_client(config: ConfigModel, options: Option<OptionsModel>) -> ClientModel {
    at_stage(with_options(idle_client(config), options), Stage::SyncConnect)
}

/// The client as a connection test starts it.
pub open spec fn test_client(config: ConfigModel) -> ClientModel {
    at_stage(idle_client(config), Stage::TestConnect)
}

/// Copies optional options.
pub fn copy_options(options: Option<&SyncOptions>) -> (copy: Option<SyncOptions>)
    ensures
        stored_options(copy) == options_model(options),
{
    match options {
        Some(o) => Some(o.duplicate()),
        None => None,
    }
}

impl ZKClient {
    /// Starts a client for the device of `config` and the opening of its
    /// session. The stream transport is tried first and the datagram
    /// transport after its failure; with a communication key above zero
    /// the client authenticates, and an authentication failure ends the
    /// operation. The first step dials the device.
    pub fn connect(config: &DeviceConfig) -> (started: (ZKClient, Step<Reply>))
        ensures
            connect_begins(idle_client(config@), started.0@, started.1),
    {
        let mut client = ZKClient::new(config);
        let step = client.begin_connect();
        (client, step)
    }

    /// Starts a connection test: connect, ask for the information on the
    /// device, disconnect. The result is always a `Reply::Test`, with the
    /// latency that the clock gives at the end.
    pub fn test_connection(config: &DeviceConfig) -> (started: (ZKClient, Step<Reply>))
        ensures
            connect_begins(test_client(config@), started.0@, started.1),
    {
        let mut client = ZKClient::new(config);
        client.stage = Stage::TestConnect;
        let step = client.begin_connect();
        (client, step)
    }

    /// Starts asking for the information on the device.
    pub fn get_device_info(&mut self) -> (step: Step<Reply>)
        ensures
            info_begins(at_stage(old(self)@, Stage::Single), final(self)@, step),
    {
        self.stage = Stage::Single;
        self.begin_info()
    }

    /// Starts reading the users of the device. A user without a name is
    /// named `User <id>`.
    pub fn get_users(&mut self) -> (step: Step<Reply>)
        ensures
            users_begin(at_stage(old(self)@, Stage::Single), final(self)@, step),
    {
        self.stage = Stage::Single;
        self.begin_users()
    }

    /// Starts reading the attendance log. With the mode `range` and both
    /// dates given, only the records within the range are handed back.
    pub fn get_attendance_logs(&mut self, options: Option<&SyncOptions>) -> (step: Step<Reply>)
        ensures
            logs_begin(
                with_options(at_stage(old(self)@, Stage::Single), options_model(options)),
                final(self)@,
                step,
            ),
    {
        self.stage = Stage::Single;
        self.options = copy_options(options);
        self.begin_logs()
    }

    /// Starts a combined read: connect, read the users, disconnect; then
    /// up to three attempts to connect again and read the attendance log,
    /// after waits of 500, 1000 and 1500 milliseconds.
    pub fn sync_all(config: &DeviceConfig, options: Option<&SyncOptions>) -> (started: (
        ZKClient,
        Step<Reply>,
    ))
        ensures
            connect_begins(sync_client(config@, options_model(options)), started.0@, started.1),
    {
        let mut client = ZKClient::new(config);
        client.options = copy_options(options);
        client.stage = Stage::SyncConnect;
        let step = client.begin_connect();
        (client, step)
    }

    /// Starts closing the session.
    pub fn disconnect(&mut self) -> (step: Step<Reply>)
        ensures
            disconnect_begins(at_stage(old(self)@, Stage::Single), final(self)@, step),
    {
        self.stage = Stage::Single;
        self.begin_disconnect()
    }
}

} // verus!
