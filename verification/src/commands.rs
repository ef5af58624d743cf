//! The commands that a caller issues against a device: each checks the
//! configuration, connects, does its work and disconnects.

use vstd::prelude::*;
use crate::client::{
    at_stage, connect_begins, disconnect_begins, idle_client, info_begins, logs_begin,
    stored_options, sync_client, test_client, users_begin, with_options, ClientModel, Reply, Stage,
    ZKClient,
};
use crate::commands::validate::{config_error, validate_config};
use crate::step::{unexpected_event, unexpected_event_text, Action, Event, Step};
use crate::text::{contains, has_substring, lowercase_of};
use crate::types::{ConfigModel, DeviceConfig, OptionsModel, SyncOptions};

pub mod validate;

verus! {

/// The commands.
#[derive(Debug, Clone, Copy, PartialEq, Eq, Structural)]
pub enum CommandKind {
    /// Test the connection.
    Test,
    /// Read the information on the device.
    Info,
    /// Read the users.
    Users,
    /// Read the attendance log.
    Logs,
    /// Read users and attendance log together, with retries.
    Sync,
}

/// Where a command stands.
#[derive(Debug, Clone, Copy, PartialEq, Eq, Structural)]
pub enum CommandStage {
    /// Nothing is in flight.
    Idle,
    /// The client connects.
    Connect,
    /// The client does the work of the command.
    Work,
    /// The client disconnects.
    Disconnect,
    /// The client runs its connection test.
    Test,
    /// The client runs its combined read.
    SyncRun,
    /// The command waits before it runs the combined read again.
    SyncSleep,
}

/// A command in flight.
pub struct DeviceCommand {
    pub client: ZKClient,
    pub config: DeviceConfig,
    pub options: Option<SyncOptions>,
    pub kind: CommandKind,
    pub stage: CommandStage,
    /// The result of the work, kept while the client disconnects.
    pub outcome: Option<Result<Reply, String>>,
    /// The number of combined reads that have failed.
    pub attempt: u32,
    /// The error of the last combined read.
    pub last_error: String,
}

/// A `DeviceCommand` as plain values.
#[verifier::ext_equal]
pub struct CommandModel {
    pub client: ClientModel,
    pub config: ConfigModel,
    pub options: Option<OptionsModel>,
    pub kind: CommandKind,
    pub stage: CommandStage,
    pub outcome: Option<Result<Reply, String>>,
    pub attempt: u32,
    pub last_error: Seq<char>,
}

impl View for DeviceCommand {
    type V = CommandModel;

    open spec fn view(&self) -> CommandModel {
        CommandModel {
            client: self.client@,
            config: self.config@,
            options: stored_options(self.options),
            kind: self.kind,
            stage: self.stage,
            outcome: self.outcome,
            attempt: self.attempt,
            last_error: self.last_error@,
        }
    }
}

/// Whether the lowercase text of an error says that another attempt is
/// of no use: the device refused the key, or access was denied.
pub open spec fn gives_up(lower: Seq<char>) -> bool {
    has_substring(lower, "auth"@) || has_substring(lower, "denied"@)
}

/// Whether an error, given in lowercase, rules out another attempt.
pub fn is_final_error(lower: &str) -> (last: bool)
    ensures
        last == gives_up(lower@),
{
    contains(lower, "auth") || contains(lower, "denied")
}

/// The milliseconds to wait before the combined read is run again after
/// `attempt` failures: two seconds for each.
pub open spec fn backoff_ms(attempt: u32) -> u64 {
    (attempt * 2000) as u64
}

/// The command with another client state.
pub open spec fn with_client(pre: CommandModel, client: ClientModel) -> CommandModel {
    CommandModel { client: client, ..pre }
}

/// The command is given up: the outcome is not one that it was waiting
/// for.
pub open spec fn command_aborted(pre: CommandModel, post: CommandModel, step: Step<Reply>) -> bool {
    &&& post =~= CommandModel { stage: CommandStage::Idle, ..pre }
    &&& step.fails_with(unexpected_event_text())
}

/// The command ends with the error `message`.
pub open spec fn command_failed(
    pre: CommandModel,
    message: Seq<char>,
    post: CommandModel,
    step: Step<Reply>,
) -> bool {
    &&& post =~= CommandModel { stage: CommandStage::Idle, ..pre }
    &&& step.fails_with(message)
}

/// The client has disconnected: the command ends with the result of its
/// work.
pub open spec fn command_delivered(
    pre: CommandModel,
    post: CommandModel,
    step: Step<Reply>,
) -> bool {
    &&& post =~= CommandModel { stage: CommandStage::Idle, outcome: None, ..pre }
    &&& match pre.outcome {
        Some(result) => step == Step::<Reply>::Finished(result),
        None => step.fails_with(unexpected_event_text()),
    }
}

/// The work of the command has ended: its result is kept, and the client
/// disconnects.
pub open spec fn work_done(
    pre: CommandModel,
    result: Result<Reply, String>,
    post: CommandModel,
    step: Step<Reply>,
) -> bool {
    exists|mid: ClientModel, inner: Step<Reply>|
        #[trigger] disconnect_begins(at_stage(pre.client, Stage::Single), mid, inner) && {
            let m = CommandModel {
                client: mid,
                stage: CommandStage::Disconnect,
                outcome: Some(result),
                ..pre
            };
            match inner {
                Step::Next(_) => post =~= m && step == inner,
                Step::Finished(_) => command_delivered(m, post, step),
            }
        }
}

/// The operation of the client that does the work of the command begins.
pub open spec fn client_work_begins(
    pre: CommandModel,
    mid: ClientModel,
    inner: Step<Reply>,
) -> bool {
    let client = at_stage(pre.client, Stage::Single);
    match pre.kind {
        CommandKind::Info => info_begins(client, mid, inner),
        CommandKind::Users => users_begin(client, mid, inner),
        _ => logs_begin(with_options(client, pre.options), mid, inner),
    }
}

/// The client has connected: the work of the command begins.
pub open spec fn work_begins(pre: CommandModel, post: CommandModel, step: Step<Reply>) -> bool {
    exists|mid: ClientModel, inner: Step<Reply>|
        #[trigger] client_work_begins(pre, mid, inner) && {
            let m = CommandModel { client: mid, stage: CommandStage::Work, ..pre };
            match inner {
                Step::Next(_) => post =~= m && step == inner,
                Step::Finished(r) => work_done(m, r, post, step),
            }
        }
}

/// The client has tried to connect: a failure ends the command.
pub open spec fn command_connect_done(
    pre: CommandModel,
    result: Result<Reply, String>,
    post: CommandModel,
    step: Step<Reply>,
) -> bool {
    match result {
        Ok(_) => work_begins(pre, post, step),
        Err(e) => command_failed(pre, e@, post, step),
    }
}

/// A combined read has ended. Its result ends the command. After an
/// error the command waits and runs the combined read again, unless the
/// error rules that out or three runs have been repeated already.
pub open spec fn sync_run_done(
    pre: CommandModel,
    result: Result<Reply, String>,
    post: CommandModel,
    step: Step<Reply>,
) -> bool {
    match result {
        Ok(_) => {
            &&& post =~= CommandModel { stage: CommandStage::Idle, ..pre }
            &&& step == Step::<Reply>::Finished(result)
        },
        Err(e) => if gives_up(lowercase_of(e@)) || pre.attempt >= 3 {
            &&& post =~= CommandModel { stage: CommandStage::Idle, last_error: e@, ..pre }
            &&& step.fails_with(e@)
        } else {
            let attempt = (pre.attempt + 1) as u32;
            &&& post =~= CommandModel {
                stage: CommandStage::SyncSleep,
                attempt: attempt,
                last_error: e@,
                ..pre
            }
            &&& step.asks_sleep(backoff_ms(attempt))
        },
    }
}

/// What the command does with a step of its client: an action is handed
/// on, and a result is taken by the stage.
pub open spec fn command_advanced(
    pre: CommandModel,
    inner: Step<Reply>,
    post: CommandModel,
    step: Step<Reply>,
) -> bool {
    match inner {
        Step::Next(_) => post =~= pre && step == inner,
        Step::Finished(result) => match pre.stage {
            CommandStage::Connect => command_connect_done(pre, result, post, step),
            CommandStage::Work => work_done(pre, result, post, step),
            CommandStage::Disconnect => command_delivered(pre, post, step),
            CommandStage::Test => {
                &&& post =~= CommandModel { stage: CommandStage::Idle, ..pre }
                &&& step == inner
            },
            CommandStage::SyncRun => sync_run_done(pre, result, post, step),
            _ => command_aborted(pre, post, step),
        },
    }
}

/// What `resume` does: the state and the step that follow the outcome
/// `event` in the state `pre`.
pub open spec fn resumed(
    pre: CommandModel,
    event: Event,
    post: CommandModel,
    step: Step<Reply>,
) -> bool {
    match pre.stage {
        CommandStage::Idle => command_aborted(pre, post, step),
        CommandStage::SyncSleep => match event {
            Event::Done => {
                &&& post =~= CommandModel {
                    client: post.client,
                    stage: CommandStage::SyncRun,
                    ..pre
                }
                &&& connect_begins(sync_client(pre.config, pre.options), post.client, step)
            },
            _ => command_aborted(pre, post, step),
        },
        _ => exists|mid: ClientModel, inner: Step<Reply>|
            #[trigger] crate::client::combined::resumed(pre.client, event, mid, inner)
                && command_advanced(with_client(pre, mid), inner, post, step),
    }
}

/// A command that has not started.
pub open spec fn idle_command(
    config: ConfigModel,
    options: Option<OptionsModel>,
    kind: CommandKind,
) -> CommandModel {
    CommandModel {
        client: idle_client(config),
        config: config,
        options: options,
        kind: kind,
        stage: CommandStage::Idle,
        outcome: None,
        attempt: 0,
        last_error: Seq::empty(),
    }
}

/// The client as a command of the given kind starts it.
pub open spec fn command_client(
    config: ConfigModel,
    options: Option<OptionsModel>,
    kind: CommandKind,
) -> ClientModel {
    match kind {
        CommandKind::Test => test_client(config),
        CommandKind::Sync => sync_client(config, options),
        _ => idle_client(config),
    }
}

/// The stage in which a command of the given kind starts.
pub open spec fn first_stage(kind: CommandKind) -> CommandStage {
    match kind {
        CommandKind::Test => CommandStage::Test,
        CommandKind::Sync => CommandStage::SyncRun,
        _ => CommandStage::Connect,
    }
}

/// What starting a command does. A configuration that is not valid ends
/// it at once, with no action asked for; otherwise the client starts to
/// connect.
pub open spec fn command_started(
    config: ConfigModel,
    options: Option<OptionsModel>,
    kind: CommandKind,
    post: CommandModel,
    step: Step<Reply>,
) -> bool {
    let idle = idle_command(config, options, kind);
    match config_error(config) {
        Some(text) => post =~= idle && step.fails_with(text),
        None => {
            &&& post =~= CommandModel { client: post.client, stage: first_stage(kind), ..idle }
            &&& connect_begins(command_client(config, options, kind), post.client, step)
        },
    }
}

impl DeviceCommand {
    /// Starts a command of the given kind.
    pub fn start(config: DeviceConfig, options: Option<SyncOptions>, kind: CommandKind) -> (started:
        (DeviceCommand, Step<Reply>))
        ensures
            command_started(config@, stored_options(options), kind, started.0@, started.1),
    {
        match validate_config(&config) {
            Err(e) => {
                let command = DeviceCommand {
                    client: ZKClient::new(&config),
                    config: config,
                    options: options,
                    kind: kind,
                    stage: CommandStage::Idle,
                    outcome: None,
                    attempt: 0,
                    last_error: String::new(),
                };
                (command, Step::Finished(Err(e)))
            },
            Ok(_) => {
                let begun = match kind {
                    CommandKind::Test => ZKClient::test_connection(&config),
                    CommandKind::Sync => ZKClient::sync_all(&config, options.as_ref()),
                    _ => ZKClient::connect(&config),
                };
                let stage = match kind {
                    CommandKind::Test => CommandStage::Test,
                    CommandKind::Sync => CommandStage::SyncRun,
                    _ => CommandStage::Connect,
                };
                let command = DeviceCommand {
                    client: begun.0,
                    config: config,
                    options: options,
                    kind: kind,
                    stage: stage,
                    outcome: None,
                    attempt: 0,
                    last_error: String::new(),
                };
                (command, begun.1)
            },
        }
    }

    fn abort(&mut self) -> (step: Step<Reply>)
        ensures
            command_aborted(old(self)@, final(self)@, step),
    {
        self.stage = CommandStage::Idle;
        unexpected_event()
    }

    fn deliver(&mut self) -> (step: Step<Reply>)
        ensures
            command_delivered(old(self)@, final(self)@, step),
    {
        self.stage = CommandStage::Idle;
        match self.outcome.take() {
            Some(result) => Step::Finished(result),
            None => unexpected_event(),
        }
    }

    fn on_work_done(&mut self, result: Result<Reply, String>) -> (step: Step<Reply>)
        ensures
            work_done(old(self)@, result, final(self)@, step),
    {
        let inner = self.client.disconnect();
        self.stage = CommandStage::Disconnect;
        self.outcome = Some(result);
        match inner {
            Step::Next(action) => Step::Next(action),
            Step::Finished(_) => self.deliver(),
        }
    }

    fn begin_work(&mut self) -> (step: Step<Reply>)
        ensures
            work_begins(old(self)@, final(self)@, step),
    {
        let inner = match self.kind {
            CommandKind::Info => self.client.get_device_info(),
            CommandKind::Users => self.client.get_users(),
            _ => self.client.get_attendance_logs(self.options.as_ref()),
        };
        assert(client_work_begins(old(self)@, self.client@, inner));
        self.stage = CommandStage::Work;
        match inner {
            Step::Next(action) => Step::Next(action),
            Step::Finished(r) => self.on_work_done(r),
        }
    }

    fn on_connect_done(&mut self, result: Result<Reply, String>) -> (step: Step<Reply>)
        ensures
            command_connect_done(old(self)@, result, final(self)@, step),
    {
        match result {
            Ok(_) => self.begin_work(),
            Err(e) => {
                self.stage = CommandStage::Idle;
                Step::Finished(Err(e))
            },
        }
    }

    fn on_sync_run_done(&mut self, result: Result<Reply, String>) -> (step: Step<Reply>)
        ensures
            sync_run_done(old(self)@, result, final(self)@, step),
    {
        match result {
            Ok(reply) => {
                self.stage = CommandStage::Idle;
                Step::Finished(Ok(reply))
            },
            Err(e) => {
                let lower = e.as_str().to_lowercase();
                let last = is_final_error(lower.as_str());
                self.last_error = e.clone();
                if last || self.attempt >= 3 {
                    self.stage = CommandStage::Idle;
                    Step::Finished(Err(e))
                } else {
                    self.attempt = self.attempt + 1;
                    self.stage = CommandStage::SyncSleep;
                    Step::Next(Action::Sleep { ms: (self.attempt as u64) * 2000 })
                }
            },
        }
    }

    fn advance(&mut self, inner: Step<Reply>) -> (step: Step<Reply>)
        ensures
            command_advanced(old(self)@, inner, final(self)@, step),
    {
        match inner {
            Step::Next(action) => Step::Next(action),
            Step::Finished(result) => match self.stage {
                CommandStage::Connect => self.on_connect_done(result),
                CommandStage::Work => self.on_work_done(result),
                CommandStage::Disconnect => self.deliver(),
                CommandStage::Test => {
                    self.stage = CommandStage::Idle;
                    Step::Finished(result)
                },
                CommandStage::SyncRun => self.on_sync_run_done(result),
                _ => self.abort(),
            },
        }
    }

    /// Takes the outcome of the action that the last step asked for and
    /// gives the next step of the command. An outcome that the action
    /// cannot have ends the command with an error.
    pub fn resume(&mut self, event: Event) -> (step: Step<Reply>)
        ensures
            resumed(old(self)@, event, final(self)@, step),
    {
        match self.stage {
            CommandStage::Idle => self.abort(),
            CommandStage::SyncSleep => match event {
                Event::Done => {
                    let begun = ZKClient::sync_all(&self.config, self.options.as_ref());
                    self.client = begun.0;
                    self.stage = CommandStage::SyncRun;
                    begun.1
                },
                _ => self.abort(),
            },
            _ => {
                let inner = self.client.resume(event);
                self.advance(inner)
            },
        }
    }
}

/// Starts a connection test against the device of `config`.
pub fn test_device_connection(config: DeviceConfig) -> (started: (DeviceCommand, Step<Reply>))
    ensures
        command_started(config@, None, CommandKind::Test, started.0@, started.1),
{
    DeviceCommand::start(config, None, CommandKind::Test)
}

/// Starts reading the information on the device of `config`.
pub fn get_device_info(config: DeviceConfig) -> (started: (DeviceCommand, Step<Reply>))
    ensures
        command_started(config@, None, CommandKind::Info, started.0@, started.1),
{
    DeviceCommand::start(config, None, CommandKind::Info)
}

/// Starts reading the users of the device of `config`.
pub fn get_device_users(config: DeviceConfig) -> (started: (DeviceCommand, Step<Reply>))
    ensures
        command_started(config@, None, CommandKind::Users, started.0@, started.1),
{
    DeviceCommand::start(config, None, CommandKind::Users)
}

/// Starts reading the attendance log of the device of `config`.
pub fn get_attendance_logs(config: DeviceConfig, options: Option<SyncOptions>) -> (started: (
    DeviceCommand,
    Step<Reply>,
))
    ensures
        command_started(
            config@,
            stored_options(options),
            CommandKind::Logs,
            started.0@,
            started.1,
        ),
{
    DeviceCommand::start(config, options, CommandKind::Logs)
}

/// Starts the combined read of users and attendance log of the device of
/// `config`. A run that fails is repeated up to three times, after waits
/// of two, four and six seconds, unless its error says that the device
/// refused the key or denied access.
pub fn sync_device_all(config: DeviceConfig, options: Option<SyncOptions>) -> (started: (
    DeviceCommand,
    Step<Reply>,
))
    ensures
        command_started(
            config@,
            stored_options(options),
            CommandKind::Sync,
            started.0@,
            started.1,
        ),
{
    DeviceCommand::start(config, options, CommandKind::Sync)
}

} // verus!
