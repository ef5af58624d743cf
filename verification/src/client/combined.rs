//! The combined operations of the client: the connection test and the
//! combined read.

use vstd::prelude::*;
use crate::client::{
    at_stage, basic_resumed, connect_begins, disconnect_begins, gives_sync, gives_test, info_begins,
    logs_begin, partial_sync_text, retry_delay_ms, users_begin, ClientModel, ClientPhase, Reply,
    Stage, ZKClient,
};
use crate::client::errors::{format_error, friendly_error};
use crate::step::{unexpected_event, unexpected_event_text, Action, Event, Step};
use crate::text::{decimal, join4, lowercase_of};
use crate::types::{
    info_with_counts, AttendanceLog, ConnectionTestResult, DeviceInfo, DeviceUser, InfoModel,
    LogModel, SyncAllResult, TestModel, UserModel,
};

verus! {

/// A combined operation is given up: the outcome is not one that it was
/// waiting for.
pub open spec fn combined_aborted(pre: ClientModel, post: ClientModel, step: Step<Reply>) -> bool {
    &&& post =~= ClientModel { stage: Stage::Single, phase: ClientPhase::Idle, ..pre }
    &&& step.fails_with(unexpected_event_text())
}

/// A combined operation ends with the error `message`.
pub open spec fn combined_failed(
    pre: ClientModel,
    message: Seq<char>,
    post: ClientModel,
    step: Step<Reply>,
) -> bool {
    &&& post =~= ClientModel { stage: Stage::Single, ..pre }
    &&& step.fails_with(message)
}

/// The outcome of a connection test that reached the device.
pub open spec fn test_passed(info: Option<InfoModel>, latency: u64) -> TestModel {
    TestModel { success: true, device_info: info, error: None, latency: latency }
}

/// The outcome of a connection test that did not reach the device.
pub open spec fn test_failed(error: Seq<char>, latency: u64) -> TestModel {
    TestModel {
        success: false,
        device_info: None,
        error: Some(friendly_error(error, lowercase_of(error))),
        latency: latency,
    }
}

/// A connection test closes the session; the clock is read after that,
/// for the latency.
pub open spec fn test_disconnects(pre: ClientModel, post: ClientModel, step: Step<Reply>) -> bool {
    exists|mid: ClientModel, inner: Step<Reply>|
        #[trigger] disconnect_begins(at_stage(pre, Stage::TestDisconnect), mid, inner)
            && match inner {
            Step::Next(_) => post =~= mid && step == inner,
            Step::Finished(_) => post =~= at_stage(mid, Stage::TestDoneClock) && step.asks_clock(),
        }
}

/// A connection test has asked for the information on the device. With
/// the information it closes the session; without, it reads the clock
/// first, for a placeholder with zero counts.
pub open spec fn test_info_done(
    pre: ClientModel,
    result: Result<Reply, String>,
    post: ClientModel,
    step: Step<Reply>,
) -> bool {
    match result {
        Ok(Reply::Info(info)) => test_disconnects(
            ClientModel { info: Some(info@), ..pre },
            post,
            step,
        ),
        _ => post =~= at_stage(pre, Stage::TestInfoClock) && step.asks_clock(),
    }
}

/// A connection test has tried to connect. After a success it asks for
/// the information on the device; after a failure it reads the clock, for
/// the latency.
pub open spec fn test_connect_done(
    pre: ClientModel,
    result: Result<Reply, String>,
    post: ClientModel,
    step: Step<Reply>,
) -> bool {
    match result {
        Ok(_) => exists|mid: ClientModel, inner: Step<Reply>|
            #[trigger] info_begins(at_stage(pre, Stage::TestInfo), mid, inner) && match inner {
                Step::Next(_) => post =~= mid && step == inner,
                Step::Finished(r) => test_info_done(mid, r, post, step),
            },
        Err(e) => {
            &&& post =~= ClientModel { stage: Stage::TestFailClock, last_error: e@, ..pre }
            &&& step.asks_clock()
        },
    }
}

/// A combined read ends. It fails only if the last attempt at the
/// attendance log failed and no record is there; the error then names
/// the number of users that were read.
pub open spec fn sync_concluded(pre: ClientModel, post: ClientModel, step: Step<Reply>) -> bool {
    if pre.last_error.len() > 0 && pre.logs.len() == 0 {
        combined_failed(pre, partial_sync_text(pre.users.len(), pre.last_error), post, step)
    } else {
        &&& post =~= ClientModel {
            stage: Stage::Single,
            users: Seq::empty(),
            logs: Seq::empty(),
            ..pre
        }
        &&& gives_sync(step, pre.users, pre.logs)
    }
}

/// An attempt at the attendance log has failed: after the first and the
/// second failure the client waits and tries again, after the third the
/// combined read ends.
pub open spec fn sync_next_attempt(pre: ClientModel, post: ClientModel, step: Step<Reply>) -> bool {
    if pre.attempt < 2 {
        let attempt = (pre.attempt + 1) as u32;
        &&& post =~= ClientModel { stage: Stage::SyncSleep, attempt: attempt, ..pre }
        &&& step.asks_sleep(retry_delay_ms(attempt))
    } else {
        sync_concluded(pre, post, step)
    }
}

/// An attempt at the attendance log closes its session after a failure.
pub open spec fn sync_retry_disconnects(
    pre: ClientModel,
    error: Seq<char>,
    post: ClientModel,
    step: Step<Reply>,
) -> bool {
    exists|mid: ClientModel, inner: Step<Reply>|
        #[trigger] disconnect_begins(
            ClientModel { stage: Stage::SyncRetryDisconnect, last_error: error, ..pre },
            mid,
            inner,
        ) && match inner {
            Step::Next(_) => post =~= mid && step == inner,
            Step::Finished(_) => sync_next_attempt(mid, post, step),
        }
}

/// A combined read has asked for the attendance log. With the records it
/// closes the session and ends; after a failure it closes the session and
/// goes on to the next attempt.
pub open spec fn sync_logs_done(
    pre: ClientModel,
    result: Result<Reply, String>,
    post: ClientModel,
    step: Step<Reply>,
) -> bool {
    match result {
        Ok(Reply::Logs(logs)) => exists|mid: ClientModel, inner: Step<Reply>|
            #[trigger] disconnect_begins(
                ClientModel {
                    stage: Stage::SyncFinalDisconnect,
                    logs: logs.deep_view(),
                    last_error: Seq::empty(),
                    ..pre
                },
                mid,
                inner,
            ) && match inner {
                Step::Next(_) => post =~= mid && step == inner,
                Step::Finished(_) => sync_concluded(mid, post, step),
            },
        Ok(_) => sync_retry_disconnects(pre, unexpected_event_text(), post, step),
        Err(e) => sync_retry_disconnects(pre, e@, post, step),
    }
}

/// A combined read has tried to connect again, for the attendance log.
pub open spec fn sync_reconnect_done(
    pre: ClientModel,
    result: Result<Reply, String>,
    post: ClientModel,
    step: Step<Reply>,
) -> bool {
    match result {
        Ok(_) => exists|mid: ClientModel, inner: Step<Reply>|
            #[trigger] logs_begin(at_stage(pre, Stage::SyncLogs), mid, inner) && match inner {
                Step::Next(_) => post =~= mid && step == inner,
                Step::Finished(r) => sync_logs_done(mid, r, post, step),
            },
        Err(e) => sync_next_attempt(ClientModel { last_error: e@, ..pre }, post, step),
    }
}

/// A combined read has closed the session in which it read the users: it
/// waits half a second before it connects again.
pub open spec fn sync_first_disconnect_done(
    pre: ClientModel,
    post: ClientModel,
    step: Step<Reply>,
) -> bool {
    &&& post =~= ClientModel {
        stage: Stage::SyncSleep,
        attempt: 0,
        logs: Seq::empty(),
        last_error: Seq::empty(),
        ..pre
    }
    &&& step.asks_sleep(retry_delay_ms(0))
}

/// A combined read has asked for the users. With them it closes the
/// session; a failure ends the combined read.
pub open spec fn sync_users_done(
    pre: ClientModel,
    result: Result<Reply, String>,
    post: ClientModel,
    step: Step<Reply>,
) -> bool {
    match result {
        Ok(Reply::Users(users)) => exists|mid: ClientModel, inner: Step<Reply>|
            #[trigger] disconnect_begins(
                ClientModel { stage: Stage::SyncDisconnect, users: users.deep_view(), ..pre },
                mid,
                inner,
            ) && match inner {
                Step::Next(_) => post =~= mid && step == inner,
                Step::Finished(_) => sync_first_disconnect_done(mid, post, step),
            },
        Ok(_) => combined_failed(pre, unexpected_event_text(), post, step),
        Err(e) => combined_failed(pre, e@, post, step),
    }
}

/// A combined read has tried to connect. After a success it asks for the
/// users; a failure ends the combined read.
pub open spec fn sync_connect_done(
    pre: ClientModel,
    result: Result<Reply, String>,
    post: ClientModel,
    step: Step<Reply>,
) -> bool {
    match result {
        Ok(_) => exists|mid: ClientModel, inner: Step<Reply>|
            #[trigger] users_begin(at_stage(pre, Stage::SyncUsers), mid, inner) && match inner {
                Step::Next(_) => post =~= mid && step == inner,
                Step::Finished(r) => sync_users_done(mid, r, post, step),
            },
        Err(e) => combined_failed(pre, e@, post, step),
    }
}

/// What a combined operation does with a step of the single operation
/// that it waits for: an action is handed on, and a result is taken by
/// the stage.
pub open spec fn combined_advanced(
    pre: ClientModel,
    inner: Step<Reply>,
    post: ClientModel,
    step: Step<Reply>,
) -> bool {
    match inner {
        Step::Next(_) => post =~= pre && step == inner,
        Step::Finished(result) => match pre.stage {
            Stage::Single => post =~= pre && step == inner,
            Stage::TestConnect => test_connect_done(pre, result, post, step),
            Stage::TestInfo => test_info_done(pre, result, post, step),
            Stage::TestDisconnect => {
                &&& post =~= at_stage(pre, Stage::TestDoneClock)
                &&& step.asks_clock()
            },
            Stage::SyncConnect => sync_connect_done(pre, result, post, step),
            Stage::SyncUsers => sync_users_done(pre, result, post, step),
            Stage::SyncDisconnect => sync_first_disconnect_done(pre, post, step),
            Stage::SyncReconnect => sync_reconnect_done(pre, result, post, step),
            Stage::SyncLogs => sync_logs_done(pre, result, post, step),
            Stage::SyncRetryDisconnect => sync_next_attempt(pre, post, step),
            Stage::SyncFinalDisconnect => sync_concluded(pre, post, step),
            _ => combined_aborted(pre, post, step),
        },
    }
}

/// What `resume` does: the state and the step that follow the outcome
/// `event` in the state `pre`.
pub open spec fn resumed(
    pre: ClientModel,
    event: Event,
    post: ClientModel,
    step: Step<Reply>,
) -> bool {
    match pre.stage {
        Stage::Single => basic_resumed(pre, event, post, step),
        Stage::TestFailClock => match event {
            Event::Clock { now, elapsed_ms } => {
                &&& post =~= at_stage(pre, Stage::Single)
                &&& gives_test(step, test_failed(pre.last_error, elapsed_ms))
            },
            _ => combined_aborted(pre, post, step),
        },
        Stage::TestInfoClock => match event {
            Event::Clock { now, elapsed_ms } => test_disconnects(
                ClientModel { info: Some(info_with_counts(0, 0, now@)), ..pre },
                post,
                step,
            ),
            _ => combined_aborted(pre, post, step),
        },
        Stage::TestDoneClock => match event {
            Event::Clock { now, elapsed_ms } => {
                &&& post =~= ClientModel { stage: Stage::Single, info: None, ..pre }
                &&& gives_test(step, test_passed(pre.info, elapsed_ms))
            },
            _ => combined_aborted(pre, post, step),
        },
        Stage::SyncSleep => match event {
            Event::Done => connect_begins(at_stage(pre, Stage::SyncReconnect), post, step),
            _ => combined_aborted(pre, post, step),
        },
        _ => exists|mid: ClientModel, inner: Step<Reply>|
            #[trigger] basic_resumed(pre, event, mid, inner) && combined_advanced(
                mid,
                inner,
                post,
                step,
            ),
    }
}

impl ZKClient {
    fn abort_combined(&mut self) -> (step: Step<Reply>)
        ensures
            combined_aborted(old(self)@, final(self)@, step),
    {
        self.stage = Stage::Single;
        self.phase = ClientPhase::Idle;
        unexpected_event()
    }

    fn fail_combined(&mut self, message: String) -> (step: Step<Reply>)
        ensures
            combined_failed(old(self)@, message@, final(self)@, step),
    {
        self.stage = Stage::Single;
        Step::Finished(Err(message))
    }

    fn test_disconnect(&mut self) -> (step: Step<Reply>)
        ensures
            test_disconnects(old(self)@, final(self)@, step),
    {
        self.stage = Stage::TestDisconnect;
        let inner = self.begin_disconnect();
        match inner {
            Step::Next(action) => Step::Next(action),
            Step::Finished(_) => {
                self.stage = Stage::TestDoneClock;
                Step::Next(Action::Clock)
            },
        }
    }

    fn on_test_info_done(&mut self, result: Result<Reply, String>) -> (step: Step<Reply>)
        ensures
            test_info_done(old(self)@, result, final(self)@, step),
    {
        match result {
            Ok(Reply::Info(info)) => {
                self.info = Some(info);
                self.test_disconnect()
            },
            _ => {
                self.stage = Stage::TestInfoClock;
                Step::Next(Action::Clock)
            },
        }
    }

    fn on_test_connect_done(&mut self, result: Result<Reply, String>) -> (step: Step<Reply>)
        ensures
            test_connect_done(old(self)@, result, final(self)@, step),
    {
        match result {
            Ok(_) => {
                self.stage = Stage::TestInfo;
                let inner = self.begin_info();
                match inner {
                    Step::Next(action) => Step::Next(action),
                    Step::Finished(r) => self.on_test_info_done(r),
                }
            },
            Err(e) => {
                self.stage = Stage::TestFailClock;
                self.last_error = e;
                Step::Next(Action::Clock)
            },
        }
    }

    fn conclude_sync(&mut self) -> (step: Step<Reply>)
        ensures
            sync_concluded(old(self)@, final(self)@, step),
    {
        self.stage = Stage::Single;
        if !self.last_error.as_str().is_empty() && self.logs.is_empty() {
            let count = decimal(self.users.len() as u64);
            let message = join4(
                "Got ",
                count.as_str(),
                " users but failed to fetch attendance logs: ",
                self.last_error.as_str(),
            );
            Step::Finished(Err(message))
        } else {
            let mut users: Vec<DeviceUser> = Vec::new();
            let mut logs: Vec<AttendanceLog> = Vec::new();
            core::mem::swap(&mut self.users, &mut users);
            core::mem::swap(&mut self.logs, &mut logs);
            assert(self.users.deep_view() =~= Seq::<UserModel>::empty());
            assert(self.logs.deep_view() =~= Seq::<LogModel>::empty());
            Step::Finished(Ok(Reply::Sync(SyncAllResult { users: users, logs: logs })))
        }
    }

    fn next_sync_attempt(&mut self) -> (step: Step<Reply>)
        ensures
            sync_next_attempt(old(self)@, final(self)@, step),
    {
        if self.attempt < 2 {
            self.attempt = self.attempt + 1;
            self.stage = Stage::SyncSleep;
            Step::Next(Action::Sleep { ms: 500 + (self.attempt as u64) * 500 })
        } else {
            self.conclude_sync()
        }
    }

    fn sync_retry_disconnect(&mut self, error: String) -> (step: Step<Reply>)
        ensures
            sync_retry_disconnects(old(self)@, error@, final(self)@, step),
    {
        self.stage = Stage::SyncRetryDisconnect;
        self.last_error = error;
        let inner = self.begin_disconnect();
        match inner {
            Step::Next(action) => Step::Next(action),
            Step::Finished(_) => self.next_sync_attempt(),
        }
    }

    fn on_sync_logs_done(&mut self, result: Result<Reply, String>) -> (step: Step<Reply>)
        ensures
            sync_logs_done(old(self)@, result, final(self)@, step),
    {
        match result {
            Ok(Reply::Logs(logs)) => {
                self.stage = Stage::SyncFinalDisconnect;
                self.logs = logs;
                self.last_error = String::new();
                let inner = self.begin_disconnect();
                match inner {
                    Step::Next(action) => Step::Next(action),
                    Step::Finished(_) => self.conclude_sync(),
                }
            },
            Ok(_) => self.sync_retry_disconnect("Unexpected event".to_string()),
            Err(e) => self.sync_retry_disconnect(e),
        }
    }

    fn on_sync_reconnect_done(&mut self, result: Result<Reply, String>) -> (step: Step<Reply>)
        ensures
            sync_reconnect_done(old(self)@, result, final(self)@, step),
    {
        match result {
            Ok(_) => {
                self.stage = Stage::SyncLogs;
                let inner = self.begin_logs();
                match inner {
                    Step::Next(action) => Step::Next(action),
                    Step::Finished(r) => self.on_sync_logs_done(r),
                }
            },
            Err(e) => {
                self.last_error = e;
                self.next_sync_attempt()
            },
        }
    }

    fn on_sync_first_disconnect_done(&mut self) -> (step: Step<Reply>)
        ensures
            sync_first_disconnect_done(old(self)@, final(self)@, step),
    {
        self.stage = Stage::SyncSleep;
        self.attempt = 0;
        self.logs = Vec::new();
        self.last_error = String::new();
        assert(self.logs.deep_view() =~= Seq::<LogModel>::empty());
        Step::Next(Action::Sleep { ms: 500 })
    }

    fn on_sync_users_done(&mut self, result: Result<Reply, String>) -> (step: Step<Reply>)
        ensures
            sync_users_done(old(self)@, result, final(self)@, step),
    {
        match result {
            Ok(Reply::Users(users)) => {
                self.stage = Stage::SyncDisconnect;
                self.users = users;
                let inner = self.begin_disconnect();
                match inner {
                    Step::Next(action) => Step::Next(action),
                    Step::Finished(_) => self.on_sync_first_disconnect_done(),
                }
            },
            Ok(_) => self.fail_combined("Unexpected event".to_string()),
            Err(e) => self.fail_combined(e),
        }
    }

    fn on_sync_connect_done(&mut self, result: Result<Reply, String>) -> (step: Step<Reply>)
        ensures
            sync_connect_done(old(self)@, result, final(self)@, step),
    {
        match result {
            Ok(_) => {
                self.stage = Stage::SyncUsers;
                let inner = self.begin_users();
                match inner {
                    Step::Next(action) => Step::Next(action),
                    Step::Finished(r) => self.on_sync_users_done(r),
                }
            },
            Err(e) => self.fail_combined(e),
        }
    }

    fn combined_advance(&mut self, inner: Step<Reply>) -> (step: Step<Reply>)
        ensures
            combined_advanced(old(self)@, inner, final(self)@, step),
    {
        match inner {
            Step::Next(action) => Step::Next(action),
            Step::Finished(result) => match self.stage {
                Stage::Single => Step::Finished(result),
                Stage::TestConnect => self.on_test_connect_done(result),
                Stage::TestInfo => self.on_test_info_done(result),
                Stage::TestDisconnect => {
                    self.stage = Stage::TestDoneClock;
                    Step::Next(Action::Clock)
                },
                Stage::SyncConnect => self.on_sync_connect_done(result),
                Stage::SyncUsers => self.on_sync_users_done(result),
                Stage::SyncDisconnect => self.on_sync_first_disconnect_done(),
                Stage::SyncReconnect => self.on_sync_reconnect_done(result),
                Stage::SyncLogs => self.on_sync_logs_done(result),
                Stage::SyncRetryDisconnect => self.next_sync_attempt(),
                Stage::SyncFinalDisconnect => self.conclude_sync(),
                _ => self.abort_combined(),
            },
        }
    }

    /// Takes the outcome of the action that the last step asked for and
    /// gives the next step of the operation in flight. An outcome that the
    /// action cannot have ends the operation with an error.
    pub fn resume(&mut self, event: Event) -> (step: Step<Reply>)
        ensures
            resumed(old(self)@, event, final(self)@, step),
    {
        match self.stage {
            Stage::Single => self.basic_resume(event),
            Stage::TestFailClock => match event {
                Event::Clock { now, elapsed_ms } => {
                    self.stage = Stage::Single;
                    let outcome = ConnectionTestResult {
                        success: false,
                        device_info: None,
                        error: Some(format_error(self.last_error.as_str())),
                        latency: elapsed_ms,
                    };
                    Step::Finished(Ok(Reply::Test(outcome)))
                },
                _ => self.abort_combined(),
            },
            Stage::TestInfoClock => match event {
                Event::Clock { now, elapsed_ms } => {
                    self.info = Some(DeviceInfo::with_counts(0, 0, now));
                    self.test_disconnect()
                },
                _ => self.abort_combined(),
            },
            Stage::TestDoneClock => match event {
                Event::Clock { now, elapsed_ms } => {
                    self.stage = Stage::Single;
                    let outcome = ConnectionTestResult {
                        success: true,
                        device_info: self.info.take(),
                        error: None,
                        latency: elapsed_ms,
                    };
                    Step::Finished(Ok(Reply::Test(outcome)))
                },
                _ => self.abort_combined(),
            },
            Stage::SyncSleep => match event {
                Event::Done => {
                    self.stage = Stage::SyncReconnect;
                    self.begin_connect()
                },
                _ => self.abort_combined(),
            },
            _ => {
                let inner = self.basic_resume(event);
                self.combined_advance(inner)
            },
        }
    }
}

} // verus!
