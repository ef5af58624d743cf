//! What holds of every client.

use vstd::prelude::*;
use crate::client::{
    at_stage, basic_resumed, connect_done, gives_nothing, logs_begin, logs_done, partial_sync_text,
    with_options, ClientModel, ClientPhase, Reply, Stage,
};
use crate::client::combined::{resumed, sync_concluded, sync_users_done};
use crate::client::records::{
    in_range, lemma_filtered_logs_in_range, logs_in_range, logs_of, lower_bound, range_of,
    upper_bound,
};
use crate::client::transport::TransportModel;
use crate::session::{device_address, Payload};
use crate::step::{unexpected_event_text, Event, Step};
use crate::tcp::{TcpModel, TcpPhase};
use crate::text::decimal_digits;
use crate::types::{comm_key_of, AttendanceLog, DeviceUser, LogModel, OptionsModel, UserModel};

verus! {

/// A client whose communication key stands for zero issues no
/// authentication: once its transport has opened the session, the client
/// is connected.
pub proof fn lemma_no_auth_without_key(
    pre: ClientModel,
    result: Result<Payload, String>,
    post: ClientModel,
    step: Step<Reply>,
)
    requires
        comm_key_of(pre.config.comm_key) == 0,
        result is Ok,
        connect_done(pre, result, post, step),
    ensures
        gives_nothing(step),
        post.phase == ClientPhase::Idle,
        post.transport == pre.transport,
{
}

/// Every attendance record that the client hands back under a range lies
/// within the bounds of the range, in lexicographic order.
pub proof fn lemma_logs_within_range(
    pre: ClientModel,
    rows: Vec<(String, String, u8, u8)>,
    post: ClientModel,
    step: Step<Reply>,
    logs: Vec<AttendanceLog>,
    i: int,
)
    requires
        range_of(pre.options) is Some,
        logs_done(pre, Ok(Payload::RecordRows(rows)), post, step),
        step == Step::<Reply>::Finished(Ok(Reply::Logs(logs))),
        0 <= i < logs@.len(),
    ensures
        in_range(logs@[i]@.timestamp, lower_bound(pre.options), upper_bound(pre.options)),
{
    let bounds = range_of(pre.options)->0;
    let all = logs_of(rows@);
    assert(logs.deep_view() == logs_in_range(all, Some(bounds)));
    assert(logs.deep_view()[i] == logs@[i]@);
    lemma_filtered_logs_in_range(all, bounds.0, bounds.1, i);
}

/// When the stream connection cannot be opened, the client turns to the
/// datagram transport at once: it keeps the error of the stream transport
/// and asks for a datagram socket to the same address.
pub proof fn lemma_falls_back_to_datagrams(
    pre: ClientModel,
    stream: TcpModel,
    error: String,
    post: ClientModel,
    step: Step<Reply>,
)
    requires
        pre.phase == ClientPhase::Connecting,
        pre.transport == Some(TransportModel::Tcp(stream)),
        stream.phase == TcpPhase::Dialing,
        !stream.connected,
        basic_resumed(pre, Event::Failed(error), post, step),
    ensures
        step.asks_bind(device_address(pre.config.ip, pre.config.port)),
        post.transport matches Some(TransportModel::Udp(u)) && !u.connected,
        post.phase == ClientPhase::Connecting,
        post.first_error == "TCP connect failed to "@ + device_address(stream.ip, stream.port)
            + ": "@ + error@,
{
}

/// A combined read that has the users but no attendance record after its
/// last attempt fails with an error that names the number of users.
pub proof fn lemma_partial_sync_names_the_users(
    pre: ClientModel,
    post: ClientModel,
    step: Step<Reply>,
)
    requires
        pre.last_error.len() > 0,
        pre.logs.len() == 0,
        sync_concluded(pre, post, step),
    ensures
        step.fails_with(
            "Got "@ + decimal_digits(pre.users.len()) + " users but failed to fetch attendance logs: "@
                + pre.last_error,
        ),
{
}

/// Whether every record lies within the bounds that the options ask
/// for, if they ask for any.
pub open spec fn within_range(logs: Seq<LogModel>, options: Option<OptionsModel>) -> bool {
    range_of(options) is Some ==> forall|i: int|
        0 <= i < logs.len() ==> in_range(
            (#[trigger] logs[i]).timestamp,
            lower_bound(options),
            upper_bound(options),
        )
}

/// Whether a step that ends an operation in success hands back attendance
/// records that lie within the range of the options.
pub open spec fn logs_step_within(step: Step<Reply>, options: Option<OptionsModel>) -> bool {
    step matches Step::Finished(Ok(reply)) ==> reply matches Reply::Logs(logs) && within_range(
        logs.deep_view(),
        options,
    )
}

/// Whether a read of the attendance log with the given options is in
/// flight or has ended, and no other operation has been started.
pub open spec fn reading_logs(m: ClientModel, options: Option<OptionsModel>) -> bool {
    &&& m.stage == Stage::Single
    &&& m.options == options
    &&& (m.phase == ClientPhase::Logs || m.phase == ClientPhase::Idle)
}

/// What the range filter lets through lies within its bounds, whatever
/// the records were.
pub proof fn lemma_range_filter(start: Seq<char>, end: Seq<char>)
    ensures
        forall|all: Seq<LogModel>, i: int|
            0 <= i < logs_in_range(all, Some((start, end))).len() ==> in_range(
                (#[trigger] logs_in_range(all, Some((start, end)))[i]).timestamp,
                start,
                end,
            ),
{
    assert forall|all: Seq<LogModel>, i: int|
        0 <= i < logs_in_range(all, Some((start, end))).len() implies in_range(
        (#[trigger] logs_in_range(all, Some((start, end)))[i]).timestamp,
        start,
        end,
    ) by {
        lemma_filtered_logs_in_range(all, start, end, i);
    }
}

/// One step of a read of the attendance log: the read goes on or ends,
/// and what it hands back lies within the range of its options.
pub proof fn lemma_logs_step(
    pre: ClientModel,
    event: Event,
    post: ClientModel,
    step: Step<Reply>,
)
    requires
        reading_logs(pre, pre.options),
        resumed(pre, event, post, step),
    ensures
        reading_logs(post, pre.options),
        logs_step_within(step, pre.options),
{
    lemma_range_filter(lower_bound(pre.options), upper_bound(pre.options));
}

/// The start of a read of the attendance log: the read is in flight or
/// has ended at once, and what it hands back lies within the range.
pub proof fn lemma_logs_start(
    pre: ClientModel,
    options: Option<OptionsModel>,
    post: ClientModel,
    step: Step<Reply>,
)
    requires
        logs_begin(with_options(at_stage(pre, Stage::Single), options), post, step),
    ensures
        reading_logs(post, options),
        logs_step_within(step, options),
{
    lemma_range_filter(lower_bound(options), upper_bound(options));
}

/// Every attendance record that a read with a range hands back lies
/// within the bounds of the range, in lexicographic order: this holds of
/// every step of the read, however long it runs and whatever the outcomes
/// are that it is resumed with.
pub proof fn lemma_logs_run_within_range(
    pre: ClientModel,
    options: Option<OptionsModel>,
    states: Seq<ClientModel>,
    events: Seq<Event>,
    steps: Seq<Step<Reply>>,
    j: int,
)
    requires
        states.len() == events.len() + 1,
        steps.len() == events.len() + 1,
        logs_begin(with_options(at_stage(pre, Stage::Single), options), states[0], steps[0]),
        forall|i: int|
            0 <= i < events.len() ==> resumed(
                states[i],
                #[trigger] events[i],
                states[i + 1],
                steps[i + 1],
            ),
        0 <= j < steps.len(),
    ensures
        reading_logs(states[j], options),
        logs_step_within(steps[j], options),
    decreases j,
{
    if j == 0 {
        lemma_logs_start(pre, options, states[0], steps[0]);
    } else {
        lemma_logs_run_within_range(pre, options, states, events, steps, j - 1);
        assert(resumed(states[j - 1], events[j - 1], states[j], steps[j]));
        lemma_logs_step(states[j - 1], events[j - 1], states[j], steps[j]);
    }
}

/// Whether a combined read has the users and is at its attendance log.
pub open spec fn after_users(m: ClientModel) -> bool {
    m.stage == Stage::SyncDisconnect || m.stage == Stage::SyncSleep || m.stage
        == Stage::SyncReconnect || m.stage == Stage::SyncLogs || m.stage
        == Stage::SyncRetryDisconnect || m.stage == Stage::SyncFinalDisconnect
}

/// Whether a step that ends a combined read with `users` users either
/// hands them back, or fails with an error that names their number in
/// front of the error of the last attempt. (A step also ends the read
/// when it is resumed with an outcome that it did not ask for.)
pub open spec fn sync_step_names_users(
    step: Step<Reply>,
    users: Seq<UserModel>,
    post: ClientModel,
) -> bool {
    match step {
        Step::Next(_) => after_users(post) && post.users == users,
        Step::Finished(Ok(reply)) => reply matches Reply::Sync(r) && r@.users == users,
        Step::Finished(Err(m)) => m@ == unexpected_event_text() || (post.last_error.len() > 0
            && m@ == partial_sync_text(users.len(), post.last_error)),
    }
}

/// One step of a combined read that has the users.
pub proof fn lemma_sync_step(pre: ClientModel, event: Event, post: ClientModel, step: Step<Reply>)
    requires
        after_users(pre),
        resumed(pre, event, post, step),
    ensures
        sync_step_names_users(step, pre.users, post),
{
}

/// A combined read that has read `n` users never ends with less: at every
/// step it goes on with the same users, hands them back with the
/// attendance records, or fails with `Got n users but failed to fetch
/// attendance logs:` and the error of its last attempt. This holds
/// however long the read runs and whatever the outcomes are.
pub proof fn lemma_sync_run_names_users(
    states: Seq<ClientModel>,
    events: Seq<Event>,
    steps: Seq<Step<Reply>>,
    j: int,
)
    requires
        states.len() == events.len() + 1,
        steps.len() == events.len(),
        after_users(states[0]),
        forall|i: int|
            0 <= i < events.len() ==> resumed(
                states[i],
                #[trigger] events[i],
                states[i + 1],
                steps[i],
            ),
        forall|i: int| 0 <= i < j ==> (#[trigger] steps[i]) is Next,
        0 <= j < steps.len(),
    ensures
        sync_step_names_users(steps[j], states[0].users, states[j + 1]),
    decreases j,
{
    if j > 0 {
        lemma_sync_run_names_users(states, events, steps, j - 1);
        assert(steps[j - 1] is Next);
    }
    assert(resumed(states[j], events[j], states[j + 1], steps[j]));
    lemma_sync_step(states[j], events[j], states[j + 1], steps[j]);
}

/// A combined read that has just read its users has them from then on.
pub proof fn lemma_sync_has_users(
    pre: ClientModel,
    users: Vec<DeviceUser>,
    post: ClientModel,
    step: Step<Reply>,
)
    requires
        pre.stage == Stage::SyncUsers,
        sync_users_done(pre, Ok(Reply::Users(users)), post, step),
    ensures
        sync_step_names_users(step, users.deep_view(), post),
{
}

} // verus!
