//! From decoded rows to users and attendance records, and the range
//! filter.

use vstd::prelude::*;
use crate::text::{chars_le, has_char, join2, lex_le, text_chars};
use crate::types::{AttendanceLog, DeviceUser, LogModel, OptionsModel, SyncOptions, UserModel};

verus! {

/// The user that a decoded row stands for. A row without a name gets the
/// name `User <id>`.
pub open spec fn user_of(row: (u16, String, String)) -> UserModel {
    UserModel {
        device_user_id: row.1@,
        device_name: if row.2@.len() == 0 {
            "User "@ + row.1@
        } else {
            row.2@
        },
    }
}

/// The users that decoded rows stand for.
pub open spec fn users_of(rows: Seq<(u16, String, String)>) -> Seq<UserModel> {
    Seq::new(rows.len(), |i: int| user_of(rows[i]))
}

/// The attendance record that a decoded row stands for.
pub open spec fn log_of(row: (String, String, u8, u8)) -> LogModel {
    LogModel { device_user_id: row.0@, timestamp: row.1@, verify_type: row.2, punch_type: row.3 }
}

/// The attendance records that decoded rows stand for.
pub open spec fn logs_of(rows: Seq<(String, String, u8, u8)>) -> Seq<LogModel> {
    Seq::new(rows.len(), |i: int| log_of(rows[i]))
}

/// Makes users of decoded rows.
pub fn users_from_rows(rows: &Vec<(u16, String, String)>) -> (users: Vec<DeviceUser>)
    ensures
        users.deep_view() == users_of(rows@),
{
    let mut users: Vec<DeviceUser> = Vec::new();
    let n: usize = rows.len();
    let mut i: usize = 0;
    while i < n
        invariant
            n == rows@.len(),
            i <= n,
            users@.len() == i,
            forall|k: int| 0 <= k < i ==> (#[trigger] users@[k])@ == user_of(rows@[k]),
        decreases n - i,
    {
        let row = &rows[i];
        let user_id: String = row.1.clone();
        let name: String = if row.2.as_str().is_empty() {
            join2("User ", row.1.as_str())
        } else {
            row.2.clone()
        };
        users.push(DeviceUser { device_user_id: user_id, device_name: name });
        i = i + 1;
    }
    assert(users.deep_view() =~= users_of(rows@));
    users
}

/// Makes attendance records of decoded rows.
pub fn logs_from_rows(rows: &Vec<(String, String, u8, u8)>) -> (logs: Vec<AttendanceLog>)
    ensures
        logs.deep_view() == logs_of(rows@),
{
    let mut logs: Vec<AttendanceLog> = Vec::new();
    let n: usize = rows.len();
    let mut i: usize = 0;
    while i < n
        invariant
            n == rows@.len(),
            i <= n,
            logs@.len() == i,
            forall|k: int| 0 <= k < i ==> (#[trigger] logs@[k])@ == log_of(rows@[k]),
        decreases n - i,
    {
        let row = &rows[i];
        logs.push(
            AttendanceLog {
                device_user_id: row.0.clone(),
                timestamp: row.1.clone(),
                verify_type: row.2,
                punch_type: row.3,
            },
        );
        i = i + 1;
    }
    assert(logs.deep_view() =~= logs_of(rows@));
    logs
}

/// The lower bound that a start date stands for: a date without a time
/// means its midnight.
pub open spec fn range_start(start: Seq<char>) -> Seq<char> {
    if start.contains('T') {
        start
    } else {
        start + "T00:00:00"@
    }
}

/// The upper bound that an end date stands for: a date without a time
/// means its last second.
pub open spec fn range_end(end: Seq<char>) -> Seq<char> {
    if end.contains('T') {
        end
    } else {
        end + "T23:59:59"@
    }
}

/// The bounds that the options ask for: those of the mode `range` with
/// both dates given, and none otherwise.
pub open spec fn range_of(options: Option<OptionsModel>) -> Option<(Seq<char>, Seq<char>)> {
    match options {
        Some(o) => if o.mode == "range"@ && o.start_date is Some && o.end_date is Some {
            Some((range_start(o.start_date->0), range_end(o.end_date->0)))
        } else {
            None
        },
        None => None,
    }
}

/// Whether a timestamp lies within the bounds, both included, in
/// lexicographic order.
pub open spec fn in_range(timestamp: Seq<char>, start: Seq<char>, end: Seq<char>) -> bool {
    lex_le(start, timestamp) && lex_le(timestamp, end)
}

/// The records whose timestamp lies within the bounds, in their order;
/// all of them where there are no bounds.
pub open spec fn logs_in_range(
    logs: Seq<LogModel>,
    range: Option<(Seq<char>, Seq<char>)>,
) -> Seq<LogModel> {
    match range {
        None => logs,
        Some(bounds) => logs.filter(|l: LogModel| in_range(l.timestamp, bounds.0, bounds.1)),
    }
}

/// The options as plain values.
pub open spec fn options_model(options: Option<&SyncOptions>) -> Option<OptionsModel> {
    match options {
        Some(o) => Some(o@),
        None => None,
    }
}

/// Every record that the range filter lets through lies within the
/// bounds.
pub proof fn lemma_filtered_logs_in_range(
    logs: Seq<LogModel>,
    start: Seq<char>,
    end: Seq<char>,
    i: int,
)
    requires
        0 <= i < logs_in_range(logs, Some((start, end))).len(),
    ensures
        lex_le(start, logs_in_range(logs, Some((start, end)))[i].timestamp),
        lex_le(logs_in_range(logs, Some((start, end)))[i].timestamp, end),
{
    let pred = |l: LogModel| in_range(l.timestamp, start, end);
    logs.lemma_filter_pred(pred, i);
}

/// Keeps the records whose timestamp lies within `[start, end]`.
pub fn retain_range(logs: Vec<AttendanceLog>, start: &str, end: &str) -> (kept: Vec<AttendanceLog>)
    ensures
        kept.deep_view() == logs_in_range(logs.deep_view(), Some((start@, end@))),
{
    let ghost pred = |l: LogModel| in_range(l.timestamp, start@, end@);
    let ghost all = logs.deep_view();
    let lower = text_chars(start);
    let upper = text_chars(end);
    let mut kept: Vec<AttendanceLog> = Vec::new();
    let n: usize = logs.len();
    let mut i: usize = 0;
    proof {
        reveal(Seq::filter);
        assert(all.take(0).filter(pred) =~= Seq::<LogModel>::empty());
        assert(kept.deep_view() =~= Seq::<LogModel>::empty());
    }
    while i < n
        invariant
            n == logs@.len(),
            i <= n,
            all == logs.deep_view(),
            lower@ == start@,
            upper@ == end@,
            pred == (|l: LogModel| in_range(l.timestamp, start@, end@)),
            kept.deep_view() == all.take(i as int).filter(pred),
        decreases n - i,
    {
        let log = &logs[i];
        let ghost before = kept.deep_view();
        proof {
            reveal(Seq::filter);
            assert(all.take(i as int + 1).drop_last() =~= all.take(i as int));
            assert(all.take(i as int + 1).last() == log@);
        }
        let at = text_chars(log.timestamp.as_str());
        if chars_le(lower.as_slice(), at.as_slice()) && chars_le(at.as_slice(), upper.as_slice()) {
            kept.push(
                AttendanceLog {
                    device_user_id: log.device_user_id.clone(),
                    timestamp: log.timestamp.clone(),
                    verify_type: log.verify_type,
                    punch_type: log.punch_type,
                },
            );
            assert(kept.deep_view() =~= before.push(log@));
        }
        i = i + 1;
    }
    assert(all.take(n as int) =~= all);
    kept
}

/// Applies the options of a caller to the attendance records: with the
/// mode `range` and both dates given, only the records within the bounds
/// stay.
pub fn apply_options(
    logs: Vec<AttendanceLog>,
    options: Option<&SyncOptions>,
) -> (kept: Vec<AttendanceLog>)
    ensures
        kept.deep_view() == logs_in_range(logs.deep_view(), range_of(options_model(options))),
{
    match options {
        Some(opts) => {
            let range: String = "range".to_string();
            if opts.mode == range {
                match (&opts.start_date, &opts.end_date) {
                    (Some(start), Some(end)) => {
                        let start_str: String = if has_char(start.as_str(), 'T') {
                            start.clone()
                        } else {
                            join2(start.as_str(), "T00:00:00")
                        };
                        let end_str: String = if has_char(end.as_str(), 'T') {
                            end.clone()
                        } else {
                            join2(end.as_str(), "T23:59:59")
                        };
                        retain_range(logs, start_str.as_str(), end_str.as_str())
                    },
                    _ => logs,
                }
            } else {
                logs
            }
        },
        None => logs,
    }
}

/// The lower bound that the options ask for.
pub open spec fn lower_bound(options: Option<OptionsModel>) -> Seq<char> {
    match range_of(options) {
        Some(bounds) => bounds.0,
        None => Seq::empty(),
    }
}

/// The upper bound that the options ask for.
pub open spec fn upper_bound(options: Option<OptionsModel>) -> Seq<char> {
    match range_of(options) {
        Some(bounds) => bounds.1,
        None => Seq::empty(),
    }
}

} // verus!
