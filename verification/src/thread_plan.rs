//! The status of a thread plan item and the plan records.
use chrono::DateTime;
use chrono::Utc;
use vstd::prelude::*;

use crate::text::str_equal;
use crate::text::decimal_text;

verus! {

/// Progress of one step of a thread plan.
#[derive(Debug, Clone, Copy, PartialEq, Eq, Structural)]
pub enum ThreadPlanItemStatus {
    Pending,
    InProgress,
    Completed,
}

/// The text under which a status is stored.
pub open spec fn status_text(status: ThreadPlanItemStatus) -> Seq<char> {
    match status {
        ThreadPlanItemStatus::Pending => "pending"@,
        ThreadPlanItemStatus::InProgress => "in_progress"@,
        ThreadPlanItemStatus::Completed => "completed"@,
    }
}

/// The status stored under a text, if any.
pub open spec fn status_from_text(text: Seq<char>) -> Option<ThreadPlanItemStatus> {
    if text == "pending"@ {
        Some(ThreadPlanItemStatus::Pending)
    } else if text == "in_progress"@ {
        Some(ThreadPlanItemStatus::InProgress)
    } else if text == "completed"@ {
        Some(ThreadPlanItemStatus::Completed)
    } else {
        None
    }
}

/// Errors produced while reading thread plan records.
#[derive(Debug, Clone, PartialEq, Eq)]
pub enum ThreadPlanError {
    /// The stored status text is none of the known statuses.
    InvalidStatus(String),
    /// A stored time lies outside the dates that can be represented.
    InvalidTimestamp(i64),
}

impl ThreadPlanError {
    /// The message shown for the error.
    pub fn message(&self) -> (r: String)
        ensures
            match self {
                ThreadPlanError::InvalidStatus(v) => r@ == "invalid thread plan item status: "@ + v@,
                ThreadPlanError::InvalidTimestamp(secs) => r@ == "invalid unix timestamp: "@ + decimal_text(*secs as int),
            },
    {
        match self {
            ThreadPlanError::InvalidStatus(v) => crate::text::cat2("invalid thread plan item status: ", v.as_str()),
            ThreadPlanError::InvalidTimestamp(secs) => crate::text::cat2("invalid unix timestamp: ", crate::text::decimal_string(*secs).as_str()),
        }
    }
}

impl ThreadPlanItemStatus {
    /// The stored text of this status.
    pub fn as_str(self) -> (r: &'static str)
        ensures
            r@ == status_text(self),
    {
        match self {
            ThreadPlanItemStatus::Pending => "pending",
            ThreadPlanItemStatus::InProgress => "in_progress",
            ThreadPlanItemStatus::Completed => "completed",
        }
    }

    /// Reads a status from its stored text.
    pub fn parse(value: &str) -> (r: Result<Self, ThreadPlanError>)
        ensures
            match r {
                Ok(status) => status_from_text(value@) == Some(status),
                Err(e) => status_from_text(value@) is None && (e matches ThreadPlanError::InvalidStatus(v)
                    && v@ == value@),
            },
    {
        if str_equal(value, "pending") {
            Ok(ThreadPlanItemStatus::Pending)
        } else if str_equal(value, "in_progress") {
            Ok(ThreadPlanItemStatus::InProgress)
        } else if str_equal(value, "completed") {
            Ok(ThreadPlanItemStatus::Completed)
        } else {
            Err(ThreadPlanError::InvalidStatus(String::from_str(value)))
        }
    }
}

/// One step of a stored thread plan.
#[derive(Debug, Clone, PartialEq, Eq)]
pub struct ThreadPlanItem {
    pub snapshot_id: String,
    pub row_id: String,
    pub row_index: i64,
    pub status: ThreadPlanItemStatus,
    pub step: String,
    pub path: String,
    pub details: String,
    pub inputs: Vec<String>,
    pub outputs: Vec<String>,
    pub depends_on: Vec<String>,
    pub acceptance: Option<String>,
}

/// What is needed to store a new snapshot of a thread plan.
#[derive(Debug, Clone, PartialEq, Eq)]
pub struct ThreadPlanSnapshotCreateParams {
    pub id: String,
    pub thread_id: String,
    pub source_turn_id: String,
    pub source_item_id: String,
    pub raw_csv: String,
}

/// What is needed to store a new step of a thread plan.
#[derive(Debug, Clone, PartialEq, Eq)]
pub struct ThreadPlanItemCreateParams {
    pub row_id: String,
    pub row_index: i64,
    pub status: ThreadPlanItemStatus,
    pub step: String,
    pub path: String,
    pub details: String,
    pub inputs: Vec<String>,
    pub outputs: Vec<String>,
    pub depends_on: Vec<String>,
    pub acceptance: Option<String>,
}

/// Reading back the stored text of a status gives that status.
pub proof fn lemma_status_text_roundtrip(status: ThreadPlanItemStatus)
    ensures
        status_from_text(status_text(status)) == Some(status),
{
    reveal_strlit("pending");
    reveal_strlit("in_progress");
    reveal_strlit("completed");
    assert("pending"@.len() == 7);
    assert("in_progress"@.len() == 11);
    assert("completed"@.len() == 9);
}

/// Each status is stored under its own name in snake case, and no two statuses
/// share a text.
pub proof fn lemma_status_texts(a: ThreadPlanItemStatus, b: ThreadPlanItemStatus)
    ensures
        status_text(ThreadPlanItemStatus::Pending) == "pending"@,
        status_text(ThreadPlanItemStatus::InProgress) == "in_progress"@,
        status_text(ThreadPlanItemStatus::Completed) == "completed"@,
        status_text(a) == status_text(b) ==> a == b,
{
    lemma_status_text_roundtrip(a);
    lemma_status_text_roundtrip(b);
}

/// A text is read as a status only when it is that status's stored text.
pub proof fn lemma_status_from_text_exact(text: Seq<char>)
    ensures
        match status_from_text(text) {
            Some(status) => status_text(status) == text,
            None => forall|status: ThreadPlanItemStatus| status_text(status) != text,
        },
{
}

/// The first second, counted from the Unix epoch, that chrono can represent
/// (the start of the year -262143).
pub open spec fn min_unix_seconds() -> int {
    -8_334_601_228_800
}

/// The last second, counted from the Unix epoch, that chrono can represent
/// (the end of the year 262142).
pub open spec fn max_unix_seconds() -> int {
    8_210_266_876_799
}

/// Whether chrono can represent the given second since the Unix epoch.
pub open spec fn unix_seconds_in_range(secs: i64) -> bool {
    min_unix_seconds() <= secs <= max_unix_seconds()
}

/// Calls chrono's `DateTime::<Utc>::from_timestamp(secs, 0)` and reports whether it
/// gave a date. The contract claims that chrono gives one exactly when `secs` lies
/// in the range of dates that chrono represents.
#[verifier::external_body]
fn chrono_accepts_unix_seconds(secs: i64) -> (r: bool)
    ensures
        r == unix_seconds_in_range(secs),
{
    DateTime::<Utc>::from_timestamp(secs, 0).is_some()
}

/// A UTC date and time at a whole second, kept as its distance in seconds from the
/// Unix epoch; only seconds that chrono can represent are held.
#[derive(Debug, Clone, Copy, PartialEq, Eq, Structural)]
pub struct UtcTimestamp {
    secs: i64,
}

impl View for UtcTimestamp {
    type V = i64;

    closed spec fn view(&self) -> i64 {
        self.secs
    }
}

impl UtcTimestamp {
    #[verifier::type_invariant]
    spec fn representable(self) -> bool {
        unix_seconds_in_range(self.secs)
    }

    /// The date and time `secs` seconds after the Unix epoch, when chrono can represent it.
    pub fn from_unix_seconds(secs: i64) -> (r: Option<UtcTimestamp>)
        ensures
            match r {
                Some(t) => unix_seconds_in_range(secs) && t@ == secs,
                None => !unix_seconds_in_range(secs),
            },
    {
        if chrono_accepts_unix_seconds(secs) {
            Some(UtcTimestamp { secs })
        } else {
            None
        }
    }

    /// Seconds since the Unix epoch.
    pub fn unix_seconds(&self) -> (r: i64)
        ensures
            r == self@,
            unix_seconds_in_range(r),
    {
        proof {
            use_type_invariant(self);
        }
        self.secs
    }
}

/// A thread plan snapshot together with its steps.
#[derive(Debug, Clone, PartialEq, Eq)]
pub struct ActiveThreadPlan {
    pub snapshot: ThreadPlanSnapshot,
    pub items: Vec<ThreadPlanItem>,
}

/// A stored snapshot of a thread plan.
#[derive(Debug, Clone, PartialEq, Eq)]
pub struct ThreadPlanSnapshot {
    pub id: String,
    pub thread_id: String,
    pub source_turn_id: String,
    pub source_item_id: String,
    pub raw_csv: String,
    pub created_at: UtcTimestamp,
    pub superseded_at: Option<UtcTimestamp>,
}

/// A snapshot as it is read from the database, with times in seconds since the Unix epoch.
#[derive(Debug, Clone, PartialEq, Eq)]
pub struct ThreadPlanSnapshotRow {
    pub id: String,
    pub thread_id: String,
    pub source_turn_id: String,
    pub source_item_id: String,
    pub raw_csv: String,
    pub created_at: i64,
    pub superseded_at: Option<i64>,
}

/// The timestamp whose seconds since the Unix epoch are `secs`.
pub open spec fn timestamp_at(secs: i64) -> UtcTimestamp
    recommends
        unix_seconds_in_range(secs),
{
    choose|t: UtcTimestamp| t@ == secs
}

/// The result of turning a stored second count into a UTC date and time.
pub open spec fn epoch_seconds_result(secs: i64) -> Result<UtcTimestamp, ThreadPlanError> {
    if unix_seconds_in_range(secs) {
        Ok(timestamp_at(secs))
    } else {
        Err(ThreadPlanError::InvalidTimestamp(secs))
    }
}

/// The result of reading a snapshot from its row: the creation time is checked first,
/// then the supersession time.
pub open spec fn snapshot_from_row(row: ThreadPlanSnapshotRow) -> Result<ThreadPlanSnapshot, ThreadPlanError> {
    if !unix_seconds_in_range(row.created_at) {
        Err(ThreadPlanError::InvalidTimestamp(row.created_at))
    } else {
        match row.superseded_at {
            Some(s) if !unix_seconds_in_range(s) => Err(ThreadPlanError::InvalidTimestamp(s)),
            _ => Ok(ThreadPlanSnapshot {
                id: row.id,
                thread_id: row.thread_id,
                source_turn_id: row.source_turn_id,
                source_item_id: row.source_item_id,
                raw_csv: row.raw_csv,
                created_at: timestamp_at(row.created_at),
                superseded_at: match row.superseded_at {
                    Some(s) => Some(timestamp_at(s)),
                    None => None,
                },
            }),
        }
    }
}

/// The timestamp chosen for a second count is the one holding that count.
pub proof fn lemma_timestamp_at(secs: i64)
    ensures
        timestamp_at(secs)@ == secs,
{
    let t = UtcTimestamp { secs };
    assert(t@ == secs);
}

/// A snapshot read from a row keeps the row's texts and its times, second for second;
/// reading fails only on a time that cannot be represented.
pub proof fn lemma_snapshot_keeps_row(row: ThreadPlanSnapshotRow)
    ensures
        match snapshot_from_row(row) {
            Ok(s) => {
                &&& s.id == row.id && s.thread_id == row.thread_id && s.raw_csv == row.raw_csv
                &&& s.source_turn_id == row.source_turn_id && s.source_item_id == row.source_item_id
                &&& s.created_at@ == row.created_at
                &&& match (s.superseded_at, row.superseded_at) {
                    (Some(t), Some(secs)) => t@ == secs,
                    (None, None) => true,
                    _ => false,
                }
            },
            Err(e) => e matches ThreadPlanError::InvalidTimestamp(secs) && !unix_seconds_in_range(secs),
        },
{
    lemma_timestamp_at(row.created_at);
    if let Some(secs) = row.superseded_at {
        lemma_timestamp_at(secs);
    }
}

/// Turns a stored second count into a UTC date and time.
pub fn epoch_seconds_to_datetime(secs: i64) -> (r: Result<UtcTimestamp, ThreadPlanError>)
    ensures
        r == epoch_seconds_result(secs),
{
    match UtcTimestamp::from_unix_seconds(secs) {
        Some(dt) => Ok(dt),
        None => Err(ThreadPlanError::InvalidTimestamp(secs)),
    }
}

impl ThreadPlanSnapshot {
    /// Reads a snapshot from its database row.
    pub fn from_row(row: ThreadPlanSnapshotRow) -> (r: Result<Self, ThreadPlanError>)
        ensures
            r == snapshot_from_row(row),
    {
        let created_at = match epoch_seconds_to_datetime(row.created_at) {
            Ok(dt) => dt,
            Err(e) => return Err(e),
        };
        let superseded_at = match row.superseded_at {
            Some(s) => match epoch_seconds_to_datetime(s) {
                Ok(dt) => Some(dt),
                Err(e) => return Err(e),
            },
            None => None,
        };
        Ok(ThreadPlanSnapshot {
            id: row.id,
            thread_id: row.thread_id,
            source_turn_id: row.source_turn_id,
            source_item_id: row.source_item_id,
            raw_csv: row.raw_csv,
            created_at,
            superseded_at,
        })
    }
}

impl TryFrom<ThreadPlanSnapshotRow> for ThreadPlanSnapshot {
    type Error = ThreadPlanError;

    fn try_from(value: ThreadPlanSnapshotRow) -> (r: Result<Self, Self::Error>) {
        ThreadPlanSnapshot::from_row(value)
    }
}

impl vstd::std_specs::convert::TryFromSpecImpl<ThreadPlanSnapshotRow> for ThreadPlanSnapshot {
    open spec fn obeys_try_from_spec() -> bool {
        true
    }

    open spec fn try_from_spec(v: ThreadPlanSnapshotRow) -> Result<Self, Self::Error> {
        snapshot_from_row(v)
    }
}

} // verus!
