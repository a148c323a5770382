use chrono::DateTime;
use chrono::Utc;
use plan_settings::thread_plan::epoch_seconds_to_datetime;
use plan_settings::thread_plan::ActiveThreadPlan;
use plan_settings::thread_plan::ThreadPlanError;
use plan_settings::thread_plan::ThreadPlanItem;
use plan_settings::thread_plan::ThreadPlanItemStatus;
use plan_settings::thread_plan::ThreadPlanSnapshot;
use plan_settings::thread_plan::ThreadPlanSnapshotRow;
use plan_settings::thread_plan::UtcTimestamp;

fn row(created_at: i64, superseded_at: Option<i64>) -> ThreadPlanSnapshotRow {
    ThreadPlanSnapshotRow {
        id: "snap-1".to_string(),
        thread_id: "thread-1".to_string(),
        source_turn_id: "turn-1".to_string(),
        source_item_id: "item-1".to_string(),
        raw_csv: "id,step\n1,do it\n".to_string(),
        created_at,
        superseded_at,
    }
}

#[test]
fn status_as_str_gives_stored_text() {
    assert_eq!(ThreadPlanItemStatus::Pending.as_str(), "pending");
    assert_eq!(ThreadPlanItemStatus::InProgress.as_str(), "in_progress");
    assert_eq!(ThreadPlanItemStatus::Completed.as_str(), "completed");
}

#[test]
fn status_parse_reads_stored_text() {
    assert_eq!(ThreadPlanItemStatus::parse("pending"), Ok(ThreadPlanItemStatus::Pending));
    assert_eq!(ThreadPlanItemStatus::parse("in_progress"), Ok(ThreadPlanItemStatus::InProgress));
    assert_eq!(ThreadPlanItemStatus::parse("completed"), Ok(ThreadPlanItemStatus::Completed));
}

#[test]
fn status_parse_then_as_str_round_trips() {
    for status in [
        ThreadPlanItemStatus::Pending,
        ThreadPlanItemStatus::InProgress,
        ThreadPlanItemStatus::Completed,
    ] {
        assert_eq!(ThreadPlanItemStatus::parse(status.as_str()), Ok(status));
    }
}

#[test]
fn status_parse_rejects_unknown_text() {
    let err = ThreadPlanItemStatus::parse("done").unwrap_err();
    assert_eq!(err, ThreadPlanError::InvalidStatus("done".to_string()));
    assert_eq!(err.message(), "invalid thread plan item status: done");
    assert!(ThreadPlanItemStatus::parse("Pending").is_err());
    assert!(ThreadPlanItemStatus::parse(" pending").is_err());
    assert!(ThreadPlanItemStatus::parse("").is_err());
}

#[test]
fn timestamp_matches_chrono() {
    for secs in [0i64, 1_431_648_000, -1, 1_700_000_000] {
        let ts = UtcTimestamp::from_unix_seconds(secs).expect("in range");
        assert_eq!(ts.unix_seconds(), secs);
        let dt: DateTime<Utc> = DateTime::from_timestamp(secs, 0).unwrap();
        assert_eq!(dt.timestamp(), ts.unix_seconds());
    }
}

#[test]
fn timestamp_range_bounds() {
    let min = -8_334_601_228_800i64;
    let max = 8_210_266_876_799i64;
    assert_eq!(UtcTimestamp::from_unix_seconds(min).map(|t| t.unix_seconds()), Some(min));
    assert_eq!(UtcTimestamp::from_unix_seconds(max).map(|t| t.unix_seconds()), Some(max));
    assert!(UtcTimestamp::from_unix_seconds(min - 1).is_none());
    assert!(UtcTimestamp::from_unix_seconds(max + 1).is_none());
    assert!(UtcTimestamp::from_unix_seconds(i64::MAX).is_none());
    assert!(UtcTimestamp::from_unix_seconds(i64::MIN).is_none());
    assert!(DateTime::<Utc>::from_timestamp(min, 0).is_some());
    assert!(DateTime::<Utc>::from_timestamp(min - 1, 0).is_none());
    assert!(DateTime::<Utc>::from_timestamp(max, 0).is_some());
    assert!(DateTime::<Utc>::from_timestamp(max + 1, 0).is_none());
}

#[test]
fn epoch_seconds_to_datetime_reports_invalid_timestamp() {
    assert_eq!(epoch_seconds_to_datetime(42).map(|t| t.unix_seconds()), Ok(42));
    let err = epoch_seconds_to_datetime(i64::MAX).unwrap_err();
    assert_eq!(err, ThreadPlanError::InvalidTimestamp(i64::MAX));
    assert_eq!(err.message(), format!("invalid unix timestamp: {}", i64::MAX));
}

#[test]
fn snapshot_from_row_keeps_fields() {
    let snapshot = ThreadPlanSnapshot::from_row(row(1_700_000_000, Some(1_700_000_100))).unwrap();
    assert_eq!(snapshot.id, "snap-1");
    assert_eq!(snapshot.thread_id, "thread-1");
    assert_eq!(snapshot.source_turn_id, "turn-1");
    assert_eq!(snapshot.source_item_id, "item-1");
    assert_eq!(snapshot.raw_csv, "id,step\n1,do it\n");
    assert_eq!(snapshot.created_at.unix_seconds(), 1_700_000_000);
    assert_eq!(snapshot.superseded_at.map(|t| t.unix_seconds()), Some(1_700_000_100));

    let open = ThreadPlanSnapshot::try_from(row(5, None)).unwrap();
    assert_eq!(open.created_at.unix_seconds(), 5);
    assert_eq!(open.superseded_at, None);
}

#[test]
fn snapshot_from_row_rejects_bad_times_in_order() {
    assert_eq!(
        ThreadPlanSnapshot::from_row(row(i64::MIN, Some(i64::MAX))),
        Err(ThreadPlanError::InvalidTimestamp(i64::MIN))
    );
    assert_eq!(
        ThreadPlanSnapshot::try_from(row(10, Some(i64::MAX))),
        Err(ThreadPlanError::InvalidTimestamp(i64::MAX))
    );
}

#[test]
fn plan_records_hold_their_values() {
    let snapshot = ThreadPlanSnapshot::from_row(row(1, None)).unwrap();
    let item = ThreadPlanItem {
        snapshot_id: "snap-1".to_string(),
        row_id: "r1".to_string(),
        row_index: 0,
        status: ThreadPlanItemStatus::InProgress,
        step: "write tests".to_string(),
        path: "tests/".to_string(),
        details: String::new(),
        inputs: vec!["a".to_string()],
        outputs: vec![],
        depends_on: vec![],
        acceptance: None,
    };
    let plan = ActiveThreadPlan { snapshot: snapshot.clone(), items: vec![item.clone()] };
    assert_eq!(plan.snapshot, snapshot);
    assert_eq!(plan.items[0].status.as_str(), "in_progress");
}
