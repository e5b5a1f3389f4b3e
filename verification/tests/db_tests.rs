use arb_scanner::db::{
    checked_i128_to_i64, checked_i64_to_u64, checked_u64_to_i64, join_chains, legacy_backfill_needed,
    legacy_session_metadata, legacy_session_orphaned, legacy_session_row, merge_chains, IntegerRange,
    LegacySessionMetadata, SessionStatus,
};

fn strings(xs: &[&str]) -> Vec<String> {
    xs.iter().map(|x| x.to_string()).collect()
}

#[test]
fn test_checked_i128_to_i64_rejects_overflow() {
    let err = checked_i128_to_i64(i64::MAX as i128 + 1, "net_wei").unwrap_err();
    assert!(err.message().contains("net_wei"));
}

#[test]
fn range_errors_name_field_range_and_value() {
    let err = checked_i128_to_i64(i64::MIN as i128 - 1, "net_wei").unwrap_err();
    assert_eq!(err.message(), "net_wei out of SQLite INTEGER range: -9223372036854775809");
    assert_eq!(err.range, IntegerRange::SqliteInteger);
    let err = checked_u64_to_i64(u64::MAX, "timestamp").unwrap_err();
    assert_eq!(err.message(), "timestamp out of SQLite INTEGER range: 18446744073709551615");
    let err = checked_i64_to_u64(-3, "started_at").unwrap_err();
    assert_eq!(err.message(), "started_at out of u64 range: -3");
}

#[test]
fn in_range_values_convert_unchanged() {
    assert_eq!(checked_i128_to_i64(-42, "net_wei").unwrap(), -42);
    assert_eq!(checked_i128_to_i64(i64::MAX as i128, "net_wei").unwrap(), i64::MAX);
    assert_eq!(checked_u64_to_i64(1_700_000_000, "timestamp").unwrap(), 1_700_000_000);
    assert_eq!(checked_i64_to_u64(0, "ended_at").unwrap(), 0);
}

#[test]
fn statuses_are_stored_as_words() {
    assert_eq!(SessionStatus::Active.as_str(), "active");
    assert_eq!(SessionStatus::Completed.as_str(), "completed");
    assert_eq!(SessionStatus::Recovered.as_str(), "recovered");
}

#[test]
fn legacy_backfill_runs_only_for_rows_without_session() {
    assert!(!legacy_backfill_needed(0, 0));
    assert!(legacy_backfill_needed(3, 0));
    assert!(legacy_backfill_needed(0, 1));
    assert!(legacy_session_orphaned(0, 0));
    assert!(!legacy_session_orphaned(1, 0));
    assert!(!legacy_session_orphaned(0, 2));
}

#[test]
fn chain_lists_merge_as_sorted_set() {
    let merged = merge_chains(&strings(&["polygon", "ethereum", "polygon"]), &strings(&["base", "ethereum"]));
    assert_eq!(merged, strings(&["base", "ethereum", "polygon"]));
    assert_eq!(merge_chains(&vec![], &vec![]), Vec::<String>::new());
    assert_eq!(join_chains(&merged), "base,ethereum,polygon");
    assert_eq!(join_chains(&strings(&["arbitrum"])), "arbitrum");
    assert_eq!(join_chains(&vec![]), "");
}

#[test]
fn legacy_metadata_spans_both_tables() {
    let meta = legacy_session_metadata(
        Some((100, 500)),
        Some((50, 400)),
        &strings(&["ethereum"]),
        &strings(&["base", "ethereum"]),
    );
    assert_eq!(meta.started_at, 50);
    assert_eq!(meta.ended_at, Some(500));
    assert_eq!(meta.active_chains, "base,ethereum");

    let meta = legacy_session_metadata(None, Some((7, 9)), &vec![], &vec![]);
    assert_eq!(meta.started_at, 7);
    assert_eq!(meta.ended_at, Some(9));
    assert_eq!(meta.active_chains, "legacy");

    let meta = legacy_session_metadata(None, None, &vec![], &vec![]);
    assert_eq!(meta.started_at, 0);
    assert_eq!(meta.ended_at, None);
    assert_eq!(meta.active_chains, "legacy");
}

#[test]
fn legacy_rows_become_a_session_row() {
    let empty = LegacySessionMetadata { started_at: 0, ended_at: None, active_chains: "legacy".to_string() };
    assert!(legacy_session_row(empty).unwrap().is_none());

    let done = LegacySessionMetadata { started_at: 50, ended_at: Some(500), active_chains: "base".to_string() };
    let row = legacy_session_row(done).unwrap().unwrap();
    assert_eq!(row.started_at, 50);
    assert_eq!(row.ended_at, Some(500));
    assert_eq!(row.active_chains, "base");
    assert_eq!(row.status, SessionStatus::Completed);

    let open = LegacySessionMetadata { started_at: 50, ended_at: None, active_chains: "legacy".to_string() };
    let row = legacy_session_row(open).unwrap().unwrap();
    assert_eq!(row.ended_at, None);
    assert_eq!(row.status, SessionStatus::Active);

    let too_late = LegacySessionMetadata { started_at: 1, ended_at: Some(u64::MAX), active_chains: "base".to_string() };
    let err = legacy_session_row(too_late).unwrap_err();
    assert_eq!(err.field, "ended_at");
    assert_eq!(err.value, u64::MAX as i128);
    let too_early = LegacySessionMetadata { started_at: u64::MAX, ended_at: None, active_chains: "base".to_string() };
    assert_eq!(legacy_session_row(too_early).unwrap_err().field, "started_at");
}
