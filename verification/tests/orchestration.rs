use steamboard::errors::{ErrClass, ErrorType};
use steamboard::feed::{classify_status, watermark_or_default};
use steamboard::orchestrator::{
    aggregate_results, apply_settings_update, finish_pass, is_first_sync, notification_body,
    order_partitions, partitions_oldest_first, progress_permille, resolve_credential,
    sanitize_poll_interval,
};
use steamboard::records::{ChangedDates, CPartnerFinancialsDetailedSalesResult, Settings};

fn row(date: &str, partnerid: i32) -> CPartnerFinancialsDetailedSalesResult {
    CPartnerFinancialsDetailedSalesResult {
        partnerid,
        date: date.to_string(),
        ..Default::default()
    }
}

#[test]
fn remote_list_is_dispatched_reversed() {
    let dates = vec![
        "2024-03-05".to_string(),
        "2024-03-01".to_string(),
        "2024-03-03".to_string(),
    ];
    let ordered = order_partitions(dates);
    assert_eq!(ordered, vec!["2024-03-03", "2024-03-01", "2024-03-05"]);
}

#[test]
fn dispatch_plan_covers_absent_list() {
    let changed = ChangedDates { dates: None, result_highwatermark: "7".to_string() };
    let (dates, watermark) = partitions_oldest_first(changed);
    assert!(dates.is_empty());
    assert_eq!(watermark, "7");
}

#[test]
fn partial_failure_pass_reports_success_and_advances_watermark() {
    // Partition A succeeds, partition B fails: the pass aggregates A's
    // records only, and the global watermark still advances.
    let a_records = vec![row("2024-03-01", 1), row("2024-03-01", 2)];
    let results: Vec<Result<Vec<CPartnerFinancialsDetailedSalesResult>, ErrorType>> = vec![
        Ok(a_records),
        Err(ErrorType::BadHttpRequest("partition B failed".to_string())),
    ];
    let aggregated = aggregate_results(results);
    assert_eq!(aggregated.len(), 2);
    assert!(aggregated.iter().all(|r| r.date == "2024-03-01"));

    let mut settings = Settings {
        id: 0,
        steam_api_key: Some("key".to_string()),
        poll_interval: Some(600),
        highwatermark: Some("41".to_string()),
    };
    finish_pass(&mut settings, "42".to_string());
    assert_eq!(settings.highwatermark.as_deref(), Some("42"));
    assert_eq!(settings.steam_api_key.as_deref(), Some("key"));
}

#[test]
fn aggregation_keeps_dispatch_order() {
    let results: Vec<Result<Vec<CPartnerFinancialsDetailedSalesResult>, ErrorType>> = vec![
        Ok(vec![row("2024-03-01", 1)]),
        Err(ErrorType::BadRequest("storage".to_string())),
        Ok(vec![row("2024-03-02", 2), row("2024-03-02", 3)]),
    ];
    let aggregated = aggregate_results(results);
    let ids: Vec<i32> = aggregated.iter().map(|r| r.partnerid).collect();
    assert_eq!(ids, vec![1, 2, 3]);
}

#[test]
fn credential_must_be_present_and_non_empty() {
    assert_eq!(resolve_credential(&None).unwrap_err().class(), ErrClass::BadToken);
    assert_eq!(
        resolve_credential(&Some(String::new())).unwrap_err().class(),
        ErrClass::BadToken
    );
    assert_eq!(resolve_credential(&Some("k".to_string())).unwrap(), "k");
}

#[test]
fn first_sync_is_the_zero_sentinel() {
    assert!(is_first_sync(&None));
    assert!(is_first_sync(&Some("0".to_string())));
    assert!(!is_first_sync(&Some("41".to_string())));
}

#[test]
fn status_classification() {
    assert!(classify_status(200).is_ok());
    assert!(classify_status(204).is_ok());
    assert_eq!(classify_status(403).unwrap_err().class(), ErrClass::BadToken);
    assert_eq!(classify_status(500).unwrap_err().class(), ErrClass::BadHttpRequest);
    assert_eq!(classify_status(301).unwrap_err().class(), ErrClass::BadHttpRequest);
}

#[test]
fn default_watermark_is_zero_sentinel() {
    assert_eq!(watermark_or_default(None), "0");
    assert_eq!(watermark_or_default(Some("99".to_string())), "99");
}

#[test]
fn poll_interval_is_clamped_to_a_minute() {
    assert_eq!(sanitize_poll_interval(None), Some(60));
    assert_eq!(sanitize_poll_interval(Some(10)), Some(60));
    assert_eq!(sanitize_poll_interval(Some(600)), Some(600));
}

#[test]
fn settings_update_clamps_and_keeps_watermark() {
    let mut settings = Settings {
        id: 0,
        steam_api_key: Some("old".to_string()),
        poll_interval: Some(600),
        highwatermark: Some("7".to_string()),
    };
    apply_settings_update(&mut settings, Some("new".to_string()), Some(5));
    assert_eq!(settings.steam_api_key.as_deref(), Some("new"));
    assert_eq!(settings.poll_interval, Some(60));
    assert_eq!(settings.highwatermark.as_deref(), Some("7"));
}

#[test]
fn progress_is_dispatched_over_total() {
    assert_eq!(progress_permille(0, 4), 0);
    assert_eq!(progress_permille(1, 4), 250);
    assert_eq!(progress_permille(4, 4), 1000);
    assert_eq!(progress_permille(0, 0), 0);
}

#[test]
fn notification_bodies_follow_thresholds() {
    assert_eq!(notification_body(1), "Way to go!");
    assert_eq!(notification_body(10), "Well done!");
    assert_eq!(notification_body(50), "You are a sale machine!");
    assert_eq!(notification_body(100), "You're on fire!");
    assert_eq!(notification_body(200), "Ka-ching! You are a sale monster!");
    assert_eq!(notification_body(500), "Jackpot!");
}
