use steamboard::errors::ErrClass;
use steamboard::records::{CPartnerFinancialsDetailedSalesResult, DetailedSales};
use steamboard::store::Store;
use steamboard::worker::{parse_watermark, PageStep, PartitionWorker};

fn row(date: &str, partnerid: i32) -> CPartnerFinancialsDetailedSalesResult {
    CPartnerFinancialsDetailedSalesResult {
        partnerid,
        date: date.to_string(),
        ..Default::default()
    }
}

fn page_with(rows: Vec<CPartnerFinancialsDetailedSalesResult>, max_id: &str) -> DetailedSales {
    DetailedSales { results: Some(rows), max_id: max_id.to_string(), ..Default::default() }
}

#[test]
fn parse_watermark_accepts_digits() {
    assert_eq!(parse_watermark("0").unwrap(), 0);
    assert_eq!(parse_watermark("100").unwrap(), 100);
    assert_eq!(parse_watermark("9223372036854775807").unwrap(), i64::MAX);
    assert_eq!(parse_watermark("0042").unwrap(), 42);
}

#[test]
fn parse_watermark_rejects_junk() {
    for bad in ["", "abc", "12x", "-5", " 12", "9223372036854775808"] {
        let err = parse_watermark(bad).unwrap_err();
        assert_eq!(err.class(), ErrClass::BadFormatting, "input {:?}", bad);
    }
}

#[test]
fn pagination_terminates_by_watermark_equality() {
    // Responses: (after=0 -> max=100, 50 records), (after=100 -> max=100,
    // 0 records).  The worker performs exactly 2 fetches, persists 50
    // records, and stores final watermark 100.
    let date = "2024-03-01";
    let mut store = Store::new();
    let mut worker = PartitionWorker::begin(&mut store, date.to_string());
    assert_eq!(worker.watermark, 0);

    let mut fetches = 0;
    loop {
        fetches += 1;
        let page = match worker.watermark {
            0 => page_with((0..50).map(|i| row(date, i)).collect(), "100"),
            100 => page_with(vec![], "100"),
            other => panic!("unexpected fetch after watermark {}", other),
        };
        match worker.handle_page(&mut store, page).unwrap() {
            PageStep::Advanced => continue,
            PageStep::Exhausted => break,
        }
    }

    assert_eq!(fetches, 2);
    assert_eq!(store.facts.len(), 50);
    assert_eq!(worker.collected.len(), 50);
    assert_eq!(store.get_highwatermark(&date.to_string()), 100);
}

#[test]
fn exhaustion_is_not_decided_by_empty_record_lists() {
    // A page can advance the watermark with zero qualifying records while
    // later pages still hold data; only watermark equality ends the loop.
    let date = "2024-03-05";
    let mut store = Store::new();
    let mut worker = PartitionWorker::begin(&mut store, date.to_string());

    let empty_advancing = page_with(vec![], "10");
    assert_eq!(worker.handle_page(&mut store, empty_advancing).unwrap(), PageStep::Advanced);
    assert_eq!(worker.watermark, 10);

    let with_data = page_with(vec![row(date, 1)], "20");
    assert_eq!(worker.handle_page(&mut store, with_data).unwrap(), PageStep::Advanced);

    let terminal = page_with(vec![], "20");
    assert_eq!(worker.handle_page(&mut store, terminal).unwrap(), PageStep::Exhausted);
    assert_eq!(store.facts.len(), 1);
    assert_eq!(store.get_highwatermark(&date.to_string()), 20);
}

#[test]
fn reset_purges_stale_rows_before_rebuild() {
    // A partition whose stored watermark is zero at the start of a pass has
    // its prior rows purged: only the new pass's rows remain.
    let date = "2024-03-01";
    let mut store = Store::new();

    // A prior, interrupted pass left partial data but never committed a
    // watermark for the partition.
    store.insert_sale_detail(page_with(vec![row(date, 1), row(date, 2)], "7"));
    assert_eq!(store.facts.len(), 2);
    assert_eq!(store.get_highwatermark(&date.to_string()), 0);

    let mut worker = PartitionWorker::begin(&mut store, date.to_string());
    assert_eq!(store.facts.len(), 0, "stale rows must be purged");
    let fresh = page_with(vec![row(date, 3)], "9");
    assert_eq!(worker.handle_page(&mut store, fresh).unwrap(), PageStep::Advanced);

    assert_eq!(store.facts.len(), 1);
    assert_eq!(store.facts[0].partnerid, 3);
}

#[test]
fn reset_spares_other_partitions() {
    let mut store = Store::new();
    store.insert_sale_detail(page_with(vec![row("2024-02-28", 1)], "3"));
    store.insert_sale_date("2024-02-28".to_string(), 3);

    let _ = PartitionWorker::begin(&mut store, "2024-03-01".to_string());
    assert_eq!(store.facts.len(), 1);
    assert_eq!(store.facts[0].date, "2024-02-28");
}

#[test]
fn resumed_partition_is_not_purged() {
    let date = "2024-03-01";
    let mut store = Store::new();
    store.insert_sale_detail(page_with(vec![row(date, 1)], "5"));
    store.insert_sale_date(date.to_string(), 5);

    let worker = PartitionWorker::begin(&mut store, date.to_string());
    assert_eq!(worker.watermark, 5);
    assert_eq!(store.facts.len(), 1, "a resumed partition keeps its rows");
}

#[test]
fn unparsable_page_watermark_aborts_partition() {
    let date = "2024-03-01";
    let mut store = Store::new();
    let mut worker = PartitionWorker::begin(&mut store, date.to_string());
    let bad = page_with(vec![row(date, 1)], "not-a-number");
    let err = worker.handle_page(&mut store, bad).unwrap_err();
    assert_eq!(err.class(), ErrClass::BadFormatting);
    assert_eq!(store.facts.len(), 0, "a failed page commits nothing");
    assert_eq!(worker.collected.len(), 0);
}
