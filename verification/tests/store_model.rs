use steamboard::records::{
    CPartnerFinancialsAppInfo, CPartnerFinancialsCountryInfo,
    CPartnerFinancialsDetailedSalesResult, CPartnerFinancialsPackageInfo,
    CPartnerFinancialsPartnerInfo, DetailedSales, Settings,
};
use steamboard::store::{get_settings, save_settings, Store};

fn row(date: &str, partnerid: i32) -> CPartnerFinancialsDetailedSalesResult {
    CPartnerFinancialsDetailedSalesResult {
        partnerid,
        date: date.to_string(),
        ..Default::default()
    }
}

fn page_with(
    rows: Vec<CPartnerFinancialsDetailedSalesResult>,
    max_id: &str,
) -> DetailedSales {
    DetailedSales {
        results: Some(rows),
        max_id: max_id.to_string(),
        ..Default::default()
    }
}

#[test]
fn upsert_updates_entity_in_place() {
    let mut store = Store::new();
    let mut page = page_with(vec![], "1");
    page.partner_info = Some(vec![
        CPartnerFinancialsPartnerInfo { partnerid: 7, partner_name: Some("Old name".into()) },
        CPartnerFinancialsPartnerInfo { partnerid: 8, partner_name: Some("Other".into()) },
    ]);
    store.insert_sale_detail(page);

    let mut page2 = page_with(vec![], "2");
    page2.partner_info = Some(vec![CPartnerFinancialsPartnerInfo {
        partnerid: 7,
        partner_name: Some("New name".into()),
    }]);
    store.insert_sale_detail(page2);

    assert_eq!(store.partners.len(), 2);
    assert_eq!(store.partners[0].partnerid, 7);
    assert_eq!(store.partners[0].partner_name.as_deref(), Some("New name"));
    assert_eq!(store.partners[1].partnerid, 8);
}

#[test]
fn page_enrichment_resolves_names_from_page_lists() {
    let mut store = Store::new();
    let mut fact = row("2024-03-01", 7);
    fact.packageid = Some(42);
    fact.country_code = Some("FR".into());
    let mut page = page_with(vec![fact], "5");
    page.partner_info = Some(vec![CPartnerFinancialsPartnerInfo {
        partnerid: 7,
        partner_name: Some("Studio".into()),
    }]);
    page.package_info = Some(vec![CPartnerFinancialsPackageInfo {
        packageid: 42,
        package_name: Some("Deluxe".into()),
    }]);
    page.country_info = Some(vec![CPartnerFinancialsCountryInfo {
        country_code: Some("FR".into()),
        country_name: Some("France".into()),
        region: Some("Europe".into()),
    }]);
    let enriched = store.insert_sale_detail(page);
    assert_eq!(enriched.len(), 1);
    assert_eq!(enriched[0].partner_name.as_deref(), Some("Studio"));
    assert_eq!(enriched[0].package_name.as_deref(), Some("Deluxe"));
    assert_eq!(enriched[0].country_name.as_deref(), Some("France"));
    assert_eq!(enriched[0].region.as_deref(), Some("Europe"));
    // Fields with no matching entity stay unresolved.
    assert_eq!(enriched[0].bundle_name, None);
}

#[test]
fn page_enrichment_looks_up_absent_id_as_zero() {
    // The insert-time join treats an absent package id as id 0.
    let mut store = Store::new();
    let fact = row("2024-03-01", 1);
    let mut page = page_with(vec![fact], "5");
    page.package_info = Some(vec![CPartnerFinancialsPackageInfo {
        packageid: 0,
        package_name: Some("Zero package".into()),
    }]);
    let enriched = store.insert_sale_detail(page);
    assert_eq!(enriched[0].package_name.as_deref(), Some("Zero package"));
}

#[test]
fn query_join_skips_absent_keys() {
    // The read-back join follows relational semantics: an absent key joins
    // nothing, even when an entity with id 0 exists.
    let mut store = Store::new();
    let fact = row("2024-03-01", 1);
    let mut page = page_with(vec![fact], "5");
    page.package_info = Some(vec![CPartnerFinancialsPackageInfo {
        packageid: 0,
        package_name: Some("Zero package".into()),
    }]);
    page.app_info = Some(vec![CPartnerFinancialsAppInfo {
        appid: 77,
        app_name: Some("Game".into()),
    }]);
    store.insert_sale_detail(page);
    let rows = store.get_sale_details_by_date(None, None);
    assert_eq!(rows.len(), 1);
    assert_eq!(rows[0].package_name, None);
    assert_eq!(rows[0].app_name, None);
}

#[test]
fn query_join_resolves_stored_entities() {
    let mut store = Store::new();
    let mut fact = row("2024-03-02", 9);
    fact.appid = Some(77);
    let mut page = page_with(vec![fact], "5");
    page.partner_info = Some(vec![CPartnerFinancialsPartnerInfo {
        partnerid: 9,
        partner_name: Some("Studio".into()),
    }]);
    page.app_info = Some(vec![CPartnerFinancialsAppInfo {
        appid: 77,
        app_name: Some("Game".into()),
    }]);
    store.insert_sale_detail(page);
    let rows = store.get_sale_details_by_date(None, None);
    assert_eq!(rows[0].partner_name.as_deref(), Some("Studio"));
    assert_eq!(rows[0].app_name.as_deref(), Some("Game"));
}

#[test]
fn date_range_is_inclusive() {
    let mut store = Store::new();
    store.insert_sale_detail(page_with(
        vec![row("2024-03-01", 1), row("2024-03-02", 1), row("2024-03-03", 1)],
        "5",
    ));
    let rows = store.get_sale_details_by_date(
        Some("2024-03-01".to_string()),
        Some("2024-03-02".to_string()),
    );
    assert_eq!(rows.len(), 2);
    assert_eq!(rows[0].date, "2024-03-01");
    assert_eq!(rows[1].date, "2024-03-02");

    let all = store.get_sale_details_by_date(None, None);
    assert_eq!(all.len(), 3);
}

#[test]
fn watermark_defaults_to_zero_and_upserts() {
    let mut store = Store::new();
    let date = "2024-03-01".to_string();
    assert_eq!(store.get_highwatermark(&date), 0);
    store.insert_sale_date(date.clone(), 100);
    assert_eq!(store.get_highwatermark(&date), 100);
    store.insert_sale_date(date.clone(), 250);
    assert_eq!(store.get_highwatermark(&date), 250);
    assert_eq!(store.watermarks.len(), 1);
}

#[test]
fn purge_removes_only_the_given_date() {
    let mut store = Store::new();
    store.insert_sale_detail(page_with(
        vec![row("2024-03-01", 1), row("2024-03-02", 1), row("2024-03-01", 2)],
        "5",
    ));
    store.delete_sale_detail(&"2024-03-01".to_string());
    assert_eq!(store.facts.len(), 1);
    assert_eq!(store.facts[0].date, "2024-03-02");
}

#[test]
fn settings_round_trip_through_encryption() {
    let settings = Settings {
        id: 0,
        steam_api_key: Some("the-api-key".to_string()),
        poll_interval: Some(600),
        highwatermark: Some("42".to_string()),
    };
    let stored = save_settings(&settings, "passphrase").unwrap();
    // The stored credential is a three-field token, not the plaintext.
    let enc = stored.steam_api_key.clone().unwrap();
    assert_ne!(enc, "the-api-key");
    assert_eq!(enc.split(',').count(), 3);

    let loaded = get_settings(stored, "passphrase").unwrap();
    assert_eq!(loaded.steam_api_key.as_deref(), Some("the-api-key"));
    assert_eq!(loaded.poll_interval, Some(600));
    assert_eq!(loaded.highwatermark.as_deref(), Some("42"));
}

#[test]
fn settings_save_requires_passphrase() {
    let settings = Settings {
        id: 0,
        steam_api_key: Some("key".to_string()),
        poll_interval: None,
        highwatermark: None,
    };
    let err = save_settings(&settings, "").unwrap_err();
    assert_eq!(err.class(), steamboard::errors::ErrClass::Missing);
}

#[test]
fn settings_absent_credential_loads_as_empty() {
    let row = Settings { id: 0, steam_api_key: None, poll_interval: Some(60), highwatermark: None };
    let loaded = get_settings(row, "pw").unwrap();
    assert_eq!(loaded.steam_api_key.as_deref(), Some(""));
}
