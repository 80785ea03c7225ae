//! The in-memory model of the relational store: the settings row, the nine
//! keyed reference tables, the append-only fact table, and the per-partition
//! watermarks.

use vstd::prelude::*;

use crate::enrich::{enriched_row, joined_row, join_row, enrich_row};
use crate::errors::{ErrClass, ErrorType};
use crate::lookup::{
    first_index_where, first_match, key_pred, lemma_first_index_where_at,
    lemma_first_index_where_equiv, lemma_first_index_where_props, lemma_filter_push,
    lemma_upsert_keeps_unique, lemma_upsert_then_find, lemma_upserted_all_keeps_unique,
    lemma_upserted_all_step, unique_keys, upserted_all, upserted_by_key,
};
use crate::records::{
    clone_opt_string, listed, opt_str_eq, CPartnerFinancialsAppInfo,
    CPartnerFinancialsBundleInfo, CPartnerFinancialsCombinedDiscountInfo,
    CPartnerFinancialsCountryInfo, CPartnerFinancialsDetailedSalesResult,
    CPartnerFinancialsDiscountInfo, CPartnerFinancialsGameItemInfo,
    CPartnerFinancialsKeyRequestInfo, CPartnerFinancialsPackageInfo,
    CPartnerFinancialsPartnerInfo, DetailedSales, Settings, app_key, bundle_key,
    combined_discount_key, country_key, discount_key, game_item_key, key_request_key,
    package_key, partner_key,
};
use crate::vault::decrypt_result;

verus! {

use vstd::pervasive::VecAdditionalExecFns;
use vstd::string::StrSliceExecFns;
use vstd::utf8::encode_utf8;

/// The stored watermark of one partition: how far the partition's records
/// have already been persisted.
#[derive(Debug)]
pub struct PartitionWatermark {
    pub date: String,
    pub highwatermark_id: i64,
}

/// The natural key of a partition watermark: its partition date.
pub open spec fn watermark_key() -> spec_fn(PartitionWatermark) -> Seq<char> {
    |w: PartitionWatermark| w.date@
}

/// Whether a watermark row belongs to the given partition date.
pub open spec fn watermark_with_date(d: Seq<char>) -> spec_fn(PartitionWatermark) -> bool {
    |w: PartitionWatermark| w.date@ == d
}

/// The in-memory model of the relational store.
#[derive(Debug)]
pub struct Store {
    pub settings: Settings,
    pub key_requests: Vec<CPartnerFinancialsKeyRequestInfo>,
    pub packages: Vec<CPartnerFinancialsPackageInfo>,
    pub apps: Vec<CPartnerFinancialsAppInfo>,
    pub bundles: Vec<CPartnerFinancialsBundleInfo>,
    pub discounts: Vec<CPartnerFinancialsDiscountInfo>,
    pub combined_discounts: Vec<CPartnerFinancialsCombinedDiscountInfo>,
    pub game_items: Vec<CPartnerFinancialsGameItemInfo>,
    pub countries: Vec<CPartnerFinancialsCountryInfo>,
    pub partners: Vec<CPartnerFinancialsPartnerInfo>,
    pub facts: Vec<CPartnerFinancialsDetailedSalesResult>,
    pub watermarks: Vec<PartitionWatermark>,
}

impl Store {
    /// Every keyed table holds pairwise-distinct keys, as the relational
    /// store's primary keys enforce.
    pub open spec fn wf(&self) -> bool {
        &&& unique_keys(self.key_requests@, key_request_key())
        &&& unique_keys(self.packages@, package_key())
        &&& unique_keys(self.apps@, app_key())
        &&& unique_keys(self.bundles@, bundle_key())
        &&& unique_keys(self.discounts@, discount_key())
        &&& unique_keys(self.combined_discounts@, combined_discount_key())
        &&& unique_keys(self.game_items@, game_item_key())
        &&& unique_keys(self.countries@, country_key())
        &&& unique_keys(self.partners@, partner_key())
        &&& unique_keys(self.watermarks@, watermark_key())
    }

    /// An empty store around the single blank settings row the schema
    /// starts with.
    pub fn new() -> (r: Store)
        ensures
            r.wf(),
            r.settings.id == 0,
            r.settings.steam_api_key is None,
            r.settings.poll_interval is None,
            r.settings.highwatermark is None,
            r.key_requests@.len() == 0,
            r.packages@.len() == 0,
            r.apps@.len() == 0,
            r.bundles@.len() == 0,
            r.discounts@.len() == 0,
            r.combined_discounts@.len() == 0,
            r.game_items@.len() == 0,
            r.countries@.len() == 0,
            r.partners@.len() == 0,
            r.facts@.len() == 0,
            r.watermarks@.len() == 0,
    {
        Store {
            settings: Settings { id: 0, steam_api_key: None, poll_interval: None, highwatermark: None },
            key_requests: Vec::new(),
            packages: Vec::new(),
            apps: Vec::new(),
            bundles: Vec::new(),
            discounts: Vec::new(),
            combined_discounts: Vec::new(),
            game_items: Vec::new(),
            countries: Vec::new(),
            partners: Vec::new(),
            facts: Vec::new(),
            watermarks: Vec::new(),
        }
    }

    /// Whether a credential has ever been saved in the settings row.
    pub fn has_settings(&self) -> (r: bool)
        ensures
            r == (self.settings.steam_api_key is Some),
    {
        self.settings.steam_api_key.is_some()
    }
}


/// Insert-or-update one key_request entity by its key.
fn upsert_key_request(table: &mut Vec<CPartnerFinancialsKeyRequestInfo>, e: CPartnerFinancialsKeyRequestInfo)
    ensures
        final(table)@ == upserted_by_key(old(table)@, e, key_request_key()),
{
    let ghost p = key_pred(key_request_key(), key_request_key()(e));
    let mut j: usize = 0;
    while j < table.len()
        invariant
            p == key_pred(key_request_key(), key_request_key()(e)),
            table@ == old(table)@,
            j <= table@.len(),
            forall|m: int| 0 <= m < j ==> !#[trigger] p(table@[m]),
        decreases table@.len() - j,
    {
        if table[j].key_request_id == e.key_request_id {
            proof {
                assert(p(table@[j as int]));
                lemma_first_index_where_at(table@, p, j as int);
            }
            table.set(j, e);
            return;
        }
        proof {
            assert(!p(table@[j as int]));
        }
        j += 1;
    }
    proof {
        lemma_first_index_where_props(table@, p);
    }
    table.push(e);
}

/// Insert-or-update every key_request entity of a page, in page order.
fn upsert_key_request_list(table: &mut Vec<CPartnerFinancialsKeyRequestInfo>, items: Vec<CPartnerFinancialsKeyRequestInfo>)
    ensures
        final(table)@ == upserted_all(old(table)@, items@, key_request_key()),
{
    let ghost gitems = items@;
    let total: usize = items.len();
    let mut items = items;
    let mut k: usize = 0;
    while items.len() > 0
        invariant
            gitems.len() == total,
            k + items@.len() == gitems.len(),
            items@ =~= gitems.skip(k as int),
            table@ == upserted_all(old(table)@, gitems.take(k as int), key_request_key()),
        decreases items@.len(),
    {
        let e = items.remove(0);
        proof {
            assert(e == gitems[k as int]);
        }
        upsert_key_request(table, e);
        proof {
            lemma_upserted_all_step(old(table)@, gitems, k as int, key_request_key());
            assert(items@ =~= gitems.skip(k + 1 as int));
        }
        k += 1;
    }
    proof {
        assert(gitems.take(gitems.len() as int) =~= gitems);
        assert(items@.len() == 0);
    }
}


/// Insert-or-update one package entity by its key.
fn upsert_package(table: &mut Vec<CPartnerFinancialsPackageInfo>, e: CPartnerFinancialsPackageInfo)
    ensures
        final(table)@ == upserted_by_key(old(table)@, e, package_key()),
{
    let ghost p = key_pred(package_key(), package_key()(e));
    let mut j: usize = 0;
    while j < table.len()
        invariant
            p == key_pred(package_key(), package_key()(e)),
            table@ == old(table)@,
            j <= table@.len(),
            forall|m: int| 0 <= m < j ==> !#[trigger] p(table@[m]),
        decreases table@.len() - j,
    {
        if table[j].packageid == e.packageid {
            proof {
                assert(p(table@[j as int]));
                lemma_first_index_where_at(table@, p, j as int);
            }
            table.set(j, e);
            return;
        }
        proof {
            assert(!p(table@[j as int]));
        }
        j += 1;
    }
    proof {
        lemma_first_index_where_props(table@, p);
    }
    table.push(e);
}

/// Insert-or-update every package entity of a page, in page order.
fn upsert_package_list(table: &mut Vec<CPartnerFinancialsPackageInfo>, items: Vec<CPartnerFinancialsPackageInfo>)
    ensures
        final(table)@ == upserted_all(old(table)@, items@, package_key()),
{
    let ghost gitems = items@;
    let total: usize = items.len();
    let mut items = items;
    let mut k: usize = 0;
    while items.len() > 0
        invariant
            gitems.len() == total,
            k + items@.len() == gitems.len(),
            items@ =~= gitems.skip(k as int),
            table@ == upserted_all(old(table)@, gitems.take(k as int), package_key()),
        decreases items@.len(),
    {
        let e = items.remove(0);
        proof {
            assert(e == gitems[k as int]);
        }
        upsert_package(table, e);
        proof {
            lemma_upserted_all_step(old(table)@, gitems, k as int, package_key());
            assert(items@ =~= gitems.skip(k + 1 as int));
        }
        k += 1;
    }
    proof {
        assert(gitems.take(gitems.len() as int) =~= gitems);
        assert(items@.len() == 0);
    }
}


/// Insert-or-update one app entity by its key.
fn upsert_app(table: &mut Vec<CPartnerFinancialsAppInfo>, e: CPartnerFinancialsAppInfo)
    ensures
        final(table)@ == upserted_by_key(old(table)@, e, app_key()),
{
    let ghost p = key_pred(app_key(), app_key()(e));
    let mut j: usize = 0;
    while j < table.len()
        invariant
            p == key_pred(app_key(), app_key()(e)),
            table@ == old(table)@,
            j <= table@.len(),
            forall|m: int| 0 <= m < j ==> !#[trigger] p(table@[m]),
        decreases table@.len() - j,
    {
        if table[j].appid == e.appid {
            proof {
                assert(p(table@[j as int]));
                lemma_first_index_where_at(table@, p, j as int);
            }
            table.set(j, e);
            return;
        }
        proof {
            assert(!p(table@[j as int]));
        }
        j += 1;
    }
    proof {
        lemma_first_index_where_props(table@, p);
    }
    table.push(e);
}

/// Insert-or-update every app entity of a page, in page order.
fn upsert_app_list(table: &mut Vec<CPartnerFinancialsAppInfo>, items: Vec<CPartnerFinancialsAppInfo>)
    ensures
        final(table)@ == upserted_all(old(table)@, items@, app_key()),
{
    let ghost gitems = items@;
    let total: usize = items.len();
    let mut items = items;
    let mut k: usize = 0;
    while items.len() > 0
        invariant
            gitems.len() == total,
            k + items@.len() == gitems.len(),
            items@ =~= gitems.skip(k as int),
            table@ == upserted_all(old(table)@, gitems.take(k as int), app_key()),
        decreases items@.len(),
    {
        let e = items.remove(0);
        proof {
            assert(e == gitems[k as int]);
        }
        upsert_app(table, e);
        proof {
            lemma_upserted_all_step(old(table)@, gitems, k as int, app_key());
            assert(items@ =~= gitems.skip(k + 1 as int));
        }
        k += 1;
    }
    proof {
        assert(gitems.take(gitems.len() as int) =~= gitems);
        assert(items@.len() == 0);
    }
}


/// Insert-or-update one bundle entity by its key.
fn upsert_bundle(table: &mut Vec<CPartnerFinancialsBundleInfo>, e: CPartnerFinancialsBundleInfo)
    ensures
        final(table)@ == upserted_by_key(old(table)@, e, bundle_key()),
{
    let ghost p = key_pred(bundle_key(), bundle_key()(e));
    let mut j: usize = 0;
    while j < table.len()
        invariant
            p == key_pred(bundle_key(), bundle_key()(e)),
            table@ == old(table)@,
            j <= table@.len(),
            forall|m: int| 0 <= m < j ==> !#[trigger] p(table@[m]),
        decreases table@.len() - j,
    {
        if table[j].bundleid == e.bundleid {
            proof {
                assert(p(table@[j as int]));
                lemma_first_index_where_at(table@, p, j as int);
            }
            table.set(j, e);
            return;
        }
        proof {
            assert(!p(table@[j as int]));
        }
        j += 1;
    }
    proof {
        lemma_first_index_where_props(table@, p);
    }
    table.push(e);
}

/// Insert-or-update every bundle entity of a page, in page order.
fn upsert_bundle_list(table: &mut Vec<CPartnerFinancialsBundleInfo>, items: Vec<CPartnerFinancialsBundleInfo>)
    ensures
        final(table)@ == upserted_all(old(table)@, items@, bundle_key()),
{
    let ghost gitems = items@;
    let total: usize = items.len();
    let mut items = items;
    let mut k: usize = 0;
    while items.len() > 0
        invariant
            gitems.len() == total,
            k + items@.len() == gitems.len(),
            items@ =~= gitems.skip(k as int),
            table@ == upserted_all(old(table)@, gitems.take(k as int), bundle_key()),
        decreases items@.len(),
    {
        let e = items.remove(0);
        proof {
            assert(e == gitems[k as int]);
        }
        upsert_bundle(table, e);
        proof {
            lemma_upserted_all_step(old(table)@, gitems, k as int, bundle_key());
            assert(items@ =~= gitems.skip(k + 1 as int));
        }
        k += 1;
    }
    proof {
        assert(gitems.take(gitems.len() as int) =~= gitems);
        assert(items@.len() == 0);
    }
}


/// Insert-or-update one discount entity by its key.
fn upsert_discount(table: &mut Vec<CPartnerFinancialsDiscountInfo>, e: CPartnerFinancialsDiscountInfo)
    ensures
        final(table)@ == upserted_by_key(old(table)@, e, discount_key()),
{
    let ghost p = key_pred(discount_key(), discount_key()(e));
    let mut j: usize = 0;
    while j < table.len()
        invariant
            p == key_pred(discount_key(), discount_key()(e)),
            table@ == old(table)@,
            j <= table@.len(),
            forall|m: int| 0 <= m < j ==> !#[trigger] p(table@[m]),
        decreases table@.len() - j,
    {
        if table[j].discountid == e.discountid {
            proof {
                assert(p(table@[j as int]));
                lemma_first_index_where_at(table@, p, j as int);
            }
            table.set(j, e);
            return;
        }
        proof {
            assert(!p(table@[j as int]));
        }
        j += 1;
    }
    proof {
        lemma_first_index_where_props(table@, p);
    }
    table.push(e);
}

/// Insert-or-update every discount entity of a page, in page order.
fn upsert_discount_list(table: &mut Vec<CPartnerFinancialsDiscountInfo>, items: Vec<CPartnerFinancialsDiscountInfo>)
    ensures
        final(table)@ == upserted_all(old(table)@, items@, discount_key()),
{
    let ghost gitems = items@;
    let total: usize = items.len();
    let mut items = items;
    let mut k: usize = 0;
    while items.len() > 0
        invariant
            gitems.len() == total,
            k + items@.len() == gitems.len(),
            items@ =~= gitems.skip(k as int),
            table@ == upserted_all(old(table)@, gitems.take(k as int), discount_key()),
        decreases items@.len(),
    {
        let e = items.remove(0);
        proof {
            assert(e == gitems[k as int]);
        }
        upsert_discount(table, e);
        proof {
            lemma_upserted_all_step(old(table)@, gitems, k as int, discount_key());
            assert(items@ =~= gitems.skip(k + 1 as int));
        }
        k += 1;
    }
    proof {
        assert(gitems.take(gitems.len() as int) =~= gitems);
        assert(items@.len() == 0);
    }
}


/// Insert-or-update one combined_discount entity by its key.
fn upsert_combined_discount(table: &mut Vec<CPartnerFinancialsCombinedDiscountInfo>, e: CPartnerFinancialsCombinedDiscountInfo)
    ensures
        final(table)@ == upserted_by_key(old(table)@, e, combined_discount_key()),
{
    let ghost p = key_pred(combined_discount_key(), combined_discount_key()(e));
    let mut j: usize = 0;
    while j < table.len()
        invariant
            p == key_pred(combined_discount_key(), combined_discount_key()(e)),
            table@ == old(table)@,
            j <= table@.len(),
            forall|m: int| 0 <= m < j ==> !#[trigger] p(table@[m]),
        decreases table@.len() - j,
    {
        if table[j].combined_discount_id == e.combined_discount_id {
            proof {
                assert(p(table@[j as int]));
                lemma_first_index_where_at(table@, p, j as int);
            }
            table.set(j, e);
            return;
        }
        proof {
            assert(!p(table@[j as int]));
        }
        j += 1;
    }
    proof {
        lemma_first_index_where_props(table@, p);
    }
    table.push(e);
}

/// Insert-or-update every combined_discount entity of a page, in page order.
fn upsert_combined_discount_list(table: &mut Vec<CPartnerFinancialsCombinedDiscountInfo>, items: Vec<CPartnerFinancialsCombinedDiscountInfo>)
    ensures
        final(table)@ == upserted_all(old(table)@, items@, combined_discount_key()),
{
    let ghost gitems = items@;
    let total: usize = items.len();
    let mut items = items;
    let mut k: usize = 0;
    while items.len() > 0
        invariant
            gitems.len() == total,
            k + items@.len() == gitems.len(),
            items@ =~= gitems.skip(k as int),
            table@ == upserted_all(old(table)@, gitems.take(k as int), combined_discount_key()),
        decreases items@.len(),
    {
        let e = items.remove(0);
        proof {
            assert(e == gitems[k as int]);
        }
        upsert_combined_discount(table, e);
        proof {
            lemma_upserted_all_step(old(table)@, gitems, k as int, combined_discount_key());
            assert(items@ =~= gitems.skip(k + 1 as int));
        }
        k += 1;
    }
    proof {
        assert(gitems.take(gitems.len() as int) =~= gitems);
        assert(items@.len() == 0);
    }
}


/// Insert-or-update one game_item entity by its key.
fn upsert_game_item(table: &mut Vec<CPartnerFinancialsGameItemInfo>, e: CPartnerFinancialsGameItemInfo)
    ensures
        final(table)@ == upserted_by_key(old(table)@, e, game_item_key()),
{
    let ghost p = key_pred(game_item_key(), game_item_key()(e));
    let mut j: usize = 0;
    while j < table.len()
        invariant
            p == key_pred(game_item_key(), game_item_key()(e)),
            table@ == old(table)@,
            j <= table@.len(),
            forall|m: int| 0 <= m < j ==> !#[trigger] p(table@[m]),
        decreases table@.len() - j,
    {
        if table[j].appid == e.appid {
            proof {
                assert(p(table@[j as int]));
                lemma_first_index_where_at(table@, p, j as int);
            }
            table.set(j, e);
            return;
        }
        proof {
            assert(!p(table@[j as int]));
        }
        j += 1;
    }
    proof {
        lemma_first_index_where_props(table@, p);
    }
    table.push(e);
}

/// Insert-or-update every game_item entity of a page, in page order.
fn upsert_game_item_list(table: &mut Vec<CPartnerFinancialsGameItemInfo>, items: Vec<CPartnerFinancialsGameItemInfo>)
    ensures
        final(table)@ == upserted_all(old(table)@, items@, game_item_key()),
{
    let ghost gitems = items@;
    let total: usize = items.len();
    let mut items = items;
    let mut k: usize = 0;
    while items.len() > 0
        invariant
            gitems.len() == total,
            k + items@.len() == gitems.len(),
            items@ =~= gitems.skip(k as int),
            table@ == upserted_all(old(table)@, gitems.take(k as int), game_item_key()),
        decreases items@.len(),
    {
        let e = items.remove(0);
        proof {
            assert(e == gitems[k as int]);
        }
        upsert_game_item(table, e);
        proof {
            lemma_upserted_all_step(old(table)@, gitems, k as int, game_item_key());
            assert(items@ =~= gitems.skip(k + 1 as int));
        }
        k += 1;
    }
    proof {
        assert(gitems.take(gitems.len() as int) =~= gitems);
        assert(items@.len() == 0);
    }
}


/// Insert-or-update one country entity by its key.
fn upsert_country(table: &mut Vec<CPartnerFinancialsCountryInfo>, e: CPartnerFinancialsCountryInfo)
    ensures
        final(table)@ == upserted_by_key(old(table)@, e, country_key()),
{
    let ghost p = key_pred(country_key(), country_key()(e));
    let mut j: usize = 0;
    while j < table.len()
        invariant
            p == key_pred(country_key(), country_key()(e)),
            table@ == old(table)@,
            j <= table@.len(),
            forall|m: int| 0 <= m < j ==> !#[trigger] p(table@[m]),
        decreases table@.len() - j,
    {
        if opt_str_eq(&table[j].country_code, &e.country_code) {
            proof {
                assert(p(table@[j as int]));
                lemma_first_index_where_at(table@, p, j as int);
            }
            table.set(j, e);
            return;
        }
        proof {
            assert(!p(table@[j as int]));
        }
        j += 1;
    }
    proof {
        lemma_first_index_where_props(table@, p);
    }
    table.push(e);
}

/// Insert-or-update every country entity of a page, in page order.
fn upsert_country_list(table: &mut Vec<CPartnerFinancialsCountryInfo>, items: Vec<CPartnerFinancialsCountryInfo>)
    ensures
        final(table)@ == upserted_all(old(table)@, items@, country_key()),
{
    let ghost gitems = items@;
    let total: usize = items.len();
    let mut items = items;
    let mut k: usize = 0;
    while items.len() > 0
        invariant
            gitems.len() == total,
            k + items@.len() == gitems.len(),
            items@ =~= gitems.skip(k as int),
            table@ == upserted_all(old(table)@, gitems.take(k as int), country_key()),
        decreases items@.len(),
    {
        let e = items.remove(0);
        proof {
            assert(e == gitems[k as int]);
        }
        upsert_country(table, e);
        proof {
            lemma_upserted_all_step(old(table)@, gitems, k as int, country_key());
            assert(items@ =~= gitems.skip(k + 1 as int));
        }
        k += 1;
    }
    proof {
        assert(gitems.take(gitems.len() as int) =~= gitems);
        assert(items@.len() == 0);
    }
}


/// Insert-or-update one partner entity by its key.
fn upsert_partner(table: &mut Vec<CPartnerFinancialsPartnerInfo>, e: CPartnerFinancialsPartnerInfo)
    ensures
        final(table)@ == upserted_by_key(old(table)@, e, partner_key()),
{
    let ghost p = key_pred(partner_key(), partner_key()(e));
    let mut j: usize = 0;
    while j < table.len()
        invariant
            p == key_pred(partner_key(), partner_key()(e)),
            table@ == old(table)@,
            j <= table@.len(),
            forall|m: int| 0 <= m < j ==> !#[trigger] p(table@[m]),
        decreases table@.len() - j,
    {
        if table[j].partnerid == e.partnerid {
            proof {
                assert(p(table@[j as int]));
                lemma_first_index_where_at(table@, p, j as int);
            }
            table.set(j, e);
            return;
        }
        proof {
            assert(!p(table@[j as int]));
        }
        j += 1;
    }
    proof {
        lemma_first_index_where_props(table@, p);
    }
    table.push(e);
}

/// Insert-or-update every partner entity of a page, in page order.
fn upsert_partner_list(table: &mut Vec<CPartnerFinancialsPartnerInfo>, items: Vec<CPartnerFinancialsPartnerInfo>)
    ensures
        final(table)@ == upserted_all(old(table)@, items@, partner_key()),
{
    let ghost gitems = items@;
    let total: usize = items.len();
    let mut items = items;
    let mut k: usize = 0;
    while items.len() > 0
        invariant
            gitems.len() == total,
            k + items@.len() == gitems.len(),
            items@ =~= gitems.skip(k as int),
            table@ == upserted_all(old(table)@, gitems.take(k as int), partner_key()),
        decreases items@.len(),
    {
        let e = items.remove(0);
        proof {
            assert(e == gitems[k as int]);
        }
        upsert_partner(table, e);
        proof {
            lemma_upserted_all_step(old(table)@, gitems, k as int, partner_key());
            assert(items@ =~= gitems.skip(k + 1 as int));
        }
        k += 1;
    }
    proof {
        assert(gitems.take(gitems.len() as int) =~= gitems);
        assert(items@.len() == 0);
    }
}


/// Insert-or-update one partition watermark by its date.
fn upsert_watermark(table: &mut Vec<PartitionWatermark>, e: PartitionWatermark)
    ensures
        final(table)@ == upserted_by_key(old(table)@, e, watermark_key()),
{
    let ghost p = key_pred(watermark_key(), watermark_key()(e));
    let mut j: usize = 0;
    while j < table.len()
        invariant
            p == key_pred(watermark_key(), watermark_key()(e)),
            table@ == old(table)@,
            j <= table@.len(),
            forall|m: int| 0 <= m < j ==> !#[trigger] p(table@[m]),
        decreases table@.len() - j,
    {
        if table[j].date.eq(&e.date) {
            proof {
                assert(p(table@[j as int]));
                lemma_first_index_where_at(table@, p, j as int);
            }
            table.set(j, e);
            return;
        }
        proof {
            assert(!p(table@[j as int]));
        }
        j += 1;
    }
    proof {
        lemma_first_index_where_props(table@, p);
    }
    table.push(e);
}

/// The page's fact rows enriched from its own reference lists, in order.
pub open spec fn enriched_page_rows(page: DetailedSales) -> Seq<
    CPartnerFinancialsDetailedSalesResult,
> {
    listed(page.results).map_values(
        |r: CPartnerFinancialsDetailedSalesResult| enriched_row(
            r,
            listed(page.key_request_info),
            listed(page.package_info),
            listed(page.app_info),
            listed(page.bundle_info),
            listed(page.combined_discount_info),
            listed(page.game_item_info),
            listed(page.country_info),
            listed(page.partner_info),
        ),
    )
}

/// How applying one page transforms the reference tables and the fact
/// table: every republished entity upserted in page order, every fact row
/// appended.
pub open spec fn applies_page_tables(pre: Store, page: DetailedSales, post: Store) -> bool {
    &&& post.key_requests@ == upserted_all(
        pre.key_requests@,
        listed(page.key_request_info),
        key_request_key(),
    )
    &&& post.packages@ == upserted_all(pre.packages@, listed(page.package_info), package_key())
    &&& post.apps@ == upserted_all(pre.apps@, listed(page.app_info), app_key())
    &&& post.bundles@ == upserted_all(pre.bundles@, listed(page.bundle_info), bundle_key())
    &&& post.discounts@ == upserted_all(pre.discounts@, listed(page.discount_info), discount_key())
    &&& post.combined_discounts@ == upserted_all(
        pre.combined_discounts@,
        listed(page.combined_discount_info),
        combined_discount_key(),
    )
    &&& post.game_items@ == upserted_all(
        pre.game_items@,
        listed(page.game_item_info),
        game_item_key(),
    )
    &&& post.countries@ == upserted_all(pre.countries@, listed(page.country_info), country_key())
    &&& post.partners@ == upserted_all(pre.partners@, listed(page.partner_info), partner_key())
    &&& post.facts@ == pre.facts@ + listed(page.results)
}

/// Whether a fact row belongs to the given partition date.
pub open spec fn fact_dated(d: Seq<char>) -> spec_fn(CPartnerFinancialsDetailedSalesResult) -> bool {
    |r: CPartnerFinancialsDetailedSalesResult| r.date@ == d
}

/// Whether a fact row belongs to a partition other than the given date.
pub open spec fn fact_dated_other(d: Seq<char>) -> spec_fn(
    CPartnerFinancialsDetailedSalesResult,
) -> bool {
    |r: CPartnerFinancialsDetailedSalesResult| r.date@ != d
}

/// Lexicographic order on text by character code: the order the relational
/// store gives partition dates in calendar form.
pub open spec fn lex_le(a: Seq<char>, b: Seq<char>) -> bool
    decreases a.len(),
{
    if a.len() == 0 {
        true
    } else if b.len() == 0 {
        false
    } else if (a[0] as u32) < (b[0] as u32) {
        true
    } else if (b[0] as u32) < (a[0] as u32) {
        false
    } else {
        lex_le(a.drop_first(), b.drop_first())
    }
}

/// Decide `lex_le` over two strings.
pub fn str_le(a: &str, b: &str) -> (r: bool)
    ensures
        r == lex_le(a@, b@),
{
    let na = a.unicode_len();
    let nb = b.unicode_len();
    let mut i: usize = 0;
    proof {
        assert(a@.skip(0) =~= a@);
        assert(b@.skip(0) =~= b@);
    }
    while i < na && i < nb
        invariant
            na == a@.len(),
            nb == b@.len(),
            i <= na,
            i <= nb,
            lex_le(a@, b@) == lex_le(a@.skip(i as int), b@.skip(i as int)),
        decreases na - i,
    {
        let ca = a.get_char(i);
        let cb = b.get_char(i);
        proof {
            assert(a@.skip(i as int)[0] == a@[i as int]);
            assert(b@.skip(i as int)[0] == b@[i as int]);
        }
        if (ca as u32) < (cb as u32) {
            return true;
        }
        if (cb as u32) < (ca as u32) {
            return false;
        }
        proof {
            assert(a@.skip(i as int).drop_first() =~= a@.skip(i as int + 1));
            assert(b@.skip(i as int).drop_first() =~= b@.skip(i as int + 1));
        }
        i += 1;
    }
    proof {
        assert(i == na || i == nb);
    }
    if i < nb {
        return true;
    }
    if i < na {
        proof {
            assert(a@.skip(i as int).len() > 0);
            assert(b@.skip(i as int).len() == 0);
        }
        return false;
    }
    true
}

/// The lower bound of a date range, the start of the valid date domain
/// where none is given.
pub open spec fn range_lo(o: Option<String>) -> Seq<char> {
    match o {
        Option::Some(s) => s@,
        Option::None => "1970-01-01"@,
    }
}

/// The upper bound of a date range, the end of the valid date domain where
/// none is given.
pub open spec fn range_hi(o: Option<String>) -> Seq<char> {
    match o {
        Option::Some(s) => s@,
        Option::None => "9999-12-31"@,
    }
}

/// Whether a fact row's date lies within the inclusive range.
pub open spec fn date_between(lo: Seq<char>, hi: Seq<char>) -> spec_fn(
    CPartnerFinancialsDetailedSalesResult,
) -> bool {
    |r: CPartnerFinancialsDetailedSalesResult| lex_le(lo, r.date@) && lex_le(r.date@, hi)
}

impl Store {
    /// The join of one stored row against this store's reference tables.
    pub open spec fn row_join(&self) -> spec_fn(CPartnerFinancialsDetailedSalesResult) -> CPartnerFinancialsDetailedSalesResult {
        |r: CPartnerFinancialsDetailedSalesResult| joined_row(
            r,
            self.key_requests@,
            self.packages@,
            self.apps@,
            self.bundles@,
            self.combined_discounts@,
            self.game_items@,
            self.countries@,
            self.partners@,
        )
    }

    /// What a range query returns: the facts in the inclusive date range,
    /// joined against the reference tables, in insertion order.
    pub open spec fn spec_sales_in_range(&self, lo: Seq<char>, hi: Seq<char>) -> Seq<CPartnerFinancialsDetailedSalesResult> {
        self.facts@.filter(date_between(lo, hi)).map_values(self.row_join())
    }

    /// The stored local watermark of a partition; 0 marks one never seen.
    pub open spec fn spec_highwatermark(&self, d: Seq<char>) -> i64 {
        match first_match(self.watermarks@, watermark_with_date(d)) {
            Option::Some(w) => w.highwatermark_id,
            Option::None => 0,
        }
    }

    /// Read the stored local watermark of a partition, 0 where unseen.
    pub fn get_highwatermark(&self, date: &String) -> (r: i64)
        ensures
            r == self.spec_highwatermark(date@),
    {
        let ghost p = watermark_with_date(date@);
        let mut j: usize = 0;
        while j < self.watermarks.len()
            invariant
                p == watermark_with_date(date@),
                j <= self.watermarks@.len(),
                forall|m: int| 0 <= m < j ==> !#[trigger] p(self.watermarks@[m]),
            decreases self.watermarks@.len() - j,
        {
            if self.watermarks[j].date.eq(date) {
                proof {
                    assert(p(self.watermarks@[j as int]));
                    lemma_first_index_where_at(self.watermarks@, p, j as int);
                }
                return self.watermarks[j].highwatermark_id;
            }
            proof {
                assert(!p(self.watermarks@[j as int]));
            }
            j += 1;
        }
        proof {
            lemma_first_index_where_props(self.watermarks@, p);
        }
        0
    }

    /// Record a partition's local watermark, replacing any earlier value.
    pub fn insert_sale_date(&mut self, date: String, highwatermark_id: i64)
        requires
            old(self).wf(),
        ensures
            final(self).wf(),
            final(self).watermarks@ == upserted_by_key(
                old(self).watermarks@,
                (PartitionWatermark { date: date, highwatermark_id: highwatermark_id }),
                watermark_key(),
            ),
            final(self).settings == old(self).settings,
            final(self).key_requests == old(self).key_requests,
            final(self).packages == old(self).packages,
            final(self).apps == old(self).apps,
            final(self).bundles == old(self).bundles,
            final(self).discounts == old(self).discounts,
            final(self).combined_discounts == old(self).combined_discounts,
            final(self).game_items == old(self).game_items,
            final(self).countries == old(self).countries,
            final(self).partners == old(self).partners,
            final(self).facts == old(self).facts,
    {
        let w = PartitionWatermark { date, highwatermark_id };
        let ghost gw = w;
        upsert_watermark(&mut self.watermarks, w);
        proof {
            lemma_upsert_keeps_unique(
                old(self).watermarks@,
                key_pred(watermark_key(), watermark_key()(gw)),
                gw,
                watermark_key(),
            );
        }
    }

    /// Remove every stored fact row of one partition date: the idempotent
    /// reset that precedes a rebuild from watermark 0.
    pub fn delete_sale_detail(&mut self, date: &String)
        requires
            old(self).wf(),
        ensures
            final(self).wf(),
            final(self).facts@ == old(self).facts@.filter(fact_dated_other(date@)),
            final(self).settings == old(self).settings,
            final(self).key_requests == old(self).key_requests,
            final(self).packages == old(self).packages,
            final(self).apps == old(self).apps,
            final(self).bundles == old(self).bundles,
            final(self).discounts == old(self).discounts,
            final(self).combined_discounts == old(self).combined_discounts,
            final(self).game_items == old(self).game_items,
            final(self).countries == old(self).countries,
            final(self).partners == old(self).partners,
            final(self).watermarks == old(self).watermarks,
    {
        let ghost p = fact_dated_other(date@);
        let mut kept: Vec<CPartnerFinancialsDetailedSalesResult> = Vec::new();
        let mut i: usize = 0;
        while i < self.facts.len()
            invariant
                p == fact_dated_other(date@),
                i <= self.facts@.len(),
                self.facts@ == old(self).facts@,
                kept@ == self.facts@.take(i as int).filter(p),
            decreases self.facts@.len() - i,
        {
            proof {
                assert(self.facts@.take(i + 1) =~= self.facts@.take(i as int).push(
                    self.facts@[i as int],
                ));
                lemma_filter_push(self.facts@.take(i as int), p, self.facts@[i as int]);
            }
            let f = &self.facts[i];
            if !f.date.eq(date) {
                kept.push(f.duplicate());
                proof {
                    assert(p(self.facts@[i as int]));
                    assert(kept@ =~= self.facts@.take(i + 1).filter(p));
                }
            } else {
                proof {
                    assert(!p(self.facts@[i as int]));
                }
            }
            i += 1;
        }
        proof {
            assert(self.facts@.take(self.facts@.len() as int) =~= self.facts@);
        }
        self.facts = kept;
    }

    /// Apply one page: upsert every republished reference entity, append
    /// the page's fact rows, and return those rows enriched from the page's
    /// own reference lists.
    pub fn insert_sale_detail(&mut self, page: DetailedSales) -> (out: Vec<
        CPartnerFinancialsDetailedSalesResult,
    >)
        requires
            old(self).wf(),
        ensures
            final(self).wf(),
            final(self).settings == old(self).settings,
            final(self).watermarks == old(self).watermarks,
            applies_page_tables(*old(self), page, *final(self)),
            out@ == enriched_page_rows(page),
    {
        let ghost gpage = page;
        let DetailedSales {
            results,
            key_request_info,
            package_info,
            app_info,
            bundle_info,
            discount_info,
            combined_discount_info,
            game_item_info,
            country_info,
            partner_info,
            max_id: _,
        } = page;
        let mut rows: Vec<CPartnerFinancialsDetailedSalesResult> = match results {
            Some(v) => v,
            None => Vec::new(),
        };
        proof {
            assert(rows@ =~= listed(gpage.results));
        }
        let mut out: Vec<CPartnerFinancialsDetailedSalesResult> = Vec::new();
        let mut i: usize = 0;
        while i < rows.len()
            invariant
                i <= rows@.len(),
                out@.len() == i,
                forall|m: int|
                    0 <= m < i ==> out@[m] == enriched_row(
                        rows@[m],
                        listed(key_request_info),
                        listed(package_info),
                        listed(app_info),
                        listed(bundle_info),
                        listed(combined_discount_info),
                        listed(game_item_info),
                        listed(country_info),
                        listed(partner_info),
                    ),
            decreases rows@.len() - i,
        {
            let e = enrich_row(
                &rows[i],
                &key_request_info,
                &package_info,
                &app_info,
                &bundle_info,
                &combined_discount_info,
                &game_item_info,
                &country_info,
                &partner_info,
            );
            out.push(e);
            i += 1;
        }
        self.facts.append(&mut rows);
        if let Some(v) = key_request_info {
            upsert_key_request_list(&mut self.key_requests, v);
        }
        if let Some(v) = package_info {
            upsert_package_list(&mut self.packages, v);
        }
        if let Some(v) = app_info {
            upsert_app_list(&mut self.apps, v);
        }
        if let Some(v) = bundle_info {
            upsert_bundle_list(&mut self.bundles, v);
        }
        if let Some(v) = discount_info {
            upsert_discount_list(&mut self.discounts, v);
        }
        if let Some(v) = combined_discount_info {
            upsert_combined_discount_list(&mut self.combined_discounts, v);
        }
        if let Some(v) = game_item_info {
            upsert_game_item_list(&mut self.game_items, v);
        }
        if let Some(v) = country_info {
            upsert_country_list(&mut self.countries, v);
        }
        if let Some(v) = partner_info {
            upsert_partner_list(&mut self.partners, v);
        }
        proof {
            lemma_upserted_all_keeps_unique(
                old(self).key_requests@,
                listed(gpage.key_request_info),
                key_request_key(),
            );
            lemma_upserted_all_keeps_unique(
                old(self).packages@,
                listed(gpage.package_info),
                package_key(),
            );
            lemma_upserted_all_keeps_unique(old(self).apps@, listed(gpage.app_info), app_key());
            lemma_upserted_all_keeps_unique(
                old(self).bundles@,
                listed(gpage.bundle_info),
                bundle_key(),
            );
            lemma_upserted_all_keeps_unique(
                old(self).discounts@,
                listed(gpage.discount_info),
                discount_key(),
            );
            lemma_upserted_all_keeps_unique(
                old(self).combined_discounts@,
                listed(gpage.combined_discount_info),
                combined_discount_key(),
            );
            lemma_upserted_all_keeps_unique(
                old(self).game_items@,
                listed(gpage.game_item_info),
                game_item_key(),
            );
            lemma_upserted_all_keeps_unique(
                old(self).countries@,
                listed(gpage.country_info),
                country_key(),
            );
            lemma_upserted_all_keeps_unique(
                old(self).partners@,
                listed(gpage.partner_info),
                partner_key(),
            );
            assert(out@ =~= enriched_page_rows(gpage));
        }
        out
    }

    /// All stored facts in the inclusive date range, enriched by the
    /// relational join; an absent bound defaults to the edge of the valid
    /// date domain.
    pub fn get_sale_details_by_date(&self, from_date: Option<String>, to_date: Option<String>)
        -> (r: Vec<CPartnerFinancialsDetailedSalesResult>)
        ensures
            r@ == self.spec_sales_in_range(range_lo(from_date), range_hi(to_date)),
    {
        let lo: String = match from_date {
            Some(s) => s,
            None => String::from_str("1970-01-01"),
        };
        let hi: String = match to_date {
            Some(s) => s,
            None => String::from_str("9999-12-31"),
        };
        let ghost p = date_between(lo@, hi@);
        let ghost f = self.row_join();
        let mut out: Vec<CPartnerFinancialsDetailedSalesResult> = Vec::new();
        let mut i: usize = 0;
        while i < self.facts.len()
            invariant
                p == date_between(lo@, hi@),
                f == self.row_join(),
                i <= self.facts@.len(),
                out@ == self.facts@.take(i as int).filter(p).map_values(f),
            decreases self.facts@.len() - i,
        {
            proof {
                assert(self.facts@.take(i + 1) =~= self.facts@.take(i as int).push(
                    self.facts@[i as int],
                ));
                lemma_filter_push(self.facts@.take(i as int), p, self.facts@[i as int]);
            }
            let row = &self.facts[i];
            let keep = str_le(lo.as_str(), row.date.as_str()) && str_le(
                row.date.as_str(),
                hi.as_str(),
            );
            if keep {
                let e = join_row(
                    row,
                    &self.key_requests,
                    &self.packages,
                    &self.apps,
                    &self.bundles,
                    &self.combined_discounts,
                    &self.game_items,
                    &self.countries,
                    &self.partners,
                );
                out.push(e);
                proof {
                    assert(p(self.facts@[i as int]));
                    assert(out@ =~= self.facts@.take(i + 1).filter(p).map_values(f));
                }
            } else {
                proof {
                    assert(!p(self.facts@[i as int]));
                    assert(out@ =~= self.facts@.take(i + 1).filter(p).map_values(f));
                }
            }
            i += 1;
        }
        proof {
            assert(self.facts@.take(self.facts@.len() as int) =~= self.facts@);
        }
        out
    }
}

/// A committed partition watermark is what a later read of that partition
/// returns: after a crash between pages, the stored local watermark is
/// exactly the last fully committed page's — the safe resume point.
pub proof fn lemma_watermark_readback(
    watermarks: Seq<PartitionWatermark>,
    date: String,
    highwatermark_id: i64,
)
    ensures
        ({
            let committed = upserted_by_key(
                watermarks,
                (PartitionWatermark { date: date, highwatermark_id: highwatermark_id }),
                watermark_key(),
            );
            match first_match(committed, watermark_with_date(date@)) {
                Option::Some(w) => w.highwatermark_id == highwatermark_id && w.date@ == date@,
                Option::None => false,
            }
        }),
{
    let w = PartitionWatermark { date, highwatermark_id };
    let committed = upserted_by_key(watermarks, w, watermark_key());
    lemma_upsert_then_find(watermarks, w, watermark_key());
    let p = key_pred(watermark_key(), watermark_key()(w));
    let q = watermark_with_date(w.date@);
    assert(forall|m: int| 0 <= m < committed.len() ==> p(committed[m]) == q(committed[m]));
    lemma_first_index_where_equiv(committed, p, q);
}

/// Decrypt the credential of a loaded settings row: the compute half of
/// reading settings out of storage.  An absent stored credential reads as
/// the empty credential.
pub fn get_settings(row: Settings, password: &str) -> (r: Result<Settings, ErrorType>)
    ensures
        match row.steam_api_key {
            Option::None => (match r {
                Result::Ok(s) => s.id == row.id && s.poll_interval == row.poll_interval
                    && s.highwatermark == row.highwatermark && (match s.steam_api_key {
                    Option::Some(k) => k@ == Seq::<char>::empty(),
                    Option::None => false,
                }),
                Result::Err(_) => false,
            }),
            Option::Some(enc) => (match decrypt_result(password@, enc@) {
                Result::Ok(plain) => (match r {
                    Result::Ok(s) => s.id == row.id && s.poll_interval == row.poll_interval
                        && s.highwatermark == row.highwatermark && (match s.steam_api_key {
                        Option::Some(k) => k@ == plain,
                        Option::None => false,
                    }),
                    Result::Err(_) => false,
                }),
                Result::Err(c) => (match r {
                    Result::Ok(_) => false,
                    Result::Err(e) => e.spec_class() == c,
                }),
            }),
        },
{
    let Settings { id, steam_api_key, poll_interval, highwatermark } = row;
    match steam_api_key {
        Some(enc) => match crate::vault::decrypt(password, enc.as_str()) {
            Ok(k) => Ok(Settings { id, steam_api_key: Some(k), poll_interval, highwatermark }),
            Err(e) => Err(e),
        },
        None => Ok(
            Settings { id, steam_api_key: Some(String::new()), poll_interval, highwatermark },
        ),
    }
}

/// Encrypt the credential of a settings row for persistence: the compute
/// half of saving settings.  An empty passphrase is refused as missing,
/// and only then; success is owed whenever the passphrase and the
/// credential fit the key derivation's and the cipher's byte bounds.
pub fn save_settings(settings: &Settings, password: &str) -> (r: Result<Settings, ErrorType>)
    ensures
        password@.len() == 0 ==> (r matches Err(e) && e is Missing),
        r matches Err(e) && e is Missing ==> password@.len() == 0,
        password@.len() != 0 && encode_utf8(password@).len() <= 0xFFFFFFFF && (match settings
            .steam_api_key {
            Option::Some(k) => encode_utf8(k@).len() <= 68719476736,
            Option::None => true,
        }) ==> r is Ok,
        r matches Ok(s) ==> password@.len() != 0 && s.id == settings.id && s.poll_interval
            == settings.poll_interval && s.highwatermark == settings.highwatermark && (match (
            settings.steam_api_key,
            s.steam_api_key,
        ) {
            (Option::Some(k), Option::Some(enc)) => decrypt_result(password@, enc@) == Result::<
                Seq<char>,
                ErrClass,
            >::Ok(k@),
            (Option::None, Option::None) => true,
            _ => false,
        }),
        r matches Err(e) ==> e is Missing || e is Forbidden,
{
    if password.is_empty() {
        return Err(ErrorType::Missing(String::from_str("no passphrase set for encryption")));
    }
    match &settings.steam_api_key {
        Some(k) => match crate::vault::encrypt(password, k.as_str()) {
            Ok(enc) => Ok(
                Settings {
                    id: settings.id,
                    steam_api_key: Some(enc),
                    poll_interval: settings.poll_interval,
                    highwatermark: clone_opt_string(&settings.highwatermark),
                },
            ),
            Err(e) => Err(e),
        },
        None => Ok(
            Settings {
                id: settings.id,
                steam_api_key: None,
                poll_interval: settings.poll_interval,
                highwatermark: clone_opt_string(&settings.highwatermark),
            },
        ),
    }
}

} // verus!
