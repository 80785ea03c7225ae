//! The data model: the fact row, the reference entities that enrich it,
//! the page shape the change feed returns, and the settings row.
//!
//! Monetary USD amounts arrive from the remote API as decimal text and are
//! carried through unchanged as text; nothing in the synchronization logic
//! computes on them.

use vstd::prelude::*;

use crate::lookup::{first_index_where, first_match};

verus! {

use vstd::string::StringSliceAdditionalSpecFns;

/// A copy of an optional string, equal to the original.
pub fn clone_opt_string(o: &Option<String>) -> (r: Option<String>)
    ensures
        r == *o,
{
    match o {
        Some(s) => Some(s.clone()),
        None => None,
    }
}

/// Whether two optional strings hold the same text.
pub open spec fn opt_str_eqv(a: Option<String>, b: Option<String>) -> bool {
    match (a, b) {
        (Option::Some(x), Option::Some(y)) => x@ == y@,
        (Option::None, Option::None) => true,
        _ => false,
    }
}

/// Whether two optional strings hold the same text, decided executably.
pub fn opt_str_eq(a: &Option<String>, b: &Option<String>) -> (r: bool)
    ensures
        r == opt_str_eqv(*a, *b),
{
    match (a, b) {
        (Some(x), Some(y)) => x.eq(y),
        (None, None) => true,
        _ => false,
    }
}


/// One denormalized fact row: the raw measurement fields of a sale line
/// together with display names resolved from the reference entities.
#[derive(Debug, Default)]
pub struct CPartnerFinancialsDetailedSalesResult {
    pub partnerid: i32,
    pub date: String,
    pub line_item_type: Option<String>,
    pub packageid: Option<i32>,
    pub bundleid: Option<i32>,
    pub appid: Option<i32>,
    pub game_item_id: Option<i32>,
    pub package_sale_type: Option<String>,
    pub key_request_id: Option<i32>,
    pub platform: Option<String>,
    pub country_code: Option<String>,
    pub base_price: Option<i64>,
    pub sale_price: Option<i64>,
    pub currency: Option<String>,
    pub gross_units_sold: Option<i32>,
    pub gross_units_returned: Option<i32>,
    pub gross_sales_usd: Option<String>,
    pub gross_returns_usd: Option<String>,
    pub net_tax_usd: Option<String>,
    pub gross_units_activated: Option<i32>,
    pub view_grant_partnerid: Option<i32>,
    pub net_units_sold: Option<i32>,
    pub net_sales_usd: Option<String>,
    pub avg_sale_price_usd: Option<String>,
    pub combined_discount_id: Option<i32>,
    pub primary_appid: Option<i32>,
    pub additional_revenue_share_tier: Option<i32>,
    pub partner_name: Option<String>,
    pub package_name: Option<String>,
    pub bundle_name: Option<String>,
    pub app_name: Option<String>,
    pub game_item_description: Option<String>,
    pub game_item_category: Option<String>,
    pub key_request_notes: Option<String>,
    pub game_code_id: Option<i32>,
    pub game_code_description: Option<String>,
    pub territory_code_id: Option<i32>,
    pub territory_code_description: Option<String>,
    pub country_name: Option<String>,
    pub region: Option<String>,
    pub combined_discount_name: Option<String>,
    pub total_discount_percentage: Option<i32>,
}

impl CPartnerFinancialsDetailedSalesResult {
    /// A copy equal to `self`, field for field.
    pub fn duplicate(&self) -> (r: Self)
        ensures
            r == *self,
    {
        CPartnerFinancialsDetailedSalesResult {
            partnerid: self.partnerid,
            date: self.date.clone(),
            line_item_type: clone_opt_string(&self.line_item_type),
            packageid: self.packageid,
            bundleid: self.bundleid,
            appid: self.appid,
            game_item_id: self.game_item_id,
            package_sale_type: clone_opt_string(&self.package_sale_type),
            key_request_id: self.key_request_id,
            platform: clone_opt_string(&self.platform),
            country_code: clone_opt_string(&self.country_code),
            base_price: self.base_price,
            sale_price: self.sale_price,
            currency: clone_opt_string(&self.currency),
            gross_units_sold: self.gross_units_sold,
            gross_units_returned: self.gross_units_returned,
            gross_sales_usd: clone_opt_string(&self.gross_sales_usd),
            gross_returns_usd: clone_opt_string(&self.gross_returns_usd),
            net_tax_usd: clone_opt_string(&self.net_tax_usd),
            gross_units_activated: self.gross_units_activated,
            view_grant_partnerid: self.view_grant_partnerid,
            net_units_sold: self.net_units_sold,
            net_sales_usd: clone_opt_string(&self.net_sales_usd),
            avg_sale_price_usd: clone_opt_string(&self.avg_sale_price_usd),
            combined_discount_id: self.combined_discount_id,
            primary_appid: self.primary_appid,
            additional_revenue_share_tier: self.additional_revenue_share_tier,
            partner_name: clone_opt_string(&self.partner_name),
            package_name: clone_opt_string(&self.package_name),
            bundle_name: clone_opt_string(&self.bundle_name),
            app_name: clone_opt_string(&self.app_name),
            game_item_description: clone_opt_string(&self.game_item_description),
            game_item_category: clone_opt_string(&self.game_item_category),
            key_request_notes: clone_opt_string(&self.key_request_notes),
            game_code_id: self.game_code_id,
            game_code_description: clone_opt_string(&self.game_code_description),
            territory_code_id: self.territory_code_id,
            territory_code_description: clone_opt_string(&self.territory_code_description),
            country_name: clone_opt_string(&self.country_name),
            region: clone_opt_string(&self.region),
            combined_discount_name: clone_opt_string(&self.combined_discount_name),
            total_discount_percentage: self.total_discount_percentage,
        }
    }
}

/// A discount reference entity, keyed by its discount id.
#[derive(Debug, Default)]
pub struct CPartnerFinancialsDiscountInfo {
    pub discountid: i32,
    pub discount_description: Option<String>,
    pub discount_group: Option<String>,
    pub discount_percentage: Option<i32>,
}

/// A combined-discount reference entity, keyed by its combined id.
#[derive(Debug, Default)]
pub struct CPartnerFinancialsCombinedDiscountInfo {
    pub combined_discount_id: i32,
    pub combined_discount_name: Option<String>,
    pub total_discount_percentage: Option<i32>,
    pub discount_ids: Option<Vec<i32>>,
}

/// A key-request reference entity, keyed by its request id.
#[derive(Debug, Default)]
pub struct CPartnerFinancialsKeyRequestInfo {
    pub key_request_id: i32,
    pub key_request_notes: Option<String>,
    pub game_code_id: Option<i32>,
    pub game_code_description: Option<String>,
    pub territory_code_id: Option<i32>,
    pub territory_code_description: Option<String>,
}

/// A package reference entity, keyed by its package id.
#[derive(Debug, Default)]
pub struct CPartnerFinancialsPackageInfo {
    pub packageid: i32,
    pub package_name: Option<String>,
}

/// An app reference entity, keyed by its app id.
#[derive(Debug, Default)]
pub struct CPartnerFinancialsAppInfo {
    pub appid: i32,
    pub app_name: Option<String>,
}

/// A bundle reference entity, keyed by its bundle id.
#[derive(Debug, Default)]
pub struct CPartnerFinancialsBundleInfo {
    pub bundleid: i32,
    pub bundle_name: Option<String>,
}

/// A game-item reference entity, keyed by its app id.
#[derive(Debug, Default)]
pub struct CPartnerFinancialsGameItemInfo {
    pub appid: i32,
    pub game_item_id: Option<i32>,
    pub game_item_description: Option<String>,
    pub game_item_category: Option<String>,
}

/// A country reference entity, keyed by its country code.
#[derive(Debug, Default)]
pub struct CPartnerFinancialsCountryInfo {
    pub country_code: Option<String>,
    pub country_name: Option<String>,
    pub region: Option<String>,
}

/// A partner reference entity, keyed by its partner id.
#[derive(Debug, Default)]
pub struct CPartnerFinancialsPartnerInfo {
    pub partnerid: i32,
    pub partner_name: Option<String>,
}

/// One page of the change feed for a partition: fact rows, republished
/// reference entities, and the page's maximum watermark as decimal text.
#[derive(Debug, Default)]
pub struct DetailedSales {
    pub results: Option<Vec<CPartnerFinancialsDetailedSalesResult>>,
    pub key_request_info: Option<Vec<CPartnerFinancialsKeyRequestInfo>>,
    pub package_info: Option<Vec<CPartnerFinancialsPackageInfo>>,
    pub app_info: Option<Vec<CPartnerFinancialsAppInfo>>,
    pub bundle_info: Option<Vec<CPartnerFinancialsBundleInfo>>,
    pub discount_info: Option<Vec<CPartnerFinancialsDiscountInfo>>,
    pub combined_discount_info: Option<Vec<CPartnerFinancialsCombinedDiscountInfo>>,
    pub game_item_info: Option<Vec<CPartnerFinancialsGameItemInfo>>,
    pub country_info: Option<Vec<CPartnerFinancialsCountryInfo>>,
    pub partner_info: Option<Vec<CPartnerFinancialsPartnerInfo>>,
    pub max_id: String,
}

/// The answer to a changed-partitions query: partition keys that changed,
/// in no guaranteed order, and the new global watermark.
#[derive(Debug, Default)]
pub struct ChangedDates {
    pub dates: Option<Vec<String>>,
    pub result_highwatermark: String,
}

/// The single persisted settings row: the (encrypted at rest) API
/// credential, the poll interval in seconds, and the global watermark.
#[derive(Debug, Default)]
pub struct Settings {
    pub id: i32,
    pub steam_api_key: Option<String>,
    pub poll_interval: Option<i32>,
    pub highwatermark: Option<String>,
}

impl Settings {
    /// A copy equal to `self`, field for field.
    pub fn duplicate(&self) -> (r: Self)
        ensures
            r == *self,
    {
        Settings {
            id: self.id,
            steam_api_key: clone_opt_string(&self.steam_api_key),
            poll_interval: self.poll_interval,
            highwatermark: clone_opt_string(&self.highwatermark),
        }
    }
}

/// The list a page carries for one reference kind: absent means empty.
pub open spec fn listed<T>(o: Option<Vec<T>>) -> Seq<T> {
    match o {
        Option::Some(v) => v@,
        Option::None => Seq::empty(),
    }
}

/// The text of an optional string, with `None` kept apart from every text.
pub open spec fn opt_str_view(o: Option<String>) -> Option<Seq<char>> {
    match o {
        Option::Some(s) => Option::Some(s@),
        Option::None => Option::None,
    }
}


/// The natural key of a `discountinfo` entity: its discount id.
pub open spec fn discount_key() -> spec_fn(CPartnerFinancialsDiscountInfo) -> i32 {
    |x: CPartnerFinancialsDiscountInfo| x.discountid
}

/// The natural key of a `combineddiscountinfo` entity: its combined id.
pub open spec fn combined_discount_key() -> spec_fn(CPartnerFinancialsCombinedDiscountInfo) -> i32 {
    |x: CPartnerFinancialsCombinedDiscountInfo| x.combined_discount_id
}

/// The natural key of a `keyrequestinfo` entity: its request id.
pub open spec fn key_request_key() -> spec_fn(CPartnerFinancialsKeyRequestInfo) -> i32 {
    |x: CPartnerFinancialsKeyRequestInfo| x.key_request_id
}

/// The natural key of a `packageinfo` entity: its package id.
pub open spec fn package_key() -> spec_fn(CPartnerFinancialsPackageInfo) -> i32 {
    |x: CPartnerFinancialsPackageInfo| x.packageid
}

/// The natural key of a `appinfo` entity: its app id.
pub open spec fn app_key() -> spec_fn(CPartnerFinancialsAppInfo) -> i32 {
    |x: CPartnerFinancialsAppInfo| x.appid
}

/// The natural key of a `bundleinfo` entity: its bundle id.
pub open spec fn bundle_key() -> spec_fn(CPartnerFinancialsBundleInfo) -> i32 {
    |x: CPartnerFinancialsBundleInfo| x.bundleid
}

/// The natural key of a `gameiteminfo` entity: its app id.
pub open spec fn game_item_key() -> spec_fn(CPartnerFinancialsGameItemInfo) -> i32 {
    |x: CPartnerFinancialsGameItemInfo| x.appid
}

/// The natural key of a `countryinfo` entity: its country code.
pub open spec fn country_key() -> spec_fn(CPartnerFinancialsCountryInfo) -> Option<Seq<char>> {
    |x: CPartnerFinancialsCountryInfo| opt_str_view(x.country_code)
}

/// The natural key of a `partnerinfo` entity: its partner id.
pub open spec fn partner_key() -> spec_fn(CPartnerFinancialsPartnerInfo) -> i32 {
    |x: CPartnerFinancialsPartnerInfo| x.partnerid
}

/// Whether a `partner` entity carries the given id.
pub open spec fn partner_with_id(id: i32) -> spec_fn(CPartnerFinancialsPartnerInfo) -> bool {
    |x: CPartnerFinancialsPartnerInfo| x.partnerid == id
}

/// The index of the first `partner` entity with the given id.
pub fn find_partner(v: &Vec<CPartnerFinancialsPartnerInfo>, id: i32) -> (r: Option<usize>)
    ensures
        match r {
            Some(j) => j < v@.len() && first_index_where(v@, partner_with_id(id)) == j,
            None => first_index_where(v@, partner_with_id(id)) == -1,
        },
{
    let ghost p = partner_with_id(id);
    let mut j: usize = 0;
    while j < v.len()
        invariant
            p == partner_with_id(id),
            j <= v@.len(),
            forall|m: int| 0 <= m < j ==> !#[trigger] p(v@[m]),
        decreases v@.len() - j,
    {
        if v[j].partnerid == id {
            proof {
                assert(p(v@[j as int]));
                crate::lookup::lemma_first_index_where_at(v@, p, j as int);
            }
            return Some(j);
        }
        proof {
            assert(!p(v@[j as int]));
        }
        j += 1;
    }
    proof {
        crate::lookup::lemma_first_index_where_props(v@, p);
    }
    None
}

/// Whether a `package` entity carries the given id.
pub open spec fn package_with_id(id: i32) -> spec_fn(CPartnerFinancialsPackageInfo) -> bool {
    |x: CPartnerFinancialsPackageInfo| x.packageid == id
}

/// The index of the first `package` entity with the given id.
pub fn find_package(v: &Vec<CPartnerFinancialsPackageInfo>, id: i32) -> (r: Option<usize>)
    ensures
        match r {
            Some(j) => j < v@.len() && first_index_where(v@, package_with_id(id)) == j,
            None => first_index_where(v@, package_with_id(id)) == -1,
        },
{
    let ghost p = package_with_id(id);
    let mut j: usize = 0;
    while j < v.len()
        invariant
            p == package_with_id(id),
            j <= v@.len(),
            forall|m: int| 0 <= m < j ==> !#[trigger] p(v@[m]),
        decreases v@.len() - j,
    {
        if v[j].packageid == id {
            proof {
                assert(p(v@[j as int]));
                crate::lookup::lemma_first_index_where_at(v@, p, j as int);
            }
            return Some(j);
        }
        proof {
            assert(!p(v@[j as int]));
        }
        j += 1;
    }
    proof {
        crate::lookup::lemma_first_index_where_props(v@, p);
    }
    None
}

/// Whether a `app` entity carries the given id.
pub open spec fn app_with_id(id: i32) -> spec_fn(CPartnerFinancialsAppInfo) -> bool {
    |x: CPartnerFinancialsAppInfo| x.appid == id
}

/// The index of the first `app` entity with the given id.
pub fn find_app(v: &Vec<CPartnerFinancialsAppInfo>, id: i32) -> (r: Option<usize>)
    ensures
        match r {
            Some(j) => j < v@.len() && first_index_where(v@, app_with_id(id)) == j,
            None => first_index_where(v@, app_with_id(id)) == -1,
        },
{
    let ghost p = app_with_id(id);
    let mut j: usize = 0;
    while j < v.len()
        invariant
            p == app_with_id(id),
            j <= v@.len(),
            forall|m: int| 0 <= m < j ==> !#[trigger] p(v@[m]),
        decreases v@.len() - j,
    {
        if v[j].appid == id {
            proof {
                assert(p(v@[j as int]));
                crate::lookup::lemma_first_index_where_at(v@, p, j as int);
            }
            return Some(j);
        }
        proof {
            assert(!p(v@[j as int]));
        }
        j += 1;
    }
    proof {
        crate::lookup::lemma_first_index_where_props(v@, p);
    }
    None
}

/// Whether a `bundle` entity carries the given id.
pub open spec fn bundle_with_id(id: i32) -> spec_fn(CPartnerFinancialsBundleInfo) -> bool {
    |x: CPartnerFinancialsBundleInfo| x.bundleid == id
}

/// The index of the first `bundle` entity with the given id.
pub fn find_bundle(v: &Vec<CPartnerFinancialsBundleInfo>, id: i32) -> (r: Option<usize>)
    ensures
        match r {
            Some(j) => j < v@.len() && first_index_where(v@, bundle_with_id(id)) == j,
            None => first_index_where(v@, bundle_with_id(id)) == -1,
        },
{
    let ghost p = bundle_with_id(id);
    let mut j: usize = 0;
    while j < v.len()
        invariant
            p == bundle_with_id(id),
            j <= v@.len(),
            forall|m: int| 0 <= m < j ==> !#[trigger] p(v@[m]),
        decreases v@.len() - j,
    {
        if v[j].bundleid == id {
            proof {
                assert(p(v@[j as int]));
                crate::lookup::lemma_first_index_where_at(v@, p, j as int);
            }
            return Some(j);
        }
        proof {
            assert(!p(v@[j as int]));
        }
        j += 1;
    }
    proof {
        crate::lookup::lemma_first_index_where_props(v@, p);
    }
    None
}

/// Whether a `key_request` entity carries the given id.
pub open spec fn key_request_with_id(id: i32) -> spec_fn(CPartnerFinancialsKeyRequestInfo) -> bool {
    |x: CPartnerFinancialsKeyRequestInfo| x.key_request_id == id
}

/// The index of the first `key_request` entity with the given id.
pub fn find_key_request(v: &Vec<CPartnerFinancialsKeyRequestInfo>, id: i32) -> (r: Option<usize>)
    ensures
        match r {
            Some(j) => j < v@.len() && first_index_where(v@, key_request_with_id(id)) == j,
            None => first_index_where(v@, key_request_with_id(id)) == -1,
        },
{
    let ghost p = key_request_with_id(id);
    let mut j: usize = 0;
    while j < v.len()
        invariant
            p == key_request_with_id(id),
            j <= v@.len(),
            forall|m: int| 0 <= m < j ==> !#[trigger] p(v@[m]),
        decreases v@.len() - j,
    {
        if v[j].key_request_id == id {
            proof {
                assert(p(v@[j as int]));
                crate::lookup::lemma_first_index_where_at(v@, p, j as int);
            }
            return Some(j);
        }
        proof {
            assert(!p(v@[j as int]));
        }
        j += 1;
    }
    proof {
        crate::lookup::lemma_first_index_where_props(v@, p);
    }
    None
}

/// Whether a `combined_discount` entity carries the given id.
pub open spec fn combined_discount_with_id(id: i32) -> spec_fn(CPartnerFinancialsCombinedDiscountInfo) -> bool {
    |x: CPartnerFinancialsCombinedDiscountInfo| x.combined_discount_id == id
}

/// The index of the first `combined_discount` entity with the given id.
pub fn find_combined_discount(v: &Vec<CPartnerFinancialsCombinedDiscountInfo>, id: i32) -> (r: Option<usize>)
    ensures
        match r {
            Some(j) => j < v@.len() && first_index_where(v@, combined_discount_with_id(id)) == j,
            None => first_index_where(v@, combined_discount_with_id(id)) == -1,
        },
{
    let ghost p = combined_discount_with_id(id);
    let mut j: usize = 0;
    while j < v.len()
        invariant
            p == combined_discount_with_id(id),
            j <= v@.len(),
            forall|m: int| 0 <= m < j ==> !#[trigger] p(v@[m]),
        decreases v@.len() - j,
    {
        if v[j].combined_discount_id == id {
            proof {
                assert(p(v@[j as int]));
                crate::lookup::lemma_first_index_where_at(v@, p, j as int);
            }
            return Some(j);
        }
        proof {
            assert(!p(v@[j as int]));
        }
        j += 1;
    }
    proof {
        crate::lookup::lemma_first_index_where_props(v@, p);
    }
    None
}

/// Whether a game-item entity carries the given item id.
pub open spec fn game_item_with_item_id(id: Option<i32>) -> spec_fn(
    CPartnerFinancialsGameItemInfo,
) -> bool {
    |x: CPartnerFinancialsGameItemInfo| x.game_item_id == id
}

/// The index of the first game-item entity with the given item id.
pub fn find_game_item(v: &Vec<CPartnerFinancialsGameItemInfo>, id: Option<i32>) -> (r: Option<
    usize,
>)
    ensures
        match r {
            Some(j) => j < v@.len() && first_index_where(v@, game_item_with_item_id(id)) == j,
            None => first_index_where(v@, game_item_with_item_id(id)) == -1,
        },
{
    let ghost p = game_item_with_item_id(id);
    let mut j: usize = 0;
    while j < v.len()
        invariant
            p == game_item_with_item_id(id),
            j <= v@.len(),
            forall|m: int| 0 <= m < j ==> !#[trigger] p(v@[m]),
        decreases v@.len() - j,
    {
        if v[j].game_item_id == id {
            proof {
                assert(p(v@[j as int]));
                crate::lookup::lemma_first_index_where_at(v@, p, j as int);
            }
            return Some(j);
        }
        proof {
            assert(!p(v@[j as int]));
        }
        j += 1;
    }
    proof {
        crate::lookup::lemma_first_index_where_props(v@, p);
    }
    None
}

/// Whether a country entity carries the given country code.
pub open spec fn country_with_code(code: Option<Seq<char>>) -> spec_fn(
    CPartnerFinancialsCountryInfo,
) -> bool {
    |x: CPartnerFinancialsCountryInfo| opt_str_view(x.country_code) == code
}

/// The index of the first country entity with the given country code.
pub fn find_country(v: &Vec<CPartnerFinancialsCountryInfo>, code: &Option<String>) -> (r: Option<
    usize,
>)
    ensures
        match r {
            Some(j) => j < v@.len() && first_index_where(
                v@,
                country_with_code(opt_str_view(*code)),
            ) == j,
            None => first_index_where(v@, country_with_code(opt_str_view(*code))) == -1,
        },
{
    let ghost p = country_with_code(opt_str_view(*code));
    let mut j: usize = 0;
    while j < v.len()
        invariant
            p == country_with_code(opt_str_view(*code)),
            j <= v@.len(),
            forall|m: int| 0 <= m < j ==> !#[trigger] p(v@[m]),
        decreases v@.len() - j,
    {
        if opt_str_eq(&v[j].country_code, code) {
            proof {
                assert(p(v@[j as int]));
                crate::lookup::lemma_first_index_where_at(v@, p, j as int);
            }
            return Some(j);
        }
        proof {
            assert(!p(v@[j as int]));
        }
        j += 1;
    }
    proof {
        crate::lookup::lemma_first_index_where_props(v@, p);
    }
    None
}

} // verus!
