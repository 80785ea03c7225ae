//! Enrichment of fact rows with display names from reference entities.
//!
//! Two join policies mirror the two places rows are enriched.  When a page
//! is applied, rows are enriched from the page's own reference lists, with
//! an absent numeric id looked up as id 0.  When rows are read back out of
//! the store by date range, the join follows relational semantics: an
//! absent key joins nothing.

use vstd::prelude::*;

use crate::lookup::first_match;
use crate::records::{
    clone_opt_string, listed, opt_str_view, CPartnerFinancialsAppInfo, CPartnerFinancialsBundleInfo,
    CPartnerFinancialsCombinedDiscountInfo, CPartnerFinancialsCountryInfo,
    CPartnerFinancialsDetailedSalesResult, CPartnerFinancialsGameItemInfo,
    CPartnerFinancialsKeyRequestInfo, CPartnerFinancialsPackageInfo,
    CPartnerFinancialsPartnerInfo, find_app, find_bundle, find_combined_discount, find_country,
    find_game_item, find_key_request, find_package, find_partner, app_with_id, bundle_with_id,
    combined_discount_with_id, country_with_code, game_item_with_item_id, key_request_with_id,
    package_with_id, partner_with_id,
};

verus! {

/// The value of an optional id, with 0 standing in for an absent one.
pub open spec fn or_zero(o: Option<i32>) -> i32 {
    match o {
        Option::Some(v) => v,
        Option::None => 0,
    }
}


/// A fact row enriched from a page's own reference lists, as a page is
/// applied: an absent numeric id is looked up as id 0, and an absent
/// country code matches an entity without one.
pub open spec fn enriched_row(
    row: CPartnerFinancialsDetailedSalesResult,
    key_requests: Seq<CPartnerFinancialsKeyRequestInfo>,
    packages: Seq<CPartnerFinancialsPackageInfo>,
    apps: Seq<CPartnerFinancialsAppInfo>,
    bundles: Seq<CPartnerFinancialsBundleInfo>,
    combined_discounts: Seq<CPartnerFinancialsCombinedDiscountInfo>,
    game_items: Seq<CPartnerFinancialsGameItemInfo>,
    countries: Seq<CPartnerFinancialsCountryInfo>,
    partners: Seq<CPartnerFinancialsPartnerInfo>,
) -> CPartnerFinancialsDetailedSalesResult {
    CPartnerFinancialsDetailedSalesResult {
        partnerid: row.partnerid,
        date: row.date,
        line_item_type: row.line_item_type,
        packageid: row.packageid,
        bundleid: row.bundleid,
        appid: row.appid,
        game_item_id: row.game_item_id,
        package_sale_type: row.package_sale_type,
        key_request_id: row.key_request_id,
        platform: row.platform,
        country_code: row.country_code,
        base_price: row.base_price,
        sale_price: row.sale_price,
        currency: row.currency,
        gross_units_sold: row.gross_units_sold,
        gross_units_returned: row.gross_units_returned,
        gross_sales_usd: row.gross_sales_usd,
        gross_returns_usd: row.gross_returns_usd,
        net_tax_usd: row.net_tax_usd,
        gross_units_activated: row.gross_units_activated,
        view_grant_partnerid: row.view_grant_partnerid,
        net_units_sold: row.net_units_sold,
        net_sales_usd: row.net_sales_usd,
        avg_sale_price_usd: row.avg_sale_price_usd,
        combined_discount_id: row.combined_discount_id,
        primary_appid: row.primary_appid,
        additional_revenue_share_tier: row.additional_revenue_share_tier,
        partner_name: (match first_match(partners, partner_with_id(row.partnerid)) {
            Option::Some(p) => p.partner_name,
            Option::None => Option::None,
        }),
        package_name: (match first_match(packages, package_with_id(or_zero(row.packageid))) {
            Option::Some(p) => p.package_name,
            Option::None => Option::None,
        }),
        bundle_name: (match first_match(bundles, bundle_with_id(or_zero(row.bundleid))) {
            Option::Some(p) => p.bundle_name,
            Option::None => Option::None,
        }),
        app_name: (match first_match(apps, app_with_id(or_zero(row.appid))) {
            Option::Some(p) => p.app_name,
            Option::None => Option::None,
        }),
        game_item_description: (match first_match(game_items, game_item_with_item_id(row.game_item_id)) {
            Option::Some(p) => p.game_item_description,
            Option::None => Option::None,
        }),
        game_item_category: (match first_match(game_items, game_item_with_item_id(row.game_item_id)) {
            Option::Some(p) => p.game_item_category,
            Option::None => Option::None,
        }),
        key_request_notes: (match first_match(key_requests, key_request_with_id(or_zero(row.key_request_id))) {
            Option::Some(p) => p.key_request_notes,
            Option::None => Option::None,
        }),
        game_code_id: (match first_match(key_requests, key_request_with_id(or_zero(row.key_request_id))) {
            Option::Some(p) => p.game_code_id,
            Option::None => Option::None,
        }),
        game_code_description: (match first_match(key_requests, key_request_with_id(or_zero(row.key_request_id))) {
            Option::Some(p) => p.game_code_description,
            Option::None => Option::None,
        }),
        territory_code_id: (match first_match(key_requests, key_request_with_id(or_zero(row.key_request_id))) {
            Option::Some(p) => p.territory_code_id,
            Option::None => Option::None,
        }),
        territory_code_description: (match first_match(key_requests, key_request_with_id(or_zero(row.key_request_id))) {
            Option::Some(p) => p.territory_code_description,
            Option::None => Option::None,
        }),
        country_name: (match first_match(countries, country_with_code(opt_str_view(row.country_code))) {
            Option::Some(p) => p.country_name,
            Option::None => Option::None,
        }),
        region: (match first_match(countries, country_with_code(opt_str_view(row.country_code))) {
            Option::Some(p) => p.region,
            Option::None => Option::None,
        }),
        combined_discount_name: (match first_match(combined_discounts, combined_discount_with_id(or_zero(row.combined_discount_id))) {
            Option::Some(p) => p.combined_discount_name,
            Option::None => Option::None,
        }),
        total_discount_percentage: (match first_match(combined_discounts, combined_discount_with_id(or_zero(row.combined_discount_id))) {
            Option::Some(p) => p.total_discount_percentage,
            Option::None => Option::None,
        }),
    }
}

/// A fact row joined against the store's reference tables, as rows are
/// read back by date range: relational semantics, where an absent key on
/// either side joins nothing.
pub open spec fn joined_row(
    row: CPartnerFinancialsDetailedSalesResult,
    key_requests: Seq<CPartnerFinancialsKeyRequestInfo>,
    packages: Seq<CPartnerFinancialsPackageInfo>,
    apps: Seq<CPartnerFinancialsAppInfo>,
    bundles: Seq<CPartnerFinancialsBundleInfo>,
    combined_discounts: Seq<CPartnerFinancialsCombinedDiscountInfo>,
    game_items: Seq<CPartnerFinancialsGameItemInfo>,
    countries: Seq<CPartnerFinancialsCountryInfo>,
    partners: Seq<CPartnerFinancialsPartnerInfo>,
) -> CPartnerFinancialsDetailedSalesResult {
    CPartnerFinancialsDetailedSalesResult {
        partnerid: row.partnerid,
        date: row.date,
        line_item_type: row.line_item_type,
        packageid: row.packageid,
        bundleid: row.bundleid,
        appid: row.appid,
        game_item_id: row.game_item_id,
        package_sale_type: row.package_sale_type,
        key_request_id: row.key_request_id,
        platform: row.platform,
        country_code: row.country_code,
        base_price: row.base_price,
        sale_price: row.sale_price,
        currency: row.currency,
        gross_units_sold: row.gross_units_sold,
        gross_units_returned: row.gross_units_returned,
        gross_sales_usd: row.gross_sales_usd,
        gross_returns_usd: row.gross_returns_usd,
        net_tax_usd: row.net_tax_usd,
        gross_units_activated: row.gross_units_activated,
        view_grant_partnerid: row.view_grant_partnerid,
        net_units_sold: row.net_units_sold,
        net_sales_usd: row.net_sales_usd,
        avg_sale_price_usd: row.avg_sale_price_usd,
        combined_discount_id: row.combined_discount_id,
        primary_appid: row.primary_appid,
        additional_revenue_share_tier: row.additional_revenue_share_tier,
        partner_name: (match first_match(partners, partner_with_id(row.partnerid)) {
            Option::Some(p) => p.partner_name,
            Option::None => Option::None,
        }),
        package_name: (match row.packageid {
            Option::Some(id) => match first_match(packages, package_with_id(id)) {
                Option::Some(p) => p.package_name,
                Option::None => Option::None,
            },
            Option::None => Option::None,
        }),
        bundle_name: (match row.bundleid {
            Option::Some(id) => match first_match(bundles, bundle_with_id(id)) {
                Option::Some(p) => p.bundle_name,
                Option::None => Option::None,
            },
            Option::None => Option::None,
        }),
        app_name: (match row.appid {
            Option::Some(id) => match first_match(apps, app_with_id(id)) {
                Option::Some(p) => p.app_name,
                Option::None => Option::None,
            },
            Option::None => Option::None,
        }),
        game_item_description: (match row.game_item_id {
            Option::Some(id) => match first_match(game_items, game_item_with_item_id(Option::Some(id))) {
                Option::Some(p) => p.game_item_description,
                Option::None => Option::None,
            },
            Option::None => Option::None,
        }),
        game_item_category: (match row.game_item_id {
            Option::Some(id) => match first_match(game_items, game_item_with_item_id(Option::Some(id))) {
                Option::Some(p) => p.game_item_category,
                Option::None => Option::None,
            },
            Option::None => Option::None,
        }),
        key_request_notes: (match row.key_request_id {
            Option::Some(id) => match first_match(key_requests, key_request_with_id(id)) {
                Option::Some(p) => p.key_request_notes,
                Option::None => Option::None,
            },
            Option::None => Option::None,
        }),
        game_code_id: (match row.key_request_id {
            Option::Some(id) => match first_match(key_requests, key_request_with_id(id)) {
                Option::Some(p) => p.game_code_id,
                Option::None => Option::None,
            },
            Option::None => Option::None,
        }),
        game_code_description: (match row.key_request_id {
            Option::Some(id) => match first_match(key_requests, key_request_with_id(id)) {
                Option::Some(p) => p.game_code_description,
                Option::None => Option::None,
            },
            Option::None => Option::None,
        }),
        territory_code_id: (match row.key_request_id {
            Option::Some(id) => match first_match(key_requests, key_request_with_id(id)) {
                Option::Some(p) => p.territory_code_id,
                Option::None => Option::None,
            },
            Option::None => Option::None,
        }),
        territory_code_description: (match row.key_request_id {
            Option::Some(id) => match first_match(key_requests, key_request_with_id(id)) {
                Option::Some(p) => p.territory_code_description,
                Option::None => Option::None,
            },
            Option::None => Option::None,
        }),
        country_name: (match row.country_code {
            Option::Some(_) => match first_match(countries, country_with_code(
                opt_str_view(row.country_code),
            )) {
                Option::Some(p) => p.country_name,
                Option::None => Option::None,
            },
            Option::None => Option::None,
        }),
        region: (match row.country_code {
            Option::Some(_) => match first_match(countries, country_with_code(
                opt_str_view(row.country_code),
            )) {
                Option::Some(p) => p.region,
                Option::None => Option::None,
            },
            Option::None => Option::None,
        }),
        combined_discount_name: (match row.combined_discount_id {
            Option::Some(id) => match first_match(combined_discounts, combined_discount_with_id(id)) {
                Option::Some(p) => p.combined_discount_name,
                Option::None => Option::None,
            },
            Option::None => Option::None,
        }),
        total_discount_percentage: (match row.combined_discount_id {
            Option::Some(id) => match first_match(combined_discounts, combined_discount_with_id(id)) {
                Option::Some(p) => p.total_discount_percentage,
                Option::None => Option::None,
            },
            Option::None => Option::None,
        }),
    }
}
/// Enrich one fact row from a page's own reference lists.
pub fn enrich_row(
    row: &CPartnerFinancialsDetailedSalesResult,
    key_requests: &Option<Vec<CPartnerFinancialsKeyRequestInfo>>,
    packages: &Option<Vec<CPartnerFinancialsPackageInfo>>,
    apps: &Option<Vec<CPartnerFinancialsAppInfo>>,
    bundles: &Option<Vec<CPartnerFinancialsBundleInfo>>,
    combined_discounts: &Option<Vec<CPartnerFinancialsCombinedDiscountInfo>>,
    game_items: &Option<Vec<CPartnerFinancialsGameItemInfo>>,
    countries: &Option<Vec<CPartnerFinancialsCountryInfo>>,
    partners: &Option<Vec<CPartnerFinancialsPartnerInfo>>,
) -> (r: CPartnerFinancialsDetailedSalesResult)
    ensures
        r == enriched_row(
            *row,
            listed(*key_requests),
            listed(*packages),
            listed(*apps),
            listed(*bundles),
            listed(*combined_discounts),
            listed(*game_items),
            listed(*countries),
            listed(*partners),
        ),
{
    let (partner_name) = match partners {
        Some(v) => match find_partner(v, row.partnerid) {
            Some(j) => (clone_opt_string(&v[j].partner_name)),
            None => (None),
        },
        None => (None),
    };
    let (package_name) = match packages {
        Some(v) => match find_package(v, row.packageid.unwrap_or(0)) {
            Some(j) => (clone_opt_string(&v[j].package_name)),
            None => (None),
        },
        None => (None),
    };
    let (bundle_name) = match bundles {
        Some(v) => match find_bundle(v, row.bundleid.unwrap_or(0)) {
            Some(j) => (clone_opt_string(&v[j].bundle_name)),
            None => (None),
        },
        None => (None),
    };
    let (app_name) = match apps {
        Some(v) => match find_app(v, row.appid.unwrap_or(0)) {
            Some(j) => (clone_opt_string(&v[j].app_name)),
            None => (None),
        },
        None => (None),
    };
    let (game_item_description, game_item_category) = match game_items {
        Some(v) => match find_game_item(v, row.game_item_id) {
            Some(j) => (clone_opt_string(&v[j].game_item_description), clone_opt_string(&v[j].game_item_category)),
            None => (None, None),
        },
        None => (None, None),
    };
    let (key_request_notes, game_code_id, game_code_description, territory_code_id, territory_code_description) = match key_requests {
        Some(v) => match find_key_request(v, row.key_request_id.unwrap_or(0)) {
            Some(j) => (clone_opt_string(&v[j].key_request_notes), v[j].game_code_id, clone_opt_string(&v[j].game_code_description), v[j].territory_code_id, clone_opt_string(&v[j].territory_code_description)),
            None => (None, None, None, None, None),
        },
        None => (None, None, None, None, None),
    };
    let (country_name, region) = match countries {
        Some(v) => match find_country(v, &row.country_code) {
            Some(j) => (clone_opt_string(&v[j].country_name), clone_opt_string(&v[j].region)),
            None => (None, None),
        },
        None => (None, None),
    };
    let (combined_discount_name, total_discount_percentage) = match combined_discounts {
        Some(v) => match find_combined_discount(v, row.combined_discount_id.unwrap_or(0)) {
            Some(j) => (clone_opt_string(&v[j].combined_discount_name), v[j].total_discount_percentage),
            None => (None, None),
        },
        None => (None, None),
    };
    CPartnerFinancialsDetailedSalesResult {
        partnerid: row.partnerid,
        date: row.date.clone(),
        line_item_type: clone_opt_string(&row.line_item_type),
        packageid: row.packageid,
        bundleid: row.bundleid,
        appid: row.appid,
        game_item_id: row.game_item_id,
        package_sale_type: clone_opt_string(&row.package_sale_type),
        key_request_id: row.key_request_id,
        platform: clone_opt_string(&row.platform),
        country_code: clone_opt_string(&row.country_code),
        base_price: row.base_price,
        sale_price: row.sale_price,
        currency: clone_opt_string(&row.currency),
        gross_units_sold: row.gross_units_sold,
        gross_units_returned: row.gross_units_returned,
        gross_sales_usd: clone_opt_string(&row.gross_sales_usd),
        gross_returns_usd: clone_opt_string(&row.gross_returns_usd),
        net_tax_usd: clone_opt_string(&row.net_tax_usd),
        gross_units_activated: row.gross_units_activated,
        view_grant_partnerid: row.view_grant_partnerid,
        net_units_sold: row.net_units_sold,
        net_sales_usd: clone_opt_string(&row.net_sales_usd),
        avg_sale_price_usd: clone_opt_string(&row.avg_sale_price_usd),
        combined_discount_id: row.combined_discount_id,
        primary_appid: row.primary_appid,
        additional_revenue_share_tier: row.additional_revenue_share_tier,
        partner_name,
        package_name,
        bundle_name,
        app_name,
        game_item_description,
        game_item_category,
        key_request_notes,
        game_code_id,
        game_code_description,
        territory_code_id,
        territory_code_description,
        country_name,
        region,
        combined_discount_name,
        total_discount_percentage,
    }
}

/// Join one stored fact row against the store's reference tables.
pub fn join_row(
    row: &CPartnerFinancialsDetailedSalesResult,
    key_requests: &Vec<CPartnerFinancialsKeyRequestInfo>,
    packages: &Vec<CPartnerFinancialsPackageInfo>,
    apps: &Vec<CPartnerFinancialsAppInfo>,
    bundles: &Vec<CPartnerFinancialsBundleInfo>,
    combined_discounts: &Vec<CPartnerFinancialsCombinedDiscountInfo>,
    game_items: &Vec<CPartnerFinancialsGameItemInfo>,
    countries: &Vec<CPartnerFinancialsCountryInfo>,
    partners: &Vec<CPartnerFinancialsPartnerInfo>,
) -> (r: CPartnerFinancialsDetailedSalesResult)
    ensures
        r == joined_row(
            *row,
            key_requests@,
            packages@,
            apps@,
            bundles@,
            combined_discounts@,
            game_items@,
            countries@,
            partners@,
        ),
{
    let partner_name = match find_partner(partners, row.partnerid) {
        Some(j) => clone_opt_string(&partners[j].partner_name),
        None => None,
    };
    let (package_name) = match row.packageid {
        Some(id) => match find_package(packages, id) {
            Some(j) => (clone_opt_string(&packages[j].package_name)),
            None => (None),
        },
        None => (None),
    };
    let (bundle_name) = match row.bundleid {
        Some(id) => match find_bundle(bundles, id) {
            Some(j) => (clone_opt_string(&bundles[j].bundle_name)),
            None => (None),
        },
        None => (None),
    };
    let (app_name) = match row.appid {
        Some(id) => match find_app(apps, id) {
            Some(j) => (clone_opt_string(&apps[j].app_name)),
            None => (None),
        },
        None => (None),
    };
    let (game_item_description, game_item_category) = match row.game_item_id {
        Some(id) => match find_game_item(game_items, Some(id)) {
            Some(j) => (clone_opt_string(&game_items[j].game_item_description), clone_opt_string(&game_items[j].game_item_category)),
            None => (None, None),
        },
        None => (None, None),
    };
    let (key_request_notes, game_code_id, game_code_description, territory_code_id, territory_code_description) = match row.key_request_id {
        Some(id) => match find_key_request(key_requests, id) {
            Some(j) => (clone_opt_string(&key_requests[j].key_request_notes), key_requests[j].game_code_id, clone_opt_string(&key_requests[j].game_code_description), key_requests[j].territory_code_id, clone_opt_string(&key_requests[j].territory_code_description)),
            None => (None, None, None, None, None),
        },
        None => (None, None, None, None, None),
    };
    let (country_name, region) = match &row.country_code {
        Some(_) => match find_country(countries, &row.country_code) {
            Some(j) => (
                clone_opt_string(&countries[j].country_name),
                clone_opt_string(&countries[j].region),
            ),
            None => (None, None),
        },
        None => (None, None),
    };
    let (combined_discount_name, total_discount_percentage) = match row.combined_discount_id {
        Some(id) => match find_combined_discount(combined_discounts, id) {
            Some(j) => (clone_opt_string(&combined_discounts[j].combined_discount_name), combined_discounts[j].total_discount_percentage),
            None => (None, None),
        },
        None => (None, None),
    };
    CPartnerFinancialsDetailedSalesResult {
        partnerid: row.partnerid,
        date: row.date.clone(),
        line_item_type: clone_opt_string(&row.line_item_type),
        packageid: row.packageid,
        bundleid: row.bundleid,
        appid: row.appid,
        game_item_id: row.game_item_id,
        package_sale_type: clone_opt_string(&row.package_sale_type),
        key_request_id: row.key_request_id,
        platform: clone_opt_string(&row.platform),
        country_code: clone_opt_string(&row.country_code),
        base_price: row.base_price,
        sale_price: row.sale_price,
        currency: clone_opt_string(&row.currency),
        gross_units_sold: row.gross_units_sold,
        gross_units_returned: row.gross_units_returned,
        gross_sales_usd: clone_opt_string(&row.gross_sales_usd),
        gross_returns_usd: clone_opt_string(&row.gross_returns_usd),
        net_tax_usd: clone_opt_string(&row.net_tax_usd),
        gross_units_activated: row.gross_units_activated,
        view_grant_partnerid: row.view_grant_partnerid,
        net_units_sold: row.net_units_sold,
        net_sales_usd: clone_opt_string(&row.net_sales_usd),
        avg_sale_price_usd: clone_opt_string(&row.avg_sale_price_usd),
        combined_discount_id: row.combined_discount_id,
        primary_appid: row.primary_appid,
        additional_revenue_share_tier: row.additional_revenue_share_tier,
        partner_name,
        package_name,
        bundle_name,
        app_name,
        game_item_description,
        game_item_category,
        key_request_notes,
        game_code_id,
        game_code_description,
        territory_code_id,
        territory_code_description,
        country_name,
        region,
        combined_discount_name,
        total_discount_percentage,
    }
}

} // verus!
