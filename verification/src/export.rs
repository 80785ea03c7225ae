//! Bulk export: one header line of field names, one line per fact row,
//! fields joined by a single-byte delimiter, standard quoting for fields
//! that hold the delimiter, a quote or a line break.

use vstd::prelude::*;

use crate::errors::ErrorType;
use crate::records::CPartnerFinancialsDetailedSalesResult;

verus! {

use vstd::string::StringExecFns;

/// The decimal digits of a non-negative number.
pub open spec fn dec_digits(n: nat) -> Seq<char>
    decreases n,
{
    if n < 10 {
        seq![((48 + n) as u8) as char]
    } else {
        dec_digits(n / 10).push(((48 + (n % 10)) as u8) as char)
    }
}

/// The decimal rendering of an integer: a minus sign for a negative value,
/// then its digits.
pub open spec fn dec_str_of(n: int) -> Seq<char> {
    if n < 0 {
        seq!['-'] + dec_digits((-n) as nat)
    } else {
        dec_digits(n as nat)
    }
}

/// Relies on `i64::to_string`: the decimal rendering of the value.
#[verifier::external_body]
fn i64_to_string(x: i64) -> (r: String)
    ensures
        r@ == dec_str_of(x as int),
{
    x.to_string()
}

/// An optional numeric field renders as its digits, or empty.
pub open spec fn opt_int_field_32(o: Option<i32>) -> Seq<char> {
    match o {
        Option::Some(v) => dec_str_of(v as int),
        Option::None => Seq::empty(),
    }
}

/// An optional numeric field renders as its digits, or empty.
pub open spec fn opt_int_field_64(o: Option<i64>) -> Seq<char> {
    match o {
        Option::Some(v) => dec_str_of(v as int),
        Option::None => Seq::empty(),
    }
}

/// An optional text field renders as its text, or empty.
pub open spec fn opt_text_field(o: Option<String>) -> Seq<char> {
    match o {
        Option::Some(s) => s@,
        Option::None => Seq::empty(),
    }
}

fn opt_i32_field_exec(o: &Option<i32>) -> (s: String)
    ensures
        s@ == opt_int_field_32(*o),
{
    match o {
        Some(v) => i64_to_string(*v as i64),
        None => String::new(),
    }
}

fn opt_i64_field_exec(o: &Option<i64>) -> (s: String)
    ensures
        s@ == opt_int_field_64(*o),
{
    match o {
        Some(v) => i64_to_string(*v),
        None => String::new(),
    }
}

fn opt_text_field_exec(o: &Option<String>) -> (s: String)
    ensures
        s@ == opt_text_field(*o),
{
    match o {
        Some(s) => s.clone(),
        None => String::new(),
    }
}

/// Whether standard quoting must wrap a field: it holds the delimiter, a
/// double quote, or a line break.
pub open spec fn needs_quote(f: Seq<char>, d: u8) -> bool {
    exists|i: int|
        0 <= i < f.len() && (f[i] == d as char || f[i] == '"' || f[i] == '\r' || f[i] == '\n')
}

/// A field's text with every double quote doubled.
pub open spec fn escape_quotes(f: Seq<char>) -> Seq<char>
    decreases f.len(),
{
    if f.len() == 0 {
        Seq::empty()
    } else {
        (if f[0] == '"' {
            seq!['"', '"']
        } else {
            seq![f[0]]
        }) + escape_quotes(f.drop_first())
    }
}

/// A rendered field: wrapped in quotes, with inner quotes doubled, exactly
/// where quoting is needed.
pub open spec fn csv_field(f: Seq<char>, d: u8) -> Seq<char> {
    if needs_quote(f, d) {
        seq!['"'] + escape_quotes(f) + seq!['"']
    } else {
        f
    }
}

/// A rendered record: its fields joined by the delimiter.
pub open spec fn csv_line(row: Seq<Seq<char>>, d: u8) -> Seq<char>
    decreases row.len(),
{
    if row.len() == 0 {
        Seq::empty()
    } else if row.len() == 1 {
        csv_field(row[0], d)
    } else {
        csv_field(row[0], d) + seq![d as char] + csv_line(row.drop_first(), d)
    }
}

/// A rendered table: each record's line ended by a newline.
pub open spec fn csv_text(rows: Seq<Seq<Seq<char>>>, d: u8) -> Seq<char>
    decreases rows.len(),
{
    if rows.len() == 0 {
        Seq::empty()
    } else {
        csv_line(rows[0], d) + seq!['\n'] + csv_text(rows.drop_first(), d)
    }
}

/// Relies on `csv::WriterBuilder` and `csv::Writer::write_record` with the
/// default configuration but the given delimiter: a field is quoted exactly
/// when it holds the delimiter, a double quote or a line break, quotes are
/// doubled inside quoted fields, and each record ends with a newline.  For
/// an ASCII delimiter the rendering is a pure function of the records.
#[verifier::external_body]
fn csv_render(rows: &Vec<Vec<String>>, delimiter: u8) -> (r: Result<String, ()>)
    requires
        forall|i: int| 0 <= i < rows@.len() ==> #[trigger] rows@[i]@.len() == rows@[0]@.len(),
        rows@.len() > 0 ==> rows@[0]@.len() >= 2,
    ensures
        delimiter < 128 ==> r is Ok,
        r matches Ok(s) ==> delimiter >= 128 || s@ == csv_text(rows.deep_view(), delimiter),
{
    let mut buffer = Vec::new();
    {
        let mut wtr = csv::WriterBuilder::new().delimiter(delimiter).from_writer(&mut buffer);
        for record in rows.iter() {
            wtr.write_record(record).map_err(|_| ())?;
        }
        wtr.flush().map_err(|_| ())?;
    }
    String::from_utf8(buffer).map_err(|_| ())
}

/// Render an ordered table of records as delimited text.  For an ASCII
/// delimiter the result is exactly the standard rendering; a delimiter
/// outside ASCII can fail as a formatting error.
pub fn render_table(rows: &Vec<Vec<String>>, delimiter: u8) -> (r: Result<String, ErrorType>)
    requires
        forall|i: int| 0 <= i < rows@.len() ==> #[trigger] rows@[i]@.len() == rows@[0]@.len(),
        rows@.len() > 0 ==> rows@[0]@.len() >= 2,
    ensures
        delimiter < 128 ==> (r matches Ok(s) && s@ == csv_text(rows.deep_view(), delimiter)),
        r matches Err(e) ==> e is BadFormatting,
{
    match csv_render(rows, delimiter) {
        Ok(s) => Ok(s),
        Err(_) => Err(ErrorType::BadFormatting(String::from_str("delimited rendering failed"))),
    }
}

/// The header line's field names, in column order.
pub open spec fn spec_header_fields() -> Seq<Seq<char>> {
    seq![
        "partnerid"@,
        "date"@,
        "line_item_type"@,
        "packageid"@,
        "bundleid"@,
        "appid"@,
        "game_item_id"@,
        "package_sale_type"@,
        "key_request_id"@,
        "platform"@,
        "country_code"@,
        "base_price"@,
        "sale_price"@,
        "currency"@,
        "gross_units_sold"@,
        "gross_units_returned"@,
        "gross_sales_usd"@,
        "gross_returns_usd"@,
        "net_tax_usd"@,
        "gross_units_activated"@,
        "view_grant_partnerid"@,
        "net_units_sold"@,
        "net_sales_usd"@,
        "avg_sale_price_usd"@,
        "combined_discount_id"@,
        "primary_appid"@,
        "additional_revenue_share_tier"@,
        "partner_name"@,
        "package_name"@,
        "bundle_name"@,
        "app_name"@,
        "game_item_description"@,
        "game_item_category"@,
        "key_request_notes"@,
        "game_code_id"@,
        "game_code_description"@,
        "territory_code_id"@,
        "territory_code_description"@,
        "country_name"@,
        "region"@,
        "combined_discount_name"@,
        "total_discount_percentage"@
    ]
}

/// The rendered fields of one fact row, in column order.
pub open spec fn spec_row_fields(r: CPartnerFinancialsDetailedSalesResult) -> Seq<Seq<char>> {
    seq![
        dec_str_of(r.partnerid as int),
        r.date@,
        opt_text_field(r.line_item_type),
        opt_int_field_32(r.packageid),
        opt_int_field_32(r.bundleid),
        opt_int_field_32(r.appid),
        opt_int_field_32(r.game_item_id),
        opt_text_field(r.package_sale_type),
        opt_int_field_32(r.key_request_id),
        opt_text_field(r.platform),
        opt_text_field(r.country_code),
        opt_int_field_64(r.base_price),
        opt_int_field_64(r.sale_price),
        opt_text_field(r.currency),
        opt_int_field_32(r.gross_units_sold),
        opt_int_field_32(r.gross_units_returned),
        opt_text_field(r.gross_sales_usd),
        opt_text_field(r.gross_returns_usd),
        opt_text_field(r.net_tax_usd),
        opt_int_field_32(r.gross_units_activated),
        opt_int_field_32(r.view_grant_partnerid),
        opt_int_field_32(r.net_units_sold),
        opt_text_field(r.net_sales_usd),
        opt_text_field(r.avg_sale_price_usd),
        opt_int_field_32(r.combined_discount_id),
        opt_int_field_32(r.primary_appid),
        opt_int_field_32(r.additional_revenue_share_tier),
        opt_text_field(r.partner_name),
        opt_text_field(r.package_name),
        opt_text_field(r.bundle_name),
        opt_text_field(r.app_name),
        opt_text_field(r.game_item_description),
        opt_text_field(r.game_item_category),
        opt_text_field(r.key_request_notes),
        opt_int_field_32(r.game_code_id),
        opt_text_field(r.game_code_description),
        opt_int_field_32(r.territory_code_id),
        opt_text_field(r.territory_code_description),
        opt_text_field(r.country_name),
        opt_text_field(r.region),
        opt_text_field(r.combined_discount_name),
        opt_int_field_32(r.total_discount_percentage)
    ]
}

/// The full table a fact-row export renders: the header, then one record
/// per row.
pub open spec fn sales_table(rows: Seq<CPartnerFinancialsDetailedSalesResult>) -> Seq<
    Seq<Seq<char>>,
> {
    seq![spec_header_fields()] + rows.map_values(
        |r: CPartnerFinancialsDetailedSalesResult| spec_row_fields(r),
    )
}

fn header_fields() -> (out: Vec<String>)
    ensures
        out.deep_view() == spec_header_fields(),
        out@.len() == 42,
{
    let mut out: Vec<String> = Vec::new();
    out.push(String::from_str("partnerid"));
    out.push(String::from_str("date"));
    out.push(String::from_str("line_item_type"));
    out.push(String::from_str("packageid"));
    out.push(String::from_str("bundleid"));
    out.push(String::from_str("appid"));
    out.push(String::from_str("game_item_id"));
    out.push(String::from_str("package_sale_type"));
    out.push(String::from_str("key_request_id"));
    out.push(String::from_str("platform"));
    out.push(String::from_str("country_code"));
    out.push(String::from_str("base_price"));
    out.push(String::from_str("sale_price"));
    out.push(String::from_str("currency"));
    out.push(String::from_str("gross_units_sold"));
    out.push(String::from_str("gross_units_returned"));
    out.push(String::from_str("gross_sales_usd"));
    out.push(String::from_str("gross_returns_usd"));
    out.push(String::from_str("net_tax_usd"));
    out.push(String::from_str("gross_units_activated"));
    out.push(String::from_str("view_grant_partnerid"));
    out.push(String::from_str("net_units_sold"));
    out.push(String::from_str("net_sales_usd"));
    out.push(String::from_str("avg_sale_price_usd"));
    out.push(String::from_str("combined_discount_id"));
    out.push(String::from_str("primary_appid"));
    out.push(String::from_str("additional_revenue_share_tier"));
    out.push(String::from_str("partner_name"));
    out.push(String::from_str("package_name"));
    out.push(String::from_str("bundle_name"));
    out.push(String::from_str("app_name"));
    out.push(String::from_str("game_item_description"));
    out.push(String::from_str("game_item_category"));
    out.push(String::from_str("key_request_notes"));
    out.push(String::from_str("game_code_id"));
    out.push(String::from_str("game_code_description"));
    out.push(String::from_str("territory_code_id"));
    out.push(String::from_str("territory_code_description"));
    out.push(String::from_str("country_name"));
    out.push(String::from_str("region"));
    out.push(String::from_str("combined_discount_name"));
    out.push(String::from_str("total_discount_percentage"));
    proof {
        reveal_strlit("partnerid");
        reveal_strlit("date");
        reveal_strlit("line_item_type");
        reveal_strlit("packageid");
        reveal_strlit("bundleid");
        reveal_strlit("appid");
        reveal_strlit("game_item_id");
        reveal_strlit("package_sale_type");
        reveal_strlit("key_request_id");
        reveal_strlit("platform");
        reveal_strlit("country_code");
        reveal_strlit("base_price");
        reveal_strlit("sale_price");
        reveal_strlit("currency");
        reveal_strlit("gross_units_sold");
        reveal_strlit("gross_units_returned");
        reveal_strlit("gross_sales_usd");
        reveal_strlit("gross_returns_usd");
        reveal_strlit("net_tax_usd");
        reveal_strlit("gross_units_activated");
        reveal_strlit("view_grant_partnerid");
        reveal_strlit("net_units_sold");
        reveal_strlit("net_sales_usd");
        reveal_strlit("avg_sale_price_usd");
        reveal_strlit("combined_discount_id");
        reveal_strlit("primary_appid");
        reveal_strlit("additional_revenue_share_tier");
        reveal_strlit("partner_name");
        reveal_strlit("package_name");
        reveal_strlit("bundle_name");
        reveal_strlit("app_name");
        reveal_strlit("game_item_description");
        reveal_strlit("game_item_category");
        reveal_strlit("key_request_notes");
        reveal_strlit("game_code_id");
        reveal_strlit("game_code_description");
        reveal_strlit("territory_code_id");
        reveal_strlit("territory_code_description");
        reveal_strlit("country_name");
        reveal_strlit("region");
        reveal_strlit("combined_discount_name");
        reveal_strlit("total_discount_percentage");
        assert(out.deep_view() =~= spec_header_fields());
    }
    out
}

fn row_fields(r: &CPartnerFinancialsDetailedSalesResult) -> (out: Vec<String>)
    ensures
        out.deep_view() == spec_row_fields(*r),
        out@.len() == 42,
{
    let mut out: Vec<String> = Vec::new();
    out.push(i64_to_string(r.partnerid as i64));
    out.push(r.date.clone());
    out.push(opt_text_field_exec(&r.line_item_type));
    out.push(opt_i32_field_exec(&r.packageid));
    out.push(opt_i32_field_exec(&r.bundleid));
    out.push(opt_i32_field_exec(&r.appid));
    out.push(opt_i32_field_exec(&r.game_item_id));
    out.push(opt_text_field_exec(&r.package_sale_type));
    out.push(opt_i32_field_exec(&r.key_request_id));
    out.push(opt_text_field_exec(&r.platform));
    out.push(opt_text_field_exec(&r.country_code));
    out.push(opt_i64_field_exec(&r.base_price));
    out.push(opt_i64_field_exec(&r.sale_price));
    out.push(opt_text_field_exec(&r.currency));
    out.push(opt_i32_field_exec(&r.gross_units_sold));
    out.push(opt_i32_field_exec(&r.gross_units_returned));
    out.push(opt_text_field_exec(&r.gross_sales_usd));
    out.push(opt_text_field_exec(&r.gross_returns_usd));
    out.push(opt_text_field_exec(&r.net_tax_usd));
    out.push(opt_i32_field_exec(&r.gross_units_activated));
    out.push(opt_i32_field_exec(&r.view_grant_partnerid));
    out.push(opt_i32_field_exec(&r.net_units_sold));
    out.push(opt_text_field_exec(&r.net_sales_usd));
    out.push(opt_text_field_exec(&r.avg_sale_price_usd));
    out.push(opt_i32_field_exec(&r.combined_discount_id));
    out.push(opt_i32_field_exec(&r.primary_appid));
    out.push(opt_i32_field_exec(&r.additional_revenue_share_tier));
    out.push(opt_text_field_exec(&r.partner_name));
    out.push(opt_text_field_exec(&r.package_name));
    out.push(opt_text_field_exec(&r.bundle_name));
    out.push(opt_text_field_exec(&r.app_name));
    out.push(opt_text_field_exec(&r.game_item_description));
    out.push(opt_text_field_exec(&r.game_item_category));
    out.push(opt_text_field_exec(&r.key_request_notes));
    out.push(opt_i32_field_exec(&r.game_code_id));
    out.push(opt_text_field_exec(&r.game_code_description));
    out.push(opt_i32_field_exec(&r.territory_code_id));
    out.push(opt_text_field_exec(&r.territory_code_description));
    out.push(opt_text_field_exec(&r.country_name));
    out.push(opt_text_field_exec(&r.region));
    out.push(opt_text_field_exec(&r.combined_discount_name));
    out.push(opt_i32_field_exec(&r.total_discount_percentage));
    proof {
        assert(out.deep_view() =~= spec_row_fields(*r));
    }
    out
}

/// Serialize fact rows as delimited text: a header line of field names,
/// then one line per row, with standard quoting.
pub fn write_csv(data: &Vec<CPartnerFinancialsDetailedSalesResult>, delimiter: u8) -> (r: Result<
    String,
    ErrorType,
>)
    ensures
        delimiter < 128 ==> (r matches Ok(s) && s@ == csv_text(sales_table(data@), delimiter)),
        r matches Err(e) ==> e is BadFormatting,
{
    let mut table: Vec<Vec<String>> = Vec::new();
    table.push(header_fields());
    let mut i: usize = 0;
    while i < data.len()
        invariant
            i <= data@.len(),
            table@.len() == i + 1,
            table@[0].deep_view() == spec_header_fields(),
            table@[0]@.len() == 42,
            forall|m: int|
                1 <= m < table@.len() ==> #[trigger] table@[m].deep_view() == spec_row_fields(
                    data@[m - 1],
                ),
            forall|m: int| 0 <= m < table@.len() ==> #[trigger] table@[m]@.len() == 42,
        decreases data@.len() - i,
    {
        table.push(row_fields(&data[i]));
        i += 1;
    }
    proof {
        assert(table.deep_view() =~~= sales_table(data@));
    }
    render_table(&table, delimiter)
}

} // verus!
