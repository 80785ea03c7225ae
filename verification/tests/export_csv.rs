use steamboard::errors::ErrClass;
use steamboard::export::{render_table, write_csv};
use steamboard::records::CPartnerFinancialsDetailedSalesResult;

#[test]
fn field_holding_the_delimiter_is_quoted() {
    // Rows [{a: 1, b: "x,y"}] with delimiter ',' serialize with the second
    // field quoted per standard escaping.
    let table = vec![
        vec!["a".to_string(), "b".to_string()],
        vec!["1".to_string(), "x,y".to_string()],
    ];
    let out = render_table(&table, b',').unwrap();
    assert_eq!(out, "a,b\n1,\"x,y\"\n");
}

#[test]
fn quotes_inside_fields_are_doubled() {
    let table = vec![
        vec!["a".to_string(), "b".to_string()],
        vec!["say \"hi\"".to_string(), "plain".to_string()],
    ];
    let out = render_table(&table, b',').unwrap();
    assert_eq!(out, "a,b\n\"say \"\"hi\"\"\",plain\n");
}

#[test]
fn alternate_delimiter_changes_quoting() {
    let table = vec![
        vec!["a".to_string(), "b".to_string()],
        vec!["x,y".to_string(), "x;y".to_string()],
    ];
    let out = render_table(&table, b';').unwrap();
    // With ';' as delimiter the comma needs no quote, the semicolon does.
    assert_eq!(out, "a;b\nx,y;\"x;y\"\n");
}

#[test]
fn export_writes_header_and_rows() {
    let mut r = CPartnerFinancialsDetailedSalesResult::default();
    r.partnerid = 7;
    r.date = "2024-03-01".to_string();
    r.package_name = Some("x,y".to_string());
    r.base_price = Some(499);
    r.gross_sales_usd = Some("12.34".to_string());
    let out = write_csv(&vec![r], b',').unwrap();

    let lines: Vec<&str> = out.lines().collect();
    assert_eq!(lines.len(), 2);
    assert!(lines[0].starts_with("partnerid,date,line_item_type,"));
    assert_eq!(lines[0].split(',').count(), 42);
    assert!(lines[1].starts_with("7,2024-03-01,"));
    assert!(lines[1].contains("\"x,y\""));
    assert!(lines[1].contains("499"));
    assert!(lines[1].contains("12.34"));
}

#[test]
fn export_of_no_rows_is_the_header_alone() {
    let out = write_csv(&vec![], b',').unwrap();
    assert_eq!(out.lines().count(), 1);
    assert!(out.ends_with('\n'));
}

#[test]
fn export_rejects_only_impossible_delimiters() {
    let table = vec![vec!["a".to_string(), "b".to_string()]];
    // A delimiter outside ASCII yields bytes no UTF-8 string can hold.
    match render_table(&table, 0xFF) {
        Ok(_) => {},
        Err(e) => assert_eq!(e.class(), ErrClass::BadFormatting),
    }
}
