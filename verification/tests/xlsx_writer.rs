use gravity_ledger::archive::{zip_archive, ArchiveError};
use gravity_ledger::xlsx::{
    col_letter, content_types_xml, e, esc, n, sheet_xml, styles_xml, t, workbook_parts,
    workbook_rels_xml, workbook_xml, xlsx_bytes, Cell, Sheet,
};
use std::io::Read;

fn read_back(bytes: &[u8]) -> Vec<(String, Vec<u8>)> {
    let mut archive = zip::ZipArchive::new(std::io::Cursor::new(bytes.to_vec())).unwrap();
    let mut out = Vec::new();
    for i in 0..archive.len() {
        let mut f = archive.by_index(i).unwrap();
        let mut data = Vec::new();
        f.read_to_end(&mut data).unwrap();
        out.push((f.name().to_string(), data));
    }
    out
}

#[test]
fn col_letter_names_columns() {
    assert_eq!(col_letter(0), "A");
    assert_eq!(col_letter(1), "B");
    assert_eq!(col_letter(25), "Z");
    assert_eq!(col_letter(26), "AA");
    assert_eq!(col_letter(27), "AB");
    assert_eq!(col_letter(51), "AZ");
    assert_eq!(col_letter(52), "BA");
    assert_eq!(col_letter(701), "ZZ");
    assert_eq!(col_letter(702), "AAA");
}

#[test]
fn esc_replaces_markup_characters() {
    assert_eq!(esc("plain"), "plain");
    assert_eq!(esc("P&L <a> \"q\""), "P&amp;L &lt;a&gt; &quot;q&quot;");
    assert_eq!(esc("&amp;"), "&amp;amp;");
    assert_eq!(esc("it's — ok"), "it's — ok");
    assert_eq!(esc(""), "");
}

#[test]
fn cell_constructors() {
    assert!(matches!(t("x"), Cell::Text(ref s) if s == "x"));
    assert!(matches!(n("1.5"), Cell::Num(ref s) if s == "1.5"));
    assert!(matches!(e(), Cell::Empty));
}

#[test]
fn sheet_builders_record_rows_and_styles() {
    let mut s = Sheet::new("S");
    s.title("Title").row(vec![e()]).header(vec![t("a"), t("b")]);
    s.widths(&["10", "20.5"]);
    assert_eq!(s.name, "S");
    assert_eq!(s.rows.len(), 3);
    assert_eq!(s.title_rows, vec![0]);
    assert_eq!(s.header_rows, vec![2]);
    assert_eq!(s.col_widths, vec!["10".to_string(), "20.5".to_string()]);
}

#[test]
fn sheet_xml_of_small_sheet() {
    let mut s = Sheet::new("Demo");
    s.widths(&["26", "90"]);
    s.title("T & C");
    s.header(vec![t("qty"), t("price")]);
    s.row(vec![n("2"), t("<x>"), e()]);
    let expected = [
        r#"<?xml version="1.0" encoding="UTF-8" standalone="yes"?>"#,
        r#"<worksheet xmlns="http://schemas.openxmlformats.org/spreadsheetml/2006/main">"#,
        r#"<cols><col min="1" max="1" width="26" customWidth="1"/><col min="2" max="2" width="90" customWidth="1"/></cols>"#,
        r#"<sheetData>"#,
        r#"<row r="1"><c r="A1" s="2" t="inlineStr"><is><t xml:space="preserve">T &amp; C</t></is></c></row>"#,
        r#"<row r="2"><c r="A2" s="1" t="inlineStr"><is><t xml:space="preserve">qty</t></is></c><c r="B2" s="1" t="inlineStr"><is><t xml:space="preserve">price</t></is></c></row>"#,
        r#"<row r="3"><c r="A3" s="3"><v>2</v></c><c r="B3" s="0" t="inlineStr"><is><t xml:space="preserve">&lt;x&gt;</t></is></c><c r="C3" s="0"/></row>"#,
        r#"</sheetData></worksheet>"#,
    ].concat();
    assert_eq!(sheet_xml(&s), expected);
}

#[test]
fn sheet_xml_without_widths_or_rows() {
    let s = Sheet::new("Empty");
    assert_eq!(
        sheet_xml(&s),
        [
            r#"<?xml version="1.0" encoding="UTF-8" standalone="yes"?>"#,
            r#"<worksheet xmlns="http://schemas.openxmlformats.org/spreadsheetml/2006/main">"#,
            r#"<sheetData></sheetData></worksheet>"#
        ].concat()
    );
}

#[test]
fn header_row_numbers_take_header_style() {
    let mut s = Sheet::new("H");
    s.header(vec![n("5")]);
    let x = sheet_xml(&s);
    assert!(x.contains(r#"<c r="A1" s="1"><v>5</v></c>"#));
}

#[test]
fn package_parts_for_two_sheets() {
    let sheets = vec![Sheet::new("One"), Sheet::new("P&L")];
    assert_eq!(
        workbook_xml(&sheets),
        [
            r#"<?xml version="1.0" encoding="UTF-8" standalone="yes"?><workbook xmlns="http://schemas.openxmlformats.org/spreadsheetml/2006/main" xmlns:r="http://schemas.openxmlformats.org/officeDocument/2006/relationships"><sheets>"#,
            r#"<sheet name="One" sheetId="1" r:id="rId1"/><sheet name="P&amp;L" sheetId="2" r:id="rId2"/>"#,
            r#"</sheets></workbook>"#
        ].concat()
    );
    let ct = content_types_xml(2);
    assert!(ct.ends_with(r#"<Override PartName="/xl/worksheets/sheet2.xml" ContentType="application/vnd.openxmlformats-officedocument.spreadsheetml.worksheet+xml"/></Types>"#));
    assert_eq!(ct.matches("/xl/worksheets/sheet").count(), 2);
    let rels = workbook_rels_xml(2);
    assert!(rels.contains(r#"<Relationship Id="rId2" Type="http://schemas.openxmlformats.org/officeDocument/2006/relationships/worksheet" Target="worksheets/sheet2.xml"/>"#));
    assert!(rels.ends_with(r#"<Relationship Id="rId3" Type="http://schemas.openxmlformats.org/officeDocument/2006/relationships/styles" Target="styles.xml"/></Relationships>"#));
    let parts = workbook_parts(&sheets);
    let names: Vec<&str> = parts.iter().map(|p| p.0.as_str()).collect();
    assert_eq!(
        names,
        vec![
            "[Content_Types].xml",
            "_rels/.rels",
            "xl/workbook.xml",
            "xl/_rels/workbook.xml.rels",
            "xl/styles.xml",
            "xl/worksheets/sheet1.xml",
            "xl/worksheets/sheet2.xml"
        ]
    );
    assert_eq!(parts[4].1, styles_xml());
    assert_eq!(parts[6].1, sheet_xml(&sheets[1]));
}

#[test]
fn styles_xml_has_four_cell_formats() {
    let s = styles_xml();
    assert!(s.starts_with(r#"<?xml version="1.0" encoding="UTF-8" standalone="yes"?>"#));
    assert!(s.contains(r#"<cellXfs count="4">"#));
    assert!(s.contains(r##"formatCode="#,##0.00######;[Red]-#,##0.00######""##));
    assert!(s.ends_with("</styleSheet>"));
}

#[test]
fn xlsx_bytes_round_trip() {
    let mut s = Sheet::new("Data");
    s.header(vec![t("a")]);
    s.row(vec![n("1")]);
    let sheets = vec![s];
    let bytes = xlsx_bytes(&sheets).ok().unwrap();
    assert_eq!(&bytes[0..4], b"PK\x03\x04");
    let back = read_back(&bytes);
    let parts = workbook_parts(&sheets);
    assert_eq!(back.len(), parts.len());
    for (got, want) in back.iter().zip(parts.iter()) {
        assert_eq!(got.0, want.0);
        assert_eq!(got.1, want.1.as_bytes());
    }
}

#[test]
fn zip_archive_round_trip() {
    let entries = vec![
        ("a.txt".to_string(), b"hello".to_vec()),
        ("dir/b.bin".to_string(), vec![0u8, 1, 2, 255]),
        ("empty".to_string(), Vec::new()),
    ];
    let bytes = zip_archive(&entries).ok().unwrap();
    assert_eq!(read_back(&bytes), entries);
}

#[test]
fn zip_archive_of_nothing_is_an_empty_archive() {
    let bytes = zip_archive(&Vec::new()).ok().unwrap();
    assert!(read_back(&bytes).is_empty());
    let _unused: Option<ArchiveError> = None;
}
