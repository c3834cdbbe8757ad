use gravity_ledger::doc::{build_doc, Block};
use gravity_ledger::vba::modules;
use gravity_ledger::workbook::{build_setup, build_sheets, build_vbs, bundle_entries, header};
use gravity_ledger::xlsx::{sheet_xml, Cell};

#[test]
fn modules_in_import_order() {
    let m = modules();
    let names: Vec<&str> = m.iter().map(|x| x.0).collect();
    assert_eq!(names, vec!["modMain", "modEngine", "modReports"]);
    for (name, src) in &m {
        assert!(src.starts_with(&format!("Attribute VB_Name = \"{}\"", name)));
    }
    assert!(m[0].1.contains("Public Sub RunAll()"));
    assert!(m[1].1.contains("ConsumeFifo"));
    assert!(m[2].1.ends_with("End Sub\n"));
}

#[test]
fn header_is_text_cells() {
    let h = header(&["a", "b"]);
    assert_eq!(h.len(), 2);
    assert!(matches!(&h[1], Cell::Text(s) if s == "b"));
}

#[test]
fn build_sheets_names_and_demo_rows() {
    let sheets = build_sheets();
    let names: Vec<&str> = sheets.iter().map(|s| s.name.as_str()).collect();
    assert_eq!(
        names,
        vec![
            "README", "OpeningBalances", "Trades", "Transfers", "BankStatement", "Marks",
            "ChartOfAccounts", "Journal", "JournalLines", "Lots", "TrialBalance", "Balances",
            "ExchangeBalances", "Positions", "Loans", "PnL", "IncomeStatement", "BalanceSheet",
            "Reconciliation"
        ]
    );
    let trades = sheet_xml(&sheets[2]);
    assert!(trades.contains(r#"<c r="E6" s="3"><v>0.5</v></c><c r="F6" s="3"><v>1000000000</v></c><c r="G6" s="3"><v>100000</v></c>"#));
    let transfers = sheet_xml(&sheets[3]);
    assert!(transfers.contains(r#"<c r="F2" s="3"><v>0.0005</v></c>"#));
    let readme = sheet_xml(&sheets[0]);
    assert!(readme.contains(r#"<col min="2" max="2" width="90" customWidth="1"/>"#));
    assert!(readme.contains("realized 7497.5, unrealized 31496.5, fees 140, net 38854"));
    let stub = sheet_xml(&sheets[18]);
    assert!(stub.contains("(click RUN ALL to populate)"));
}

#[test]
fn builder_and_setup_texts() {
    let vbs = build_vbs();
    assert!(vbs.starts_with("' Add-Macros.vbs"));
    assert!(vbs.contains("btn.OnAction = \"RunAll\""));
    assert!(vbs.ends_with("vbInformation, \"Gravity Ledger\"\n"));
    let setup = build_setup();
    assert!(setup.starts_with("# Gravity Ledger — setup"));
    assert!(setup.contains("realized **7497.5**"));
}

#[test]
fn bundle_keeps_vba_folder() {
    let files = bundle_entries();
    assert_eq!(files.len(), 6);
    assert_eq!(files[0], ("GravityLedger.xlsx".to_string(), "dist/GravityLedger.xlsx".to_string()));
    assert_eq!(files[5], ("vba/modReports.bas".to_string(), "dist/vba/modReports.bas".to_string()));
}

#[test]
fn doc_outline() {
    let d = build_doc();
    assert_eq!(d.len(), 62);
    assert!(matches!(&d[0], Block::Title(s) if s == "Gravity Ledger — How the VBA Engine Works"));
    let h1: Vec<&str> = d
        .iter()
        .filter_map(|b| match b {
            Block::H1(s) => Some(s.as_str()),
            _ => None,
        })
        .collect();
    assert_eq!(h1.len(), 7);
    assert_eq!(h1[0], "1. The big picture");
    assert_eq!(h1[6], "7. Running and extending");
}
