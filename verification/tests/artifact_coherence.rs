use gravity_ledger::doc::{build_doc, Block};
use gravity_ledger::vba::modules;
use gravity_ledger::workbook::{build_setup, build_sheets, build_vbs};
use gravity_ledger::xlsx::{col_letter, esc, Cell};

fn cell_text(c: &Cell) -> String {
    match c {
        Cell::Text(s) => s.clone(),
        Cell::Num(s) => s.clone(),
        Cell::Empty => String::new(),
    }
}

fn shortlex_before(a: &str, b: &str) -> bool {
    a.len() < b.len() || (a.len() == b.len() && a < b)
}

fn unescape(s: &str) -> String {
    let mut out = String::new();
    let mut rest = s;
    while !rest.is_empty() {
        let mut hit = false;
        for (ent, c) in [("&amp;", '&'), ("&lt;", '<'), ("&gt;", '>'), ("&quot;", '"')] {
            if rest.starts_with(ent) {
                out.push(c);
                rest = &rest[ent.len()..];
                hit = true;
                break;
            }
        }
        if !hit {
            let c = rest.chars().next().unwrap();
            out.push(c);
            rest = &rest[c.len_utf8()..];
        }
    }
    out
}

fn amount_hundredths(s: &str) -> i64 {
    let digits: String = s.chars().filter(|c| c.is_ascii_digit()).collect();
    let decimals = s.split('.').nth(1).map(|d| d.len()).unwrap_or(0);
    let v: i64 = digits.parse().unwrap();
    v * 10i64.pow((2 - decimals) as u32)
}

#[test]
fn column_names_follow_column_order() {
    let mut prev = col_letter(0);
    assert!(!prev.is_empty());
    for c in 1..2000usize {
        let name = col_letter(c);
        assert!(!name.is_empty() && name.chars().all(|ch| ch.is_ascii_uppercase()));
        assert!(shortlex_before(&prev, &name), "{} then {}", prev, name);
        prev = name;
    }
}

#[test]
fn esc_round_trips_and_leaves_plain_text() {
    for s in ["a&b", "<x y=\"1\">", "&amp;", "plain text", "", "é & ü > ö"] {
        let e = esc(s);
        assert!(!e.contains('<') && !e.contains('>') && !e.contains('"'));
        assert_eq!(unescape(&e), s);
    }
    assert_eq!(esc("plain text"), "plain text");
    assert_ne!(esc("a&b"), "a&b");
}

#[test]
fn report_headers_match_vba_resets() {
    let sheets = build_sheets();
    let m = modules();
    let engine = &m[1].1;
    let reports = &m[2].1;
    for (k, s) in sheets.iter().enumerate().skip(6) {
        let cols: Vec<String> = s.rows[0].iter().map(|c| format!("\"{}\"", cell_text(c))).collect();
        let array = format!("Array({})", cols.join(", "));
        if s.name == "ExchangeBalances" {
            assert!(reports.contains(&format!("If byExchange Then full = {}", array)));
            assert!(reports.contains("LotsReportVba \"ExchangeBalances\", True"));
        } else if s.name == "Positions" {
            assert!(reports.contains(&format!("Else full = {}", array)));
            assert!(reports.contains("LotsReportVba \"Positions\", False"));
        } else {
            let call = format!("Sheet_Reset(\"{}\", {})", s.name, array);
            let src = if k < 10 { engine } else { reports };
            assert!(src.contains(&call), "{}", call);
        }
    }
}

#[test]
fn pipeline_listing_matches_run_all() {
    let d = build_doc();
    let lines = match &d[11] {
        Block::Code(lines) => lines.clone(),
        _ => panic!("the pipeline listing is a code block"),
    };
    let main = &modules()[0].1;
    let start = main.find("Public Sub RunAll()").unwrap();
    let end = start + main[start..].find("End Sub").unwrap();
    let calls: Vec<&str> = main[start..end]
        .lines()
        .map(|l| l.trim())
        .filter(|l| l.starts_with("Engine_") || l.starts_with("Reports_") || l.starts_with("Recon_") || l.starts_with("ThisWorkbook."))
        .map(|l| l.split(' ').next().unwrap())
        .collect();
    let listed: Vec<&str> = lines.iter().map(|l| l.split(' ').next().unwrap()).collect();
    assert_eq!(listed, calls);
    assert_eq!(listed.len(), 8);
}

#[test]
fn builder_names_readme_and_macros() {
    let vbs = build_vbs();
    let steps = [
        "wb.SaveAs xlsm, 52",
        "proj.VBComponents.Import file.Path",
        "Set ws = wb.Sheets(\"README\")",
        "btn.OnAction = \"RunAll\"",
        "xl.Run \"RunAllSilent\"",
        "wb.Save\n",
    ];
    let mut at = 0;
    for s in steps {
        let p = vbs[at..].find(s).expect(s);
        at += p + s.len();
    }
    assert_eq!(build_sheets()[0].name, "README");
    let main = &modules()[0].1;
    assert!(main.contains("Public Sub RunAll()"));
    assert!(main.contains("Public Sub RunAllSilent()"));
}

#[test]
fn worked_example_figures_agree() {
    let d = build_doc();
    let (p2, p3) = match (&d[56], &d[57]) {
        (Block::Para(a), Block::Para(b)) => (a.clone(), b.clone()),
        _ => panic!("the worked example is two paragraphs"),
    };
    assert!(p2.contains("0.4995 @ 60,000 + 0.5005 @ 65,000 = 62,502.50"));
    assert!(p2.contains("Realized = 70,000 - 62,502.50 = 7,497.50"));
    assert!(p3.contains("realized 7,497.50; unrealized 31,496.50; fees 140; net income 38,854"));
    assert!(build_setup().contains("realized **7497.5**, unrealized\n**31496.5**, fees **140**, net income **38854**"));
    let readme = cell_text(&build_sheets()[0].rows[22][1]);
    assert!(readme.contains("realized 7497.5, unrealized 31496.5, fees 140, net 38854"));
    assert_eq!(4995 * amount_hundredths("60,000") + 5005 * amount_hundredths("65,000"), amount_hundredths("62,502.50") * 10000);
    assert_eq!(amount_hundredths("70,000") - amount_hundredths("62,502.50"), amount_hundredths("7,497.50"));
    assert_eq!(amount_hundredths("7,497.50"), amount_hundredths("7497.5"));
    assert_eq!(amount_hundredths("31,496.50"), amount_hundredths("31496.5"));
    assert_eq!(
        amount_hundredths("7,497.50") + amount_hundredths("31,496.50") - amount_hundredths("140"),
        amount_hundredths("38,854")
    );
}
