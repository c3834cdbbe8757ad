//! The Gravity Ledger workbook: its sheets (README, the four input sheets
//! pre-filled with the demo scenario, Marks, and the report sheets that RUN
//! ALL rebuilds), the VBScript builder, the setup guide and the list of files
//! bundled into the deliverable archive.
use vstd::prelude::*;
use crate::xlsx::{e, n, t, Cell, Sheet};

verus! {

/// Every header row and title row of `s` is one of its rows.
pub open spec fn sheet_wf(s: Sheet) -> bool {
    &&& forall|i: int| 0 <= i < s.header_rows@.len() ==> (#[trigger] s.header_rows@[i]) < s.rows@.len()
    &&& forall|i: int| 0 <= i < s.title_rows@.len() ==> (#[trigger] s.title_rows@[i]) < s.rows@.len()
}

/// `row` is a row of text cells holding `texts`, in order.
pub open spec fn text_cells(row: Seq<Cell>, texts: Seq<Seq<char>>) -> bool {
    &&& row.len() == texts.len()
    &&& forall|i: int| 0 <= i < row.len() ==> (#[trigger] row[i] matches Cell::Text(v) && v@ == texts[i])
}

/// `s` has a single header row, its first, holding the column names `cols`.
pub open spec fn headed_by(s: Sheet, cols: Seq<Seq<char>>) -> bool {
    &&& s.rows@.len() >= 1
    &&& s.header_rows@ == seq![0usize]
    &&& s.title_rows@.len() == 0
    &&& text_cells(s.rows@[0]@, cols)
}

/// The column widths of `s`, as text.
pub open spec fn width_texts(s: Sheet) -> Seq<Seq<char>> {
    s.col_widths@.map_values(|w: String| w@)
}

/// The expected content of a text cell.
pub open spec fn txt(s: Seq<char>) -> (bool, Seq<char>) {
    (false, s)
}

/// The expected content of a number cell.
pub open spec fn num(s: Seq<char>) -> (bool, Seq<char>) {
    (true, s)
}

/// `row` holds, cell by cell, the texts (`false`) and numbers (`true`) of `want`.
pub open spec fn cells_are(row: Seq<Cell>, want: Seq<(bool, Seq<char>)>) -> bool {
    &&& row.len() == want.len()
    &&& forall|i: int|
        0 <= i < row.len() ==> match #[trigger] row[i] {
            Cell::Text(v) => !want[i].0 && v@ == want[i].1,
            Cell::Num(v) => want[i].0 && v@ == want[i].1,
            Cell::Empty => false,
        }
}

/// A row of text cells holding `cols`.
pub fn header(cols: &[&str]) -> (row: Vec<Cell>)
    ensures
        text_cells(row@, cols@.map_values(|c: &str| c@)),
{
    let mut row: Vec<Cell> = Vec::new();
    let mut i: usize = 0;
    while i < cols.len()
        invariant
            i <= cols@.len(),
            row@.len() == i,
            forall|k: int| 0 <= k < i ==> (#[trigger] row@[k] matches Cell::Text(v) && v@ == cols@[k]@),
        decreases cols@.len() - i,
    {
        row.push(t(cols[i]));
        i = i + 1;
    }
    row
}

/// A sheet called `name` whose first row is the header `cols`.
fn headed_sheet(name: &str, cols: &[&str]) -> (s: Sheet)
    ensures
        s.name@ == name@,
        headed_by(s, cols@.map_values(|c: &str| c@)),
        s.rows@.len() == 1,
        s.col_widths@.len() == 0,
        sheet_wf(s),
{
    let mut s = Sheet::new(name);
    s.header(header(cols));
    assert(s.header_rows@ =~= seq![0usize]);
    s
}

/// The row shown in a report sheet until RUN ALL rebuilds it.
pub open spec fn placeholder_row() -> Seq<(bool, Seq<char>)> {
    seq![txt("(click RUN ALL to populate)"@)]
}

/// A report sheet as shipped: its header `cols` and a row asking to click
/// RUN ALL; the engine rebuilds it.
fn stub(name: &str, cols: &[&str]) -> (s: Sheet)
    ensures
        s.name@ == name@,
        headed_by(s, cols@.map_values(|c: &str| c@)),
        s.rows@.len() == 2,
        cells_are(s.rows@[1]@, placeholder_row()),
        s.col_widths@.len() == 0,
        sheet_wf(s),
{
    let mut s = headed_sheet(name, cols);
    s.row(vec![t("(click RUN ALL to populate)")]);
    s
}

/// `row` is a single empty cell.
pub open spec fn empty_row(row: Seq<Cell>) -> bool {
    row.len() == 1 && row[0] is Empty
}

/// The rows of the README sheet, in order.
pub open spec fn readme_rows(rows: Seq<Vec<Cell>>) -> bool {
    &&& rows.len() == 24
    &&& cells_are(rows[0]@, seq![txt("GRAVITY LEDGER — crypto double-entry accounting (SQL + macros)"@)])
    &&& empty_row(rows[1]@)
    &&& cells_are(rows[2]@, seq![txt("What this is"@), txt("A single-file ledger for a spot-only crypto market maker. Mirrors the Rust engine in pgaurabh4/crypto-accounting: double-entry, FIFO cost basis, transfers, mark-to-market, multi-entity."@)])
    &&& cells_are(rows[3]@, seq![txt("You edit ONLY"@), txt("OpeningBalances, Trades, Transfers, BankStatement. Everything else is derived."@)])
    &&& cells_are(rows[4]@, seq![txt("To rebuild"@), txt("Click the RUN ALL button (added by Add-Macros.vbs). 100% VBA macros, end to end — posts journals + FIFO lots, builds every report, reconciles bank lines. Needs only Excel; no database or add-in."@)])
    &&& empty_row(rows[5]@)
    &&& cells_are(rows[6]@, seq![txt("Input sheet"@), txt("Columns / meaning"@)])
    &&& cells_are(rows[7]@, seq![txt("OpeningBalances"@), txt("entity | kind(CASH/CRYPTO/LOAN) | ccy_or_asset | exchange | qty | unit_cost | amount | counterparty | as_of | memo. As-at cutover snapshot; balances against EQ:OPENING and seeds FIFO lots. (Empty in this demo — it starts from inception via the capital cash-in.)"@)])
    &&& cells_are(rows[8]@, seq![txt("Trades"@), txt("entity | side(buy/sell) | base | quote | qty | price | fee | ts. Buy debits inventory at cost; sell takes FIFO cost basis and books realized P&L."@)])
    &&& cells_are(rows[9]@, seq![txt("Transfers"@), txt("entity | asset | from_exchange | to_exchange | qty | fee | ts. Moves coin between venues at cost (no P&L); network fee expensed in-kind."@)])
    &&& cells_are(rows[10]@, seq![txt("BankStatement"@), txt("entity | ts | ccy | amount(+in/-out) | counter_account | memo. counter_account routes it: EQ:CAPITAL (funding), LIAB:LOAN (loan drawdown/repay), INC:* , EXP:* …"@)])
    &&& cells_are(rows[11]@, seq![txt("Marks"@), txt("asset | price | entity(optional). Overrides the mark-to-market price. If absent, mark = last traded price for that asset in that entity."@)])
    &&& empty_row(rows[12]@)
    &&& cells_are(rows[13]@, seq![txt("Derived sheet"@), txt("Built by"@)])
    &&& cells_are(rows[14]@, seq![txt("ChartOfAccounts / Journal / JournalLines / Lots"@), txt("VBA: procedural posting + FIFO"@)])
    &&& cells_are(rows[15]@, seq![txt("TrialBalance / Balances"@), txt("VBA: SUM(amount) per account"@)])
    &&& cells_are(rows[16]@, seq![txt("ExchangeBalances"@), txt("VBA: group by entity, exchange, asset over Lots (your 'balances by coin per exchange')"@)])
    &&& cells_are(rows[17]@, seq![txt("Positions"@), txt("VBA: group by entity, asset over Lots"@)])
    &&& cells_are(rows[18]@, seq![txt("Loans"@), txt("VBA: outstanding LIAB:LOAN per entity"@)])
    &&& cells_are(rows[19]@, seq![txt("PnL / IncomeStatement / BalanceSheet"@), txt("VBA aggregates + IFRS derivation"@)])
    &&& cells_are(rows[20]@, seq![txt("Reconciliation"@), txt("VBA: match each BankStatement line to its posted cash journal, then tie out statement vs ledger per entity+ccy"@)])
    &&& empty_row(rows[21]@)
    &&& cells_are(rows[22]@, seq![txt("Demo check"@), txt("After RUN ALL, BVI should show realized 7497.5, unrealized 31496.5, fees 140, net 38854, and BalanceSheet balanced = TRUE. Global imbalance = 0."@)])
    &&& cells_are(rows[23]@, seq![txt("[ RUN ALL ]"@), txt("<- the macro button is placed here by Add-Macros.vbs"@)])
}

/// The README / dashboard sheet: a title row, an introduction, the input
/// sheets and the derived sheets with what builds them, and the demo check.
fn readme_sheet() -> (s: Sheet)
    ensures
        s.name@ == "README"@,
        sheet_wf(s),
        readme_rows(s.rows@),
        s.title_rows@ == seq![0usize],
        s.header_rows@ == seq![6usize, 13usize],
        width_texts(s) == seq!["26"@, "90"@],
{
    let mut rd = Sheet::new("README");
    rd.widths(&["26", "90"]);
    rd.title("GRAVITY LEDGER — crypto double-entry accounting (SQL + macros)");
    rd.row(vec![e()]);
    rd.row(vec![t("What this is"), t("A single-file ledger for a spot-only crypto market maker. Mirrors the Rust engine in pgaurabh4/crypto-accounting: double-entry, FIFO cost basis, transfers, mark-to-market, multi-entity.")]);
    rd.row(vec![t("You edit ONLY"), t("OpeningBalances, Trades, Transfers, BankStatement. Everything else is derived.")]);
    rd.row(vec![t("To rebuild"), t("Click the RUN ALL button (added by Add-Macros.vbs). 100% VBA macros, end to end — posts journals + FIFO lots, builds every report, reconciles bank lines. Needs only Excel; no database or add-in.")]);
    rd.row(vec![e()]);
    rd.header(header(&["Input sheet", "Columns / meaning"]));
    rd.row(vec![t("OpeningBalances"), t("entity | kind(CASH/CRYPTO/LOAN) | ccy_or_asset | exchange | qty | unit_cost | amount | counterparty | as_of | memo. As-at cutover snapshot; balances against EQ:OPENING and seeds FIFO lots. (Empty in this demo — it starts from inception via the capital cash-in.)")]);
    rd.row(vec![t("Trades"), t("entity | side(buy/sell) | base | quote | qty | price | fee | ts. Buy debits inventory at cost; sell takes FIFO cost basis and books realized P&L.")]);
    rd.row(vec![t("Transfers"), t("entity | asset | from_exchange | to_exchange | qty | fee | ts. Moves coin between venues at cost (no P&L); network fee expensed in-kind.")]);
    rd.row(vec![t("BankStatement"), t("entity | ts | ccy | amount(+in/-out) | counter_account | memo. counter_account routes it: EQ:CAPITAL (funding), LIAB:LOAN (loan drawdown/repay), INC:* , EXP:* …")]);
    rd.row(vec![t("Marks"), t("asset | price | entity(optional). Overrides the mark-to-market price. If absent, mark = last traded price for that asset in that entity.")]);
    rd.row(vec![e()]);
    rd.header(header(&["Derived sheet", "Built by"]));
    rd.row(vec![t("ChartOfAccounts / Journal / JournalLines / Lots"), t("VBA: procedural posting + FIFO")]);
    rd.row(vec![t("TrialBalance / Balances"), t("VBA: SUM(amount) per account")]);
    rd.row(vec![t("ExchangeBalances"), t("VBA: group by entity, exchange, asset over Lots (your 'balances by coin per exchange')")]);
    rd.row(vec![t("Positions"), t("VBA: group by entity, asset over Lots")]);
    rd.row(vec![t("Loans"), t("VBA: outstanding LIAB:LOAN per entity")]);
    rd.row(vec![t("PnL / IncomeStatement / BalanceSheet"), t("VBA aggregates + IFRS derivation")]);
    rd.row(vec![t("Reconciliation"), t("VBA: match each BankStatement line to its posted cash journal, then tie out statement vs ledger per entity+ccy")]);
    rd.row(vec![e()]);
    rd.row(vec![t("Demo check"), t("After RUN ALL, BVI should show realized 7497.5, unrealized 31496.5, fees 140, net 38854, and BalanceSheet balanced = TRUE. Global imbalance = 0.")]);
    rd.row(vec![t("[ RUN ALL ]"), t("<- the macro button is placed here by Add-Macros.vbs")]);
    assert(rd.header_rows@ =~= seq![6usize, 13usize]);
    assert(rd.title_rows@ =~= seq![0usize]);
    assert(width_texts(rd) =~= seq!["26"@, "90"@]);
    rd
}

/// The column names of the OpeningBalances sheet.
pub open spec fn opening_columns() -> Seq<Seq<char>> {
    seq!["entity"@, "kind"@, "ccy_or_asset"@, "exchange"@, "qty"@, "unit_cost"@, "amount"@, "counterparty"@, "as_of"@, "memo"@]
}

/// The OpeningBalances input sheet (empty in the demo).
fn opening_sheet() -> (s: Sheet)
    ensures
        s.name@ == "OpeningBalances"@,
        sheet_wf(s),
        headed_by(s, opening_columns()),
        s.rows@.len() == 1,
        width_texts(s) == seq!["10"@, "10"@, "12"@, "12"@, "14"@, "16"@, "18"@, "16"@, "24"@, "30"@],
{
    let mut ob = headed_sheet("OpeningBalances", &["entity", "kind", "ccy_or_asset", "exchange", "qty", "unit_cost", "amount", "counterparty", "as_of", "memo"]);
    ob.widths(&["10", "10", "12", "12", "14", "16", "18", "16", "24", "30"]);
    assert(seq!["entity", "kind", "ccy_or_asset", "exchange", "qty", "unit_cost", "amount", "counterparty", "as_of", "memo"].map_values(|c: &str| c@) =~= opening_columns());
    assert(width_texts(ob) =~= seq!["10"@, "10"@, "12"@, "12"@, "14"@, "16"@, "18"@, "16"@, "24"@, "30"@]);
    ob
}

/// The column names of the Trades sheet.
pub open spec fn trade_columns() -> Seq<Seq<char>> {
    seq!["entity"@, "side"@, "base"@, "quote"@, "qty"@, "price"@, "fee"@, "ts"@]
}

/// One trade row: entity, side, base, quote as text; quantity, price and fee
/// as numbers; timestamp as text.
pub open spec fn trade_cells(
    en: Seq<char>,
    sd: Seq<char>,
    b: Seq<char>,
    q: Seq<char>,
    qty: Seq<char>,
    pr: Seq<char>,
    fe: Seq<char>,
    ts: Seq<char>,
) -> Seq<(bool, Seq<char>)> {
    seq![txt(en), txt(sd), txt(b), txt(q), num(qty), num(pr), num(fe), txt(ts)]
}

/// The demo trades.
pub open spec fn demo_trades() -> Seq<Seq<(bool, Seq<char>)>> {
    seq![
        trade_cells("BVI"@, "buy"@, "BTC"@, "USD"@, "2"@, "60000"@, "30"@, "2026-01-02T00:00:00Z"@),
        trade_cells("BVI"@, "buy"@, "BTC"@, "USD"@, "1"@, "65000"@, "20"@, "2026-01-03T00:00:00Z"@),
        trade_cells("BVI"@, "buy"@, "ETH"@, "USD"@, "50"@, "3000"@, "25"@, "2026-01-04T00:00:00Z"@),
        trade_cells("BVI"@, "sell"@, "BTC"@, "USD"@, "1"@, "70000"@, "35"@, "2026-01-06T00:00:00Z"@),
        trade_cells("IDX"@, "buy"@, "BTC"@, "IDR"@, "0.5"@, "1000000000"@, "100000"@, "2026-01-10T00:00:00Z"@),
    ]
}

/// One row of the Trades sheet.
fn trade_row(en: &str, sd: &str, b: &str, q: &str, qty: &str, pr: &str, fe: &str, ts: &str) -> (row: Vec<Cell>)
    ensures
        cells_are(row@, trade_cells(en@, sd@, b@, q@, qty@, pr@, fe@, ts@)),
{
    vec![t(en), t(sd), t(b), t(q), n(qty), n(pr), n(fe), t(ts)]
}

/// The Trades input sheet with the demo trades.
fn trades_sheet() -> (s: Sheet)
    ensures
        s.name@ == "Trades"@,
        sheet_wf(s),
        headed_by(s, trade_columns()),
        s.rows@.len() == 6,
        forall|k: int| 0 <= k < 5 ==> cells_are(s.rows@[k + 1]@, #[trigger] demo_trades()[k]),
        width_texts(s) == seq!["10"@, "8"@, "8"@, "8"@, "12"@, "16"@, "10"@, "26"@],
{
    let mut tr = headed_sheet("Trades", &["entity", "side", "base", "quote", "qty", "price", "fee", "ts"]);
    tr.widths(&["10", "8", "8", "8", "12", "16", "10", "26"]);
    tr.row(trade_row("BVI", "buy", "BTC", "USD", "2", "60000", "30", "2026-01-02T00:00:00Z"));
    tr.row(trade_row("BVI", "buy", "BTC", "USD", "1", "65000", "20", "2026-01-03T00:00:00Z"));
    tr.row(trade_row("BVI", "buy", "ETH", "USD", "50", "3000", "25", "2026-01-04T00:00:00Z"));
    tr.row(trade_row("BVI", "sell", "BTC", "USD", "1", "70000", "35", "2026-01-06T00:00:00Z"));
    tr.row(trade_row("IDX", "buy", "BTC", "IDR", "0.5", "1000000000", "100000", "2026-01-10T00:00:00Z"));
    assert(seq!["entity", "side", "base", "quote", "qty", "price", "fee", "ts"].map_values(|c: &str| c@) =~= trade_columns());
    assert(width_texts(tr) =~= seq!["10"@, "8"@, "8"@, "8"@, "12"@, "16"@, "10"@, "26"@]);
    tr
}

/// The column names of the Transfers sheet.
pub open spec fn transfer_columns() -> Seq<Seq<char>> {
    seq!["entity"@, "asset"@, "from_exchange"@, "to_exchange"@, "qty"@, "fee"@, "ts"@]
}

/// The demo transfer.
pub open spec fn demo_transfer() -> Seq<(bool, Seq<char>)> {
    seq![txt("BVI"@), txt("BTC"@), txt("MAIN"@), txt("COLD"@), num("1.5"@), num("0.0005"@), txt("2026-01-05T00:00:00Z"@)]
}

/// The Transfers input sheet with the demo transfer.
fn transfers_sheet() -> (s: Sheet)
    ensures
        s.name@ == "Transfers"@,
        sheet_wf(s),
        headed_by(s, transfer_columns()),
        s.rows@.len() == 2,
        cells_are(s.rows@[1]@, demo_transfer()),
        width_texts(s) == seq!["10"@, "8"@, "14"@, "14"@, "12"@, "12"@, "26"@],
{
    let mut tx = headed_sheet("Transfers", &["entity", "asset", "from_exchange", "to_exchange", "qty", "fee", "ts"]);
    tx.widths(&["10", "8", "14", "14", "12", "12", "26"]);
    tx.row(vec![t("BVI"), t("BTC"), t("MAIN"), t("COLD"), n("1.5"), n("0.0005"), t("2026-01-05T00:00:00Z")]);
    assert(seq!["entity", "asset", "from_exchange", "to_exchange", "qty", "fee", "ts"].map_values(|c: &str| c@) =~= transfer_columns());
    assert(width_texts(tx) =~= seq!["10"@, "8"@, "14"@, "14"@, "12"@, "12"@, "26"@]);
    tx
}

/// The column names of the BankStatement sheet.
pub open spec fn bank_columns() -> Seq<Seq<char>> {
    seq!["entity"@, "ts"@, "ccy"@, "amount"@, "counter_account"@, "memo"@]
}

/// The demo bank lines: the capital contributions of BVI and IDX.
pub open spec fn demo_bank_lines() -> Seq<Seq<(bool, Seq<char>)>> {
    seq![
        seq![txt("BVI"@), txt("2026-01-01T00:00:00Z"@), txt("USD"@), num("1000000"@), txt("EQ:CAPITAL"@), txt("capital contribution"@)],
        seq![txt("IDX"@), txt("2026-01-09T00:00:00Z"@), txt("IDR"@), num("10000000000"@), txt("EQ:CAPITAL"@), txt("capital contribution"@)],
    ]
}

/// The BankStatement input sheet with the demo capital contributions.
fn bank_sheet() -> (s: Sheet)
    ensures
        s.name@ == "BankStatement"@,
        sheet_wf(s),
        headed_by(s, bank_columns()),
        s.rows@.len() == 3,
        cells_are(s.rows@[1]@, demo_bank_lines()[0]),
        cells_are(s.rows@[2]@, demo_bank_lines()[1]),
        width_texts(s) == seq!["10"@, "26"@, "8"@, "20"@, "18"@, "28"@],
{
    let mut bk = headed_sheet("BankStatement", &["entity", "ts", "ccy", "amount", "counter_account", "memo"]);
    bk.widths(&["10", "26", "8", "20", "18", "28"]);
    bk.row(vec![t("BVI"), t("2026-01-01T00:00:00Z"), t("USD"), n("1000000"), t("EQ:CAPITAL"), t("capital contribution")]);
    bk.row(vec![t("IDX"), t("2026-01-09T00:00:00Z"), t("IDR"), n("10000000000"), t("EQ:CAPITAL"), t("capital contribution")]);
    assert(seq!["entity", "ts", "ccy", "amount", "counter_account", "memo"].map_values(|c: &str| c@) =~= bank_columns());
    assert(width_texts(bk) =~= seq!["10"@, "26"@, "8"@, "20"@, "18"@, "28"@]);
    bk
}

/// The column names of the Marks sheet.
pub open spec fn mark_columns() -> Seq<Seq<char>> {
    seq!["asset"@, "price"@, "entity"@]
}

/// The demo mark overrides: BTC at 72000 and ETH at 3200 for BVI.
pub open spec fn demo_marks() -> Seq<Seq<(bool, Seq<char>)>> {
    seq![
        seq![txt("BTC"@), num("72000"@), txt("BVI"@)],
        seq![txt("ETH"@), num("3200"@), txt("BVI"@)],
    ]
}

/// The Marks sheet with the demo mark overrides.
fn marks_sheet() -> (s: Sheet)
    ensures
        s.name@ == "Marks"@,
        sheet_wf(s),
        headed_by(s, mark_columns()),
        s.rows@.len() == 3,
        cells_are(s.rows@[1]@, demo_marks()[0]),
        cells_are(s.rows@[2]@, demo_marks()[1]),
        width_texts(s) == seq!["10"@, "16"@, "10"@],
{
    let mut mk = headed_sheet("Marks", &["asset", "price", "entity"]);
    mk.widths(&["10", "16", "10"]);
    mk.row(vec![t("BTC"), n("72000"), t("BVI")]);
    mk.row(vec![t("ETH"), n("3200"), t("BVI")]);
    assert(seq!["asset", "price", "entity"].map_values(|c: &str| c@) =~= mark_columns());
    assert(width_texts(mk) =~= seq!["10"@, "16"@, "10"@]);
    mk
}

/// The names of the workbook's sheets, in order.
pub open spec fn sheet_names() -> Seq<Seq<char>> {
    seq![
        "README"@, "OpeningBalances"@, "Trades"@, "Transfers"@, "BankStatement"@, "Marks"@,
        "ChartOfAccounts"@, "Journal"@, "JournalLines"@, "Lots"@, "TrialBalance"@, "Balances"@,
        "ExchangeBalances"@, "Positions"@, "Loans"@, "PnL"@, "IncomeStatement"@, "BalanceSheet"@,
        "Reconciliation"@,
    ]
}

/// The column names of the report sheets (sheets 6 to 18), in order.
pub open spec fn report_columns() -> Seq<Seq<Seq<char>>> {
    seq![
        seq!["id"@, "entity"@, "code"@, "name"@, "acct_type"@, "currency"@],
        seq!["id"@, "ts"@, "kind"@, "memo"@, "entity"@],
        seq!["id"@, "journal_id"@, "account_id"@, "amount"@],
        seq!["id"@, "entity"@, "asset"@, "exchange"@, "account_id"@, "acquired_ts"@, "qty_remaining"@, "unit_cost"@, "source_journal"@],
        seq!["entity"@, "code"@, "acct_type"@, "debit"@, "credit"@],
        seq!["entity"@, "code"@, "acct_type"@, "currency"@, "net_signed"@, "display"@],
        seq!["entity"@, "exchange"@, "asset"@, "qty"@, "cost_basis"@, "avg_cost"@, "mark"@, "market_value"@, "unrealized"@],
        seq!["entity"@, "asset"@, "qty"@, "cost_basis"@, "avg_cost"@, "mark"@, "market_value"@, "unrealized"@],
        seq!["entity"@, "outstanding"@],
        seq!["entity"@, "realized"@, "unrealized"@, "fees"@],
        seq!["entity"@, "realized"@, "unrealized"@, "fees"@, "net"@],
        seq!["entity"@, "assets"@, "liabilities"@, "equity"@, "retained"@, "balanced"@],
        seq!["entity"@, "ts"@, "ccy"@, "statement_amount"@, "posted_amount"@, "status"@, "journal_id"@],
    ]
}

/// Report sheet `name` with columns `cols`, checked against its place `k`
/// among the report sheets.
fn report_stub(name: &str, cols: &[&str], k: Ghost<int>) -> (s: Sheet)
    requires
        0 <= k@ < 13,
        name@ == sheet_names()[k@ + 6],
        cols@.map_values(|c: &str| c@) == report_columns()[k@],
    ensures
        s.name@ == sheet_names()[k@ + 6],
        headed_by(s, report_columns()[k@]),
        s.rows@.len() == 2,
        cells_are(s.rows@[1]@, placeholder_row()),
        s.col_widths@.len() == 0,
        sheet_wf(s),
{
    stub(name, cols)
}

/// Every sheet of the workbook: README, the four input sheets pre-filled with
/// the demo scenario, Marks, and the report sheets, which hold their header
/// and a row asking to click RUN ALL until the engine rebuilds them.
pub fn build_sheets() -> (out: Vec<Sheet>)
    ensures
        out@.len() == sheet_names().len(),
        forall|i: int| 0 <= i < out@.len() ==> (#[trigger] out@[i]).name@ == sheet_names()[i],
        forall|i: int| 0 <= i < out@.len() ==> sheet_wf(#[trigger] out@[i]),
        out@[0].title_rows@ == seq![0usize],
        out@[0].header_rows@ == seq![6usize, 13usize],
        readme_rows(out@[0].rows@),
        width_texts(out@[0]) == seq!["26"@, "90"@],
        headed_by(out@[1], opening_columns()),
        out@[1].rows@.len() == 1,
        width_texts(out@[1]) == seq!["10"@, "10"@, "12"@, "12"@, "14"@, "16"@, "18"@, "16"@, "24"@, "30"@],
        width_texts(out@[2]) == seq!["10"@, "8"@, "8"@, "8"@, "12"@, "16"@, "10"@, "26"@],
        width_texts(out@[3]) == seq!["10"@, "8"@, "14"@, "14"@, "12"@, "12"@, "26"@],
        width_texts(out@[4]) == seq!["10"@, "26"@, "8"@, "20"@, "18"@, "28"@],
        width_texts(out@[5]) == seq!["10"@, "16"@, "10"@],
        headed_by(out@[2], trade_columns()),
        out@[2].rows@.len() == 6,
        forall|k: int| 0 <= k < 5 ==> cells_are(out@[2].rows@[k + 1]@, #[trigger] demo_trades()[k]),
        headed_by(out@[3], transfer_columns()),
        out@[3].rows@.len() == 2,
        cells_are(out@[3].rows@[1]@, demo_transfer()),
        headed_by(out@[4], bank_columns()),
        out@[4].rows@.len() == 3,
        cells_are(out@[4].rows@[1]@, demo_bank_lines()[0]),
        cells_are(out@[4].rows@[2]@, demo_bank_lines()[1]),
        headed_by(out@[5], mark_columns()),
        out@[5].rows@.len() == 3,
        cells_are(out@[5].rows@[1]@, demo_marks()[0]),
        cells_are(out@[5].rows@[2]@, demo_marks()[1]),
        forall|k: int| 0 <= k < 13 ==> headed_by(out@[k + 6], #[trigger] report_columns()[k]) && out@[k + 6].rows@.len() == 2
            && cells_are(out@[k + 6].rows@[1]@, placeholder_row()) && out@[k + 6].col_widths@.len() == 0,
{
    let mut out: Vec<Sheet> = Vec::new();
    out.push(readme_sheet());
    out.push(opening_sheet());
    out.push(trades_sheet());
    out.push(transfers_sheet());
    out.push(bank_sheet());
    out.push(marks_sheet());
    {
        let cols: &[&str] = &["id", "entity", "code", "name", "acct_type", "currency"];
        assert(cols@.map_values(|c: &str| c@) =~= report_columns()[0]);
        out.push(report_stub("ChartOfAccounts", cols, Ghost(0)));
    }
    {
        let cols: &[&str] = &["id", "ts", "kind", "memo", "entity"];
        assert(cols@.map_values(|c: &str| c@) =~= report_columns()[1]);
        out.push(report_stub("Journal", cols, Ghost(1)));
    }
    {
        let cols: &[&str] = &["id", "journal_id", "account_id", "amount"];
        assert(cols@.map_values(|c: &str| c@) =~= report_columns()[2]);
        out.push(report_stub("JournalLines", cols, Ghost(2)));
    }
    {
        let cols: &[&str] = &["id", "entity", "asset", "exchange", "account_id", "acquired_ts", "qty_remaining", "unit_cost", "source_journal"];
        assert(cols@.map_values(|c: &str| c@) =~= report_columns()[3]);
        out.push(report_stub("Lots", cols, Ghost(3)));
    }
    {
        let cols: &[&str] = &["entity", "code", "acct_type", "debit", "credit"];
        assert(cols@.map_values(|c: &str| c@) =~= report_columns()[4]);
        out.push(report_stub("TrialBalance", cols, Ghost(4)));
    }
    {
        let cols: &[&str] = &["entity", "code", "acct_type", "currency", "net_signed", "display"];
        assert(cols@.map_values(|c: &str| c@) =~= report_columns()[5]);
        out.push(report_stub("Balances", cols, Ghost(5)));
    }
    {
        let cols: &[&str] = &["entity", "exchange", "asset", "qty", "cost_basis", "avg_cost", "mark", "market_value", "unrealized"];
        assert(cols@.map_values(|c: &str| c@) =~= report_columns()[6]);
        out.push(report_stub("ExchangeBalances", cols, Ghost(6)));
    }
    {
        let cols: &[&str] = &["entity", "asset", "qty", "cost_basis", "avg_cost", "mark", "market_value", "unrealized"];
        assert(cols@.map_values(|c: &str| c@) =~= report_columns()[7]);
        out.push(report_stub("Positions", cols, Ghost(7)));
    }
    {
        let cols: &[&str] = &["entity", "outstanding"];
        assert(cols@.map_values(|c: &str| c@) =~= report_columns()[8]);
        out.push(report_stub("Loans", cols, Ghost(8)));
    }
    {
        let cols: &[&str] = &["entity", "realized", "unrealized", "fees"];
        assert(cols@.map_values(|c: &str| c@) =~= report_columns()[9]);
        out.push(report_stub("PnL", cols, Ghost(9)));
    }
    {
        let cols: &[&str] = &["entity", "realized", "unrealized", "fees", "net"];
        assert(cols@.map_values(|c: &str| c@) =~= report_columns()[10]);
        out.push(report_stub("IncomeStatement", cols, Ghost(10)));
    }
    {
        let cols: &[&str] = &["entity", "assets", "liabilities", "equity", "retained", "balanced"];
        assert(cols@.map_values(|c: &str| c@) =~= report_columns()[11]);
        out.push(report_stub("BalanceSheet", cols, Ghost(11)));
    }
    {
        let cols: &[&str] = &["entity", "ts", "ccy", "statement_amount", "posted_amount", "status", "journal_id"];
        assert(cols@.map_values(|c: &str| c@) =~= report_columns()[12]);
        out.push(report_stub("Reconciliation", cols, Ghost(12)));
    }
    assert(out@.len() == sheet_names().len());
    out
}

/// The files of the deliverable archive, as (name inside the archive, path of
/// the file under `dist/`): the workbook, the builder, the setup guide, and
/// the three modules under `vba/` so the builder finds them.
pub fn bundle_entries() -> (files: Vec<(String, String)>)
    ensures
        files@.map_values(|f: (String, String)| (f.0@, f.1@)) == seq![
            ("GravityLedger.xlsx"@, "dist/GravityLedger.xlsx"@),
            ("Add-Macros.vbs"@, "dist/Add-Macros.vbs"@),
            ("SETUP.md"@, "dist/SETUP.md"@),
            ("vba/modMain.bas"@, "dist/vba/modMain.bas"@),
            ("vba/modEngine.bas"@, "dist/vba/modEngine.bas"@),
            ("vba/modReports.bas"@, "dist/vba/modReports.bas"@),
        ],
{
    let mut files: Vec<(String, String)> = Vec::new();
    files.push(("GravityLedger.xlsx".to_owned(), "dist/GravityLedger.xlsx".to_owned()));
    files.push(("Add-Macros.vbs".to_owned(), "dist/Add-Macros.vbs".to_owned()));
    files.push(("SETUP.md".to_owned(), "dist/SETUP.md".to_owned()));
    files.push(("vba/modMain.bas".to_owned(), "dist/vba/modMain.bas".to_owned()));
    files.push(("vba/modEngine.bas".to_owned(), "dist/vba/modEngine.bas".to_owned()));
    files.push(("vba/modReports.bas".to_owned(), "dist/vba/modReports.bas".to_owned()));
    assert(files@.map_values(|f: (String, String)| (f.0@, f.1@)) =~= seq![
        ("GravityLedger.xlsx"@, "dist/GravityLedger.xlsx"@),
        ("Add-Macros.vbs"@, "dist/Add-Macros.vbs"@),
        ("SETUP.md"@, "dist/SETUP.md"@),
        ("vba/modMain.bas"@, "dist/vba/modMain.bas"@),
        ("vba/modEngine.bas"@, "dist/vba/modEngine.bas"@),
        ("vba/modReports.bas"@, "dist/vba/modReports.bas"@),
    ]);
    files
}

/// The VBScript builder: it opens the .xlsx, imports the .bas modules, wires
/// the RUN ALL button on the README sheet, runs the engine once and saves
/// the macro-enabled workbook.
pub open spec fn vbs_text() -> Seq<char> {
    VBS_PART_1@ + SAVE_AS_MACRO_WORKBOOK@ + VBS_PART_2@ + IMPORT_MODULE@ + VBS_PART_3@ + README_SHEET_SELECT@ + VBS_PART_4@ + BUTTON_ACTION@ + VBS_PART_5@ + BUTTON_NAME@ + VBS_PART_6@ + FIRST_RUN@ + VBS_PART_7@ + FINAL_SAVE@ + VBS_PART_8@
}

/// The VBScript builder `Add-Macros.vbs`.
pub fn build_vbs() -> (s: String)
    ensures
        s@ == vbs_text(),
{
    let mut s = String::new();
    s.append(VBS_PART_1);
    s.append(SAVE_AS_MACRO_WORKBOOK);
    s.append(VBS_PART_2);
    s.append(IMPORT_MODULE);
    s.append(VBS_PART_3);
    s.append(README_SHEET_SELECT);
    s.append(VBS_PART_4);
    s.append(BUTTON_ACTION);
    s.append(VBS_PART_5);
    s.append(BUTTON_NAME);
    s.append(VBS_PART_6);
    s.append(FIRST_RUN);
    s.append(VBS_PART_7);
    s.append(FINAL_SAVE);
    s.append(VBS_PART_8);
    assert(s@ =~= vbs_text());
    s
}

/// Piece 1 of 8 of the plain text of the vbs text.
pub const VBS_PART_1: &'static str = r#"' Add-Macros.vbs — build GravityLedger.xlsm from GravityLedger.xlsx
' Double-click on Windows with Excel installed.
' Prerequisite (one-time): Excel > File > Options > Trust Center > Trust Center
' Settings > Macro Settings > tick "Trust access to the VBA project object model".
Option Explicit
Dim fso, here, xlsx, xlsm, vbaDir, xl, wb, proj, f, ws, btn, file, lastRow
Set fso = CreateObject("Scripting.FileSystemObject")
here   = fso.GetParentFolderName(WScript.ScriptFullName)
xlsx   = fso.BuildPath(here, "GravityLedger.xlsx")
xlsm   = fso.BuildPath(here, "GravityLedger.xlsm")
vbaDir = fso.BuildPath(here, "vba")

If Not fso.FileExists(xlsx) Then
    MsgBox "GravityLedger.xlsx not found next to this script.", vbCritical : WScript.Quit 1
End If

Set xl = CreateObject("Excel.Application")
xl.Visible = False
xl.DisplayAlerts = False
Set wb = xl.Workbooks.Open(xlsx)

' Save as macro-enabled (xlOpenXMLWorkbookMacroEnabled = 52) BEFORE injecting VBA.
"#;

/// The step that saves the workbook as macro-enabled (file format 52), before any module is imported.
pub const SAVE_AS_MACRO_WORKBOOK: &'static str = r#"wb.SaveAs xlsm, 52"#;

/// Piece 2 of 8 of the plain text of the vbs text.
pub const VBS_PART_2: &'static str = r#"

On Error Resume Next
Set proj = wb.VBProject
On Error GoTo 0
If proj Is Nothing Then
    MsgBox "Cannot access the VBA project." & vbCrLf & _
        "Enable: Trust Center > Macro Settings > 'Trust access to the VBA project object model', then re-run.", _
        vbCritical
    wb.Close False : xl.Quit : WScript.Quit 1
End If

' Import every .bas module.
Set f = fso.GetFolder(vbaDir)
For Each file In f.Files
    If LCase(fso.GetExtensionName(file.Name)) = "bas" Then
        "#;

/// The step that imports one `.bas` module of the `vba` folder.
pub const IMPORT_MODULE: &'static str = r#"proj.VBComponents.Import file.Path"#;

/// Piece 3 of 8 of the plain text of the vbs text.
pub const VBS_PART_3: &'static str = r#"
    End If
Next

' Place the RUN ALL button on the README sheet.
"#;

/// The step that selects the README sheet for the button.
pub const README_SHEET_SELECT: &'static str = r#"Set ws = wb.Sheets("README")"#;

/// Piece 4 of 8 of the plain text of the vbs text.
pub const VBS_PART_4: &'static str = r#"
lastRow = ws.Cells(ws.Rows.Count, 1).End(-4162).Row   ' xlUp
Set btn = ws.Buttons.Add(ws.Cells(lastRow, 2).Left, ws.Cells(lastRow, 2).Top, 120, 28)
"#;

/// The step that wires the button to the `RunAll` macro.
pub const BUTTON_ACTION: &'static str = r#"btn.OnAction = "RunAll""#;

/// Piece 5 of 8 of the plain text of the vbs text.
pub const VBS_PART_5: &'static str = r#"
btn.Caption = "RUN ALL"
"#;

/// The step that names the button.
pub const BUTTON_NAME: &'static str = r#"btn.Name = "btnRunAll""#;

/// Piece 6 of 8 of the plain text of the vbs text.
pub const VBS_PART_6: &'static str = r#"

' Build the ledger once so reports are populated on first open.
On Error Resume Next
"#;

/// The step that runs the engine once, silently.
pub const FIRST_RUN: &'static str = r#"xl.Run "RunAllSilent""#;

/// Piece 7 of 8 of the plain text of the vbs text.
pub const VBS_PART_7: &'static str = r#"
On Error GoTo 0

"#;

/// The step that saves the built workbook.
pub const FINAL_SAVE: &'static str = r#"wb.Save
"#;

/// Piece 8 of 8 of the plain text of the vbs text.
pub const VBS_PART_8: &'static str = r#"wb.Close True
xl.Quit
MsgBox "Built " & xlsm & vbCrLf & "Open it, enable macros, and click RUN ALL anytime to rebuild.", vbInformation, "Gravity Ledger"
"#;

/// The setup guide: three ways to reach a working macro workbook, and the
/// demo figures that entity BVI must show.
pub open spec fn setup_text() -> Seq<char> {
    SETUP_PART_1@ + SETUP_PART_2@ + SETUP_DEMO_FIGURES@ + SETUP_PART_3@
}

/// The setup guide `SETUP.md`.
pub fn build_setup() -> (s: String)
    ensures
        s@ == setup_text(),
{
    let mut s = String::new();
    s.append(SETUP_PART_1);
    s.append(SETUP_PART_2);
    s.append(SETUP_DEMO_FIGURES);
    s.append(SETUP_PART_3);
    assert(s@ =~= setup_text());
    s
}

/// Piece 1 of 3 of the plain text of the setup text.
pub const SETUP_PART_1: &'static str = r#"# Gravity Ledger — setup

`GravityLedger.xlsx` is the master workbook. You edit four input sheets —
**OpeningBalances, Trades, Transfers, BankStatement** — and everything else
(chart of accounts, journals, FIFO lots, trial balance, exchange balances by
coin, positions, loans, P&L, balance sheet) is derived by the SQL + macro
engine when you click **RUN ALL**.

The macros live in `vba/*.bas`. Because a `.xlsm`'s macro container must be
written by Excel itself, pick whichever path below fits you.

## Option A — one double-click (recommended)
1. Keep `GravityLedger.xlsx`, `Add-Macros.vbs`, and the `vba/` folder together.
2. In Excel once: **File > Options > Trust Center > Trust Center Settings >
   Macro Settings >** tick **"Trust access to the VBA project object model."**
3. Double-click **`Add-Macros.vbs`**. It produces **`GravityLedger.xlsm`** with
   the engine embedded, the **RUN ALL** button wired, and reports already built.

## Option B — manual import (no .vbs)
1. Open `GravityLedger.xlsx`, then **Save As -> Excel Macro-Enabled Workbook
   (*.xlsm)**.
2. Press **Alt+F11** (VBA editor) -> **File > Import File...** -> import all three
   files in `vba/` (`modMain.bas`, `modEngine.bas`, `modReports.bas`).
3. Back in Excel: **Developer > Insert > Button**, assign it to macro `RunAll`.
4. Click the button. Done.

## 100% VBA — runs on just Excel
The entire engine is VBA macros. On RUN ALL it posts the double-entry journals
and FIFO lots, aggregates every report, and reconciles the bank lines — all in
VBA, with **no database, no add-in, and no external provider** required. Nothing
to install beyond Excel itself.

(An optional SQL implementation of the reporting layer is included in
`modReports` behind `USE_SQL = False`; flip it to `True` only if you specifically
"#;

/// Piece 2 of 3 of the plain text of the setup text.
pub const SETUP_PART_2: &'static str = r#"want the reports computed via the `Microsoft.ACE.OLEDB` provider. It is off by
default so the workbook stays self-contained.)

## Verifying it matches the Rust engine
"#;

/// The figures that entity BVI must show with the shipped demo.
pub const SETUP_DEMO_FIGURES: &'static str = r#"With the shipped demo, entity **BVI** must show: realized **7497.5**, unrealized
**31496.5**, fees **140**, net income **38854**, BalanceSheet **balanced = TRUE**,
and the global imbalance **0**."#;

/// Piece 3 of 3 of the plain text of the setup text.
pub const SETUP_PART_3: &'static str = r#" These are the exact numbers the Rust `ledger`
binary produces for the same scenario.
"#;

} // verus!
