//! Laws that tie the workbook's artifacts together: the report sheets'
//! headers and the VBA that rebuilds them, the document's pipeline and the
//! `RunAll` macro, the builder script and the macros and sheet it names.
use vstd::prelude::*;
use crate::doc::{example_blocks, pipeline_blocks, Block};
use crate::xlsx::Cell;
use crate::vba::{
    engine_source, main_source, reports_source,
    MAIN_PART_1,
    RUN_ALL_STEPS,
    MAIN_PART_2,
    RUN_ALL_SILENT_HEADER,
    MAIN_PART_3,
    ENGINE_PART_1,
    ENGINE_PART_2,
    ENGINE_PART_3,
    ENGINE_PART_4,
    ENGINE_PART_5,
    ENGINE_PART_6,
    ENGINE_PART_7,
    ENGINE_PART_8,
    ENGINE_PART_9,
    ENGINE_PART_10,
    CHART_RESET,
    ENGINE_PART_11,
    JOURNAL_RESET,
    ENGINE_PART_12,
    JOURNAL_LINES_RESET,
    ENGINE_PART_13,
    LOTS_RESET,
    ENGINE_PART_14,
    REPORTS_PART_1,
    REPORTS_PART_2,
    REPORTS_PART_3,
    REPORTS_PART_4,
    BALANCES_RESET,
    REPORTS_PART_5,
    TRIAL_BALANCE_RESET,
    REPORTS_PART_6,
    EXCHANGE_REPORT_CALL,
    REPORTS_PART_7,
    POSITIONS_REPORT_CALL,
    REPORTS_PART_8,
    EXCHANGE_COLUMNS,
    REPORTS_PART_9,
    POSITIONS_COLUMNS,
    REPORTS_PART_10,
    LOANS_RESET,
    REPORTS_PART_11,
    PNL_RESET,
    REPORTS_PART_12,
    INCOME_STATEMENT_RESET,
    REPORTS_PART_13,
    BALANCE_SHEET_RESET,
    REPORTS_PART_14,
    REPORTS_PART_15,
    REPORTS_PART_16,
    RECONCILIATION_RESET,
    REPORTS_PART_17,
    REPORTS_PART_18
};
use crate::workbook::{
    cells_are, readme_rows, report_columns, setup_text, sheet_names, txt, vbs_text,
    SETUP_DEMO_FIGURES, SETUP_PART_1, SETUP_PART_2, SETUP_PART_3,
    VBS_PART_1,
    SAVE_AS_MACRO_WORKBOOK,
    VBS_PART_2,
    IMPORT_MODULE,
    VBS_PART_3,
    README_SHEET_SELECT,
    VBS_PART_4,
    BUTTON_ACTION,
    VBS_PART_5,
    BUTTON_NAME,
    VBS_PART_6,
    FIRST_RUN,
    VBS_PART_7,
    FINAL_SAVE,
    VBS_PART_8
};

verus! {

/// `piece` stands in `text` at position `p`.
pub open spec fn occurs_at(text: Seq<char>, p: int, piece: Seq<char>) -> bool {
    0 <= p && p + piece.len() <= text.len() && text.subrange(p, p + piece.len()) == piece
}

/// `piece` stands somewhere in `text`.
pub open spec fn contains_text(text: Seq<char>, piece: Seq<char>) -> bool {
    exists|p: int| occurs_at(text, p, piece)
}

/// A text found in either half is found in the whole.
pub proof fn lemma_contains_concat(a: Seq<char>, b: Seq<char>, piece: Seq<char>)
    ensures
        contains_text(a, piece) ==> contains_text(a + b, piece),
        contains_text(b, piece) ==> contains_text(a + b, piece),
{
    if contains_text(a, piece) {
        let p = choose|p: int| occurs_at(a, p, piece);
        assert((a + b).subrange(p, p + piece.len()) =~= a.subrange(p, p + piece.len()));
        assert(occurs_at(a + b, p, piece));
    }
    if contains_text(b, piece) {
        let p = choose|p: int| occurs_at(b, p, piece);
        assert((a + b).subrange(a.len() + p, a.len() + p + piece.len()) =~= b.subrange(p, p + piece.len()));
        assert(occurs_at(a + b, a.len() + p, piece));
    }
}

/// A piece stands in a text right after what precedes it.
proof fn lemma_occurs_middle(a: Seq<char>, f: Seq<char>, b: Seq<char>)
    ensures
        occurs_at(a + f + b, a.len() as int, f),
        contains_text(a + f + b, f),
{
    assert((a + f + b).subrange(a.len() as int, (a.len() + f.len()) as int) =~= f);
}

/// What stands inside a piece of a text stands in the text.
proof fn lemma_contains_within(text: Seq<char>, piece: Seq<char>, p: int, inner: Seq<char>)
    requires
        contains_text(text, piece),
        occurs_at(piece, p, inner),
    ensures
        contains_text(text, inner),
{
    let q = choose|q: int| occurs_at(text, q, piece);
    assert(text.subrange(q + p, q + p + inner.len()) =~= piece.subrange(p, p + inner.len()));
    assert(occurs_at(text, q + p, inner));
}

/// A VBA string literal.
pub open spec fn quoted(s: Seq<char>) -> Seq<char> {
    seq!['"'] + s + seq!['"']
}

/// String literals separated by `, `.
pub open spec fn joined(cols: Seq<Seq<char>>) -> Seq<char>
    decreases cols.len(),
{
    if cols.len() == 0 {
        seq![]
    } else if cols.len() == 1 {
        quoted(cols[0])
    } else {
        joined(cols.drop_last()) + ", "@ + quoted(cols.last())
    }
}

/// A VBA `Array(...)` of string literals.
pub open spec fn vba_array(cols: Seq<Seq<char>>) -> Seq<char> {
    "Array("@ + joined(cols) + ")"@
}

/// The call that clears sheet `name` and writes the header `cols` on it.
pub open spec fn reset_call(name: Seq<char>, cols: Seq<Seq<char>>) -> Seq<char> {
    "Sheet_Reset("@ + quoted(name) + ", "@ + vba_array(cols) + ")"@
}

/// The module that rebuilds report sheet `k` (0 is ChartOfAccounts): the
/// engine writes the four fact sheets, the reports module the others.
pub open spec fn rebuilding_source(k: int) -> Seq<char> {
    if k < 4 {
        engine_source()
    } else {
        reports_source()
    }
}

/// The VBA that rebuilds report sheet `k` clears it and writes on it the
/// header of the sheet as the workbook ships it.
pub open spec fn resets_with_header(k: int) -> bool {
    contains_text(rebuilding_source(k), reset_call(sheet_names()[k + 6], report_columns()[k]))
}

/// The ChartOfAccounts sheet is reset with its header.
proof fn lemma_chart_reset()
    ensures
        resets_with_header(0),
{
    reveal_strlit(r#"Sheet_Reset("ChartOfAccounts", Array("id", "entity", "code", "name", "acct_type", "currency"))"#);
    reveal_strlit("ChartOfAccounts");
    reveal_strlit("id");
    reveal_strlit("entity");
    reveal_strlit("code");
    reveal_strlit("name");
    reveal_strlit("acct_type");
    reveal_strlit("currency");
    reveal_strlit("Sheet_Reset(");
    reveal_strlit(", ");
    reveal_strlit("Array(");
    reveal_strlit(")");
    reveal_with_fuel(joined, 7);
    assert(CHART_RESET@ =~= reset_call(sheet_names()[6], report_columns()[0]));
    assert(engine_source() =~= (ENGINE_PART_1@ + ENGINE_PART_2@ + ENGINE_PART_3@ + ENGINE_PART_4@ + ENGINE_PART_5@ + ENGINE_PART_6@ + ENGINE_PART_7@ + ENGINE_PART_8@ + ENGINE_PART_9@ + ENGINE_PART_10@) + CHART_RESET@ + (ENGINE_PART_11@ + JOURNAL_RESET@ + ENGINE_PART_12@ + JOURNAL_LINES_RESET@ + ENGINE_PART_13@ + LOTS_RESET@ + ENGINE_PART_14@));
    lemma_occurs_middle(ENGINE_PART_1@ + ENGINE_PART_2@ + ENGINE_PART_3@ + ENGINE_PART_4@ + ENGINE_PART_5@ + ENGINE_PART_6@ + ENGINE_PART_7@ + ENGINE_PART_8@ + ENGINE_PART_9@ + ENGINE_PART_10@, CHART_RESET@, ENGINE_PART_11@ + JOURNAL_RESET@ + ENGINE_PART_12@ + JOURNAL_LINES_RESET@ + ENGINE_PART_13@ + LOTS_RESET@ + ENGINE_PART_14@);
}

/// The Journal sheet is reset with its header.
proof fn lemma_journal_reset()
    ensures
        resets_with_header(1),
{
    reveal_strlit(r#"Sheet_Reset("Journal", Array("id", "ts", "kind", "memo", "entity"))"#);
    reveal_strlit("Journal");
    reveal_strlit("id");
    reveal_strlit("ts");
    reveal_strlit("kind");
    reveal_strlit("memo");
    reveal_strlit("entity");
    reveal_strlit("Sheet_Reset(");
    reveal_strlit(", ");
    reveal_strlit("Array(");
    reveal_strlit(")");
    reveal_with_fuel(joined, 6);
    assert(JOURNAL_RESET@ =~= reset_call(sheet_names()[7], report_columns()[1]));
    assert(engine_source() =~= (ENGINE_PART_1@ + ENGINE_PART_2@ + ENGINE_PART_3@ + ENGINE_PART_4@ + ENGINE_PART_5@ + ENGINE_PART_6@ + ENGINE_PART_7@ + ENGINE_PART_8@ + ENGINE_PART_9@ + ENGINE_PART_10@ + CHART_RESET@ + ENGINE_PART_11@) + JOURNAL_RESET@ + (ENGINE_PART_12@ + JOURNAL_LINES_RESET@ + ENGINE_PART_13@ + LOTS_RESET@ + ENGINE_PART_14@));
    lemma_occurs_middle(ENGINE_PART_1@ + ENGINE_PART_2@ + ENGINE_PART_3@ + ENGINE_PART_4@ + ENGINE_PART_5@ + ENGINE_PART_6@ + ENGINE_PART_7@ + ENGINE_PART_8@ + ENGINE_PART_9@ + ENGINE_PART_10@ + CHART_RESET@ + ENGINE_PART_11@, JOURNAL_RESET@, ENGINE_PART_12@ + JOURNAL_LINES_RESET@ + ENGINE_PART_13@ + LOTS_RESET@ + ENGINE_PART_14@);
}

/// The JournalLines sheet is reset with its header.
proof fn lemma_journal_lines_reset()
    ensures
        resets_with_header(2),
{
    reveal_strlit(r#"Sheet_Reset("JournalLines", Array("id", "journal_id", "account_id", "amount"))"#);
    reveal_strlit("JournalLines");
    reveal_strlit("id");
    reveal_strlit("journal_id");
    reveal_strlit("account_id");
    reveal_strlit("amount");
    reveal_strlit("Sheet_Reset(");
    reveal_strlit(", ");
    reveal_strlit("Array(");
    reveal_strlit(")");
    reveal_with_fuel(joined, 5);
    assert(JOURNAL_LINES_RESET@ =~= reset_call(sheet_names()[8], report_columns()[2]));
    assert(engine_source() =~= (ENGINE_PART_1@ + ENGINE_PART_2@ + ENGINE_PART_3@ + ENGINE_PART_4@ + ENGINE_PART_5@ + ENGINE_PART_6@ + ENGINE_PART_7@ + ENGINE_PART_8@ + ENGINE_PART_9@ + ENGINE_PART_10@ + CHART_RESET@ + ENGINE_PART_11@ + JOURNAL_RESET@ + ENGINE_PART_12@) + JOURNAL_LINES_RESET@ + (ENGINE_PART_13@ + LOTS_RESET@ + ENGINE_PART_14@));
    lemma_occurs_middle(ENGINE_PART_1@ + ENGINE_PART_2@ + ENGINE_PART_3@ + ENGINE_PART_4@ + ENGINE_PART_5@ + ENGINE_PART_6@ + ENGINE_PART_7@ + ENGINE_PART_8@ + ENGINE_PART_9@ + ENGINE_PART_10@ + CHART_RESET@ + ENGINE_PART_11@ + JOURNAL_RESET@ + ENGINE_PART_12@, JOURNAL_LINES_RESET@, ENGINE_PART_13@ + LOTS_RESET@ + ENGINE_PART_14@);
}

/// The Lots sheet is reset with its header.
proof fn lemma_lots_reset()
    ensures
        resets_with_header(3),
{
    reveal_strlit(r#"Sheet_Reset("Lots", Array("id", "entity", "asset", "exchange", "account_id", "acquired_ts", "qty_remaining", "unit_cost", "source_journal"))"#);
    reveal_strlit("Lots");
    reveal_strlit("id");
    reveal_strlit("entity");
    reveal_strlit("asset");
    reveal_strlit("exchange");
    reveal_strlit("account_id");
    reveal_strlit("acquired_ts");
    reveal_strlit("qty_remaining");
    reveal_strlit("unit_cost");
    reveal_strlit("source_journal");
    reveal_strlit("Sheet_Reset(");
    reveal_strlit(", ");
    reveal_strlit("Array(");
    reveal_strlit(")");
    reveal_with_fuel(joined, 10);
    assert(LOTS_RESET@ =~= reset_call(sheet_names()[9], report_columns()[3]));
    assert(engine_source() =~= (ENGINE_PART_1@ + ENGINE_PART_2@ + ENGINE_PART_3@ + ENGINE_PART_4@ + ENGINE_PART_5@ + ENGINE_PART_6@ + ENGINE_PART_7@ + ENGINE_PART_8@ + ENGINE_PART_9@ + ENGINE_PART_10@ + CHART_RESET@ + ENGINE_PART_11@ + JOURNAL_RESET@ + ENGINE_PART_12@ + JOURNAL_LINES_RESET@ + ENGINE_PART_13@) + LOTS_RESET@ + (ENGINE_PART_14@));
    lemma_occurs_middle(ENGINE_PART_1@ + ENGINE_PART_2@ + ENGINE_PART_3@ + ENGINE_PART_4@ + ENGINE_PART_5@ + ENGINE_PART_6@ + ENGINE_PART_7@ + ENGINE_PART_8@ + ENGINE_PART_9@ + ENGINE_PART_10@ + CHART_RESET@ + ENGINE_PART_11@ + JOURNAL_RESET@ + ENGINE_PART_12@ + JOURNAL_LINES_RESET@ + ENGINE_PART_13@, LOTS_RESET@, ENGINE_PART_14@);
}

/// The TrialBalance sheet is reset with its header.
proof fn lemma_trial_balance_reset()
    ensures
        resets_with_header(4),
{
    reveal_strlit(r#"Sheet_Reset("TrialBalance", Array("entity", "code", "acct_type", "debit", "credit"))"#);
    reveal_strlit("TrialBalance");
    reveal_strlit("entity");
    reveal_strlit("code");
    reveal_strlit("acct_type");
    reveal_strlit("debit");
    reveal_strlit("credit");
    reveal_strlit("Sheet_Reset(");
    reveal_strlit(", ");
    reveal_strlit("Array(");
    reveal_strlit(")");
    reveal_with_fuel(joined, 6);
    assert(TRIAL_BALANCE_RESET@ =~= reset_call(sheet_names()[10], report_columns()[4]));
    assert(reports_source() =~= (REPORTS_PART_1@ + REPORTS_PART_2@ + REPORTS_PART_3@ + REPORTS_PART_4@ + BALANCES_RESET@ + REPORTS_PART_5@) + TRIAL_BALANCE_RESET@ + (REPORTS_PART_6@ + EXCHANGE_REPORT_CALL@ + REPORTS_PART_7@ + POSITIONS_REPORT_CALL@ + REPORTS_PART_8@ + EXCHANGE_COLUMNS@ + REPORTS_PART_9@ + POSITIONS_COLUMNS@ + REPORTS_PART_10@ + LOANS_RESET@ + REPORTS_PART_11@ + PNL_RESET@ + REPORTS_PART_12@ + INCOME_STATEMENT_RESET@ + REPORTS_PART_13@ + BALANCE_SHEET_RESET@ + REPORTS_PART_14@ + REPORTS_PART_15@ + REPORTS_PART_16@ + RECONCILIATION_RESET@ + REPORTS_PART_17@ + REPORTS_PART_18@));
    lemma_occurs_middle(REPORTS_PART_1@ + REPORTS_PART_2@ + REPORTS_PART_3@ + REPORTS_PART_4@ + BALANCES_RESET@ + REPORTS_PART_5@, TRIAL_BALANCE_RESET@, REPORTS_PART_6@ + EXCHANGE_REPORT_CALL@ + REPORTS_PART_7@ + POSITIONS_REPORT_CALL@ + REPORTS_PART_8@ + EXCHANGE_COLUMNS@ + REPORTS_PART_9@ + POSITIONS_COLUMNS@ + REPORTS_PART_10@ + LOANS_RESET@ + REPORTS_PART_11@ + PNL_RESET@ + REPORTS_PART_12@ + INCOME_STATEMENT_RESET@ + REPORTS_PART_13@ + BALANCE_SHEET_RESET@ + REPORTS_PART_14@ + REPORTS_PART_15@ + REPORTS_PART_16@ + RECONCILIATION_RESET@ + REPORTS_PART_17@ + REPORTS_PART_18@);
}

/// The Balances sheet is reset with its header.
proof fn lemma_balances_reset()
    ensures
        resets_with_header(5),
{
    reveal_strlit(r#"Sheet_Reset("Balances", Array("entity", "code", "acct_type", "currency", "net_signed", "display"))"#);
    reveal_strlit("Balances");
    reveal_strlit("entity");
    reveal_strlit("code");
    reveal_strlit("acct_type");
    reveal_strlit("currency");
    reveal_strlit("net_signed");
    reveal_strlit("display");
    reveal_strlit("Sheet_Reset(");
    reveal_strlit(", ");
    reveal_strlit("Array(");
    reveal_strlit(")");
    reveal_with_fuel(joined, 7);
    assert(BALANCES_RESET@ =~= reset_call(sheet_names()[11], report_columns()[5]));
    assert(reports_source() =~= (REPORTS_PART_1@ + REPORTS_PART_2@ + REPORTS_PART_3@ + REPORTS_PART_4@) + BALANCES_RESET@ + (REPORTS_PART_5@ + TRIAL_BALANCE_RESET@ + REPORTS_PART_6@ + EXCHANGE_REPORT_CALL@ + REPORTS_PART_7@ + POSITIONS_REPORT_CALL@ + REPORTS_PART_8@ + EXCHANGE_COLUMNS@ + REPORTS_PART_9@ + POSITIONS_COLUMNS@ + REPORTS_PART_10@ + LOANS_RESET@ + REPORTS_PART_11@ + PNL_RESET@ + REPORTS_PART_12@ + INCOME_STATEMENT_RESET@ + REPORTS_PART_13@ + BALANCE_SHEET_RESET@ + REPORTS_PART_14@ + REPORTS_PART_15@ + REPORTS_PART_16@ + RECONCILIATION_RESET@ + REPORTS_PART_17@ + REPORTS_PART_18@));
    lemma_occurs_middle(REPORTS_PART_1@ + REPORTS_PART_2@ + REPORTS_PART_3@ + REPORTS_PART_4@, BALANCES_RESET@, REPORTS_PART_5@ + TRIAL_BALANCE_RESET@ + REPORTS_PART_6@ + EXCHANGE_REPORT_CALL@ + REPORTS_PART_7@ + POSITIONS_REPORT_CALL@ + REPORTS_PART_8@ + EXCHANGE_COLUMNS@ + REPORTS_PART_9@ + POSITIONS_COLUMNS@ + REPORTS_PART_10@ + LOANS_RESET@ + REPORTS_PART_11@ + PNL_RESET@ + REPORTS_PART_12@ + INCOME_STATEMENT_RESET@ + REPORTS_PART_13@ + BALANCE_SHEET_RESET@ + REPORTS_PART_14@ + REPORTS_PART_15@ + REPORTS_PART_16@ + RECONCILIATION_RESET@ + REPORTS_PART_17@ + REPORTS_PART_18@);
}

/// The Loans sheet is reset with its header.
proof fn lemma_loans_reset()
    ensures
        resets_with_header(8),
{
    reveal_strlit(r#"Sheet_Reset("Loans", Array("entity", "outstanding"))"#);
    reveal_strlit("Loans");
    reveal_strlit("entity");
    reveal_strlit("outstanding");
    reveal_strlit("Sheet_Reset(");
    reveal_strlit(", ");
    reveal_strlit("Array(");
    reveal_strlit(")");
    reveal_with_fuel(joined, 3);
    assert(LOANS_RESET@ =~= reset_call(sheet_names()[14], report_columns()[8]));
    assert(reports_source() =~= (REPORTS_PART_1@ + REPORTS_PART_2@ + REPORTS_PART_3@ + REPORTS_PART_4@ + BALANCES_RESET@ + REPORTS_PART_5@ + TRIAL_BALANCE_RESET@ + REPORTS_PART_6@ + EXCHANGE_REPORT_CALL@ + REPORTS_PART_7@ + POSITIONS_REPORT_CALL@ + REPORTS_PART_8@ + EXCHANGE_COLUMNS@ + REPORTS_PART_9@ + POSITIONS_COLUMNS@ + REPORTS_PART_10@) + LOANS_RESET@ + (REPORTS_PART_11@ + PNL_RESET@ + REPORTS_PART_12@ + INCOME_STATEMENT_RESET@ + REPORTS_PART_13@ + BALANCE_SHEET_RESET@ + REPORTS_PART_14@ + REPORTS_PART_15@ + REPORTS_PART_16@ + RECONCILIATION_RESET@ + REPORTS_PART_17@ + REPORTS_PART_18@));
    lemma_occurs_middle(REPORTS_PART_1@ + REPORTS_PART_2@ + REPORTS_PART_3@ + REPORTS_PART_4@ + BALANCES_RESET@ + REPORTS_PART_5@ + TRIAL_BALANCE_RESET@ + REPORTS_PART_6@ + EXCHANGE_REPORT_CALL@ + REPORTS_PART_7@ + POSITIONS_REPORT_CALL@ + REPORTS_PART_8@ + EXCHANGE_COLUMNS@ + REPORTS_PART_9@ + POSITIONS_COLUMNS@ + REPORTS_PART_10@, LOANS_RESET@, REPORTS_PART_11@ + PNL_RESET@ + REPORTS_PART_12@ + INCOME_STATEMENT_RESET@ + REPORTS_PART_13@ + BALANCE_SHEET_RESET@ + REPORTS_PART_14@ + REPORTS_PART_15@ + REPORTS_PART_16@ + RECONCILIATION_RESET@ + REPORTS_PART_17@ + REPORTS_PART_18@);
}

/// The PnL sheet is reset with its header.
proof fn lemma_pnl_reset()
    ensures
        resets_with_header(9),
{
    reveal_strlit(r#"Sheet_Reset("PnL", Array("entity", "realized", "unrealized", "fees"))"#);
    reveal_strlit("PnL");
    reveal_strlit("entity");
    reveal_strlit("realized");
    reveal_strlit("unrealized");
    reveal_strlit("fees");
    reveal_strlit("Sheet_Reset(");
    reveal_strlit(", ");
    reveal_strlit("Array(");
    reveal_strlit(")");
    reveal_with_fuel(joined, 5);
    assert(PNL_RESET@ =~= reset_call(sheet_names()[15], report_columns()[9]));
    assert(reports_source() =~= (REPORTS_PART_1@ + REPORTS_PART_2@ + REPORTS_PART_3@ + REPORTS_PART_4@ + BALANCES_RESET@ + REPORTS_PART_5@ + TRIAL_BALANCE_RESET@ + REPORTS_PART_6@ + EXCHANGE_REPORT_CALL@ + REPORTS_PART_7@ + POSITIONS_REPORT_CALL@ + REPORTS_PART_8@ + EXCHANGE_COLUMNS@ + REPORTS_PART_9@ + POSITIONS_COLUMNS@ + REPORTS_PART_10@ + LOANS_RESET@ + REPORTS_PART_11@) + PNL_RESET@ + (REPORTS_PART_12@ + INCOME_STATEMENT_RESET@ + REPORTS_PART_13@ + BALANCE_SHEET_RESET@ + REPORTS_PART_14@ + REPORTS_PART_15@ + REPORTS_PART_16@ + RECONCILIATION_RESET@ + REPORTS_PART_17@ + REPORTS_PART_18@));
    lemma_occurs_middle(REPORTS_PART_1@ + REPORTS_PART_2@ + REPORTS_PART_3@ + REPORTS_PART_4@ + BALANCES_RESET@ + REPORTS_PART_5@ + TRIAL_BALANCE_RESET@ + REPORTS_PART_6@ + EXCHANGE_REPORT_CALL@ + REPORTS_PART_7@ + POSITIONS_REPORT_CALL@ + REPORTS_PART_8@ + EXCHANGE_COLUMNS@ + REPORTS_PART_9@ + POSITIONS_COLUMNS@ + REPORTS_PART_10@ + LOANS_RESET@ + REPORTS_PART_11@, PNL_RESET@, REPORTS_PART_12@ + INCOME_STATEMENT_RESET@ + REPORTS_PART_13@ + BALANCE_SHEET_RESET@ + REPORTS_PART_14@ + REPORTS_PART_15@ + REPORTS_PART_16@ + RECONCILIATION_RESET@ + REPORTS_PART_17@ + REPORTS_PART_18@);
}

/// The IncomeStatement sheet is reset with its header.
proof fn lemma_income_statement_reset()
    ensures
        resets_with_header(10),
{
    reveal_strlit(r#"Sheet_Reset("IncomeStatement", Array("entity", "realized", "unrealized", "fees", "net"))"#);
    reveal_strlit("IncomeStatement");
    reveal_strlit("entity");
    reveal_strlit("realized");
    reveal_strlit("unrealized");
    reveal_strlit("fees");
    reveal_strlit("net");
    reveal_strlit("Sheet_Reset(");
    reveal_strlit(", ");
    reveal_strlit("Array(");
    reveal_strlit(")");
    reveal_with_fuel(joined, 6);
    assert(INCOME_STATEMENT_RESET@ =~= reset_call(sheet_names()[16], report_columns()[10]));
    assert(reports_source() =~= (REPORTS_PART_1@ + REPORTS_PART_2@ + REPORTS_PART_3@ + REPORTS_PART_4@ + BALANCES_RESET@ + REPORTS_PART_5@ + TRIAL_BALANCE_RESET@ + REPORTS_PART_6@ + EXCHANGE_REPORT_CALL@ + REPORTS_PART_7@ + POSITIONS_REPORT_CALL@ + REPORTS_PART_8@ + EXCHANGE_COLUMNS@ + REPORTS_PART_9@ + POSITIONS_COLUMNS@ + REPORTS_PART_10@ + LOANS_RESET@ + REPORTS_PART_11@ + PNL_RESET@ + REPORTS_PART_12@) + INCOME_STATEMENT_RESET@ + (REPORTS_PART_13@ + BALANCE_SHEET_RESET@ + REPORTS_PART_14@ + REPORTS_PART_15@ + REPORTS_PART_16@ + RECONCILIATION_RESET@ + REPORTS_PART_17@ + REPORTS_PART_18@));
    lemma_occurs_middle(REPORTS_PART_1@ + REPORTS_PART_2@ + REPORTS_PART_3@ + REPORTS_PART_4@ + BALANCES_RESET@ + REPORTS_PART_5@ + TRIAL_BALANCE_RESET@ + REPORTS_PART_6@ + EXCHANGE_REPORT_CALL@ + REPORTS_PART_7@ + POSITIONS_REPORT_CALL@ + REPORTS_PART_8@ + EXCHANGE_COLUMNS@ + REPORTS_PART_9@ + POSITIONS_COLUMNS@ + REPORTS_PART_10@ + LOANS_RESET@ + REPORTS_PART_11@ + PNL_RESET@ + REPORTS_PART_12@, INCOME_STATEMENT_RESET@, REPORTS_PART_13@ + BALANCE_SHEET_RESET@ + REPORTS_PART_14@ + REPORTS_PART_15@ + REPORTS_PART_16@ + RECONCILIATION_RESET@ + REPORTS_PART_17@ + REPORTS_PART_18@);
}

/// The BalanceSheet sheet is reset with its header.
proof fn lemma_balance_sheet_reset()
    ensures
        resets_with_header(11),
{
    reveal_strlit(r#"Sheet_Reset("BalanceSheet", Array("entity", "assets", "liabilities", "equity", "retained", "balanced"))"#);
    reveal_strlit("BalanceSheet");
    reveal_strlit("entity");
    reveal_strlit("assets");
    reveal_strlit("liabilities");
    reveal_strlit("equity");
    reveal_strlit("retained");
    reveal_strlit("balanced");
    reveal_strlit("Sheet_Reset(");
    reveal_strlit(", ");
    reveal_strlit("Array(");
    reveal_strlit(")");
    reveal_with_fuel(joined, 7);
    assert(BALANCE_SHEET_RESET@ =~= reset_call(sheet_names()[17], report_columns()[11]));
    assert(reports_source() =~= (REPORTS_PART_1@ + REPORTS_PART_2@ + REPORTS_PART_3@ + REPORTS_PART_4@ + BALANCES_RESET@ + REPORTS_PART_5@ + TRIAL_BALANCE_RESET@ + REPORTS_PART_6@ + EXCHANGE_REPORT_CALL@ + REPORTS_PART_7@ + POSITIONS_REPORT_CALL@ + REPORTS_PART_8@ + EXCHANGE_COLUMNS@ + REPORTS_PART_9@ + POSITIONS_COLUMNS@ + REPORTS_PART_10@ + LOANS_RESET@ + REPORTS_PART_11@ + PNL_RESET@ + REPORTS_PART_12@ + INCOME_STATEMENT_RESET@ + REPORTS_PART_13@) + BALANCE_SHEET_RESET@ + (REPORTS_PART_14@ + REPORTS_PART_15@ + REPORTS_PART_16@ + RECONCILIATION_RESET@ + REPORTS_PART_17@ + REPORTS_PART_18@));
    lemma_occurs_middle(REPORTS_PART_1@ + REPORTS_PART_2@ + REPORTS_PART_3@ + REPORTS_PART_4@ + BALANCES_RESET@ + REPORTS_PART_5@ + TRIAL_BALANCE_RESET@ + REPORTS_PART_6@ + EXCHANGE_REPORT_CALL@ + REPORTS_PART_7@ + POSITIONS_REPORT_CALL@ + REPORTS_PART_8@ + EXCHANGE_COLUMNS@ + REPORTS_PART_9@ + POSITIONS_COLUMNS@ + REPORTS_PART_10@ + LOANS_RESET@ + REPORTS_PART_11@ + PNL_RESET@ + REPORTS_PART_12@ + INCOME_STATEMENT_RESET@ + REPORTS_PART_13@, BALANCE_SHEET_RESET@, REPORTS_PART_14@ + REPORTS_PART_15@ + REPORTS_PART_16@ + RECONCILIATION_RESET@ + REPORTS_PART_17@ + REPORTS_PART_18@);
}

/// The Reconciliation sheet is reset with its header.
proof fn lemma_reconciliation_reset()
    ensures
        resets_with_header(12),
{
    reveal_strlit(r#"Sheet_Reset("Reconciliation", Array("entity", "ts", "ccy", "statement_amount", "posted_amount", "status", "journal_id"))"#);
    reveal_strlit("Reconciliation");
    reveal_strlit("entity");
    reveal_strlit("ts");
    reveal_strlit("ccy");
    reveal_strlit("statement_amount");
    reveal_strlit("posted_amount");
    reveal_strlit("status");
    reveal_strlit("journal_id");
    reveal_strlit("Sheet_Reset(");
    reveal_strlit(", ");
    reveal_strlit("Array(");
    reveal_strlit(")");
    reveal_with_fuel(joined, 8);
    assert(RECONCILIATION_RESET@ =~= reset_call(sheet_names()[18], report_columns()[12]));
    assert(reports_source() =~= (REPORTS_PART_1@ + REPORTS_PART_2@ + REPORTS_PART_3@ + REPORTS_PART_4@ + BALANCES_RESET@ + REPORTS_PART_5@ + TRIAL_BALANCE_RESET@ + REPORTS_PART_6@ + EXCHANGE_REPORT_CALL@ + REPORTS_PART_7@ + POSITIONS_REPORT_CALL@ + REPORTS_PART_8@ + EXCHANGE_COLUMNS@ + REPORTS_PART_9@ + POSITIONS_COLUMNS@ + REPORTS_PART_10@ + LOANS_RESET@ + REPORTS_PART_11@ + PNL_RESET@ + REPORTS_PART_12@ + INCOME_STATEMENT_RESET@ + REPORTS_PART_13@ + BALANCE_SHEET_RESET@ + REPORTS_PART_14@ + REPORTS_PART_15@ + REPORTS_PART_16@) + RECONCILIATION_RESET@ + (REPORTS_PART_17@ + REPORTS_PART_18@));
    lemma_occurs_middle(REPORTS_PART_1@ + REPORTS_PART_2@ + REPORTS_PART_3@ + REPORTS_PART_4@ + BALANCES_RESET@ + REPORTS_PART_5@ + TRIAL_BALANCE_RESET@ + REPORTS_PART_6@ + EXCHANGE_REPORT_CALL@ + REPORTS_PART_7@ + POSITIONS_REPORT_CALL@ + REPORTS_PART_8@ + EXCHANGE_COLUMNS@ + REPORTS_PART_9@ + POSITIONS_COLUMNS@ + REPORTS_PART_10@ + LOANS_RESET@ + REPORTS_PART_11@ + PNL_RESET@ + REPORTS_PART_12@ + INCOME_STATEMENT_RESET@ + REPORTS_PART_13@ + BALANCE_SHEET_RESET@ + REPORTS_PART_14@ + REPORTS_PART_15@ + REPORTS_PART_16@, RECONCILIATION_RESET@, REPORTS_PART_17@ + REPORTS_PART_18@);
}

/// The ExchangeBalances report is built by the lots report with its header.
proof fn lemma_exchange_columns()
    ensures
        contains_text(reports_source(), "If byExchange Then full = "@ + vba_array(report_columns()[6])),
        contains_text(reports_source(), "LotsReportVba "@ + quoted(sheet_names()[12]) + ", True"@),
{
    reveal_strlit(r#"If byExchange Then full = Array("entity", "exchange", "asset", "qty", "cost_basis", "avg_cost", "mark", "market_value", "unrealized")"#);
    reveal_strlit("If byExchange Then full = ");
    reveal_strlit("entity");
    reveal_strlit("exchange");
    reveal_strlit("asset");
    reveal_strlit("qty");
    reveal_strlit("cost_basis");
    reveal_strlit("avg_cost");
    reveal_strlit("mark");
    reveal_strlit("market_value");
    reveal_strlit("unrealized");
    reveal_strlit("Array(");
    reveal_strlit(")");
    reveal_strlit(", ");
    reveal_strlit(r#"LotsReportVba "ExchangeBalances", True"#);
    reveal_strlit("ExchangeBalances");
    reveal_strlit("LotsReportVba ");
    reveal_strlit(", True");
    reveal_with_fuel(joined, 10);
    assert(EXCHANGE_COLUMNS@ =~= "If byExchange Then full = "@ + vba_array(report_columns()[6]));
    assert(EXCHANGE_REPORT_CALL@ =~= "LotsReportVba "@ + quoted(sheet_names()[12]) + ", True"@);
    assert(reports_source() =~= (REPORTS_PART_1@ + REPORTS_PART_2@ + REPORTS_PART_3@ + REPORTS_PART_4@ + BALANCES_RESET@ + REPORTS_PART_5@ + TRIAL_BALANCE_RESET@ + REPORTS_PART_6@ + EXCHANGE_REPORT_CALL@ + REPORTS_PART_7@ + POSITIONS_REPORT_CALL@ + REPORTS_PART_8@) + EXCHANGE_COLUMNS@ + (REPORTS_PART_9@ + POSITIONS_COLUMNS@ + REPORTS_PART_10@ + LOANS_RESET@ + REPORTS_PART_11@ + PNL_RESET@ + REPORTS_PART_12@ + INCOME_STATEMENT_RESET@ + REPORTS_PART_13@ + BALANCE_SHEET_RESET@ + REPORTS_PART_14@ + REPORTS_PART_15@ + REPORTS_PART_16@ + RECONCILIATION_RESET@ + REPORTS_PART_17@ + REPORTS_PART_18@));
    lemma_occurs_middle(REPORTS_PART_1@ + REPORTS_PART_2@ + REPORTS_PART_3@ + REPORTS_PART_4@ + BALANCES_RESET@ + REPORTS_PART_5@ + TRIAL_BALANCE_RESET@ + REPORTS_PART_6@ + EXCHANGE_REPORT_CALL@ + REPORTS_PART_7@ + POSITIONS_REPORT_CALL@ + REPORTS_PART_8@, EXCHANGE_COLUMNS@, REPORTS_PART_9@ + POSITIONS_COLUMNS@ + REPORTS_PART_10@ + LOANS_RESET@ + REPORTS_PART_11@ + PNL_RESET@ + REPORTS_PART_12@ + INCOME_STATEMENT_RESET@ + REPORTS_PART_13@ + BALANCE_SHEET_RESET@ + REPORTS_PART_14@ + REPORTS_PART_15@ + REPORTS_PART_16@ + RECONCILIATION_RESET@ + REPORTS_PART_17@ + REPORTS_PART_18@);
    assert(reports_source() =~= (REPORTS_PART_1@ + REPORTS_PART_2@ + REPORTS_PART_3@ + REPORTS_PART_4@ + BALANCES_RESET@ + REPORTS_PART_5@ + TRIAL_BALANCE_RESET@ + REPORTS_PART_6@) + EXCHANGE_REPORT_CALL@ + (REPORTS_PART_7@ + POSITIONS_REPORT_CALL@ + REPORTS_PART_8@ + EXCHANGE_COLUMNS@ + REPORTS_PART_9@ + POSITIONS_COLUMNS@ + REPORTS_PART_10@ + LOANS_RESET@ + REPORTS_PART_11@ + PNL_RESET@ + REPORTS_PART_12@ + INCOME_STATEMENT_RESET@ + REPORTS_PART_13@ + BALANCE_SHEET_RESET@ + REPORTS_PART_14@ + REPORTS_PART_15@ + REPORTS_PART_16@ + RECONCILIATION_RESET@ + REPORTS_PART_17@ + REPORTS_PART_18@));
    lemma_occurs_middle(REPORTS_PART_1@ + REPORTS_PART_2@ + REPORTS_PART_3@ + REPORTS_PART_4@ + BALANCES_RESET@ + REPORTS_PART_5@ + TRIAL_BALANCE_RESET@ + REPORTS_PART_6@, EXCHANGE_REPORT_CALL@, REPORTS_PART_7@ + POSITIONS_REPORT_CALL@ + REPORTS_PART_8@ + EXCHANGE_COLUMNS@ + REPORTS_PART_9@ + POSITIONS_COLUMNS@ + REPORTS_PART_10@ + LOANS_RESET@ + REPORTS_PART_11@ + PNL_RESET@ + REPORTS_PART_12@ + INCOME_STATEMENT_RESET@ + REPORTS_PART_13@ + BALANCE_SHEET_RESET@ + REPORTS_PART_14@ + REPORTS_PART_15@ + REPORTS_PART_16@ + RECONCILIATION_RESET@ + REPORTS_PART_17@ + REPORTS_PART_18@);
}

/// The Positions report is built by the lots report with its header.
proof fn lemma_positions_columns()
    ensures
        contains_text(reports_source(), "Else full = "@ + vba_array(report_columns()[7])),
        contains_text(reports_source(), "LotsReportVba "@ + quoted(sheet_names()[13]) + ", False"@),
{
    reveal_strlit(r#"Else full = Array("entity", "asset", "qty", "cost_basis", "avg_cost", "mark", "market_value", "unrealized")"#);
    reveal_strlit("Else full = ");
    reveal_strlit("entity");
    reveal_strlit("asset");
    reveal_strlit("qty");
    reveal_strlit("cost_basis");
    reveal_strlit("avg_cost");
    reveal_strlit("mark");
    reveal_strlit("market_value");
    reveal_strlit("unrealized");
    reveal_strlit("Array(");
    reveal_strlit(")");
    reveal_strlit(", ");
    reveal_strlit(r#"LotsReportVba "Positions", False"#);
    reveal_strlit("Positions");
    reveal_strlit("LotsReportVba ");
    reveal_strlit(", False");
    reveal_with_fuel(joined, 9);
    assert(POSITIONS_COLUMNS@ =~= "Else full = "@ + vba_array(report_columns()[7]));
    assert(POSITIONS_REPORT_CALL@ =~= "LotsReportVba "@ + quoted(sheet_names()[13]) + ", False"@);
    assert(reports_source() =~= (REPORTS_PART_1@ + REPORTS_PART_2@ + REPORTS_PART_3@ + REPORTS_PART_4@ + BALANCES_RESET@ + REPORTS_PART_5@ + TRIAL_BALANCE_RESET@ + REPORTS_PART_6@ + EXCHANGE_REPORT_CALL@ + REPORTS_PART_7@ + POSITIONS_REPORT_CALL@ + REPORTS_PART_8@ + EXCHANGE_COLUMNS@ + REPORTS_PART_9@) + POSITIONS_COLUMNS@ + (REPORTS_PART_10@ + LOANS_RESET@ + REPORTS_PART_11@ + PNL_RESET@ + REPORTS_PART_12@ + INCOME_STATEMENT_RESET@ + REPORTS_PART_13@ + BALANCE_SHEET_RESET@ + REPORTS_PART_14@ + REPORTS_PART_15@ + REPORTS_PART_16@ + RECONCILIATION_RESET@ + REPORTS_PART_17@ + REPORTS_PART_18@));
    lemma_occurs_middle(REPORTS_PART_1@ + REPORTS_PART_2@ + REPORTS_PART_3@ + REPORTS_PART_4@ + BALANCES_RESET@ + REPORTS_PART_5@ + TRIAL_BALANCE_RESET@ + REPORTS_PART_6@ + EXCHANGE_REPORT_CALL@ + REPORTS_PART_7@ + POSITIONS_REPORT_CALL@ + REPORTS_PART_8@ + EXCHANGE_COLUMNS@ + REPORTS_PART_9@, POSITIONS_COLUMNS@, REPORTS_PART_10@ + LOANS_RESET@ + REPORTS_PART_11@ + PNL_RESET@ + REPORTS_PART_12@ + INCOME_STATEMENT_RESET@ + REPORTS_PART_13@ + BALANCE_SHEET_RESET@ + REPORTS_PART_14@ + REPORTS_PART_15@ + REPORTS_PART_16@ + RECONCILIATION_RESET@ + REPORTS_PART_17@ + REPORTS_PART_18@);
    assert(reports_source() =~= (REPORTS_PART_1@ + REPORTS_PART_2@ + REPORTS_PART_3@ + REPORTS_PART_4@ + BALANCES_RESET@ + REPORTS_PART_5@ + TRIAL_BALANCE_RESET@ + REPORTS_PART_6@ + EXCHANGE_REPORT_CALL@ + REPORTS_PART_7@) + POSITIONS_REPORT_CALL@ + (REPORTS_PART_8@ + EXCHANGE_COLUMNS@ + REPORTS_PART_9@ + POSITIONS_COLUMNS@ + REPORTS_PART_10@ + LOANS_RESET@ + REPORTS_PART_11@ + PNL_RESET@ + REPORTS_PART_12@ + INCOME_STATEMENT_RESET@ + REPORTS_PART_13@ + BALANCE_SHEET_RESET@ + REPORTS_PART_14@ + REPORTS_PART_15@ + REPORTS_PART_16@ + RECONCILIATION_RESET@ + REPORTS_PART_17@ + REPORTS_PART_18@));
    lemma_occurs_middle(REPORTS_PART_1@ + REPORTS_PART_2@ + REPORTS_PART_3@ + REPORTS_PART_4@ + BALANCES_RESET@ + REPORTS_PART_5@ + TRIAL_BALANCE_RESET@ + REPORTS_PART_6@ + EXCHANGE_REPORT_CALL@ + REPORTS_PART_7@, POSITIONS_REPORT_CALL@, REPORTS_PART_8@ + EXCHANGE_COLUMNS@ + REPORTS_PART_9@ + POSITIONS_COLUMNS@ + REPORTS_PART_10@ + LOANS_RESET@ + REPORTS_PART_11@ + PNL_RESET@ + REPORTS_PART_12@ + INCOME_STATEMENT_RESET@ + REPORTS_PART_13@ + BALANCE_SHEET_RESET@ + REPORTS_PART_14@ + REPORTS_PART_15@ + REPORTS_PART_16@ + RECONCILIATION_RESET@ + REPORTS_PART_17@ + REPORTS_PART_18@);
}

/// Each report sheet that the workbook ships is rebuilt by VBA that resets
/// it with exactly the header it ships with: the fact sheets by `modEngine`,
/// the others by `modReports`, where the two lots reports (ExchangeBalances,
/// Positions) pass their header as the array `full`.
pub proof fn lemma_report_headers_match_vba()
    ensures
        forall|k: int| 0 <= k < 13 && k != 6 && k != 7 ==> #[trigger] resets_with_header(k),
        contains_text(reports_source(), "If byExchange Then full = "@ + vba_array(report_columns()[6])),
        contains_text(reports_source(), "LotsReportVba "@ + quoted(sheet_names()[12]) + ", True"@),
        contains_text(reports_source(), "Else full = "@ + vba_array(report_columns()[7])),
        contains_text(reports_source(), "LotsReportVba "@ + quoted(sheet_names()[13]) + ", False"@),
{
    assert forall|k: int| 0 <= k < 13 && k != 6 && k != 7 implies #[trigger] resets_with_header(k) by {
        if k == 0 {
            lemma_chart_reset();
        }         else if k == 1 {
            lemma_journal_reset();
        }         else if k == 2 {
            lemma_journal_lines_reset();
        }         else if k == 3 {
            lemma_lots_reset();
        }         else if k == 4 {
            lemma_trial_balance_reset();
        }         else if k == 5 {
            lemma_balances_reset();
        }         else if k == 8 {
            lemma_loans_reset();
        }         else if k == 9 {
            lemma_pnl_reset();
        }         else if k == 10 {
            lemma_income_statement_reset();
        }         else if k == 11 {
            lemma_balance_sheet_reset();
        }         else if k == 12 {
            lemma_reconciliation_reset();
        }
    }
    lemma_exchange_columns();
    lemma_positions_columns();
}

/// The steps of the `RunAll` pipeline, in the order they run.
pub open spec fn run_all_steps() -> Seq<Seq<char>> {
    seq!["Engine_Reset"@, "Engine_PostOpening"@, "Engine_PostHistory"@, "Engine_RevalueAll"@, "Engine_DumpFacts"@, "Reports_BuildAll"@, "Recon_Build"@, "ThisWorkbook.Save"@]
}

/// `line` begins with the word `word`, followed by a space.
pub open spec fn first_word_is(line: Seq<char>, word: Seq<char>) -> bool {
    word.len() < line.len() && line.subrange(0, word.len() as int) == word && line[word.len() as int] == ' '
}

/// At position `p` of `text` a line starts that holds, indented by four
/// spaces, the statement `call` (ended by a space or the end of the line).
pub open spec fn statement_at(text: Seq<char>, p: int, call: Seq<char>) -> bool {
    &&& occurs_at(text, p, seq!['\n', ' ', ' ', ' ', ' '] + call)
    &&& p + 5 + call.len() < text.len()
    &&& (text[p + 5 + call.len()] == ' ' || text[p + 5 + call.len()] == '\n')
}

/// The statements `calls` stand in `text` at the increasing positions `ps`.
pub open spec fn calls_at(text: Seq<char>, calls: Seq<Seq<char>>, ps: Seq<int>) -> bool {
    &&& ps.len() == calls.len()
    &&& forall|k: int| 0 <= k < calls.len() ==> statement_at(text, #[trigger] ps[k], calls[k])
    &&& forall|j: int, k: int| 0 <= j < k < calls.len() ==> #[trigger] ps[j] < #[trigger] ps[k]
}

/// The statements `calls` stand in `text` one per line, in this order.
pub open spec fn calls_in_order(text: Seq<char>, calls: Seq<Seq<char>>) -> bool {
    exists|ps: Seq<int>| #[trigger] calls_at(text, calls, ps)
}

/// The listing under "2. The RunAll pipeline" names, line by line, the steps
/// of the pipeline; and `modMain` holds the head of `RunAll`, which begins
/// with its declaration and makes these calls, one per line, in this order.
pub proof fn lemma_pipeline_matches_run_all(d: Seq<Block>)
    requires
        pipeline_blocks(d),
    ensures
        d[2] matches Block::Code(lines) && lines@.len() == run_all_steps().len()
            && forall|k: int| 0 <= k < lines@.len() ==> first_word_is(#[trigger] lines@[k]@, run_all_steps()[k]),
        contains_text(main_source(), RUN_ALL_STEPS@),
        occurs_at(RUN_ALL_STEPS@, 0, "Public Sub RunAll()"@),
        calls_in_order(RUN_ALL_STEPS@, run_all_steps()),
{
    reveal_strlit("Engine_Reset");
    reveal_strlit("Engine_PostOpening");
    reveal_strlit("Engine_PostHistory");
    reveal_strlit("Engine_RevalueAll");
    reveal_strlit("Engine_DumpFacts");
    reveal_strlit("Reports_BuildAll");
    reveal_strlit("Recon_Build");
    reveal_strlit("ThisWorkbook.Save");
    reveal_strlit("Engine_Reset       ' clear in-memory ledger state");
    reveal_strlit("Engine_PostOpening ' opening-balance snapshot -> opening journal + seed lots");
    reveal_strlit("Engine_PostHistory ' merge Trades+Transfers+BankStatement by timestamp, then post");
    reveal_strlit("Engine_RevalueAll  ' period-end mark-to-market for every held (entity, asset)");
    reveal_strlit("Engine_DumpFacts   ' write ChartOfAccounts / Journal / JournalLines / Lots");
    reveal_strlit("Reports_BuildAll   ' aggregate every report sheet (pure VBA)");
    reveal_strlit("Recon_Build        ' match BankStatement lines to posted cash journals");
    reveal_strlit("ThisWorkbook.Save  ' persist");
    reveal_strlit("Public Sub RunAll()");
    reveal_strlit(r#"Public Sub RunAll()
    Dim t As Single: t = Timer
    On Error GoTo fail
    Application.ScreenUpdating = False
    Application.Calculation = xlCalculationManual

    Engine_Reset
    Engine_PostOpening
    Engine_PostHistory      ' trades + transfers + bank, merged by timestamp
    Engine_RevalueAll       ' period-end mark-to-market (last price or Marks override)
    Engine_DumpFacts        ' write ChartOfAccounts/Journal/JournalLines/Lots

    Reports_BuildAll        ' pure-VBA aggregation -> every report sheet
    Recon_Build             ' match BankStatement lines to posted cash journals
    ThisWorkbook.Save       ' persist the rebuilt workbook
"#);
    let lines = d[2]->Code_0@;
    assert forall|k: int| 0 <= k < lines.len() implies first_word_is(#[trigger] lines[k]@, run_all_steps()[k]) by {
    assert(first_word_is(lines[0]@, run_all_steps()[0])) by {
        assert(lines[0]@.subrange(0, 12) =~= "Engine_Reset"@);
    }
    assert(first_word_is(lines[1]@, run_all_steps()[1])) by {
        assert(lines[1]@.subrange(0, 18) =~= "Engine_PostOpening"@);
    }
    assert(first_word_is(lines[2]@, run_all_steps()[2])) by {
        assert(lines[2]@.subrange(0, 18) =~= "Engine_PostHistory"@);
    }
    assert(first_word_is(lines[3]@, run_all_steps()[3])) by {
        assert(lines[3]@.subrange(0, 17) =~= "Engine_RevalueAll"@);
    }
    assert(first_word_is(lines[4]@, run_all_steps()[4])) by {
        assert(lines[4]@.subrange(0, 16) =~= "Engine_DumpFacts"@);
    }
    assert(first_word_is(lines[5]@, run_all_steps()[5])) by {
        assert(lines[5]@.subrange(0, 16) =~= "Reports_BuildAll"@);
    }
    assert(first_word_is(lines[6]@, run_all_steps()[6])) by {
        assert(lines[6]@.subrange(0, 11) =~= "Recon_Build"@);
    }
    assert(first_word_is(lines[7]@, run_all_steps()[7])) by {
        assert(lines[7]@.subrange(0, 17) =~= "ThisWorkbook.Save"@);
    }

    }
    let text = RUN_ALL_STEPS@;
    let ps = seq![163, 180, 203, 280, 367, 446, 519, 599];
    assert(statement_at(text, 163, run_all_steps()[0])) by {
        assert(text.subrange(163, 180) =~= seq!['\n', ' ', ' ', ' ', ' '] + "Engine_Reset"@);
    }
    assert(statement_at(text, 180, run_all_steps()[1])) by {
        assert(text.subrange(180, 203) =~= seq!['\n', ' ', ' ', ' ', ' '] + "Engine_PostOpening"@);
    }
    assert(statement_at(text, 203, run_all_steps()[2])) by {
        assert(text.subrange(203, 226) =~= seq!['\n', ' ', ' ', ' ', ' '] + "Engine_PostHistory"@);
    }
    assert(statement_at(text, 280, run_all_steps()[3])) by {
        assert(text.subrange(280, 302) =~= seq!['\n', ' ', ' ', ' ', ' '] + "Engine_RevalueAll"@);
    }
    assert(statement_at(text, 367, run_all_steps()[4])) by {
        assert(text.subrange(367, 388) =~= seq!['\n', ' ', ' ', ' ', ' '] + "Engine_DumpFacts"@);
    }
    assert(statement_at(text, 446, run_all_steps()[5])) by {
        assert(text.subrange(446, 467) =~= seq!['\n', ' ', ' ', ' ', ' '] + "Reports_BuildAll"@);
    }
    assert(statement_at(text, 519, run_all_steps()[6])) by {
        assert(text.subrange(519, 535) =~= seq!['\n', ' ', ' ', ' ', ' '] + "Recon_Build"@);
    }
    assert(statement_at(text, 599, run_all_steps()[7])) by {
        assert(text.subrange(599, 621) =~= seq!['\n', ' ', ' ', ' ', ' '] + "ThisWorkbook.Save"@);
    }
    assert(forall|k: int| 0 <= k < 8 ==> statement_at(text, #[trigger] ps[k], run_all_steps()[k]));
    assert(forall|j: int, k: int| 0 <= j < k < 8 ==> #[trigger] ps[j] < #[trigger] ps[k]);
    assert(calls_at(text, run_all_steps(), ps));
    assert(occurs_at(text, 0, "Public Sub RunAll()"@)) by {
        assert(text.subrange(0, 19) =~= "Public Sub RunAll()"@);
    }
    assert(main_source() =~= (MAIN_PART_1@) + RUN_ALL_STEPS@ + (MAIN_PART_2@ + RUN_ALL_SILENT_HEADER@ + MAIN_PART_3@));
    lemma_occurs_middle(MAIN_PART_1@, RUN_ALL_STEPS@, MAIN_PART_2@ + RUN_ALL_SILENT_HEADER@ + MAIN_PART_3@);
}

/// Where step 1 of the builder stands.
proof fn lemma_builder_step_1()
    ensures
        occurs_at(vbs_text(), (VBS_PART_1@).len() as int, "wb.SaveAs xlsm, 52"@),
        SAVE_AS_MACRO_WORKBOOK@ == "wb.SaveAs xlsm, 52"@,
{
    reveal_strlit("wb.SaveAs xlsm, 52");
    reveal_strlit("wb.SaveAs xlsm, 52");
    assert(SAVE_AS_MACRO_WORKBOOK@ =~= "wb.SaveAs xlsm, 52"@);
    assert(vbs_text() =~= (VBS_PART_1@) + SAVE_AS_MACRO_WORKBOOK@ + (VBS_PART_2@ + IMPORT_MODULE@ + VBS_PART_3@ + README_SHEET_SELECT@ + VBS_PART_4@ + BUTTON_ACTION@ + VBS_PART_5@ + BUTTON_NAME@ + VBS_PART_6@ + FIRST_RUN@ + VBS_PART_7@ + FINAL_SAVE@ + VBS_PART_8@));
    lemma_occurs_middle(VBS_PART_1@, SAVE_AS_MACRO_WORKBOOK@, VBS_PART_2@ + IMPORT_MODULE@ + VBS_PART_3@ + README_SHEET_SELECT@ + VBS_PART_4@ + BUTTON_ACTION@ + VBS_PART_5@ + BUTTON_NAME@ + VBS_PART_6@ + FIRST_RUN@ + VBS_PART_7@ + FINAL_SAVE@ + VBS_PART_8@);
}

/// Where step 2 of the builder stands.
proof fn lemma_builder_step_2()
    ensures
        occurs_at(vbs_text(), (VBS_PART_1@ + SAVE_AS_MACRO_WORKBOOK@ + VBS_PART_2@).len() as int, "proj.VBComponents.Import file.Path"@),
        IMPORT_MODULE@ == "proj.VBComponents.Import file.Path"@,
{
    reveal_strlit("proj.VBComponents.Import file.Path");
    reveal_strlit("proj.VBComponents.Import file.Path");
    assert(IMPORT_MODULE@ =~= "proj.VBComponents.Import file.Path"@);
    assert(vbs_text() =~= (VBS_PART_1@ + SAVE_AS_MACRO_WORKBOOK@ + VBS_PART_2@) + IMPORT_MODULE@ + (VBS_PART_3@ + README_SHEET_SELECT@ + VBS_PART_4@ + BUTTON_ACTION@ + VBS_PART_5@ + BUTTON_NAME@ + VBS_PART_6@ + FIRST_RUN@ + VBS_PART_7@ + FINAL_SAVE@ + VBS_PART_8@));
    lemma_occurs_middle(VBS_PART_1@ + SAVE_AS_MACRO_WORKBOOK@ + VBS_PART_2@, IMPORT_MODULE@, VBS_PART_3@ + README_SHEET_SELECT@ + VBS_PART_4@ + BUTTON_ACTION@ + VBS_PART_5@ + BUTTON_NAME@ + VBS_PART_6@ + FIRST_RUN@ + VBS_PART_7@ + FINAL_SAVE@ + VBS_PART_8@);
}

/// Where step 3 of the builder stands.
proof fn lemma_builder_step_3()
    ensures
        occurs_at(vbs_text(), (VBS_PART_1@ + SAVE_AS_MACRO_WORKBOOK@ + VBS_PART_2@ + IMPORT_MODULE@ + VBS_PART_3@).len() as int, "Set ws = wb.Sheets("@ + quoted(sheet_names()[0]) + ")"@),
        README_SHEET_SELECT@ == "Set ws = wb.Sheets("@ + quoted(sheet_names()[0]) + ")"@,
{
    reveal_strlit(r#"Set ws = wb.Sheets("README")"#);
    reveal_strlit("Set ws = wb.Sheets(");
    reveal_strlit(")");
    reveal_strlit("README");
    assert(README_SHEET_SELECT@ =~= "Set ws = wb.Sheets("@ + quoted(sheet_names()[0]) + ")"@);
    assert(vbs_text() =~= (VBS_PART_1@ + SAVE_AS_MACRO_WORKBOOK@ + VBS_PART_2@ + IMPORT_MODULE@ + VBS_PART_3@) + README_SHEET_SELECT@ + (VBS_PART_4@ + BUTTON_ACTION@ + VBS_PART_5@ + BUTTON_NAME@ + VBS_PART_6@ + FIRST_RUN@ + VBS_PART_7@ + FINAL_SAVE@ + VBS_PART_8@));
    lemma_occurs_middle(VBS_PART_1@ + SAVE_AS_MACRO_WORKBOOK@ + VBS_PART_2@ + IMPORT_MODULE@ + VBS_PART_3@, README_SHEET_SELECT@, VBS_PART_4@ + BUTTON_ACTION@ + VBS_PART_5@ + BUTTON_NAME@ + VBS_PART_6@ + FIRST_RUN@ + VBS_PART_7@ + FINAL_SAVE@ + VBS_PART_8@);
}

/// Where step 4 of the builder stands.
proof fn lemma_builder_step_4()
    ensures
        occurs_at(vbs_text(), (VBS_PART_1@ + SAVE_AS_MACRO_WORKBOOK@ + VBS_PART_2@ + IMPORT_MODULE@ + VBS_PART_3@ + README_SHEET_SELECT@ + VBS_PART_4@).len() as int, "btn.OnAction = "@ + quoted(run_all_name())),
        BUTTON_ACTION@ == "btn.OnAction = "@ + quoted(run_all_name()),
{
    reveal_strlit(r#"btn.OnAction = "RunAll""#);
    reveal_strlit("btn.OnAction = ");
    reveal_strlit("RunAll");
    assert(BUTTON_ACTION@ =~= "btn.OnAction = "@ + quoted(run_all_name()));
    assert(vbs_text() =~= (VBS_PART_1@ + SAVE_AS_MACRO_WORKBOOK@ + VBS_PART_2@ + IMPORT_MODULE@ + VBS_PART_3@ + README_SHEET_SELECT@ + VBS_PART_4@) + BUTTON_ACTION@ + (VBS_PART_5@ + BUTTON_NAME@ + VBS_PART_6@ + FIRST_RUN@ + VBS_PART_7@ + FINAL_SAVE@ + VBS_PART_8@));
    lemma_occurs_middle(VBS_PART_1@ + SAVE_AS_MACRO_WORKBOOK@ + VBS_PART_2@ + IMPORT_MODULE@ + VBS_PART_3@ + README_SHEET_SELECT@ + VBS_PART_4@, BUTTON_ACTION@, VBS_PART_5@ + BUTTON_NAME@ + VBS_PART_6@ + FIRST_RUN@ + VBS_PART_7@ + FINAL_SAVE@ + VBS_PART_8@);
}

/// Where step 5 of the builder stands.
proof fn lemma_builder_step_5()
    ensures
        occurs_at(vbs_text(), (VBS_PART_1@ + SAVE_AS_MACRO_WORKBOOK@ + VBS_PART_2@ + IMPORT_MODULE@ + VBS_PART_3@ + README_SHEET_SELECT@ + VBS_PART_4@ + BUTTON_ACTION@ + VBS_PART_5@ + BUTTON_NAME@ + VBS_PART_6@).len() as int, "xl.Run "@ + quoted(run_all_silent_name())),
        FIRST_RUN@ == "xl.Run "@ + quoted(run_all_silent_name()),
{
    reveal_strlit(r#"xl.Run "RunAllSilent""#);
    reveal_strlit("xl.Run ");
    reveal_strlit("RunAllSilent");
    assert(FIRST_RUN@ =~= "xl.Run "@ + quoted(run_all_silent_name()));
    assert(vbs_text() =~= (VBS_PART_1@ + SAVE_AS_MACRO_WORKBOOK@ + VBS_PART_2@ + IMPORT_MODULE@ + VBS_PART_3@ + README_SHEET_SELECT@ + VBS_PART_4@ + BUTTON_ACTION@ + VBS_PART_5@ + BUTTON_NAME@ + VBS_PART_6@) + FIRST_RUN@ + (VBS_PART_7@ + FINAL_SAVE@ + VBS_PART_8@));
    lemma_occurs_middle(VBS_PART_1@ + SAVE_AS_MACRO_WORKBOOK@ + VBS_PART_2@ + IMPORT_MODULE@ + VBS_PART_3@ + README_SHEET_SELECT@ + VBS_PART_4@ + BUTTON_ACTION@ + VBS_PART_5@ + BUTTON_NAME@ + VBS_PART_6@, FIRST_RUN@, VBS_PART_7@ + FINAL_SAVE@ + VBS_PART_8@);
}

/// Where step 6 of the builder stands.
proof fn lemma_builder_step_6()
    ensures
        occurs_at(vbs_text(), (VBS_PART_1@ + SAVE_AS_MACRO_WORKBOOK@ + VBS_PART_2@ + IMPORT_MODULE@ + VBS_PART_3@ + README_SHEET_SELECT@ + VBS_PART_4@ + BUTTON_ACTION@ + VBS_PART_5@ + BUTTON_NAME@ + VBS_PART_6@ + FIRST_RUN@ + VBS_PART_7@).len() as int, seq!['w', 'b', '.', 'S', 'a', 'v', 'e', '\n']),
        FINAL_SAVE@ == seq!['w', 'b', '.', 'S', 'a', 'v', 'e', '\n'],
{
    reveal_strlit(r#"wb.Save
"#);
    assert(FINAL_SAVE@ =~= seq!['w', 'b', '.', 'S', 'a', 'v', 'e', '\n']);
    assert(vbs_text() =~= (VBS_PART_1@ + SAVE_AS_MACRO_WORKBOOK@ + VBS_PART_2@ + IMPORT_MODULE@ + VBS_PART_3@ + README_SHEET_SELECT@ + VBS_PART_4@ + BUTTON_ACTION@ + VBS_PART_5@ + BUTTON_NAME@ + VBS_PART_6@ + FIRST_RUN@ + VBS_PART_7@) + FINAL_SAVE@ + (VBS_PART_8@));
    lemma_occurs_middle(VBS_PART_1@ + SAVE_AS_MACRO_WORKBOOK@ + VBS_PART_2@ + IMPORT_MODULE@ + VBS_PART_3@ + README_SHEET_SELECT@ + VBS_PART_4@ + BUTTON_ACTION@ + VBS_PART_5@ + BUTTON_NAME@ + VBS_PART_6@ + FIRST_RUN@ + VBS_PART_7@, FINAL_SAVE@, VBS_PART_8@);
}

/// The pieces `pieces` stand in `text` at the positions `ps`, in this order
/// and without overlapping.
pub open spec fn pieces_at(text: Seq<char>, pieces: Seq<Seq<char>>, ps: Seq<int>) -> bool {
    &&& ps.len() == pieces.len()
    &&& forall|k: int| 0 <= k < pieces.len() ==> occurs_at(text, #[trigger] ps[k], pieces[k])
    &&& forall|j: int, k: int| 0 <= j < k < pieces.len() ==> #[trigger] ps[j] + pieces[j].len() <= #[trigger] ps[k]
}

/// The pieces `pieces` stand in `text` in this order.
pub open spec fn appear_in_order(text: Seq<char>, pieces: Seq<Seq<char>>) -> bool {
    exists|ps: Seq<int>| #[trigger] pieces_at(text, pieces, ps)
}

/// The macro that rebuilds the ledger.
pub open spec fn run_all_name() -> Seq<char> {
    "RunAll"@
}

/// The macro that rebuilds the ledger without message boxes.
pub open spec fn run_all_silent_name() -> Seq<char> {
    "RunAllSilent"@
}

/// The builder script saves the workbook as macro-enabled (file format 52)
/// before it imports the modules, then puts the button on the README sheet
/// (the first sheet of the workbook), wires it to `RunAll`, runs
/// `RunAllSilent` once and saves; and both macros are public subs of `modMain`.
pub proof fn lemma_builder_wires_run_all()
    ensures
        appear_in_order(vbs_text(), seq![
            "wb.SaveAs xlsm, 52"@,
            "proj.VBComponents.Import file.Path"@,
            "Set ws = wb.Sheets("@ + quoted(sheet_names()[0]) + ")"@,
            "btn.OnAction = "@ + quoted(run_all_name()),
            "xl.Run "@ + quoted(run_all_silent_name()),
            seq!['w', 'b', '.', 'S', 'a', 'v', 'e', '\n']
        ]),
        contains_text(main_source(), "Public Sub "@ + run_all_name() + "()"@),
        contains_text(main_source(), "Public Sub "@ + run_all_silent_name() + "()"@),
{
    lemma_builder_step_1();
    lemma_builder_step_2();
    lemma_builder_step_3();
    lemma_builder_step_4();
    lemma_builder_step_5();
    lemma_builder_step_6();
    lemma_macros_declared();
    let pieces = seq!["wb.SaveAs xlsm, 52"@, "proj.VBComponents.Import file.Path"@, "Set ws = wb.Sheets("@ + quoted(sheet_names()[0]) + ")"@, "btn.OnAction = "@ + quoted(run_all_name()), "xl.Run "@ + quoted(run_all_silent_name()), seq!['w', 'b', '.', 'S', 'a', 'v', 'e', '\n']];
    let ps = seq![
        (VBS_PART_1@).len() as int,
        (VBS_PART_1@ + SAVE_AS_MACRO_WORKBOOK@ + VBS_PART_2@).len() as int,
        (VBS_PART_1@ + SAVE_AS_MACRO_WORKBOOK@ + VBS_PART_2@ + IMPORT_MODULE@ + VBS_PART_3@).len() as int,
        (VBS_PART_1@ + SAVE_AS_MACRO_WORKBOOK@ + VBS_PART_2@ + IMPORT_MODULE@ + VBS_PART_3@ + README_SHEET_SELECT@ + VBS_PART_4@).len() as int,
        (VBS_PART_1@ + SAVE_AS_MACRO_WORKBOOK@ + VBS_PART_2@ + IMPORT_MODULE@ + VBS_PART_3@ + README_SHEET_SELECT@ + VBS_PART_4@ + BUTTON_ACTION@ + VBS_PART_5@ + BUTTON_NAME@ + VBS_PART_6@).len() as int,
        (VBS_PART_1@ + SAVE_AS_MACRO_WORKBOOK@ + VBS_PART_2@ + IMPORT_MODULE@ + VBS_PART_3@ + README_SHEET_SELECT@ + VBS_PART_4@ + BUTTON_ACTION@ + VBS_PART_5@ + BUTTON_NAME@ + VBS_PART_6@ + FIRST_RUN@ + VBS_PART_7@).len() as int
    ];
    assert(occurs_at(vbs_text(), ps[0], pieces[0]));
    assert(occurs_at(vbs_text(), ps[1], pieces[1]));
    assert(occurs_at(vbs_text(), ps[2], pieces[2]));
    assert(occurs_at(vbs_text(), ps[3], pieces[3]));
    assert(occurs_at(vbs_text(), ps[4], pieces[4]));
    assert(occurs_at(vbs_text(), ps[5], pieces[5]));
    assert(forall|j: int, k: int| 0 <= j < k < 6 ==> #[trigger] ps[j] + pieces[j].len() <= #[trigger] ps[k]);
    assert(pieces_at(vbs_text(), pieces, ps));
}

/// Both macros are declared in `modMain`.
proof fn lemma_macros_declared()
    ensures
        contains_text(main_source(), "Public Sub "@ + run_all_name() + "()"@),
        contains_text(main_source(), "Public Sub "@ + run_all_silent_name() + "()"@),
{
    reveal_strlit("Public Sub ");
    reveal_strlit("()");
    reveal_strlit("RunAll");
    reveal_strlit("RunAllSilent");
    reveal_strlit("Public Sub RunAllSilent()");
    assert(main_source() =~= (MAIN_PART_1@ + RUN_ALL_STEPS@ + MAIN_PART_2@) + RUN_ALL_SILENT_HEADER@ + (MAIN_PART_3@));
    lemma_occurs_middle(MAIN_PART_1@ + RUN_ALL_STEPS@ + MAIN_PART_2@, RUN_ALL_SILENT_HEADER@, MAIN_PART_3@);
    assert(RUN_ALL_SILENT_HEADER@ =~= "Public Sub "@ + run_all_silent_name() + "()"@);
    assert(main_source() =~= (MAIN_PART_1@) + RUN_ALL_STEPS@ + (MAIN_PART_2@ + RUN_ALL_SILENT_HEADER@ + MAIN_PART_3@));
    lemma_occurs_middle(MAIN_PART_1@, RUN_ALL_STEPS@, MAIN_PART_2@ + RUN_ALL_SILENT_HEADER@ + MAIN_PART_3@);
    reveal_strlit(r#"Public Sub RunAll()
    Dim t As Single: t = Timer
    On Error GoTo fail
    Application.ScreenUpdating = False
    Application.Calculation = xlCalculationManual

    Engine_Reset
    Engine_PostOpening
    Engine_PostHistory      ' trades + transfers + bank, merged by timestamp
    Engine_RevalueAll       ' period-end mark-to-market (last price or Marks override)
    Engine_DumpFacts        ' write ChartOfAccounts/Journal/JournalLines/Lots

    Reports_BuildAll        ' pure-VBA aggregation -> every report sheet
    Recon_Build             ' match BankStatement lines to posted cash journals
    ThisWorkbook.Save       ' persist the rebuilt workbook
"#);
    assert(RUN_ALL_STEPS@.subrange(0, 19) =~= "Public Sub "@ + run_all_name() + "()"@);
    lemma_contains_within(main_source(), RUN_ALL_STEPS@, 0, "Public Sub "@ + run_all_name() + "()"@);
}

/// The digits of a figure read as one whole number; thousands separators
/// and the decimal point are skipped.
pub open spec fn figure_digits(s: Seq<char>) -> int
    decreases s.len(),
{
    if s.len() == 0 {
        0
    } else if s.last() == ',' || s.last() == '.' {
        figure_digits(s.drop_last())
    } else {
        figure_digits(s.drop_last()) * 10 + (s.last() as int - 48)
    }
}

/// Whether a figure has a decimal point.
pub open spec fn has_point(s: Seq<char>) -> bool
    decreases s.len(),
{
    s.len() > 0 && (s.last() == '.' || has_point(s.drop_last()))
}

/// The number of digits after a figure's decimal point (0 without one).
pub open spec fn decimals(s: Seq<char>) -> nat
    decreases s.len(),
{
    if s.len() == 0 || s.last() == '.' {
        0
    } else if has_point(s.drop_last()) {
        decimals(s.drop_last()) + 1
    } else {
        0
    }
}

/// Ten to the power `n`.
pub open spec fn pow10(n: nat) -> int
    decreases n,
{
    if n == 0 {
        1
    } else {
        10 * pow10((n - 1) as nat)
    }
}

/// The amount that the figure `s` (at most `places` decimals) denotes, in
/// units of ten to the power minus `places`.
pub open spec fn amount(s: Seq<char>, places: nat) -> int {
    figure_digits(s) * pow10((places - decimals(s)) as nat)
}

/// The demo results as the document states them.
pub open spec fn doc_results(realized: Seq<char>, unrealized: Seq<char>, fees: Seq<char>, net: Seq<char>) -> Seq<char> {
    "realized "@ + realized + "; unrealized "@ + unrealized + "; fees "@ + fees + "; net income "@ + net
}

/// The demo results as the setup guide states them.
pub open spec fn setup_results(realized: Seq<char>, unrealized: Seq<char>, fees: Seq<char>, net: Seq<char>) -> Seq<char> {
    "realized **"@ + realized + "**, unrealized\n**"@ + unrealized + "**, fees **"@ + fees + "**, net income **"@ + net + "**"@
}

/// The demo results as the README sheet states them.
pub open spec fn readme_results(realized: Seq<char>, unrealized: Seq<char>, fees: Seq<char>, net: Seq<char>) -> Seq<char> {
    "realized "@ + realized + ", unrealized "@ + unrealized + ", fees "@ + fees + ", net "@ + net
}

/// The FIFO cost of the bitcoin sold in the demo, as the document states it.
pub open spec fn doc_cost(q1: Seq<char>, p1: Seq<char>, q2: Seq<char>, p2: Seq<char>, cost: Seq<char>) -> Seq<char> {
    q1 + " @ "@ + p1 + " + "@ + q2 + " @ "@ + p2 + " = "@ + cost
}

/// The realized gain of the demo sale, as the document states it.
pub open spec fn doc_realized(proceeds: Seq<char>, cost: Seq<char>, realized: Seq<char>) -> Seq<char> {
    "Realized = "@ + proceeds + " - "@ + cost + " = "@ + realized
}

/// The figure `0.4995` denotes 4995 hundredths of a hundredth.
proof fn lemma_figure_0()
    ensures
        amount("0.4995"@, 4) == 4995,
{
    reveal_strlit("0.4995");
    reveal_with_fuel(figure_digits, 10);
    reveal_with_fuel(has_point, 10);
    reveal_with_fuel(decimals, 10);
    reveal_with_fuel(pow10, 5);
    assert(figure_digits("0.4995"@) == 4995);
    assert(decimals("0.4995"@) == 4);
}

/// The figure `60,000` denotes 6000000 hundredths.
proof fn lemma_figure_1()
    ensures
        amount("60,000"@, 2) == 6000000,
{
    reveal_strlit("60,000");
    reveal_with_fuel(figure_digits, 10);
    reveal_with_fuel(has_point, 10);
    reveal_with_fuel(decimals, 10);
    reveal_with_fuel(pow10, 5);
    assert(figure_digits("60,000"@) == 60000);
    assert(decimals("60,000"@) == 0);
}

/// The figure `0.5005` denotes 5005 hundredths of a hundredth.
proof fn lemma_figure_2()
    ensures
        amount("0.5005"@, 4) == 5005,
{
    reveal_strlit("0.5005");
    reveal_with_fuel(figure_digits, 10);
    reveal_with_fuel(has_point, 10);
    reveal_with_fuel(decimals, 10);
    reveal_with_fuel(pow10, 5);
    assert(figure_digits("0.5005"@) == 5005);
    assert(decimals("0.5005"@) == 4);
}

/// The figure `65,000` denotes 6500000 hundredths.
proof fn lemma_figure_3()
    ensures
        amount("65,000"@, 2) == 6500000,
{
    reveal_strlit("65,000");
    reveal_with_fuel(figure_digits, 10);
    reveal_with_fuel(has_point, 10);
    reveal_with_fuel(decimals, 10);
    reveal_with_fuel(pow10, 5);
    assert(figure_digits("65,000"@) == 65000);
    assert(decimals("65,000"@) == 0);
}

/// The figure `62,502.50` denotes 6250250 hundredths.
proof fn lemma_figure_4()
    ensures
        amount("62,502.50"@, 2) == 6250250,
{
    reveal_strlit("62,502.50");
    reveal_with_fuel(figure_digits, 10);
    reveal_with_fuel(has_point, 10);
    reveal_with_fuel(decimals, 10);
    reveal_with_fuel(pow10, 5);
    assert(figure_digits("62,502.50"@) == 6250250);
    assert(decimals("62,502.50"@) == 2);
}

/// The figure `70,000` denotes 7000000 hundredths.
proof fn lemma_figure_5()
    ensures
        amount("70,000"@, 2) == 7000000,
{
    reveal_strlit("70,000");
    reveal_with_fuel(figure_digits, 10);
    reveal_with_fuel(has_point, 10);
    reveal_with_fuel(decimals, 10);
    reveal_with_fuel(pow10, 5);
    assert(figure_digits("70,000"@) == 70000);
    assert(decimals("70,000"@) == 0);
}

/// The figure `7,497.50` denotes 749750 hundredths.
proof fn lemma_figure_6()
    ensures
        amount("7,497.50"@, 2) == 749750,
{
    reveal_strlit("7,497.50");
    reveal_with_fuel(figure_digits, 10);
    reveal_with_fuel(has_point, 10);
    reveal_with_fuel(decimals, 10);
    reveal_with_fuel(pow10, 5);
    assert(figure_digits("7,497.50"@) == 749750);
    assert(decimals("7,497.50"@) == 2);
}

/// The figure `31,496.50` denotes 3149650 hundredths.
proof fn lemma_figure_7()
    ensures
        amount("31,496.50"@, 2) == 3149650,
{
    reveal_strlit("31,496.50");
    reveal_with_fuel(figure_digits, 10);
    reveal_with_fuel(has_point, 10);
    reveal_with_fuel(decimals, 10);
    reveal_with_fuel(pow10, 5);
    assert(figure_digits("31,496.50"@) == 3149650);
    assert(decimals("31,496.50"@) == 2);
}

/// The figure `140` denotes 14000 hundredths.
proof fn lemma_figure_8()
    ensures
        amount("140"@, 2) == 14000,
{
    reveal_strlit("140");
    reveal_with_fuel(figure_digits, 10);
    reveal_with_fuel(has_point, 10);
    reveal_with_fuel(decimals, 10);
    reveal_with_fuel(pow10, 5);
    assert(figure_digits("140"@) == 140);
    assert(decimals("140"@) == 0);
}

/// The figure `38,854` denotes 3885400 hundredths.
proof fn lemma_figure_9()
    ensures
        amount("38,854"@, 2) == 3885400,
{
    reveal_strlit("38,854");
    reveal_with_fuel(figure_digits, 10);
    reveal_with_fuel(has_point, 10);
    reveal_with_fuel(decimals, 10);
    reveal_with_fuel(pow10, 5);
    assert(figure_digits("38,854"@) == 38854);
    assert(decimals("38,854"@) == 0);
}

/// The figure `7497.5` denotes 749750 hundredths.
proof fn lemma_figure_10()
    ensures
        amount("7497.5"@, 2) == 749750,
{
    reveal_strlit("7497.5");
    reveal_with_fuel(figure_digits, 10);
    reveal_with_fuel(has_point, 10);
    reveal_with_fuel(decimals, 10);
    reveal_with_fuel(pow10, 5);
    assert(figure_digits("7497.5"@) == 74975);
    assert(decimals("7497.5"@) == 1);
}

/// The figure `31496.5` denotes 3149650 hundredths.
proof fn lemma_figure_11()
    ensures
        amount("31496.5"@, 2) == 3149650,
{
    reveal_strlit("31496.5");
    reveal_with_fuel(figure_digits, 10);
    reveal_with_fuel(has_point, 10);
    reveal_with_fuel(decimals, 10);
    reveal_with_fuel(pow10, 5);
    assert(figure_digits("31496.5"@) == 314965);
    assert(decimals("31496.5"@) == 1);
}

/// The figure `38854` denotes 3885400 hundredths.
proof fn lemma_figure_12()
    ensures
        amount("38854"@, 2) == 3885400,
{
    reveal_strlit("38854");
    reveal_with_fuel(figure_digits, 10);
    reveal_with_fuel(has_point, 10);
    reveal_with_fuel(decimals, 10);
    reveal_with_fuel(pow10, 5);
    assert(figure_digits("38854"@) == 38854);
    assert(decimals("38854"@) == 0);
}

/// What the figures of the worked example denote.
proof fn lemma_demo_amounts()
    ensures
        amount("0.4995"@, 4) == 4995,
        amount("60,000"@, 2) == 6000000,
        amount("0.5005"@, 4) == 5005,
        amount("65,000"@, 2) == 6500000,
        amount("62,502.50"@, 2) == 6250250,
        amount("70,000"@, 2) == 7000000,
        amount("7,497.50"@, 2) == 749750,
        amount("31,496.50"@, 2) == 3149650,
        amount("140"@, 2) == 14000,
        amount("38,854"@, 2) == 3885400,
        amount("7497.5"@, 2) == 749750,
        amount("31496.5"@, 2) == 3149650,
        amount("38854"@, 2) == 3885400,
{
    lemma_figure_0();
    lemma_figure_1();
    lemma_figure_2();
    lemma_figure_3();
    lemma_figure_4();
    lemma_figure_5();
    lemma_figure_6();
    lemma_figure_7();
    lemma_figure_8();
    lemma_figure_9();
    lemma_figure_10();
    lemma_figure_11();
    lemma_figure_12();
}

/// The worked example of the document states the FIFO cost, the realized
/// gain and the demo results.
proof fn lemma_doc_figures(d: Seq<Block>)
    requires
        example_blocks(d),
    ensures
        d[2] matches Block::Para(x) && contains_text(x@, doc_cost("0.4995"@, "60,000"@, "0.5005"@, "65,000"@, "62,502.50"@))
            && contains_text(x@, doc_realized("70,000"@, "62,502.50"@, "7,497.50"@)),
        d[3] matches Block::Para(x) && contains_text(x@, doc_results("7,497.50"@, "31,496.50"@, "140"@, "38,854"@)),
{
    reveal_strlit("The sell takes FIFO basis: after the transfer consumed 1.5 BTC + 0.0005 fee from the 60,000 lot, the 1 BTC sold is 0.4995 @ 60,000 + 0.5005 @ 65,000 = 62,502.50 cost. Realized = 70,000 - 62,502.50 = 7,497.50.");
    reveal_strlit("After RUN ALL, BVI shows: realized 7,497.50; unrealized 31,496.50; fees 140; net income 38,854; BalanceSheet balanced = TRUE; global imbalance 0. These match the Rust ledger to the cent.");
    reveal_strlit("0.4995");
    reveal_strlit("60,000");
    reveal_strlit("0.5005");
    reveal_strlit("65,000");
    reveal_strlit("62,502.50");
    reveal_strlit("70,000");
    reveal_strlit("7,497.50");
    reveal_strlit("31,496.50");
    reveal_strlit("140");
    reveal_strlit("38,854");
    reveal_strlit(" @ ");
    reveal_strlit(" + ");
    reveal_strlit(" = ");
    reveal_strlit("Realized = ");
    reveal_strlit(" - ");
    reveal_strlit("realized ");
    reveal_strlit("; unrealized ");
    reveal_strlit("; fees ");
    reveal_strlit("; net income ");
    let x2 = d[2]->Para_0@;
    let x3 = d[3]->Para_0@;
    assert(x2.subrange(115, 160) =~= doc_cost("0.4995"@, "60,000"@, "0.5005"@, "65,000"@, "62,502.50"@));
    assert(occurs_at(x2, 115, doc_cost("0.4995"@, "60,000"@, "0.5005"@, "65,000"@, "62,502.50"@)));
    assert(x2.subrange(167, 207) =~= doc_realized("70,000"@, "62,502.50"@, "7,497.50"@));
    assert(occurs_at(x2, 167, doc_realized("70,000"@, "62,502.50"@, "7,497.50"@)));
    assert(x3.subrange(26, 94) =~= doc_results("7,497.50"@, "31,496.50"@, "140"@, "38,854"@));
    assert(occurs_at(x3, 26, doc_results("7,497.50"@, "31,496.50"@, "140"@, "38,854"@)));
}

/// The setup guide states the demo results.
proof fn lemma_setup_figures()
    ensures
        contains_text(setup_text(), setup_results("7497.5"@, "31496.5"@, "140"@, "38854"@)),
{
    reveal_strlit(r#"With the shipped demo, entity **BVI** must show: realized **7497.5**, unrealized
**31496.5**, fees **140**, net income **38854**, BalanceSheet **balanced = TRUE**,
and the global imbalance **0**."#);
    reveal_strlit("7497.5");
    reveal_strlit("31496.5");
    reveal_strlit("140");
    reveal_strlit("38854");
    reveal_strlit("realized **");
    reveal_strlit(r#"**, unrealized
**"#);
    reveal_strlit("**, fees **");
    reveal_strlit("**, net income **");
    reveal_strlit("**");
    assert(SETUP_DEMO_FIGURES@.subrange(49, 128) =~= setup_results("7497.5"@, "31496.5"@, "140"@, "38854"@));
    assert(setup_text() =~= (SETUP_PART_1@ + SETUP_PART_2@) + SETUP_DEMO_FIGURES@ + (SETUP_PART_3@));
    lemma_occurs_middle(SETUP_PART_1@ + SETUP_PART_2@, SETUP_DEMO_FIGURES@, SETUP_PART_3@);
    lemma_contains_within(setup_text(), SETUP_DEMO_FIGURES@, 49, setup_results("7497.5"@, "31496.5"@, "140"@, "38854"@));
}

/// The README sheet states the demo results.
proof fn lemma_readme_figures(rows: Seq<Vec<Cell>>)
    requires
        readme_rows(rows),
    ensures
        rows[22]@[1] matches Cell::Text(x) && contains_text(x@, readme_results("7497.5"@, "31496.5"@, "140"@, "38854"@)),
{
    reveal_strlit("After RUN ALL, BVI should show realized 7497.5, unrealized 31496.5, fees 140, net 38854, and BalanceSheet balanced = TRUE. Global imbalance = 0.");
    reveal_strlit("7497.5");
    reveal_strlit("31496.5");
    reveal_strlit("140");
    reveal_strlit("38854");
    reveal_strlit("realized ");
    reveal_strlit(", unrealized ");
    reveal_strlit(", fees ");
    reveal_strlit(", net ");
    assert(cells_are(rows[22]@, seq![txt("Demo check"@), txt("After RUN ALL, BVI should show realized 7497.5, unrealized 31496.5, fees 140, net 38854, and BalanceSheet balanced = TRUE. Global imbalance = 0."@)]));
    let x = rows[22]@[1]->Text_0@;
    assert(x.subrange(31, 87) =~= readme_results("7497.5"@, "31496.5"@, "140"@, "38854"@));
    assert(occurs_at(x, 31, readme_results("7497.5"@, "31496.5"@, "140"@, "38854"@)));
}

/// The worked example holds together: the document, the setup guide and the
/// README sheet state the same realized gain, unrealized gain, fees and net
/// income for the demo; the FIFO cost of the bitcoin sold is 0.4995 BTC at
/// 60,000 plus 0.5005 BTC at 65,000; realized = proceeds - cost; and net
/// income = realized + unrealized - fees.
pub proof fn lemma_worked_example_figures(d: Seq<Block>, rows: Seq<Vec<Cell>>)
    requires
        example_blocks(d),
        readme_rows(rows),
    ensures
        d[2] matches Block::Para(x) && contains_text(x@, doc_cost("0.4995"@, "60,000"@, "0.5005"@, "65,000"@, "62,502.50"@))
            && contains_text(x@, doc_realized("70,000"@, "62,502.50"@, "7,497.50"@)),
        d[3] matches Block::Para(x) && contains_text(x@, doc_results("7,497.50"@, "31,496.50"@, "140"@, "38,854"@)),
        contains_text(setup_text(), setup_results("7497.5"@, "31496.5"@, "140"@, "38854"@)),
        rows[22]@[1] matches Cell::Text(x) && contains_text(x@, readme_results("7497.5"@, "31496.5"@, "140"@, "38854"@)),
        amount("0.4995"@, 4) * amount("60,000"@, 2) + amount("0.5005"@, 4) * amount("65,000"@, 2) == amount("62,502.50"@, 2) * pow10(4),
        amount("70,000"@, 2) - amount("62,502.50"@, 2) == amount("7,497.50"@, 2),
        amount("7,497.50"@, 2) == amount("7497.5"@, 2),
        amount("31,496.50"@, 2) == amount("31496.5"@, 2),
        amount("38,854"@, 2) == amount("38854"@, 2),
        amount("7,497.50"@, 2) + amount("31,496.50"@, 2) - amount("140"@, 2) == amount("38,854"@, 2),
{
    lemma_demo_amounts();
    lemma_doc_figures(d);
    lemma_setup_figures();
    lemma_readme_figures(rows);
    reveal_with_fuel(pow10, 5);
}

} // verus!
