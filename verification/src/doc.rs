//! The explanatory document of the workbook: a walkthrough of how the VBA
//! engine works, as a list of typed blocks (title, headings, paragraphs,
//! bullets, code listings) for a word-processing writer to lay out.
use vstd::prelude::*;

verus! {

/// One block of the document.
pub enum Block {
    Title(String),
    Subtitle(String),
    H1(String),
    H2(String),
    Para(String),
    Bullet(String),
    Code(Vec<String>),
}

/// `d` holds exactly the blocks of the section "1. The big picture".
pub open spec fn opening_blocks(d: Seq<Block>) -> bool {
    &&& d.len() == 9
    &&& d[0] matches Block::Title(x) && x@ == "Gravity Ledger — How the VBA Engine Works"@
    &&& d[1] matches Block::Subtitle(x) && x@ == "A single-file crypto double-entry accounting workbook, 100% VBA macros, end to end."@
    &&& d[2] matches Block::H1(x) && x@ == "1. The big picture"@
    &&& d[3] matches Block::Para(x) && x@ == "Gravity Ledger is an Excel workbook that keeps the books for a spot-only crypto market maker: double-entry general ledger, FIFO cost basis, inventory transfers between exchanges, period-end mark-to-market, loans, and IFRS reports — across multiple legal entities. It is a faithful port of the Rust engine in pgaurabh4/crypto-accounting."@
    &&& d[4] matches Block::Para(x) && x@ == "You touch only four input sheets. Everything else is rebuilt by one macro, RunAll, wired to the RUN ALL button. There is no database, add-in, or external provider — the entire engine is VBA, so it runs on any machine that has Excel."@
    &&& d[5] matches Block::Para(x) && x@ == "The code is organised into three standard modules:"@
    &&& d[6] matches Block::Bullet(x) && x@ == "modMain — the RunAll orchestration and the button handler."@
    &&& d[7] matches Block::Bullet(x) && x@ == "modEngine — ingestion + double-entry posting + FIFO lots (the sequential accounting)."@
    &&& d[8] matches Block::Bullet(x) && x@ == "modReports — aggregation of every report sheet, plus bank reconciliation."@
}

/// The blocks of the section "1. The big picture".
fn opening_section() -> (d: Vec<Block>)
    ensures
        opening_blocks(d@),
{
    let mut d: Vec<Block> = Vec::new();
    d.push(Block::Title("Gravity Ledger — How the VBA Engine Works".to_owned()));
    d.push(Block::Subtitle("A single-file crypto double-entry accounting workbook, 100% VBA macros, end to end.".to_owned()));
    d.push(Block::H1("1. The big picture".to_owned()));
    d.push(Block::Para("Gravity Ledger is an Excel workbook that keeps the books for a spot-only crypto market maker: double-entry general ledger, FIFO cost basis, inventory transfers between exchanges, period-end mark-to-market, loans, and IFRS reports — across multiple legal entities. It is a faithful port of the Rust engine in pgaurabh4/crypto-accounting.".to_owned()));
    d.push(Block::Para("You touch only four input sheets. Everything else is rebuilt by one macro, RunAll, wired to the RUN ALL button. There is no database, add-in, or external provider — the entire engine is VBA, so it runs on any machine that has Excel.".to_owned()));
    d.push(Block::Para("The code is organised into three standard modules:".to_owned()));
    d.push(Block::Bullet("modMain — the RunAll orchestration and the button handler.".to_owned()));
    d.push(Block::Bullet("modEngine — ingestion + double-entry posting + FIFO lots (the sequential accounting).".to_owned()));
    d.push(Block::Bullet("modReports — aggregation of every report sheet, plus bank reconciliation.".to_owned()));
    d
}

/// `d` holds exactly the blocks of the section "2. The RunAll pipeline".
pub open spec fn pipeline_blocks(d: Seq<Block>) -> bool {
    &&& d.len() == 4
    &&& d[0] matches Block::H1(x) && x@ == "2. The RunAll pipeline"@
    &&& d[1] matches Block::Para(x) && x@ == "Clicking RUN ALL executes these steps in order:"@
    &&& d[2] matches Block::Code(lines) && lines@.len() == 8
        && lines@[0]@ == "Engine_Reset       ' clear in-memory ledger state"@
        && lines@[1]@ == "Engine_PostOpening ' opening-balance snapshot -> opening journal + seed lots"@
        && lines@[2]@ == "Engine_PostHistory ' merge Trades+Transfers+BankStatement by timestamp, then post"@
        && lines@[3]@ == "Engine_RevalueAll  ' period-end mark-to-market for every held (entity, asset)"@
        && lines@[4]@ == "Engine_DumpFacts   ' write ChartOfAccounts / Journal / JournalLines / Lots"@
        && lines@[5]@ == "Reports_BuildAll   ' aggregate every report sheet (pure VBA)"@
        && lines@[6]@ == "Recon_Build        ' match BankStatement lines to posted cash journals"@
        && lines@[7]@ == "ThisWorkbook.Save  ' persist"@
    &&& d[3] matches Block::Para(x) && x@ == "It finishes with a popup showing the run time and the global imbalance, which must be exactly 0 — the cardinal correctness property of a double-entry ledger."@
}

/// The blocks of the section "2. The RunAll pipeline".
fn pipeline_section() -> (d: Vec<Block>)
    ensures
        pipeline_blocks(d@),
{
    let mut d: Vec<Block> = Vec::new();
    d.push(Block::H1("2. The RunAll pipeline".to_owned()));
    d.push(Block::Para("Clicking RUN ALL executes these steps in order:".to_owned()));
    d.push(Block::Code(vec![
        "Engine_Reset       ' clear in-memory ledger state".to_owned(),
        "Engine_PostOpening ' opening-balance snapshot -> opening journal + seed lots".to_owned(),
        "Engine_PostHistory ' merge Trades+Transfers+BankStatement by timestamp, then post".to_owned(),
        "Engine_RevalueAll  ' period-end mark-to-market for every held (entity, asset)".to_owned(),
        "Engine_DumpFacts   ' write ChartOfAccounts / Journal / JournalLines / Lots".to_owned(),
        "Reports_BuildAll   ' aggregate every report sheet (pure VBA)".to_owned(),
        "Recon_Build        ' match BankStatement lines to posted cash journals".to_owned(),
        "ThisWorkbook.Save  ' persist".to_owned(),
    ]));
    d.push(Block::Para("It finishes with a popup showing the run time and the global imbalance, which must be exactly 0 — the cardinal correctness property of a double-entry ledger.".to_owned()));
    d
}

/// `d` holds exactly the blocks of the section "3. The data model".
pub open spec fn data_model_blocks(d: Seq<Block>) -> bool {
    &&& d.len() == 13
    &&& d[0] matches Block::H1(x) && x@ == "3. The data model"@
    &&& d[1] matches Block::H2(x) && x@ == "Inputs you edit"@
    &&& d[2] matches Block::Bullet(x) && x@ == "OpeningBalances — an as-at cutover snapshot. Rows of kind CASH, CRYPTO, or LOAN; each posts an opening journal balanced against EQ:OPENING (Opening Balance Equity), and CRYPTO rows also seed a FIFO lot so cost basis is correct going forward."@
    &&& d[3] matches Block::Bullet(x) && x@ == "Trades — entity, side (buy/sell), base, quote, qty, price, fee, ts."@
    &&& d[4] matches Block::Bullet(x) && x@ == "Transfers — move a coin between exchanges at cost (no P&L); a network fee is paid in-kind from the same inventory."@
    &&& d[5] matches Block::Bullet(x) && x@ == "BankStatement — cash in/out. The counter_account column routes it: EQ:CAPITAL (funding), LIAB:LOAN (loan drawdown/repayment), INC:* (income), EXP:* (expense)."@
    &&& d[6] matches Block::Bullet(x) && x@ == "Marks (optional) — override the mark-to-market price per asset (and optionally per entity). If absent, the mark defaults to the last traded price for that asset."@
    &&& d[7] matches Block::H2(x) && x@ == "Derived sheets (rebuilt each run)"@
    &&& d[8] matches Block::Bullet(x) && x@ == "ChartOfAccounts, Journal, JournalLines, Lots — the facts of record."@
    &&& d[9] matches Block::Bullet(x) && x@ == "TrialBalance, Balances, ExchangeBalances (balances by coin per exchange), Positions, Loans, PnL, IncomeStatement, BalanceSheet, Reconciliation — the reports."@
    &&& d[10] matches Block::H2(x) && x@ == "Accounts and the sign convention"@
    &&& d[11] matches Block::Para(x) && x@ == "Every account has a type inferred from its code prefix: CASH:* and CRYPTO:* are Assets; LIAB:* a Liability; EQ:* Equity; PNL:*/INC:* Income; EXP:* Expense. Asset and Expense accounts are debit-normal; Liability, Equity and Income are credit-normal."@
    &&& d[12] matches Block::Para(x) && x@ == "Journal lines store a single signed amount: a debit is positive, a credit is negative. A journal is valid only if its lines sum to exactly zero. An account's display balance is its signed net for debit-normal accounts, or the negation of it for credit-normal accounts."@
}

/// The blocks of the section "3. The data model".
fn data_model_section() -> (d: Vec<Block>)
    ensures
        data_model_blocks(d@),
{
    let mut d: Vec<Block> = Vec::new();
    d.push(Block::H1("3. The data model".to_owned()));
    d.push(Block::H2("Inputs you edit".to_owned()));
    d.push(Block::Bullet("OpeningBalances — an as-at cutover snapshot. Rows of kind CASH, CRYPTO, or LOAN; each posts an opening journal balanced against EQ:OPENING (Opening Balance Equity), and CRYPTO rows also seed a FIFO lot so cost basis is correct going forward.".to_owned()));
    d.push(Block::Bullet("Trades — entity, side (buy/sell), base, quote, qty, price, fee, ts.".to_owned()));
    d.push(Block::Bullet("Transfers — move a coin between exchanges at cost (no P&L); a network fee is paid in-kind from the same inventory.".to_owned()));
    d.push(Block::Bullet("BankStatement — cash in/out. The counter_account column routes it: EQ:CAPITAL (funding), LIAB:LOAN (loan drawdown/repayment), INC:* (income), EXP:* (expense).".to_owned()));
    d.push(Block::Bullet("Marks (optional) — override the mark-to-market price per asset (and optionally per entity). If absent, the mark defaults to the last traded price for that asset.".to_owned()));
    d.push(Block::H2("Derived sheets (rebuilt each run)".to_owned()));
    d.push(Block::Bullet("ChartOfAccounts, Journal, JournalLines, Lots — the facts of record.".to_owned()));
    d.push(Block::Bullet("TrialBalance, Balances, ExchangeBalances (balances by coin per exchange), Positions, Loans, PnL, IncomeStatement, BalanceSheet, Reconciliation — the reports.".to_owned()));
    d.push(Block::H2("Accounts and the sign convention".to_owned()));
    d.push(Block::Para("Every account has a type inferred from its code prefix: CASH:* and CRYPTO:* are Assets; LIAB:* a Liability; EQ:* Equity; PNL:*/INC:* Income; EXP:* Expense. Asset and Expense accounts are debit-normal; Liability, Equity and Income are credit-normal.".to_owned()));
    d.push(Block::Para("Journal lines store a single signed amount: a debit is positive, a credit is negative. A journal is valid only if its lines sum to exactly zero. An account's display balance is its signed net for debit-normal accounts, or the negation of it for credit-normal accounts.".to_owned()));
    d
}

/// `d` holds exactly the blocks of the section "4. modEngine — posting and FIFO".
pub open spec fn engine_blocks(d: Seq<Block>) -> bool {
    &&& d.len() == 17
    &&& d[0] matches Block::H1(x) && x@ == "4. modEngine — posting and FIFO"@
    &&& d[1] matches Block::Para(x) && x@ == "State is held in memory while a run executes (Dictionaries and Collections), then dumped to sheets. Money uses VBA's Decimal subtype via CDec, so large IDR notionals and fractional-crypto cost bases stay exact."@
    &&& d[2] matches Block::H2(x) && x@ == "Posting a balanced journal"@
    &&& d[3] matches Block::Para(x) && x@ == "Every event builds a small set of lines and calls Post, which enforces the zero-sum invariant before writing the journal and its lines:"@
    &&& d[4] matches Block::Code(lines) && lines@.len() == 6
        && lines@[0]@ == "Private Function Post(ts, kind, memo, entity, ids(), amts(), nlines)"@
        && lines@[1]@ == "    s = sum(amts)                       ' Decimal"@
        && lines@[2]@ == "    If s <> 0 Then Err.Raise ...        ' refuse to post an unbalanced journal"@
        && lines@[3]@ == "    jId = jId + 1 : record journal header"@
        && lines@[4]@ == "    For each line: record (jId, account_id, amount)"@
        && lines@[5]@ == "End Function"@
    &&& d[5] matches Block::H2(x) && x@ == "FIFO cost basis"@
    &&& d[6] matches Block::Para(x) && x@ == "ConsumeFifo removes a quantity from the oldest open lots of an account (ordered by acquisition timestamp, then lot id) and returns the cost basis consumed. It refuses to consume more than is on hand — spot-only means no shorting. Fully-consumed lots are emptied; a partially-consumed lot keeps its remaining quantity at the same unit cost."@
    &&& d[7] matches Block::Code(lines) && lines@.len() == 6
        && lines@[0]@ == "avail = SUM(qty_remaining) for (entity, account)"@
        && lines@[1]@ == "If avail < qty Then Err.Raise \"insufficient inventory\""@
        && lines@[2]@ == "For each lot oldest-first while remaining > 0:"@
        && lines@[3]@ == "    take = min(lot.qty, remaining)"@
        && lines@[4]@ == "    cost = cost + take * lot.unit_cost"@
        && lines@[5]@ == "    lot.qty = lot.qty - take ; remaining = remaining - take"@
    &&& d[8] matches Block::H2(x) && x@ == "Event handlers (each mirrors the Rust engine)"@
    &&& d[9] matches Block::Bullet(x) && x@ == "Buy: debit CRYPTO inventory at notional (qty*price), debit fee expense, credit cash for (notional+fee). Add a lot at unit_cost = price (fees are expensed, not capitalised)."@
    &&& d[10] matches Block::Bullet(x) && x@ == "Sell: take FIFO cost basis out of inventory; realized = proceeds - cost_basis. Lines: debit cash (proceeds-fee), debit fee, credit inventory (cost_basis), credit realized P&L (Income)."@
    &&& d[11] matches Block::Bullet(x) && x@ == "Transfer: FIFO-consume the moved quantity (and any in-kind fee) out of the source exchange; debit the destination, credit the source, expense the fee at cost; re-establish a lot at the destination preserving the moved cost basis."@
    &&& d[12] matches Block::Bullet(x) && x@ == "Bank: debit CASH for the signed amount, credit the counter account (or vice-versa for a withdrawal). A LIAB:LOAN counter makes a deposit a loan drawdown and a negative amount a repayment."@
    &&& d[13] matches Block::Bullet(x) && x@ == "Opening cash/crypto/loan: post the snapshot against EQ:OPENING; crypto rows also seed a lot."@
    &&& d[14] matches Block::Bullet(x) && x@ == "Revalue (mark-to-market): target adjustment = qty*mark - carrying cost; post the delta to CRYPTO:FVADJ and unrealized P&L."@
    &&& d[15] matches Block::H2(x) && x@ == "Chronological ordering"@
    &&& d[16] matches Block::Para(x) && x@ == "Engine_PostHistory merges Trades, Transfers and BankStatement into one list and sorts by ISO-8601 timestamp (which sorts correctly as text), so FIFO consumption happens in true chronological order. Opening balances are always posted first; mark-to-market is posted last, at period end."@
}

/// The blocks of the section "4. modEngine — posting and FIFO".
fn engine_section() -> (d: Vec<Block>)
    ensures
        engine_blocks(d@),
{
    let mut d: Vec<Block> = Vec::new();
    d.push(Block::H1("4. modEngine — posting and FIFO".to_owned()));
    d.push(Block::Para("State is held in memory while a run executes (Dictionaries and Collections), then dumped to sheets. Money uses VBA's Decimal subtype via CDec, so large IDR notionals and fractional-crypto cost bases stay exact.".to_owned()));
    d.push(Block::H2("Posting a balanced journal".to_owned()));
    d.push(Block::Para("Every event builds a small set of lines and calls Post, which enforces the zero-sum invariant before writing the journal and its lines:".to_owned()));
    d.push(Block::Code(vec![
        "Private Function Post(ts, kind, memo, entity, ids(), amts(), nlines)".to_owned(),
        "    s = sum(amts)                       ' Decimal".to_owned(),
        "    If s <> 0 Then Err.Raise ...        ' refuse to post an unbalanced journal".to_owned(),
        "    jId = jId + 1 : record journal header".to_owned(),
        "    For each line: record (jId, account_id, amount)".to_owned(),
        "End Function".to_owned(),
    ]));
    d.push(Block::H2("FIFO cost basis".to_owned()));
    d.push(Block::Para("ConsumeFifo removes a quantity from the oldest open lots of an account (ordered by acquisition timestamp, then lot id) and returns the cost basis consumed. It refuses to consume more than is on hand — spot-only means no shorting. Fully-consumed lots are emptied; a partially-consumed lot keeps its remaining quantity at the same unit cost.".to_owned()));
    d.push(Block::Code(vec![
        "avail = SUM(qty_remaining) for (entity, account)".to_owned(),
        "If avail < qty Then Err.Raise \"insufficient inventory\"".to_owned(),
        "For each lot oldest-first while remaining > 0:".to_owned(),
        "    take = min(lot.qty, remaining)".to_owned(),
        "    cost = cost + take * lot.unit_cost".to_owned(),
        "    lot.qty = lot.qty - take ; remaining = remaining - take".to_owned(),
    ]));
    d.push(Block::H2("Event handlers (each mirrors the Rust engine)".to_owned()));
    d.push(Block::Bullet("Buy: debit CRYPTO inventory at notional (qty*price), debit fee expense, credit cash for (notional+fee). Add a lot at unit_cost = price (fees are expensed, not capitalised).".to_owned()));
    d.push(Block::Bullet("Sell: take FIFO cost basis out of inventory; realized = proceeds - cost_basis. Lines: debit cash (proceeds-fee), debit fee, credit inventory (cost_basis), credit realized P&L (Income).".to_owned()));
    d.push(Block::Bullet("Transfer: FIFO-consume the moved quantity (and any in-kind fee) out of the source exchange; debit the destination, credit the source, expense the fee at cost; re-establish a lot at the destination preserving the moved cost basis.".to_owned()));
    d.push(Block::Bullet("Bank: debit CASH for the signed amount, credit the counter account (or vice-versa for a withdrawal). A LIAB:LOAN counter makes a deposit a loan drawdown and a negative amount a repayment.".to_owned()));
    d.push(Block::Bullet("Opening cash/crypto/loan: post the snapshot against EQ:OPENING; crypto rows also seed a lot.".to_owned()));
    d.push(Block::Bullet("Revalue (mark-to-market): target adjustment = qty*mark - carrying cost; post the delta to CRYPTO:FVADJ and unrealized P&L.".to_owned()));
    d.push(Block::H2("Chronological ordering".to_owned()));
    d.push(Block::Para("Engine_PostHistory merges Trades, Transfers and BankStatement into one list and sorts by ISO-8601 timestamp (which sorts correctly as text), so FIFO consumption happens in true chronological order. Opening balances are always posted first; mark-to-market is posted last, at period end.".to_owned()));
    d
}

/// `d` holds exactly the blocks of the section "5. modReports — the reports".
pub open spec fn reports_blocks(d: Seq<Block>) -> bool {
    &&& d.len() == 11
    &&& d[0] matches Block::H1(x) && x@ == "5. modReports — the reports"@
    &&& d[1] matches Block::Para(x) && x@ == "After the facts are written, Reports_BuildAll aggregates them entirely in VBA (using Dictionaries to group). The reports are:"@
    &&& d[2] matches Block::Bullet(x) && x@ == "Balances / TrialBalance — net signed amount per account; debit and credit columns; a balanced flag (total debits = total credits within a scale-relative tolerance)."@
    &&& d[3] matches Block::Bullet(x) && x@ == "ExchangeBalances — grouped by entity, exchange and asset: quantity, cost basis, average cost, mark, market value and unrealized gain. This is your 'balances by coin per exchange'."@
    &&& d[4] matches Block::Bullet(x) && x@ == "Positions — the same, grouped by asset across all venues."@
    &&& d[5] matches Block::Bullet(x) && x@ == "Loans — outstanding LIAB:LOAN principal per entity."@
    &&& d[6] matches Block::Bullet(x) && x@ == "PnL / IncomeStatement — realized = -(net of PNL:REALIZED), unrealized = -(net of PNL:UNREALIZED), fees = trading + network; net income = realized + unrealized - fees."@
    &&& d[7] matches Block::Bullet(x) && x@ == "BalanceSheet — assets, liabilities, equity, retained earnings (income - expenses); balanced when assets = liabilities + equity + retained."@
    &&& d[8] matches Block::Para(x) && x@ == "An optional SQL implementation of this layer lives in modReports behind the constant USE_SQL = False; it uses the Microsoft.ACE.OLEDB provider. It is off by default so the workbook is fully self-contained."@
    &&& d[9] matches Block::H2(x) && x@ == "Bank reconciliation"@
    &&& d[10] matches Block::Para(x) && x@ == "Recon_Build matches every BankStatement line to the cash journal the engine posted for it (same entity, timestamp and amount, kind = 'bank'), marking each MATCHED or UNMATCHED, then ties out the statement total against posted cash per entity and currency."@
}

/// The blocks of the section "5. modReports — the reports".
fn reports_section() -> (d: Vec<Block>)
    ensures
        reports_blocks(d@),
{
    let mut d: Vec<Block> = Vec::new();
    d.push(Block::H1("5. modReports — the reports".to_owned()));
    d.push(Block::Para("After the facts are written, Reports_BuildAll aggregates them entirely in VBA (using Dictionaries to group). The reports are:".to_owned()));
    d.push(Block::Bullet("Balances / TrialBalance — net signed amount per account; debit and credit columns; a balanced flag (total debits = total credits within a scale-relative tolerance).".to_owned()));
    d.push(Block::Bullet("ExchangeBalances — grouped by entity, exchange and asset: quantity, cost basis, average cost, mark, market value and unrealized gain. This is your 'balances by coin per exchange'.".to_owned()));
    d.push(Block::Bullet("Positions — the same, grouped by asset across all venues.".to_owned()));
    d.push(Block::Bullet("Loans — outstanding LIAB:LOAN principal per entity.".to_owned()));
    d.push(Block::Bullet("PnL / IncomeStatement — realized = -(net of PNL:REALIZED), unrealized = -(net of PNL:UNREALIZED), fees = trading + network; net income = realized + unrealized - fees.".to_owned()));
    d.push(Block::Bullet("BalanceSheet — assets, liabilities, equity, retained earnings (income - expenses); balanced when assets = liabilities + equity + retained.".to_owned()));
    d.push(Block::Para("An optional SQL implementation of this layer lives in modReports behind the constant USE_SQL = False; it uses the Microsoft.ACE.OLEDB provider. It is off by default so the workbook is fully self-contained.".to_owned()));
    d.push(Block::H2("Bank reconciliation".to_owned()));
    d.push(Block::Para("Recon_Build matches every BankStatement line to the cash journal the engine posted for it (same entity, timestamp and amount, kind = 'bank'), marking each MATCHED or UNMATCHED, then ties out the statement total against posted cash per entity and currency.".to_owned()));
    d
}

/// `d` holds exactly the blocks of the section "6. Worked example (shipped demo)".
pub open spec fn example_blocks(d: Seq<Block>) -> bool {
    &&& d.len() == 4
    &&& d[0] matches Block::H1(x) && x@ == "6. Worked example (shipped demo)"@
    &&& d[1] matches Block::Para(x) && x@ == "Entity BVI: 1,000,000 USD capital; buy 2 BTC @ 60,000 (fee 30); buy 1 BTC @ 65,000 (fee 20); buy 50 ETH @ 3,000 (fee 25); transfer 1.5 BTC MAIN->COLD (fee 0.0005); sell 1 BTC @ 70,000 (fee 35); marks BTC 72,000 / ETH 3,200."@
    &&& d[2] matches Block::Para(x) && x@ == "The sell takes FIFO basis: after the transfer consumed 1.5 BTC + 0.0005 fee from the 60,000 lot, the 1 BTC sold is 0.4995 @ 60,000 + 0.5005 @ 65,000 = 62,502.50 cost. Realized = 70,000 - 62,502.50 = 7,497.50."@
    &&& d[3] matches Block::Para(x) && x@ == "After RUN ALL, BVI shows: realized 7,497.50; unrealized 31,496.50; fees 140; net income 38,854; BalanceSheet balanced = TRUE; global imbalance 0. These match the Rust ledger to the cent."@
}

/// The blocks of the section "6. Worked example (shipped demo)".
fn example_section() -> (d: Vec<Block>)
    ensures
        example_blocks(d@),
{
    let mut d: Vec<Block> = Vec::new();
    d.push(Block::H1("6. Worked example (shipped demo)".to_owned()));
    d.push(Block::Para("Entity BVI: 1,000,000 USD capital; buy 2 BTC @ 60,000 (fee 30); buy 1 BTC @ 65,000 (fee 20); buy 50 ETH @ 3,000 (fee 25); transfer 1.5 BTC MAIN->COLD (fee 0.0005); sell 1 BTC @ 70,000 (fee 35); marks BTC 72,000 / ETH 3,200.".to_owned()));
    d.push(Block::Para("The sell takes FIFO basis: after the transfer consumed 1.5 BTC + 0.0005 fee from the 60,000 lot, the 1 BTC sold is 0.4995 @ 60,000 + 0.5005 @ 65,000 = 62,502.50 cost. Realized = 70,000 - 62,502.50 = 7,497.50.".to_owned()));
    d.push(Block::Para("After RUN ALL, BVI shows: realized 7,497.50; unrealized 31,496.50; fees 140; net income 38,854; BalanceSheet balanced = TRUE; global imbalance 0. These match the Rust ledger to the cent.".to_owned()));
    d
}

/// `d` holds exactly the blocks of the section "7. Running and extending".
pub open spec fn running_blocks(d: Seq<Block>) -> bool {
    &&& d.len() == 4
    &&& d[0] matches Block::H1(x) && x@ == "7. Running and extending"@
    &&& d[1] matches Block::Bullet(x) && x@ == "Build the macro file: double-click Add-Macros.vbs (after enabling 'Trust access to the VBA project object model'), or Save-As .xlsm and Alt+F11 > Import the three .bas files."@
    &&& d[2] matches Block::Bullet(x) && x@ == "Use it: edit the four input sheets, click RUN ALL. The whole ledger rebuilds deterministically every time."@
    &&& d[3] matches Block::Bullet(x) && x@ == "Extend it: add a new event type by writing one Do... handler in modEngine plus an input sheet; add a report by adding one aggregation in modReports. The zero-sum Post invariant guarantees the books always balance."@
}

/// The blocks of the section "7. Running and extending".
fn running_section() -> (d: Vec<Block>)
    ensures
        running_blocks(d@),
{
    let mut d: Vec<Block> = Vec::new();
    d.push(Block::H1("7. Running and extending".to_owned()));
    d.push(Block::Bullet("Build the macro file: double-click Add-Macros.vbs (after enabling 'Trust access to the VBA project object model'), or Save-As .xlsm and Alt+F11 > Import the three .bas files.".to_owned()));
    d.push(Block::Bullet("Use it: edit the four input sheets, click RUN ALL. The whole ledger rebuilds deterministically every time.".to_owned()));
    d.push(Block::Bullet("Extend it: add a new event type by writing one Do... handler in modEngine plus an input sheet; add a report by adding one aggregation in modReports. The zero-sum Post invariant guarantees the books always balance.".to_owned()));
    d
}

/// The document: its title and subtitle, then sections `1.` to `7.` with
/// their subheadings, each followed by its paragraphs, bullets and listings.
pub fn build_doc() -> (d: Vec<Block>)
    ensures
        opening_blocks(d@.subrange(0, 9)),
        pipeline_blocks(d@.subrange(9, 13)),
        data_model_blocks(d@.subrange(13, 26)),
        engine_blocks(d@.subrange(26, 43)),
        reports_blocks(d@.subrange(43, 54)),
        example_blocks(d@.subrange(54, 58)),
        running_blocks(d@.subrange(58, 62)),
        d@.len() == 62,
{
    let mut d: Vec<Block> = Vec::new();
    let mut part = opening_section();
    let ghost added = part@;
    d.append(&mut part);
    assert(d@.subrange(0, 9) =~= added);
    let mut part = pipeline_section();
    let ghost added = part@;
    d.append(&mut part);
    assert(d@.subrange(9, 13) =~= added);
    let mut part = data_model_section();
    let ghost added = part@;
    d.append(&mut part);
    assert(d@.subrange(13, 26) =~= added);
    let mut part = engine_section();
    let ghost added = part@;
    d.append(&mut part);
    assert(d@.subrange(26, 43) =~= added);
    let mut part = reports_section();
    let ghost added = part@;
    d.append(&mut part);
    assert(d@.subrange(43, 54) =~= added);
    let mut part = example_section();
    let ghost added = part@;
    d.append(&mut part);
    assert(d@.subrange(54, 58) =~= added);
    let mut part = running_section();
    let ghost added = part@;
    d.append(&mut part);
    assert(d@.subrange(58, 62) =~= added);
    d
}

} // verus!
