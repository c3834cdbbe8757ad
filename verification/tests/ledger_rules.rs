use gravity_ledger::ledger::{
    acct_type, bank_counter, cash_code, chronological_order, inventory_code, debit_normal, fifo_order, held_positions, last_trade_for,
    Chart, LotKey,
};

fn lot(id: i64, entity: &str, asset: &str, acct: i64, acq: &str, open: bool) -> LotKey {
    LotKey {
        id,
        entity: entity.to_string(),
        asset: asset.to_string(),
        acct,
        acq: acq.to_string(),
        open,
    }
}

#[test]
fn acct_type_by_prefix() {
    assert_eq!(acct_type("CASH:USD"), "Asset");
    assert_eq!(acct_type("CRYPTO:BTC:MAIN"), "Asset");
    assert_eq!(acct_type("CRYPTO:FVADJ"), "Asset");
    assert_eq!(acct_type("LIAB:LOAN"), "Liability");
    assert_eq!(acct_type("EQ:CAPITAL"), "Equity");
    assert_eq!(acct_type("PNL:REALIZED"), "Income");
    assert_eq!(acct_type("INC:INTEREST"), "Income");
    assert_eq!(acct_type("EXP:FEES:TRADING"), "Expense");
    assert_eq!(acct_type("OTHER"), "Equity");
    assert_eq!(acct_type("CASH"), "Equity");
    assert_eq!(acct_type(""), "Equity");
}

#[test]
fn debit_normal_types() {
    assert!(debit_normal("Asset"));
    assert!(debit_normal("Expense"));
    assert!(!debit_normal("Liability"));
    assert!(!debit_normal("Equity"));
    assert!(!debit_normal("Income"));
    assert!(!debit_normal("asset"));
    assert!(debit_normal(acct_type("EXP:FEES:NETWORK")));
    assert!(!debit_normal(acct_type("PNL:UNREALIZED")));
}

#[test]
fn chart_assigns_stable_ids() {
    let mut c = Chart::new();
    assert_eq!(c.get_acct("BVI", "CASH:USD"), 1);
    assert_eq!(c.get_acct("BVI", "EQ:CAPITAL"), 2);
    assert_eq!(c.get_acct("IDX", "CASH:USD"), 3);
    assert_eq!(c.get_acct("BVI", "CASH:USD"), 1);
    assert_eq!(c.len(), 3);
    assert_eq!(c.find("BVI", "EQ:CAPITAL"), Some(2));
    assert_eq!(c.find("BVI", "EQ:OPENING"), None);
    let a = c.account(3);
    assert_eq!(a.entity, "IDX");
    assert_eq!(a.code, "CASH:USD");
    assert_eq!(a.ty, "Asset");
    assert_eq!(c.account(2).ty, "Equity");
}

#[test]
fn chart_keys_join_entity_and_code() {
    // The lookup key is entity, '|', code: these two pairs share a key.
    let mut c = Chart::new();
    assert_eq!(c.get_acct("a|b", "c"), 1);
    assert_eq!(c.get_acct("a", "b|c"), 1);
    assert_eq!(c.len(), 1);
}

#[test]
fn fifo_order_oldest_first() {
    let lots = vec![
        lot(1, "BVI", "BTC", 7, "", true),
        lot(2, "BVI", "BTC", 7, "", true),
        lot(3, "BVI", "ETH", 8, "", true),
        lot(4, "BVI", "BTC", 9, "2026-01-05T00:00:00Z", true),
        lot(5, "IDX", "BTC", 7, "", true),
    ];
    assert_eq!(fifo_order(&lots, "BVI", 7), vec![0, 1]);
    assert_eq!(fifo_order(&lots, "BVI", 9), vec![3]);
    assert_eq!(fifo_order(&lots, "IDX", 1), Vec::<usize>::new());
}

#[test]
fn fifo_order_by_timestamp_then_id_skipping_empty_lots() {
    let lots = vec![
        lot(10, "E", "BTC", 1, "2026-01-03", true),
        lot(11, "E", "BTC", 1, "2026-01-02", true),
        lot(12, "E", "BTC", 1, "2026-01-02", false),
        lot(9, "E", "BTC", 1, "2026-01-03", true),
        lot(13, "E", "BTC", 1, "", true),
        lot(14, "E", "BTC", 1, "2026-01-02", true),
    ];
    assert_eq!(fifo_order(&lots, "E", 1), vec![4, 1, 5, 3, 0]);
}

#[test]
fn chronological_order_is_stable() {
    let ts: Vec<String> = [
        "2026-01-02T00:00:00Z",
        "2026-01-03T00:00:00Z",
        "2026-01-04T00:00:00Z",
        "2026-01-06T00:00:00Z",
        "2026-01-10T00:00:00Z",
        "2026-01-05T00:00:00Z",
        "2026-01-01T00:00:00Z",
        "2026-01-09T00:00:00Z",
    ]
    .iter()
    .map(|s| s.to_string())
    .collect();
    assert_eq!(chronological_order(&ts), vec![6, 0, 1, 2, 5, 3, 7, 4]);
    let ties: Vec<String> = ["b", "a", "b", "a"].iter().map(|s| s.to_string()).collect();
    assert_eq!(chronological_order(&ties), vec![1, 3, 0, 2]);
    assert_eq!(chronological_order(&Vec::new()), Vec::<usize>::new());
}

#[test]
fn held_positions_first_open_lot_order() {
    let lots = vec![
        lot(1, "BVI", "BTC", 1, "", false),
        lot(2, "BVI", "ETH", 2, "", true),
        lot(3, "BVI", "BTC", 1, "", true),
        lot(4, "BVI", "ETH", 2, "", true),
        lot(5, "IDX", "BTC", 3, "", true),
        lot(6, "BVI", "BTC", 4, "x", true),
    ];
    assert_eq!(
        held_positions(&lots),
        vec![
            ("BVI".to_string(), "ETH".to_string()),
            ("BVI".to_string(), "BTC".to_string()),
            ("IDX".to_string(), "BTC".to_string()),
        ]
    );
}

#[test]
fn last_trade_for_picks_latest_match() {
    let trades: Vec<(String, String)> = [("BVI", "BTC"), ("BVI", "ETH"), ("BVI", "BTC"), ("IDX", "BTC")]
        .iter()
        .map(|(a, b)| (a.to_string(), b.to_string()))
        .collect();
    assert_eq!(last_trade_for(&trades, "BVI", "BTC"), Some(2));
    assert_eq!(last_trade_for(&trades, "IDX", "BTC"), Some(3));
    assert_eq!(last_trade_for(&trades, "IDX", "ETH"), None);
}

#[test]
fn account_codes_for_events() {
    assert_eq!(inventory_code("BTC", "MAIN"), "CRYPTO:BTC:MAIN");
    assert_eq!(inventory_code("ETH", "COLD"), "CRYPTO:ETH:COLD");
    assert_eq!(cash_code("IDR"), "CASH:IDR");
    assert_eq!(acct_type(&inventory_code("BTC", "MAIN")), "Asset");
    assert_eq!(acct_type(&cash_code("USD")), "Asset");
    assert_eq!(bank_counter(""), "EQ:CAPITAL");
    assert_eq!(bank_counter("LIAB:LOAN"), "LIAB:LOAN");
}

#[test]
fn demo_sell_consumes_oldest_btc_lots() {
    // After the MAIN->COLD transfer took 1.5005 BTC from the first lot, the
    // sell of 1 BTC reads the rest of lot 1 before lot 2; the COLD lot is in
    // another account.
    let lots = vec![
        lot(1, "BVI", "BTC", 2, "", true),
        lot(2, "BVI", "BTC", 2, "", true),
        lot(3, "BVI", "ETH", 5, "", true),
        lot(4, "BVI", "BTC", 6, "2026-01-05T00:00:00Z", true),
    ];
    assert_eq!(fifo_order(&lots, "BVI", 2), vec![0, 1]);
    let mut c = Chart::new();
    let btc_main = c.get_acct("BVI", &inventory_code("BTC", "MAIN"));
    let cash = c.get_acct("BVI", &cash_code("USD"));
    let again = c.get_acct("BVI", "CRYPTO:BTC:MAIN");
    assert_eq!((btc_main, cash, again), (1, 2, 1));
}
