//! The plain-value decisions of the double-entry engine: account types and
//! sign convention, the chart of accounts with its stable ids, the FIFO order
//! of inventory lots, the chronological order of events, the held
//! (entity, asset) positions and the trade that sets a default mark.
use vstd::prelude::*;
use crate::order::{key_before, sort_selected, sorted_selection};
use crate::text::{chars_le, lemma_chars_le_total_order};
use crate::text::{has_prefix, text_eq};

verus! {

/// The account type that a code's prefix implies: `CASH:` and `CRYPTO:` are
/// assets, `LIAB:` a liability, `EQ:` equity, `PNL:` and `INC:` income,
/// `EXP:` an expense; any other code is treated as equity.
pub open spec fn account_type(code: Seq<char>) -> Seq<char> {
    if "CASH:"@.is_prefix_of(code) || "CRYPTO:"@.is_prefix_of(code) {
        "Asset"@
    } else if "LIAB:"@.is_prefix_of(code) {
        "Liability"@
    } else if "EQ:"@.is_prefix_of(code) {
        "Equity"@
    } else if "PNL:"@.is_prefix_of(code) || "INC:"@.is_prefix_of(code) {
        "Income"@
    } else if "EXP:"@.is_prefix_of(code) {
        "Expense"@
    } else {
        "Equity"@
    }
}

/// The account type of `code`.
pub fn acct_type(code: &str) -> (ty: &'static str)
    ensures
        ty@ == account_type(code@),
{
    if has_prefix(code, "CASH:") || has_prefix(code, "CRYPTO:") {
        "Asset"
    } else if has_prefix(code, "LIAB:") {
        "Liability"
    } else if has_prefix(code, "EQ:") {
        "Equity"
    } else if has_prefix(code, "PNL:") || has_prefix(code, "INC:") {
        "Income"
    } else if has_prefix(code, "EXP:") {
        "Expense"
    } else {
        "Equity"
    }
}

/// Each prefix decides its account type: `CASH:` and `CRYPTO:` codes are
/// assets, `LIAB:` liabilities, `EQ:` equity, `PNL:` and `INC:` income,
/// `EXP:` expenses, and a code with none of these prefixes is equity.
pub proof fn lemma_account_type_by_prefix(code: Seq<char>)
    ensures
        "CASH:"@.is_prefix_of(code) || "CRYPTO:"@.is_prefix_of(code) ==> account_type(code) == "Asset"@,
        "LIAB:"@.is_prefix_of(code) ==> account_type(code) == "Liability"@,
        "EQ:"@.is_prefix_of(code) ==> account_type(code) == "Equity"@,
        "PNL:"@.is_prefix_of(code) || "INC:"@.is_prefix_of(code) ==> account_type(code) == "Income"@,
        "EXP:"@.is_prefix_of(code) ==> account_type(code) == "Expense"@,
        !"CASH:"@.is_prefix_of(code) && !"CRYPTO:"@.is_prefix_of(code) && !"LIAB:"@.is_prefix_of(code)
            && !"EQ:"@.is_prefix_of(code) && !"PNL:"@.is_prefix_of(code) && !"INC:"@.is_prefix_of(code)
            && !"EXP:"@.is_prefix_of(code) ==> account_type(code) == "Equity"@,
{
    reveal_strlit("CASH:");
    reveal_strlit("CRYPTO:");
    reveal_strlit("LIAB:");
    reveal_strlit("EQ:");
    reveal_strlit("PNL:");
    reveal_strlit("INC:");
    reveal_strlit("EXP:");
    assert("CASH:"@[0] == 'C' && "CRYPTO:"@[0] == 'C' && "LIAB:"@[0] == 'L' && "PNL:"@[0] == 'P');
    assert("INC:"@[0] == 'I' && "EQ:"@[0] == 'E' && "EXP:"@[0] == 'E');
    assert("EQ:"@[1] == 'Q' && "EXP:"@[1] == 'X');
    if "CASH:"@.is_prefix_of(code) {
        lemma_prefix_chars("CASH:"@, code);
    }
    if "CRYPTO:"@.is_prefix_of(code) {
        lemma_prefix_chars("CRYPTO:"@, code);
    }
    if "LIAB:"@.is_prefix_of(code) {
        lemma_prefix_chars("LIAB:"@, code);
    }
    if "EQ:"@.is_prefix_of(code) {
        lemma_prefix_chars("EQ:"@, code);
    }
    if "PNL:"@.is_prefix_of(code) {
        lemma_prefix_chars("PNL:"@, code);
    }
    if "INC:"@.is_prefix_of(code) {
        lemma_prefix_chars("INC:"@, code);
    }
    if "EXP:"@.is_prefix_of(code) {
        lemma_prefix_chars("EXP:"@, code);
    }
}

/// A text that starts with `p` has `p`'s characters in front.
proof fn lemma_prefix_chars(p: Seq<char>, code: Seq<char>)
    requires
        p.is_prefix_of(code),
    ensures
        forall|i: int| 0 <= i < p.len() ==> #[trigger] code[i] == p[i],
{
    assert forall|i: int| 0 <= i < p.len() implies #[trigger] code[i] == p[i] by {
        assert(code.subrange(0, p.len() as int)[i] == code[i]);
    }
}

/// Asset and expense accounts are debit-normal; the others credit-normal.
pub open spec fn is_debit_normal(ty: Seq<char>) -> bool {
    ty == "Asset"@ || ty == "Expense"@
}

/// Whether accounts of type `ty` are debit-normal.
pub fn debit_normal(ty: &str) -> (b: bool)
    ensures
        b == is_debit_normal(ty@),
{
    text_eq(ty, "Asset") || text_eq(ty, "Expense")
}

/// An account's displayed balance has the sign of its net (debits positive)
/// exactly when the code's prefix is `CASH:`, `CRYPTO:` or `EXP:`; every
/// other code displays the negated net.
pub proof fn lemma_display_sign(code: Seq<char>)
    ensures
        is_debit_normal(account_type(code)) <==> ("CASH:"@.is_prefix_of(code)
            || "CRYPTO:"@.is_prefix_of(code) || (!"LIAB:"@.is_prefix_of(code)
            && !"EQ:"@.is_prefix_of(code) && !"PNL:"@.is_prefix_of(code)
            && !"INC:"@.is_prefix_of(code) && "EXP:"@.is_prefix_of(code))),
{
    reveal_strlit("Asset");
    reveal_strlit("Expense");
    reveal_strlit("Liability");
    reveal_strlit("Equity");
    reveal_strlit("Income");
    assert("Asset"@.len() == 5);
    assert("Expense"@.len() == 7);
    assert("Liability"@.len() == 9);
    assert("Equity"@.len() == 6);
    assert("Income"@.len() == 6);
}


/// One account of the chart: its legal entity, its code and its type.
pub struct Account {
    pub entity: String,
    pub code: String,
    pub ty: String,
}

/// The (entity, code, type) view of an account.
pub open spec fn account_view(a: Account) -> (Seq<char>, Seq<char>, Seq<char>) {
    (a.entity@, a.code@, a.ty@)
}

/// The lookup key of an account: entity, `|`, code.
pub open spec fn account_key(entity: Seq<char>, code: Seq<char>) -> Seq<char> {
    entity + seq!['|'] + code
}

/// The lookup key of an account view.
pub open spec fn key_of(a: (Seq<char>, Seq<char>, Seq<char>)) -> Seq<char> {
    account_key(a.0, a.1)
}

/// Whether some account of `c` has lookup key `k`.
pub open spec fn has_key(c: Seq<(Seq<char>, Seq<char>, Seq<char>)>, k: Seq<char>) -> bool {
    exists|i: int| 0 <= i < c.len() && #[trigger] key_of(c[i]) == k
}

/// The id (1-based position) of the account of `c` with lookup key `k`.
pub open spec fn id_of_key(c: Seq<(Seq<char>, Seq<char>, Seq<char>)>, k: Seq<char>) -> int {
    (choose|i: int| 0 <= i < c.len() && #[trigger] key_of(c[i]) == k) + 1
}

/// A chart is well formed when no two accounts share a lookup key and every
/// account's type is the one its code implies.
pub open spec fn chart_wf(c: Seq<(Seq<char>, Seq<char>, Seq<char>)>) -> bool {
    &&& forall|i: int, j: int| 0 <= i < j < c.len() ==> key_of(#[trigger] c[i]) != key_of(#[trigger] c[j])
    &&& forall|i: int| 0 <= i < c.len() ==> (#[trigger] c[i]).2 == account_type(c[i].1)
}

/// Registering (entity, code) in the chart `c`: the id of the account with
/// that key if there is one, else a new account appended with the next id.
pub open spec fn registered(
    c: Seq<(Seq<char>, Seq<char>, Seq<char>)>,
    entity: Seq<char>,
    code: Seq<char>,
) -> (Seq<(Seq<char>, Seq<char>, Seq<char>)>, int) {
    let k = account_key(entity, code);
    if has_key(c, k) {
        (c, id_of_key(c, k))
    } else {
        (c.push((entity, code, account_type(code))), c.len() + 1int)
    }
}

/// The chart of accounts. Account ids are 1-based positions: the `n`-th
/// account registered has id `n`.
pub struct Chart {
    accounts: Vec<Account>,
    keys: Vec<String>,
}

impl View for Chart {
    type V = Seq<(Seq<char>, Seq<char>, Seq<char>)>;

    closed spec fn view(&self) -> Self::V {
        self.accounts@.map_values(|a: Account| account_view(a))
    }
}

impl Chart {
    /// The chart's representation is consistent and its view well formed.
    pub closed spec fn wf(&self) -> bool {
        &&& self.keys@.len() == self.accounts@.len()
        &&& forall|i: int| 0 <= i < self.keys@.len() ==> (#[trigger] self.keys@[i])@ == key_of(account_view(self.accounts@[i]))
        &&& chart_wf(self@)
    }

    /// An empty chart.
    pub fn new() -> (c: Self)
        ensures
            c.wf(),
            c@ == Seq::<(Seq<char>, Seq<char>, Seq<char>)>::empty(),
    {
        let c = Chart { accounts: Vec::new(), keys: Vec::new() };
        assert(c@ =~= Seq::<(Seq<char>, Seq<char>, Seq<char>)>::empty());
        c
    }

    /// A well-formed chart's view is well formed.
    pub proof fn lemma_wf(&self)
        requires
            self.wf(),
        ensures
            chart_wf(self@),
    {
    }

    /// Position of the account with lookup key `k`, if any.
    fn position(&self, k: &str) -> (r: Option<usize>)
        requires
            self.wf(),
        ensures
            r matches Some(i) ==> i < self@.len() && key_of(self@[i as int]) == k@,
            r is None ==> !has_key(self@, k@),
    {
        let mut i: usize = 0;
        while i < self.keys.len()
            invariant
                self.wf(),
                i <= self.keys@.len(),
                forall|j: int| 0 <= j < i ==> key_of(#[trigger] self@[j]) != k@,
            decreases self.keys@.len() - i,
        {
            assert(self@[i as int] == account_view(self.accounts@[i as int]));
            if text_eq(self.keys[i].as_str(), k) {
                return Some(i);
            }
            i = i + 1;
        }
        assert forall|j: int| 0 <= j < self@.len() implies #[trigger] key_of(self@[j]) != k@ by {
            assert(self@[j] == account_view(self.accounts@[j]));
        }
        None
    }

    /// The lookup key of (entity, code).
    fn key(entity: &str, code: &str) -> (k: String)
        ensures
            k@ == account_key(entity@, code@),
    {
        let mut k = String::new();
        k.append(entity);
        k.push('|');
        k.append(code);
        assert(k@ =~= account_key(entity@, code@));
        k
    }

    /// The id of the account (entity, code), registering it with the next id
    /// (and the type its code implies) if the chart does not hold it yet.
    pub fn get_acct(&mut self, entity: &str, code: &str) -> (id: i64)
        requires
            old(self).wf(),
            old(self)@.len() < i64::MAX,
        ensures
            final(self).wf(),
            (final(self)@, id as int) == registered(old(self)@, entity@, code@),
    {
        let k = Self::key(entity, code);
        match self.position(k.as_str()) {
            Some(i) => {
                proof {
                    let c = self@;
                    let j = choose|j: int| 0 <= j < c.len() && #[trigger] key_of(c[j]) == k@;
                    assert(j == i);
                }
                (i as i64) + 1
            },
            None => {
                let ghost before = self@;
                let ty = acct_type(code).to_owned();
                self.accounts.push(Account { entity: entity.to_owned(), code: code.to_owned(), ty });
                self.keys.push(k);
                let id = self.accounts.len() as i64;
                proof {
                    assert(self@ =~= before.push((entity@, code@, account_type(code@))));
                    assert forall|i: int| 0 <= i < self.keys@.len() implies (#[trigger] self.keys@[i])@ == key_of(account_view(self.accounts@[i])) by {
                        if i < before.len() {
                            assert(self.accounts@[i] == old(self).accounts@[i]);
                            assert(self.keys@[i] == old(self).keys@[i]);
                        }
                    }
                    assert forall|i: int, j: int| 0 <= i < j < self@.len() implies key_of(#[trigger] self@[i]) != key_of(#[trigger] self@[j]) by {
                        if j == before.len() {
                            assert(self@[i] == before[i]);
                        } else {
                            assert(self@[i] == before[i] && self@[j] == before[j]);
                        }
                    }
                }
                id
            },
        }
    }

    /// The id of the account (entity, code), if the chart holds it.
    pub fn find(&self, entity: &str, code: &str) -> (r: Option<i64>)
        requires
            self.wf(),
            self@.len() < i64::MAX,
        ensures
            r is Some <==> has_key(self@, account_key(entity@, code@)),
            r matches Some(id) ==> id == id_of_key(self@, account_key(entity@, code@)),
    {
        let k = Self::key(entity, code);
        match self.position(k.as_str()) {
            Some(i) => {
                proof {
                    let c = self@;
                    let j = choose|j: int| 0 <= j < c.len() && #[trigger] key_of(c[j]) == k@;
                    assert(j == i);
                }
                Some((i as i64) + 1)
            },
            None => None,
        }
    }

    /// The number of accounts.
    pub fn len(&self) -> (n: usize)
        ensures
            n == self@.len(),
    {
        self.accounts.len()
    }

    /// The account with id `id`.
    pub fn account(&self, id: usize) -> (a: &Account)
        requires
            1 <= id <= self@.len(),
        ensures
            account_view(*a) == self@[id - 1],
    {
        &self.accounts[id - 1]
    }
}

/// Registering an account that the chart already holds changes nothing and
/// gives the same id again: a second registration of (entity, code) returns
/// the id of the first.
pub proof fn lemma_register_idempotent(
    c: Seq<(Seq<char>, Seq<char>, Seq<char>)>,
    entity: Seq<char>,
    code: Seq<char>,
)
    requires
        chart_wf(c),
    ensures
        chart_wf(registered(c, entity, code).0),
        registered(registered(c, entity, code).0, entity, code) == registered(c, entity, code),
{
    let k = account_key(entity, code);
    let (c2, id) = registered(c, entity, code);
    if !has_key(c, k) {
        assert(key_of(c2[c.len() as int]) == k);
        assert forall|i: int, j: int| 0 <= i < j < c2.len() implies key_of(#[trigger] c2[i]) != key_of(#[trigger] c2[j]) by {
            if j == c.len() {
                assert(c2[i] == c[i]);
            } else {
                assert(c2[i] == c[i] && c2[j] == c[j]);
            }
        }
        assert(has_key(c2, k));
        let j = choose|j: int| 0 <= j < c2.len() && #[trigger] key_of(c2[j]) == k;
        assert(j == c.len());
    }
}

/// Registering another account never changes the id of an account already
/// in the chart, and accounts with different keys have different ids.
pub proof fn lemma_register_keeps_ids(
    c: Seq<(Seq<char>, Seq<char>, Seq<char>)>,
    entity: Seq<char>,
    code: Seq<char>,
    other: Seq<char>,
)
    requires
        chart_wf(c),
        has_key(c, other),
    ensures
        has_key(registered(c, entity, code).0, other),
        id_of_key(registered(c, entity, code).0, other) == id_of_key(c, other),
        account_key(entity, code) != other ==> registered(c, entity, code).1 != id_of_key(c, other),
{
    let k = account_key(entity, code);
    let c2 = registered(c, entity, code).0;
    let i = choose|i: int| 0 <= i < c.len() && #[trigger] key_of(c[i]) == other;
    assert(key_of(c2[i]) == other);
    let j = choose|j: int| 0 <= j < c2.len() && #[trigger] key_of(c2[j]) == other;
    if j != i {
        if j == c.len() {
            assert(key_of(c2[j]) == k);
        } else {
            assert(c2[j] == c[j]);
        }
    }
    if has_key(c, k) && k != other {
        let m = choose|m: int| 0 <= m < c.len() && #[trigger] key_of(c[m]) == k;
        assert(m != i);
    }
}


/// What the engine's orderings read of an inventory lot: its id, entity,
/// asset, inventory account, acquisition timestamp, and whether it still
/// holds a positive quantity.
pub struct LotKey {
    pub id: i64,
    pub entity: String,
    pub asset: String,
    pub acct: i64,
    pub acq: String,
    pub open: bool,
}

/// The acquisition timestamps of `lots`.
pub open spec fn lot_acqs(lots: Seq<LotKey>) -> Seq<Seq<char>> {
    lots.map_values(|l: LotKey| l.acq@)
}

/// The ids of `lots`.
pub open spec fn lot_ids(lots: Seq<LotKey>) -> Seq<i64> {
    lots.map_values(|l: LotKey| l.id)
}

/// Which of `lots` are open lots of `entity` in account `acct`.
pub open spec fn fifo_candidates(lots: Seq<LotKey>, entity: Seq<char>, acct: i64) -> Seq<bool> {
    lots.map_values(|l: LotKey| l.entity@ == entity && l.acct == acct && l.open)
}

/// The FIFO order is what it says: it lists each open lot of `entity` in
/// account `acct` and no other lot; an earlier lot's acquisition timestamp
/// comes no later (lexicographically) than a later lot's; on equal
/// timestamps the lower id comes first, and on equal ids the lower position.
pub proof fn lemma_fifo_order_oldest_first(lots: Seq<LotKey>, entity: Seq<char>, acct: i64, order: Seq<usize>)
    requires
        sorted_selection(lot_acqs(lots), lot_ids(lots), fifo_candidates(lots, entity, acct), lots.len() as int, order),
    ensures
        forall|p: int| 0 <= p < order.len() ==> #[trigger] order[p] < lots.len()
            && lots[order[p] as int].entity@ == entity && lots[order[p] as int].acct == acct && lots[order[p] as int].open,
        forall|i: int| 0 <= i < lots.len() && lots[i].entity@ == entity && lots[i].acct == acct && lots[i].open
            ==> #[trigger] order.contains(i as usize),
        forall|p: int, q: int| 0 <= p < q < order.len() ==> ({
            let a = lots[#[trigger] order[p] as int];
            let b = lots[#[trigger] order[q] as int];
            chars_le(a.acq@, b.acq@) && (a.acq@ == b.acq@ ==> a.id < b.id || (a.id == b.id && order[p] < order[q]))
        }),
{
    let t = lot_acqs(lots);
    let m = lot_ids(lots);
    let c = fifo_candidates(lots, entity, acct);
    assert forall|p: int| 0 <= p < order.len() implies #[trigger] order[p] < lots.len()
        && lots[order[p] as int].entity@ == entity && lots[order[p] as int].acct == acct && lots[order[p] as int].open by {
        assert(c[order[p] as int]);
    }
    assert forall|i: int| 0 <= i < lots.len() && lots[i].entity@ == entity && lots[i].acct == acct && lots[i].open
        implies #[trigger] order.contains(i as usize) by {
        assert(c[i]);
    }
    assert forall|p: int, q: int| 0 <= p < q < order.len() implies ({
        let a = lots[#[trigger] order[p] as int];
        let b = lots[#[trigger] order[q] as int];
        chars_le(a.acq@, b.acq@) && (a.acq@ == b.acq@ ==> a.id < b.id || (a.id == b.id && order[p] < order[q]))
    }) by {
        let x = order[p] as int;
        let y = order[q] as int;
        assert(key_before(t, m, x, y));
        assert(t[x] == lots[x].acq@ && t[y] == lots[y].acq@);
        assert(m[x] == lots[x].id && m[y] == lots[y].id);
        lemma_chars_le_total_order(t[x], t[y], t[y]);
    }
}

/// The FIFO consumption order of the open lots of `entity` in account
/// `acct`: oldest acquisition timestamp first, then lowest lot id, then
/// position. Every such lot appears once; no other lot appears.
pub fn fifo_order(lots: &Vec<LotKey>, entity: &str, acct: i64) -> (order: Vec<usize>)
    ensures
        sorted_selection(
            lot_acqs(lots@),
            lot_ids(lots@),
            fifo_candidates(lots@, entity@, acct),
            lots@.len() as int,
            order@,
        ),
        forall|p: int, q: int| 0 <= p < q < order@.len() ==> ({
            let a = lots@[#[trigger] order@[p] as int];
            let b = lots@[#[trigger] order@[q] as int];
            chars_le(a.acq@, b.acq@) && (a.acq@ == b.acq@ ==> a.id < b.id || (a.id == b.id && order@[p] < order@[q]))
        }),
{
    let mut text: Vec<String> = Vec::new();
    let mut num: Vec<i64> = Vec::new();
    let mut pick: Vec<bool> = Vec::new();
    let mut i: usize = 0;
    while i < lots.len()
        invariant
            i <= lots@.len(),
            text@.len() == i,
            num@.len() == i,
            pick@.len() == i,
            forall|k: int| 0 <= k < i ==> (#[trigger] text@[k])@ == lots@[k].acq@,
            forall|k: int| 0 <= k < i ==> #[trigger] num@[k] == lots@[k].id,
            forall|k: int| 0 <= k < i ==> #[trigger] pick@[k] == (lots@[k].entity@ == entity@
                && lots@[k].acct == acct && lots@[k].open),
        decreases lots@.len() - i,
    {
        let l = &lots[i];
        text.push(l.acq.clone());
        num.push(l.id);
        pick.push(text_eq(l.entity.as_str(), entity) && l.acct == acct && l.open);
        i = i + 1;
    }
    assert(text@.map_values(|s: String| s@) =~= lot_acqs(lots@));
    assert(num@ =~= lot_ids(lots@));
    assert(pick@ =~= fifo_candidates(lots@, entity@, acct));
    let order = sort_selected(&text, &num, &pick);
    proof {
        lemma_fifo_order_oldest_first(lots@, entity@, acct, order@);
    }
    order
}

/// All-zero secondary keys.
pub open spec fn zeros(n: nat) -> Seq<i64> {
    Seq::new(n, |i: int| 0i64)
}

/// Every index selected.
pub open spec fn all_picked(n: nat) -> Seq<bool> {
    Seq::new(n, |i: int| true)
}

/// Sorting by timestamp with all-zero secondary keys is a stable sort by
/// timestamp: each timestamp comes no later than the next in lexicographic
/// order, and events with equal timestamps keep their given order.
pub proof fn lemma_chronological_is_stable(ts: Seq<Seq<char>>, order: Seq<usize>)
    requires
        sorted_selection(ts, zeros(ts.len()), all_picked(ts.len()), ts.len() as int, order),
    ensures
        forall|p: int| 0 <= p < order.len() ==> #[trigger] order[p] < ts.len(),
        forall|i: int| 0 <= i < ts.len() ==> #[trigger] order.contains(i as usize),
        forall|p: int, q: int| 0 <= p < q < order.len() ==>
            chars_le(ts[#[trigger] order[p] as int], ts[#[trigger] order[q] as int])
            && (ts[order[p] as int] == ts[order[q] as int] ==> order[p] < order[q]),
{
    assert forall|p: int, q: int| 0 <= p < q < order.len() implies
        chars_le(ts[#[trigger] order[p] as int], ts[#[trigger] order[q] as int])
        && (ts[order[p] as int] == ts[order[q] as int] ==> order[p] < order[q]) by {
        let a = order[p] as int;
        let b = order[q] as int;
        assert(key_before(ts, zeros(ts.len()), a, b));
        assert(zeros(ts.len())[a] == 0 && zeros(ts.len())[b] == 0);
        lemma_chars_le_total_order(ts[a], ts[b], ts[b]);
    }
    assert forall|i: int| 0 <= i < ts.len() implies #[trigger] order.contains(i as usize) by {
        assert(all_picked(ts.len())[i]);
    }
}

/// The order in which events with timestamps `ts` are replayed: by
/// timestamp, events with equal timestamps in their given order. Every event
/// appears exactly once.
pub fn chronological_order(ts: &Vec<String>) -> (order: Vec<usize>)
    ensures
        sorted_selection(
            ts@.map_values(|s: String| s@),
            zeros(ts@.len()),
            all_picked(ts@.len()),
            ts@.len() as int,
            order@,
        ),
        forall|p: int, q: int| 0 <= p < q < order@.len() ==>
            chars_le(ts@[#[trigger] order@[p] as int]@, ts@[#[trigger] order@[q] as int]@)
            && (ts@[order@[p] as int]@ == ts@[order@[q] as int]@ ==> order@[p] < order@[q]),
{
    let n = ts.len();
    let mut num: Vec<i64> = Vec::new();
    let mut pick: Vec<bool> = Vec::new();
    let mut i: usize = 0;
    while i < n
        invariant
            n == ts@.len(),
            i <= n,
            num@ == zeros(i as nat),
            pick@ == all_picked(i as nat),
        decreases n - i,
    {
        num.push(0);
        pick.push(true);
        i = i + 1;
        assert(num@ =~= zeros(i as nat));
        assert(pick@ =~= all_picked(i as nat));
    }
    let order = sort_selected(ts, &num, &pick);
    proof {
        let tv = ts@.map_values(|s: String| s@);
        lemma_chronological_is_stable(tv, order@);
        assert forall|p: int, q: int| 0 <= p < q < order@.len() implies
            chars_le(ts@[#[trigger] order@[p] as int]@, ts@[#[trigger] order@[q] as int]@)
            && (ts@[order@[p] as int]@ == ts@[order@[q] as int]@ ==> order@[p] < order@[q]) by {
            assert(chars_le(tv[order@[p] as int], tv[order@[q] as int]));
        }
    }
    order
}

/// The (entity, asset) pairs held in open lots, each once, in the order of
/// their first open lot.
pub open spec fn held(lots: Seq<LotKey>) -> Seq<(Seq<char>, Seq<char>)>
    decreases lots.len(),
{
    if lots.len() == 0 {
        seq![]
    } else {
        let prev = held(lots.drop_last());
        let l = lots.last();
        if l.open && !prev.contains((l.entity@, l.asset@)) {
            prev.push((l.entity@, l.asset@))
        } else {
            prev
        }
    }
}

/// Each held (entity, asset) pair is listed once, and every open lot's pair
/// is listed.
pub proof fn lemma_held_complete_and_distinct(lots: Seq<LotKey>)
    ensures
        forall|i: int, j: int| 0 <= i < j < held(lots).len() ==> held(lots)[i] != held(lots)[j],
        forall|k: int| 0 <= k < lots.len() && (#[trigger] lots[k]).open ==> held(lots).contains((lots[k].entity@, lots[k].asset@)),
    decreases lots.len(),
{
    if lots.len() > 0 {
        let init = lots.drop_last();
        lemma_held_complete_and_distinct(init);
        let prev = held(init);
        let l = lots.last();
        assert forall|k: int| 0 <= k < lots.len() && (#[trigger] lots[k]).open implies held(lots).contains((lots[k].entity@, lots[k].asset@)) by {
            if k < lots.len() - 1 {
                assert(init[k] == lots[k]);
                assert(prev.contains((init[k].entity@, init[k].asset@)));
                let p = choose|p: int| 0 <= p < prev.len() && prev[p] == (init[k].entity@, init[k].asset@);
                assert(held(lots)[p] == prev[p]);
            } else {
                if !prev.contains((l.entity@, l.asset@)) {
                    assert(held(lots)[prev.len() as int] == (l.entity@, l.asset@));
                }
            }
        }
    }
}

/// Whether `pairs` holds (entity, asset).
fn holds_pair(pairs: &Vec<(String, String)>, entity: &str, asset: &str) -> (b: bool)
    ensures
        b == pairs@.map_values(|p: (String, String)| (p.0@, p.1@)).contains((entity@, asset@)),
{
    let ghost v = pairs@.map_values(|p: (String, String)| (p.0@, p.1@));
    let mut i: usize = 0;
    while i < pairs.len()
        invariant
            v == pairs@.map_values(|p: (String, String)| (p.0@, p.1@)),
            i <= pairs@.len(),
            forall|k: int| 0 <= k < i ==> #[trigger] v[k] != (entity@, asset@),
        decreases pairs@.len() - i,
    {
        if text_eq(pairs[i].0.as_str(), entity) && text_eq(pairs[i].1.as_str(), asset) {
            assert(v[i as int] == (entity@, asset@));
            return true;
        }
        i = i + 1;
    }
    false
}

/// The (entity, asset) pairs that open lots hold, each once, in the order of
/// their first open lot: the positions revalued at period end.
pub fn held_positions(lots: &Vec<LotKey>) -> (pairs: Vec<(String, String)>)
    ensures
        pairs@.map_values(|p: (String, String)| (p.0@, p.1@)) == held(lots@),
{
    let mut out: Vec<(String, String)> = Vec::new();
    let mut i: usize = 0;
    while i < lots.len()
        invariant
            i <= lots@.len(),
            out@.map_values(|p: (String, String)| (p.0@, p.1@)) == held(lots@.subrange(0, i as int)),
        decreases lots@.len() - i,
    {
        let l = &lots[i];
        let ghost pre = lots@.subrange(0, i as int);
        assert(lots@.subrange(0, i + 1).drop_last() =~= pre);
        if l.open && !holds_pair(&out, l.entity.as_str(), l.asset.as_str()) {
            let ghost before = out@;
            out.push((l.entity.clone(), l.asset.clone()));
            assert(out@.map_values(|p: (String, String)| (p.0@, p.1@)) =~= before.map_values(|p: (String, String)| (p.0@, p.1@)).push((l.entity@, l.asset@)));
        }
        i = i + 1;
    }
    assert(lots@.subrange(0, lots@.len() as int) =~= lots@);
    out
}

/// Whether trade `i` of `trades` (entity, asset) is for `entity` and `asset`.
pub open spec fn trade_matches(trades: Seq<(String, String)>, i: int, entity: Seq<char>, asset: Seq<char>) -> bool {
    trades[i].0@ == entity && trades[i].1@ == asset
}

/// The last of `trades`, given as (entity, asset), that is for `entity` and
/// `asset`: the trade whose price is the default mark.
pub fn last_trade_for(trades: &Vec<(String, String)>, entity: &str, asset: &str) -> (r: Option<usize>)
    ensures
        r matches Some(i) ==> i < trades@.len() && trade_matches(trades@, i as int, entity@, asset@)
            && forall|j: int| i < j < trades@.len() ==> !trade_matches(trades@, j, entity@, asset@),
        r is None ==> forall|j: int| 0 <= j < trades@.len() ==> !trade_matches(trades@, j, entity@, asset@),
{
    let mut last: Option<usize> = None;
    let mut i: usize = 0;
    while i < trades.len()
        invariant
            i <= trades@.len(),
            last matches Some(k) ==> k < i && trade_matches(trades@, k as int, entity@, asset@)
                && forall|j: int| k < j < i ==> !trade_matches(trades@, j, entity@, asset@),
            last is None ==> forall|j: int| 0 <= j < i ==> !trade_matches(trades@, j, entity@, asset@),
        decreases trades@.len() - i,
    {
        if text_eq(trades[i].0.as_str(), entity) && text_eq(trades[i].1.as_str(), asset) {
            last = Some(i);
        }
        i = i + 1;
    }
    last
}


/// The inventory account code of `asset` held at `exchange`: `CRYPTO:asset:exchange`.
pub open spec fn inventory_code_of(asset: Seq<char>, exchange: Seq<char>) -> Seq<char> {
    seq!['C', 'R', 'Y', 'P', 'T', 'O', ':'] + asset + seq![':'] + exchange
}

/// The inventory account code of `asset` held at `exchange`.
pub fn inventory_code(asset: &str, exchange: &str) -> (c: String)
    ensures
        c@ == inventory_code_of(asset@, exchange@),
{
    let mut c = String::new();
    c.append("CRYPTO:");
    c.append(asset);
    c.push(':');
    c.append(exchange);
    proof {
        reveal_strlit("CRYPTO:");
    }
    assert(c@ =~= inventory_code_of(asset@, exchange@));
    c
}

/// The cash account code of currency `ccy`: `CASH:ccy`.
pub open spec fn cash_code_of(ccy: Seq<char>) -> Seq<char> {
    seq!['C', 'A', 'S', 'H', ':'] + ccy
}

/// The cash account code of currency `ccy`.
pub fn cash_code(ccy: &str) -> (c: String)
    ensures
        c@ == cash_code_of(ccy@),
{
    let mut c = String::new();
    c.append("CASH:");
    c.append(ccy);
    proof {
        reveal_strlit("CASH:");
    }
    assert(c@ =~= cash_code_of(ccy@));
    c
}

/// The counter account of a bank line: the given one, or `EQ:CAPITAL` when
/// the line names none.
pub fn bank_counter(counter: &str) -> (c: &str)
    ensures
        counter@.len() == 0 ==> c@ == "EQ:CAPITAL"@,
        counter@.len() != 0 ==> c@ == counter@,
{
    if counter.unicode_len() == 0 {
        "EQ:CAPITAL"
    } else {
        counter
    }
}

/// Inventory and cash accounts are assets, so their balances display with
/// the sign of their net.
pub proof fn lemma_inventory_and_cash_are_assets(asset: Seq<char>, exchange: Seq<char>, ccy: Seq<char>)
    ensures
        account_type(inventory_code_of(asset, exchange)) == "Asset"@,
        account_type(cash_code_of(ccy)) == "Asset"@,
        is_debit_normal(account_type(inventory_code_of(asset, exchange))),
        is_debit_normal(account_type(cash_code_of(ccy))),
{
    reveal_strlit("CRYPTO:");
    reveal_strlit("CASH:");
    let inv = inventory_code_of(asset, exchange);
    let cash = cash_code_of(ccy);
    assert("CRYPTO:"@ =~= inv.subrange(0, 7));
    assert("CASH:"@ =~= cash.subrange(0, 5));
}

} // verus!
