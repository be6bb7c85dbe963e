//! The receipts of the window and its simulated balance.

use crate::amount::{fixed_text, sat_abs, sat_add, Amount};
use crate::window::push_bounded;
use vstd::prelude::*;

verus! {

/// How many receipts are kept.
pub const KEPT_RECEIPTS: usize = 300;

/// How many receipts the window shows.
pub const SHOWN_RECEIPTS: usize = 200;

/// The simulated balance at the start: one thousand.
pub const START_BALANCE: Amount = 100_000_000_000;

/// A receipt of an order or of a transfer.
#[derive(Debug)]
pub struct TradeReceipt {
    pub ts: u64,
    pub ticker: String,
    pub side: String,
    pub kind: String,
    pub size: String,
    pub status: String,
    pub comment: String,
}

/// What a receipt says.
pub ghost struct ReceiptView {
    pub ts: u64,
    pub ticker: Seq<char>,
    pub side: Seq<char>,
    pub kind: Seq<char>,
    pub size: Seq<char>,
    pub status: Seq<char>,
    pub comment: Seq<char>,
}

impl View for TradeReceipt {
    type V = ReceiptView;

    open spec fn view(&self) -> ReceiptView {
        ReceiptView {
            ts: self.ts,
            ticker: self.ticker@,
            side: self.side@,
            kind: self.kind@,
            size: self.size@,
            status: self.status@,
            comment: self.comment@,
        }
    }
}

pub open spec fn receipt_views(v: Seq<TradeReceipt>) -> Seq<ReceiptView> {
    v.map_values(|r: TradeReceipt| r@)
}

/// The receipts, oldest first, and the simulated balances.
#[derive(Debug)]
pub struct Ledger {
    pub receipts: Vec<TradeReceipt>,
    pub balance_usdc: Amount,
    pub balance_pnl: Amount,
}

/// The receipts after one more: the oldest ones leave.
pub open spec fn with_receipt(s: Seq<ReceiptView>, r: ReceiptView) -> Seq<ReceiptView> {
    crate::window::newest(s.push(r), KEPT_RECEIPTS as nat)
}

/// The magnitude of an amount, kept in range.
pub open spec fn transfer(amount: Amount) -> Amount {
    crate::amount::sat(crate::amount::magnitude(amount as int) as int) as Amount
}

/// The receipt of a transfer.
pub open spec fn transfer_receipt(
    ts: u64,
    ticker: Seq<char>,
    kind: Seq<char>,
    amount: Amount,
    status: Seq<char>,
    comment: Seq<char>,
) -> ReceiptView {
    ReceiptView {
        ts,
        ticker,
        side: "N/A"@,
        kind,
        size: crate::amount::fixed(transfer(amount) as int, 2),
        status,
        comment,
    }
}

/// The balance after a deposit.
pub open spec fn deposited(balance: Amount, amount: Amount) -> Amount {
    crate::amount::sat(balance + transfer(amount)) as Amount
}

/// The balance after a withdrawal: as it was where it does not suffice.
pub open spec fn withdrawn(balance: Amount, amount: Amount) -> Amount {
    if balance >= transfer(amount) {
        (balance - transfer(amount)) as Amount
    } else {
        balance
    }
}

impl TradeReceipt {
    /// A copy.
    pub fn copy(&self) -> (r: Self)
        ensures
            r@ == self@,
    {
        TradeReceipt {
            ts: self.ts,
            ticker: self.ticker.clone(),
            side: self.side.clone(),
            kind: self.kind.clone(),
            size: self.size.clone(),
            status: self.status.clone(),
            comment: self.comment.clone(),
        }
    }
}

fn transfer_note(ts: u64, ticker: &str, kind: &str, amount: Amount, status: &str, comment: &str) -> (r: TradeReceipt)
    ensures
        r@ == transfer_receipt(ts, ticker@, kind@, amount, status@, comment@),
{
    TradeReceipt {
        ts,
        ticker: ticker.to_owned(),
        side: "N/A".to_owned(),
        kind: kind.to_owned(),
        size: fixed_text(sat_abs(amount), 2),
        status: status.to_owned(),
        comment: comment.to_owned(),
    }
}

impl Ledger {
    /// The receipts, oldest first.
    pub open spec fn entries(&self) -> Seq<ReceiptView> {
        receipt_views(self.receipts@)
    }

    pub fn new() -> (r: Self)
        ensures
            r.entries() == Seq::<ReceiptView>::empty(),
            r.balance_usdc == START_BALANCE,
            r.balance_pnl == 0,
    {
        let r = Ledger { receipts: Vec::new(), balance_usdc: START_BALANCE, balance_pnl: 0 };
        assert(r.entries() =~= Seq::<ReceiptView>::empty());
        r
    }

    /// Appends a receipt; only the newest ones are kept.
    pub fn push_receipt(&mut self, receipt: TradeReceipt)
        ensures
            final(self).entries() == with_receipt(old(self).entries(), receipt@),
            final(self).balance_usdc == old(self).balance_usdc,
            final(self).balance_pnl == old(self).balance_pnl,
    {
        let ghost before = self.receipts@;
        push_bounded(&mut self.receipts, receipt, KEPT_RECEIPTS);
        assert(self.entries() =~= with_receipt(receipt_views(before), receipt@));
    }

    /// A simulated deposit.
    pub fn deposit(&mut self, amount: Amount, ts: u64, ticker: &str)
        ensures
            final(self).balance_usdc == deposited(old(self).balance_usdc, amount),
            final(self).balance_pnl == old(self).balance_pnl,
            final(self).entries() == with_receipt(
                old(self).entries(),
                transfer_receipt(ts, ticker@, "DepositSim"@, amount, "ok"@, "Sim deposit"@),
            ),
    {
        self.balance_usdc = sat_add(self.balance_usdc, sat_abs(amount));
        self.push_receipt(transfer_note(ts, ticker, "DepositSim", amount, "ok", "Sim deposit"));
    }

    /// A simulated withdrawal; it fails where the balance does not suffice.
    pub fn withdraw(&mut self, amount: Amount, ts: u64, ticker: &str) -> (ok: bool)
        ensures
            ok == (old(self).balance_usdc >= transfer(amount)),
            final(self).balance_usdc == withdrawn(old(self).balance_usdc, amount),
            final(self).balance_pnl == old(self).balance_pnl,
            final(self).entries() == with_receipt(
                old(self).entries(),
                if ok {
                    transfer_receipt(ts, ticker@, "WithdrawSim"@, amount, "ok"@, "Sim withdraw"@)
                } else {
                    transfer_receipt(
                        ts,
                        ticker@,
                        "WithdrawSim"@,
                        amount,
                        "fail"@,
                        "Insufficient sim balance"@,
                    )
                },
            ),
    {
        let val: Amount = sat_abs(amount);
        if self.balance_usdc >= val {
            self.balance_usdc = self.balance_usdc - val;
            self.push_receipt(
                transfer_note(ts, ticker, "WithdrawSim", amount, "ok", "Sim withdraw"),
            );
            true
        } else {
            self.push_receipt(
                transfer_note(ts, ticker, "WithdrawSim", amount, "fail", "Insufficient sim balance"),
            );
            false
        }
    }

    /// The receipts that the window shows, newest first.
    pub fn shown(&self) -> (r: Vec<TradeReceipt>)
        ensures
            receipt_views(r@) == crate::window::newest(
                self.entries(),
                SHOWN_RECEIPTS as nat,
            ).reverse(),
    {
        let n: usize = self.receipts.len();
        let low: usize = if n > SHOWN_RECEIPTS {
            n - SHOWN_RECEIPTS
        } else {
            0
        };
        let mut out: Vec<TradeReceipt> = Vec::new();
        let mut i: usize = n;
        while i > low
            invariant
                low <= i <= n,
                n == self.receipts@.len(),
                out@.len() == n - i,
                forall|j: int| 0 <= j < n - i ==> (#[trigger] out@[j])@ == self.receipts@[n - 1 - j]@,
            decreases i,
        {
            i -= 1;
            out.push(self.receipts[i].copy());
        }
        assert(receipt_views(out@) =~= crate::window::newest(
            self.entries(),
            SHOWN_RECEIPTS as nat,
        ).reverse());
        out
    }
}

// ---------------------------------------------------------------------------
// Laws

/// A withdrawal of what was just deposited restores the balance.
pub proof fn law_withdraw_undoes_deposit(balance: Amount, amount: Amount)
    requires
        balance >= 0,
        balance + transfer(amount) <= i128::MAX,
    ensures
        withdrawn(deposited(balance, amount), amount) == balance,
{
}

/// No transfer makes a balance negative.
pub proof fn law_balance_stays_positive(balance: Amount, amount: Amount)
    requires
        balance >= 0,
    ensures
        deposited(balance, amount) >= 0,
        withdrawn(balance, amount) >= 0,
        withdrawn(balance, amount) <= balance <= deposited(balance, amount),
{
}

/// The ledger never keeps more than its bound, and always the newest receipt.
pub proof fn law_newest_receipts_stay(s: Seq<ReceiptView>, r: ReceiptView)
    ensures
        with_receipt(s, r).len() <= KEPT_RECEIPTS,
        with_receipt(s, r).last() == r,
{
    crate::window::law_bounded_push(s, r, KEPT_RECEIPTS as nat);
}

/// A deposit adds its amount and a withdrawal takes it, whatever its sign; a withdrawal of more
/// than there is takes nothing.
pub proof fn law_transfers_count_their_amount(balance: Amount, amount: Amount)
    requires
        -1_000_000_000_000_000_000_000_000_000_000 <= amount <= 1_000_000_000_000_000_000_000_000_000_000,
        -1_000_000_000_000_000_000_000_000_000_000 <= balance <= 1_000_000_000_000_000_000_000_000_000_000,
    ensures
        ({
            let a: int = if amount < 0 {
                -amount
            } else {
                amount as int
            };
            &&& deposited(balance, amount) == balance + a
            &&& balance >= a ==> withdrawn(balance, amount) == balance - a
            &&& balance < a ==> withdrawn(balance, amount) == balance
            &&& transfer(amount) == a
        }),
{
}

/// A receipt is added behind the others, which stay in their order; beyond the bound the
/// oldest one leaves.
pub proof fn law_receipts_keep_their_order(s: Seq<ReceiptView>, r: ReceiptView, i: int)
    requires
        s.len() <= KEPT_RECEIPTS,
        0 <= i < s.len(),
    ensures
        s.len() < KEPT_RECEIPTS ==> with_receipt(s, r).len() == s.len() + 1 && with_receipt(s, r)[i] == s[i],
        s.len() == KEPT_RECEIPTS && i > 0 ==> with_receipt(s, r).len() == s.len() && with_receipt(s, r)[i - 1]
            == s[i],
{
}

/// The receipt of a transfer names its time, its market, its kind and how it went.
pub proof fn law_transfers_leave_their_receipt(
    ts: u64,
    ticker: Seq<char>,
    kind: Seq<char>,
    amount: Amount,
    status: Seq<char>,
    comment: Seq<char>,
)
    requires
        amount > i128::MIN,
    ensures
        ({
            let r = transfer_receipt(ts, ticker, kind, amount, status, comment);
            let a: int = if amount < 0 {
                -amount
            } else {
                amount as int
            };
            &&& r.ts == ts && r.ticker == ticker && r.kind == kind && r.status == status && r.comment == comment
            &&& r.size == crate::amount::fixed(a, 2)
            &&& r.side == "N/A"@
        }),
{
}

} // verus!
