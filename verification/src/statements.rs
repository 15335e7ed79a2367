use vstd::prelude::*;

use crate::paging::{lemma_page_push, lemma_reverse_push, lemma_take_succ, page};
use crate::types::Address;

verus! {

broadcast use vstd::seq_lib::group_seq_properties;

// ─── Per-charge audit rows ───────────────────────────────────────────────────

/// What produced a per-charge row.
#[derive(Clone, Copy, Debug, PartialEq, Eq, Structural)]
pub enum ChargeKind {
    Interval,
    Usage,
}

/// One row of the per-charge audit log.
#[derive(Clone, Copy, Debug, PartialEq, Eq, Structural)]
pub struct ChargeStatement {
    pub subscription_id: u32,
    pub charged_at: u64,
    pub amount: i128,
    pub kind: ChargeKind,
}

/// A page of one subscription's per-charge rows, with the number of rows it has.
pub struct StatementPage {
    pub statements: Vec<ChargeStatement>,
    pub total: usize,
}

/// Selects the per-charge rows of one subscription.
pub open spec fn charge_of(sid: u32) -> spec_fn(ChargeStatement) -> bool {
    |r: ChargeStatement| r.subscription_id == sid
}

/// The log after keeping only the `keep` newest rows of subscription `sid`;
/// rows of other subscriptions stay, in order.
pub open spec fn keep_newest(s: Seq<ChargeStatement>, sid: u32, keep: nat) -> Seq<ChargeStatement>
    decreases s.len(),
{
    if s.len() == 0 {
        s
    } else if s.last().subscription_id == sid {
        if keep > 0 {
            keep_newest(s.drop_last(), sid, (keep - 1) as nat).push(s.last())
        } else {
            keep_newest(s.drop_last(), sid, 0)
        }
    } else {
        keep_newest(s.drop_last(), sid, keep).push(s.last())
    }
}

/// The smaller of two naturals.
pub open spec fn min_nat(a: nat, b: nat) -> nat {
    if a < b {
        a
    } else {
        b
    }
}

/// Compaction keeps exactly the newest `keep` rows of the compacted
/// subscription, in their order.
pub proof fn lemma_keep_newest_own_rows(s: Seq<ChargeStatement>, sid: u32, keep: nat)
    ensures
        keep_newest(s, sid, keep).filter(charge_of(sid)) == s.filter(charge_of(sid)).subrange(
            s.filter(charge_of(sid)).len() - min_nat(keep, s.filter(charge_of(sid)).len()),
            s.filter(charge_of(sid)).len() as int,
        ),
    decreases s.len(),
{
    let f = s.filter(charge_of(sid));
    if s.len() == 0 {
        assert(f =~= Seq::<ChargeStatement>::empty());
        assert(f.subrange(0, 0) =~= Seq::<ChargeStatement>::empty());
    } else {
        let init = s.drop_last();
        let last = s.last();
        assert(s =~= init.push(last));
        let fi = init.filter(charge_of(sid));
        init.lemma_filter_push(last, charge_of(sid));
        if last.subscription_id == sid {
            assert(f == fi.push(last));
            if keep > 0 {
                lemma_keep_newest_own_rows(init, sid, (keep - 1) as nat);
                let k = keep_newest(init, sid, (keep - 1) as nat);
                k.lemma_filter_push(last, charge_of(sid));
                assert(keep_newest(s, sid, keep).filter(charge_of(sid)) =~= f.subrange(
                    f.len() - min_nat(keep, f.len()),
                    f.len() as int,
                ));
            } else {
                lemma_keep_newest_own_rows(init, sid, 0);
                assert(fi.subrange(fi.len() as int, fi.len() as int) =~= Seq::<
                    ChargeStatement,
                >::empty());
                assert(f.subrange(f.len() as int, f.len() as int) =~= Seq::<
                    ChargeStatement,
                >::empty());
            }
        } else {
            assert(f == fi);
            lemma_keep_newest_own_rows(init, sid, keep);
            let k = keep_newest(init, sid, keep);
            k.lemma_filter_push(last, charge_of(sid));
        }
    }
}

/// Compaction of one subscription leaves the rows of every other
/// subscription as they were.
pub proof fn lemma_keep_newest_other_rows(
    s: Seq<ChargeStatement>,
    sid: u32,
    keep: nat,
    other: u32,
)
    requires
        other != sid,
    ensures
        keep_newest(s, sid, keep).filter(charge_of(other)) == s.filter(charge_of(other)),
    decreases s.len(),
{
    if s.len() > 0 {
        let init = s.drop_last();
        let last = s.last();
        assert(s =~= init.push(last));
        init.lemma_filter_push(last, charge_of(other));
        if last.subscription_id == sid {
            if keep > 0 {
                lemma_keep_newest_other_rows(init, sid, (keep - 1) as nat, other);
                let k = keep_newest(init, sid, (keep - 1) as nat);
                k.lemma_filter_push(last, charge_of(other));
            } else {
                lemma_keep_newest_other_rows(init, sid, 0, other);
            }
        } else {
            lemma_keep_newest_other_rows(init, sid, keep, other);
            let k = keep_newest(init, sid, keep);
            k.lemma_filter_push(last, charge_of(other));
        }
    }
}

/// The per-charge audit log of all subscriptions, oldest row first.
pub struct ChargeLog {
    rows: Vec<ChargeStatement>,
}

impl View for ChargeLog {
    type V = Seq<ChargeStatement>;

    closed spec fn view(&self) -> Seq<ChargeStatement> {
        self.rows@
    }
}

impl ChargeLog {
    pub fn new() -> (r: ChargeLog)
        ensures
            r@ == Seq::<ChargeStatement>::empty(),
    {
        ChargeLog { rows: Vec::new() }
    }

    /// A log holding the given rows.
    pub fn from_rows(rows: Vec<ChargeStatement>) -> (r: ChargeLog)
        ensures
            r@ == rows@,
    {
        ChargeLog { rows }
    }

    /// A copy of the rows, oldest first.
    pub fn to_rows(&self) -> (r: Vec<ChargeStatement>)
        ensures
            r@ == self@,
    {
        self.rows.clone()
    }

    /// Records one charge.
    pub fn append(&mut self, row: ChargeStatement)
        ensures
            final(self)@ == old(self)@.push(row),
    {
        self.rows.push(row);
    }

    /// The number of rows of subscription `sid`.
    pub fn count_for(&self, sid: u32) -> (n: usize)
        ensures
            n == self@.filter(charge_of(sid)).len(),
    {
        let ghost s = self@;
        let mut n: usize = 0;
        let len = self.rows.len();
        for i in 0..len
            invariant
                len == s.len(),
                s == self@,
                n == s.take(i as int).filter(charge_of(sid)).len(),
                n <= i,
        {
            proof {
                lemma_take_succ(s, i as int);
                s.take(i as int).lemma_filter_push(s[i as int], charge_of(sid));
            }
            if self.rows[i].subscription_id == sid {
                n = n + 1;
            }
        }
        assert(s.take(len as int) =~= s);
        n
    }

    /// A page of subscription `sid`'s rows, oldest first or newest first.
    pub fn page_for(&self, sid: u32, offset: u32, limit: u32, newest_first: bool) -> (r: Vec<
        ChargeStatement,
    >)
        ensures
            r@ == page(
                if newest_first {
                    self@.filter(charge_of(sid)).reverse()
                } else {
                    self@.filter(charge_of(sid))
                },
                offset as int,
                limit as int,
            ),
    {
        let ghost s = self@;
        let len = self.rows.len();
        let mut out: Vec<ChargeStatement> = Vec::new();
        let mut count: usize = 0;
        let ghost mut seen: Seq<ChargeStatement> = Seq::empty();
        if !newest_first {
            for i in 0..len
                invariant
                    len == s.len(),
                    s == self@,
                    seen == s.take(i as int).filter(charge_of(sid)),
                    count == seen.len(),
                    count <= i,
                    out@ == page(seen, offset as int, limit as int),
            {
                proof {
                    lemma_take_succ(s, i as int);
                    s.take(i as int).lemma_filter_push(s[i as int], charge_of(sid));
                }
                let row = self.rows[i];
                if row.subscription_id == sid {
                    proof {
                        lemma_page_push(seen, row, offset as int, limit as int);
                    }
                    if count >= offset as usize && count - (offset as usize) < limit as usize {
                        out.push(row);
                    }
                    count = count + 1;
                    proof {
                        seen = seen.push(row);
                    }
                }
            }
            assert(s.take(len as int) =~= s);
        } else {
            let mut i = len;
            while i > 0
                invariant
                    len == s.len(),
                    s == self@,
                    i <= len,
                    s.filter(charge_of(sid)).reverse() == seen + s.take(i as int).filter(
                        charge_of(sid),
                    ).reverse(),
                    count == seen.len(),
                    count <= len - i,
                    out@ == page(seen, offset as int, limit as int),
                decreases i,
            {
                i = i - 1;
                proof {
                    lemma_take_succ(s, i as int);
                    s.take(i as int).lemma_filter_push(s[i as int], charge_of(sid));
                    lemma_reverse_push(s.take(i as int).filter(charge_of(sid)), s[i as int]);
                }
                let row = self.rows[i];
                if row.subscription_id == sid {
                    proof {
                        lemma_page_push(seen, row, offset as int, limit as int);
                        assert(seen + (seq![row] + s.take(i as int).filter(
                            charge_of(sid),
                        ).reverse()) =~= seen.push(row) + s.take(i as int).filter(
                            charge_of(sid),
                        ).reverse());
                    }
                    if count >= offset as usize && count - (offset as usize) < limit as usize {
                        out.push(row);
                    }
                    count = count + 1;
                    proof {
                        seen = seen.push(row);
                    }
                }
            }
            assert(s.take(0).filter(charge_of(sid)).reverse() =~= Seq::<
                ChargeStatement,
            >::empty());
            assert(seen + Seq::<ChargeStatement>::empty() =~= seen);
        }
        out
    }

    /// Drops the oldest rows of subscription `sid` so that at most `keep`
    /// remain; returns how many rows were removed.
    pub fn compact(&mut self, sid: u32, keep: u32) -> (removed: usize)
        ensures
            final(self)@ == keep_newest(old(self)@, sid, keep as nat),
            removed == old(self)@.len() - final(self)@.len(),
    {
        let ghost s = self@;
        let len = self.rows.len();
        let mut out: Vec<ChargeStatement> = Vec::new();
        let mut remaining: u32 = keep;
        let mut i = len;
        while i > 0
            invariant
                len == s.len(),
                s == self@,
                i <= len,
                keep_newest(s, sid, keep as nat) == keep_newest(
                    s.take(i as int),
                    sid,
                    remaining as nat,
                ) + out@,
                out@.len() <= len - i,
            decreases i,
        {
            i = i - 1;
            proof {
                lemma_take_succ(s, i as int);
                assert(s.take(i as int + 1).drop_last() =~= s.take(i as int));
            }
            let row = self.rows[i];
            if row.subscription_id == sid {
                if remaining > 0 {
                    proof {
                        let k = keep_newest(s.take(i as int), sid, (remaining - 1) as nat);
                        assert(k.push(row) + out@ =~= k + (seq![row] + out@));
                    }
                    out.insert(0, row);
                    remaining = remaining - 1;
                }
            } else {
                proof {
                    let k = keep_newest(s.take(i as int), sid, remaining as nat);
                    assert(k.push(row) + out@ =~= k + (seq![row] + out@));
                }
                out.insert(0, row);
            }
        }
        assert(keep_newest(s.take(0), sid, remaining as nat) =~= Seq::<ChargeStatement>::empty());
        assert(Seq::<ChargeStatement>::empty() + out@ =~= out@);
        let removed = len - out.len();
        self.rows = out;
        removed
    }
}

// ─── Period billing statements ───────────────────────────────────────────────

/// Why a period statement was closed.
#[derive(Clone, Copy, Debug, PartialEq, Eq, Structural)]
pub enum BillingStatementFinalization {
    PeriodClosed,
    Cancellation,
    FinalSettlement,
}

/// The amounts of a billing period.
#[derive(Clone, Copy, Debug, PartialEq, Eq, Structural)]
pub struct PeriodStatementAmounts {
    pub total_amount_charged: i128,
    pub total_usage_units: u64,
    pub protocol_fee_amount: i128,
    pub net_amount_to_merchant: i128,
    pub refund_amount: i128,
}

/// The closed statement of one billing period of one subscription.
#[derive(Clone, Copy, Debug, PartialEq, Eq, Structural)]
pub struct PeriodBillingStatement {
    pub subscription_id: u32,
    pub period_index: u32,
    pub subscriber: Address,
    pub merchant: Address,
    pub token: Address,
    pub period_start_timestamp: u64,
    pub period_end_timestamp: u64,
    pub total_amount_charged: i128,
    pub total_usage_units: u64,
    pub protocol_fee_amount: i128,
    pub net_amount_to_merchant: i128,
    pub refund_amount: i128,
    pub status_flags: u32,
    pub finalized_by: BillingStatementFinalization,
    pub finalized_at: u64,
}

/// Whether statement `x` is the one of period `p` of subscription `sid`.
pub open spec fn is_period(x: PeriodBillingStatement, sid: u32, p: u32) -> bool {
    x.subscription_id == sid && x.period_index == p
}

/// No two statements share a subscription and period.
pub open spec fn periods_unique(s: Seq<PeriodBillingStatement>) -> bool {
    forall|i: int, j: int|
        0 <= i < s.len() && 0 <= j < s.len() && i != j && #[trigger] is_period(
            s[i],
            s[j].subscription_id,
            s[j].period_index,
        ) ==> false
}

/// Whether the book holds a statement for period `p` of subscription `sid`.
pub open spec fn has_period(s: Seq<PeriodBillingStatement>, sid: u32, p: u32) -> bool {
    exists|i: int| 0 <= i < s.len() && #[trigger] is_period(s[i], sid, p)
}

/// The statement for period `p` of subscription `sid`, if the book holds one.
pub open spec fn period_lookup(s: Seq<PeriodBillingStatement>, sid: u32, p: u32) -> Option<
    PeriodBillingStatement,
> {
    if has_period(s, sid, p) {
        Some(s[choose|i: int| 0 <= i < s.len() && #[trigger] is_period(s[i], sid, p)])
    } else {
        None
    }
}

/// The book after writing `x`: it replaces the statement of the same period,
/// or is appended when there is none.
pub open spec fn upserted(s: Seq<PeriodBillingStatement>, x: PeriodBillingStatement) -> Seq<
    PeriodBillingStatement,
> {
    if has_period(s, x.subscription_id, x.period_index) {
        s.update(
            choose|i: int|
                0 <= i < s.len() && #[trigger] is_period(s[i], x.subscription_id, x.period_index),
            x,
        )
    } else {
        s.push(x)
    }
}

/// Selects the statements of one subscription.
pub open spec fn period_of(sid: u32) -> spec_fn(PeriodBillingStatement) -> bool {
    |x: PeriodBillingStatement| x.subscription_id == sid
}

/// Selects the statements of one merchant whose period ends within `[from, to]`.
pub open spec fn merchant_in_range(merchant: Address, from: u64, to: u64) -> spec_fn(
    PeriodBillingStatement,
) -> bool {
    |x: PeriodBillingStatement|
        x.merchant == merchant && from <= x.period_end_timestamp && x.period_end_timestamp <= to
}

/// A write is read back: after writing `x`, its period reads as `x`, every
/// other period reads as before, and periods stay unique.
pub proof fn lemma_upsert_then_lookup(
    s: Seq<PeriodBillingStatement>,
    x: PeriodBillingStatement,
    sid: u32,
    p: u32,
)
    requires
        periods_unique(s),
    ensures
        periods_unique(upserted(s, x)),
        period_lookup(upserted(s, x), sid, p) == (if is_period(x, sid, p) {
            Some(x)
        } else {
            period_lookup(s, sid, p)
        }),
{
    let t = upserted(s, x);
    if has_period(s, x.subscription_id, x.period_index) {
        let k = choose|i: int|
            0 <= i < s.len() && #[trigger] is_period(s[i], x.subscription_id, x.period_index);
        assert(t == s.update(k, x));
        assert forall|i: int, j: int|
            0 <= i < t.len() && 0 <= j < t.len() && i != j && #[trigger] is_period(
                t[i],
                t[j].subscription_id,
                t[j].period_index,
            ) implies false by {
            if i == k {
                assert(is_period(s[j], s[k].subscription_id, s[k].period_index));
                assert(is_period(s[k], s[j].subscription_id, s[j].period_index));
            } else if j == k {
                assert(is_period(s[i], s[k].subscription_id, s[k].period_index));
            } else {
                assert(is_period(s[i], s[j].subscription_id, s[j].period_index));
            }
        }
        if is_period(x, sid, p) {
            assert(is_period(t[k], sid, p));
            let c = choose|i: int| 0 <= i < t.len() && #[trigger] is_period(t[i], sid, p);
            if c != k {
                assert(is_period(t[c], t[k].subscription_id, t[k].period_index));
            }
        } else {
            if has_period(s, sid, p) {
                let c = choose|i: int| 0 <= i < s.len() && #[trigger] is_period(s[i], sid, p);
                assert(c != k);
                assert(is_period(t[c], sid, p));
                let d = choose|i: int| 0 <= i < t.len() && #[trigger] is_period(t[i], sid, p);
                if d != c {
                    assert(d != k);
                    assert(is_period(s[d], s[c].subscription_id, s[c].period_index));
                }
            }
            if has_period(t, sid, p) {
                let d = choose|i: int| 0 <= i < t.len() && #[trigger] is_period(t[i], sid, p);
                assert(d != k);
                assert(is_period(s[d], sid, p));
            }
        }
    } else {
        assert(t == s.push(x));
        assert forall|i: int, j: int|
            0 <= i < t.len() && 0 <= j < t.len() && i != j && #[trigger] is_period(
                t[i],
                t[j].subscription_id,
                t[j].period_index,
            ) implies false by {
            if i == s.len() {
                assert(is_period(s[j], x.subscription_id, x.period_index));
            } else if j == s.len() {
                assert(is_period(s[i], x.subscription_id, x.period_index));
            } else {
                assert(is_period(s[i], s[j].subscription_id, s[j].period_index));
            }
        }
        if is_period(x, sid, p) {
            assert(is_period(t[s.len() as int], sid, p));
            let c = choose|i: int| 0 <= i < t.len() && #[trigger] is_period(t[i], sid, p);
            if c != s.len() {
                assert(is_period(s[c], x.subscription_id, x.period_index));
            }
        } else {
            if has_period(s, sid, p) {
                let c = choose|i: int| 0 <= i < s.len() && #[trigger] is_period(s[i], sid, p);
                assert(is_period(t[c], sid, p));
                let d = choose|i: int| 0 <= i < t.len() && #[trigger] is_period(t[i], sid, p);
                if d != c {
                    assert(d != s.len());
                    assert(is_period(s[d], s[c].subscription_id, s[c].period_index));
                }
            }
            if has_period(t, sid, p) {
                let d = choose|i: int| 0 <= i < t.len() && #[trigger] is_period(t[i], sid, p);
                assert(d != s.len());
                assert(is_period(s[d], sid, p));
            }
        }
    }
}

/// The period statements of all subscriptions, in the order they were first written.
pub struct PeriodStatementBook {
    stmts: Vec<PeriodBillingStatement>,
}

impl View for PeriodStatementBook {
    type V = Seq<PeriodBillingStatement>;

    closed spec fn view(&self) -> Seq<PeriodBillingStatement> {
        self.stmts@
    }
}

impl PeriodStatementBook {
    pub open spec fn wf(&self) -> bool {
        periods_unique(self@)
    }

    pub fn new() -> (r: PeriodStatementBook)
        ensures
            r@ == Seq::<PeriodBillingStatement>::empty(),
            r.wf(),
    {
        PeriodStatementBook { stmts: Vec::new() }
    }

    fn find(&self, sid: u32, p: u32) -> (r: Option<usize>)
        requires
            self.wf(),
        ensures
            r matches Some(i) ==> i < self@.len() && is_period(self@[i as int], sid, p)
                && period_lookup(self@, sid, p) == Some(self@[i as int]),
            r is None ==> !has_period(self@, sid, p) && period_lookup(self@, sid, p) is None,
    {
        let len = self.stmts.len();
        for i in 0..len
            invariant
                len == self@.len(),
                self.wf(),
                forall|j: int| 0 <= j < i ==> !#[trigger] is_period(self@[j], sid, p),
        {
            let x = self.stmts[i];
            if x.subscription_id == sid && x.period_index == p {
                proof {
                    assert(is_period(self@[i as int], sid, p));
                    let c = choose|j: int|
                        0 <= j < self@.len() && #[trigger] is_period(self@[j], sid, p);
                    if c != i {
                        assert(is_period(
                            self@[c],
                            self@[i as int].subscription_id,
                            self@[i as int].period_index,
                        ));
                    }
                    assert(has_period(self@, sid, p));

                }
                return Some(i);
            }
        }
        None
    }

    /// A book holding the given statements, provided no period appears twice.
    pub fn from_statements(stmts: Vec<PeriodBillingStatement>) -> (r: Option<PeriodStatementBook>)
        ensures
            r is Some <==> periods_unique(stmts@),
            r matches Some(b) ==> b.wf() && b@ == stmts@,
    {
        let len = stmts.len();
        for i in 0..len
            invariant
                len == stmts@.len(),
                forall|a: int, b: int|
                    0 <= a < i && 0 <= b < len && a != b ==> !#[trigger] is_period(
                        stmts@[a],
                        stmts@[b].subscription_id,
                        stmts@[b].period_index,
                    ),
        {
            for j in 0..len
                invariant
                    len == stmts@.len(),
                    i < len,
                    forall|a: int, b: int|
                        0 <= a < i && 0 <= b < len && a != b ==> !#[trigger] is_period(
                            stmts@[a],
                            stmts@[b].subscription_id,
                            stmts@[b].period_index,
                        ),
                    forall|b: int|
                        0 <= b < j && b != i ==> !#[trigger] is_period(
                            stmts@[i as int],
                            stmts@[b].subscription_id,
                            stmts@[b].period_index,
                        ),
            {
                if j != i && stmts[i].subscription_id == stmts[j].subscription_id
                    && stmts[i].period_index == stmts[j].period_index {
                    proof {
                        assert(is_period(
                            stmts@[i as int],
                            stmts@[j as int].subscription_id,
                            stmts@[j as int].period_index,
                        ));
                    }
                    return None;
                }
            }
        }
        Some(PeriodStatementBook { stmts })
    }

    /// A copy of the statements, in the order they were first written.
    pub fn to_statements(&self) -> (r: Vec<PeriodBillingStatement>)
        ensures
            r@ == self@,
    {
        self.stmts.clone()
    }

    /// The statement of period `p` of subscription `sid`, if any.
    pub fn get(&self, sid: u32, p: u32) -> (r: Option<PeriodBillingStatement>)
        requires
            self.wf(),
        ensures
            r == period_lookup(self@, sid, p),
    {
        match self.find(sid, p) {
            Some(i) => Some(self.stmts[i]),
            None => None,
        }
    }

    /// Writes a statement, replacing the one of the same period if present.
    pub fn upsert(&mut self, x: PeriodBillingStatement)
        requires
            old(self).wf(),
        ensures
            final(self)@ == upserted(old(self)@, x),
            final(self).wf(),
    {
        proof {
            lemma_upsert_then_lookup(self@, x, x.subscription_id, x.period_index);
        }
        match self.find(x.subscription_id, x.period_index) {
            Some(i) => {
                proof {
                    let k = choose|j: int|
                        0 <= j < self@.len() && #[trigger] is_period(
                            self@[j],
                            x.subscription_id,
                            x.period_index,
                        );
                    if k != i {
                        assert(is_period(
                            self@[k],
                            self@[i as int].subscription_id,
                            self@[i as int].period_index,
                        ));
                    }
                }
                self.stmts.set(i, x);
            },
            None => {
                self.stmts.push(x);
            },
        }
    }

    /// A page of subscription `sid`'s statements, oldest first.
    pub fn by_subscription(&self, sid: u32, start: u32, limit: u32) -> (r: Vec<
        PeriodBillingStatement,
    >)
        ensures
            r@ == page(self@.filter(period_of(sid)), start as int, limit as int),
    {
        let ghost s = self@;
        let len = self.stmts.len();
        let mut out: Vec<PeriodBillingStatement> = Vec::new();
        let mut count: usize = 0;
        let ghost mut seen: Seq<PeriodBillingStatement> = Seq::empty();
        for i in 0..len
            invariant
                len == s.len(),
                s == self@,
                seen == s.take(i as int).filter(period_of(sid)),
                count == seen.len(),
                count <= i,
                out@ == page(seen, start as int, limit as int),
        {
            proof {
                lemma_take_succ(s, i as int);
                s.take(i as int).lemma_filter_push(s[i as int], period_of(sid));
            }
            let x = self.stmts[i];
            if x.subscription_id == sid {
                proof {
                    lemma_page_push(seen, x, start as int, limit as int);
                }
                if count >= start as usize && count - (start as usize) < limit as usize {
                    out.push(x);
                }
                count = count + 1;
                proof {
                    seen = seen.push(x);
                }
            }
        }
        assert(s.take(len as int) =~= s);
        out
    }

    /// A page of merchant `merchant`'s statements whose period ends within
    /// `[from, to]`, oldest first.
    pub fn by_merchant_range(
        &self,
        merchant: Address,
        from: u64,
        to: u64,
        start: u32,
        limit: u32,
    ) -> (r: Vec<PeriodBillingStatement>)
        ensures
            r@ == page(
                self@.filter(merchant_in_range(merchant, from, to)),
                start as int,
                limit as int,
            ),
    {
        let ghost s = self@;
        let len = self.stmts.len();
        let mut out: Vec<PeriodBillingStatement> = Vec::new();
        let mut count: usize = 0;
        let ghost mut seen: Seq<PeriodBillingStatement> = Seq::empty();
        for i in 0..len
            invariant
                len == s.len(),
                s == self@,
                seen == s.take(i as int).filter(merchant_in_range(merchant, from, to)),
                count == seen.len(),
                count <= i,
                out@ == page(seen, start as int, limit as int),
        {
            proof {
                lemma_take_succ(s, i as int);
                s.take(i as int).lemma_filter_push(s[i as int], merchant_in_range(merchant, from, to));
            }
            let x = self.stmts[i];
            if x.merchant == merchant && from <= x.period_end_timestamp && x.period_end_timestamp
                <= to {
                proof {
                    lemma_page_push(seen, x, start as int, limit as int);
                }
                if count >= start as usize && count - (start as usize) < limit as usize {
                    out.push(x);
                }
                count = count + 1;
                proof {
                    seen = seen.push(x);
                }
            }
        }
        assert(s.take(len as int) =~= s);
        out
    }
}

} // verus!
