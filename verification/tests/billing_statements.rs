use subscription_vault::statements::{
    BillingStatementFinalization, PeriodStatementAmounts,
};
use subscription_vault::types::{
    Address, Error, STMT_FLAG_CANCELLED, STMT_FLAG_INTERVAL_CHARGED, STMT_FLAG_ONEOFF_CHARGED,
    STMT_FLAG_SETTLED, STMT_FLAG_USAGE_CHARGED,
};
use subscription_vault::vault::Vault;

// T0 must be larger than INTERVAL so that a period start one interval back stays positive.
const T0: u64 = 10_000_000;
const INTERVAL: u64 = 30 * 24 * 60 * 60;

struct BillingTestEnv {
    vault: Vault,
    admin: Address,
    token: Address,
    next_address: u64,
}

impl BillingTestEnv {
    fn new() -> Self {
        let admin = Address::new(1);
        let token = Address::new(2);
        let vault = Vault::init(token, 6, admin, 1_000_000i128, 7 * 24 * 60 * 60).unwrap();
        BillingTestEnv { vault, admin, token, next_address: 100 }
    }

    fn generate(&mut self) -> Address {
        self.next_address += 1;
        Address::new(self.next_address)
    }

    fn make_subscription(&mut self, subscriber: &Address, merchant: &Address) -> u32 {
        self.vault
            .create_subscription(*subscriber, *merchant, 1_000_000i128, INTERVAL, false, None, None, T0)
            .unwrap()
    }

    /// Writes a period statement ending at `now` and starting one interval earlier.
    fn finalize(
        &mut self,
        now: u64,
        subscription_id: u32,
        period_index: u32,
        subscriber: &Address,
        merchant: &Address,
        total_charged: i128,
        finalized_by: BillingStatementFinalization,
    ) {
        let t_end = now;
        let t_start = t_end - INTERVAL;
        self.vault
            .finalize_billing_statement(
                self.admin,
                subscription_id,
                period_index,
                *subscriber,
                *merchant,
                t_start,
                t_end,
                PeriodStatementAmounts {
                    total_amount_charged: total_charged,
                    total_usage_units: 0,
                    protocol_fee_amount: 0,
                    net_amount_to_merchant: total_charged,
                    refund_amount: 0,
                },
                STMT_FLAG_INTERVAL_CHARGED,
                finalized_by,
                now,
            )
            .unwrap();
    }
}

#[test]
fn test_billing_statement_write_and_read() {
    let mut te = BillingTestEnv::new();
    let subscriber = te.generate();
    let merchant = te.generate();
    let sub_id = te.make_subscription(&subscriber, &merchant);

    te.finalize(T0 + INTERVAL, sub_id, 0, &subscriber, &merchant, 1_000_000, BillingStatementFinalization::PeriodClosed);

    let stmt = te.vault.get_billing_statement(sub_id, 0).unwrap();
    assert_eq!(stmt.subscription_id, sub_id);
    assert_eq!(stmt.period_index, 0);
    assert_eq!(stmt.total_amount_charged, 1_000_000);
    assert_eq!(stmt.finalized_by, BillingStatementFinalization::PeriodClosed);
    assert_eq!(stmt.subscriber, subscriber);
    assert_eq!(stmt.merchant, merchant);
    assert_eq!(stmt.token, te.token);
    assert_eq!(stmt.status_flags, STMT_FLAG_INTERVAL_CHARGED);
    assert_eq!(stmt.period_start_timestamp, T0);
    assert_eq!(stmt.period_end_timestamp, T0 + INTERVAL);
}

#[test]
fn test_billing_statement_not_found_returns_error() {
    let te = BillingTestEnv::new();
    let result = te.vault.get_billing_statement(99, 0);
    assert!(matches!(result, Err(Error::NotFound)));
}

#[test]
fn test_billing_statement_upsert_overwrites_same_period() {
    let mut te = BillingTestEnv::new();
    let subscriber = te.generate();
    let merchant = te.generate();
    let sub_id = te.make_subscription(&subscriber, &merchant);

    te.finalize(T0 + INTERVAL, sub_id, 0, &subscriber, &merchant, 1_000_000, BillingStatementFinalization::PeriodClosed);

    te.vault
        .finalize_billing_statement(
            te.admin,
            sub_id,
            0,
            subscriber,
            merchant,
            T0,
            T0 + INTERVAL,
            PeriodStatementAmounts {
                total_amount_charged: 2_000_000,
                total_usage_units: 0,
                protocol_fee_amount: 0,
                net_amount_to_merchant: 2_000_000,
                refund_amount: 0,
            },
            STMT_FLAG_INTERVAL_CHARGED | STMT_FLAG_CANCELLED,
            BillingStatementFinalization::Cancellation,
            T0 + INTERVAL,
        )
        .unwrap();

    let stmt = te.vault.get_billing_statement(sub_id, 0).unwrap();
    assert_eq!(stmt.total_amount_charged, 2_000_000, "overwrite applied");
    assert_eq!(stmt.finalized_by, BillingStatementFinalization::Cancellation);

    let page = te.vault.get_bill_stmts_by_sub(sub_id, 0, 10);
    assert_eq!(page.len(), 1, "no duplicate index entries after overwrite");
}

#[test]
fn test_bill_stmts_by_sub_pagination() {
    let mut te = BillingTestEnv::new();
    let subscriber = te.generate();
    let merchant = te.generate();
    let sub_id = te.make_subscription(&subscriber, &merchant);

    for p in 0u32..5 {
        let now = T0 + (p as u64 + 1) * INTERVAL;
        te.finalize(now, sub_id, p, &subscriber, &merchant, (p as i128 + 1) * 1_000_000, BillingStatementFinalization::PeriodClosed);
    }

    let all = te.vault.get_bill_stmts_by_sub(sub_id, 0, 10);
    assert_eq!(all.len(), 5);
    assert_eq!(all[0].period_index, 0);
    assert_eq!(all[4].period_index, 4);

    let p1 = te.vault.get_bill_stmts_by_sub(sub_id, 0, 2);
    assert_eq!(p1.len(), 2);
    assert_eq!(p1[0].period_index, 0);
    assert_eq!(p1[1].period_index, 1);

    let p2 = te.vault.get_bill_stmts_by_sub(sub_id, 3, 2);
    assert_eq!(p2.len(), 2);
    assert_eq!(p2[0].period_index, 3);
    assert_eq!(p2[1].period_index, 4);
}

#[test]
fn test_bill_stmts_by_sub_empty() {
    let mut te = BillingTestEnv::new();
    let subscriber = te.generate();
    let merchant = te.generate();
    let sub_id = te.make_subscription(&subscriber, &merchant);

    let page = te.vault.get_bill_stmts_by_sub(sub_id, 0, 10);
    assert_eq!(page.len(), 0, "no statements yet");
}

#[test]
fn test_bill_stmts_by_sub_start_beyond_range_returns_empty() {
    let mut te = BillingTestEnv::new();
    let subscriber = te.generate();
    let merchant = te.generate();
    let sub_id = te.make_subscription(&subscriber, &merchant);
    te.finalize(T0 + INTERVAL, sub_id, 0, &subscriber, &merchant, 1_000_000, BillingStatementFinalization::PeriodClosed);

    let page = te.vault.get_bill_stmts_by_sub(sub_id, 100, 10);
    assert_eq!(page.len(), 0);
}

#[test]
fn test_bill_stmts_by_sub_limit_zero_returns_empty() {
    let mut te = BillingTestEnv::new();
    let subscriber = te.generate();
    let merchant = te.generate();
    let sub_id = te.make_subscription(&subscriber, &merchant);
    te.finalize(T0 + INTERVAL, sub_id, 0, &subscriber, &merchant, 1_000_000, BillingStatementFinalization::PeriodClosed);

    let page = te.vault.get_bill_stmts_by_sub(sub_id, 0, 0);
    assert_eq!(page.len(), 0);
}

#[test]
fn test_bill_stmts_by_merch_rng_basic_filter() {
    let mut te = BillingTestEnv::new();
    let subscriber = te.generate();
    let merchant = te.generate();
    let sub_id = te.make_subscription(&subscriber, &merchant);

    for p in 0u32..3 {
        let now = T0 + (p as u64 + 1) * INTERVAL;
        te.finalize(now, sub_id, p, &subscriber, &merchant, 1_000_000, BillingStatementFinalization::PeriodClosed);
    }

    let mid_end = T0 + 2 * INTERVAL;
    let results = te.vault.get_bill_stmts_by_merch_rng(merchant, mid_end, mid_end, 0, 10);
    assert_eq!(results.len(), 1, "only period 1 matches");
    assert_eq!(results[0].period_index, 1);
}

#[test]
fn test_bill_stmts_by_merch_rng_all_periods() {
    let mut te = BillingTestEnv::new();
    let subscriber = te.generate();
    let merchant = te.generate();
    let sub_id = te.make_subscription(&subscriber, &merchant);

    for p in 0u32..4 {
        let now = T0 + (p as u64 + 1) * INTERVAL;
        te.finalize(now, sub_id, p, &subscriber, &merchant, 1_000_000, BillingStatementFinalization::PeriodClosed);
    }

    let all = te.vault.get_bill_stmts_by_merch_rng(merchant, 0, u64::MAX, 0, 10);
    assert_eq!(all.len(), 4);
}

#[test]
fn test_bill_stmts_by_merch_rng_no_match_returns_empty() {
    let mut te = BillingTestEnv::new();
    let subscriber = te.generate();
    let merchant = te.generate();
    let sub_id = te.make_subscription(&subscriber, &merchant);
    te.finalize(T0 + INTERVAL, sub_id, 0, &subscriber, &merchant, 1_000_000, BillingStatementFinalization::PeriodClosed);

    let future = T0 + 100 * INTERVAL;
    let results = te.vault.get_bill_stmts_by_merch_rng(merchant, future, future + INTERVAL, 0, 10);
    assert_eq!(results.len(), 0);
}

#[test]
fn test_bill_stmts_by_merch_rng_pagination_within_range() {
    let mut te = BillingTestEnv::new();
    let subscriber = te.generate();
    let merchant = te.generate();
    let sub_id = te.make_subscription(&subscriber, &merchant);

    for p in 0u32..6 {
        let now = T0 + (p as u64 + 1) * INTERVAL;
        te.finalize(now, sub_id, p, &subscriber, &merchant, 1_000_000, BillingStatementFinalization::PeriodClosed);
    }

    let page1 = te.vault.get_bill_stmts_by_merch_rng(merchant, 0, u64::MAX, 0, 3);
    let page2 = te.vault.get_bill_stmts_by_merch_rng(merchant, 0, u64::MAX, 3, 3);
    assert_eq!(page1.len(), 3);
    assert_eq!(page2.len(), 3);
    assert_ne!(page1[0].period_index, page2[0].period_index, "pages are disjoint");
}

#[test]
fn test_billing_statements_isolated_by_subscription() {
    let mut te = BillingTestEnv::new();
    let merchant = te.generate();
    let sub_a = te.generate();
    let sub_b = te.generate();
    let id_a = te.make_subscription(&sub_a, &merchant);
    let id_b = te.make_subscription(&sub_b, &merchant);

    te.finalize(T0 + INTERVAL, id_a, 0, &sub_a, &merchant, 1_000_000, BillingStatementFinalization::PeriodClosed);
    te.finalize(T0 + 2 * INTERVAL, id_a, 1, &sub_a, &merchant, 2_000_000, BillingStatementFinalization::PeriodClosed);
    te.finalize(T0 + INTERVAL, id_b, 0, &sub_b, &merchant, 3_000_000, BillingStatementFinalization::Cancellation);

    let a_stmts = te.vault.get_bill_stmts_by_sub(id_a, 0, 10);
    assert_eq!(a_stmts.len(), 2, "subscription A has 2 periods");

    let b_stmts = te.vault.get_bill_stmts_by_sub(id_b, 0, 10);
    assert_eq!(b_stmts.len(), 1, "subscription B has 1 period");
    assert_eq!(b_stmts[0].total_amount_charged, 3_000_000);
}

#[test]
fn test_billing_statements_isolated_by_merchant() {
    let mut te = BillingTestEnv::new();
    let subscriber = te.generate();
    let merchant_a = te.generate();
    let merchant_b = te.generate();
    let id_a = te.make_subscription(&subscriber, &merchant_a);
    let id_b = te.make_subscription(&subscriber, &merchant_b);

    te.finalize(T0 + INTERVAL, id_a, 0, &subscriber, &merchant_a, 1_000_000, BillingStatementFinalization::PeriodClosed);
    te.finalize(T0 + INTERVAL, id_b, 0, &subscriber, &merchant_b, 2_000_000, BillingStatementFinalization::PeriodClosed);

    let a_range = te.vault.get_bill_stmts_by_merch_rng(merchant_a, 0, u64::MAX, 0, 10);
    assert_eq!(a_range.len(), 1);
    assert_eq!(a_range[0].total_amount_charged, 1_000_000);

    let b_range = te.vault.get_bill_stmts_by_merch_rng(merchant_b, 0, u64::MAX, 0, 10);
    assert_eq!(b_range.len(), 1);
    assert_eq!(b_range[0].total_amount_charged, 2_000_000);
}

#[test]
fn test_finalize_billing_statement_requires_admin() {
    let mut te = BillingTestEnv::new();
    let subscriber = te.generate();
    let merchant = te.generate();
    let sub_id = te.make_subscription(&subscriber, &merchant);
    let stranger = te.generate();

    let result = te.vault.finalize_billing_statement(
        stranger,
        sub_id,
        0,
        subscriber,
        merchant,
        T0,
        T0 + INTERVAL,
        PeriodStatementAmounts {
            total_amount_charged: 1_000_000,
            total_usage_units: 0,
            protocol_fee_amount: 0,
            net_amount_to_merchant: 1_000_000,
            refund_amount: 0,
        },
        STMT_FLAG_INTERVAL_CHARGED,
        BillingStatementFinalization::PeriodClosed,
        T0 + INTERVAL,
    );
    assert!(matches!(result, Err(Error::Unauthorized)), "stranger must be rejected");
}

#[test]
fn test_billing_statement_cancellation_mode() {
    let mut te = BillingTestEnv::new();
    let subscriber = te.generate();
    let merchant = te.generate();
    let sub_id = te.make_subscription(&subscriber, &merchant);

    te.finalize(T0 + INTERVAL, sub_id, 0, &subscriber, &merchant, 1_000_000, BillingStatementFinalization::Cancellation);

    let stmt = te.vault.get_billing_statement(sub_id, 0).unwrap();
    assert_eq!(stmt.finalized_by, BillingStatementFinalization::Cancellation);
}

#[test]
fn test_billing_statement_final_settlement_mode() {
    let mut te = BillingTestEnv::new();
    let subscriber = te.generate();
    let merchant = te.generate();
    let sub_id = te.make_subscription(&subscriber, &merchant);

    te.vault
        .finalize_billing_statement(
            te.admin,
            sub_id,
            0,
            subscriber,
            merchant,
            T0,
            T0 + INTERVAL,
            PeriodStatementAmounts {
                total_amount_charged: 0,
                total_usage_units: 0,
                protocol_fee_amount: 0,
                net_amount_to_merchant: 0,
                refund_amount: 500_000,
            },
            STMT_FLAG_SETTLED | STMT_FLAG_CANCELLED,
            BillingStatementFinalization::FinalSettlement,
            T0 + INTERVAL,
        )
        .unwrap();

    let stmt = te.vault.get_billing_statement(sub_id, 0).unwrap();
    assert_eq!(stmt.finalized_by, BillingStatementFinalization::FinalSettlement);
    assert_eq!(stmt.refund_amount, 500_000);
    assert_ne!(stmt.status_flags & STMT_FLAG_SETTLED, 0);
    assert_ne!(stmt.status_flags & STMT_FLAG_CANCELLED, 0);
}

#[test]
fn test_status_flags_round_trip() {
    let mut te = BillingTestEnv::new();
    let subscriber = te.generate();
    let merchant = te.generate();
    let sub_id = te.make_subscription(&subscriber, &merchant);

    let flags = STMT_FLAG_INTERVAL_CHARGED | STMT_FLAG_USAGE_CHARGED | STMT_FLAG_ONEOFF_CHARGED;
    te.vault
        .finalize_billing_statement(
            te.admin,
            sub_id,
            0,
            subscriber,
            merchant,
            T0,
            T0 + INTERVAL,
            PeriodStatementAmounts {
                total_amount_charged: 3_000_000,
                total_usage_units: 100,
                protocol_fee_amount: 0,
                net_amount_to_merchant: 3_000_000,
                refund_amount: 0,
            },
            flags,
            BillingStatementFinalization::PeriodClosed,
            T0 + INTERVAL,
        )
        .unwrap();

    let stmt = te.vault.get_billing_statement(sub_id, 0).unwrap();
    assert_eq!(stmt.status_flags, flags);
    assert_ne!(stmt.status_flags & STMT_FLAG_INTERVAL_CHARGED, 0);
    assert_ne!(stmt.status_flags & STMT_FLAG_USAGE_CHARGED, 0);
    assert_ne!(stmt.status_flags & STMT_FLAG_ONEOFF_CHARGED, 0);
    assert_eq!(stmt.status_flags & STMT_FLAG_CANCELLED, 0);
    assert_eq!(stmt.total_usage_units, 100);
}

#[test]
fn test_period_statements_coexist_with_charge_audit_log() {
    let mut te = BillingTestEnv::new();
    let subscriber = te.generate();
    let merchant = te.generate();

    let sub_id = te.make_subscription(&subscriber, &merchant);
    te.vault.deposit_funds(sub_id, subscriber, 10_000_000, T0).unwrap();

    te.vault.charge_subscription(sub_id, T0 + INTERVAL + 1).unwrap();

    te.finalize(T0 + INTERVAL + 2, sub_id, 0, &subscriber, &merchant, 1_000_000, BillingStatementFinalization::PeriodClosed);

    let charge_rows = te.vault.get_sub_statements_offset(sub_id, 0, 10, false);
    assert_eq!(charge_rows.statements.len(), 1, "one per-charge row");
    assert_eq!(charge_rows.statements[0].amount, 1_000_000);

    let period_stmt = te.vault.get_billing_statement(sub_id, 0).unwrap();
    assert_eq!(period_stmt.total_amount_charged, 1_000_000);
}

#[test]
fn test_compaction_does_not_remove_period_statements() {
    let mut te = BillingTestEnv::new();
    let subscriber = te.generate();
    let merchant = te.generate();

    let sub_id = te.make_subscription(&subscriber, &merchant);
    te.vault.deposit_funds(sub_id, subscriber, 50_000_000, T0).unwrap();

    for i in 1u64..=5 {
        te.vault.charge_subscription(sub_id, T0 + i * INTERVAL + 1).unwrap();
    }

    for p in 0u32..5 {
        let now = T0 + (p as u64 + 1) * INTERVAL + 2;
        te.finalize(now, sub_id, p, &subscriber, &merchant, 1_000_000, BillingStatementFinalization::PeriodClosed);
    }

    te.vault.compact_billing_statements(te.admin, sub_id, Some(2u32)).unwrap();

    let charge_page = te.vault.get_sub_statements_offset(sub_id, 0, 10, false);
    assert_eq!(charge_page.statements.len(), 2);

    let period_page = te.vault.get_bill_stmts_by_sub(sub_id, 0, 10);
    assert_eq!(period_page.len(), 5, "compaction does not touch period statements");
}

#[test]
fn test_period_statement_high_volume_full_walk() {
    let mut te = BillingTestEnv::new();
    let subscriber = te.generate();
    let merchant = te.generate();
    let sub_id = te.make_subscription(&subscriber, &merchant);

    let total_periods = 20u32;
    for p in 0..total_periods {
        let now = T0 + (p as u64 + 1) * INTERVAL;
        te.finalize(now, sub_id, p, &subscriber, &merchant, 1_000_000, BillingStatementFinalization::PeriodClosed);
    }

    let page_size = 7u32;
    let mut cursor = 0u32;
    let mut seen = Vec::new();
    loop {
        let page = te.vault.get_bill_stmts_by_sub(sub_id, cursor, page_size);
        if page.len() == 0 {
            break;
        }
        for stmt in page.iter() {
            seen.push(stmt.period_index);
        }
        cursor += page.len() as u32;
    }

    assert_eq!(seen.len(), total_periods as usize, "all {} periods recovered", total_periods);
    for expected in 0..total_periods {
        assert!(seen.contains(&expected), "period {} present", expected);
    }
}

#[test]
fn test_period_statement_amounts_match_charge_audit_row() {
    let mut te = BillingTestEnv::new();
    let subscriber = te.generate();
    let merchant = te.generate();

    let sub_id = te.make_subscription(&subscriber, &merchant);
    te.vault.deposit_funds(sub_id, subscriber, 20_000_000, T0).unwrap();

    te.vault.charge_subscription(sub_id, T0 + INTERVAL + 1).unwrap();

    let charge_row = te.vault.get_sub_statements_offset(sub_id, 0, 1, false);
    let charge_amount = charge_row.statements[0].amount;

    te.finalize(T0 + INTERVAL + 2, sub_id, 0, &subscriber, &merchant, charge_amount, BillingStatementFinalization::PeriodClosed);

    let stmt = te.vault.get_billing_statement(sub_id, 0).unwrap();
    assert_eq!(stmt.total_amount_charged, charge_amount, "period amount matches charge row");
    assert_eq!(stmt.net_amount_to_merchant, charge_amount, "net matches (no fee)");
}

#[test]
fn test_period_statement_fee_amounts_preserved() {
    let mut te = BillingTestEnv::new();
    let subscriber = te.generate();
    let merchant = te.generate();
    let sub_id = te.make_subscription(&subscriber, &merchant);

    let total_charged = 10_000_000i128;
    let fee = 500_000i128;
    te.vault
        .finalize_billing_statement(
            te.admin,
            sub_id,
            0,
            subscriber,
            merchant,
            T0,
            T0 + INTERVAL,
            PeriodStatementAmounts {
                total_amount_charged: total_charged,
                total_usage_units: 0,
                protocol_fee_amount: fee,
                net_amount_to_merchant: total_charged - fee,
                refund_amount: 0,
            },
            STMT_FLAG_INTERVAL_CHARGED,
            BillingStatementFinalization::PeriodClosed,
            T0 + INTERVAL,
        )
        .unwrap();

    let stmt = te.vault.get_billing_statement(sub_id, 0).unwrap();
    assert_eq!(stmt.total_amount_charged, total_charged);
    assert_eq!(stmt.protocol_fee_amount, fee);
    assert_eq!(stmt.net_amount_to_merchant, total_charged - fee);
}
