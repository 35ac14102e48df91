use dpl::session::{
    charger_session_ix, same_key, Charger, ChargerSession, Leg, SessionRun, SettlementConfig,
    SettlementError, Stage, TransferOrder,
};
use dpl::split::{checked_scale, split_amount, SplitPlan};

const PAYMENT: [u8; 32] = [7; 32];
const REWARD: [u8; 32] = [9; 32];

fn config(rate: u64) -> SettlementConfig {
    SettlementConfig { payment_currency: PAYMENT, reward_currency: REWARD, conversion_rate: rate }
}

fn session(decimals: u8, reward_decimals: u8, balance: u64) -> ChargerSession {
    ChargerSession {
        mint: PAYMENT,
        mint_decimals: decimals,
        bonk_mint: REWARD,
        bonk_mint_decimals: reward_decimals,
        user_balance: balance,
    }
}

/// Drives a run against a ledger that answers each transfer from `answers`;
/// returns the orders issued and the final outcome.
fn drive(
    run: &mut SessionRun,
    charger: &mut Charger,
    answers: &[bool],
) -> (Vec<TransferOrder>, Result<(), SettlementError>) {
    let mut issued = Vec::new();
    let mut next = run.pending();
    let mut i = 0;
    while let Some(order) = next {
        issued.push(order);
        match run.record_transfer(answers[i], charger) {
            Ok(n) => next = n,
            Err(e) => return (issued, Err(e)),
        }
        i += 1;
    }
    (issued, Ok(()))
}

#[test]
fn thousand_units_split_and_settle() {
    let mut run = charger_session_ix(&config(25), &session(0, 5, 5000), 1000).unwrap();
    assert_eq!(
        run.plan,
        SplitPlan { operator_share: 300, royalty_share: 700, reward_share: 400_000_000_000 }
    );
    let mut charger = Charger { all_time_revenue: 42 };
    let (issued, outcome) = drive(&mut run, &mut charger, &[true, true, true]);
    assert_eq!(outcome, Ok(()));
    assert_eq!(
        issued,
        vec![
            TransferOrder { leg: Leg::Operator, amount: 300, decimals: 0 },
            TransferOrder { leg: Leg::Royalty, amount: 700, decimals: 0 },
            TransferOrder { leg: Leg::Reward, amount: 400_000_000_000, decimals: 5 },
        ]
    );
    assert_eq!(charger.all_time_revenue, 1042);
    assert_eq!(run.stage, Stage::Settled);
}

#[test]
fn royalty_transfer_failure_keeps_counter() {
    let mut run = charger_session_ix(&config(25), &session(0, 0, 5000), 1000).unwrap();
    let mut charger = Charger { all_time_revenue: 10 };
    let (issued, outcome) = drive(&mut run, &mut charger, &[true, false, true]);
    assert_eq!(outcome, Err(SettlementError::TransferFailed(Leg::Royalty)));
    assert_eq!(issued.len(), 2);
    assert_eq!(charger.all_time_revenue, 10);
    assert_eq!(run.stage, Stage::Aborted(SettlementError::TransferFailed(Leg::Royalty)));
    // an ended run issues nothing more and stays as it is
    assert_eq!(run.pending(), None);
    assert_eq!(
        run.record_transfer(true, &mut charger),
        Err(SettlementError::TransferFailed(Leg::Royalty))
    );
    assert_eq!(charger.all_time_revenue, 10);
}

#[test]
fn operator_and_reward_failures_name_their_leg() {
    let mut run = charger_session_ix(&config(25), &session(0, 0, 5000), 1000).unwrap();
    let mut charger = Charger { all_time_revenue: 0 };
    let (issued, outcome) = drive(&mut run, &mut charger, &[false]);
    assert_eq!(issued.len(), 1);
    assert_eq!(outcome, Err(SettlementError::TransferFailed(Leg::Operator)));

    let mut run = charger_session_ix(&config(25), &session(0, 0, 5000), 1000).unwrap();
    let (issued, outcome) = drive(&mut run, &mut charger, &[true, true, false]);
    assert_eq!(issued.len(), 3);
    assert_eq!(outcome, Err(SettlementError::TransferFailed(Leg::Reward)));
    assert_eq!(charger.all_time_revenue, 0);
}

#[test]
fn wrong_payment_currency_is_rejected() {
    let mut s = session(0, 0, 5000);
    s.mint[31] = 0;
    assert_eq!(
        charger_session_ix(&config(25), &s, 1000),
        Err(SettlementError::InvalidCurrency)
    );
}

#[test]
fn wrong_reward_currency_is_rejected() {
    let mut s = session(0, 0, 5000);
    s.bonk_mint = PAYMENT;
    assert_eq!(
        charger_session_ix(&config(25), &s, 1000),
        Err(SettlementError::InvalidCurrency)
    );
}

#[test]
fn currency_is_checked_before_amount() {
    let mut s = session(0, 0, 0);
    s.mint = REWARD;
    assert_eq!(charger_session_ix(&config(25), &s, 0), Err(SettlementError::InvalidCurrency));
}

#[test]
fn zero_amount_is_rejected() {
    assert_eq!(
        charger_session_ix(&config(25), &session(0, 0, 5000), 0),
        Err(SettlementError::InvalidAmount)
    );
}

#[test]
fn insufficient_balance_is_rejected() {
    assert_eq!(
        charger_session_ix(&config(25), &session(0, 0, 999), 1000),
        Err(SettlementError::InvalidAmount)
    );
}

#[test]
fn balance_equal_to_amount_is_enough() {
    assert!(charger_session_ix(&config(25), &session(0, 0, 1000), 1000).is_ok());
}

#[test]
fn shares_are_truncated_before_scaling() {
    // 30% of 1001 is 300.3 -> 300, 70% is 700.7 -> 700; then scaled by 10
    let plan = split_amount(1001, 1, 0, 25).unwrap();
    assert_eq!(plan.operator_share, 3000);
    assert_eq!(plan.royalty_share, 7000);
    // 7: 30% = 2.1 -> 2, 70% = 4.9 -> 4; one unit is lost
    let plan = split_amount(7, 0, 0, 25).unwrap();
    assert_eq!((plan.operator_share, plan.royalty_share), (2, 4));
    assert_eq!(plan.reward_share, 0);
    // 1 at one decimal: both shares round down to nothing
    let plan = split_amount(1, 1, 0, 25).unwrap();
    assert_eq!((plan.operator_share, plan.royalty_share), (0, 0));
    // 5 at six decimals: 1.5 -> 1 and 3.5 -> 3 whole units
    let plan = split_amount(5, 6, 0, 25).unwrap();
    assert_eq!((plan.operator_share, plan.royalty_share), (1_000_000, 3_000_000));
}

#[test]
fn same_currency_shares_stay_within_one_unit() {
    for amount in 1..200u64 {
        for decimals in 0..3u8 {
            let plan = split_amount(amount, decimals, 0, 3).unwrap();
            let unit = 10u64.pow(decimals as u32);
            let total = amount * unit;
            let sum = plan.operator_share + plan.royalty_share;
            assert!(sum <= total);
            if amount % 10 == 0 {
                assert_eq!(sum, total);
            } else {
                assert_eq!(total - sum, unit);
            }
        }
    }
}

#[test]
fn reward_share_truncates_blocks() {
    // 10% of 1000 is 100; at 30 per block that is 3 blocks
    let plan = split_amount(1000, 0, 2, 30).unwrap();
    assert_eq!(plan.reward_share, 300_000_000);
}

#[test]
fn oversized_share_is_rejected() {
    assert_eq!(
        charger_session_ix(&config(25), &session(19, 0, u64::MAX), 10),
        Err(SettlementError::AmountOverflow)
    );
    assert_eq!(
        charger_session_ix(&config(1), &session(0, 19, u64::MAX), 1000),
        Err(SettlementError::AmountOverflow)
    );
    assert_eq!(split_amount(u64::MAX, 1, 0, 1), None);
    // the operator's 9 * 10^18 fits, the royalty's 21 * 10^18 does not
    assert_eq!(split_amount(30, 18, 0, 25), None);
    assert!(split_amount(10, 18, 0, 25).is_some());
}

#[test]
fn counter_overflow_aborts() {
    let mut run = charger_session_ix(&config(25), &session(0, 0, 5000), 1000).unwrap();
    let mut charger = Charger { all_time_revenue: u64::MAX - 999 };
    let (issued, outcome) = drive(&mut run, &mut charger, &[true, true, true]);
    assert_eq!(issued.len(), 3);
    assert_eq!(outcome, Err(SettlementError::CounterOverflow));
    assert_eq!(charger.all_time_revenue, u64::MAX - 999);
}

#[test]
fn counter_reaches_its_maximum() {
    let mut run = charger_session_ix(&config(25), &session(0, 0, 5000), 1000).unwrap();
    let mut charger = Charger { all_time_revenue: u64::MAX - 1000 };
    let (_, outcome) = drive(&mut run, &mut charger, &[true, true, true]);
    assert_eq!(outcome, Ok(()));
    assert_eq!(charger.all_time_revenue, u64::MAX);
}

#[test]
fn revenue_accumulates_full_amounts() {
    let mut charger = Charger { all_time_revenue: 0 };
    for amount in [7u64, 1000, 1001] {
        let mut run = charger_session_ix(&config(25), &session(0, 0, 5000), amount).unwrap();
        let (_, outcome) = drive(&mut run, &mut charger, &[true, true, true]);
        assert_eq!(outcome, Ok(()));
    }
    assert_eq!(charger.all_time_revenue, 2008);
}

#[test]
fn scaling_edges() {
    assert_eq!(checked_scale(0, 255), Some(0));
    assert_eq!(checked_scale(3, 0), Some(3));
    assert_eq!(checked_scale(1, 19), Some(10_000_000_000_000_000_000));
    assert_eq!(checked_scale(1, 20), None);
    assert_eq!(checked_scale(2, 19), None);
}

#[test]
fn keys_compare_bytewise() {
    let mut other = PAYMENT;
    assert!(same_key(&PAYMENT, &other));
    other[0] = 8;
    assert!(!same_key(&PAYMENT, &other));
}
