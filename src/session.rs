//! One settlement as a sequence of steps: validation, three transfers in a fixed
//! order, then the station's revenue counter. The transfers themselves are made
//! by the caller, who reports each outcome back.
use vstd::prelude::*;

use crate::split::{
    lemma_split_conserves, plan_of, pow10, scaled, shares_fit, split_amount, SplitPlan,
};

verus! {

/// A 32-byte account key (a currency's mint, for instance).
pub type Key = [u8; 32];

/// The fixed values that a settlement is checked and computed against.
#[derive(Clone, Copy, Debug)]
pub struct SettlementConfig {
    /// The only currency a session may be paid in.
    pub payment_currency: Key,
    /// The only currency rewards are paid in.
    pub reward_currency: Key,
    /// Price, in payment-currency units, of one block of reward-currency units.
    pub conversion_rate: u64,
}

impl SettlementConfig {
    pub open spec fn wf(&self) -> bool {
        self.conversion_rate > 0
    }
}

/// What a settlement reads of the accounts it is handed.
#[derive(Clone, Copy, Debug)]
pub struct ChargerSession {
    /// The currency the payer spends.
    pub mint: Key,
    /// Decimals of the payment currency.
    pub mint_decimals: u8,
    /// The currency the reward is paid in.
    pub bonk_mint: Key,
    /// Decimals of the reward currency.
    pub bonk_mint_decimals: u8,
    /// The payer's balance in the payment currency.
    pub user_balance: u64,
}

/// A station's running revenue record.
#[derive(Clone, Copy, Debug, PartialEq, Eq, Structural)]
pub struct Charger {
    pub all_time_revenue: u64,
}

/// The three transfers of a settlement.
#[derive(Clone, Copy, Debug, PartialEq, Eq, Structural)]
pub enum Leg {
    /// Payment currency, payer to operator.
    Operator,
    /// Payment currency, payer to royalty recipient.
    Royalty,
    /// Reward currency, reward pool to reward recipient.
    Reward,
}

/// Why a settlement failed.
#[derive(Clone, Copy, Debug, PartialEq, Eq, Structural)]
pub enum SettlementError {
    /// A currency is not the configured one.
    InvalidCurrency,
    /// The amount is zero, or the payer's balance is below it.
    InvalidAmount,
    /// A share, scaled to smallest units, does not fit in a transfer amount.
    AmountOverflow,
    /// The ledger rejected the transfer of this leg.
    TransferFailed(Leg),
    /// The station's revenue counter would exceed its range.
    CounterOverflow,
}

/// One transfer that the caller is to make.
#[derive(Clone, Copy, Debug, PartialEq, Eq, Structural)]
pub struct TransferOrder {
    pub leg: Leg,
    /// In smallest units of the leg's currency.
    pub amount: u64,
    /// Decimals of the leg's currency.
    pub decimals: u8,
}

/// Where a settlement stands.
#[derive(Clone, Copy, Debug, PartialEq, Eq, Structural)]
pub enum Stage {
    /// The transfer of this leg is out; its outcome is awaited.
    Awaiting(Leg),
    /// All three transfers went through and the counter was advanced.
    Settled,
    /// The settlement stopped with this error.
    Aborted(SettlementError),
}

/// A settlement that passed validation.
#[derive(Clone, Copy, Debug, PartialEq, Eq, Structural)]
pub struct SessionRun {
    /// The full, unsplit amount paid.
    pub amount: u64,
    pub plan: SplitPlan,
    pub decimals: u8,
    pub reward_decimals: u8,
    pub stage: Stage,
}

/// How a settlement of `amount` starts, in the model: the first failed check in
/// order, or the plan of its three transfers.
pub open spec fn session_start(
    config: SettlementConfig,
    session: ChargerSession,
    amount: u64,
) -> Result<SplitPlan, SettlementError> {
    if session.mint@ != config.payment_currency@ {
        Err(SettlementError::InvalidCurrency)
    } else if session.bonk_mint@ != config.reward_currency@ {
        Err(SettlementError::InvalidCurrency)
    } else if amount == 0 {
        Err(SettlementError::InvalidAmount)
    } else if session.user_balance < amount {
        Err(SettlementError::InvalidAmount)
    } else if !shares_fit(
        amount as nat,
        session.mint_decimals as nat,
        session.bonk_mint_decimals as nat,
        config.conversion_rate as nat,
    ) {
        Err(SettlementError::AmountOverflow)
    } else {
        Ok(
            plan_of(
                amount as nat,
                session.mint_decimals as nat,
                session.bonk_mint_decimals as nat,
                config.conversion_rate as nat,
            ),
        )
    }
}

impl SessionRun {
    /// The transfer order of `leg` under this run's plan.
    pub open spec fn order_of(&self, leg: Leg) -> TransferOrder {
        match leg {
            Leg::Operator => TransferOrder {
                leg,
                amount: self.plan.operator_share,
                decimals: self.decimals,
            },
            Leg::Royalty => TransferOrder {
                leg,
                amount: self.plan.royalty_share,
                decimals: self.decimals,
            },
            Leg::Reward => TransferOrder {
                leg,
                amount: self.plan.reward_share,
                decimals: self.reward_decimals,
            },
        }
    }

    /// The transfer whose outcome this run awaits, if any.
    pub open spec fn pending_spec(&self) -> Option<TransferOrder> {
        match self.stage {
            Stage::Awaiting(leg) => Some(self.order_of(leg)),
            _ => None,
        }
    }
}

/// The leg that follows `leg`, if any.
pub open spec fn next_leg(leg: Leg) -> Option<Leg> {
    match leg {
        Leg::Operator => Some(Leg::Royalty),
        Leg::Royalty => Some(Leg::Reward),
        Leg::Reward => None,
    }
}

/// One step of a run, in the model: the run and the station record after the
/// outcome of the awaited transfer is reported, and what the caller is told:
/// the next transfer to make, `None` once the run has settled, or the error
/// that stopped it. A run that has ended stays as it is.
pub open spec fn advance(run: SessionRun, accepted: bool, charger: Charger) -> (
    SessionRun,
    Charger,
    Result<Option<TransferOrder>, SettlementError>,
) {
    match run.stage {
        Stage::Awaiting(leg) => {
            if !accepted {
                let e = SettlementError::TransferFailed(leg);
                (SessionRun { stage: Stage::Aborted(e), ..run }, charger, Err(e))
            } else {
                match next_leg(leg) {
                    Some(n) => (
                        SessionRun { stage: Stage::Awaiting(n), ..run },
                        charger,
                        Ok(Some(run.order_of(n))),
                    ),
                    None => {
                        if charger.all_time_revenue + run.amount <= u64::MAX {
                            (
                                SessionRun { stage: Stage::Settled, ..run },
                                Charger {
                                    all_time_revenue: (charger.all_time_revenue
                                        + run.amount) as u64,
                                },
                                Ok(None),
                            )
                        } else {
                            let e = SettlementError::CounterOverflow;
                            (SessionRun { stage: Stage::Aborted(e), ..run }, charger, Err(e))
                        }
                    },
                }
            }
        },
        Stage::Settled => (run, charger, Ok(None)),
        Stage::Aborted(e) => (run, charger, Err(e)),
    }
}

/// Validates a settlement of `amount` and plans its three transfers. On success
/// the run awaits the operator's transfer, which `pending` then gives; on
/// failure nothing is to be transferred.
pub fn charger_session_ix(config: &SettlementConfig, session: &ChargerSession, amount: u64) -> (r:
    Result<SessionRun, SettlementError>)
    requires
        config.wf(),
    ensures
        r == (match session_start(*config, *session, amount) {
            Ok(plan) => Ok(
                SessionRun {
                    amount,
                    plan,
                    decimals: session.mint_decimals,
                    reward_decimals: session.bonk_mint_decimals,
                    stage: Stage::Awaiting(Leg::Operator),
                },
            ),
            Err(e) => Err(e),
        }),
{
    if !same_key(&session.mint, &config.payment_currency) {
        return Err(SettlementError::InvalidCurrency);
    }
    if !same_key(&session.bonk_mint, &config.reward_currency) {
        return Err(SettlementError::InvalidCurrency);
    }
    if amount == 0 {
        return Err(SettlementError::InvalidAmount);
    }
    if session.user_balance < amount {
        return Err(SettlementError::InvalidAmount);
    }
    match split_amount(
        amount,
        session.mint_decimals,
        session.bonk_mint_decimals,
        config.conversion_rate,
    ) {
        Some(plan) => Ok(
            SessionRun {
                amount,
                plan,
                decimals: session.mint_decimals,
                reward_decimals: session.bonk_mint_decimals,
                stage: Stage::Awaiting(Leg::Operator),
            },
        ),
        None => Err(SettlementError::AmountOverflow),
    }
}

/// Whether two account keys are the same key.
pub fn same_key(a: &Key, b: &Key) -> (r: bool)
    ensures
        r == (a@ == b@),
{
    let mut i: usize = 0;
    while i < 32
        invariant
            0 <= i <= 32,
            forall|j: int| 0 <= j < i ==> a@[j] == b@[j],
        decreases 32 - i,
    {
        if a[i] != b[i] {
            assert(a@[i as int] != b@[i as int]);
            return false;
        }
        i += 1;
    }
    assert(a@ =~= b@);
    true
}

impl SessionRun {
    /// The transfer order of `leg` under this run's plan.
    pub fn order(&self, leg: Leg) -> (r: TransferOrder)
        ensures
            r == self.order_of(leg),
    {
        match leg {
            Leg::Operator => TransferOrder {
                leg,
                amount: self.plan.operator_share,
                decimals: self.decimals,
            },
            Leg::Royalty => TransferOrder {
                leg,
                amount: self.plan.royalty_share,
                decimals: self.decimals,
            },
            Leg::Reward => TransferOrder {
                leg,
                amount: self.plan.reward_share,
                decimals: self.reward_decimals,
            },
        }
    }

    /// The transfer whose outcome this run awaits, if any.
    pub fn pending(&self) -> (r: Option<TransferOrder>)
        ensures
            r == self.pending_spec(),
    {
        match self.stage {
            Stage::Awaiting(leg) => Some(self.order(leg)),
            _ => None,
        }
    }

    /// Reports whether the awaited transfer went through, and moves the run on.
    /// A rejected transfer aborts the run; after the reward transfer the
    /// station's counter grows by the full amount, unless it would overflow.
    pub fn record_transfer(&mut self, accepted: bool, charger: &mut Charger) -> (r: Result<
        Option<TransferOrder>,
        SettlementError,
    >)
        ensures
            (*final(self), *final(charger), r) == advance(*old(self), accepted, *old(charger)),
    {
        match self.stage {
            Stage::Awaiting(leg) => {
                if !accepted {
                    let e = SettlementError::TransferFailed(leg);
                    self.stage = Stage::Aborted(e);
                    return Err(e);
                }
                match leg {
                    Leg::Operator => {
                        self.stage = Stage::Awaiting(Leg::Royalty);
                        Ok(Some(self.order(Leg::Royalty)))
                    },
                    Leg::Royalty => {
                        self.stage = Stage::Awaiting(Leg::Reward);
                        Ok(Some(self.order(Leg::Reward)))
                    },
                    Leg::Reward => match charger.all_time_revenue.checked_add(self.amount) {
                        Some(total) => {
                            charger.all_time_revenue = total;
                            self.stage = Stage::Settled;
                            Ok(None)
                        },
                        None => {
                            let e = SettlementError::CounterOverflow;
                            self.stage = Stage::Aborted(e);
                            Err(e)
                        },
                    },
                }
            },
            Stage::Settled => Ok(None),
            Stage::Aborted(e) => Err(e),
        }
    }
}

/// The two payment-currency transfers of a settlement that starts never carry
/// more than the scaled amount, fall short of it by at most one whole unit, and
/// carry all of it when the amount is a multiple of ten.
pub proof fn lemma_start_conserves(config: SettlementConfig, session: ChargerSession, amount: u64)
    requires
        config.wf(),
        session_start(config, session, amount) is Ok,
    ensures
        ({
            let plan = session_start(config, session, amount)->Ok_0;
            let total = scaled(amount as nat, session.mint_decimals as nat);
            let unit = pow10(session.mint_decimals as nat);
            &&& plan.operator_share + plan.royalty_share <= total
            &&& total <= plan.operator_share + plan.royalty_share + unit
            &&& amount % 10 == 0 ==> plan.operator_share + plan.royalty_share == total
        }),
{
    lemma_split_conserves(amount as nat, session.mint_decimals as nat);
}

/// A step of a run leaves the station's counter as it was, except the step that
/// settles the run, which adds exactly the full amount paid.
pub proof fn lemma_revenue_step(run: SessionRun, accepted: bool, charger: Charger)
    ensures
        ({
            let (next, after, _) = advance(run, accepted, charger);
            if run.stage is Awaiting && next.stage == Stage::Settled {
                after.all_time_revenue == charger.all_time_revenue + run.amount
            } else {
                after == charger
            }
        }),
{
}

/// A settlement paid in another currency than the configured one fails with
/// `InvalidCurrency`, before any transfer.
pub proof fn lemma_wrong_currency_rejected(
    config: SettlementConfig,
    session: ChargerSession,
    amount: u64,
)
    requires
        session.mint@ != config.payment_currency@,
    ensures
        session_start(config, session, amount) == Err::<SplitPlan, SettlementError>(
            SettlementError::InvalidCurrency,
        ),
{
}

/// A settlement of nothing, in the configured currencies, fails with
/// `InvalidAmount`, before any transfer.
pub proof fn lemma_zero_amount_rejected(config: SettlementConfig, session: ChargerSession)
    requires
        session.mint@ == config.payment_currency@,
        session.bonk_mint@ == config.reward_currency@,
    ensures
        session_start(config, session, 0) == Err::<SplitPlan, SettlementError>(
            SettlementError::InvalidAmount,
        ),
{
}

/// A settlement of more than the payer holds, in the configured currencies,
/// fails with `InvalidAmount`, before any transfer.
pub proof fn lemma_insufficient_balance_rejected(
    config: SettlementConfig,
    session: ChargerSession,
    amount: u64,
)
    requires
        session.mint@ == config.payment_currency@,
        session.bonk_mint@ == config.reward_currency@,
        session.user_balance < amount,
    ensures
        session_start(config, session, amount) == Err::<SplitPlan, SettlementError>(
            SettlementError::InvalidAmount,
        ),
{
}

} // verus!
