//! Loan state machine: owns the loan's lifecycle status and enforces the
//! legal transitions, calling into the aggregator and the evaluator during
//! claim processing.
//!
//! Every operation here is a pure transition over plain values. The caller
//! owns persistence and token movement: it performs the value transfers
//! this module's results call for, and commits the mutated record only when
//! those transfers succeed, so that a rejected transfer rolls the whole
//! operation back.

use vstd::prelude::*;

use crate::aggregator::{aggregate_oracle_data, consensus_of};
use crate::errors::ErrorCode;
use crate::evaluator::{calculate_payout_amount, claim_triggers, payout_of, should_trigger};
use crate::observation::OracleData;
use crate::policy::InsuranceConfig;

verus! {

/// Lifecycle status of a loan. `Paid`, `Defaulted` and `InsuranceClaimed`
/// are terminal: no transition leaves them. `Defaulted` is entered only by
/// an external time-based collaborator, never by this core; the state
/// machine merely represents it.
#[derive(Clone, Copy, PartialEq, Eq, Structural, Debug)]
pub enum LoanStatus {
    Active,
    Paid,
    Defaulted,
    InsuranceClaimed,
}

/// One loan record. `principal` and `policy` never change after creation;
/// `status` moves only through the transitions of this module.
#[derive(Clone, Copy, PartialEq, Eq, Structural, Debug)]
pub struct Loan {
    /// Opaque external account id of the borrower.
    pub borrower: u64,
    /// Principal extended at creation, immutable thereafter.
    pub principal: u64,
    pub start_time: i64,
    /// Always `start_time + duration` for the duration fixed at creation.
    pub end_time: i64,
    pub status: LoanStatus,
    /// The policy owned by this loan (composition, not reference).
    pub policy: InsuranceConfig,
}

impl Loan {
    /// A loan is well formed when its embedded policy is.
    pub open spec fn wf(self) -> bool {
        self.policy.wf()
    }
}

/// The loan record after a claim-processing attempt: the status flips to
/// `InsuranceClaimed` exactly when the loan was `Active` and the consensus
/// over a non-empty set of observations triggers its policy; otherwise the
/// record is untouched.
pub open spec fn claim_next(loan: Loan, obs: Seq<OracleData>, now: i64) -> Loan {
    if loan.status == LoanStatus::Active && obs.len() > 0 && claim_triggers(
        consensus_of(obs, now),
        loan.policy,
    ) {
        Loan { status: LoanStatus::InsuranceClaimed, ..loan }
    } else {
        loan
    }
}

/// What a claim-processing attempt reports: `InvalidLoanStatus` off the
/// `Active` state, `EmptyInput` on zero evidence, otherwise the payout to
/// disburse (`Some` exactly on trigger).
pub open spec fn claim_result(loan: Loan, obs: Seq<OracleData>, now: i64) -> Result<
    Option<u64>,
    ErrorCode,
> {
    if loan.status != LoanStatus::Active {
        Err(ErrorCode::InvalidLoanStatus)
    } else if obs.len() == 0 {
        Err(ErrorCode::EmptyInput)
    } else if claim_triggers(consensus_of(obs, now), loan.policy) {
        Ok(Some(payout_of(loan)))
    } else {
        Ok(None)
    }
}

/// The loan record after a repayment: `Paid` exactly when an `Active` loan
/// is repaid with at least the principal; a partial repayment is accepted
/// but leaves the record untouched.
pub open spec fn repay_next(loan: Loan, amount: u64) -> Loan {
    if loan.status == LoanStatus::Active && amount >= loan.principal {
        Loan { status: LoanStatus::Paid, ..loan }
    } else {
        loan
    }
}

/// What a repayment attempt reports: it fails with `InvalidLoanStatus` off
/// the `Active` state and succeeds otherwise.
pub open spec fn repay_result(loan: Loan, amount: u64) -> Result<(), ErrorCode> {
    if loan.status != LoanStatus::Active {
        Err(ErrorCode::InvalidLoanStatus)
    } else {
        Ok(())
    }
}

/// Create a loan directly in the `Active` state.
///
/// The caller must first have moved the principal from the borrower through
/// the value-transfer collaborator, and must not commit the returned record
/// if that transfer was rejected (atomic creation).
pub fn initialize_loan(
    borrower: u64,
    amount: u64,
    start_time: i64,
    duration: i64,
    insurance_config: InsuranceConfig,
) -> (loan: Loan)
    requires
        insurance_config.wf(),
        i64::MIN <= start_time + duration <= i64::MAX,
    ensures
        loan.borrower == borrower,
        loan.principal == amount,
        loan.start_time == start_time,
        loan.end_time == start_time + duration,
        loan.status == LoanStatus::Active,
        loan.policy == insurance_config,
        loan.wf(),
{
    Loan {
        borrower,
        principal: amount,
        start_time,
        end_time: start_time + duration,
        status: LoanStatus::Active,
        policy: insurance_config,
    }
}

/// Process an insurance claim against the loan: aggregate the observations,
/// evaluate the trigger, and transition the status on trigger.
///
/// On `Ok(Some(p))` the caller must disburse `p` from the loan's held funds
/// to the borrower, and roll the record back if that transfer is rejected.
/// On any error the record is untouched and no transfer is owed.
pub fn process_insurance_claim(
    loan: &mut Loan,
    oracle_data: &Vec<OracleData>,
    now: i64,
) -> (r: Result<Option<u64>, ErrorCode>)
    requires
        old(loan).wf(),
    ensures
        *final(loan) == claim_next(*old(loan), oracle_data@, now),
        r == claim_result(*old(loan), oracle_data@, now),
        final(loan).wf(),
        r is Err ==> *final(loan) == *old(loan),
{
    if loan.status != LoanStatus::Active {
        return Err(ErrorCode::InvalidLoanStatus);
    }
    let consensus = match aggregate_oracle_data(oracle_data, now) {
        Ok(c) => c,
        Err(e) => {
            return Err(e);
        },
    };
    if should_trigger(&consensus, &loan.policy) {
        loan.status = LoanStatus::InsuranceClaimed;
        let payout = calculate_payout_amount(loan);
        Ok(Some(payout))
    } else {
        Ok(None)
    }
}

/// Record a repayment of `amount` against the loan.
///
/// The caller must first have moved `amount` from the borrower to the
/// loan's held funds through the value-transfer collaborator, and must not
/// commit the returned record if that transfer was rejected.
pub fn repay_loan(loan: &mut Loan, amount: u64) -> (r: Result<(), ErrorCode>)
    ensures
        *final(loan) == repay_next(*old(loan), amount),
        r == repay_result(*old(loan), amount),
        r is Err ==> *final(loan) == *old(loan),
{
    if loan.status != LoanStatus::Active {
        return Err(ErrorCode::InvalidLoanStatus);
    }
    if amount >= loan.principal {
        loan.status = LoanStatus::Paid;
    }
    Ok(())
}

/// Law: claim processing changes nothing against a loan that is not
/// `Active`, and reports `InvalidLoanStatus`.
pub proof fn lemma_claim_requires_active(loan: Loan, obs: Seq<OracleData>, now: i64)
    requires
        loan.status != LoanStatus::Active,
    ensures
        claim_next(loan, obs, now) == loan,
        claim_result(loan, obs, now) == Err::<Option<u64>, ErrorCode>(ErrorCode::InvalidLoanStatus),
{
}

/// Law: the trigger decision does not read the consensus timestamp, so two
/// aggregations of the same observations decide alike whatever their times.
pub proof fn lemma_trigger_ignores_aggregation_time(
    obs: Seq<OracleData>,
    config: InsuranceConfig,
    t1: i64,
    t2: i64,
)
    ensures
        claim_triggers(consensus_of(obs, t1), config) == claim_triggers(
            consensus_of(obs, t2),
            config,
        ),
{
}

/// Law: claim processing is idempotent on the loan record. Wherever a first
/// attempt leaves the record, a second attempt with the same observations
/// leaves it there — in particular, non-triggering data leaves an `Active`
/// loan `Active` both times, with no hidden effect accumulating.
pub proof fn lemma_claim_processing_idempotent(
    loan: Loan,
    obs: Seq<OracleData>,
    t1: i64,
    t2: i64,
)
    ensures
        claim_next(claim_next(loan, obs, t1), obs, t2) == claim_next(loan, obs, t1),
{
    lemma_trigger_ignores_aggregation_time(obs, loan.policy, t1, t2);
}

/// Law: repaying an `Active` loan with the full principal (or more) settles
/// it as `Paid`; any smaller amount leaves the record untouched.
pub proof fn lemma_repay_boundary(loan: Loan, amount: u64)
    requires
        loan.status == LoanStatus::Active,
    ensures
        amount >= loan.principal ==> repay_next(loan, amount) == (Loan {
            status: LoanStatus::Paid,
            ..loan
        }),
        amount < loan.principal ==> repay_next(loan, amount) == loan,
{
}

} // verus!
