//! The fee-selection policy.
//!
//! Given the target program and function, an optional fee record and an
//! optional explicit amount, the policy decides whether the operation pays
//! from the record, proceeds fee-free, or is rejected. It is a pure, total
//! three-way branch; the single fee-free case is `credits.aleo/split`, matched
//! exactly on the validated identifiers.

use vstd::prelude::*;

use crate::ident::{str_eq, FunctionName, ProgramId};

verus! {

/// The one fee-exempt target: the `split` function of the native credits
/// program, which only subdivides an existing balance record.
pub open spec fn spec_fee_exempt(program_id: Seq<char>, function_id: Seq<char>) -> bool {
    program_id == "credits.aleo"@ && function_id == "split"@
}

/// The outcome of the fee policy.
pub enum FeeDecision<R> {
    /// The target is fee-exempt; no record is needed.
    NoFeeRequired,
    /// Pay from the given record, with the given explicit amount.
    FeeFromRecord(R, u64),
    /// No record was supplied and the target is not fee-exempt.
    Rejected,
}

/// What `decide` returns, as a pure function of its inputs.
pub open spec fn spec_decide<R>(
    program_id: Seq<char>,
    function_id: Seq<char>,
    fee_record: Option<R>,
    explicit_amount: Option<u64>,
) -> FeeDecision<R> {
    match fee_record {
        Some(record) => FeeDecision::FeeFromRecord(
            record,
            match explicit_amount {
                Some(a) => a,
                None => 0u64,
            },
        ),
        None => if spec_fee_exempt(program_id, function_id) {
            FeeDecision::NoFeeRequired
        } else {
            FeeDecision::Rejected
        },
    }
}

/// Whether the pair of identifiers is the fee-exempt target.
pub fn is_fee_exempt(program_id: &ProgramId, function_id: &FunctionName) -> (r: bool)
    ensures
        r == spec_fee_exempt(program_id@, function_id@),
{
    str_eq(program_id.as_str(), "credits.aleo") && str_eq(function_id.as_str(), "split")
}

/// Applies the fee policy.
///
/// A supplied record always wins, with the explicit amount (zero when none was
/// given). Without a record, only `credits.aleo/split` proceeds; everything
/// else is rejected before any further work.
pub fn decide<R>(
    program_id: &ProgramId,
    function_id: &FunctionName,
    fee_record: Option<R>,
    explicit_amount: Option<u64>,
) -> (d: FeeDecision<R>)
    ensures
        d == spec_decide(program_id@, function_id@, fee_record, explicit_amount),
{
    match fee_record {
        Some(record) => {
            let amount = match explicit_amount {
                Some(a) => a,
                None => 0,
            };
            FeeDecision::FeeFromRecord(record, amount)
        },
        None => {
            if is_fee_exempt(program_id, function_id) {
                FeeDecision::NoFeeRequired
            } else {
                FeeDecision::Rejected
            }
        },
    }
}

/// The reason reported when the policy rejects an operation.
pub fn rejection_reason() -> (r: String)
    ensures
        r@ == "a record must be provided to pay the transaction fee"@,
{
    String::from_str("a record must be provided to pay the transaction fee")
}

/// The fee policy, case by case: a record always yields `FeeFromRecord` with
/// the explicit amount or zero; without a record, exactly
/// `credits.aleo/split` is fee-free and every other target is rejected.
pub proof fn lemma_fee_policy<R>(
    program_id: Seq<char>,
    function_id: Seq<char>,
    fee_record: Option<R>,
    explicit_amount: Option<u64>,
)
    ensures
        fee_record matches Some(record) ==> spec_decide(
            program_id,
            function_id,
            fee_record,
            explicit_amount,
        ) == FeeDecision::FeeFromRecord(
            record,
            match explicit_amount {
                Some(a) => a,
                None => 0u64,
            },
        ),
        fee_record is None && spec_fee_exempt(program_id, function_id) ==> spec_decide(
            program_id,
            function_id,
            fee_record,
            explicit_amount,
        ) == FeeDecision::<R>::NoFeeRequired,
        fee_record is None && !spec_fee_exempt(program_id, function_id) ==> spec_decide(
            program_id,
            function_id,
            fee_record,
            explicit_amount,
        ) == FeeDecision::<R>::Rejected,
{
}

} // verus!
