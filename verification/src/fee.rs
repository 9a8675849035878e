//! Bonding-curve issuance fee.

use vstd::prelude::*;

verus! {

/// Fee charged for the very first identity, in lamports.
pub const BASE_FEE: u64 = 10_000_000;

/// Amount by which the fee grows with every identity already issued.
pub const FEE_INCREMENT: u64 = 1_000;

/// Upper bound of the fee, whatever the number of identities.
pub const MAX_FEE: u64 = 20_000_000;

/// The issuance fee as a function of the number of identities issued so far:
/// a straight line from `BASE_FEE` with slope `FEE_INCREMENT`, cut off at `MAX_FEE`.
pub open spec fn fee(n: nat) -> int {
    vstd::math::min(BASE_FEE + FEE_INCREMENT * n, MAX_FEE as int)
}

/// Computes the issuance fee for a registry that has issued `total_agents` identities.
pub fn issuance_fee(total_agents: u64) -> (amount: u64)
    ensures
        amount == fee(total_agents as nat),
{
    let grown: u64 = match FEE_INCREMENT.checked_mul(total_agents) {
        Some(product) => product,
        None => u64::MAX,
    };
    let calculated: u64 = BASE_FEE.saturating_add(grown);
    if calculated < MAX_FEE {
        calculated
    } else {
        MAX_FEE
    }
}

/// The fee never falls as the registry grows.
pub proof fn lemma_fee_monotonic(fewer: nat, more: nat)
    requires
        fewer <= more,
    ensures
        fee(fewer) <= fee(more),
{
    assert(FEE_INCREMENT * fewer <= FEE_INCREMENT * more) by (nonlinear_arith)
        requires
            fewer <= more,
    ;
}

/// The fee lies between `BASE_FEE` and `MAX_FEE`, and is the uncut line as
/// long as that stays below the cap.
pub proof fn lemma_fee_bounded(n: nat)
    ensures
        BASE_FEE <= fee(n) <= MAX_FEE,
        fee(0) == BASE_FEE,
        BASE_FEE + FEE_INCREMENT * n <= MAX_FEE ==> fee(n) == BASE_FEE + FEE_INCREMENT * n,
        BASE_FEE + FEE_INCREMENT * n >= MAX_FEE ==> fee(n) == MAX_FEE,
{
}

} // verus!
