use vstd::prelude::*;

verus! {

/// Basis points in a whole: 10000 basis points are 100%.
pub const MAX_FEE_BPS: u16 = 10000;

/// Flat cost of executing a relayed action, in lamports.
pub const EXECUTION_BASE_COST: u64 = 5_000_000;

/// Flat cost of minting a collectible for a user, in lamports.
pub const MINT_BASE_COST: u64 = 10_000;

/// Token units that buy one lamport of reimbursement capacity.
pub const USDC_TO_SOL_CONVERSION: u64 = 1000;

/// The fee that a rate of `bps` basis points takes of `base`, rounded down.
pub open spec fn fee_of(base: int, bps: int) -> int {
    base * bps / 10000
}

/// What one settlement costs the funding source, and how it splits.
#[derive(Clone, Copy, Debug, PartialEq, Eq, Structural)]
pub struct FeeBreakdown {
    /// Reimbursement owed to the relayer.
    pub base_cost: u64,
    /// Share for the service's fee collector.
    pub service_fee: u64,
    /// Share for the protocol's treasury.
    pub protocol_fee: u64,
    /// The sum of the three.
    pub total_cost: u64,
}

/// The breakdown of a settlement of `base` under the two rates, or `None`
/// where the total does not fit in 64 bits.
pub open spec fn breakdown_of(base: u64, service_fee_bps: u16, protocol_fee_bps: u16) -> Option<
    FeeBreakdown,
> {
    let service_fee = fee_of(base as int, service_fee_bps as int);
    let protocol_fee = fee_of(base as int, protocol_fee_bps as int);
    let total = base + service_fee + protocol_fee;
    if total > u64::MAX {
        None
    } else {
        Some(
            FeeBreakdown {
                base_cost: base,
                service_fee: service_fee as u64,
                protocol_fee: protocol_fee as u64,
                total_cost: total as u64,
            },
        )
    }
}

/// The fee that a rate of `bps` basis points takes of `base`.
pub fn basis_points_of(base: u64, bps: u16) -> (r: u64)
    requires
        bps <= MAX_FEE_BPS,
    ensures
        r == fee_of(base as int, bps as int),
        r <= base,
{
    assert((base as u128) * (bps as u128) <= u64::MAX * 10000) by (nonlinear_arith)
        requires
            bps <= 10000,
    ;
    let product: u128 = (base as u128) * (bps as u128);
    let q: u128 = product / 10000;
    assert(q <= base) by (nonlinear_arith)
        requires
            q == product / 10000,
            product == base * bps,
            bps <= 10000,
    ;
    q as u64
}

/// Splits the cost of one settlement: `base` for the relayer plus a service
/// fee and a protocol fee, each `base * rate / 10000` rounded down.
/// `None` where the total would not fit in 64 bits.
pub fn compute_fees(base: u64, service_fee_bps: u16, protocol_fee_bps: u16) -> (r: Option<
    FeeBreakdown,
>)
    requires
        service_fee_bps <= MAX_FEE_BPS,
        protocol_fee_bps <= MAX_FEE_BPS,
    ensures
        r == breakdown_of(base, service_fee_bps, protocol_fee_bps),
{
    let service_fee = basis_points_of(base, service_fee_bps);
    let protocol_fee = basis_points_of(base, protocol_fee_bps);
    let with_service = base.checked_add(service_fee);
    match with_service {
        None => None,
        Some(partial) => match partial.checked_add(protocol_fee) {
            None => None,
            Some(total) => Some(
                FeeBreakdown { base_cost: base, service_fee, protocol_fee, total_cost: total },
            ),
        },
    }
}

} // verus!
