use vstd::prelude::*;

use crate::address::Address;
use crate::error::GaslessInfrastructureError;
use crate::fees::{breakdown_of, compute_fees, FeeBreakdown};
use crate::state::{FeeVault, GaslessProtocol, ServiceProvider, UserPermit};

verus! {

/// Where the money for a settlement comes from.
#[derive(Clone, Copy, Debug, PartialEq, Eq, Structural)]
pub enum FundingSource {
    /// The service's fee vault, whose booked balance is debited.
    FeeVault,
    /// The protocol's master treasury, which holds `balance` lamports.
    MasterTreasury { balance: u64 },
}

/// The verdict of the settlement engine on one permit: the costs to move, or
/// the first gate that refuses it. The gates come in this order: protocol
/// active, service active, permit not yet executed, permit not expired,
/// relayer authorized, costs representable, costs within the permit's fee
/// ceiling, funding source solvent.
pub open spec fn settlement_outcome(
    protocol: GaslessProtocol,
    service: ServiceProvider,
    vault: FeeVault,
    permit: UserPermit,
    relayer_authorized: bool,
    now: i64,
    base_cost: u64,
    funding: FundingSource,
) -> Result<FeeBreakdown, GaslessInfrastructureError> {
    if !protocol.is_active {
        Err(GaslessInfrastructureError::ProtocolNotActive)
    } else if !service.is_active {
        Err(GaslessInfrastructureError::ServiceNotActive)
    } else if permit.executed {
        Err(GaslessInfrastructureError::PermitAlreadyExecuted)
    } else if permit.expiry <= now {
        Err(GaslessInfrastructureError::ExpiredPermit)
    } else if !relayer_authorized {
        Err(GaslessInfrastructureError::UnauthorizedRelayer)
    } else {
        match breakdown_of(base_cost, service.service_fee_bps, protocol.protocol_fee_bps) {
            None => Err(GaslessInfrastructureError::ArithmeticOverflow),
            Some(costs) => if costs.total_cost > permit.max_fee {
                Err(GaslessInfrastructureError::ExceedsMaxAmount)
            } else {
                match funding {
                    FundingSource::FeeVault => if vault.sol_balance < costs.total_cost {
                        Err(GaslessInfrastructureError::InsufficientTreasury)
                    } else {
                        Ok(costs)
                    },
                    FundingSource::MasterTreasury { balance } => if balance < costs.total_cost {
                        Err(GaslessInfrastructureError::InsufficientMasterTreasury)
                    } else {
                        Ok(costs)
                    },
                }
            },
        }
    }
}

/// Runs the gates of a settlement over the records it touches, without
/// changing them, and computes its costs.
pub fn check_settlement(
    protocol: &GaslessProtocol,
    service: &ServiceProvider,
    vault: &FeeVault,
    permit: &UserPermit,
    relayer_authorized: bool,
    now: i64,
    base_cost: u64,
    funding: FundingSource,
) -> (r: Result<FeeBreakdown, GaslessInfrastructureError>)
    requires
        protocol.wf(),
        service.wf(),
    ensures
        r == settlement_outcome(
            *protocol,
            *service,
            *vault,
            *permit,
            relayer_authorized,
            now,
            base_cost,
            funding,
        ),
        r matches Ok(costs) ==> costs.service_fee + costs.protocol_fee <= costs.total_cost,
{
    if !protocol.is_active {
        return Err(GaslessInfrastructureError::ProtocolNotActive);
    }
    if !service.is_active {
        return Err(GaslessInfrastructureError::ServiceNotActive);
    }
    if permit.executed {
        return Err(GaslessInfrastructureError::PermitAlreadyExecuted);
    }
    if permit.expiry <= now {
        return Err(GaslessInfrastructureError::ExpiredPermit);
    }
    if !relayer_authorized {
        return Err(GaslessInfrastructureError::UnauthorizedRelayer);
    }
    let costs = match compute_fees(base_cost, service.service_fee_bps, protocol.protocol_fee_bps) {
        None => {
            return Err(GaslessInfrastructureError::ArithmeticOverflow);
        },
        Some(costs) => costs,
    };
    if costs.total_cost > permit.max_fee {
        return Err(GaslessInfrastructureError::ExceedsMaxAmount);
    }
    match funding {
        FundingSource::FeeVault => {
            if vault.sol_balance < costs.total_cost {
                return Err(GaslessInfrastructureError::InsufficientTreasury);
            }
        },
        FundingSource::MasterTreasury { balance } => {
            if balance < costs.total_cost {
                return Err(GaslessInfrastructureError::InsufficientMasterTreasury);
            }
        },
    }
    Ok(costs)
}

/// One movement of lamports out of a settlement's funding source.
#[derive(Clone, Copy, Debug, PartialEq, Eq)]
pub struct Transfer {
    pub to: Address,
    pub amount: u64,
}

/// The transfers that carry out a settlement of `costs`: the base cost to
/// the relayer, then the service fee to the service's fee collector and the
/// protocol fee to the master treasury, each fee skipped when it is zero.
pub open spec fn transfers_of(
    costs: FeeBreakdown,
    relayer: Address,
    fee_collector: Address,
    master_treasury: Address,
) -> Seq<Transfer> {
    let reimbursement = seq![Transfer { to: relayer, amount: costs.base_cost }];
    let with_service_fee = if costs.service_fee > 0 {
        reimbursement.push(Transfer { to: fee_collector, amount: costs.service_fee })
    } else {
        reimbursement
    };
    if costs.protocol_fee > 0 {
        with_service_fee.push(Transfer { to: master_treasury, amount: costs.protocol_fee })
    } else {
        with_service_fee
    }
}

/// The sum of the amounts of `transfers`.
pub open spec fn total_moved(transfers: Seq<Transfer>) -> int
    decreases transfers.len(),
{
    if transfers.len() == 0 {
        0
    } else {
        total_moved(transfers.drop_last()) + transfers.last().amount
    }
}

/// Lists the transfers that carry out a settlement of `costs`; together
/// they move the base cost and both fees, nothing more.
pub fn settlement_transfers(
    costs: &FeeBreakdown,
    relayer: Address,
    fee_collector: Address,
    master_treasury: Address,
) -> (r: Vec<Transfer>)
    ensures
        r@ == transfers_of(*costs, relayer, fee_collector, master_treasury),
        total_moved(r@) == costs.base_cost + costs.service_fee + costs.protocol_fee,
{
    let mut transfers: Vec<Transfer> = Vec::new();
    transfers.push(Transfer { to: relayer, amount: costs.base_cost });
    proof {
        assert(transfers@.drop_last() =~= Seq::<Transfer>::empty());
        reveal_with_fuel(total_moved, 2);
        assert(total_moved(transfers@) == costs.base_cost);
    }
    if costs.service_fee > 0 {
        let ghost before = transfers@;
        transfers.push(Transfer { to: fee_collector, amount: costs.service_fee });
        assert(transfers@.drop_last() =~= before);
    }
    assert(total_moved(transfers@) == costs.base_cost + costs.service_fee);
    if costs.protocol_fee > 0 {
        let ghost before = transfers@;
        transfers.push(Transfer { to: master_treasury, amount: costs.protocol_fee });
        assert(transfers@.drop_last() =~= before);
    }
    proof {
        let expected = transfers_of(*costs, relayer, fee_collector, master_treasury);
        assert(transfers@ =~= expected);
    }
    transfers
}

} // verus!
