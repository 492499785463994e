use vstd::prelude::*;

use crate::address::Address;
use crate::error::GaslessInfrastructureError;
use crate::fees::{fee_of, FeeBreakdown};
use crate::ledger::GaslessLedger;
use crate::settlement::FundingSource;
use crate::state::ServiceProvider;

verus! {

/// A permit is executed at most once: after a settlement of it succeeds, any
/// further settlement call on the same (user, service, nonce) triple, by any
/// relayer, at any time, for any action, fails with `PermitAlreadyExecuted`
/// and changes nothing.
pub proof fn lemma_execute_at_most_once(
    l0: GaslessLedger,
    l1: GaslessLedger,
    l2: GaslessLedger,
    r1: Result<FeeBreakdown, GaslessInfrastructureError>,
    r2: Result<FeeBreakdown, GaslessInfrastructureError>,
    relayer: Address,
    user: Address,
    service_id: Seq<char>,
    nonce: u64,
    now: i64,
    base_cost: u64,
    funding: FundingSource,
    action_succeeded: bool,
    relayer2: Address,
    now2: i64,
    base_cost2: u64,
    funding2: FundingSource,
    action_succeeded2: bool,
)
    requires
        l0.wf(),
        l1.wf(),
        l0.settlement_step(
            l1,
            r1,
            relayer,
            user,
            service_id,
            nonce,
            now,
            base_cost,
            funding,
            action_succeeded,
        ),
        r1 is Ok,
        l1.settlement_step(
            l2,
            r2,
            relayer2,
            user,
            service_id,
            nonce,
            now2,
            base_cost2,
            funding2,
            action_succeeded2,
        ),
    ensures
        r2 == Err::<FeeBreakdown, _>(GaslessInfrastructureError::PermitAlreadyExecuted),
        l2 == l1,
{
    l0.lemma_indices();
    l1.lemma_indices();
    let i = l0.service_index(service_id);
    let k = l0.permit_index(user, service_id, nonce);
    assert(l0.service_at(i, service_id));
    assert(l0.permit_at(k, user, service_id, nonce));
    assert(l1.service_at(i, service_id));
    assert(l1.permit_at(k, user, service_id, nonce));
}

/// An expired permit is refused: where the protocol and the service are
/// active and the permit, not yet executed, has `expiry <= now`, a settlement
/// fails with `ExpiredPermit` whatever the relayer's authorization, and
/// changes nothing.
pub proof fn lemma_expired_permit_refused(
    l: GaslessLedger,
    after: GaslessLedger,
    r: Result<FeeBreakdown, GaslessInfrastructureError>,
    relayer: Address,
    user: Address,
    service_id: Seq<char>,
    nonce: u64,
    now: i64,
    base_cost: u64,
    funding: FundingSource,
    action_succeeded: bool,
)
    requires
        l.wf(),
        l.protocol matches Some(p) && p.is_active,
        l.has_service(service_id),
        l.service_record(service_id).is_active,
        l.has_permit(user, service_id, nonce),
        !l.permit_record(user, service_id, nonce).executed,
        l.permit_record(user, service_id, nonce).expiry <= now,
        l.settlement_step(
            after,
            r,
            relayer,
            user,
            service_id,
            nonce,
            now,
            base_cost,
            funding,
            action_succeeded,
        ),
    ensures
        r == Err::<FeeBreakdown, _>(GaslessInfrastructureError::ExpiredPermit),
        after == l,
{
}

/// A settlement funded by the fee vault debits the vault by exactly its total
/// cost, and the total is the base cost plus the service fee plus the
/// protocol fee, each fee being `base_cost * rate / 10000` rounded down.
pub proof fn lemma_settlement_debits_vault_exactly(
    l: GaslessLedger,
    after: GaslessLedger,
    costs: FeeBreakdown,
    relayer: Address,
    user: Address,
    service_id: Seq<char>,
    nonce: u64,
    now: i64,
    base_cost: u64,
    action_succeeded: bool,
)
    requires
        l.wf(),
        after.wf(),
        l.settlement_step(
            after,
            Ok(costs),
            relayer,
            user,
            service_id,
            nonce,
            now,
            base_cost,
            FundingSource::FeeVault,
            action_succeeded,
        ),
    ensures
        after.has_service(service_id),
        after.vault_record(service_id).sol_balance == l.vault_record(service_id).sol_balance
            - costs.total_cost,
        costs.total_cost == costs.base_cost + costs.service_fee + costs.protocol_fee,
        costs.base_cost == base_cost,
        costs.service_fee == fee_of(base_cost as int, l.service_record(service_id).service_fee_bps as int),
        costs.protocol_fee == fee_of(base_cost as int, l.protocol->0.protocol_fee_bps as int),
{
    let i = l.service_index(service_id);
    assert(l.service_at(i, service_id));
    assert(after.service_at(i, service_id));
    after.lemma_indices();
}

/// A refused settlement, a failed solvency check among them, leaves the
/// ledger as it was: balances, the permit's executed flag and every counter.
pub proof fn lemma_refused_settlement_changes_nothing(
    l: GaslessLedger,
    after: GaslessLedger,
    e: GaslessInfrastructureError,
    relayer: Address,
    user: Address,
    service_id: Seq<char>,
    nonce: u64,
    now: i64,
    base_cost: u64,
    funding: FundingSource,
    action_succeeded: bool,
)
    requires
        l.settlement_step(
            after,
            Err(e),
            relayer,
            user,
            service_id,
            nonce,
            now,
            base_cost,
            funding,
            action_succeeded,
        ),
    ensures
        after == l,
{
}

/// Registering a service and then reading it back gives the fields that were
/// submitted, with no transactions and the service active.
pub proof fn lemma_register_round_trip(
    l: GaslessLedger,
    after: GaslessLedger,
    owner: Address,
    fee_collector: Address,
    treasury_vault: Address,
    service_id: String,
    service_fee_bps: u16,
    max_transaction_amount: u64,
    allowed_programs: Vec<Address>,
)
    requires
        l.wf(),
        after.wf(),
        l.register_step(
            after,
            Ok(()),
            owner,
            fee_collector,
            treasury_vault,
            service_id,
            service_fee_bps,
            max_transaction_amount,
            allowed_programs,
        ),
    ensures
        after.has_service(service_id@),
        after.service_record(service_id@) == (ServiceProvider {
            service_id,
            owner,
            fee_collector,
            treasury_vault,
            service_fee_bps,
            max_transaction_amount,
            allowed_programs,
            is_active: true,
            total_transactions: 0,
        }),
{
    after.lemma_indices();
    let n = l.services@.len() as int;
    assert(after.service_at(n, service_id@));
}

} // verus!
