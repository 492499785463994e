use vstd::prelude::*;

use crate::address::Address;
use crate::fees::{FeeBreakdown, MAX_FEE_BPS};

verus! {

/// The protocol's global configuration and lifetime counters.
#[derive(Clone, Copy, Debug, PartialEq, Eq)]
pub struct GaslessProtocol {
    /// Identity with configuration rights.
    pub admin: Address,
    /// Funding source of last resort.
    pub master_treasury: Address,
    /// Protocol fee, in basis points.
    pub protocol_fee_bps: u16,
    pub total_services: u64,
    pub total_transactions: u64,
    pub is_active: bool,
}

/// One tenant service: who owns it, where its fees go, its rate and whitelist.
#[derive(Clone, Debug, PartialEq, Eq)]
pub struct ServiceProvider {
    /// Unique key of the service.
    pub service_id: String,
    pub owner: Address,
    pub fee_collector: Address,
    /// The token account that backs the service's fee vault.
    pub treasury_vault: Address,
    /// Service fee, in basis points.
    pub service_fee_bps: u16,
    /// Per-transaction cap.
    pub max_transaction_amount: u64,
    /// The target actions that permits of this service may name.
    pub allowed_programs: Vec<Address>,
    pub is_active: bool,
    pub total_transactions: u64,
}

/// The authorization record of one relayer.
#[derive(Clone, Copy, Debug, PartialEq, Eq)]
pub struct RelayerConfig {
    pub relayer: Address,
    pub is_authorized: bool,
    pub total_relayed: u64,
    /// Time of the relayer's last settlement (or of its authorization).
    pub last_activity: i64,
}

/// The escrow of one service: what is left for reimbursements, and the totals
/// paid out of it.
#[derive(Clone, Debug, PartialEq, Eq)]
pub struct FeeVault {
    /// The service that owns the vault.
    pub service_id: String,
    /// Lamport-equivalent balance available for reimbursement.
    pub sol_balance: u64,
    pub total_fees_collected: u64,
    pub total_gas_reimbursed: u64,
}

/// A user's signed, single-use authorization of one action.
#[derive(Clone, Debug, PartialEq, Eq)]
pub struct UserPermit {
    pub user: Address,
    pub service_id: String,
    pub nonce: u64,
    /// The encoded action to perform.
    pub instruction_data: Vec<u8>,
    /// The whitelisted target action.
    pub target_program: Address,
    /// Absolute deadline; the permit is usable strictly before it.
    pub expiry: i64,
    /// The most that the user accepts to be charged.
    pub max_fee: u64,
    /// Set once, by the settlement that executes the permit.
    pub executed: bool,
    pub signature: Vec<u8>,
}

impl GaslessProtocol {
    /// The protocol's invariant: its fee rate is at most 100%.
    pub open spec fn wf(&self) -> bool {
        self.protocol_fee_bps <= MAX_FEE_BPS
    }

    /// The protocol after one more settlement.
    pub open spec fn settled(self) -> GaslessProtocol {
        GaslessProtocol {
            total_transactions: self.total_transactions.saturating_add(1),
            ..self
        }
    }

    /// Counts one settlement.
    pub fn record_settlement(&mut self)
        ensures
            *final(self) == old(self).settled(),
    {
        self.total_transactions = self.total_transactions.saturating_add(1);
    }
}

impl ServiceProvider {
    /// The service's invariant: a fee rate of at most 100%, a positive cap,
    /// a non-empty identifier and a non-empty whitelist.
    pub open spec fn wf(&self) -> bool {
        &&& self.service_fee_bps <= MAX_FEE_BPS
        &&& self.max_transaction_amount > 0
        &&& self.service_id@.len() > 0
        &&& self.allowed_programs@.len() > 0
    }

    /// Whether permits of this service may name `target`.
    pub open spec fn allows(&self, target: Address) -> bool {
        self.allowed_programs@.contains(target)
    }

    /// The service after one more settlement.
    pub open spec fn settled(self) -> ServiceProvider {
        ServiceProvider { total_transactions: self.total_transactions.saturating_add(1), ..self }
    }

    /// Tells whether `target` is on the service's whitelist.
    pub fn is_whitelisted(&self, target: &Address) -> (r: bool)
        ensures
            r == self.allows(*target),
    {
        let mut i: usize = 0;
        while i < self.allowed_programs.len()
            invariant
                i <= self.allowed_programs@.len(),
                forall|j: int| 0 <= j < i ==> self.allowed_programs@[j] != *target,
            decreases self.allowed_programs@.len() - i,
        {
            if self.allowed_programs[i] == *target {
                return true;
            }
            i = i + 1;
        }
        false
    }

    /// The service with each given setting replaced.
    pub open spec fn reconfigured(
        self,
        new_fee_bps: Option<u16>,
        new_max_amount: Option<u64>,
        new_is_active: Option<bool>,
    ) -> ServiceProvider {
        ServiceProvider {
            service_fee_bps: match new_fee_bps {
                Some(bps) => bps,
                None => self.service_fee_bps,
            },
            max_transaction_amount: match new_max_amount {
                Some(amount) => amount,
                None => self.max_transaction_amount,
            },
            is_active: match new_is_active {
                Some(active) => active,
                None => self.is_active,
            },
            ..self
        }
    }

    /// Replaces each given setting.
    pub fn reconfigure(
        &mut self,
        new_fee_bps: Option<u16>,
        new_max_amount: Option<u64>,
        new_is_active: Option<bool>,
    )
        ensures
            *final(self) == old(self).reconfigured(new_fee_bps, new_max_amount, new_is_active),
    {
        if let Some(bps) = new_fee_bps {
            self.service_fee_bps = bps;
        }
        if let Some(amount) = new_max_amount {
            self.max_transaction_amount = amount;
        }
        if let Some(active) = new_is_active {
            self.is_active = active;
        }
    }

    /// Counts one settlement.
    pub fn record_settlement(&mut self)
        ensures
            *final(self) == old(self).settled(),
    {
        self.total_transactions = self.total_transactions.saturating_add(1);
    }
}

impl RelayerConfig {
    /// The relayer after a settlement at time `now`.
    pub open spec fn settled(self, now: i64) -> RelayerConfig {
        RelayerConfig {
            total_relayed: self.total_relayed.saturating_add(1),
            last_activity: now,
            ..self
        }
    }

    /// Counts one settlement relayed at time `now`.
    pub fn record_settlement(&mut self, now: i64)
        ensures
            *final(self) == old(self).settled(now),
    {
        self.total_relayed = self.total_relayed.saturating_add(1);
        self.last_activity = now;
    }
}

impl FeeVault {
    /// The vault after paying for `costs`; `from_vault` says whether the vault's
    /// own balance funded it (else the master treasury did).
    pub open spec fn settled(self, costs: FeeBreakdown, from_vault: bool) -> FeeVault {
        FeeVault {
            sol_balance: if from_vault {
                (self.sol_balance - costs.total_cost) as u64
            } else {
                self.sol_balance
            },
            total_fees_collected: self.total_fees_collected.saturating_add(
                (costs.service_fee + costs.protocol_fee) as u64,
            ),
            total_gas_reimbursed: self.total_gas_reimbursed.saturating_add(costs.base_cost),
            ..self
        }
    }

    /// Books one settlement.
    pub fn record_settlement(&mut self, costs: FeeBreakdown, from_vault: bool)
        requires
            costs.service_fee + costs.protocol_fee <= costs.total_cost,
            from_vault ==> old(self).sol_balance >= costs.total_cost,
        ensures
            *final(self) == old(self).settled(costs, from_vault),
    {
        if from_vault {
            self.sol_balance = self.sol_balance - costs.total_cost;
        }
        self.total_fees_collected = self.total_fees_collected.saturating_add(
            costs.service_fee + costs.protocol_fee,
        );
        self.total_gas_reimbursed = self.total_gas_reimbursed.saturating_add(costs.base_cost);
    }
}

impl UserPermit {
    /// Whether the permit is stored under (user, service, nonce).
    pub open spec fn has_key(&self, user: Address, service_id: Seq<char>, nonce: u64) -> bool {
        self.user == user && self.service_id@ == service_id && self.nonce == nonce
    }

    /// The permit once executed.
    pub open spec fn settled(self) -> UserPermit {
        UserPermit { executed: true, ..self }
    }

    /// Marks the permit executed.
    pub fn mark_executed(&mut self)
        ensures
            *final(self) == old(self).settled(),
    {
        self.executed = true;
    }
}

} // verus!
