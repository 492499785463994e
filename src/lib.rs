//! A verified ledger for relayed ("gasless") execution of user-signed permits:
//! registries for the protocol, its services and its relayers, a store of
//! single-use permits, and the settlement engine that reimburses relayers and
//! collects the two tiers of fees from a service's fee vault.

mod address;
mod error;
mod fees;
mod laws;
mod ledger;
mod settlement;
mod state;

pub use address::Address;
pub use error::GaslessInfrastructureError;
pub use fees::{
    basis_points_of, compute_fees, FeeBreakdown, EXECUTION_BASE_COST, MAX_FEE_BPS,
    MINT_BASE_COST, USDC_TO_SOL_CONVERSION,
};
pub use laws::{
    lemma_execute_at_most_once, lemma_expired_permit_refused, lemma_refused_settlement_changes_nothing,
    lemma_register_round_trip, lemma_settlement_debits_vault_exactly,
};
pub use ledger::GaslessLedger;
pub use settlement::{check_settlement, settlement_transfers, FundingSource, Transfer};
pub use state::{FeeVault, GaslessProtocol, RelayerConfig, ServiceProvider, UserPermit};
