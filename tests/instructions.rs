use gasless_infrastructure::{
    Address, FeeBreakdown, FundingSource, GaslessInfrastructureError, GaslessLedger,
    EXECUTION_BASE_COST, MINT_BASE_COST,
};

fn addr(tag: u8) -> Address {
    Address::new([tag; 32])
}

const ADMIN: u8 = 1;
const TREASURY: u8 = 2;
const OWNER: u8 = 3;
const COLLECTOR: u8 = 4;
const VAULT: u8 = 5;
const RELAYER: u8 = 6;
const USER: u8 = 7;
const TARGET: u8 = 8;
const NOW: i64 = 1_700_000_000;

fn with_protocol() -> GaslessLedger {
    let mut ledger = GaslessLedger::new();
    ledger.initialize_protocol(addr(ADMIN), addr(TREASURY), 500).unwrap();
    ledger
}

fn with_service() -> GaslessLedger {
    let mut ledger = with_protocol();
    ledger
        .register_service(
            addr(OWNER),
            addr(COLLECTOR),
            addr(VAULT),
            "test_service".to_string(),
            250,
            1_000_000_000,
            vec![addr(TARGET)],
        )
        .unwrap();
    ledger
}

fn with_permit() -> GaslessLedger {
    let mut ledger = with_service();
    ledger.authorize_relayer(addr(ADMIN), addr(RELAYER), NOW).unwrap();
    ledger
        .create_user_permit(
            addr(USER),
            "test_service".to_string(),
            1,
            vec![1, 2, 3],
            addr(TARGET),
            NOW + 3600,
            10_000_000,
            vec![9; 64],
            NOW,
        )
        .unwrap();
    ledger
}

#[test]
fn initialize_protocol_ix_success() {
    let mut ledger = GaslessLedger::new();
    let result = ledger.initialize_protocol(addr(ADMIN), addr(TREASURY), 500);
    assert!(result.is_ok(), "Initialize protocol transaction should succeed");
    let protocol = ledger.protocol.as_ref().expect("Protocol account should exist");
    assert_eq!(protocol.admin, addr(ADMIN));
    assert_eq!(protocol.master_treasury, addr(TREASURY));
    assert_eq!(protocol.protocol_fee_bps, 500);
    assert_eq!(protocol.total_services, 0);
    assert_eq!(protocol.total_transactions, 0);
    assert!(protocol.is_active);
}

#[test]
fn register_service_ix_success() {
    let ledger = with_service();
    let id = "test_service".to_string();
    let service = ledger.get_service(&id).unwrap();
    assert_eq!(service.owner, addr(OWNER));
    assert_eq!(service.treasury_vault, addr(VAULT));
    let vault = ledger.get_fee_vault(&id).unwrap();
    assert_eq!(vault.service_id, id);
    assert_eq!(vault.sol_balance, 0);
    assert_eq!(ledger.protocol.as_ref().unwrap().total_services, 1);
}

#[test]
fn authorize_relayer_ix_success() {
    let mut ledger = with_protocol();
    assert_eq!(ledger.authorize_relayer(addr(ADMIN), addr(RELAYER), NOW), Ok(()));
    let record = ledger.get_relayer(&addr(RELAYER)).unwrap();
    assert!(record.is_authorized);
    assert_eq!(record.total_relayed, 0);
    assert_eq!(record.last_activity, NOW);
}

#[test]
fn create_user_permit_ix_success() {
    let ledger = with_permit();
    let permit = ledger.get_permit(&addr(USER), &"test_service".to_string(), 1).unwrap();
    assert!(!permit.executed);
    assert_eq!(permit.instruction_data, vec![1, 2, 3]);
    assert_eq!(permit.target_program, addr(TARGET));
    assert_eq!(permit.expiry, NOW + 3600);
    assert_eq!(permit.max_fee, 10_000_000);
}

#[test]
fn execute_gasless_transaction_ix_success() {
    let mut ledger = with_permit();
    let id = "test_service".to_string();
    ledger.deposit_treasury(&id, 10_000_000_000).unwrap();
    let result = ledger.execute_gasless_transaction(
        addr(RELAYER),
        addr(USER),
        &id,
        1,
        NOW + 10,
        FundingSource::FeeVault,
        true,
    );
    assert_eq!(
        result,
        Ok(FeeBreakdown {
            base_cost: EXECUTION_BASE_COST,
            service_fee: 125_000,
            protocol_fee: 250_000,
            total_cost: 5_375_000,
        })
    );
    assert!(ledger.get_permit(&addr(USER), &id, 1).unwrap().executed);
    let relayer = ledger.get_relayer(&addr(RELAYER)).unwrap();
    assert_eq!(relayer.total_relayed, 1);
    assert_eq!(relayer.last_activity, NOW + 10);
    assert_eq!(ledger.get_service(&id).unwrap().total_transactions, 1);
    assert_eq!(ledger.protocol.as_ref().unwrap().total_transactions, 1);
    let vault = ledger.get_fee_vault(&id).unwrap();
    assert_eq!(vault.sol_balance, 10_000_000 - 5_375_000);
    assert_eq!(vault.total_gas_reimbursed, 5_000_000);
    assert_eq!(vault.total_fees_collected, 375_000);
}

#[test]
fn mint_nft_gasless_ix_success() {
    let mut ledger = with_permit();
    let id = "test_service".to_string();
    ledger.deposit_treasury(&id, 20_000_000).unwrap();
    let result = ledger.mint_nft_gasless(
        addr(RELAYER),
        addr(USER),
        &id,
        1,
        NOW + 10,
        FundingSource::FeeVault,
        true,
    );
    assert_eq!(
        result,
        Ok(FeeBreakdown {
            base_cost: MINT_BASE_COST,
            service_fee: 250,
            protocol_fee: 500,
            total_cost: 10_750,
        })
    );
    assert_eq!(ledger.get_fee_vault(&id).unwrap().sol_balance, 9_250);
    assert!(ledger.get_permit(&addr(USER), &id, 1).unwrap().executed);
}

#[test]
fn update_service_config_ix_success() {
    let mut ledger = with_service();
    let id = "test_service".to_string();
    let result = ledger.update_service_config(addr(OWNER), &id, Some(300), Some(42), Some(false));
    assert_eq!(result, Ok(()));
    let service = ledger.get_service(&id).unwrap();
    assert_eq!(service.service_fee_bps, 300);
    assert_eq!(service.max_transaction_amount, 42);
    assert!(!service.is_active);
}

#[test]
fn withdraw_fees_ix_success() {
    let mut ledger = with_service();
    let id = "test_service".to_string();
    ledger.deposit_treasury(&id, 5_000_000).unwrap();
    assert_eq!(ledger.withdraw_fees(addr(OWNER), &id, 2_000_000, 5_000_000), Ok(2_000));
    assert_eq!(ledger.get_fee_vault(&id).unwrap().sol_balance, 3_000);
}
