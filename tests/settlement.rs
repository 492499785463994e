use gasless_infrastructure::{
    check_settlement, settlement_transfers, Address, FeeBreakdown, FeeVault, FundingSource, GaslessInfrastructureError,
    GaslessLedger, GaslessProtocol, ServiceProvider, Transfer, UserPermit, EXECUTION_BASE_COST,
};

fn addr(tag: u8) -> Address {
    Address::new([tag; 32])
}

const ADMIN: u8 = 1;
const TREASURY: u8 = 2;
const OWNER: u8 = 3;
const COLLECTOR: u8 = 4;
const VAULT: u8 = 5;
const RELAYER: u8 = 6;
const USER: u8 = 7;
const TARGET: u8 = 8;
const STRANGER: u8 = 9;
const NOW: i64 = 1_700_000_000;
const EXPIRY: i64 = NOW + 3600;

/// A ledger with service "svc1" (2.5%), protocol fee 5%, an authorized
/// relayer, a permit of nonce 1 and a vault holding `lamports`.
fn funded_ledger(lamports: u64) -> GaslessLedger {
    let mut ledger = GaslessLedger::new();
    ledger.initialize_protocol(addr(ADMIN), addr(TREASURY), 500).unwrap();
    ledger
        .register_service(
            addr(OWNER),
            addr(COLLECTOR),
            addr(VAULT),
            "svc1".to_string(),
            250,
            1_000_000,
            vec![addr(TARGET)],
        )
        .unwrap();
    ledger.authorize_relayer(addr(ADMIN), addr(RELAYER), NOW).unwrap();
    ledger
        .create_user_permit(
            addr(USER),
            "svc1".to_string(),
            1,
            vec![7],
            addr(TARGET),
            EXPIRY,
            u64::MAX,
            vec![1; 64],
            NOW,
        )
        .unwrap();
    if lamports > 0 {
        ledger.deposit_treasury(&"svc1".to_string(), lamports * 1000).unwrap();
    }
    ledger
}

fn execute(ledger: &mut GaslessLedger, relayer: u8, now: i64) -> Result<FeeBreakdown, GaslessInfrastructureError> {
    ledger.execute_gasless_transaction(
        addr(relayer),
        addr(USER),
        &"svc1".to_string(),
        1,
        now,
        FundingSource::FeeVault,
        true,
    )
}

#[test]
fn svc1_fee_scenario_exact_costs() {
    let mut ledger = funded_ledger(5_375_000);
    let costs = execute(&mut ledger, RELAYER, NOW + 1).unwrap();
    assert_eq!(costs.base_cost, 5_000_000);
    assert_eq!(costs.service_fee, 125_000);
    assert_eq!(costs.protocol_fee, 250_000);
    assert_eq!(costs.total_cost, 5_375_000);
    assert_eq!(ledger.get_fee_vault(&"svc1".to_string()).unwrap().sol_balance, 0);
}

#[test]
fn svc1_fee_scenario_one_lamport_short() {
    let mut ledger = funded_ledger(5_374_999);
    let before = ledger.clone();
    assert_eq!(
        execute(&mut ledger, RELAYER, NOW + 1),
        Err(GaslessInfrastructureError::InsufficientTreasury)
    );
    assert_eq!(ledger, before);
}

#[test]
fn second_execution_is_refused() {
    let mut ledger = funded_ledger(20_000_000);
    assert!(execute(&mut ledger, RELAYER, NOW + 1).is_ok());
    let after_first = ledger.clone();
    assert_eq!(
        execute(&mut ledger, RELAYER, NOW + 2),
        Err(GaslessInfrastructureError::PermitAlreadyExecuted)
    );
    assert_eq!(
        execute(&mut ledger, STRANGER, NOW + 2),
        Err(GaslessInfrastructureError::PermitAlreadyExecuted)
    );
    assert_eq!(ledger, after_first);
}

#[test]
fn expired_permit_is_refused_for_any_relayer() {
    let mut ledger = funded_ledger(20_000_000);
    let before = ledger.clone();
    assert_eq!(execute(&mut ledger, RELAYER, EXPIRY), Err(GaslessInfrastructureError::ExpiredPermit));
    assert_eq!(
        execute(&mut ledger, STRANGER, EXPIRY + 100),
        Err(GaslessInfrastructureError::ExpiredPermit)
    );
    assert_eq!(ledger, before);
    assert!(execute(&mut ledger, RELAYER, EXPIRY - 1).is_ok());
}

#[test]
fn unauthorized_relayer_leaves_permit_untouched() {
    let mut ledger = funded_ledger(20_000_000);
    let before = ledger.clone();
    assert_eq!(
        execute(&mut ledger, STRANGER, NOW + 1),
        Err(GaslessInfrastructureError::UnauthorizedRelayer)
    );
    assert_eq!(ledger, before);
    assert!(!ledger.get_permit(&addr(USER), &"svc1".to_string(), 1).unwrap().executed);
}

#[test]
fn revoked_relayer_is_refused() {
    let mut ledger = funded_ledger(20_000_000);
    ledger.relayers[0].is_authorized = false;
    assert_eq!(
        execute(&mut ledger, RELAYER, NOW + 1),
        Err(GaslessInfrastructureError::UnauthorizedRelayer)
    );
}

#[test]
fn vault_is_debited_by_exact_total() {
    let mut ledger = funded_ledger(12_345_678);
    let costs = execute(&mut ledger, RELAYER, NOW + 1).unwrap();
    assert_eq!(costs.total_cost, costs.base_cost + costs.service_fee + costs.protocol_fee);
    let vault = ledger.get_fee_vault(&"svc1".to_string()).unwrap();
    assert_eq!(vault.sol_balance, 12_345_678 - 5_375_000);
    assert_eq!(vault.total_gas_reimbursed, 5_000_000);
    assert_eq!(vault.total_fees_collected, 375_000);
}

#[test]
fn failed_action_changes_nothing() {
    let mut ledger = funded_ledger(20_000_000);
    let before = ledger.clone();
    let result = ledger.execute_gasless_transaction(
        addr(RELAYER),
        addr(USER),
        &"svc1".to_string(),
        1,
        NOW + 1,
        FundingSource::FeeVault,
        false,
    );
    assert_eq!(result, Err(GaslessInfrastructureError::TargetActionFailed));
    assert_eq!(ledger, before);
}

#[test]
fn quote_matches_execution_and_changes_nothing() {
    let mut ledger = funded_ledger(20_000_000);
    let before = ledger.clone();
    let quote = ledger.quote_settlement(
        &addr(RELAYER),
        &addr(USER),
        &"svc1".to_string(),
        1,
        NOW + 1,
        EXECUTION_BASE_COST,
        FundingSource::FeeVault,
    );
    assert_eq!(ledger, before);
    assert_eq!(quote, execute(&mut ledger, RELAYER, NOW + 1));
}

#[test]
fn master_treasury_funding() {
    let mut ledger = funded_ledger(0);
    let before = ledger.clone();
    let short = ledger.execute_gasless_transaction(
        addr(RELAYER),
        addr(USER),
        &"svc1".to_string(),
        1,
        NOW + 1,
        FundingSource::MasterTreasury { balance: 5_374_999 },
        true,
    );
    assert_eq!(short, Err(GaslessInfrastructureError::InsufficientMasterTreasury));
    assert_eq!(ledger, before);
    let paid = ledger.execute_gasless_transaction(
        addr(RELAYER),
        addr(USER),
        &"svc1".to_string(),
        1,
        NOW + 1,
        FundingSource::MasterTreasury { balance: 5_375_000 },
        true,
    );
    assert_eq!(paid.unwrap().total_cost, 5_375_000);
    let vault = ledger.get_fee_vault(&"svc1".to_string()).unwrap();
    assert_eq!(vault.sol_balance, 0);
    assert_eq!(vault.total_fees_collected, 375_000);
    assert_eq!(vault.total_gas_reimbursed, 5_000_000);
}

#[test]
fn fee_ceiling_is_enforced() {
    let mut ledger = funded_ledger(20_000_000);
    ledger
        .create_user_permit(
            addr(USER),
            "svc1".to_string(),
            2,
            vec![7],
            addr(TARGET),
            EXPIRY,
            5_374_999,
            vec![1; 64],
            NOW,
        )
        .unwrap();
    let result = ledger.execute_gasless_transaction(
        addr(RELAYER),
        addr(USER),
        &"svc1".to_string(),
        2,
        NOW + 1,
        FundingSource::FeeVault,
        true,
    );
    assert_eq!(result, Err(GaslessInfrastructureError::ExceedsMaxAmount));
}

#[test]
fn suspended_protocol_and_service_are_refused() {
    let mut ledger = funded_ledger(20_000_000);
    ledger.update_service_config(addr(OWNER), &"svc1".to_string(), None, None, Some(false)).unwrap();
    assert_eq!(execute(&mut ledger, RELAYER, NOW + 1), Err(GaslessInfrastructureError::ServiceNotActive));
    ledger.set_protocol_active(addr(ADMIN), false).unwrap();
    assert_eq!(execute(&mut ledger, RELAYER, NOW + 1), Err(GaslessInfrastructureError::ProtocolNotActive));
}

#[test]
fn missing_records_are_refused() {
    let mut empty = GaslessLedger::new();
    assert_eq!(execute(&mut empty, RELAYER, NOW), Err(GaslessInfrastructureError::ProtocolNotInitialized));
    let mut ledger = funded_ledger(20_000_000);
    let other = ledger.execute_gasless_transaction(
        addr(RELAYER),
        addr(USER),
        &"svc2".to_string(),
        1,
        NOW + 1,
        FundingSource::FeeVault,
        true,
    );
    assert_eq!(other, Err(GaslessInfrastructureError::ServiceNotFound));
    let wrong_nonce = ledger.execute_gasless_transaction(
        addr(RELAYER),
        addr(USER),
        &"svc1".to_string(),
        99,
        NOW + 1,
        FundingSource::FeeVault,
        true,
    );
    assert_eq!(wrong_nonce, Err(GaslessInfrastructureError::PermitNotFound));
}

fn sample_records(base_rate: u16) -> (GaslessProtocol, ServiceProvider, FeeVault, UserPermit) {
    let protocol = GaslessProtocol {
        admin: addr(ADMIN),
        master_treasury: addr(TREASURY),
        protocol_fee_bps: 10_000,
        total_services: 1,
        total_transactions: 0,
        is_active: true,
    };
    let service = ServiceProvider {
        service_id: "svc".to_string(),
        owner: addr(OWNER),
        fee_collector: addr(COLLECTOR),
        treasury_vault: addr(VAULT),
        service_fee_bps: base_rate,
        max_transaction_amount: 1,
        allowed_programs: vec![addr(TARGET)],
        is_active: true,
        total_transactions: 0,
    };
    let vault = FeeVault {
        service_id: "svc".to_string(),
        sol_balance: u64::MAX,
        total_fees_collected: 0,
        total_gas_reimbursed: 0,
    };
    let permit = UserPermit {
        user: addr(USER),
        service_id: "svc".to_string(),
        nonce: 1,
        instruction_data: vec![1],
        target_program: addr(TARGET),
        expiry: EXPIRY,
        max_fee: u64::MAX,
        executed: false,
        signature: vec![1],
    };
    (protocol, service, vault, permit)
}

#[test]
fn oversized_costs_are_refused() {
    let (protocol, service, vault, permit) = sample_records(10_000);
    let result = check_settlement(
        &protocol,
        &service,
        &vault,
        &permit,
        true,
        NOW,
        u64::MAX / 2,
        FundingSource::FeeVault,
    );
    assert_eq!(result, Err(GaslessInfrastructureError::ArithmeticOverflow));
    let fits = check_settlement(
        &protocol,
        &service,
        &vault,
        &permit,
        true,
        NOW,
        u64::MAX / 3,
        FundingSource::FeeVault,
    );
    assert_eq!(fits.unwrap().total_cost, (u64::MAX / 3) * 3);
}

#[test]
fn transfers_skip_zero_fees_and_add_up() {
    let costs = FeeBreakdown { base_cost: 5_000_000, service_fee: 125_000, protocol_fee: 250_000, total_cost: 5_375_000 };
    let all = settlement_transfers(&costs, addr(RELAYER), addr(COLLECTOR), addr(TREASURY));
    assert_eq!(
        all,
        vec![
            Transfer { to: addr(RELAYER), amount: 5_000_000 },
            Transfer { to: addr(COLLECTOR), amount: 125_000 },
            Transfer { to: addr(TREASURY), amount: 250_000 },
        ]
    );
    assert_eq!(all.iter().map(|t| t.amount).sum::<u64>(), costs.total_cost);
    let no_service_fee = FeeBreakdown { base_cost: 10_000, service_fee: 0, protocol_fee: 500, total_cost: 10_500 };
    assert_eq!(
        settlement_transfers(&no_service_fee, addr(RELAYER), addr(COLLECTOR), addr(TREASURY)),
        vec![Transfer { to: addr(RELAYER), amount: 10_000 }, Transfer { to: addr(TREASURY), amount: 500 }]
    );
    let no_fees = FeeBreakdown { base_cost: 10_000, service_fee: 0, protocol_fee: 0, total_cost: 10_000 };
    assert_eq!(
        settlement_transfers(&no_fees, addr(RELAYER), addr(COLLECTOR), addr(TREASURY)),
        vec![Transfer { to: addr(RELAYER), amount: 10_000 }]
    );
}
