use vstd::prelude::*;

use crate::address::Address;
use crate::error::GaslessInfrastructureError;
use crate::fees::{
    FeeBreakdown, EXECUTION_BASE_COST, MAX_FEE_BPS, MINT_BASE_COST, USDC_TO_SOL_CONVERSION,
};
use crate::settlement::{check_settlement, settlement_outcome, FundingSource};
use crate::state::{FeeVault, GaslessProtocol, RelayerConfig, ServiceProvider, UserPermit};

verus! {

/// All records of one deployment: the protocol singleton, the services with
/// their fee vaults (the vault at position `i` belongs to the service at `i`),
/// the relayers' authorizations and the permits. Each record is found by its
/// key: a service by its identifier, a relayer by its address, a permit by
/// its (user, service, nonce) triple; no key is held twice.
#[derive(Clone, Debug, PartialEq, Eq)]
pub struct GaslessLedger {
    pub protocol: Option<GaslessProtocol>,
    pub services: Vec<ServiceProvider>,
    pub vaults: Vec<FeeVault>,
    pub relayers: Vec<RelayerConfig>,
    pub permits: Vec<UserPermit>,
}

impl GaslessLedger {
    /// The ledger's invariant.
    pub open spec fn wf(&self) -> bool {
        &&& (self.protocol matches Some(p) ==> p.wf())
        &&& self.services@.len() == self.vaults@.len()
        &&& forall|i: int|
            0 <= i < self.services@.len() ==> {
                &&& #[trigger] self.services@[i].wf()
                &&& self.vaults@[i].service_id@ == self.services@[i].service_id@
            }
        &&& forall|i: int, j: int|
            0 <= i < self.services@.len() && 0 <= j < self.services@.len()
                && #[trigger] self.services@[i].service_id@ == #[trigger] self.services@[j].service_id@
                ==> i == j
        &&& forall|i: int, j: int|
            0 <= i < self.relayers@.len() && 0 <= j < self.relayers@.len()
                && #[trigger] self.relayers@[i].relayer == #[trigger] self.relayers@[j].relayer
                ==> i == j
        &&& forall|i: int, j: int|
            0 <= i < self.permits@.len() && 0 <= j < self.permits@.len()
                && #[trigger] self.permits@[i].has_key(
                self.permits@[j].user,
                #[trigger] self.permits@[j].service_id@,
                self.permits@[j].nonce,
            ) ==> i == j
    }

    /// The service at position `i` is registered under `id`.
    pub open spec fn service_at(&self, i: int, id: Seq<char>) -> bool {
        0 <= i < self.services@.len() && self.services@[i].service_id@ == id
    }

    /// Some service is registered under `id`.
    pub open spec fn has_service(&self, id: Seq<char>) -> bool {
        exists|i: int| self.service_at(i, id)
    }

    /// The position of the service registered under `id`, where there is one.
    pub open spec fn service_index(&self, id: Seq<char>) -> int {
        choose|i: int| self.service_at(i, id)
    }

    /// The relayer record at position `i` is the one of `relayer`.
    pub open spec fn relayer_at(&self, i: int, relayer: Address) -> bool {
        0 <= i < self.relayers@.len() && self.relayers@[i].relayer == relayer
    }

    /// `relayer` has an authorization record.
    pub open spec fn has_relayer(&self, relayer: Address) -> bool {
        exists|i: int| self.relayer_at(i, relayer)
    }

    /// The position of the record of `relayer`, where there is one.
    pub open spec fn relayer_index(&self, relayer: Address) -> int {
        choose|i: int| self.relayer_at(i, relayer)
    }

    /// `relayer` has a record, and that record authorizes it.
    pub open spec fn relayer_authorized(&self, relayer: Address) -> bool {
        self.has_relayer(relayer) && self.relayers@[self.relayer_index(relayer)].is_authorized
    }

    /// The permit at position `i` is stored under (user, service, nonce).
    pub open spec fn permit_at(&self, i: int, user: Address, id: Seq<char>, nonce: u64) -> bool {
        0 <= i < self.permits@.len() && self.permits@[i].has_key(user, id, nonce)
    }

    /// Some permit is stored under (user, service, nonce).
    pub open spec fn has_permit(&self, user: Address, id: Seq<char>, nonce: u64) -> bool {
        exists|i: int| self.permit_at(i, user, id, nonce)
    }

    /// The position of the permit stored under (user, service, nonce), where there is one.
    pub open spec fn permit_index(&self, user: Address, id: Seq<char>, nonce: u64) -> int {
        choose|i: int| self.permit_at(i, user, id, nonce)
    }

    /// Under the invariant, a key found at a position is found only there.
    pub proof fn lemma_indices(&self)
        requires
            self.wf(),
        ensures
            forall|i: int, id: Seq<char>| #[trigger]
                self.service_at(i, id) ==> self.has_service(id) && self.service_index(id) == i,
            forall|i: int, a: Address| #[trigger]
                self.relayer_at(i, a) ==> self.has_relayer(a) && self.relayer_index(a) == i,
            forall|i: int, u: Address, id: Seq<char>, n: u64| #[trigger]
                self.permit_at(i, u, id, n) ==> self.has_permit(u, id, n) && self.permit_index(
                    u,
                    id,
                    n,
                ) == i,
    {
        assert forall|i: int, id: Seq<char>| #[trigger]
            self.service_at(i, id) implies self.has_service(id) && self.service_index(id) == i by {
            let j = self.service_index(id);
            assert(self.service_at(j, id));
        }
        assert forall|i: int, a: Address| #[trigger]
            self.relayer_at(i, a) implies self.has_relayer(a) && self.relayer_index(a) == i by {
            let j = self.relayer_index(a);
            assert(self.relayer_at(j, a));
        }
        assert forall|i: int, u: Address, id: Seq<char>, n: u64| #[trigger]
            self.permit_at(i, u, id, n) implies self.has_permit(u, id, n) && self.permit_index(
                u,
                id,
                n,
            ) == i by {
            let j = self.permit_index(u, id, n);
            assert(self.permit_at(j, u, id, n));
            assert(self.permits@[j].has_key(
                self.permits@[i].user,
                self.permits@[i].service_id@,
                self.permits@[i].nonce,
            ));
        }
    }

    /// An empty ledger: no protocol, no records.
    pub fn new() -> (r: GaslessLedger)
        ensures
            r.wf(),
            r.protocol is None,
            r.services@.len() == 0,
            r.vaults@.len() == 0,
            r.relayers@.len() == 0,
            r.permits@.len() == 0,
    {
        GaslessLedger {
            protocol: None,
            services: Vec::new(),
            vaults: Vec::new(),
            relayers: Vec::new(),
            permits: Vec::new(),
        }
    }

    /// Finds the service registered under `id`.
    pub fn find_service(&self, id: &String) -> (r: Option<usize>)
        requires
            self.wf(),
        ensures
            r matches Some(i) ==> self.service_at(i as int, id@) && self.service_index(id@) == i,
            r is None <==> !self.has_service(id@),
    {
        let mut i: usize = 0;
        while i < self.services.len()
            invariant
                i <= self.services@.len(),
                self.wf(),
                forall|j: int| 0 <= j < i ==> !self.service_at(j, id@),
            decreases self.services@.len() - i,
        {
            if self.services[i].service_id == *id {
                proof {
                    self.lemma_indices();
                    assert(self.service_at(i as int, id@));
                }
                return Some(i);
            }
            i = i + 1;
        }
        None
    }

    /// Finds the record of `relayer`.
    pub fn find_relayer(&self, relayer: &Address) -> (r: Option<usize>)
        requires
            self.wf(),
        ensures
            r matches Some(i) ==> self.relayer_at(i as int, *relayer) && self.relayer_index(*relayer)
                == i,
            r is None <==> !self.has_relayer(*relayer),
    {
        let mut i: usize = 0;
        while i < self.relayers.len()
            invariant
                i <= self.relayers@.len(),
                self.wf(),
                forall|j: int| 0 <= j < i ==> !self.relayer_at(j, *relayer),
            decreases self.relayers@.len() - i,
        {
            if self.relayers[i].relayer == *relayer {
                proof {
                    self.lemma_indices();
                    assert(self.relayer_at(i as int, *relayer));
                }
                return Some(i);
            }
            i = i + 1;
        }
        None
    }

    /// Finds the permit stored under (user, service, nonce).
    pub fn find_permit(&self, user: &Address, id: &String, nonce: u64) -> (r: Option<usize>)
        requires
            self.wf(),
        ensures
            r matches Some(i) ==> self.permit_at(i as int, *user, id@, nonce) && self.permit_index(
                *user,
                id@,
                nonce,
            ) == i,
            r is None <==> !self.has_permit(*user, id@, nonce),
    {
        let mut i: usize = 0;
        while i < self.permits.len()
            invariant
                i <= self.permits@.len(),
                self.wf(),
                forall|j: int| 0 <= j < i ==> !self.permit_at(j, *user, id@, nonce),
            decreases self.permits@.len() - i,
        {
            let p = &self.permits[i];
            if p.user == *user && p.service_id == *id && p.nonce == nonce {
                proof {
                    self.lemma_indices();
                    assert(self.permit_at(i as int, *user, id@, nonce));
                }
                return Some(i);
            }
            i = i + 1;
        }
        None
    }

    /// Why `initialize_protocol` refuses a fee rate of `protocol_fee_bps`, if it does.
    pub open spec fn initialize_error(&self, protocol_fee_bps: u16) -> Option<
        GaslessInfrastructureError,
    > {
        if self.protocol is Some {
            Some(GaslessInfrastructureError::AlreadyInitialized)
        } else if protocol_fee_bps > MAX_FEE_BPS {
            Some(GaslessInfrastructureError::InvalidFeeParameters)
        } else {
            None
        }
    }

    /// Creates the protocol record, once: `admin` holds the configuration
    /// rights, the protocol starts active with zeroed counters.
    pub fn initialize_protocol(
        &mut self,
        admin: Address,
        master_treasury: Address,
        protocol_fee_bps: u16,
    ) -> (r: Result<(), GaslessInfrastructureError>)
        requires
            old(self).wf(),
        ensures
            final(self).wf(),
            match old(self).initialize_error(protocol_fee_bps) {
                Some(e) => r == Err::<(), _>(e) && *final(self) == *old(self),
                None => {
                    &&& r is Ok
                    &&& final(self).protocol == Some(
                        GaslessProtocol {
                            admin,
                            master_treasury,
                            protocol_fee_bps,
                            total_services: 0,
                            total_transactions: 0,
                            is_active: true,
                        },
                    )
                    &&& final(self).services == old(self).services
                    &&& final(self).vaults == old(self).vaults
                    &&& final(self).relayers == old(self).relayers
                    &&& final(self).permits == old(self).permits
                },
            },
    {
        if self.protocol.is_some() {
            return Err(GaslessInfrastructureError::AlreadyInitialized);
        }
        if protocol_fee_bps > MAX_FEE_BPS {
            return Err(GaslessInfrastructureError::InvalidFeeParameters);
        }
        self.protocol = Some(
            GaslessProtocol {
                admin,
                master_treasury,
                protocol_fee_bps,
                total_services: 0,
                total_transactions: 0,
                is_active: true,
            },
        );
        Ok(())
    }

    /// Why `set_protocol_active` refuses `signer`, if it does.
    pub open spec fn set_active_error(&self, signer: Address) -> Option<GaslessInfrastructureError> {
        match self.protocol {
            None => Some(GaslessInfrastructureError::ProtocolNotInitialized),
            Some(p) => if p.admin != signer {
                Some(GaslessInfrastructureError::UnauthorizedProtocolAdmin)
            } else {
                None
            },
        }
    }

    /// Suspends or resumes the protocol; only its admin may.
    pub fn set_protocol_active(&mut self, signer: Address, is_active: bool) -> (r: Result<
        (),
        GaslessInfrastructureError,
    >)
        requires
            old(self).wf(),
        ensures
            final(self).wf(),
            match old(self).set_active_error(signer) {
                Some(e) => r == Err::<(), _>(e) && *final(self) == *old(self),
                None => {
                    &&& r is Ok
                    &&& final(self).protocol == Some(
                        GaslessProtocol { is_active, ..old(self).protocol->0 },
                    )
                    &&& final(self).services == old(self).services
                    &&& final(self).vaults == old(self).vaults
                    &&& final(self).relayers == old(self).relayers
                    &&& final(self).permits == old(self).permits
                },
            },
    {
        match self.protocol {
            None => Err(GaslessInfrastructureError::ProtocolNotInitialized),
            Some(p) => {
                if p.admin != signer {
                    return Err(GaslessInfrastructureError::UnauthorizedProtocolAdmin);
                }
                self.protocol = Some(GaslessProtocol { is_active, ..p });
                Ok(())
            },
        }
    }

    /// Why `register_service` refuses, if it does.
    pub open spec fn register_error(
        &self,
        service_id: Seq<char>,
        service_fee_bps: u16,
        max_transaction_amount: u64,
        allowed_programs: Seq<Address>,
    ) -> Option<GaslessInfrastructureError> {
        match self.protocol {
            None => Some(GaslessInfrastructureError::ProtocolNotInitialized),
            Some(p) => if self.has_service(service_id) {
                Some(GaslessInfrastructureError::AlreadyInitialized)
            } else if service_id.len() == 0 || service_fee_bps > MAX_FEE_BPS
                || max_transaction_amount == 0 {
                Some(GaslessInfrastructureError::InvalidFeeParameters)
            } else if allowed_programs.len() == 0 {
                Some(GaslessInfrastructureError::ProgramNotWhitelisted)
            } else if !p.is_active {
                Some(GaslessInfrastructureError::ProtocolNotActive)
            } else {
                None
            },
        }
    }

    /// What `register_service` does: on a refusal it returns the error and
    /// changes nothing; otherwise it appends the new service (active, with no
    /// transactions) and its empty vault, and counts the service.
    pub open spec fn register_step(
        &self,
        after: GaslessLedger,
        r: Result<(), GaslessInfrastructureError>,
        owner: Address,
        fee_collector: Address,
        treasury_vault: Address,
        service_id: String,
        service_fee_bps: u16,
        max_transaction_amount: u64,
        allowed_programs: Vec<Address>,
    ) -> bool {
        match self.register_error(
            service_id@,
            service_fee_bps,
            max_transaction_amount,
            allowed_programs@,
        ) {
            Some(e) => r == Err::<(), _>(e) && after == *self,
            None => {
                &&& r is Ok
                &&& after.protocol == Some(
                    GaslessProtocol {
                        total_services: self.protocol->0.total_services.saturating_add(1),
                        ..self.protocol->0
                    },
                )
                &&& after.services@ == self.services@.push(
                    ServiceProvider {
                        service_id,
                        owner,
                        fee_collector,
                        treasury_vault,
                        service_fee_bps,
                        max_transaction_amount,
                        allowed_programs,
                        is_active: true,
                        total_transactions: 0,
                    },
                )
                &&& after.vaults@ == self.vaults@.push(
                    FeeVault {
                        service_id,
                        sol_balance: 0,
                        total_fees_collected: 0,
                        total_gas_reimbursed: 0,
                    },
                )
                &&& after.relayers == self.relayers
                &&& after.permits == self.permits
            },
        }
    }

    /// Registers a service under `service_id`, active and with no
    /// transactions, together with its empty fee vault, and counts it in the
    /// protocol's services.
    pub fn register_service(
        &mut self,
        owner: Address,
        fee_collector: Address,
        treasury_vault: Address,
        service_id: String,
        service_fee_bps: u16,
        max_transaction_amount: u64,
        allowed_programs: Vec<Address>,
    ) -> (r: Result<(), GaslessInfrastructureError>)
        requires
            old(self).wf(),
        ensures
            final(self).wf(),
            old(self).register_step(
                *final(self),
                r,
                owner,
                fee_collector,
                treasury_vault,
                service_id,
                service_fee_bps,
                max_transaction_amount,
                allowed_programs,
            ),
    {
        let p = match self.protocol {
            None => {
                return Err(GaslessInfrastructureError::ProtocolNotInitialized);
            },
            Some(p) => p,
        };
        if self.find_service(&service_id).is_some() {
            return Err(GaslessInfrastructureError::AlreadyInitialized);
        }
        if service_id.as_str().is_empty() || service_fee_bps > MAX_FEE_BPS || max_transaction_amount == 0 {
            return Err(GaslessInfrastructureError::InvalidFeeParameters);
        }
        if allowed_programs.len() == 0 {
            return Err(GaslessInfrastructureError::ProgramNotWhitelisted);
        }
        if !p.is_active {
            return Err(GaslessInfrastructureError::ProtocolNotActive);
        }
        let vault = FeeVault {
            service_id: service_id.clone(),
            sol_balance: 0,
            total_fees_collected: 0,
            total_gas_reimbursed: 0,
        };
        let service = ServiceProvider {
            service_id,
            owner,
            fee_collector,
            treasury_vault,
            service_fee_bps,
            max_transaction_amount,
            allowed_programs,
            is_active: true,
            total_transactions: 0,
        };
        let ghost old_ledger = *self;
        self.services.push(service);
        self.vaults.push(vault);
        self.protocol = Some(
            GaslessProtocol { total_services: p.total_services.saturating_add(1), ..p },
        );
        proof {
            let n = old_ledger.services@.len() as int;
            assert forall|i: int, j: int|
                0 <= i < self.services@.len() && 0 <= j < self.services@.len()
                    && #[trigger] self.services@[i].service_id@
                    == #[trigger] self.services@[j].service_id@ implies i == j by {
                if i != j && (i == n || j == n) {
                    let k = if i == n { j } else { i };
                    assert(old_ledger.service_at(k, self.services@[n].service_id@));
                }
            }
        }
        Ok(())
    }

    /// Why `authorize_relayer` refuses, if it does.
    pub open spec fn authorize_error(&self, signer: Address, relayer: Address) -> Option<
        GaslessInfrastructureError,
    > {
        match self.protocol {
            None => Some(GaslessInfrastructureError::ProtocolNotInitialized),
            Some(p) => if p.admin != signer {
                Some(GaslessInfrastructureError::UnauthorizedProtocolAdmin)
            } else if self.has_relayer(relayer) {
                Some(GaslessInfrastructureError::AlreadyInitialized)
            } else if !p.is_active {
                Some(GaslessInfrastructureError::ProtocolNotActive)
            } else {
                None
            },
        }
    }

    /// The protocol's admin authorizes `relayer` at time `now`: its record
    /// starts authorized, with no relayed transactions.
    pub fn authorize_relayer(&mut self, signer: Address, relayer: Address, now: i64) -> (r: Result<
        (),
        GaslessInfrastructureError,
    >)
        requires
            old(self).wf(),
        ensures
            final(self).wf(),
            match old(self).authorize_error(signer, relayer) {
                Some(e) => r == Err::<(), _>(e) && *final(self) == *old(self),
                None => {
                    &&& r is Ok
                    &&& final(self).relayers@ == old(self).relayers@.push(
                        RelayerConfig {
                            relayer,
                            is_authorized: true,
                            total_relayed: 0,
                            last_activity: now,
                        },
                    )
                    &&& final(self).protocol == old(self).protocol
                    &&& final(self).services == old(self).services
                    &&& final(self).vaults == old(self).vaults
                    &&& final(self).permits == old(self).permits
                },
            },
    {
        let p = match self.protocol {
            None => {
                return Err(GaslessInfrastructureError::ProtocolNotInitialized);
            },
            Some(p) => p,
        };
        if p.admin != signer {
            return Err(GaslessInfrastructureError::UnauthorizedProtocolAdmin);
        }
        if self.find_relayer(&relayer).is_some() {
            return Err(GaslessInfrastructureError::AlreadyInitialized);
        }
        if !p.is_active {
            return Err(GaslessInfrastructureError::ProtocolNotActive);
        }
        let ghost old_ledger = *self;
        self.relayers.push(
            RelayerConfig { relayer, is_authorized: true, total_relayed: 0, last_activity: now },
        );
        proof {
            let n = old_ledger.relayers@.len() as int;
            assert forall|i: int, j: int|
                0 <= i < self.relayers@.len() && 0 <= j < self.relayers@.len()
                    && #[trigger] self.relayers@[i].relayer
                    == #[trigger] self.relayers@[j].relayer implies i == j by {
                if i != j && (i == n || j == n) {
                    let k = if i == n { j } else { i };
                    assert(old_ledger.relayer_at(k, relayer));
                }
            }
        }
        Ok(())
    }

    /// Why `create_user_permit` refuses, if it does.
    pub open spec fn create_permit_error(
        &self,
        user: Address,
        service_id: Seq<char>,
        nonce: u64,
        instruction_data: Seq<u8>,
        target_program: Address,
        expiry: i64,
        max_fee: u64,
        signature: Seq<u8>,
        now: i64,
    ) -> Option<GaslessInfrastructureError> {
        let service = self.services@[self.service_index(service_id)];
        if !self.has_service(service_id) {
            Some(GaslessInfrastructureError::ServiceNotFound)
        } else if !service.is_active {
            Some(GaslessInfrastructureError::ServiceNotActive)
        } else if self.has_permit(user, service_id, nonce) {
            Some(GaslessInfrastructureError::InvalidNonce)
        } else if expiry <= now {
            Some(GaslessInfrastructureError::ExpiredPermit)
        } else if instruction_data.len() == 0 {
            Some(GaslessInfrastructureError::InvalidNonce)
        } else if signature.len() == 0 {
            Some(GaslessInfrastructureError::InvalidSignature)
        } else if max_fee == 0 {
            Some(GaslessInfrastructureError::InvalidFeeParameters)
        } else if !service.allows(target_program) {
            Some(GaslessInfrastructureError::ProgramNotWhitelisted)
        } else {
            None
        }
    }

    /// Stores a permit of `user` for an action of service `service_id`, not
    /// yet executed. Its (user, service, nonce) triple must be new: a permit
    /// is never recreated, executed or not.
    pub fn create_user_permit(
        &mut self,
        user: Address,
        service_id: String,
        nonce: u64,
        instruction_data: Vec<u8>,
        target_program: Address,
        expiry: i64,
        max_fee: u64,
        signature: Vec<u8>,
        now: i64,
    ) -> (r: Result<(), GaslessInfrastructureError>)
        requires
            old(self).wf(),
        ensures
            final(self).wf(),
            match old(self).create_permit_error(
                user,
                service_id@,
                nonce,
                instruction_data@,
                target_program,
                expiry,
                max_fee,
                signature@,
                now,
            ) {
                Some(e) => r == Err::<(), _>(e) && *final(self) == *old(self),
                None => {
                    &&& r is Ok
                    &&& final(self).permits@ == old(self).permits@.push(
                        UserPermit {
                            user,
                            service_id,
                            nonce,
                            instruction_data,
                            target_program,
                            expiry,
                            max_fee,
                            executed: false,
                            signature,
                        },
                    )
                    &&& final(self).protocol == old(self).protocol
                    &&& final(self).services == old(self).services
                    &&& final(self).vaults == old(self).vaults
                    &&& final(self).relayers == old(self).relayers
                },
            },
    {
        let i = match self.find_service(&service_id) {
            None => {
                return Err(GaslessInfrastructureError::ServiceNotFound);
            },
            Some(i) => i,
        };
        if !self.services[i].is_active {
            return Err(GaslessInfrastructureError::ServiceNotActive);
        }
        if self.find_permit(&user, &service_id, nonce).is_some() {
            return Err(GaslessInfrastructureError::InvalidNonce);
        }
        if expiry <= now {
            return Err(GaslessInfrastructureError::ExpiredPermit);
        }
        if instruction_data.len() == 0 {
            return Err(GaslessInfrastructureError::InvalidNonce);
        }
        if signature.len() == 0 {
            return Err(GaslessInfrastructureError::InvalidSignature);
        }
        if max_fee == 0 {
            return Err(GaslessInfrastructureError::InvalidFeeParameters);
        }
        if !self.services[i].is_whitelisted(&target_program) {
            return Err(GaslessInfrastructureError::ProgramNotWhitelisted);
        }
        let ghost old_ledger = *self;
        self.permits.push(
            UserPermit {
                user,
                service_id,
                nonce,
                instruction_data,
                target_program,
                expiry,
                max_fee,
                executed: false,
                signature,
            },
        );
        proof {
            let n = old_ledger.permits@.len() as int;
            let new_permit = self.permits@[n];
            assert forall|i: int, j: int|
                0 <= i < self.permits@.len() && 0 <= j < self.permits@.len()
                    && #[trigger] self.permits@[i].has_key(
                    self.permits@[j].user,
                    #[trigger] self.permits@[j].service_id@,
                    self.permits@[j].nonce,
                ) implies i == j by {
                if i != j && i == n {
                    assert(old_ledger.permit_at(j, user, new_permit.service_id@, nonce));
                }
                if i != j && j == n {
                    assert(old_ledger.permit_at(i, user, new_permit.service_id@, nonce));
                }
            }
        }
        Ok(())
    }

    /// Why `update_service_config` refuses, if it does.
    pub open spec fn update_config_error(
        &self,
        signer: Address,
        service_id: Seq<char>,
        new_fee_bps: Option<u16>,
        new_max_amount: Option<u64>,
    ) -> Option<GaslessInfrastructureError> {
        let service = self.services@[self.service_index(service_id)];
        if !self.has_service(service_id) {
            Some(GaslessInfrastructureError::ServiceNotFound)
        } else if service.owner != signer {
            Some(GaslessInfrastructureError::UnauthorizedServiceOwner)
        } else if new_fee_bps matches Some(bps) && bps > MAX_FEE_BPS {
            Some(GaslessInfrastructureError::InvalidFeeParameters)
        } else if new_max_amount == Some(0u64) {
            Some(GaslessInfrastructureError::InvalidFeeParameters)
        } else {
            None
        }
    }

    /// The service's owner changes its fee rate, its per-transaction cap and
    /// its active flag: each that is given, and only those. All given values
    /// are checked before any is applied.
    pub fn update_service_config(
        &mut self,
        signer: Address,
        service_id: &String,
        new_fee_bps: Option<u16>,
        new_max_amount: Option<u64>,
        new_is_active: Option<bool>,
    ) -> (r: Result<(), GaslessInfrastructureError>)
        requires
            old(self).wf(),
        ensures
            final(self).wf(),
            match old(self).update_config_error(signer, service_id@, new_fee_bps, new_max_amount) {
                Some(e) => r == Err::<(), _>(e) && *final(self) == *old(self),
                None => {
                    let i = old(self).service_index(service_id@);
                    &&& r is Ok
                    &&& final(self).services@ == old(self).services@.update(
                        i,
                        old(self).services@[i].reconfigured(
                            new_fee_bps,
                            new_max_amount,
                            new_is_active,
                        ),
                    )
                    &&& final(self).protocol == old(self).protocol
                    &&& final(self).vaults == old(self).vaults
                    &&& final(self).relayers == old(self).relayers
                    &&& final(self).permits == old(self).permits
                },
            },
    {
        let i = match self.find_service(service_id) {
            None => {
                return Err(GaslessInfrastructureError::ServiceNotFound);
            },
            Some(i) => i,
        };
        if self.services[i].owner != signer {
            return Err(GaslessInfrastructureError::UnauthorizedServiceOwner);
        }
        if let Some(bps) = new_fee_bps {
            if bps > MAX_FEE_BPS {
                return Err(GaslessInfrastructureError::InvalidFeeParameters);
            }
        }
        if new_max_amount == Some(0u64) {
            return Err(GaslessInfrastructureError::InvalidFeeParameters);
        }
        let ghost old_ledger = *self;
        self.services[i].reconfigure(new_fee_bps, new_max_amount, new_is_active);
        proof {
            assert forall|k: int| 0 <= k < self.services@.len() implies {
                &&& #[trigger] self.services@[k].wf()
                &&& self.vaults@[k].service_id@ == self.services@[k].service_id@
            } by {
                assert(old_ledger.services@[k].wf());
            }
            assert forall|a: int, b: int|
                0 <= a < self.services@.len() && 0 <= b < self.services@.len()
                    && #[trigger] self.services@[a].service_id@
                    == #[trigger] self.services@[b].service_id@ implies a == b by {
                assert(old_ledger.services@[a].service_id@ == self.services@[a].service_id@);
                assert(old_ledger.services@[b].service_id@ == self.services@[b].service_id@);
            }
        }
        Ok(())
    }

    /// Why `deposit_treasury` refuses, if it does.
    pub open spec fn deposit_error(&self, service_id: Seq<char>, amount: u64) -> Option<
        GaslessInfrastructureError,
    > {
        if !self.has_service(service_id) {
            Some(GaslessInfrastructureError::ServiceNotFound)
        } else if !self.services@[self.service_index(service_id)].is_active {
            Some(GaslessInfrastructureError::ServiceNotActive)
        } else if amount == 0 {
            Some(GaslessInfrastructureError::InvalidFeeParameters)
        } else {
            None
        }
    }

    /// Books a deposit of `amount` token units into the service's vault: its
    /// balance grows by their lamport equivalent, `amount / 1000` (saturating).
    /// Returns the lamports credited.
    pub fn deposit_treasury(&mut self, service_id: &String, amount: u64) -> (r: Result<
        u64,
        GaslessInfrastructureError,
    >)
        requires
            old(self).wf(),
        ensures
            final(self).wf(),
            match old(self).deposit_error(service_id@, amount) {
                Some(e) => r == Err::<u64, _>(e) && *final(self) == *old(self),
                None => {
                    let i = old(self).service_index(service_id@);
                    let vault = old(self).vaults@[i];
                    &&& r == Ok::<u64, GaslessInfrastructureError>(
                        amount / USDC_TO_SOL_CONVERSION,
                    )
                    &&& final(self).vaults@ == old(self).vaults@.update(
                        i,
                        FeeVault {
                            sol_balance: vault.sol_balance.saturating_add(
                                amount / USDC_TO_SOL_CONVERSION,
                            ),
                            ..vault
                        },
                    )
                    &&& final(self).protocol == old(self).protocol
                    &&& final(self).services == old(self).services
                    &&& final(self).relayers == old(self).relayers
                    &&& final(self).permits == old(self).permits
                },
            },
    {
        let i = match self.find_service(service_id) {
            None => {
                return Err(GaslessInfrastructureError::ServiceNotFound);
            },
            Some(i) => i,
        };
        if !self.services[i].is_active {
            return Err(GaslessInfrastructureError::ServiceNotActive);
        }
        if amount == 0 {
            return Err(GaslessInfrastructureError::InvalidFeeParameters);
        }
        let credit = amount / USDC_TO_SOL_CONVERSION;
        let ghost old_ledger = *self;
        self.vaults[i].sol_balance = self.vaults[i].sol_balance.saturating_add(credit);
        proof {
            assert forall|k: int| 0 <= k < self.services@.len() implies {
                &&& #[trigger] self.services@[k].wf()
                &&& self.vaults@[k].service_id@ == self.services@[k].service_id@
            } by {
                assert(old_ledger.services@[k].wf());
            }
        }
        Ok(credit)
    }

    /// Why `withdraw_fees` refuses, if it does; `vault_token_balance` is what
    /// the vault's token account holds.
    pub open spec fn withdraw_error(
        &self,
        signer: Address,
        service_id: Seq<char>,
        amount: u64,
        vault_token_balance: u64,
    ) -> Option<GaslessInfrastructureError> {
        if !self.has_service(service_id) {
            Some(GaslessInfrastructureError::ServiceNotFound)
        } else if self.services@[self.service_index(service_id)].owner != signer {
            Some(GaslessInfrastructureError::UnauthorizedServiceOwner)
        } else if amount == 0 {
            Some(GaslessInfrastructureError::InvalidFeeParameters)
        } else if vault_token_balance < amount {
            Some(GaslessInfrastructureError::InsufficientTreasury)
        } else {
            None
        }
    }

    /// The service's owner books a withdrawal of `amount` token units from
    /// the vault's token account, which holds `vault_token_balance`, to the
    /// fee collector: the vault's balance shrinks by `amount / 1000`
    /// (saturating at zero). Returns the lamports debited.
    pub fn withdraw_fees(
        &mut self,
        signer: Address,
        service_id: &String,
        amount: u64,
        vault_token_balance: u64,
    ) -> (r: Result<u64, GaslessInfrastructureError>)
        requires
            old(self).wf(),
        ensures
            final(self).wf(),
            match old(self).withdraw_error(signer, service_id@, amount, vault_token_balance) {
                Some(e) => r == Err::<u64, _>(e) && *final(self) == *old(self),
                None => {
                    let i = old(self).service_index(service_id@);
                    let vault = old(self).vaults@[i];
                    &&& r == Ok::<u64, GaslessInfrastructureError>(
                        amount / USDC_TO_SOL_CONVERSION,
                    )
                    &&& final(self).vaults@ == old(self).vaults@.update(
                        i,
                        FeeVault {
                            sol_balance: vault.sol_balance.saturating_sub(
                                amount / USDC_TO_SOL_CONVERSION,
                            ),
                            ..vault
                        },
                    )
                    &&& final(self).protocol == old(self).protocol
                    &&& final(self).services == old(self).services
                    &&& final(self).relayers == old(self).relayers
                    &&& final(self).permits == old(self).permits
                },
            },
    {
        let i = match self.find_service(service_id) {
            None => {
                return Err(GaslessInfrastructureError::ServiceNotFound);
            },
            Some(i) => i,
        };
        if self.services[i].owner != signer {
            return Err(GaslessInfrastructureError::UnauthorizedServiceOwner);
        }
        if amount == 0 {
            return Err(GaslessInfrastructureError::InvalidFeeParameters);
        }
        if vault_token_balance < amount {
            return Err(GaslessInfrastructureError::InsufficientTreasury);
        }
        let debit = amount / USDC_TO_SOL_CONVERSION;
        let ghost old_ledger = *self;
        self.vaults[i].sol_balance = self.vaults[i].sol_balance.saturating_sub(debit);
        proof {
            assert forall|k: int| 0 <= k < self.services@.len() implies {
                &&& #[trigger] self.services@[k].wf()
                &&& self.vaults@[k].service_id@ == self.services@[k].service_id@
            } by {
                assert(old_ledger.services@[k].wf());
            }
        }
        Ok(debit)
    }

    /// The engine's verdict on settling the permit stored under
    /// (`user`, `service_id`, `nonce`), relayed by `relayer` at time `now`,
    /// for an action that costs `base_cost`: the costs to move, or the first
    /// refusal. Records that do not exist refuse first.
    pub open spec fn settlement_verdict(
        &self,
        relayer: Address,
        user: Address,
        service_id: Seq<char>,
        nonce: u64,
        now: i64,
        base_cost: u64,
        funding: FundingSource,
    ) -> Result<FeeBreakdown, GaslessInfrastructureError> {
        match self.protocol {
            None => Err(GaslessInfrastructureError::ProtocolNotInitialized),
            Some(protocol) => if !self.has_service(service_id) {
                Err(GaslessInfrastructureError::ServiceNotFound)
            } else if !self.has_permit(user, service_id, nonce) {
                Err(GaslessInfrastructureError::PermitNotFound)
            } else {
                let i = self.service_index(service_id);
                settlement_outcome(
                    protocol,
                    self.services@[i],
                    self.vaults@[i],
                    self.permits@[self.permit_index(user, service_id, nonce)],
                    self.relayer_authorized(relayer),
                    now,
                    base_cost,
                    funding,
                )
            },
        }
    }

    /// `after` is this ledger once a settlement of `costs` is committed: the
    /// permit is executed, the protocol, service and relayer count one more
    /// transaction, the relayer's last activity is `now`, and the vault books
    /// the reimbursement and the fees (and pays them, when it is the funding
    /// source). Nothing else changes.
    pub open spec fn settles_into(
        &self,
        after: GaslessLedger,
        relayer: Address,
        user: Address,
        service_id: Seq<char>,
        nonce: u64,
        now: i64,
        costs: FeeBreakdown,
        funding: FundingSource,
    ) -> bool {
        let i = self.service_index(service_id);
        let k = self.permit_index(user, service_id, nonce);
        let m = self.relayer_index(relayer);
        &&& after.protocol == Some(self.protocol->0.settled())
        &&& after.services@ == self.services@.update(i, self.services@[i].settled())
        &&& after.vaults@ == self.vaults@.update(
            i,
            self.vaults@[i].settled(costs, funding == FundingSource::FeeVault),
        )
        &&& after.permits@ == self.permits@.update(k, self.permits@[k].settled())
        &&& after.relayers@ == self.relayers@.update(m, self.relayers@[m].settled(now))
    }

    /// What one settlement call does: where the verdict refuses, or the
    /// target action failed (`action_succeeded` false), it returns the error
    /// and changes nothing; otherwise it returns the costs and commits them.
    pub open spec fn settlement_step(
        &self,
        after: GaslessLedger,
        r: Result<FeeBreakdown, GaslessInfrastructureError>,
        relayer: Address,
        user: Address,
        service_id: Seq<char>,
        nonce: u64,
        now: i64,
        base_cost: u64,
        funding: FundingSource,
        action_succeeded: bool,
    ) -> bool {
        match self.settlement_verdict(relayer, user, service_id, nonce, now, base_cost, funding) {
            Err(e) => r == Err::<FeeBreakdown, _>(e) && after == *self,
            Ok(costs) => if action_succeeded {
                r == Ok::<_, GaslessInfrastructureError>(costs) && self.settles_into(
                    after,
                    relayer,
                    user,
                    service_id,
                    nonce,
                    now,
                    costs,
                    funding,
                )
            } else {
                r == Err::<FeeBreakdown, _>(GaslessInfrastructureError::TargetActionFailed)
                    && after == *self
            },
        }
    }

    /// Runs every gate of a settlement without changing anything; where it
    /// passes, returns its costs with the positions of the service, the
    /// permit and the relayer.
    fn plan_settlement(
        &self,
        relayer: &Address,
        user: &Address,
        service_id: &String,
        nonce: u64,
        now: i64,
        base_cost: u64,
        funding: FundingSource,
    ) -> (r: Result<(FeeBreakdown, usize, usize, usize), GaslessInfrastructureError>)
        requires
            self.wf(),
        ensures
            match r {
                Ok((costs, i, k, m)) => {
                    &&& self.settlement_verdict(
                        *relayer,
                        *user,
                        service_id@,
                        nonce,
                        now,
                        base_cost,
                        funding,
                    ) == Ok::<_, GaslessInfrastructureError>(costs)
                    &&& costs.service_fee + costs.protocol_fee <= costs.total_cost
                    &&& funding == FundingSource::FeeVault ==> costs.total_cost
                        <= self.vaults@[i as int].sol_balance
                    &&& self.service_at(i as int, service_id@)
                    &&& i == self.service_index(service_id@)
                    &&& self.permit_at(k as int, *user, service_id@, nonce)
                    &&& k == self.permit_index(*user, service_id@, nonce)
                    &&& self.relayer_at(m as int, *relayer)
                    &&& m == self.relayer_index(*relayer)
                },
                Err(e) => self.settlement_verdict(
                    *relayer,
                    *user,
                    service_id@,
                    nonce,
                    now,
                    base_cost,
                    funding,
                ) == Err::<FeeBreakdown, _>(e),
            },
    {
        let protocol = match self.protocol {
            None => {
                return Err(GaslessInfrastructureError::ProtocolNotInitialized);
            },
            Some(p) => p,
        };
        let i = match self.find_service(service_id) {
            None => {
                return Err(GaslessInfrastructureError::ServiceNotFound);
            },
            Some(i) => i,
        };
        let k = match self.find_permit(user, service_id, nonce) {
            None => {
                return Err(GaslessInfrastructureError::PermitNotFound);
            },
            Some(k) => k,
        };
        let found = self.find_relayer(relayer);
        let relayer_authorized = match found {
            None => false,
            Some(m) => self.relayers[m].is_authorized,
        };
        let costs = check_settlement(
            &protocol,
            &self.services[i],
            &self.vaults[i],
            &self.permits[k],
            relayer_authorized,
            now,
            base_cost,
            funding,
        )?;
        match found {
            Some(m) => Ok((costs, i, k, m)),
            None => Err(GaslessInfrastructureError::UnauthorizedRelayer),
        }
    }

    /// Runs every gate of a settlement without changing anything, and
    /// returns its costs: the check to make before the target action runs.
    pub fn quote_settlement(
        &self,
        relayer: &Address,
        user: &Address,
        service_id: &String,
        nonce: u64,
        now: i64,
        base_cost: u64,
        funding: FundingSource,
    ) -> (r: Result<FeeBreakdown, GaslessInfrastructureError>)
        requires
            self.wf(),
        ensures
            r == self.settlement_verdict(*relayer, *user, service_id@, nonce, now, base_cost, funding),
    {
        match self.plan_settlement(relayer, user, service_id, nonce, now, base_cost, funding) {
            Ok((costs, _, _, _)) => Ok(costs),
            Err(e) => Err(e),
        }
    }

    /// Settles a permit for an action that costs `base_cost`.
    fn settle(
        &mut self,
        relayer: Address,
        user: Address,
        service_id: &String,
        nonce: u64,
        now: i64,
        base_cost: u64,
        funding: FundingSource,
        action_succeeded: bool,
    ) -> (r: Result<FeeBreakdown, GaslessInfrastructureError>)
        requires
            old(self).wf(),
        ensures
            final(self).wf(),
            old(self).settlement_step(
                *final(self),
                r,
                relayer,
                user,
                service_id@,
                nonce,
                now,
                base_cost,
                funding,
                action_succeeded,
            ),
    {
        let (costs, i, k, m) = self.plan_settlement(
            &relayer,
            &user,
            service_id,
            nonce,
            now,
            base_cost,
            funding,
        )?;
        if !action_succeeded {
            return Err(GaslessInfrastructureError::TargetActionFailed);
        }
        let ghost old_ledger = *self;
        let mut settled_protocol = self.protocol.unwrap();
        settled_protocol.record_settlement();
        self.protocol = Some(settled_protocol);
        self.services[i].record_settlement();
        self.vaults[i].record_settlement(costs, funding == FundingSource::FeeVault);
        self.permits[k].mark_executed();
        self.relayers[m].record_settlement(now);
        proof {
            assert forall|a: int| 0 <= a < self.services@.len() implies {
                &&& #[trigger] self.services@[a].wf()
                &&& self.vaults@[a].service_id@ == self.services@[a].service_id@
            } by {
                assert(old_ledger.services@[a].wf());
            }
            assert forall|a: int, b: int|
                0 <= a < self.services@.len() && 0 <= b < self.services@.len()
                    && #[trigger] self.services@[a].service_id@
                    == #[trigger] self.services@[b].service_id@ implies a == b by {
                assert(old_ledger.services@[a].service_id@ == self.services@[a].service_id@);
                assert(old_ledger.services@[b].service_id@ == self.services@[b].service_id@);
            }
            assert forall|a: int, b: int|
                0 <= a < self.relayers@.len() && 0 <= b < self.relayers@.len()
                    && #[trigger] self.relayers@[a].relayer
                    == #[trigger] self.relayers@[b].relayer implies a == b by {
                assert(old_ledger.relayers@[a].relayer == self.relayers@[a].relayer);
                assert(old_ledger.relayers@[b].relayer == self.relayers@[b].relayer);
            }
            assert forall|a: int, b: int|
                0 <= a < self.permits@.len() && 0 <= b < self.permits@.len()
                    && #[trigger] self.permits@[a].has_key(
                    self.permits@[b].user,
                    #[trigger] self.permits@[b].service_id@,
                    self.permits@[b].nonce,
                ) implies a == b by {
                assert(old_ledger.permits@[a].has_key(
                    old_ledger.permits@[b].user,
                    old_ledger.permits@[b].service_id@,
                    old_ledger.permits@[b].nonce,
                ));
            }
        }
        Ok(costs)
    }

    /// Executes the permit stored under (`user`, `service_id`, `nonce`) on
    /// behalf of `relayer`, at time `now`, for the flat execution cost.
    /// `action_succeeded` is the outcome of the permit's target action. On
    /// success the permit can never be executed again.
    pub fn execute_gasless_transaction(
        &mut self,
        relayer: Address,
        user: Address,
        service_id: &String,
        nonce: u64,
        now: i64,
        funding: FundingSource,
        action_succeeded: bool,
    ) -> (r: Result<FeeBreakdown, GaslessInfrastructureError>)
        requires
            old(self).wf(),
        ensures
            final(self).wf(),
            old(self).settlement_step(
                *final(self),
                r,
                relayer,
                user,
                service_id@,
                nonce,
                now,
                EXECUTION_BASE_COST,
                funding,
                action_succeeded,
            ),
    {
        self.settle(
            relayer,
            user,
            service_id,
            nonce,
            now,
            EXECUTION_BASE_COST,
            funding,
            action_succeeded,
        )
    }

    /// Settles a permit whose action mints one collectible to its user, for
    /// the flat minting cost; `minted` is the outcome of the mint.
    pub fn mint_nft_gasless(
        &mut self,
        relayer: Address,
        user: Address,
        service_id: &String,
        nonce: u64,
        now: i64,
        funding: FundingSource,
        minted: bool,
    ) -> (r: Result<FeeBreakdown, GaslessInfrastructureError>)
        requires
            old(self).wf(),
        ensures
            final(self).wf(),
            old(self).settlement_step(
                *final(self),
                r,
                relayer,
                user,
                service_id@,
                nonce,
                now,
                MINT_BASE_COST,
                funding,
                minted,
            ),
    {
        self.settle(relayer, user, service_id, nonce, now, MINT_BASE_COST, funding, minted)
    }

    /// The service registered under `id` (meaningful where there is one).
    pub open spec fn service_record(&self, id: Seq<char>) -> ServiceProvider {
        self.services@[self.service_index(id)]
    }

    /// The fee vault of the service registered under `id`.
    pub open spec fn vault_record(&self, id: Seq<char>) -> FeeVault {
        self.vaults@[self.service_index(id)]
    }

    /// The permit stored under (user, service, nonce).
    pub open spec fn permit_record(&self, user: Address, id: Seq<char>, nonce: u64) -> UserPermit {
        self.permits@[self.permit_index(user, id, nonce)]
    }

    /// Reads the service registered under `service_id`.
    pub fn get_service(&self, service_id: &String) -> (r: Option<&ServiceProvider>)
        requires
            self.wf(),
        ensures
            r == (if self.has_service(service_id@) {
                Some(&self.service_record(service_id@))
            } else {
                None
            }),
    {
        match self.find_service(service_id) {
            Some(i) => Some(&self.services[i]),
            None => None,
        }
    }

    /// Reads the fee vault of the service registered under `service_id`.
    pub fn get_fee_vault(&self, service_id: &String) -> (r: Option<&FeeVault>)
        requires
            self.wf(),
        ensures
            r == (if self.has_service(service_id@) {
                Some(&self.vault_record(service_id@))
            } else {
                None
            }),
    {
        match self.find_service(service_id) {
            Some(i) => Some(&self.vaults[i]),
            None => None,
        }
    }

    /// Reads the permit stored under (`user`, `service_id`, `nonce`).
    pub fn get_permit(&self, user: &Address, service_id: &String, nonce: u64) -> (r: Option<
        &UserPermit,
    >)
        requires
            self.wf(),
        ensures
            r == (if self.has_permit(*user, service_id@, nonce) {
                Some(&self.permit_record(*user, service_id@, nonce))
            } else {
                None
            }),
    {
        match self.find_permit(user, service_id, nonce) {
            Some(k) => Some(&self.permits[k]),
            None => None,
        }
    }

    /// Reads the authorization record of `relayer`.
    pub fn get_relayer(&self, relayer: &Address) -> (r: Option<&RelayerConfig>)
        requires
            self.wf(),
        ensures
            r == (if self.has_relayer(*relayer) {
                Some(&self.relayers@[self.relayer_index(*relayer)])
            } else {
                None
            }),
    {
        match self.find_relayer(relayer) {
            Some(m) => Some(&self.relayers[m]),
            None => None,
        }
    }

    /// Tells whether the ledger meets its invariant: the check to make on
    /// records that come from storage before operating on them.
    pub fn is_well_formed(&self) -> (r: bool)
        ensures
            r == self.wf(),
    {
        if let Some(p) = &self.protocol {
            if p.protocol_fee_bps > MAX_FEE_BPS {
                return false;
            }
        }
        if self.services.len() != self.vaults.len() {
            return false;
        }
        let n = self.services.len();
        let mut i: usize = 0;
        while i < n
            invariant
                n == self.services@.len(),
                n == self.vaults@.len(),
                i <= n,
                forall|a: int|
                    0 <= a < i ==> {
                        &&& #[trigger] self.services@[a].wf()
                        &&& self.vaults@[a].service_id@ == self.services@[a].service_id@
                    },
                forall|a: int, b: int|
                    0 <= a < i && 0 <= b < n && #[trigger] self.services@[a].service_id@
                        == #[trigger] self.services@[b].service_id@ ==> a == b,
            decreases n - i,
        {
            let s = &self.services[i];
            if s.service_fee_bps > MAX_FEE_BPS || s.max_transaction_amount == 0
                || s.service_id.as_str().is_empty() || s.allowed_programs.len() == 0 {
                assert(!self.services@[i as int].wf());
                return false;
            }
            if self.vaults[i].service_id != s.service_id {
                assert(self.services@[i as int].wf());
                return false;
            }
            let mut j: usize = 0;
            while j < n
                invariant
                    n == self.services@.len(),
                    i < n,
                    j <= n,
                    forall|b: int|
                        0 <= b < j && b != i ==> self.services@[b].service_id@
                            != self.services@[i as int].service_id@,
                decreases n - j,
            {
                if j != i && self.services[j].service_id == self.services[i].service_id {
                    return false;
                }
                j = j + 1;
            }
            i = i + 1;
        }
        let m = self.relayers.len();
        let mut i: usize = 0;
        while i < m
            invariant
                m == self.relayers@.len(),
                i <= m,
                forall|a: int, b: int|
                    0 <= a < i && 0 <= b < m && #[trigger] self.relayers@[a].relayer
                        == #[trigger] self.relayers@[b].relayer ==> a == b,
            decreases m - i,
        {
            let mut j: usize = 0;
            while j < m
                invariant
                    m == self.relayers@.len(),
                    i < m,
                    j <= m,
                    forall|b: int|
                        0 <= b < j && b != i ==> self.relayers@[b].relayer
                            != self.relayers@[i as int].relayer,
                decreases m - j,
            {
                if j != i && self.relayers[j].relayer == self.relayers[i].relayer {
                    return false;
                }
                j = j + 1;
            }
            i = i + 1;
        }
        let k = self.permits.len();
        let mut i: usize = 0;
        while i < k
            invariant
                k == self.permits@.len(),
                i <= k,
                forall|a: int, b: int|
                    0 <= a < i && 0 <= b < k && #[trigger] self.permits@[a].has_key(
                        self.permits@[b].user,
                        #[trigger] self.permits@[b].service_id@,
                        self.permits@[b].nonce,
                    ) ==> a == b,
            decreases k - i,
        {
            let mut j: usize = 0;
            while j < k
                invariant
                    k == self.permits@.len(),
                    i < k,
                    j <= k,
                    forall|b: int|
                        0 <= b < j && b != i ==> !self.permits@[i as int].has_key(
                            self.permits@[b].user,
                            self.permits@[b].service_id@,
                            self.permits@[b].nonce,
                        ),
                decreases k - j,
            {
                let p = &self.permits[i];
                let q = &self.permits[j];
                if j != i && p.user == q.user && p.service_id == q.service_id && p.nonce == q.nonce {
                    assert(self.permits@[i as int].has_key(
                        self.permits@[j as int].user,
                        self.permits@[j as int].service_id@,
                        self.permits@[j as int].nonce,
                    ));
                    return false;
                }
                j = j + 1;
            }
            i = i + 1;
        }
        true
    }
}

} // verus!
