//! The engine records that transactions read and write, and the store that keeps them with
//! the blocks they belong to.
use vstd::prelude::*;
use crate::codec::copy_bytes;
use crate::hashchain::{BlockchainHashchain, HashchainView};
use crate::keyed::KeyedMap;
use crate::transaction::BlockMetadata;

verus! {

/// The engine's configuration record.
#[derive(Debug, Clone)]
pub struct EngineState {
    /// The 32-byte chain id.
    pub chain_id: Vec<u8>,
    pub owner_id: Vec<u8>,
    pub bridge_prover_id: Vec<u8>,
    pub upgrade_delay_blocks: u64,
    pub is_paused: bool,
    pub key_manager: Option<Vec<u8>>,
}

pub struct EngineStateView {
    pub chain_id: Seq<u8>,
    pub owner_id: Seq<u8>,
    pub bridge_prover_id: Seq<u8>,
    pub upgrade_delay_blocks: u64,
    pub is_paused: bool,
    pub key_manager: Option<Seq<u8>>,
}

/// The view of an optional byte string.
pub open spec fn opt_view(o: Option<Vec<u8>>) -> Option<Seq<u8>> {
    match o {
        None => None,
        Some(v) => Some(v@),
    }
}

/// A copy of an optional byte string.
pub fn copy_opt(o: &Option<Vec<u8>>) -> (r: Option<Vec<u8>>)
    ensures
        opt_view(r) == opt_view(*o),
{
    match o {
        None => None,
        Some(v) => Some(copy_bytes(v.as_slice())),
    }
}

impl View for EngineState {
    type V = EngineStateView;

    open spec fn view(&self) -> EngineStateView {
        EngineStateView {
            chain_id: self.chain_id@,
            owner_id: self.owner_id@,
            bridge_prover_id: self.bridge_prover_id@,
            upgrade_delay_blocks: self.upgrade_delay_blocks,
            is_paused: self.is_paused,
            key_manager: opt_view(self.key_manager),
        }
    }
}

impl EngineState {
    pub fn copy(&self) -> (r: Self)
        ensures
            r@ == self@,
    {
        EngineState {
            chain_id: copy_bytes(self.chain_id.as_slice()),
            owner_id: copy_bytes(self.owner_id.as_slice()),
            bridge_prover_id: copy_bytes(self.bridge_prover_id.as_slice()),
            upgrade_delay_blocks: self.upgrade_delay_blocks,
            is_paused: self.is_paused,
            key_manager: copy_opt(&self.key_manager),
        }
    }
}

/// Why the engine state could not be read.
#[derive(Debug, Clone, Copy, PartialEq, Eq, Structural)]
pub enum EngineStateError {
    NotFound,
}

/// Connector-specific data: the prover account that checks deposit proofs, and the
/// 20-byte custodian address on the external chain.
#[derive(Debug, Clone)]
pub struct EthConnector {
    pub prover_account: Vec<u8>,
    pub eth_custodian_address: Vec<u8>,
}

/// The fungible-token ledger of the connector.
#[derive(Debug, Clone)]
pub struct FungibleToken {
    pub total_eth_supply_on_near: u128,
    pub total_eth_supply_on_aurora: u128,
    /// Balances of the upstream chain's accounts (ETH on NEAR).
    pub accounts_eth: KeyedMap<u128>,
    /// Balances of EVM addresses (ETH on Aurora).
    pub aurora_balances: KeyedMap<u128>,
}

/// The whole connector record: its data, its ledger, its paused flags and the used proofs.
#[derive(Debug, Clone)]
pub struct ConnectorState {
    pub contract: EthConnector,
    pub ft: FungibleToken,
    pub paused_mask: u8,
    pub used_proofs: KeyedMap<()>,
}

pub struct ConnectorView {
    pub prover_account: Seq<u8>,
    pub eth_custodian_address: Seq<u8>,
    pub total_on_near: u128,
    pub total_on_aurora: u128,
    pub near_balances: Map<Seq<u8>, u128>,
    pub aurora_balances: Map<Seq<u8>, u128>,
    pub paused_mask: u8,
    pub used_proofs: Set<Seq<u8>>,
}

impl View for ConnectorState {
    type V = ConnectorView;

    open spec fn view(&self) -> ConnectorView {
        ConnectorView {
            prover_account: self.contract.prover_account@,
            eth_custodian_address: self.contract.eth_custodian_address@,
            total_on_near: self.ft.total_eth_supply_on_near,
            total_on_aurora: self.ft.total_eth_supply_on_aurora,
            near_balances: self.ft.accounts_eth@,
            aurora_balances: self.ft.aurora_balances@,
            paused_mask: self.paused_mask,
            used_proofs: self.used_proofs@.dom(),
        }
    }
}

impl ConnectorState {
    pub open spec fn wf(&self) -> bool {
        &&& self.ft.accounts_eth.wf()
        &&& self.ft.aurora_balances.wf()
        &&& self.used_proofs.wf()
    }

    pub fn copy(&self) -> (r: Self)
        requires
            self.wf(),
        ensures
            r.wf(),
            r@ == self@,
    {
        ConnectorState {
            contract: EthConnector {
                prover_account: copy_bytes(self.contract.prover_account.as_slice()),
                eth_custodian_address: copy_bytes(self.contract.eth_custodian_address.as_slice()),
            },
            ft: FungibleToken {
                total_eth_supply_on_near: self.ft.total_eth_supply_on_near,
                total_eth_supply_on_aurora: self.ft.total_eth_supply_on_aurora,
                accounts_eth: self.ft.accounts_eth.copy(),
                aurora_balances: self.ft.aurora_balances.copy(),
            },
            paused_mask: self.paused_mask,
            used_proofs: self.used_proofs.copy(),
        }
    }
}

/// Every record a transaction may read or write.
#[derive(Debug, Clone)]
pub struct EngineRecords {
    pub engine_state: Option<EngineState>,
    pub hashchain: Option<BlockchainHashchain>,
    pub connector: Option<ConnectorState>,
    /// The EVM address registered by each relayer account.
    pub relayers: KeyedMap<Vec<u8>>,
    /// The function-call keys that relayers may use.
    pub relayer_keys: KeyedMap<()>,
    /// The paused precompiles, one bit each.
    pub paused_precompiles: u32,
    /// The ERC-20 mirror address of each NEP-141 token.
    pub erc20_map: KeyedMap<Vec<u8>>,
    pub router_code: Option<Vec<u8>>,
    /// The router code version of each address.
    pub address_versions: KeyedMap<u32>,
    pub wnear_address: Option<Vec<u8>>,
    /// The EVM's own state: nonces, balances, code and storage slots under their raw keys.
    pub evm: KeyedMap<Vec<u8>>,
}

pub struct RecordsView {
    pub engine_state: Option<EngineStateView>,
    pub hashchain: Option<HashchainView>,
    pub connector: Option<ConnectorView>,
    pub relayers: Map<Seq<u8>, Seq<u8>>,
    pub relayer_keys: Set<Seq<u8>>,
    pub paused_precompiles: u32,
    pub erc20_map: Map<Seq<u8>, Seq<u8>>,
    pub router_code: Option<Seq<u8>>,
    pub address_versions: Map<Seq<u8>, u32>,
    pub wnear_address: Option<Seq<u8>>,
    pub evm: Map<Seq<u8>, Seq<u8>>,
}

impl View for EngineRecords {
    type V = RecordsView;

    open spec fn view(&self) -> RecordsView {
        RecordsView {
            engine_state: match self.engine_state {
                None => None,
                Some(s) => Some(s@),
            },
            hashchain: match self.hashchain {
                None => None,
                Some(h) => Some(h@),
            },
            connector: match self.connector {
                None => None,
                Some(c) => Some(c@),
            },
            relayers: self.relayers@,
            relayer_keys: self.relayer_keys@.dom(),
            paused_precompiles: self.paused_precompiles,
            erc20_map: self.erc20_map@,
            router_code: opt_view(self.router_code),
            address_versions: self.address_versions@,
            wnear_address: opt_view(self.wnear_address),
            evm: self.evm@,
        }
    }
}

/// The records of an engine that nothing has happened to yet.
pub open spec fn empty_records() -> RecordsView {
    RecordsView {
        engine_state: None,
        hashchain: None,
        connector: None,
        relayers: Map::empty(),
        relayer_keys: Set::empty(),
        paused_precompiles: 0,
        erc20_map: Map::empty(),
        router_code: None,
        address_versions: Map::empty(),
        wnear_address: None,
        evm: Map::empty(),
    }
}

impl EngineRecords {
    pub open spec fn wf(&self) -> bool {
        &&& match self.connector {
            None => true,
            Some(c) => c.wf(),
        }
        &&& self.relayers.wf()
        &&& self.relayer_keys.wf()
        &&& self.erc20_map.wf()
        &&& self.address_versions.wf()
        &&& self.evm.wf()
    }

    /// No records at all.
    pub fn new() -> (r: Self)
        ensures
            r.wf(),
            r@ == empty_records(),
    {
        let r = EngineRecords {
            engine_state: None,
            hashchain: None,
            connector: None,
            relayers: KeyedMap::new(),
            relayer_keys: KeyedMap::new(),
            paused_precompiles: 0,
            erc20_map: KeyedMap::new(),
            router_code: None,
            address_versions: KeyedMap::new(),
            wnear_address: None,
            evm: KeyedMap::new(),
        };
        assert(r@.relayer_keys =~= Set::<Seq<u8>>::empty());
        r
    }

    /// A copy of every record.
    pub fn copy(&self) -> (r: Self)
        requires
            self.wf(),
        ensures
            r.wf(),
            r@ == self@,
    {
        EngineRecords {
            engine_state: match &self.engine_state {
                None => None,
                Some(s) => Some(s.copy()),
            },
            hashchain: match &self.hashchain {
                None => None,
                Some(h) => Some(
                    BlockchainHashchain {
                        chain_id: copy_bytes(h.chain_id.as_slice()),
                        contract_account_id: copy_bytes(h.contract_account_id.as_slice()),
                        current_block_height: h.current_block_height,
                        previous_block_hashchain: copy_bytes(h.previous_block_hashchain.as_slice()),
                        current_block_accumulator: copy_bytes(
                            h.current_block_accumulator.as_slice(),
                        ),
                    },
                ),
            },
            connector: match &self.connector {
                None => None,
                Some(c) => Some(c.copy()),
            },
            relayers: self.relayers.copy_bytes_map(),
            relayer_keys: self.relayer_keys.copy(),
            paused_precompiles: self.paused_precompiles,
            erc20_map: self.erc20_map.copy_bytes_map(),
            router_code: copy_opt(&self.router_code),
            address_versions: self.address_versions.copy(),
            wnear_address: copy_opt(&self.wnear_address),
            evm: self.evm.copy_bytes_map(),
        }
    }
}

/// A block as the store keeps it.
#[derive(Debug, Clone)]
pub struct BlockRecord {
    pub hash: Vec<u8>,
    pub height: u64,
    pub metadata: BlockMetadata,
}

/// The replay's store: the blocks seen so far, the engine's account, the engine records, and
/// the hashes of the transactions whose effects were committed, in order.
#[derive(Debug)]
pub struct Storage {
    pub blocks: Vec<BlockRecord>,
    pub engine_account_id: Vec<u8>,
    pub records: EngineRecords,
    pub included: Vec<Vec<u8>>,
}

impl Storage {
    pub open spec fn wf(&self) -> bool {
        self.records.wf()
    }

    /// An empty store for the engine at `engine_account_id`.
    pub fn new(engine_account_id: Vec<u8>) -> (r: Self)
        ensures
            r.wf(),
            r.blocks@.len() == 0,
            r.engine_account_id@ == engine_account_id@,
            r.included@.len() == 0,
            r.records@ == empty_records(),
    {
        Storage {
            blocks: Vec::new(),
            engine_account_id,
            records: EngineRecords::new(),
            included: Vec::new(),
        }
    }
}

} // verus!
