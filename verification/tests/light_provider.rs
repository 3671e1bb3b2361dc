use light_provider::block::{
    Action, Address, BlockChainInfo, BlockId, Header, PendingTransaction, H256, U256,
};
use light_provider::request::{
    AccountResponse, CompleteAccountRequest, CompleteBodyRequest, CompleteCodeRequest,
    CompleteExecutionRequest, CompleteHeaderProofRequest, CompleteHeadersRequest,
    CompleteReceiptsRequest, CompleteSignalRequest, CompleteStorageRequest,
    CompleteTransactionIndexRequest, HashOrNumber, HeaderProofResponse, StorageResponse,
};
use light_provider::{AsLightClient, LightChainClient, LightProvider, Provider, TransactionQueue};
use parking_lot::RwLock;
use std::sync::Arc;

struct Client {
    best: u64,
}

impl LightChainClient for Client {
    fn chain_info(&self) -> BlockChainInfo {
        BlockChainInfo {
            total_difficulty: U256([1, 0, 0, 0]),
            genesis_hash: H256([2; 32]),
            best_block_hash: H256([3; 32]),
            best_block_number: self.best,
            best_block_timestamp: 1000 + self.best,
        }
    }
}

struct Holder {
    client: Client,
}

impl AsLightClient for Holder {
    type Client = Client;

    fn as_light_client(&self) -> &Client {
        &self.client
    }
}

struct Queue {
    ready_at: u64,
}

impl TransactionQueue for Queue {
    fn ready_transactions(&self, best_block_number: u64, best_block_timestamp: u64) -> Vec<PendingTransaction> {
        if best_block_number < self.ready_at {
            return Vec::new();
        }
        let transaction = best_block_timestamp.to_be_bytes().to_vec();
        vec![PendingTransaction { transaction, condition: None }]
    }
}

fn provider(best: u64, queue: Arc<RwLock<Queue>>) -> LightProvider<Holder, Queue> {
    LightProvider::new(Arc::new(Holder { client: Client { best } }), queue)
}

fn plain() -> LightProvider<Holder, Queue> {
    provider(9, Arc::new(RwLock::new(Queue { ready_at: 0 })))
}

#[test]
fn light_client_reports_its_chain() {
    let provider = plain();
    assert_eq!(provider.chain_info().best_block_number, 9);
    assert_eq!(provider.as_light_client().chain_info().best_block_hash, H256([3; 32]));
}

#[test]
fn light_client_relays_its_queue() {
    let queue = Arc::new(RwLock::new(Queue { ready_at: 10 }));
    let provider = provider(9, queue.clone());
    assert!(provider.transactions_to_propagate().is_empty());
    queue.write().ready_at = 9;
    assert_eq!(
        provider.transactions_to_propagate(),
        vec![PendingTransaction { transaction: 1009u64.to_be_bytes().to_vec(), condition: None }]
    );
}

#[test]
fn light_client_serves_no_headers() {
    let provider = plain();
    for max in [0, 1, 2, 1000] {
        for reverse in [false, true] {
            for start in [HashOrNumber::Number(5), HashOrNumber::Hash(H256([3; 32]))] {
                let req = CompleteHeadersRequest { start, skip: 0, max, reverse };
                assert!(provider.block_headers(req).headers.is_empty());
            }
        }
    }
    let header = provider.block_header(BlockId::Number(5));
    assert_eq!(header, Header::Empty(Vec::new()));
    assert!(header.is_empty());
}

#[test]
fn light_client_serves_no_chain_data() {
    let provider = plain();
    let hash = H256([7; 32]);
    assert_eq!(provider.reorg_depth(&hash, &hash), None);
    assert_eq!(provider.earliest_state(), None);
    assert_eq!(provider.transaction_index(CompleteTransactionIndexRequest { hash }).inner, None);
    assert!(provider.block_body(CompleteBodyRequest { hash }).body.encoded.is_empty());
    assert!(provider.block_receipts(CompleteReceiptsRequest { hash }).receipts.is_empty());
    let zero = H256([0; 32]);
    let none = U256([0; 4]);
    assert_eq!(
        provider.account_proof(CompleteAccountRequest { block_hash: hash, address_hash: hash }),
        AccountResponse { proof: vec![], nonce: none, balance: none, code_hash: zero, storage_root: zero }
    );
    assert_eq!(
        provider.storage_proof(CompleteStorageRequest { block_hash: hash, address_hash: hash, key_hash: hash }),
        StorageResponse { proof: vec![], value: zero }
    );
    assert!(provider.contract_code(CompleteCodeRequest { block_hash: hash, code_hash: hash }).code.is_empty());
    assert_eq!(
        provider.header_proof(CompleteHeaderProofRequest { num: 1 }),
        HeaderProofResponse { proof: vec![], hash: zero, td: none }
    );
    let execution = CompleteExecutionRequest {
        block_hash: hash,
        from: Address([0; 20]),
        action: Action::Create,
        gas: none,
        gas_price: none,
        value: none,
        data: vec![],
    };
    assert!(provider.transaction_proof(execution).items.is_empty());
    assert!(provider.epoch_signal(CompleteSignalRequest { block_hash: hash }).signal.is_empty());
}
