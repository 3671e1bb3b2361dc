use light_provider::block::{
    Action, Address, BasicAccount, BlockChainInfo, BlockHeader, BlockId, Body, Condition, Header,
    LocalizedReceipt, PendingTransaction, PruningInfo, Transaction, TreeRoute,
    VerifiedTransaction, H256, U256,
};
use light_provider::cht::{BlockInfo, ChtSearch, TrieError};
use light_provider::request::{
    AccountResponse, CompleteAccountRequest, CompleteBodyRequest, CompleteCodeRequest,
    CompleteExecutionRequest, CompleteHeaderProofRequest, CompleteHeadersRequest,
    CompleteReceiptsRequest, CompleteSignalRequest, CompleteStorageRequest,
    CompleteTransactionIndexRequest, HashOrNumber, HeaderProofResponse, StorageResponse,
    TransactionIndexResponseInner,
};
use light_provider::{CanonicalHashTries, FullProvider, ProvingBlockChainClient, Provider};
use std::sync::{Arc, Mutex};

const CHT_SIZE: u64 = 2048;

fn hash(number: u64) -> H256 {
    let mut bytes = [0u8; 32];
    bytes[..8].copy_from_slice(&number.to_be_bytes());
    bytes[31] = 1;
    H256(bytes)
}

fn byte_hash(byte: u8) -> H256 {
    H256([byte; 32])
}

fn num(value: u64) -> U256 {
    U256([value, 0, 0, 0])
}

fn header(number: u64) -> BlockHeader {
    BlockHeader {
        number,
        hash: hash(number),
        parent_hash: hash(number.wrapping_sub(1)),
        encoded: number.to_be_bytes().to_vec(),
    }
}

/// A list of 256 empty lists.
fn long_item() -> Vec<u8> {
    let mut item = vec![0xf9, 0x01, 0x00];
    item.extend(vec![0xc0; 256]);
    item
}

#[derive(Clone, Copy, PartialEq)]
enum Tries {
    Honest,
    NoEntry,
    Broken,
    Idle,
    Foreign,
    Unfinished,
}

/// A chain without forks, but for the blocks in `side`.
struct TestBlockChainClient {
    blocks: Mutex<u64>,
    side: Vec<BlockHeader>,
    missing: Option<u64>,
    tries: Tries,
    known: bool,
    asked: Mutex<Vec<BlockId>>,
    executed: Mutex<Vec<(Transaction, Address, BlockId)>>,
}

impl TestBlockChainClient {
    fn new() -> Self {
        TestBlockChainClient {
            blocks: Mutex::new(0),
            side: Vec::new(),
            missing: None,
            tries: Tries::Honest,
            known: true,
            asked: Mutex::new(Vec::new()),
            executed: Mutex::new(Vec::new()),
        }
    }

    fn with_blocks(count: u64) -> Self {
        let client = TestBlockChainClient::new();
        client.add_blocks(count);
        client
    }

    fn ignorant() -> Self {
        TestBlockChainClient { known: false, ..TestBlockChainClient::new() }
    }

    fn add_blocks(&self, count: u64) {
        *self.blocks.lock().unwrap() += count;
    }

    fn best(&self) -> u64 {
        *self.blocks.lock().unwrap()
    }

    fn find(&self, id: BlockId) -> Option<BlockHeader> {
        match id {
            BlockId::Number(n) if n <= self.best() && self.missing != Some(n) => Some(header(n)),
            BlockId::Number(_) => None,
            BlockId::Hash(h) => {
                if let Some(side) = self.side.iter().find(|b| b.hash == h) {
                    return Some(side.clone());
                }
                let mut bytes = [0u8; 8];
                bytes.copy_from_slice(&h.0[..8]);
                let n = u64::from_be_bytes(bytes);
                if h == hash(n) { self.find(BlockId::Number(n)) } else { None }
            }
            BlockId::Earliest => self.find(BlockId::Number(0)),
            BlockId::Latest => self.find(BlockId::Number(self.best())),
        }
    }
}

impl ProvingBlockChainClient for TestBlockChainClient {
    fn chain_info(&self) -> BlockChainInfo {
        BlockChainInfo {
            total_difficulty: num(self.best() * 2),
            genesis_hash: hash(0),
            best_block_hash: hash(self.best()),
            best_block_number: self.best(),
            best_block_timestamp: 77,
        }
    }

    fn tree_route(&self, from: &H256, to: &H256) -> Option<TreeRoute> {
        if *from == hash(1) && *to == hash(4) {
            Some(TreeRoute { blocks: vec![hash(3), hash(2), hash(4)], ancestor: hash(0), index: 2 })
        } else {
            None
        }
    }

    fn pruning_info(&self) -> PruningInfo {
        PruningInfo { earliest_chain: 3, earliest_state: 9 }
    }

    fn block_header(&self, id: BlockId) -> Option<BlockHeader> {
        self.asked.lock().unwrap().push(id);
        self.find(id)
    }

    fn block_total_difficulty(&self, id: BlockId) -> Option<U256> {
        self.find(id).map(|block| num(block.number * 2))
    }

    fn block_body(&self, id: BlockId) -> Option<Body> {
        match id {
            BlockId::Hash(h) if h == byte_hash(1) => Some(Body { encoded: vec![0xc2, 0xc1, 0x05, 0xc0] }),
            _ => None,
        }
    }

    fn transaction_receipt(&self, hash: H256) -> Option<LocalizedReceipt> {
        if hash == byte_hash(2) {
            Some(LocalizedReceipt { block_number: 8, block_hash: byte_hash(3), transaction_index: 4 })
        } else {
            None
        }
    }

    fn encoded_block_receipts(&self, hash: &H256) -> Option<Vec<u8>> {
        match hash.0[0] {
            // [[1, 2], [], [3]]
            4 => Some(vec![0xc6, 0xc2, 0x01, 0x02, 0xc0, 0xc1, 0x03]),
            5 => Some(vec![0x05]),
            6 => Some(vec![0xc0]),
            // two items of more than 55 bytes, with an empty list between them
            8 => {
                let mut encoded = vec![0xf9, 0x02, 0x07];
                encoded.extend(long_item());
                encoded.push(0xc0);
                encoded.extend(long_item());
                Some(encoded)
            }
            _ => None,
        }
    }

    fn prove_account(&self, address_hash: H256, id: BlockId) -> Option<(Vec<Vec<u8>>, BasicAccount)> {
        if self.known && address_hash == byte_hash(10) && id == BlockId::Hash(byte_hash(11)) {
            Some((
                vec![vec![1], vec![2, 3]],
                BasicAccount {
                    nonce: num(4),
                    balance: num(5),
                    storage_root: byte_hash(6),
                    code_hash: byte_hash(7),
                },
            ))
        } else {
            None
        }
    }

    fn prove_storage(&self, address_hash: H256, key_hash: H256, id: BlockId) -> Option<(Vec<Vec<u8>>, H256)> {
        if address_hash == byte_hash(10) && key_hash == byte_hash(12) && id == BlockId::Hash(byte_hash(11)) {
            Some((vec![vec![9]], byte_hash(13)))
        } else {
            None
        }
    }

    fn state_data(&self, hash: &H256) -> Option<Vec<u8>> {
        if *hash == byte_hash(14) { Some(vec![0x60, 0x00]) } else { None }
    }

    fn nonce(&self, address: &Address, id: BlockId) -> Option<U256> {
        if self.known && *address == Address([1; 20]) && id == BlockId::Hash(byte_hash(11)) {
            Some(num(21))
        } else {
            None
        }
    }

    fn prove_transaction(&self, transaction: Transaction, sender: Address, id: BlockId) -> Option<(Vec<u8>, Vec<Vec<u8>>)> {
        let refused = transaction.data.is_empty();
        self.executed.lock().unwrap().push((transaction, sender, id));
        if refused { None } else { Some((vec![0xee], vec![vec![1], vec![2]])) }
    }

    fn transactions_to_propagate(&self) -> Vec<Arc<VerifiedTransaction>> {
        vec![
            Arc::new(VerifiedTransaction::new(pending(1))),
            Arc::new(VerifiedTransaction::new(pending(2))),
        ]
    }

    fn epoch_signal(&self, block_hash: H256) -> Option<Vec<u8>> {
        if block_hash == byte_hash(15) { Some(vec![1, 2, 3]) } else { None }
    }
}

/// The blocks of a CHT, newest first, and the block that comes next.
struct Builder {
    next_number: u64,
    next_id: BlockId,
    entries: Vec<(u64, BlockInfo)>,
}

impl CanonicalHashTries for TestBlockChainClient {
    type Builder = Builder;
    type Cht = Vec<(u64, BlockInfo)>;

    fn block_to_cht_number(&self, block_number: u64) -> Option<u64> {
        if block_number == 0 { None } else { Some((block_number - 1) / CHT_SIZE) }
    }

    fn begin(&self, cht_number: u64) -> (Builder, u64) {
        let last = match self.tries {
            Tries::Foreign => (cht_number + 2) * CHT_SIZE,
            _ => (cht_number + 1) * CHT_SIZE,
        };
        let builder = Builder { next_number: last, next_id: BlockId::Number(last), entries: Vec::new() };
        (builder, if self.tries == Tries::Idle { 0 } else { CHT_SIZE })
    }

    fn next_block(&self, builder: &Builder) -> BlockId {
        builder.next_id
    }

    fn add_block(&self, builder: Builder, info: BlockInfo) -> Builder {
        let mut entries = builder.entries;
        entries.push((builder.next_number, info));
        Builder {
            next_number: builder.next_number - 1,
            next_id: BlockId::Hash(info.parent_hash),
            entries,
        }
    }

    fn finish(&self, builder: Builder) -> Option<Self::Cht> {
        if self.tries == Tries::Unfinished { None } else { Some(builder.entries) }
    }

    fn prove(&self, cht: &Self::Cht, block_number: u64, from_level: u32) -> Result<Option<Vec<Vec<u8>>>, TrieError> {
        match self.tries {
            Tries::NoEntry => Ok(None),
            Tries::Broken => Err(TrieError { message: String::from("incomplete") }),
            _ => {
                assert_eq!(from_level, 0);
                Ok(cht.iter().find(|e| e.0 == block_number).map(|e| vec![e.1.hash.0.to_vec()]))
            }
        }
    }
}

fn serve(client: TestBlockChainClient) -> FullProvider<TestBlockChainClient> {
    FullProvider { client: Arc::new(client) }
}

fn pending(byte: u8) -> PendingTransaction {
    PendingTransaction { transaction: vec![byte], condition: Some(Condition::Number(u64::from(byte))) }
}

fn numbers(headers: &[Header]) -> Vec<u64> {
    headers
        .iter()
        .map(|h| match h {
            Header::Block(block) => block.number,
            Header::Empty(_) => panic!("no header"),
        })
        .collect()
}

fn request(start: HashOrNumber, skip: u64, max: u64, reverse: bool) -> CompleteHeadersRequest {
    CompleteHeadersRequest { start, skip, max, reverse }
}

#[test]
fn cht_proof() {
    let client = serve(TestBlockChainClient::new());
    client.client.add_blocks(2000);

    let req = CompleteHeaderProofRequest { num: 1500 };

    assert!(client.header_proof(req.clone()).is_none());

    client.client.add_blocks(48);

    assert!(client.header_proof(req.clone()).is_some());
}

#[test]
fn header_proof_is_of_requested_block() {
    let client = serve(TestBlockChainClient::with_blocks(4096));
    let response = client.header_proof(CompleteHeaderProofRequest { num: 2049 });
    assert_eq!(
        response,
        HeaderProofResponse { proof: vec![hash(2049).0.to_vec()], hash: hash(2049), td: num(4098) }
    );
}

#[test]
fn header_proof_of_first_block_is_refused() {
    let client = serve(TestBlockChainClient::with_blocks(2048));
    let response = client.header_proof(CompleteHeaderProofRequest { num: 0 });
    assert_eq!(response, HeaderProofResponse::default());
    assert!(client.client.asked.lock().unwrap().is_empty());
}

#[test]
fn header_proof_without_entry_or_with_error() {
    for tries in [Tries::NoEntry, Tries::Broken, Tries::Idle, Tries::Foreign, Tries::Unfinished] {
        let client = serve(TestBlockChainClient { tries, ..TestBlockChainClient::with_blocks(4096) });
        let response = client.header_proof(CompleteHeaderProofRequest { num: 1500 });
        assert_eq!(response, HeaderProofResponse { proof: vec![], hash: H256([0; 32]), td: U256([0; 4]) });
    }
}

#[test]
fn cht_walk_asks_for_each_block_once() {
    let client = serve(TestBlockChainClient::with_blocks(2048));
    assert!(client.header_proof(CompleteHeaderProofRequest { num: 1 }).is_some());
    let asked = client.client.asked.lock().unwrap();
    assert_eq!(asked.len(), 2048);
    assert_eq!(asked[0], BlockId::Number(2048));
    assert_eq!(asked[1], BlockId::Hash(hash(2047)));
}

#[test]
fn cht_search_remembers_last_match() {
    let mut search = ChtSearch::new(7);
    assert_eq!(search.found(), None);
    assert_eq!(search.visit(Some(header(7)), None), None);
    assert_eq!(search.visit(None, Some(num(1))), None);
    assert_eq!(search.found(), None);
    let info = BlockInfo { hash: hash(7), parent_hash: hash(6), total_difficulty: num(14) };
    assert_eq!(search.visit(Some(header(7)), Some(num(14))), Some(info));
    assert!(search.visit(Some(header(6)), Some(num(12))).is_some());
    assert_eq!(search.found(), Some((hash(7), num(14))));
    let fork = BlockHeader { hash: byte_hash(99), ..header(7) };
    assert!(search.visit(Some(fork), Some(num(15))).is_some());
    assert_eq!(search.found(), Some((byte_hash(99), num(15))));
}

#[test]
fn headers_by_number() {
    let client = serve(TestBlockChainClient::with_blocks(20));
    let by = |skip, max, reverse| {
        numbers(&client.block_headers(request(HashOrNumber::Number(10), skip, max, reverse)).headers)
    };
    assert_eq!(by(0, 3, false), vec![10, 11, 12]);
    assert_eq!(by(3, 10, false), vec![10, 14, 18]);
    assert_eq!(by(0, 100, false), (10..21).collect::<Vec<u64>>());
    assert_eq!(by(0, 3, true), vec![10, 9, 8]);
    assert_eq!(by(4, 10, true), vec![10, 5]);
    assert_eq!(by(2, 10, true), vec![10, 7, 4, 1]);
    assert_eq!(by(0, 100, true), (1..11).rev().collect::<Vec<u64>>());
    assert_eq!(by(0, 0, false), Vec::<u64>::new());
    assert_eq!(by(u64::MAX, 5, false), vec![10]);
}

#[test]
fn headers_at_the_ends_of_the_chain() {
    let client = serve(TestBlockChainClient::with_blocks(20));
    let from = |start, reverse| {
        numbers(&client.block_headers(request(HashOrNumber::Number(start), 0, 5, reverse)).headers)
    };
    assert_eq!(from(20, false), vec![20]);
    assert_eq!(from(21, false), Vec::<u64>::new());
    assert_eq!(from(0, false), vec![0, 1, 2, 3, 4]);
    assert_eq!(from(0, true), Vec::<u64>::new());
    assert_eq!(from(1, true), vec![1]);
}

#[test]
fn headers_end_at_a_gap() {
    let client = serve(TestBlockChainClient { missing: Some(13), ..TestBlockChainClient::with_blocks(20) });
    let response = client.block_headers(request(HashOrNumber::Number(10), 0, 9, false));
    assert_eq!(numbers(&response.headers), vec![10, 11, 12]);
    assert_eq!(
        *client.client.asked.lock().unwrap(),
        vec![BlockId::Number(10), BlockId::Number(11), BlockId::Number(12), BlockId::Number(13)]
    );
}

#[test]
fn headers_are_limited() {
    let client = serve(TestBlockChainClient::with_blocks(2000));
    let response = client.block_headers(request(HashOrNumber::Number(1), 0, u64::MAX, false));
    assert_eq!(numbers(&response.headers), (1..513).collect::<Vec<u64>>());
}

#[test]
fn headers_by_hash() {
    let client = serve(TestBlockChainClient::with_blocks(20));
    let response = client.block_headers(request(HashOrNumber::Hash(hash(15)), 1, 9, false));
    assert_eq!(numbers(&response.headers), vec![15, 17, 19]);
    let response = client.block_headers(request(HashOrNumber::Hash(hash(15)), 1, 1, true));
    assert_eq!(response.headers, vec![Header::Block(header(15))]);
    let response = client.block_headers(request(HashOrNumber::Hash(byte_hash(200)), 0, 9, false));
    assert!(response.headers.is_empty());
}

#[test]
fn headers_from_a_fork_start_at_the_requested_block() {
    let side = BlockHeader { hash: byte_hash(50), ..header(15) };
    let client = serve(TestBlockChainClient { side: vec![side.clone()], ..TestBlockChainClient::with_blocks(20) });
    let response = client.block_headers(request(HashOrNumber::Hash(byte_hash(50)), 0, 9, false));
    assert_eq!(response.headers, vec![Header::Block(side)]);
}

#[test]
fn client_is_shared() {
    let client = Arc::new(TestBlockChainClient::new());
    let provider = FullProvider { client: client.clone() };
    assert_eq!(provider.chain_info().best_block_number, 0);
    client.add_blocks(5);
    assert_eq!(provider.chain_info().best_block_number, 5);
    assert_eq!(provider.block_header(BlockId::Number(5)), Header::Block(header(5)));
}

#[test]
fn chain_info_is_passed_on() {
    let client = serve(TestBlockChainClient::with_blocks(6));
    let info = Provider::chain_info(&client);
    assert_eq!(info.best_block_number, 6);
    assert_eq!(info.best_block_hash, hash(6));
    assert_eq!(info.best_block_timestamp, 77);
}

#[test]
fn reorg_depth_and_earliest_state() {
    let client = serve(TestBlockChainClient::new());
    assert_eq!(client.reorg_depth(&hash(1), &hash(4)), Some(2));
    assert_eq!(client.reorg_depth(&hash(4), &hash(1)), None);
    assert_eq!(client.earliest_state(), Some(9));
}

#[test]
fn header_or_placeholder() {
    let client = serve(TestBlockChainClient::with_blocks(3));
    let found = client.block_header(BlockId::Number(2));
    assert_eq!(found, Header::Block(header(2)));
    assert!(!found.is_empty());
    assert!(found.is_header_of(&hash(2)));
    assert!(!found.is_header_of(&hash(3)));
    assert_eq!(*found.encoded(), 2u64.to_be_bytes().to_vec());
    let missing = client.block_header(BlockId::Number(4));
    assert!(missing.is_empty());
    assert_eq!(*missing.encoded(), vec![0xc1, 0xc0]);
    assert!(!missing.is_header_of(&hash(4)));
    assert_eq!(client.block_header(BlockId::Latest), Header::Block(header(3)));
    assert_eq!(client.block_header(BlockId::Earliest), Header::Block(header(0)));
}

#[test]
fn body_or_placeholder() {
    let client = serve(TestBlockChainClient::new());
    let found = client.block_body(CompleteBodyRequest { hash: byte_hash(1) });
    assert_eq!(found.body.encoded, vec![0xc2, 0xc1, 0x05, 0xc0]);
    let missing = client.block_body(CompleteBodyRequest { hash: byte_hash(2) });
    assert_eq!(missing.body.encoded, vec![0xc2, 0xc0, 0xc0]);
}

#[test]
fn transaction_index_from_receipt() {
    let client = serve(TestBlockChainClient::new());
    let found = client.transaction_index(CompleteTransactionIndexRequest { hash: byte_hash(2) });
    assert_eq!(found.inner, Some(TransactionIndexResponseInner { num: 8, hash: byte_hash(3), index: 4 }));
    let missing = client.transaction_index(CompleteTransactionIndexRequest { hash: byte_hash(3) });
    assert_eq!(missing.inner, None);
}

#[test]
fn receipts_are_split() {
    let client = serve(TestBlockChainClient::new());
    let receipts = |byte| {
        let response = client.block_receipts(CompleteReceiptsRequest { hash: byte_hash(byte) });
        response.receipts.into_iter().map(|r| r.encoded).collect::<Vec<Vec<u8>>>()
    };
    assert_eq!(receipts(4), vec![vec![0xc2, 0x01, 0x02], vec![0xc0], vec![0xc1, 0x03]]);
    assert_eq!(receipts(5), Vec::<Vec<u8>>::new());
    assert_eq!(receipts(6), Vec::<Vec<u8>>::new());
    assert_eq!(receipts(7), Vec::<Vec<u8>>::new());
    assert_eq!(receipts(8), vec![long_item(), vec![0xc0], long_item()]);
}

#[test]
fn header_proof_outlasts_growth_at_the_tip() {
    let client = serve(TestBlockChainClient::with_blocks(2048));
    let req = CompleteHeaderProofRequest { num: 1500 };
    let before = client.header_proof(req);
    assert!(before.is_some());
    client.client.add_blocks(5000);
    assert_eq!(client.header_proof(req), before);
}

#[test]
fn header_proof_needs_every_block() {
    let client = serve(TestBlockChainClient { missing: Some(3), ..TestBlockChainClient::with_blocks(2048) });
    let response = client.header_proof(CompleteHeaderProofRequest { num: 1500 });
    assert_eq!(response, HeaderProofResponse::default());
    assert_eq!(client.client.asked.lock().unwrap().len(), 2046);
}

#[test]
fn account_proof_or_default() {
    let req = CompleteAccountRequest { block_hash: byte_hash(11), address_hash: byte_hash(10) };
    assert_eq!(
        serve(TestBlockChainClient::new()).account_proof(req),
        AccountResponse {
            proof: vec![vec![1], vec![2, 3]],
            nonce: num(4),
            balance: num(5),
            code_hash: byte_hash(7),
            storage_root: byte_hash(6),
        }
    );
    assert_eq!(
        serve(TestBlockChainClient::ignorant()).account_proof(req),
        AccountResponse {
            proof: vec![],
            nonce: num(0),
            balance: num(0),
            code_hash: byte_hash(0),
            storage_root: byte_hash(0),
        }
    );
}

#[test]
fn storage_proof_or_default() {
    let client = serve(TestBlockChainClient::new());
    let req = CompleteStorageRequest {
        block_hash: byte_hash(11),
        address_hash: byte_hash(10),
        key_hash: byte_hash(12),
    };
    assert_eq!(client.storage_proof(req), StorageResponse { proof: vec![vec![9]], value: byte_hash(13) });
    let other = CompleteStorageRequest { key_hash: byte_hash(10), address_hash: byte_hash(12), ..req };
    assert_eq!(client.storage_proof(other), StorageResponse { proof: vec![], value: byte_hash(0) });
}

#[test]
fn contract_code_by_hash() {
    let client = serve(TestBlockChainClient::new());
    let req = CompleteCodeRequest { block_hash: byte_hash(1), code_hash: byte_hash(14) };
    assert_eq!(client.contract_code(req).code, vec![0x60, 0x00]);
    let other = CompleteCodeRequest { block_hash: byte_hash(14), code_hash: byte_hash(1) };
    assert!(client.contract_code(other).code.is_empty());
}

fn execution(data: Vec<u8>) -> CompleteExecutionRequest {
    CompleteExecutionRequest {
        block_hash: byte_hash(11),
        from: Address([1; 20]),
        action: Action::Call(Address([2; 20])),
        gas: num(100),
        gas_price: num(200),
        value: num(300),
        data,
    }
}

#[test]
fn transaction_proof_runs_the_requested_transaction() {
    let client = serve(TestBlockChainClient::new());
    assert_eq!(client.transaction_proof(execution(vec![5])).items, vec![vec![1], vec![2]]);
    let executed = client.client.executed.lock().unwrap();
    assert_eq!(
        *executed,
        vec![(
            Transaction {
                nonce: num(21),
                gas_price: num(200),
                gas: num(100),
                action: Action::Call(Address([2; 20])),
                value: num(300),
                data: vec![5],
            },
            Address([1; 20]),
            BlockId::Hash(byte_hash(11)),
        )]
    );
}

#[test]
fn transaction_proof_fails() {
    let client = serve(TestBlockChainClient::new());
    assert!(client.transaction_proof(execution(vec![])).items.is_empty());
    let client = serve(TestBlockChainClient::ignorant());
    assert!(client.transaction_proof(execution(vec![5])).items.is_empty());
    assert!(client.client.executed.lock().unwrap().is_empty());
}

#[test]
fn pool_is_propagated_in_order() {
    let client = serve(TestBlockChainClient::new());
    assert_eq!(client.transactions_to_propagate(), vec![pending(1), pending(2)]);
}

#[test]
fn epoch_signal_by_block() {
    let client = serve(TestBlockChainClient::new());
    assert_eq!(client.epoch_signal(CompleteSignalRequest { block_hash: byte_hash(15) }).signal, vec![1, 2, 3]);
    assert!(client.epoch_signal(CompleteSignalRequest { block_hash: byte_hash(16) }).signal.is_empty());
}
