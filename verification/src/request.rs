//! The requests of a peer, complete, and the responses to them.
use crate::block::{Action, Address, Body, Header, Receipt, H256, U256};
use vstd::prelude::*;

verus! {

/// Names the first block of a headers request.
#[derive(Clone, Copy, Debug, PartialEq, Eq)]
pub enum HashOrNumber {
    /// The block with this hash.
    Hash(H256),
    /// The canonical block with this number.
    Number(u64),
}

/// Asks for a list of headers.
#[derive(Clone, Copy, Debug, PartialEq, Eq)]
pub struct CompleteHeadersRequest {
    /// The first block.
    pub start: HashOrNumber,
    /// How many blocks to pass over between one header and the next.
    pub skip: u64,
    /// How many headers to answer at most.
    pub max: u64,
    /// Whether the block numbers go down.
    pub reverse: bool,
}

/// A list of headers.
#[derive(Clone, Debug, PartialEq, Eq)]
pub struct HeadersResponse {
    /// The headers.
    pub headers: Vec<Header>,
}

impl Default for HeadersResponse {
    fn default() -> (response: Self)
        ensures
            response.headers@.len() == 0,
    {
        HeadersResponse { headers: Vec::new() }
    }
}

/// Asks where a transaction was mined.
#[derive(Clone, Copy, Debug, PartialEq, Eq)]
pub struct CompleteTransactionIndexRequest {
    /// Hash of the transaction.
    pub hash: H256,
}

/// Where a transaction was mined.
#[derive(Clone, Copy, Debug, PartialEq, Eq)]
pub struct TransactionIndexResponseInner {
    /// Number of the block.
    pub num: u64,
    /// Hash of the block.
    pub hash: H256,
    /// Position of the transaction in the block.
    pub index: u64,
}

/// Where a transaction was mined, if it was.
#[derive(Clone, Copy, Debug, PartialEq, Eq)]
pub struct TransactionIndexResponse {
    /// The place, where it is known.
    pub inner: Option<TransactionIndexResponseInner>,
}

impl Default for TransactionIndexResponse {
    fn default() -> (response: Self)
        ensures
            response.inner is None,
    {
        TransactionIndexResponse { inner: None }
    }
}

/// Asks for the body of a block.
#[derive(Clone, Copy, Debug, PartialEq, Eq)]
pub struct CompleteBodyRequest {
    /// Hash of the block.
    pub hash: H256,
}

/// The body of a block.
#[derive(Clone, Debug, PartialEq, Eq)]
pub struct BodyResponse {
    /// The encoded body.
    pub body: Body,
}

impl Default for BodyResponse {
    fn default() -> (response: Self)
        ensures
            response.body.encoded@.len() == 0,
    {
        BodyResponse { body: Body::default() }
    }
}

/// Asks for the receipts of a block.
#[derive(Clone, Copy, Debug, PartialEq, Eq)]
pub struct CompleteReceiptsRequest {
    /// Hash of the block.
    pub hash: H256,
}

/// The receipts of a block.
#[derive(Clone, Debug, PartialEq, Eq)]
pub struct ReceiptsResponse {
    /// The encoded receipts, in the order of the block's transactions.
    pub receipts: Vec<Receipt>,
}

impl ReceiptsResponse {
    /// The RLP of each receipt.
    pub open spec fn encoded(self) -> Seq<Seq<u8>> {
        self.receipts@.map_values(|receipt: Receipt| receipt.encoded@)
    }
}

impl Default for ReceiptsResponse {
    fn default() -> (response: Self)
        ensures
            response.receipts@.len() == 0,
    {
        ReceiptsResponse { receipts: Vec::new() }
    }
}

/// Asks for a proof of an account.
#[derive(Clone, Copy, Debug, PartialEq, Eq)]
pub struct CompleteAccountRequest {
    /// Hash of the block whose state is meant.
    pub block_hash: H256,
    /// Hash of the account's address.
    pub address_hash: H256,
}

/// A proof of an account, and the account.
#[derive(Clone, Debug, PartialEq, Eq)]
pub struct AccountResponse {
    /// Trie nodes that prove the account.
    pub proof: Vec<Vec<u8>>,
    /// The account's nonce.
    pub nonce: U256,
    /// The account's balance.
    pub balance: U256,
    /// Hash of the account's code.
    pub code_hash: H256,
    /// Root of the account's storage.
    pub storage_root: H256,
}

impl AccountResponse {
    /// Nothing is proved.
    pub open spec fn is_default(self) -> bool {
        &&& self.proof@.len() == 0
        &&& self.nonce.is_zero()
        &&& self.balance.is_zero()
        &&& self.code_hash.is_zero()
        &&& self.storage_root.is_zero()
    }
}

impl Default for AccountResponse {
    fn default() -> (response: Self)
        ensures
            response.is_default(),
    {
        AccountResponse {
            proof: Vec::new(),
            nonce: U256::default(),
            balance: U256::default(),
            code_hash: H256::default(),
            storage_root: H256::default(),
        }
    }
}

/// Asks for a proof of a storage entry.
#[derive(Clone, Copy, Debug, PartialEq, Eq)]
pub struct CompleteStorageRequest {
    /// Hash of the block whose state is meant.
    pub block_hash: H256,
    /// Hash of the account's address.
    pub address_hash: H256,
    /// Hash of the entry's key.
    pub key_hash: H256,
}

/// A proof of a storage entry, and the entry.
#[derive(Clone, Debug, PartialEq, Eq)]
pub struct StorageResponse {
    /// Trie nodes that prove the entry.
    pub proof: Vec<Vec<u8>>,
    /// The entry's value.
    pub value: H256,
}

impl StorageResponse {
    /// Nothing is proved.
    pub open spec fn is_default(self) -> bool {
        &&& self.proof@.len() == 0
        &&& self.value.is_zero()
    }
}

impl Default for StorageResponse {
    fn default() -> (response: Self)
        ensures
            response.is_default(),
    {
        StorageResponse { proof: Vec::new(), value: H256::default() }
    }
}

/// Asks for the code of a contract.
#[derive(Clone, Copy, Debug, PartialEq, Eq)]
pub struct CompleteCodeRequest {
    /// Hash of the block whose state is meant.
    pub block_hash: H256,
    /// Hash of the code.
    pub code_hash: H256,
}

/// The code of a contract.
#[derive(Clone, Debug, PartialEq, Eq)]
pub struct CodeResponse {
    /// The code.
    pub code: Vec<u8>,
}

impl Default for CodeResponse {
    fn default() -> (response: Self)
        ensures
            response.code@.len() == 0,
    {
        CodeResponse { code: Vec::new() }
    }
}

/// Asks for a proof of a header in a canonical hash trie.
#[derive(Clone, Copy, Debug, PartialEq, Eq)]
pub struct CompleteHeaderProofRequest {
    /// Number of the block.
    pub num: u64,
}

/// A proof of a header in a canonical hash trie, and what it proves.
#[derive(Clone, Debug, PartialEq, Eq)]
pub struct HeaderProofResponse {
    /// Trie nodes that prove the entry of the block.
    pub proof: Vec<Vec<u8>>,
    /// Hash of the block.
    pub hash: H256,
    /// Total difficulty up to the block.
    pub td: U256,
}

impl HeaderProofResponse {
    /// Nothing is proved.
    pub open spec fn is_default(self) -> bool {
        &&& self.proof@.len() == 0
        &&& self.hash.is_zero()
        &&& self.td.is_zero()
    }

    /// Whether the response holds no proof.
    pub fn is_none(&self) -> (none: bool)
        ensures
            none == (self.proof@.len() == 0),
    {
        self.proof.len() == 0
    }

    /// Whether the response holds a proof.
    pub fn is_some(&self) -> (some: bool)
        ensures
            some == (self.proof@.len() > 0),
    {
        !self.is_none()
    }
}

impl Default for HeaderProofResponse {
    fn default() -> (response: Self)
        ensures
            response.is_default(),
    {
        HeaderProofResponse { proof: Vec::new(), hash: H256::default(), td: U256::default() }
    }
}

/// Asks for a proof of the execution of a transaction.
#[derive(Clone, Debug, PartialEq, Eq)]
pub struct CompleteExecutionRequest {
    /// Hash of the block whose state is meant.
    pub block_hash: H256,
    /// The sender.
    pub from: Address,
    /// What the transaction does.
    pub action: Action,
    /// Gas that is paid for.
    pub gas: U256,
    /// Price of a unit of gas.
    pub gas_price: U256,
    /// Value that is transferred.
    pub value: U256,
    /// Input data.
    pub data: Vec<u8>,
}

/// A proof of the execution of a transaction.
#[derive(Clone, Debug, PartialEq, Eq)]
pub struct ExecutionResponse {
    /// All state items that the execution needs.
    pub items: Vec<Vec<u8>>,
}

impl Default for ExecutionResponse {
    fn default() -> (response: Self)
        ensures
            response.items@.len() == 0,
    {
        ExecutionResponse { items: Vec::new() }
    }
}

/// Asks for the signal of an epoch change.
#[derive(Clone, Copy, Debug, PartialEq, Eq)]
pub struct CompleteSignalRequest {
    /// Hash of the signalling block.
    pub block_hash: H256,
}

/// The signal of an epoch change.
#[derive(Clone, Debug, PartialEq, Eq)]
pub struct SignalResponse {
    /// The signal.
    pub signal: Vec<u8>,
}

impl Default for SignalResponse {
    fn default() -> (response: Self)
        ensures
            response.signal@.len() == 0,
    {
        SignalResponse { signal: Vec::new() }
    }
}

} // verus!
