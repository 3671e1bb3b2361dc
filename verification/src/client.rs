//! What a provider asks of the node it serves. Nothing is taken for granted of the
//! answers: a chain grows and is pruned between one question and the next.
use crate::block::{
    Address, BasicAccount, BlockChainInfo, BlockHeader, BlockId, Body, LocalizedReceipt,
    PendingTransaction, PruningInfo, Transaction, TreeRoute, VerifiedTransaction, H256, U256,
};
use std::sync::Arc;
use vstd::prelude::*;

verus! {

/// A full client, which can prove what it knows.
pub trait ProvingBlockChainClient: Send + Sync {
    /// The state of the chain.
    fn chain_info(&self) -> (info: BlockChainInfo);

    /// The route from one block to another, where both are known and connected.
    fn tree_route(&self, from: &H256, to: &H256) -> (route: Option<TreeRoute>);

    /// What was pruned.
    fn pruning_info(&self) -> (info: PruningInfo);

    /// The header of a block.
    fn block_header(&self, id: BlockId) -> (header: Option<BlockHeader>);

    /// The total difficulty up to a block.
    fn block_total_difficulty(&self, id: BlockId) -> (difficulty: Option<U256>);

    /// The body of a block.
    fn block_body(&self, id: BlockId) -> (body: Option<Body>);

    /// The receipt of the transaction with that hash.
    fn transaction_receipt(&self, hash: H256) -> (receipt: Option<LocalizedReceipt>);

    /// The RLP list of the receipts of the block with that hash.
    fn encoded_block_receipts(&self, hash: &H256) -> (receipts: Option<Vec<u8>>);

    /// A proof of an account, by the hash of its address, and the account.
    fn prove_account(&self, address_hash: H256, id: BlockId) -> (proof: Option<
        (Vec<Vec<u8>>, BasicAccount),
    >);

    /// A proof of a storage entry, by the hashes of address and key, and the entry.
    fn prove_storage(&self, address_hash: H256, key_hash: H256, id: BlockId) -> (proof: Option<
        (Vec<Vec<u8>>, H256),
    >);

    /// The state item with that hash.
    fn state_data(&self, hash: &H256) -> (item: Option<Vec<u8>>);

    /// The nonce of an account.
    fn nonce(&self, address: &Address, id: BlockId) -> (nonce: Option<U256>);

    /// Executes a transaction as if the sender had signed it. Gives the output and
    /// all state items that the execution needs.
    fn prove_transaction(&self, transaction: Transaction, sender: Address, id: BlockId) -> (proof:
        Option<(Vec<u8>, Vec<Vec<u8>>)>);

    /// Transactions of the pool that are to be sent on.
    fn transactions_to_propagate(&self) -> (transactions: Vec<Arc<VerifiedTransaction>>);

    /// The signal of an epoch change in the block with that hash.
    fn epoch_signal(&self, block_hash: H256) -> (signal: Option<Vec<u8>>);
}

/// A light client.
pub trait LightChainClient: Send + Sync {
    /// The state of the chain.
    fn chain_info(&self) -> (info: BlockChainInfo);
}

/// Something that holds a light client.
pub trait AsLightClient {
    /// The light client's type.
    type Client: LightChainClient;

    /// The light client.
    fn as_light_client(&self) -> (client: &Self::Client);
}

/// A queue of transactions to be relayed.
pub trait TransactionQueue: Send + Sync {
    /// The transactions that may be sent with that best block.
    fn ready_transactions(&self, best_block_number: u64, best_block_timestamp: u64) -> (ready: Vec<
        PendingTransaction,
    >);
}

} // verus!
