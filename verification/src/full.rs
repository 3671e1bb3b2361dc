//! The provider that serves a full client.
use crate::answers::{route_depth, submitted_transactions};
use crate::block::{
    BasicAccount, BlockChainInfo, BlockHeader, BlockId, Body, Header, LocalizedReceipt,
    PendingTransaction, PruningInfo, TreeRoute, VerifiedTransaction, H256, U256,
};
use crate::cht::{prove_header, CanonicalHashTries};
use crate::client::ProvingBlockChainClient;
use crate::encoding::list_items;
use crate::provider::Provider;
use crate::request::{
    AccountResponse, BodyResponse, CodeResponse, CompleteAccountRequest, CompleteBodyRequest,
    CompleteCodeRequest, CompleteExecutionRequest, CompleteHeaderProofRequest,
    CompleteReceiptsRequest, CompleteSignalRequest, CompleteStorageRequest,
    CompleteTransactionIndexRequest, ExecutionResponse, HeaderProofResponse, ReceiptsResponse,
    SignalResponse, StorageResponse, TransactionIndexResponse,
};
use std::sync::Arc;
use vstd::prelude::*;

verus! {

/// A full client, served to peers. The client is shared with the rest of the node.
pub struct FullProvider<T: ?Sized> {
    /// The client.
    pub client: Arc<T>,
}

// Each answer is made from what the client answers to the questions that are named.
impl<T: ProvingBlockChainClient + CanonicalHashTries + ?Sized> Provider for FullProvider<T> {
    fn chain_info(&self) -> (info: BlockChainInfo)
        ensures
            call_ensures(T::chain_info, (&*self.client,), info),
    {
        self.client.chain_info()
    }

    fn reorg_depth(&self, a: &H256, b: &H256) -> (depth: Option<u64>)
        ensures
            exists|route: Option<TreeRoute>|
                {
                    &&& #[trigger] call_ensures(T::tree_route, (&*self.client, a, b), route)
                    &&& depth == crate::answers::depth_on(route)
                    &&& depth is Some <==> route is Some
                    &&& route is Some ==> depth->0 == route->0.index
                },
    {
        let route = self.client.tree_route(a, b);
        assert(call_ensures(T::tree_route, (&*self.client, a, b), route));
        route_depth(route)
    }

    fn earliest_state(&self) -> (number: Option<u64>)
        ensures
            exists|info: PruningInfo| #[trigger]
                call_ensures(T::pruning_info, (&*self.client,), info) && number == Some(info.earliest_state),
    {
        let info = self.client.pruning_info();
        assert(call_ensures(T::pruning_info, (&*self.client,), info));
        Some(info.earliest_state)
    }

    fn block_header(&self, id: BlockId) -> (header: Header)
        ensures
            exists|found: Option<BlockHeader>| #[trigger]
                call_ensures(T::block_header, (&*self.client, id), found)
                    && header.answers(found),
    {
        let found = self.client.block_header(id);
        assert(call_ensures(T::block_header, (&*self.client, id), found));
        Header::from_found(found)
    }

    fn transaction_index(&self, req: CompleteTransactionIndexRequest) -> (response:
        TransactionIndexResponse)
        ensures
            exists|found: Option<LocalizedReceipt>| #[trigger]
                call_ensures(T::transaction_receipt, (&*self.client, req.hash), found) && response.answers(
                    found,
                ),
    {
        let found = self.client.transaction_receipt(req.hash);
        assert(call_ensures(T::transaction_receipt, (&*self.client, req.hash), found));
        TransactionIndexResponse::from_found(found)
    }

    fn block_body(&self, req: CompleteBodyRequest) -> (response: BodyResponse)
        ensures
            exists|found: Option<Body>| #[trigger]
                call_ensures(
                    T::block_body,
                    (&*self.client, BlockId::Hash(req.hash)),
                    found,
                ) && response.answers(found),
    {
        let id = BlockId::Hash(req.hash);
        let found = self.client.block_body(id);
        assert(call_ensures(T::block_body, (&*self.client, id), found));
        BodyResponse::from_found(found)
    }

    /// The receipts that the client's list was made from, in their order.
    fn block_receipts(&self, req: CompleteReceiptsRequest) -> (response: ReceiptsResponse)
        ensures
            exists|found: Option<Vec<u8>>| #[trigger]
                call_ensures(T::encoded_block_receipts, (&*self.client, &req.hash), found) && match found {
                    Some(encoded) => {
                        &&& response.encoded() == crate::encoding::rlp_list_items(encoded@)
                        &&& forall|receipts: Seq<Seq<u8>>| #[trigger]
                            crate::encoding::is_list_of(encoded@, receipts) ==> response.encoded()
                                == receipts
                    },
                    None => response.receipts@.len() == 0,
                },
    {
        let found = self.client.encoded_block_receipts(&req.hash);
        assert(call_ensures(T::encoded_block_receipts, (&*self.client, &req.hash), found));
        match found {
            Some(encoded) => ReceiptsResponse::from_items(list_items(&encoded)),
            None => ReceiptsResponse::default(),
        }
    }

    fn account_proof(&self, req: CompleteAccountRequest) -> (response: AccountResponse)
        ensures
            exists|found: Option<(Vec<Vec<u8>>, BasicAccount)>| #[trigger]
                call_ensures(
                    T::prove_account,
                    (&*self.client, req.address_hash, BlockId::Hash(req.block_hash)),
                    found,
                ) && response.answers(found),
    {
        let id = BlockId::Hash(req.block_hash);
        let found = self.client.prove_account(req.address_hash, id);
        assert(call_ensures(T::prove_account, (&*self.client, req.address_hash, id), found));
        AccountResponse::from_found(found)
    }

    fn storage_proof(&self, req: CompleteStorageRequest) -> (response: StorageResponse)
        ensures
            exists|found: Option<(Vec<Vec<u8>>, H256)>| #[trigger]
                call_ensures(
                    T::prove_storage,
                    (&*self.client, req.address_hash, req.key_hash, BlockId::Hash(req.block_hash)),
                    found,
                ) && response.answers(found),
    {
        let id = BlockId::Hash(req.block_hash);
        let found = self.client.prove_storage(req.address_hash, req.key_hash, id);
        assert(call_ensures(T::prove_storage, (&*self.client, req.address_hash, req.key_hash, id), found));
        StorageResponse::from_found(found)
    }

    fn contract_code(&self, req: CompleteCodeRequest) -> (response: CodeResponse)
        ensures
            exists|found: Option<Vec<u8>>| #[trigger]
                call_ensures(T::state_data, (&*self.client, &req.code_hash), found) && response.answers(
                    found,
                ),
    {
        let found = self.client.state_data(&req.code_hash);
        assert(call_ensures(T::state_data, (&*self.client, &req.code_hash), found));
        CodeResponse::from_found(found)
    }

    /// The trie that holds the block is built, and the block in it proved.
    fn header_proof(&self, req: CompleteHeaderProofRequest) -> (response: HeaderProofResponse)
        ensures
            crate::cht::answers_number(&*self.client, req.num, response),
    {
        let cht_number = self.client.block_to_cht_number(req.num);
        assert(call_ensures(T::block_to_cht_number, (&*self.client, req.num), cht_number));
        match cht_number {
            None => {
                assert(call_ensures(T::block_to_cht_number, (&*self.client, req.num), None::<u64>));
                HeaderProofResponse::default()
            },
            Some(cht_number) => {
                let (start, blocks) = self.client.begin(cht_number);
                let response = prove_header(&*self.client, req.num, start, blocks);
                assert(crate::cht::answers_in(
                    &*self.client,
                    req.num,
                    cht_number,
                    start,
                    blocks,
                    response,
                ));
                response
            },
        }
    }

    fn transaction_proof(&self, req: CompleteExecutionRequest) -> (response: ExecutionResponse)
        ensures
            exists|nonce: Option<U256>| #[trigger]
                call_ensures(T::nonce, (&*self.client, &req.from, BlockId::Hash(req.block_hash)), nonce)
                    && match nonce {
                    None => response.items@.len() == 0,
                    Some(nonce) => exists|found: Option<(Vec<u8>, Vec<Vec<u8>>)>| #[trigger]
                        call_ensures(
                            T::prove_transaction,
                            (
                                &*self.client,
                                req.transaction(nonce),
                                req.from,
                                BlockId::Hash(req.block_hash),
                            ),
                            found,
                        ) && response.answers(found),
                },
    {
        let id = BlockId::Hash(req.block_hash);
        let sender = req.from;
        let nonce = self.client.nonce(&sender, id);
        assert(call_ensures(T::nonce, (&*self.client, &req.from, id), nonce));
        match nonce {
            None => ExecutionResponse::default(),
            Some(nonce) => {
                let ghost transaction = req.transaction(nonce);
                let found = self.client.prove_transaction(req.into_transaction(nonce), sender, id);
                assert(call_ensures(T::prove_transaction, (&*self.client, transaction, sender, id), found));
                ExecutionResponse::from_found(found)
            },
        }
    }

    fn transactions_to_propagate(&self) -> (transactions: Vec<PendingTransaction>)
        ensures
            exists|pool: Vec<Arc<VerifiedTransaction>>| #[trigger]
                call_ensures(
                    T::transactions_to_propagate,
                    (&*self.client,),
                    pool,
                ) && crate::answers::are_submitted(transactions@, pool@),
    {
        let pool = self.client.transactions_to_propagate();
        assert(call_ensures(
            T::transactions_to_propagate,
            (&*self.client,),
            pool,
        ));
        submitted_transactions(pool)
    }

    fn epoch_signal(&self, req: CompleteSignalRequest) -> (response: SignalResponse)
        ensures
            exists|found: Option<Vec<u8>>| #[trigger]
                call_ensures(
                    T::epoch_signal,
                    (&*self.client, req.block_hash),
                    found,
                ) && response.answers(found),
    {
        let found = self.client.epoch_signal(req.block_hash);
        assert(call_ensures(
            T::epoch_signal,
            (&*self.client, req.block_hash),
            found,
        ));
        SignalResponse::from_found(found)
    }
}

} // verus!
