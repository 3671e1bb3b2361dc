//! What a node offers to its peers.
use crate::block::{BlockChainInfo, BlockId, Header, PendingTransaction, H256};
use crate::headers::{header_numbers, MAX_HEADERS_PER_REQUEST};
use crate::request::{
    AccountResponse, BodyResponse, CodeResponse, CompleteAccountRequest, CompleteBodyRequest,
    CompleteCodeRequest, CompleteExecutionRequest, CompleteHeaderProofRequest,
    CompleteHeadersRequest, CompleteReceiptsRequest, CompleteSignalRequest, CompleteStorageRequest,
    CompleteTransactionIndexRequest, ExecutionResponse, HashOrNumber, HeaderProofResponse,
    HeadersResponse, ReceiptsResponse, SignalResponse, StorageResponse, TransactionIndexResponse,
};
use vstd::prelude::*;

verus! {

/// Defines the operations that a provider for the light subprotocol must fulfill.
pub trait Provider: Send + Sync {
    /// Provide current blockchain info.
    fn chain_info(&self) -> (info: BlockChainInfo);

    /// Find the depth of a common ancestor between two blocks.
    /// If either block is unknown or an ancestor can't be found
    /// then return `None`.
    fn reorg_depth(&self, a: &H256, b: &H256) -> (depth: Option<u64>);

    /// Earliest block where state queries are available.
    /// If `None`, no state queries are servable.
    fn earliest_state(&self) -> (number: Option<u64>);

    /// Provide a list of headers starting at the requested block,
    /// possibly in reverse and skipping `skip` at a time.
    ///
    /// The returned vector may have any length in the range [0, `max`], but the
    /// results within must adhere to the `skip` and `reverse` parameters.
    ///
    /// Blocks are told by what [`Provider::block_header`] answers: where it answers a
    /// number, or a hash, with the header of that very block.
    ///
    /// As it stands here, the list ends before the first block that
    /// [`Provider::block_header`] does not know, and a start that is not canonical is
    /// provided alone.
    fn block_headers(&self, req: CompleteHeadersRequest) -> (response: HeadersResponse)
        ensures
            response.headers@.len() <= req.max,
            crate::headers::headers_serve(
                req,
                |id: BlockId, header: Header| call_ensures(Self::block_header, (self, id), header),
                response.headers@,
            ),
        default_ensures
            response.headers@.len() <= MAX_HEADERS_PER_REQUEST,
            req.max > 0 ==> exists|info: BlockChainInfo| #[trigger]
                call_ensures(Self::chain_info, (self,), info) && crate::headers::headers_answer(
                    req,
                    info.best_block_number,
                    |id: BlockId, header: Header|
                        call_ensures(Self::block_header, (self, id), header),
                    response.headers@,
                ),
    {
        if req.max == 0 {
            return HeadersResponse::default();
        }
        let ghost finds = |id: BlockId, header: Header|
            call_ensures(Self::block_header, (self, id), header);
        let info = self.chain_info();
        assert(call_ensures(Self::chain_info, (self,), info));
        let best = info.best_block_number;
        let ghost mut under_hash: Option<Header> = None;
        let start: u64 = match req.start {
            HashOrNumber::Number(start) => start,
            HashOrNumber::Hash(hash) => {
                let first = self.block_header(BlockId::Hash(hash));
                assert(finds(BlockId::Hash(hash), first));
                let number: u64 = match &first {
                    Header::Empty(_) => {
                        let response = HeadersResponse::default();
                        assert(crate::headers::headers_from(
                            req,
                            best,
                            finds,
                            hash,
                            first,
                            response.headers@,
                        ));
                        return response;
                    },
                    Header::Block(block) => block.number,
                };
                let canonical = self.block_header(BlockId::Number(number));
                assert(finds(BlockId::Number(number), canonical));
                if req.max <= 1 || !canonical.is_header_of(&hash) {
                    // Non-canonical header or single header requested.
                    let response = HeadersResponse { headers: vec![first] };
                    assert(response.headers@ =~= seq![first]);
                    assert(crate::headers::headers_from(
                        req,
                        best,
                        finds,
                        hash,
                        first,
                        response.headers@,
                    ));
                    proof {
                        crate::headers::law_answer_serves(req, best, finds, response.headers@);
                    }
                    return response;
                }
                proof {
                    under_hash = Some(first);
                }
                number
            },
        };
        let numbers = header_numbers(start, best, req.skip, req.max, req.reverse);
        let mut headers: Vec<Header> = Vec::new();
        let mut i: usize = 0;
        while i < numbers.len()
            invariant
                i <= numbers@.len(),
                headers@.len() == i,
                finds == (|id: BlockId, header: Header|
                    call_ensures(Self::block_header, (self, id), header)),
                forall|j: int|
                    0 <= j < i ==> (#[trigger] headers@[j]) is Block && finds(
                        BlockId::Number(numbers@[j]),
                        headers@[j],
                    ),
            ensures
                crate::headers::headers_at(numbers@, finds, headers@),
            decreases numbers@.len() - i,
        {
            let header = self.block_header(BlockId::Number(numbers[i]));
            assert(finds(BlockId::Number(numbers@[i as int]), header));
            if header.is_empty() {
                break;
            }
            headers.push(header);
            i += 1;
        }
        proof {
            if let HashOrNumber::Hash(hash) = req.start {
                assert(crate::headers::headers_from(
                    req,
                    best,
                    finds,
                    hash,
                    under_hash->0,
                    headers@,
                ));
            }
            crate::headers::law_headers_limited(req, best, finds, headers@);
            crate::headers::law_answer_serves(req, best, finds, headers@);
        }
        HeadersResponse { headers }
    }

    /// Get a block header by id.
    fn block_header(&self, id: BlockId) -> (header: Header);

    /// Get a transaction index by hash.
    fn transaction_index(&self, req: CompleteTransactionIndexRequest) -> (response:
        TransactionIndexResponse);

    /// Fulfill a block body request.
    fn block_body(&self, req: CompleteBodyRequest) -> (response: BodyResponse);

    /// Fulfill a request for block receipts.
    fn block_receipts(&self, req: CompleteReceiptsRequest) -> (response: ReceiptsResponse);

    /// Get an account proof.
    fn account_proof(&self, req: CompleteAccountRequest) -> (response: AccountResponse);

    /// Get a storage proof.
    fn storage_proof(&self, req: CompleteStorageRequest) -> (response: StorageResponse);

    /// Provide contract code for the specified (block_hash, code_hash) pair.
    fn contract_code(&self, req: CompleteCodeRequest) -> (response: CodeResponse);

    /// Provide a header proof from a given Canonical Hash Trie as well as the
    /// corresponding header.
    fn header_proof(&self, req: CompleteHeaderProofRequest) -> (response: HeaderProofResponse);

    /// Provide pending transactions.
    fn transactions_to_propagate(&self) -> (transactions: Vec<PendingTransaction>);

    /// Provide a proof-of-execution for the given transaction proof request.
    /// Returns a vector of all state items necessary to execute the transaction.
    fn transaction_proof(&self, req: CompleteExecutionRequest) -> (response: ExecutionResponse);

    /// Provide epoch signal data at given block hash.
    fn epoch_signal(&self, req: CompleteSignalRequest) -> (response: SignalResponse);
}

} // verus!
