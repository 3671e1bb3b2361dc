//! The provider that a light client is.
use crate::block::{BlockChainInfo, BlockId, Header, PendingTransaction, H256};
use crate::client::{AsLightClient, LightChainClient, TransactionQueue};
use crate::provider::Provider;
use crate::request::{
    AccountResponse, BodyResponse, CodeResponse, CompleteAccountRequest, CompleteBodyRequest,
    CompleteCodeRequest, CompleteExecutionRequest, CompleteHeaderProofRequest,
    CompleteHeadersRequest, CompleteReceiptsRequest, CompleteSignalRequest, CompleteStorageRequest,
    CompleteTransactionIndexRequest, ExecutionResponse, HeaderProofResponse, HeadersResponse,
    ReceiptsResponse, SignalResponse, StorageResponse, TransactionIndexResponse,
};
use parking_lot::RwLock;
use std::ops::Deref;
use std::sync::Arc;
use vstd::prelude::*;

verus! {

/// The light client "provider" implementation. This wraps a light client and
/// a light transaction queue.
#[verifier::reject_recursive_types(Q)]
pub struct LightProvider<L, Q> {
    client: Arc<L>,
    tx_queue: Arc<RwLock<Q>>,
}

impl<L, Q> LightProvider<L, Q> {
    /// The holder of the light client.
    pub closed spec fn holder(self) -> Arc<L> {
        self.client
    }

    /// The transaction queue.
    pub closed spec fn queue(self) -> Arc<RwLock<Q>> {
        self.tx_queue
    }

    /// Create a new `LightProvider` from the given client and transaction queue.
    pub fn new(client: Arc<L>, tx_queue: Arc<RwLock<Q>>) -> (provider: Self)
        ensures
            provider.holder() == client,
            provider.queue() == tx_queue,
    {
        LightProvider { client, tx_queue }
    }
}

impl<L: AsLightClient, Q> LightProvider<L, Q> {
    /// The light client may report that state of the chain.
    pub open spec fn reports(self, info: BlockChainInfo) -> bool {
        exists|client: &L::Client|
            {
                &&& #[trigger] call_ensures(L::as_light_client, (&*self.holder(),), client)
                &&& call_ensures(<L::Client as LightChainClient>::chain_info, (client,), info)
            }
    }
}

// Chain data is not served: every request for it gets the default answer.
impl<L: AsLightClient + Send + Sync, Q: TransactionQueue> Provider for LightProvider<L, Q> {
    fn chain_info(&self) -> (info: BlockChainInfo)
        ensures
            self.reports(info),
    {
        let client = self.client.as_light_client();
        assert(call_ensures(L::as_light_client, (&*self.holder(),), client));
        client.chain_info()
    }

    fn reorg_depth(&self, a: &H256, b: &H256) -> (depth: Option<u64>)
        ensures
            depth is None,
    {
        None
    }

    fn earliest_state(&self) -> (number: Option<u64>)
        ensures
            number is None,
    {
        None
    }

    fn block_header(&self, id: BlockId) -> (header: Header)
        ensures
            header is Empty,
            header.bytes().len() == 0,
    {
        Header::default()
    }

    fn transaction_index(&self, req: CompleteTransactionIndexRequest) -> (response:
        TransactionIndexResponse)
        ensures
            response.inner is None,
    {
        TransactionIndexResponse::default()
    }

    fn block_body(&self, req: CompleteBodyRequest) -> (response: BodyResponse)
        ensures
            response.body.encoded@.len() == 0,
    {
        BodyResponse::default()
    }

    fn block_receipts(&self, req: CompleteReceiptsRequest) -> (response: ReceiptsResponse)
        ensures
            response.receipts@.len() == 0,
    {
        ReceiptsResponse::default()
    }

    fn account_proof(&self, req: CompleteAccountRequest) -> (response: AccountResponse)
        ensures
            response.is_default(),
    {
        AccountResponse::default()
    }

    fn storage_proof(&self, req: CompleteStorageRequest) -> (response: StorageResponse)
        ensures
            response.is_default(),
    {
        StorageResponse::default()
    }

    fn contract_code(&self, req: CompleteCodeRequest) -> (response: CodeResponse)
        ensures
            response.code@.len() == 0,
    {
        CodeResponse::default()
    }

    fn header_proof(&self, req: CompleteHeaderProofRequest) -> (response: HeaderProofResponse)
        ensures
            response.is_default(),
    {
        HeaderProofResponse::default()
    }

    fn transaction_proof(&self, req: CompleteExecutionRequest) -> (response: ExecutionResponse)
        ensures
            response.items@.len() == 0,
    {
        ExecutionResponse::default()
    }

    fn epoch_signal(&self, req: CompleteSignalRequest) -> (response: SignalResponse)
        ensures
            response.signal@.len() == 0,
    {
        SignalResponse::default()
    }

    /// The transactions of the queue that are ready on the client's chain.
    fn transactions_to_propagate(&self) -> (transactions: Vec<PendingTransaction>)
        ensures
            exists|info: BlockChainInfo, queue: &Q|
                {
                    &&& self.reports(info)
                    &&& crate::lock::may_read(&*self.queue(), queue)
                    &&& #[trigger] call_ensures(
                        Q::ready_transactions,
                        (queue, info.best_block_number, info.best_block_timestamp),
                        transactions,
                    )
                },
    {
        let info = Provider::chain_info(self);
        let guard = self.tx_queue.read();
        assert(call_ensures(RwLock::<Q>::read, (&*self.queue(),), guard));
        let queue = guard.deref();
        assert(crate::lock::may_read(&*self.queue(), queue));
        let ready = queue.ready_transactions(info.best_block_number, info.best_block_timestamp);
        assert(call_ensures(
            Q::ready_transactions,
            (queue, info.best_block_number, info.best_block_timestamp),
            ready,
        ));
        ready
    }
}

impl<L: AsLightClient, Q> AsLightClient for LightProvider<L, Q> {
    type Client = L::Client;

    fn as_light_client(&self) -> (client: &L::Client)
        ensures
            call_ensures(L::as_light_client, (&*self.holder(),), client),
    {
        self.client.as_light_client()
    }
}

/// A light provider shares the client and the queue that it was made from: what it
/// reports, and the light client that it gives out, are the given client's, and what it
/// relays are the ready transactions of the queue that a reader finds under the given
/// lock, whoever wrote it there.
pub proof fn law_light_shares_client_and_queue<
    L: AsLightClient + Send + Sync,
    Q: TransactionQueue,
>(
    client: Arc<L>,
    tx_queue: Arc<RwLock<Q>>,
    provider: LightProvider<L, Q>,
    light_client: &L::Client,
    transactions: Vec<PendingTransaction>,
)
    requires
        call_ensures(LightProvider::<L, Q>::new, (client, tx_queue), provider),
        call_ensures(
            <LightProvider<L, Q> as AsLightClient>::as_light_client,
            (&provider,),
            light_client,
        ),
        call_ensures(
            <LightProvider<L, Q> as Provider>::transactions_to_propagate,
            (&provider,),
            transactions,
        ),
    ensures
        call_ensures(L::as_light_client, (&*client,), light_client),
        exists|own: &L::Client, info: BlockChainInfo, queue: &Q|
            {
                &&& call_ensures(L::as_light_client, (&*client,), own)
                &&& #[trigger] call_ensures(
                    <L::Client as LightChainClient>::chain_info,
                    (own,),
                    info,
                )
                &&& crate::lock::may_read(&*tx_queue, queue)
                &&& #[trigger] call_ensures(
                    Q::ready_transactions,
                    (queue, info.best_block_number, info.best_block_timestamp),
                    transactions,
                )
            },
{
}

/// A light provider answers every request for headers with none: it knows no header.
pub proof fn law_light_serves_no_headers<L: AsLightClient + Send + Sync, Q: TransactionQueue>(
    provider: &LightProvider<L, Q>,
    req: CompleteHeadersRequest,
    response: HeadersResponse,
)
    requires
        call_ensures(
            <LightProvider<L, Q> as Provider>::block_headers,
            (provider, req),
            response,
        ),
    ensures
        response.headers@.len() == 0,
{
    if req.max > 0 {
        let finds = |id: BlockId, header: Header|
            call_ensures(<LightProvider<L, Q> as Provider>::block_header, (provider, id), header);
        let info = choose|info: BlockChainInfo| #[trigger]
            call_ensures(<LightProvider<L, Q> as Provider>::chain_info, (provider,), info)
                && crate::headers::headers_answer(
                req,
                info.best_block_number,
                finds,
                response.headers@,
            );
        crate::headers::law_nothing_found(req, info.best_block_number, finds, response.headers@);
    }
}

} // verus!
