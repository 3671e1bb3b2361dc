//! What a light provider gives.
use crate::block::{BlockChainInfo, BlockId, Header, PendingTransaction, H256};
use crate::client::{AsLightClient, LightChainClient, TransactionQueue};
use crate::light::LightProvider;
use crate::provider::Provider;
use crate::request::{
    AccountResponse, BodyResponse, CodeResponse, CompleteAccountRequest, CompleteBodyRequest,
    CompleteCodeRequest, CompleteExecutionRequest, CompleteHeaderProofRequest,
    CompleteReceiptsRequest, CompleteSignalRequest, CompleteStorageRequest,
    CompleteTransactionIndexRequest, ExecutionResponse, HeaderProofResponse, ReceiptsResponse,
    SignalResponse, StorageResponse, TransactionIndexResponse,
};
use parking_lot::{RwLock, RwLockReadGuard};
use std::ops::Deref;
use std::sync::Arc;
use vstd::prelude::*;

verus! {

/// A light provider reports the state that the client it was made from reports, gives out
/// that client, and relays what the queue it was made from has ready for the best block
/// that was reported, by number and timestamp.
pub proof fn law_light_provider<L: AsLightClient + Send + Sync, Q: TransactionQueue>(
    client: Arc<L>,
    tx_queue: Arc<RwLock<Q>>,
    provider: LightProvider<L, Q>,
    info: BlockChainInfo,
    light_client: &L::Client,
    transactions: Vec<PendingTransaction>,
)
    requires
        call_ensures(LightProvider::<L, Q>::new, (client, tx_queue), provider),
        call_ensures(<LightProvider<L, Q> as Provider>::chain_info, (&provider,), info),
        call_ensures(
            <LightProvider<L, Q> as AsLightClient>::as_light_client,
            (&provider,),
            light_client,
        ),
        call_ensures(
            <LightProvider<L, Q> as Provider>::transactions_to_propagate,
            (&provider,),
            transactions,
        ),
    ensures
        exists|own: &L::Client|
            {
                &&& #[trigger] call_ensures(L::as_light_client, (&*client,), own)
                &&& call_ensures(<L::Client as LightChainClient>::chain_info, (own,), info)
            },
        call_ensures(L::as_light_client, (&*client,), light_client),
        exists|
            own: &L::Client,
            reported: BlockChainInfo,
            guard: RwLockReadGuard<'_, Q>,
            queue: &Q,
        |
            {
                &&& call_ensures(L::as_light_client, (&*client,), own)
                &&& #[trigger] call_ensures(
                    <L::Client as LightChainClient>::chain_info,
                    (own,),
                    reported,
                )
                &&& call_ensures(RwLock::<Q>::read, (&*tx_queue,), guard)
                &&& #[trigger] call_ensures(
                    <RwLockReadGuard<'_, Q> as Deref>::deref,
                    (&guard,),
                    queue,
                )
                &&& #[trigger] call_ensures(
                    Q::ready_transactions,
                    (queue, reported.best_block_number, reported.best_block_timestamp),
                    transactions,
                )
            },
{
    let (reported, queue) = choose|reported: BlockChainInfo, queue: &Q|
        {
            &&& provider.reports(reported)
            &&& crate::lock::may_read(&*provider.queue(), queue)
            &&& #[trigger] call_ensures(
                Q::ready_transactions,
                (queue, reported.best_block_number, reported.best_block_timestamp),
                transactions,
            )
        };
    let own = choose|own: &L::Client|
        {
            &&& #[trigger] call_ensures(L::as_light_client, (&*client,), own)
            &&& call_ensures(<L::Client as LightChainClient>::chain_info, (own,), reported)
        };
    let guard = choose|guard: RwLockReadGuard<'_, Q>|
        {
            &&& #[trigger] call_ensures(RwLock::<Q>::read, (&*tx_queue,), guard)
            &&& call_ensures(<RwLockReadGuard<'_, Q> as Deref>::deref, (&guard,), queue)
        };
    assert(call_ensures(<L::Client as LightChainClient>::chain_info, (own,), reported));
    assert(call_ensures(<RwLockReadGuard<'_, Q> as Deref>::deref, (&guard,), queue));
}

/// A light provider serves no data of the chain: there is no depth and no earliest state,
/// and headers, bodies, receipts, places, code and signals are empty.
pub proof fn law_light_has_no_data<L: AsLightClient + Send + Sync, Q: TransactionQueue>(
    provider: &LightProvider<L, Q>,
    a: &H256,
    b: &H256,
    depth: Option<u64>,
    earliest: Option<u64>,
    id: BlockId,
    header: Header,
    index_req: CompleteTransactionIndexRequest,
    index: TransactionIndexResponse,
    body_req: CompleteBodyRequest,
    body: BodyResponse,
    receipts_req: CompleteReceiptsRequest,
    receipts: ReceiptsResponse,
    code_req: CompleteCodeRequest,
    code: CodeResponse,
    signal_req: CompleteSignalRequest,
    signal: SignalResponse,
)
    requires
        call_ensures(<LightProvider<L, Q> as Provider>::reorg_depth, (provider, a, b), depth),
        call_ensures(<LightProvider<L, Q> as Provider>::earliest_state, (provider,), earliest),
        call_ensures(<LightProvider<L, Q> as Provider>::block_header, (provider, id), header),
        call_ensures(
            <LightProvider<L, Q> as Provider>::transaction_index,
            (provider, index_req),
            index,
        ),
        call_ensures(<LightProvider<L, Q> as Provider>::block_body, (provider, body_req), body),
        call_ensures(
            <LightProvider<L, Q> as Provider>::block_receipts,
            (provider, receipts_req),
            receipts,
        ),
        call_ensures(<LightProvider<L, Q> as Provider>::contract_code, (provider, code_req), code),
        call_ensures(
            <LightProvider<L, Q> as Provider>::epoch_signal,
            (provider, signal_req),
            signal,
        ),
    ensures
        depth is None,
        earliest is None,
        header is Empty,
        header->Empty_0@.len() == 0,
        index.inner is None,
        body.body.encoded@.len() == 0,
        receipts.receipts@.len() == 0,
        code.code@.len() == 0,
        signal.signal@.len() == 0,
{
}

/// A light provider proves nothing: no response has a node, and all else is zero.
pub proof fn law_light_proves_nothing<L: AsLightClient + Send + Sync, Q: TransactionQueue>(
    provider: &LightProvider<L, Q>,
    account_req: CompleteAccountRequest,
    account: AccountResponse,
    storage_req: CompleteStorageRequest,
    storage: StorageResponse,
    header_req: CompleteHeaderProofRequest,
    header: HeaderProofResponse,
    execution_req: CompleteExecutionRequest,
    execution: ExecutionResponse,
)
    requires
        call_ensures(
            <LightProvider<L, Q> as Provider>::account_proof,
            (provider, account_req),
            account,
        ),
        call_ensures(
            <LightProvider<L, Q> as Provider>::storage_proof,
            (provider, storage_req),
            storage,
        ),
        call_ensures(
            <LightProvider<L, Q> as Provider>::header_proof,
            (provider, header_req),
            header,
        ),
        call_ensures(
            <LightProvider<L, Q> as Provider>::transaction_proof,
            (provider, execution_req),
            execution,
        ),
    ensures
        account.proof@.len() == 0,
        crate::laws::values::zero_number(account.nonce),
        crate::laws::values::zero_number(account.balance),
        crate::laws::values::zero_hash(account.code_hash),
        crate::laws::values::zero_hash(account.storage_root),
        storage.proof@.len() == 0,
        crate::laws::values::zero_hash(storage.value),
        crate::laws::values::nothing_proved(header),
        execution.items@.len() == 0,
{
}

} // verus!
