//! What each operation on a full client gives, of what the client answers.
use crate::block::{
    BasicAccount, BlockChainInfo, BlockHeader, BlockId, Body, Header, LocalizedReceipt,
    PendingTransaction, PruningInfo, Transaction, TreeRoute, VerifiedTransaction, H256, U256,
};
use crate::cht::CanonicalHashTries;
use crate::client::ProvingBlockChainClient;
use crate::full::FullProvider;
use crate::provider::Provider;
use crate::request::{
    AccountResponse, BodyResponse, CodeResponse, CompleteAccountRequest, CompleteBodyRequest,
    CompleteCodeRequest, CompleteExecutionRequest, CompleteReceiptsRequest, CompleteSignalRequest,
    CompleteStorageRequest, CompleteTransactionIndexRequest, ExecutionResponse, ReceiptsResponse,
    SignalResponse, StorageResponse, TransactionIndexResponse,
};
use std::sync::Arc;
use vstd::prelude::*;

verus! {

/// The state of the chain is what the client reports.
pub proof fn law_chain_info<T: ProvingBlockChainClient + CanonicalHashTries + ?Sized>(
    provider: &FullProvider<T>,
    info: BlockChainInfo,
)
    requires
        call_ensures(<FullProvider<T> as Provider>::chain_info, (provider,), info),
    ensures
        call_ensures(T::chain_info, (&*provider.client,), info),
{
}

/// The depth of a reorganisation is the place of the common ancestor on the client's
/// route from the first block to the second, whatever follows it; there is none without
/// a route.
pub proof fn law_reorg_depth<T: ProvingBlockChainClient + CanonicalHashTries + ?Sized>(
    provider: &FullProvider<T>,
    a: &H256,
    b: &H256,
    depth: Option<u64>,
)
    requires
        call_ensures(<FullProvider<T> as Provider>::reorg_depth, (provider, a, b), depth),
    ensures
        exists|route: Option<TreeRoute>|
            {
                &&& #[trigger] call_ensures(T::tree_route, (&*provider.client, a, b), route)
                &&& depth is Some <==> route is Some
                &&& route is Some ==> depth->0 == route->0.index
            },
{
}

/// The earliest state is the one that the client has not pruned.
pub proof fn law_earliest_state<T: ProvingBlockChainClient + CanonicalHashTries + ?Sized>(
    provider: &FullProvider<T>,
    number: Option<u64>,
)
    requires
        call_ensures(<FullProvider<T> as Provider>::earliest_state, (provider,), number),
    ensures
        exists|info: PruningInfo|
            {
                &&& #[trigger] call_ensures(T::pruning_info, (&*provider.client,), info)
                &&& number is Some
                &&& number->0 == info.earliest_state
            },
{
}

/// The header is the client's, unchanged; where the client has none, it is empty, and
/// its bytes are a list with one empty list in it.
pub proof fn law_block_header<T: ProvingBlockChainClient + CanonicalHashTries + ?Sized>(
    provider: &FullProvider<T>,
    id: BlockId,
    header: Header,
)
    requires
        call_ensures(<FullProvider<T> as Provider>::block_header, (provider, id), header),
    ensures
        exists|found: Option<BlockHeader>|
            {
                &&& #[trigger] call_ensures(T::block_header, (&*provider.client, id), found)
                &&& found is Some ==> header is Block && header->Block_0 == found->0
                &&& found is None ==> header is Empty && header->Empty_0@ == seq![0xc1u8, 0xc0u8]
            },
{
}

/// A transaction is placed where the client's receipt of it says: block number, block
/// hash and position; without a receipt it has no place.
pub proof fn law_transaction_index<T: ProvingBlockChainClient + CanonicalHashTries + ?Sized>(
    provider: &FullProvider<T>,
    req: CompleteTransactionIndexRequest,
    response: TransactionIndexResponse,
)
    requires
        call_ensures(<FullProvider<T> as Provider>::transaction_index, (provider, req), response),
    ensures
        exists|found: Option<LocalizedReceipt>|
            {
                &&& #[trigger] call_ensures(
                    T::transaction_receipt,
                    (&*provider.client, req.hash),
                    found,
                )
                &&& response.inner is Some <==> found is Some
                &&& found is Some ==> response.inner->0.num == found->0.block_number
                &&& found is Some ==> response.inner->0.hash == found->0.block_hash
                &&& found is Some ==> response.inner->0.index == found->0.transaction_index
            },
{
}

/// The body is the client's, byte for byte; where the client has none, it is a list with
/// two empty lists in it.
pub proof fn law_block_body<T: ProvingBlockChainClient + CanonicalHashTries + ?Sized>(
    provider: &FullProvider<T>,
    req: CompleteBodyRequest,
    response: BodyResponse,
)
    requires
        call_ensures(<FullProvider<T> as Provider>::block_body, (provider, req), response),
    ensures
        exists|found: Option<Body>|
            {
                &&& #[trigger] call_ensures(
                    T::block_body,
                    (&*provider.client, BlockId::Hash(req.hash)),
                    found,
                )
                &&& found is Some ==> response.body.encoded@ == found->0.encoded@
                &&& found is None ==> response.body.encoded@ == seq![0xc2u8, 0xc0u8, 0xc0u8]
            },
{
}

/// The receipts are the items of the client's list: as many, in the same order, each byte
/// for byte. Without a list there are none.
pub proof fn law_block_receipts<T: ProvingBlockChainClient + CanonicalHashTries + ?Sized>(
    provider: &FullProvider<T>,
    req: CompleteReceiptsRequest,
    response: ReceiptsResponse,
)
    requires
        call_ensures(<FullProvider<T> as Provider>::block_receipts, (provider, req), response),
    ensures
        exists|found: Option<Vec<u8>>|
            {
                &&& #[trigger] call_ensures(
                    T::encoded_block_receipts,
                    (&*provider.client, &req.hash),
                    found,
                )
                &&& found is None ==> response.receipts@.len() == 0
                &&& found is Some ==> {
                    let items = crate::encoding::rlp_list_items(found->0@);
                    &&& response.receipts@.len() == items.len()
                    &&& forall|i: int|
                        0 <= i < items.len() ==> (#[trigger] response.receipts@[i]).encoded@
                            == items[i]
                }
                &&& found is Some ==> forall|parts: Seq<Seq<u8>>| #[trigger]
                    crate::encoding::is_list_of(found->0@, parts) ==> {
                        &&& response.receipts@.len() == parts.len()
                        &&& forall|i: int|
                            0 <= i < parts.len() ==> (#[trigger] response.receipts@[i]).encoded@
                                == parts[i]
                    }
            },
{
    let found = choose|found: Option<Vec<u8>>|
        {
            &&& #[trigger] call_ensures(
                T::encoded_block_receipts,
                (&*provider.client, &req.hash),
                found,
            )
            &&& match found {
                Some(encoded) => {
                    &&& response.encoded() == crate::encoding::rlp_list_items(encoded@)
                    &&& forall|receipts: Seq<Seq<u8>>| #[trigger]
                        crate::encoding::is_list_of(encoded@, receipts) ==> response.encoded()
                            == receipts
                },
                None => response.receipts@.len() == 0,
            }
        };
    assert forall|i: int| 0 <= i < response.receipts@.len() implies (
    #[trigger] response.receipts@[i]).encoded@ == response.encoded()[i] by {}
    assert(response.encoded().len() == response.receipts@.len());
}

/// The account is the one that the client proves: every field is that field of the
/// account, and the proof has the same nodes. Where the client proves none, there are no
/// nodes, and every field is zero.
pub proof fn law_account_proof<T: ProvingBlockChainClient + CanonicalHashTries + ?Sized>(
    provider: &FullProvider<T>,
    req: CompleteAccountRequest,
    response: AccountResponse,
)
    requires
        call_ensures(<FullProvider<T> as Provider>::account_proof, (provider, req), response),
    ensures
        exists|found: Option<(Vec<Vec<u8>>, BasicAccount)>|
            {
                &&& #[trigger] call_ensures(
                    T::prove_account,
                    (&*provider.client, req.address_hash, BlockId::Hash(req.block_hash)),
                    found,
                )
                &&& found is Some ==> {
                    let (proof, account) = found->0;
                    &&& crate::laws::values::same_bytes(response.proof@, proof@)
                    &&& response.nonce == account.nonce
                    &&& response.balance == account.balance
                    &&& response.code_hash == account.code_hash
                    &&& response.storage_root == account.storage_root
                }
                &&& found is None ==> {
                    &&& response.proof@.len() == 0
                    &&& crate::laws::values::zero_number(response.nonce)
                    &&& crate::laws::values::zero_number(response.balance)
                    &&& crate::laws::values::zero_hash(response.code_hash)
                    &&& crate::laws::values::zero_hash(response.storage_root)
                }
            },
{
}

/// The storage entry is the one that the client proves, with the same nodes. Where the
/// client proves none, there are no nodes, and the entry is zero.
pub proof fn law_storage_proof<T: ProvingBlockChainClient + CanonicalHashTries + ?Sized>(
    provider: &FullProvider<T>,
    req: CompleteStorageRequest,
    response: StorageResponse,
)
    requires
        call_ensures(<FullProvider<T> as Provider>::storage_proof, (provider, req), response),
    ensures
        exists|found: Option<(Vec<Vec<u8>>, H256)>|
            {
                &&& #[trigger] call_ensures(
                    T::prove_storage,
                    (
                        &*provider.client,
                        req.address_hash,
                        req.key_hash,
                        BlockId::Hash(req.block_hash),
                    ),
                    found,
                )
                &&& found is Some ==> {
                    let (proof, value) = found->0;
                    &&& crate::laws::values::same_bytes(response.proof@, proof@)
                    &&& response.value == value
                }
                &&& found is None ==> response.proof@.len() == 0
                &&& found is None ==> crate::laws::values::zero_hash(response.value)
            },
{
}

/// The code is the state item with the requested hash, byte for byte, or none.
pub proof fn law_contract_code<T: ProvingBlockChainClient + CanonicalHashTries + ?Sized>(
    provider: &FullProvider<T>,
    req: CompleteCodeRequest,
    response: CodeResponse,
)
    requires
        call_ensures(<FullProvider<T> as Provider>::contract_code, (provider, req), response),
    ensures
        exists|found: Option<Vec<u8>>|
            {
                &&& #[trigger] call_ensures(
                    T::state_data,
                    (&*provider.client, &req.code_hash),
                    found,
                )
                &&& found is Some ==> response.code@ == found->0@
                &&& found is None ==> response.code@.len() == 0
            },
{
}

/// The transaction that is proved has, field by field, what was requested, and the nonce
/// that the client gives for the sender at the requested block; it is proved for that
/// sender at that block. The response has the state items that the client gives, all and
/// in order. Without a nonce, or without a proof, it has none.
pub proof fn law_transaction_proof<T: ProvingBlockChainClient + CanonicalHashTries + ?Sized>(
    provider: &FullProvider<T>,
    req: CompleteExecutionRequest,
    response: ExecutionResponse,
)
    requires
        call_ensures(<FullProvider<T> as Provider>::transaction_proof, (provider, req), response),
    ensures
        exists|nonce: Option<U256>|
            {
                &&& #[trigger] call_ensures(
                    T::nonce,
                    (&*provider.client, &req.from, BlockId::Hash(req.block_hash)),
                    nonce,
                )
                &&& nonce is None ==> response.items@.len() == 0
                &&& nonce is Some ==> exists|
                    transaction: Transaction,
                    found: Option<(Vec<u8>, Vec<Vec<u8>>)>,
                |
                    {
                        &&& #[trigger] call_ensures(
                            T::prove_transaction,
                            (
                                &*provider.client,
                                transaction,
                                req.from,
                                BlockId::Hash(req.block_hash),
                            ),
                            found,
                        )
                        &&& transaction.nonce == nonce->0
                        &&& transaction.action == req.action
                        &&& transaction.gas == req.gas
                        &&& transaction.gas_price == req.gas_price
                        &&& transaction.value == req.value
                        &&& transaction.data@ == req.data@
                        &&& found is Some ==> {
                            let (_, items) = found->0;
                            crate::laws::values::same_bytes(response.items@, items@)
                        }
                        &&& found is None ==> response.items@.len() == 0
                    }
            },
{
}

/// The transactions of the client's pool are all sent on, in order, each as it was
/// submitted.
pub proof fn law_transactions_to_propagate<
    T: ProvingBlockChainClient + CanonicalHashTries + ?Sized,
>(provider: &FullProvider<T>, transactions: Vec<PendingTransaction>)
    requires
        call_ensures(
            <FullProvider<T> as Provider>::transactions_to_propagate,
            (provider,),
            transactions,
        ),
    ensures
        exists|pool: Vec<Arc<VerifiedTransaction>>|
            {
                &&& #[trigger] call_ensures(
                    T::transactions_to_propagate,
                    (&*provider.client,),
                    pool,
                )
                &&& transactions@.len() == pool@.len()
                &&& forall|i: int|
                    0 <= i < pool@.len() ==> {
                        &&& (#[trigger] transactions@[i]).transaction@
                            == pool@[i].submitted().transaction@
                        &&& transactions@[i].condition == pool@[i].submitted().condition
                    }
            },
{
    let pool = choose|pool: Vec<Arc<VerifiedTransaction>>| #[trigger]
        call_ensures(T::transactions_to_propagate, (&*provider.client,), pool)
            && crate::answers::are_submitted(transactions@, pool@);
    assert forall|i: int| 0 <= i < pool@.len() implies {
        &&& (#[trigger] transactions@[i]).transaction@ == pool@[i].submitted().transaction@
        &&& transactions@[i].condition == pool@[i].submitted().condition
    } by {
        assert(transactions@[i]@ == pool@[i].submitted()@);
    }
}

/// The signal is the client's, byte for byte, or none.
pub proof fn law_epoch_signal<T: ProvingBlockChainClient + CanonicalHashTries + ?Sized>(
    provider: &FullProvider<T>,
    req: CompleteSignalRequest,
    response: SignalResponse,
)
    requires
        call_ensures(<FullProvider<T> as Provider>::epoch_signal, (provider, req), response),
    ensures
        exists|found: Option<Vec<u8>>|
            {
                &&& #[trigger] call_ensures(
                    T::epoch_signal,
                    (&*provider.client, req.block_hash),
                    found,
                )
                &&& found is Some ==> response.signal@ == found->0@
                &&& found is None ==> response.signal@.len() == 0
            },
{
}

} // verus!
