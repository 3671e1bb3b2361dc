//! The answer to a request, from what the client found.
use crate::block::{
    BasicAccount, BlockHeader, Body, Header, LocalizedReceipt, PendingTransaction, Receipt,
    Transaction, TreeRoute, VerifiedTransaction, H256, U256,
};
use crate::cht::TrieError;
use crate::encoding::list_of_empty_lists;
use crate::request::{
    AccountResponse, BodyResponse, CodeResponse, CompleteExecutionRequest, ExecutionResponse,
    HeaderProofResponse, ReceiptsResponse, SignalResponse, StorageResponse,
    TransactionIndexResponse, TransactionIndexResponseInner,
};
use std::sync::Arc;
use vstd::prelude::*;

verus! {

/// The depth of the common ancestor on a route.
pub open spec fn depth_on(route: Option<TreeRoute>) -> Option<u64> {
    match route {
        Some(route) => Some(route.index as u64),
        None => None,
    }
}

/// The depth of the common ancestor of two blocks, from the route between them.
pub fn route_depth(route: Option<TreeRoute>) -> (depth: Option<u64>)
    ensures
        depth == depth_on(route),
{
    match route {
        Some(route) => Some(route.index as u64),
        None => None,
    }
}

impl Header {
    /// The header that was found; where none was, a list with one empty list in it.
    pub open spec fn answers(self, found: Option<BlockHeader>) -> bool {
        match found {
            Some(block) => self == Header::Block(block),
            None => self is Empty && self.bytes() == seq![0xc1u8, 0xc0u8],
        }
    }

    /// The answer to a request for a header.
    pub fn from_found(found: Option<BlockHeader>) -> (header: Self)
        ensures
            header.answers(found),
    {
        match found {
            Some(block) => Header::Block(block),
            None => {
                let encoded = list_of_empty_lists(1);
                assert(encoded@ =~= seq![0xc1u8, 0xc0u8]);
                Header::Empty(encoded)
            },
        }
    }
}

impl TransactionIndexResponse {
    /// The place that the receipt tells.
    pub open spec fn answers(self, found: Option<LocalizedReceipt>) -> bool {
        match found {
            Some(receipt) => self.inner == Some(
                TransactionIndexResponseInner {
                    num: receipt.block_number,
                    hash: receipt.block_hash,
                    index: receipt.transaction_index as u64,
                },
            ),
            None => self.inner is None,
        }
    }

    /// The answer to a request for the index of a transaction.
    pub fn from_found(found: Option<LocalizedReceipt>) -> (response: Self)
        ensures
            response.answers(found),
    {
        match found {
            Some(receipt) => TransactionIndexResponse {
                inner: Some(
                    TransactionIndexResponseInner {
                        num: receipt.block_number,
                        hash: receipt.block_hash,
                        index: receipt.transaction_index as u64,
                    },
                ),
            },
            None => TransactionIndexResponse::default(),
        }
    }
}

impl BodyResponse {
    /// The body that was found; where none was, a list with two empty lists in it.
    pub open spec fn answers(self, found: Option<Body>) -> bool {
        match found {
            Some(body) => self.body == body,
            None => self.body.encoded@ == seq![0xc2u8, 0xc0u8, 0xc0u8],
        }
    }

    /// The answer to a request for a body.
    pub fn from_found(found: Option<Body>) -> (response: Self)
        ensures
            response.answers(found),
    {
        match found {
            Some(body) => BodyResponse { body },
            None => {
                let encoded = list_of_empty_lists(2);
                assert(encoded@ =~= seq![0xc2u8, 0xc0u8, 0xc0u8]);
                BodyResponse { body: Body { encoded } }
            },
        }
    }
}

impl ReceiptsResponse {
    /// The response with these encoded receipts.
    pub fn from_items(items: Vec<Vec<u8>>) -> (response: Self)
        ensures
            response.encoded() == items@.map_values(|item: Vec<u8>| item@),
    {
        let ghost all = items@;
        let mut receipts: Vec<Receipt> = Vec::new();
        for item in iter: items.into_iter()
            invariant
                iter.seq() == all,
                receipts@.len() == iter.index(),
                forall|i: int| 0 <= i < receipts@.len() ==> receipts@[i].encoded == all[i],
        {
            receipts.push(Receipt { encoded: item });
        }
        let response = ReceiptsResponse { receipts };
        assert(response.encoded() =~= all.map_values(|item: Vec<u8>| item@));
        response
    }
}

impl AccountResponse {
    /// The proof that was found, and the account it proves.
    pub open spec fn answers(self, found: Option<(Vec<Vec<u8>>, BasicAccount)>) -> bool {
        match found {
            Some((proof, account)) => {
                &&& self.proof == proof
                &&& self.nonce == account.nonce
                &&& self.balance == account.balance
                &&& self.code_hash == account.code_hash
                &&& self.storage_root == account.storage_root
            },
            None => self.is_default(),
        }
    }

    /// The answer to a request for an account.
    pub fn from_found(found: Option<(Vec<Vec<u8>>, BasicAccount)>) -> (response: Self)
        ensures
            response.answers(found),
    {
        match found {
            Some((proof, account)) => AccountResponse {
                proof,
                nonce: account.nonce,
                balance: account.balance,
                code_hash: account.code_hash,
                storage_root: account.storage_root,
            },
            None => AccountResponse::default(),
        }
    }
}

impl StorageResponse {
    /// The proof that was found, and the entry it proves.
    pub open spec fn answers(self, found: Option<(Vec<Vec<u8>>, H256)>) -> bool {
        match found {
            Some((proof, value)) => self.proof == proof && self.value == value,
            None => self.is_default(),
        }
    }

    /// The answer to a request for a storage entry.
    pub fn from_found(found: Option<(Vec<Vec<u8>>, H256)>) -> (response: Self)
        ensures
            response.answers(found),
    {
        match found {
            Some((proof, value)) => StorageResponse { proof, value },
            None => StorageResponse::default(),
        }
    }
}

impl CodeResponse {
    /// The code that was found.
    pub open spec fn answers(self, found: Option<Vec<u8>>) -> bool {
        match found {
            Some(code) => self.code == code,
            None => self.code@.len() == 0,
        }
    }

    /// The answer to a request for code.
    pub fn from_found(found: Option<Vec<u8>>) -> (response: Self)
        ensures
            response.answers(found),
    {
        match found {
            Some(code) => CodeResponse { code },
            None => CodeResponse::default(),
        }
    }
}

impl HeaderProofResponse {
    /// The proof that the trie gave, for a block with that hash and that total
    /// difficulty.
    pub open spec fn answers(
        self,
        proved: Result<Option<Vec<Vec<u8>>>, TrieError>,
        hash: H256,
        td: U256,
    ) -> bool {
        match proved {
            Ok(Some(proof)) => self.proof == proof && self.hash == hash && self.td == td,
            _ => self.is_default(),
        }
    }

    /// The answer to a request for a header proof, once the trie is built.
    pub fn from_proved(
        proved: Result<Option<Vec<Vec<u8>>>, TrieError>,
        hash: H256,
        td: U256,
    ) -> (response: Self)
        ensures
            response.answers(proved, hash, td),
    {
        match proved {
            Ok(Some(proof)) => HeaderProofResponse { proof, hash, td },
            Ok(None) => HeaderProofResponse::default(),
            Err(_) => HeaderProofResponse::default(),
        }
    }
}

impl CompleteExecutionRequest {
    /// The transaction that is asked for, with the sender's nonce.
    pub open spec fn transaction(self, nonce: U256) -> Transaction {
        Transaction {
            nonce,
            gas_price: self.gas_price,
            gas: self.gas,
            action: self.action,
            value: self.value,
            data: self.data,
        }
    }

    /// The transaction that is asked for, with the sender's nonce.
    pub fn into_transaction(self, nonce: U256) -> (transaction: Transaction)
        ensures
            transaction == self.transaction(nonce),
            transaction.nonce == nonce,
            transaction.gas_price == self.gas_price,
            transaction.gas == self.gas,
            transaction.action == self.action,
            transaction.value == self.value,
            transaction.data == self.data,
    {
        Transaction {
            nonce,
            gas_price: self.gas_price,
            gas: self.gas,
            action: self.action,
            value: self.value,
            data: self.data,
        }
    }
}

impl ExecutionResponse {
    /// The state items of the execution; its output is left out.
    pub open spec fn answers(self, found: Option<(Vec<u8>, Vec<Vec<u8>>)>) -> bool {
        match found {
            Some((_, items)) => self.items == items,
            None => self.items@.len() == 0,
        }
    }

    /// The answer to a request for the proof of an execution.
    pub fn from_found(found: Option<(Vec<u8>, Vec<Vec<u8>>)>) -> (response: Self)
        ensures
            response.answers(found),
    {
        match found {
            Some((_, items)) => ExecutionResponse { items },
            None => ExecutionResponse::default(),
        }
    }
}

impl SignalResponse {
    /// The signal that was found.
    pub open spec fn answers(self, found: Option<Vec<u8>>) -> bool {
        match found {
            Some(signal) => self.signal == signal,
            None => self.signal@.len() == 0,
        }
    }

    /// The answer to a request for a signal.
    pub fn from_found(found: Option<Vec<u8>>) -> (response: Self)
        ensures
            response.answers(found),
    {
        match found {
            Some(signal) => SignalResponse { signal },
            None => SignalResponse::default(),
        }
    }
}

/// The transactions as they were submitted.
pub open spec fn are_submitted(
    submitted: Seq<PendingTransaction>,
    transactions: Seq<Arc<VerifiedTransaction>>,
) -> bool {
    &&& submitted.len() == transactions.len()
    &&& forall|i: int|
        0 <= i < submitted.len() ==> (#[trigger] submitted[i])@ == transactions[i].submitted()@
}

/// The transactions of a pool as they were submitted, in their order.
pub fn submitted_transactions(transactions: Vec<Arc<VerifiedTransaction>>) -> (submitted: Vec<
    PendingTransaction,
>)
    ensures
        are_submitted(submitted@, transactions@),
{
    let mut submitted: Vec<PendingTransaction> = Vec::new();
    let mut i: usize = 0;
    while i < transactions.len()
        invariant
            i <= transactions@.len(),
            are_submitted(submitted@, transactions@.take(i as int)),
        decreases transactions@.len() - i,
    {
        submitted.push(transactions[i].pending().clone());
        i += 1;
    }
    assert(transactions@.take(i as int) =~= transactions@);
    submitted
}

} // verus!
