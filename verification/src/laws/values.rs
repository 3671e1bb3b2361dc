//! What the values of a chain hold, and what is made from them.
use crate::block::{Header, PendingTransaction, VerifiedTransaction, H256, U256};
use crate::request::HeaderProofResponse;
use vstd::prelude::*;

verus! {

/// The same byte strings, one by one.
pub open spec fn same_bytes(ones: Seq<Vec<u8>>, others: Seq<Vec<u8>>) -> bool {
    &&& ones.len() == others.len()
    &&& forall|i: int| 0 <= i < ones.len() ==> (#[trigger] ones[i])@ == others[i]@
}

/// Every byte of the hash is zero.
pub open spec fn zero_hash(hash: H256) -> bool {
    forall|i: int| 0 <= i < 32 ==> #[trigger] hash.0@[i] == 0
}

/// Every limb of the number is zero.
pub open spec fn zero_number(number: U256) -> bool {
    forall|i: int| 0 <= i < 4 ==> #[trigger] number.0@[i] == 0
}

/// Two hashes are the same where every byte of one is that byte of the other.
pub proof fn law_same_hash(one: &H256, other: &H256, same: bool)
    requires
        call_ensures(H256::same, (one, other), same),
    ensures
        same <==> (forall|i: int| 0 <= i < 32 ==> #[trigger] one.0@[i] == other.0@[i]),
{
    if forall|i: int| 0 <= i < 32 ==> #[trigger] one.0@[i] == other.0@[i] {
        assert(one.0@ =~= other.0@);
    }
}

/// A header is empty, has its bytes and is of a hash by what it holds.
pub proof fn law_header_by_content(
    header: &Header,
    hash: &H256,
    empty: bool,
    encoded: &Vec<u8>,
    found: bool,
)
    requires
        call_ensures(Header::is_empty, (header,), empty),
        call_ensures(Header::encoded, (header,), encoded),
        call_ensures(Header::is_header_of, (header, hash), found),
    ensures
        match *header {
            Header::Empty(bytes) => empty && encoded@ == bytes@ && !found,
            Header::Block(block) => !empty && encoded@ == block.encoded@ && (found <==> (forall|
                i: int,
            |
                0 <= i < 32 ==> #[trigger] block.hash.0@[i] == hash.0@[i])),
        },
{
    if let Header::Block(block) = *header {
        if forall|i: int| 0 <= i < 32 ==> #[trigger] block.hash.0@[i] == hash.0@[i] {
            assert(block.hash.0@ =~= hash.0@);
        }
    }
}

/// A response to a request for a header proof holds one exactly where it has trie nodes.
pub proof fn law_proof_by_nodes(response: &HeaderProofResponse, some: bool, none: bool)
    requires
        call_ensures(HeaderProofResponse::is_some, (response,), some),
        call_ensures(HeaderProofResponse::is_none, (response,), none),
    ensures
        some <==> response.proof@.len() > 0,
        none <==> !some,
{
}

/// A verified transaction gives back what was submitted, and its copy is the same.
pub proof fn law_submitted_is_kept(
    given: PendingTransaction,
    transaction: VerifiedTransaction,
    kept: &PendingTransaction,
    copy: PendingTransaction,
)
    requires
        call_ensures(VerifiedTransaction::new, (given,), transaction),
        call_ensures(VerifiedTransaction::pending, (&transaction,), kept),
        call_ensures(PendingTransaction::clone, (kept,), copy),
    ensures
        *kept == given,
        copy.transaction@ == given.transaction@,
        copy.condition == given.condition,
{
    assert(copy@ == kept@);
}

/// Nothing is proved: no node, and nothing but zeros.
pub open spec fn nothing_proved(response: HeaderProofResponse) -> bool {
    &&& response.proof@.len() == 0
    &&& zero_hash(response.hash)
    &&& zero_number(response.td)
}

} // verus!
