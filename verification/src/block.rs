//! Plain values of a chain: hashes, numbers, encoded headers and bodies.
use vstd::prelude::*;

verus! {

/// A 256-bit hash.
#[derive(Clone, Copy, Debug, PartialEq, Eq)]
pub struct H256(pub [u8; 32]);

impl View for H256 {
    type V = Seq<u8>;

    open spec fn view(&self) -> Seq<u8> {
        self.0@
    }
}

impl H256 {
    /// Every byte is zero.
    pub open spec fn is_zero(self) -> bool {
        self@ == Seq::new(32, |i: int| 0u8)
    }

    /// Whether two hashes hold the same bytes.
    pub fn same(&self, other: &H256) -> (equal: bool)
        ensures
            equal == (self@ == other@),
    {
        let mut i: usize = 0;
        while i < 32
            invariant
                i <= 32,
                forall|j: int| 0 <= j < i ==> self@[j] == other@[j],
            decreases 32 - i,
        {
            if self.0[i] != other.0[i] {
                assert(self@[i as int] != other@[i as int]);
                return false;
            }
            i += 1;
        }
        assert(self@ =~= other@);
        true
    }
}

impl Default for H256 {
    fn default() -> (hash: Self)
        ensures
            hash.is_zero(),
    {
        let hash = H256([0; 32]);
        assert(hash@ =~= Seq::new(32, |i: int| 0u8));
        hash
    }
}

/// An unsigned 256-bit number, least significant limb first.
#[derive(Clone, Copy, Debug, PartialEq, Eq)]
pub struct U256(pub [u64; 4]);

impl View for U256 {
    type V = Seq<u64>;

    open spec fn view(&self) -> Seq<u64> {
        self.0@
    }
}

impl U256 {
    /// The number zero.
    pub open spec fn is_zero(self) -> bool {
        self@ == Seq::new(4, |i: int| 0u64)
    }
}

impl Default for U256 {
    fn default() -> (number: Self)
        ensures
            number.is_zero(),
    {
        let number = U256([0; 4]);
        assert(number@ =~= Seq::new(4, |i: int| 0u64));
        number
    }
}

/// The address of an account.
#[derive(Clone, Copy, Debug, PartialEq, Eq)]
pub struct Address(pub [u8; 20]);

/// Names a block of the chain.
#[derive(Clone, Copy, Debug, PartialEq, Eq)]
pub enum BlockId {
    /// The block with this hash.
    Hash(H256),
    /// The canonical block with this number.
    Number(u64),
    /// The first block.
    Earliest,
    /// The newest block.
    Latest,
}

/// State of the chain as a whole.
#[derive(Clone, Copy, Debug, PartialEq, Eq)]
pub struct BlockChainInfo {
    /// Total difficulty up to the best block.
    pub total_difficulty: U256,
    /// Hash of the first block.
    pub genesis_hash: H256,
    /// Hash of the best block.
    pub best_block_hash: H256,
    /// Number of the best block.
    pub best_block_number: u64,
    /// Timestamp of the best block.
    pub best_block_timestamp: u64,
}

/// The header of a block, encoded, with the fields that a provider reads.
#[derive(Clone, Debug, PartialEq, Eq)]
pub struct BlockHeader {
    /// Number of the block.
    pub number: u64,
    /// Hash of the block.
    pub hash: H256,
    /// Hash of the block's parent.
    pub parent_hash: H256,
    /// The header's RLP.
    pub encoded: Vec<u8>,
}

/// What a provider answers when it is asked for a header.
#[derive(Clone, Debug, PartialEq, Eq)]
pub enum Header {
    /// No header: bytes that stand in for one.
    Empty(Vec<u8>),
    /// The header of a block.
    Block(BlockHeader),
}

impl Header {
    /// The bytes of the answer.
    pub open spec fn bytes(self) -> Seq<u8> {
        match self {
            Header::Empty(encoded) => encoded@,
            Header::Block(block) => block.encoded@,
        }
    }

    /// It is the header of a block with that hash.
    pub open spec fn is_of(self, hash: H256) -> bool {
        self matches Header::Block(block) && block.hash@ == hash@
    }

    /// Whether the answer holds no header.
    pub fn is_empty(&self) -> (empty: bool)
        ensures
            empty == (*self is Empty),
    {
        match self {
            Header::Empty(_) => true,
            Header::Block(_) => false,
        }
    }

    /// The encoded answer.
    pub fn encoded(&self) -> (encoded: &Vec<u8>)
        ensures
            encoded@ == self.bytes(),
    {
        match self {
            Header::Empty(encoded) => encoded,
            Header::Block(block) => &block.encoded,
        }
    }

    /// Whether it is the header of a block with that hash.
    pub fn is_header_of(&self, hash: &H256) -> (found: bool)
        ensures
            found == self.is_of(*hash),
    {
        match self {
            Header::Empty(_) => false,
            Header::Block(block) => block.hash.same(hash),
        }
    }
}

impl Default for Header {
    fn default() -> (header: Self)
        ensures
            header is Empty,
            header.bytes().len() == 0,
    {
        Header::Empty(Vec::new())
    }
}

/// The encoded body of a block.
#[derive(Clone, Debug, PartialEq, Eq)]
pub struct Body {
    /// The body's RLP.
    pub encoded: Vec<u8>,
}

impl Default for Body {
    fn default() -> (body: Self)
        ensures
            body.encoded@.len() == 0,
    {
        Body { encoded: Vec::new() }
    }
}

/// The encoded receipt of one transaction.
#[derive(Clone, Debug, PartialEq, Eq)]
pub struct Receipt {
    /// The receipt's RLP.
    pub encoded: Vec<u8>,
}

/// Where a transaction was mined, as its receipt tells.
#[derive(Clone, Copy, Debug, PartialEq, Eq)]
pub struct LocalizedReceipt {
    /// Number of the block.
    pub block_number: u64,
    /// Hash of the block.
    pub block_hash: H256,
    /// Position of the transaction in the block.
    pub transaction_index: usize,
}

/// An account of the state.
#[derive(Clone, Copy, Debug, PartialEq, Eq)]
pub struct BasicAccount {
    /// The account's nonce.
    pub nonce: U256,
    /// The account's balance.
    pub balance: U256,
    /// Root of the account's storage.
    pub storage_root: H256,
    /// Hash of the account's code.
    pub code_hash: H256,
}

/// What a transaction does.
#[derive(Clone, Copy, Debug, PartialEq, Eq)]
pub enum Action {
    /// It creates a contract.
    Create,
    /// It calls the contract at this address.
    Call(Address),
}

/// An unsigned transaction.
#[derive(Clone, Debug, PartialEq, Eq)]
pub struct Transaction {
    /// Nonce of the sender.
    pub nonce: U256,
    /// Price of a unit of gas.
    pub gas_price: U256,
    /// Gas that is paid for.
    pub gas: U256,
    /// What the transaction does.
    pub action: Action,
    /// Value that is transferred.
    pub value: U256,
    /// Input data.
    pub data: Vec<u8>,
}

/// What a pending transaction waits for.
#[derive(Clone, Copy, Debug, PartialEq, Eq)]
pub enum Condition {
    /// The block with this number.
    Number(u64),
    /// A block with at least this timestamp.
    Timestamp(u64),
}

/// A transaction that is ready to be sent on.
#[derive(Debug, PartialEq, Eq)]
pub struct PendingTransaction {
    /// The signed transaction's RLP.
    pub transaction: Vec<u8>,
    /// What it waits for.
    pub condition: Option<Condition>,
}

impl View for PendingTransaction {
    type V = (Seq<u8>, Option<Condition>);

    open spec fn view(&self) -> (Seq<u8>, Option<Condition>) {
        (self.transaction@, self.condition)
    }
}

impl Clone for PendingTransaction {
    fn clone(&self) -> (copy: Self)
        ensures
            copy@ == self@,
    {
        let transaction = self.transaction.clone();
        assert(transaction@ =~= self.transaction@);
        PendingTransaction { transaction, condition: self.condition }
    }
}

/// A transaction of the pool, verified.
#[derive(Clone, Debug, PartialEq, Eq)]
pub struct VerifiedTransaction {
    pending: PendingTransaction,
}

impl VerifiedTransaction {
    /// The transaction as it was submitted.
    pub closed spec fn submitted(self) -> PendingTransaction {
        self.pending
    }

    /// A verified transaction.
    pub fn new(pending: PendingTransaction) -> (transaction: Self)
        ensures
            transaction.submitted() == pending,
    {
        VerifiedTransaction { pending }
    }

    /// The transaction as it was submitted.
    pub fn pending(&self) -> (pending: &PendingTransaction)
        ensures
            *pending == self.submitted(),
    {
        &self.pending
    }
}

/// The route in the block tree from one block to another.
#[derive(Clone, Debug, PartialEq, Eq)]
pub struct TreeRoute {
    /// Hashes of the blocks from the first to the second, without the first.
    pub blocks: Vec<H256>,
    /// Hash of the best common ancestor.
    pub ancestor: H256,
    /// Index in `blocks` at which the ancestor would stand.
    pub index: usize,
}

/// What a client has pruned.
#[derive(Clone, Copy, Debug, PartialEq, Eq)]
pub struct PruningInfo {
    /// Earliest block of the chain that is known.
    pub earliest_chain: u64,
    /// Earliest block whose state is known.
    pub earliest_state: u64,
}

} // verus!
